//! Parsing a whole radiotap header into a record of its fields.

use crate::bytes::{align_up, span};
use crate::error::{Error, ErrorKind};
use crate::field::{
    AmpduStatus, Antenna, AntennaNoise, AntennaNoiseDb, AntennaSignal, AntennaSignalDb, Channel,
    Fhss, Flags, Kind, LockQuality, Mcs, Rate, RxFlags, Timestamp, Tsft, TxAttenuation,
    TxAttenuationDb, TxFlags, TxPower, Type, Value, Vht, XChannel,
};
use crate::iter::{
    after_found, lemma_walk_known_advances, preamble, step, vendor_name, walk_known, Iter,
    KnownOutcome, KnownWalk, Namespace, State, Step, VERSION,
};
use vstd::prelude::*;

verus! {

/// A parsed radiotap capture.
#[derive(Clone, Copy, Debug, PartialEq)]
#[non_exhaustive]
pub struct Header {
    /// The length that the header declares for itself.
    pub length: usize,
    pub tsft: Option<Tsft>,
    pub flags: Option<Flags>,
    pub rate: Option<Rate>,
    pub channel: Option<Channel>,
    pub fhss: Option<Fhss>,
    pub antenna_signal: Option<AntennaSignal>,
    pub antenna_noise: Option<AntennaNoise>,
    pub lock_quality: Option<LockQuality>,
    pub tx_attenuation: Option<TxAttenuation>,
    pub tx_attenuation_db: Option<TxAttenuationDb>,
    pub tx_power: Option<TxPower>,
    pub antenna: Option<Antenna>,
    pub antenna_signal_db: Option<AntennaSignalDb>,
    pub antenna_noise_db: Option<AntennaNoiseDb>,
    pub rx_flags: Option<RxFlags>,
    pub tx_flags: Option<TxFlags>,
    pub xchannel: Option<XChannel>,
    pub mcs: Option<Mcs>,
    pub ampdu_status: Option<AmpduStatus>,
    pub vht: Option<Vht>,
    pub timestamp: Option<Timestamp>,
}

impl Header {
    /// The record of a header of the given length with no field in it.
    pub open spec fn empty(length: usize) -> Header {
        Header {
            length,
            tsft: None,
            flags: None,
            rate: None,
            channel: None,
            fhss: None,
            antenna_signal: None,
            antenna_noise: None,
            lock_quality: None,
            tx_attenuation: None,
            tx_attenuation_db: None,
            tx_power: None,
            antenna: None,
            antenna_signal_db: None,
            antenna_noise_db: None,
            rx_flags: None,
            tx_flags: None,
            xchannel: None,
            mcs: None,
            ampdu_status: None,
            vht: None,
            timestamp: None,
        }
    }

    /// The record with a value put in the slot of its type, in place of
    /// what the slot held. A value of a type that is not parsed leaves the
    /// record as it is.
    pub open spec fn store_spec(self, value: Value) -> Header {
        match value {
            Value::Tsft(v) => Header { tsft: Some(v), ..self },
            Value::Flags(v) => Header { flags: Some(v), ..self },
            Value::Rate(v) => Header { rate: Some(v), ..self },
            Value::Channel(v) => Header { channel: Some(v), ..self },
            Value::Fhss(v) => Header { fhss: Some(v), ..self },
            Value::AntennaSignal(v) => Header { antenna_signal: Some(v), ..self },
            Value::AntennaNoise(v) => Header { antenna_noise: Some(v), ..self },
            Value::LockQuality(v) => Header { lock_quality: Some(v), ..self },
            Value::TxAttenuation(v) => Header { tx_attenuation: Some(v), ..self },
            Value::TxAttenuationDb(v) => Header { tx_attenuation_db: Some(v), ..self },
            Value::TxPower(v) => Header { tx_power: Some(v), ..self },
            Value::Antenna(v) => Header { antenna: Some(v), ..self },
            Value::AntennaSignalDb(v) => Header { antenna_signal_db: Some(v), ..self },
            Value::AntennaNoiseDb(v) => Header { antenna_noise_db: Some(v), ..self },
            Value::RxFlags(v) => Header { rx_flags: Some(v), ..self },
            Value::TxFlags(v) => Header { tx_flags: Some(v), ..self },
            Value::XChannel(v) => Header { xchannel: Some(v), ..self },
            Value::Mcs(v) => Header { mcs: Some(v), ..self },
            Value::AmpduStatus(v) => Header { ampdu_status: Some(v), ..self },
            Value::Vht(v) => Header { vht: Some(v), ..self },
            Value::Timestamp(v) => Header { timestamp: Some(v), ..self },
            Value::Unparsed(_) => self,
        }
    }

    /// Creates the record of a header of the given length with no field in
    /// it.
    pub fn new(length: usize) -> (r: Header)
        ensures
            r == Header::empty(length),
    {
        Header {
            length,
            tsft: None,
            flags: None,
            rate: None,
            channel: None,
            fhss: None,
            antenna_signal: None,
            antenna_noise: None,
            lock_quality: None,
            tx_attenuation: None,
            tx_attenuation_db: None,
            tx_power: None,
            antenna: None,
            antenna_signal_db: None,
            antenna_noise_db: None,
            rx_flags: None,
            tx_flags: None,
            xchannel: None,
            mcs: None,
            ampdu_status: None,
            vht: None,
            timestamp: None,
        }
    }

    /// Puts a value in the slot of its type.
    pub fn store(self, value: Value) -> (r: Header)
        ensures
            r == self.store_spec(value),
    {
        let mut header = self;
        match value {
            Value::Tsft(v) => {
                header.tsft = Some(v);
            },
            Value::Flags(v) => {
                header.flags = Some(v);
            },
            Value::Rate(v) => {
                header.rate = Some(v);
            },
            Value::Channel(v) => {
                header.channel = Some(v);
            },
            Value::Fhss(v) => {
                header.fhss = Some(v);
            },
            Value::AntennaSignal(v) => {
                header.antenna_signal = Some(v);
            },
            Value::AntennaNoise(v) => {
                header.antenna_noise = Some(v);
            },
            Value::LockQuality(v) => {
                header.lock_quality = Some(v);
            },
            Value::TxAttenuation(v) => {
                header.tx_attenuation = Some(v);
            },
            Value::TxAttenuationDb(v) => {
                header.tx_attenuation_db = Some(v);
            },
            Value::TxPower(v) => {
                header.tx_power = Some(v);
            },
            Value::Antenna(v) => {
                header.antenna = Some(v);
            },
            Value::AntennaSignalDb(v) => {
                header.antenna_signal_db = Some(v);
            },
            Value::AntennaNoiseDb(v) => {
                header.antenna_noise_db = Some(v);
            },
            Value::RxFlags(v) => {
                header.rx_flags = Some(v);
            },
            Value::TxFlags(v) => {
                header.tx_flags = Some(v);
            },
            Value::XChannel(v) => {
                header.xchannel = Some(v);
            },
            Value::Mcs(v) => {
                header.mcs = Some(v);
            },
            Value::AmpduStatus(v) => {
                header.ampdu_status = Some(v);
            },
            Value::Vht(v) => {
                header.vht = Some(v);
            },
            Value::Timestamp(v) => {
                header.timestamp = Some(v);
            },
            Value::Unparsed(_) => {},
        }
        header
    }

    /// Returns the version of the radiotap header.
    #[inline]
    pub fn version(&self) -> (r: u8)
        ensures
            r == VERSION,
    {
        VERSION
    }

    /// Returns the length of the entire radiotap header.
    #[inline]
    pub fn length(&self) -> (r: usize)
        ensures
            r == self.length,
    {
        self.length
    }
}

/// What becomes of the record when a field of a known type is met at `st`:
/// the field is aligned and then read into its slot, or, where its type is
/// not parsed, stepped over. A field that runs past the end of the capture
/// is an error.
pub open spec fn after_kind(
    data: Seq<u8>,
    presence: Seq<u32>,
    st: State,
    kind: Type,
    header: Header,
) -> Result<Header, ErrorKind>
    decreases 32 * presence.len() - st.position, 1nat,
{
    let start = align_up(st.offset, kind.align_spec() as nat);
    let size = kind.size_spec() as nat;
    if start + size <= data.len() {
        parse_from(
            data,
            presence,
            State { position: st.position, namespace: st.namespace, offset: start + size },
            header.store_spec(Value::decode(kind, span(data, start, size))),
        )
    } else if kind.parsed() {
        Err(ErrorKind::Read(kind.name_spec()))
    } else {
        Err(ErrorKind::Skip)
    }
}

/// The record that the fields from `st` on make of `header`: each field of
/// a known type in the default namespace is read into its slot, everything
/// else is passed over, and the first error ends it.
pub open spec fn parse_from(data: Seq<u8>, presence: Seq<u32>, st: State, header: Header) -> Result<
    Header,
    ErrorKind,
>
    decreases 32 * presence.len() - st.position, 0nat,
{
    if st.position >= 32 * presence.len() {
        Ok(header)
    } else {
        match step(data, presence, st) {
            Step::Pass(next) => parse_from(data, presence, next, header),
            Step::Fail(_) => Err(ErrorKind::Read(vendor_name())),
            Step::Found(next, bit) => match next.namespace {
                Namespace::Default => match Type::of_bit(bit) {
                    Some(kind) => after_kind(data, presence, next, kind, header),
                    None => parse_from(data, presence, next, header),
                },
                Namespace::Vendor(vns) => if next.offset + vns.skip_length <= data.len() {
                    parse_from(
                        data,
                        presence,
                        State {
                            position: next.position,
                            namespace: next.namespace,
                            offset: next.offset + vns.skip_length as nat,
                        },
                        header,
                    )
                } else {
                    Err(ErrorKind::Skip)
                },
            },
        }
    }
}

/// What parsing a capture gives: the record of its fields, or the kind of
/// the error that it is rejected with.
pub open spec fn parse_spec(data: Seq<u8>) -> Result<Header, ErrorKind> {
    match preamble(data) {
        Err(kind) => Err(kind),
        Ok((length, words)) => parse_from(
            data,
            words,
            State { position: 0, namespace: Namespace::Default, offset: 4 + 4 * words.len() },
            Header::empty(length),
        ),
    }
}

/// What a walk to the next field of a known type comes to for the record.
pub open spec fn after_known(data: Seq<u8>, presence: Seq<u32>, w: KnownWalk, header: Header) -> Result<
    Header,
    ErrorKind,
> {
    match w.outcome {
        KnownOutcome::Done => Ok(header),
        KnownOutcome::Fail(kind) => Err(kind),
        KnownOutcome::Yield(kind) => after_kind(data, presence, w.state, kind, header),
    }
}

/// The record that the fields from `st` on make is what the walk to the
/// next field of a known type comes to.
pub proof fn lemma_parse_from(data: Seq<u8>, presence: Seq<u32>, st: State, header: Header)
    ensures
        parse_from(data, presence, st, header) == after_known(
            data,
            presence,
            walk_known(data, presence, st),
            header,
        ),
    decreases 32 * presence.len() - st.position,
{
    if st.position < 32 * presence.len() {
        match step(data, presence, st) {
            Step::Pass(next) => {
                lemma_parse_from(data, presence, next, header);
            },
            Step::Fail(_) => {},
            Step::Found(next, bit) => match next.namespace {
                Namespace::Default => match Type::of_bit(bit) {
                    Some(kind) => {
                        assert(walk_known(data, presence, st) == after_found(
                            data,
                            presence,
                            next,
                            bit,
                        ));
                    },
                    None => {
                        assert(walk_known(data, presence, st) == after_found(
                            data,
                            presence,
                            next,
                            bit,
                        ));
                        lemma_parse_from(data, presence, next, header);
                    },
                },
                Namespace::Vendor(vns) => {
                    assert(walk_known(data, presence, st) == after_found(
                        data,
                        presence,
                        next,
                        bit,
                    ));
                    if next.offset + vns.skip_length <= data.len() {
                        lemma_parse_from(
                            data,
                            presence,
                            State {
                                position: next.position,
                                namespace: next.namespace,
                                offset: next.offset + vns.skip_length as nat,
                            },
                            header,
                        );
                    }
                },
            },
        }
    }
}

/// A set presence bit of the default namespace that stands for no type
/// changes nothing but the bit position: the cursor stays where it is and
/// the record is what the bits after it make.
pub proof fn lemma_unknown_bit(data: Seq<u8>, presence: Seq<u32>, st: State, header: Header)
    requires
        st.position < 32 * presence.len(),
        step(data, presence, st) matches Step::Found(next, bit) && next.namespace
            == Namespace::Default && Type::of_bit(bit).is_none(),
    ensures
        step(data, presence, st) matches Step::Found(next, _) && next.offset == st.offset
            && next.namespace == st.namespace && parse_from(data, presence, st, header)
            == parse_from(data, presence, next, header),
{
}

/// A field within a vendor namespace moves the cursor by exactly the number
/// of bytes that the namespace's descriptor claims, wherever it stood, and
/// the record is what the bits after the field make from there.
pub proof fn lemma_vendor_skip(data: Seq<u8>, presence: Seq<u32>, st: State, header: Header)
    requires
        st.position < 32 * presence.len(),
        step(data, presence, st) matches Step::Found(next, _) && next.namespace matches Namespace::Vendor(
            vns,
        ) && next.offset + vns.skip_length <= data.len(),
    ensures
        step(data, presence, st) matches Step::Found(next, _) && next.namespace matches Namespace::Vendor(
            vns,
        ) && parse_from(data, presence, st, header) == parse_from(
            data,
            presence,
            State {
                position: next.position,
                namespace: next.namespace,
                offset: st.offset + vns.skip_length as nat,
            },
            header,
        ),
{
}

/// Fields are put into the record's slots and nowhere else: the length of
/// the record stays what it was.
pub proof fn lemma_parse_from_length(data: Seq<u8>, presence: Seq<u32>, st: State, header: Header)
    ensures
        parse_from(data, presence, st, header) matches Ok(parsed) ==> parsed.length
            == header.length,
    decreases 32 * presence.len() - st.position,
{
    if st.position < 32 * presence.len() {
        match step(data, presence, st) {
            Step::Pass(next) => {
                lemma_parse_from_length(data, presence, next, header);
            },
            Step::Fail(_) => {},
            Step::Found(next, bit) => match next.namespace {
                Namespace::Default => match Type::of_bit(bit) {
                    Some(kind) => {
                        let start = align_up(next.offset, kind.align_spec() as nat);
                        let size = kind.size_spec() as nat;
                        let value = Value::decode(kind, span(data, start, size));
                        assert(parse_from(data, presence, st, header) == after_kind(
                            data,
                            presence,
                            next,
                            kind,
                            header,
                        ));
                        assert(header.store_spec(value).length == header.length);
                        if start + size <= data.len() {
                            lemma_parse_from_length(
                                data,
                                presence,
                                State {
                                    position: next.position,
                                    namespace: next.namespace,
                                    offset: start + size,
                                },
                                header.store_spec(Value::decode(kind, span(data, start, size))),
                            );
                        }
                    },
                    None => {
                        lemma_parse_from_length(data, presence, next, header);
                    },
                },
                Namespace::Vendor(vns) => {
                    if next.offset + vns.skip_length <= data.len() {
                        lemma_parse_from_length(
                            data,
                            presence,
                            State {
                                position: next.position,
                                namespace: next.namespace,
                                offset: next.offset + vns.skip_length as nat,
                            },
                            header,
                        );
                    }
                },
            },
        }
    }
}

/// The record of a capture that parses holds the length that the third and
/// fourth byte of the capture declare, and the capture is at least that
/// long: the frame that the header describes starts at that offset.
pub proof fn lemma_parsed_length(data: Seq<u8>)
    requires
        parse_spec(data).is_ok(),
    ensures
        data.len() >= 8,
        data[0] == VERSION,
        parse_spec(data).unwrap().length == data[2] + data[3] * 0x100,
        parse_spec(data).unwrap().length <= data.len(),
{
    match preamble(data) {
        Ok((length, words)) => {
            lemma_parse_from_length(
                data,
                words,
                State { position: 0, namespace: Namespace::Default, offset: 4 + 4 * words.len() },
                Header::empty(length),
            );
        },
        Err(_) => {},
    }
}

/// A capture whose first byte is not the supported version is rejected for
/// its version, whatever follows the byte.
pub proof fn lemma_version_gate(data: Seq<u8>)
    requires
        data.len() > 0,
        data[0] != VERSION,
    ensures
        parse_spec(data) == Err::<Header, ErrorKind>(ErrorKind::UnsupportedVersion(data[0])),
{
}

/// A capture of the supported version that is shorter than the length that
/// its header declares is rejected for its length, whatever its presence
/// words and fields are.
pub proof fn lemma_length_gate(data: Seq<u8>)
    requires
        data.len() >= 4,
        data[0] == VERSION,
        data[2] + data[3] * 0x100 > data.len(),
    ensures
        parse_spec(data) == Err::<Header, ErrorKind>(
            ErrorKind::InvalidLength((data[2] + data[3] * 0x100) as usize, data.len() as usize),
        ),
{
}

/// Parse a radiotap header from the given capture.
pub fn parse(capture: &[u8]) -> (r: Result<Header, Error>)
    ensures
        match parse_spec(capture@) {
            Ok(header) => r == Ok::<Header, Error>(header),
            Err(kind) => r matches Err(e) && e.is(kind),
        },
{
    let mut iter = match Iter::new(capture) {
        Ok(iter) => iter.into_default(),
        Err(e) => {
            return Err(e);
        },
    };
    let mut radiotap = Header::new(iter.length());
    loop
        invariant
            iter.inner_spec().wf(),
            iter.inner_spec().data() == capture@,
            parse_spec(capture@) == parse_from(
                capture@,
                iter.inner_spec().presence(),
                iter.inner_spec().state(),
                radiotap,
            ),
        decreases 32 * iter.inner_spec().presence().len() - iter.inner_spec().state().position,
    {
        proof {
            lemma_parse_from(
                capture@,
                iter.inner_spec().presence(),
                iter.inner_spec().state(),
                radiotap,
            );
            lemma_walk_known_advances(
                capture@,
                iter.inner_spec().presence(),
                iter.inner_spec().state(),
            );
        }
        let kind = match iter.next() {
            Ok(Some(kind)) => kind,
            Ok(None) => {
                return Ok(radiotap);
            },
            Err(e) => {
                return Err(e);
            },
        };
        if kind.is_parsed() {
            match iter.read(kind) {
                Ok(value) => {
                    radiotap = radiotap.store(value);
                },
                Err(e) => {
                    return Err(e);
                },
            }
        } else {
            match iter.skip(kind) {
                Ok(()) => {},
                Err(e) => {
                    return Err(e);
                },
            }
        }
    }
}

} // verus!
