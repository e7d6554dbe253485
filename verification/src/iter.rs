//! The header walker: the preamble, the chain of presence words, and the
//! fields that follow them.

use crate::bytes::{align_up, le_u16, le_u32, lemma_align_up, span, valid_align, Cursor};
use crate::error::{Error, ErrorKind};
use crate::field::{Kind, Type, Value, VendorNamespace};
use vstd::prelude::*;

verus! {

/// The radiotap header version.
pub const VERSION: u8 = 0;

/// The presence bit representing the radiotap namespace.
pub const PRESENCE_DEFAULT_NAMESPACE: u32 = 29;

/// The presence bit representing a vendor namespace.
pub const PRESENCE_VENDOR_NAMESPACE: u32 = 30;

/// The presence bit representing another presence word follows.
pub const PRESENCE_EXT: u32 = 31;

/// A radiotap namespace.
#[derive(Debug, Clone, Copy, PartialEq, Eq)]
pub enum Namespace {
    /// The default radiotap namespace.
    Default,
    /// A custom vendor namespace.
    Vendor(VendorNamespace),
}

/// A generic field yielded by the radiotap iterator.
#[derive(Debug, Clone, Copy, PartialEq, Eq)]
pub struct Field {
    /// This field's namespace.
    pub namespace: Namespace,
    /// The presence bit for this field.
    pub bit: u32,
}

impl Field {
    /// Returns this field's namespace.
    pub fn namespace(&self) -> (r: &Namespace)
        ensures
            *r == self.namespace,
    {
        &self.namespace
    }

    /// Returns this field's presence bit number.
    pub fn bit(&self) -> (r: u32)
        ensures
            r == self.bit,
    {
        self.bit
    }
}

/// Whether bit `bit` of a presence word is set.
pub open spec fn bit_set(word: u32, bit: u32) -> bool {
    word & (1u32 << bit) != 0
}

/// The name under which a vendor namespace descriptor is written in errors.
pub open spec fn vendor_name() -> &'static str {
    "VendorNamespace"
}

/// The presence words that start at `offset`: one word of four bytes,
/// little-endian, after another, up to and including the first whose bit 31
/// is not set. There are none where the bytes end before that word does.
pub open spec fn presence_words(data: Seq<u8>, offset: nat) -> Option<Seq<u32>>
    decreases data.len() - offset,
{
    if offset + 4 > data.len() {
        None
    } else {
        let word = le_u32(span(data, offset, 4)) as u32;
        if bit_set(word, PRESENCE_EXT) {
            match presence_words(data, offset + 4) {
                Some(rest) => Some(seq![word] + rest),
                None => None,
            }
        } else {
            Some(seq![word])
        }
    }
}

/// The presence words, where there are any, are one or more words of four
/// bytes that lie within the bytes, each the little-endian value of its four
/// bytes; bit 31 is set in every word but the last.
pub proof fn lemma_presence_words(data: Seq<u8>, offset: nat)
    ensures
        presence_words(data, offset) matches Some(words) ==> {
            &&& words.len() >= 1
            &&& offset + 4 * words.len() <= data.len()
            &&& forall|i: int|
                0 <= i < words.len() ==> #[trigger] words[i] == le_u32(
                    span(data, (offset + 4 * i) as nat, 4),
                ) as u32
            &&& forall|i: int| 0 <= i < words.len() - 1 ==> bit_set(#[trigger] words[i], PRESENCE_EXT)
            &&& !bit_set(words[words.len() - 1], PRESENCE_EXT)
        },
    decreases data.len() - offset,
{
    if offset + 4 <= data.len() {
        let word = le_u32(span(data, offset, 4)) as u32;
        if bit_set(word, PRESENCE_EXT) {
            lemma_presence_words(data, offset + 4);
            match presence_words(data, offset + 4) {
                Some(rest) => {
                    let words = seq![word] + rest;
                    assert forall|i: int| 0 <= i < words.len() implies #[trigger] words[i]
                        == le_u32(span(data, (offset + 4 * i) as nat, 4)) as u32 by {
                        if i > 0 {
                            assert(words[i] == rest[i - 1]);
                            assert((offset + 4 + 4 * (i - 1)) as nat == (offset + 4 * i) as nat);
                        }
                    }
                    assert forall|i: int| 0 <= i < words.len() - 1 implies bit_set(
                        #[trigger] words[i],
                        PRESENCE_EXT,
                    ) by {
                        if i > 0 {
                            assert(words[i] == rest[i - 1]);
                        }
                    }
                    assert(words[words.len() - 1] == rest[rest.len() - 1]);
                },
                None => {},
            }
        }
    }
}

/// What the preamble of a capture holds: the length that it declares for the
/// whole header and its presence words, or the error that it is rejected
/// with. The version is looked at first, then the declared length.
pub open spec fn preamble(data: Seq<u8>) -> Result<(usize, Seq<u32>), ErrorKind> {
    if data.len() < 1 {
        Err(ErrorKind::Header)
    } else if data[0] != VERSION {
        Err(ErrorKind::UnsupportedVersion(data[0]))
    } else if data.len() < 4 {
        Err(ErrorKind::Header)
    } else if le_u16(span(data, 2, 2)) > data.len() {
        Err(ErrorKind::InvalidLength(le_u16(span(data, 2, 2)) as usize, data.len() as usize))
    } else {
        match presence_words(data, 4) {
            Some(words) => Ok((le_u16(span(data, 2, 2)) as usize, words)),
            None => Err(ErrorKind::Header),
        }
    }
}

/// Where a walk stands: at which bit of the presence words, counted through
/// all the words, in which namespace, and at which byte of the capture.
pub struct State {
    pub position: nat,
    pub namespace: Namespace,
    pub offset: nat,
}

/// What the walk does with one presence bit.
pub enum Step {
    /// The bit is not set, or it is a control bit that has been obeyed.
    Pass(State),
    /// The bit is set and stands for a field.
    Found(State, u32),
    /// The bit opens a vendor namespace whose descriptor runs past the end
    /// of the capture.
    Fail(State),
}

/// The step over the presence bit at `st.position`. Bit 29 goes back to the
/// default namespace. Bit 30 aligns to two bytes and reads the six bytes of
/// a vendor namespace descriptor. Bit 31 does nothing here. Any other set
/// bit stands for a field.
pub open spec fn step(data: Seq<u8>, presence: Seq<u32>, st: State) -> Step
    recommends
        st.position < 32 * presence.len(),
{
    let word = presence[(st.position / 32) as int];
    let bit = (st.position % 32) as u32;
    let position = st.position + 1;
    if !bit_set(word, bit) {
        Step::Pass(State { position, namespace: st.namespace, offset: st.offset })
    } else if bit == PRESENCE_DEFAULT_NAMESPACE {
        Step::Pass(State { position, namespace: Namespace::Default, offset: st.offset })
    } else if bit == PRESENCE_VENDOR_NAMESPACE {
        let start = align_up(st.offset, 2);
        if start + 6 <= data.len() {
            Step::Pass(
                State {
                    position,
                    namespace: Namespace::Vendor(VendorNamespace::decode(span(data, start, 6))),
                    offset: start + 6,
                },
            )
        } else {
            Step::Fail(
                State {
                    position,
                    namespace: st.namespace,
                    offset: if start <= data.len() {
                        start
                    } else {
                        st.offset
                    },
                },
            )
        }
    } else if bit == PRESENCE_EXT {
        Step::Pass(State { position, namespace: st.namespace, offset: st.offset })
    } else {
        Step::Found(State { position, namespace: st.namespace, offset: st.offset }, bit)
    }
}

/// How a walk to the next field ends.
pub enum Outcome {
    /// The presence bits are used up.
    Done,
    /// The next field.
    Yield(Field),
    /// A vendor namespace descriptor runs past the end of the capture.
    Fail,
}

/// A walk to the next field: how it ends and where it then stands.
pub struct Walk {
    pub state: State,
    pub outcome: Outcome,
}

/// The walk from `st` to the next presence bit that stands for a field.
pub open spec fn walk(data: Seq<u8>, presence: Seq<u32>, st: State) -> Walk
    decreases 32 * presence.len() - st.position,
{
    if st.position >= 32 * presence.len() {
        Walk { state: st, outcome: Outcome::Done }
    } else {
        match step(data, presence, st) {
            Step::Pass(next) => walk(data, presence, next),
            Step::Found(next, bit) => Walk {
                state: next,
                outcome: Outcome::Yield(Field { namespace: next.namespace, bit }),
            },
            Step::Fail(next) => Walk { state: next, outcome: Outcome::Fail },
        }
    }
}

/// How a walk to the next field of a known type ends.
pub enum KnownOutcome {
    /// The presence bits are used up.
    Done,
    /// The type of the next field.
    Yield(Type),
    /// The walk failed with an error of this kind.
    Fail(ErrorKind),
}

/// A walk to the next field of a known type: how it ends and where it then
/// stands.
pub struct KnownWalk {
    pub state: State,
    pub outcome: KnownOutcome,
}

/// What follows a field that the walk has found, on the way to the next
/// field of a known type. In the default namespace a bit that stands for no
/// type is passed over and the cursor stays where it is. In a vendor
/// namespace every field is answered by skipping the bytes that the
/// descriptor claims.
pub open spec fn after_found(data: Seq<u8>, presence: Seq<u32>, next: State, bit: u32) -> KnownWalk
    decreases 32 * presence.len() - next.position, 1nat,
{
    match next.namespace {
        Namespace::Default => match Type::of_bit(bit) {
            Some(kind) => KnownWalk { state: next, outcome: KnownOutcome::Yield(kind) },
            None => walk_known(data, presence, next),
        },
        Namespace::Vendor(vns) => if next.offset + vns.skip_length <= data.len() {
            walk_known(
                data,
                presence,
                State {
                    position: next.position,
                    namespace: next.namespace,
                    offset: next.offset + vns.skip_length as nat,
                },
            )
        } else {
            KnownWalk { state: next, outcome: KnownOutcome::Fail(ErrorKind::Skip) }
        },
    }
}

/// The walk from `st` to the next field of a known type in the default
/// namespace.
pub open spec fn walk_known(data: Seq<u8>, presence: Seq<u32>, st: State) -> KnownWalk
    decreases 32 * presence.len() - st.position, 0nat,
{
    if st.position >= 32 * presence.len() {
        KnownWalk { state: st, outcome: KnownOutcome::Done }
    } else {
        match step(data, presence, st) {
            Step::Pass(next) => walk_known(data, presence, next),
            Step::Found(next, bit) => after_found(data, presence, next, bit),
            Step::Fail(next) => KnownWalk {
                state: next,
                outcome: KnownOutcome::Fail(ErrorKind::Read(vendor_name())),
            },
        }
    }
}

/// What a walk to the next field comes to on the way to the next field of a
/// known type.
pub open spec fn after_walk(data: Seq<u8>, presence: Seq<u32>, w: Walk) -> KnownWalk {
    match w.outcome {
        Outcome::Done => KnownWalk { state: w.state, outcome: KnownOutcome::Done },
        Outcome::Fail => KnownWalk {
            state: w.state,
            outcome: KnownOutcome::Fail(ErrorKind::Read(vendor_name())),
        },
        Outcome::Yield(field) => after_found(data, presence, w.state, field.bit),
    }
}

/// A walk to the next field of a known type is a walk to the next field,
/// and what follows that field.
pub proof fn lemma_walk_known(data: Seq<u8>, presence: Seq<u32>, st: State)
    ensures
        walk_known(data, presence, st) == after_walk(data, presence, walk(data, presence, st)),
    decreases 32 * presence.len() - st.position,
{
    if st.position < 32 * presence.len() {
        match step(data, presence, st) {
            Step::Pass(next) => {
                lemma_walk_known(data, presence, next);
            },
            _ => {},
        }
    }
}

/// A walk to the next field of a known type never goes back, and one that
/// yields a type has stepped over at least one presence bit.
pub proof fn lemma_walk_known_advances(data: Seq<u8>, presence: Seq<u32>, st: State)
    ensures
        st.position <= walk_known(data, presence, st).state.position,
        walk_known(data, presence, st).outcome matches KnownOutcome::Yield(_) ==> st.position
            < walk_known(data, presence, st).state.position <= 32 * presence.len(),
    decreases 32 * presence.len() - st.position,
{
    if st.position < 32 * presence.len() {
        match step(data, presence, st) {
            Step::Pass(next) => {
                lemma_walk_known_advances(data, presence, next);
            },
            Step::Fail(_) => {},
            Step::Found(next, bit) => {
                assert(walk_known(data, presence, st) == after_found(data, presence, next, bit));
                match next.namespace {
                    Namespace::Default => {
                        if Type::of_bit(bit).is_none() {
                            lemma_walk_known_advances(data, presence, next);
                        }
                    },
                    Namespace::Vendor(vns) => {
                        if next.offset + vns.skip_length <= data.len() {
                            lemma_walk_known_advances(
                                data,
                                presence,
                                State {
                                    position: next.position,
                                    namespace: next.namespace,
                                    offset: next.offset + vns.skip_length as nat,
                                },
                            );
                        }
                    },
                }
            },
        }
    }
}

/// A walk never goes back, in the presence bits or in the capture, and
/// never leaves the capture. A walk that yields a field has stepped over
/// the bit of that field: the bit is set in its presence word, and it is
/// none of the control bits 29, 30 and 31.
pub proof fn lemma_walk_yields(data: Seq<u8>, presence: Seq<u32>, st: State)
    ensures
        walk(data, presence, st).state.position >= st.position,
        walk(data, presence, st).state.offset >= st.offset,
        st.offset <= data.len() ==> walk(data, presence, st).state.offset <= data.len(),
        walk(data, presence, st).outcome matches Outcome::Yield(field) ==> {
            let end = walk(data, presence, st).state;
            &&& st.position < end.position <= 32 * presence.len()
            &&& field.bit == (end.position - 1) % 32
            &&& field.bit < 29
            &&& bit_set(presence[(end.position - 1) / 32], field.bit)
            &&& field.namespace == end.namespace
        },
    decreases 32 * presence.len() - st.position,
{
    if st.position < 32 * presence.len() {
        lemma_align_up(st.offset, 2);
        match step(data, presence, st) {
            Step::Pass(next) => {
                lemma_walk_yields(data, presence, next);
            },
            _ => {},
        }
    }
}

/// Wherever the cursor stands, a field of a known type is read at an offset
/// that is a multiple of the type's alignment: the first such offset from
/// the cursor on.
pub proof fn lemma_field_aligned(offset: nat, kind: Type)
    ensures
        align_up(offset, kind.align_spec() as nat) % (kind.align_spec() as nat) == 0,
        offset <= align_up(offset, kind.align_spec() as nat) < offset + kind.align_spec(),
{
    kind.lemma_layout();
    lemma_align_up(offset, kind.align_spec() as nat);
}

/// A vendor namespace descriptor is read at an even offset.
pub proof fn lemma_vendor_aligned(offset: nat)
    ensures
        align_up(offset, 2) % 2 == 0,
        offset <= align_up(offset, 2) <= offset + 1,
{
    lemma_align_up(offset, 2);
}

/// An iterator over a radiotap capture.
///
/// This type doesn't actually implement `Iterator` because it is fallible and
/// each yielded field requires that it is either explicitly read or skipped. If
/// you do not care about any vendor namespaces then you will want to use the
/// [`into_default`](Iter::into_default) method to produce a new 'filtered'
/// iterator that skips over the vendor namespaces.
#[derive(Debug)]
pub struct Iter<'a> {
    /// The raw bytes in this capture.
    bytes: Cursor<'a>,
    /// The expected length of the entire capture.
    length: usize,
    /// The presence words in this capture.
    presence: Vec<u32>,
    /// The presence word of the current bit position.
    word: usize,
    /// The current bit position in that presence word.
    bit: u32,
    /// The current namespace.
    namespace: Namespace,
}

/// An iterator over a radiotap capture skipping any vendor namespaces.
///
/// This struct is created by the [`into_default`](Iter::into_default) method
/// on [`Iter`].
///
/// This type doesn't actually implement Iterator because it is fallible and
/// each yielded field requires that it is either explicitly read or skipped.
#[derive(Debug)]
pub struct IterDefault<'a> {
    inner: Iter<'a>,
}

impl<'a> Iter<'a> {
    /// What holds of every iterator: the cursor runs over the capture and
    /// stands within it, and the bit position lies within the presence words
    /// or at their end.
    pub closed spec fn wf(&self) -> bool {
        &&& self.bytes.wf()
        &&& self.bit < 32
        &&& self.word <= self.presence@.len()
        &&& (self.word == self.presence@.len() ==> self.bit == 0)
    }

    /// The bytes of the capture.
    pub closed spec fn data(&self) -> Seq<u8> {
        self.bytes.data()
    }

    /// The presence words of the capture.
    pub closed spec fn presence(&self) -> Seq<u32> {
        self.presence@
    }

    /// The length that the header declares for itself.
    pub closed spec fn length_spec(&self) -> usize {
        self.length
    }

    /// Where the iterator stands.
    pub closed spec fn state(&self) -> State {
        State {
            position: (self.word * 32 + self.bit) as nat,
            namespace: self.namespace,
            offset: self.bytes.offset(),
        }
    }

    /// The cursor of an iterator stands within the capture, which is no
    /// longer than a slice can be.
    pub proof fn lemma_offset_in_bounds(&self)
        requires
            self.wf(),
        ensures
            self.state().offset <= self.data().len() <= isize::MAX,
            self.state().position <= 32 * self.presence().len(),
    {
        self.bytes.lemma_in_bounds();
    }

    /// Returns a new radiotap iterator.
    ///
    /// # Errors
    ///
    /// This function will error if the radiotap version is unsupported, if
    /// the capture is shorter than the length specified in the radiotap
    /// header, or if the capture ends within the presence words.
    pub fn new(bytes: &'a [u8]) -> (r: Result<Iter<'a>, Error>)
        ensures
            match preamble(bytes@) {
                Ok((length, words)) => r matches Ok(iter) && iter.wf() && iter.data() == bytes@
                    && iter.length_spec() == length && iter.presence() == words && iter.state()
                    == (State {
                    position: 0,
                    namespace: Namespace::Default,
                    offset: 4 + 4 * words.len(),
                }),
                Err(kind) => r matches Err(e) && e.is(kind),
            },
    {
        let mut cursor = Cursor::new(bytes);

        // the radiotap version, only 0 is supported
        let version = match cursor.read_u8() {
            Ok(version) => version,
            Err(e) => {
                return Err(Error::caused(ErrorKind::Header, e));
            },
        };
        if version != VERSION {
            return Err(Error::new(ErrorKind::UnsupportedVersion(version)));
        }
        // padding byte

        match cursor.advance(1) {
            Ok(()) => {},
            Err(e) => {
                return Err(Error::caused(ErrorKind::Header, e));
            },
        }
        // the total length of the entire capture

        let length: usize = match cursor.read_u16() {
            Ok(length) => length as usize,
            Err(e) => {
                return Err(Error::caused(ErrorKind::Header, e));
            },
        };
        if length > bytes.len() {
            return Err(Error::new(ErrorKind::InvalidLength(length, bytes.len())));
        }
        // the presence words

        let mut presence: Vec<u32> = Vec::new();
        loop
            invariant
                cursor.wf(),
                cursor.data() == bytes@,
                cursor.offset() == 4 + 4 * presence@.len(),
                presence_words(bytes@, 4) == (match presence_words(bytes@, cursor.offset()) {
                    Some(rest) => Some(presence@ + rest),
                    None => None,
                }),
                preamble(bytes@) == (match presence_words(bytes@, 4) {
                    Some(words) => Ok::<(usize, Seq<u32>), ErrorKind>((length, words)),
                    None => Err(ErrorKind::Header),
                }),
            decreases bytes@.len() - cursor.offset(),
        {
            let ghost before = presence@;
            proof {
                cursor.lemma_in_bounds();
            }
            let word = match cursor.read_u32() {
                Ok(word) => word,
                Err(e) => {
                    return Err(Error::caused(ErrorKind::Header, e));
                },
            };
            presence.push(word);
            if word & (1u32 << PRESENCE_EXT) == 0 {
                proof {
                    assert(before + seq![word] =~= presence@);
                }
                return Ok(
                    Iter {
                        bytes: cursor,
                        length,
                        presence,
                        word: 0,
                        bit: 0,
                        namespace: Namespace::Default,
                    },
                );
            }
            proof {
                let rest = presence_words(bytes@, cursor.offset());
                if rest.is_some() {
                    assert(before + (seq![word] + rest.unwrap()) =~= presence@ + rest.unwrap());
                }
            }
        }
    }

    /// Returns the version of the radiotap header.
    pub fn version(&self) -> (r: u8)
        ensures
            r == VERSION,
    {
        VERSION
    }

    /// Returns the entire length of the radiotap header.
    pub fn length(&self) -> (r: usize)
        ensures
            r == self.length_spec(),
    {
        self.length
    }

    /// Returns the offset in the capture at which the iterator stands.
    pub fn offset(&self) -> (r: usize)
        requires
            self.wf(),
        ensures
            r == self.state().offset,
    {
        self.bytes.pos()
    }

    /// Produce a new iterator that filters out any vendor namespaces and yields
    /// a [`Type`] instead.
    pub fn into_default(self) -> (r: IterDefault<'a>)
        ensures
            r.inner_spec() == self,
    {
        IterDefault { inner: self }
    }

    /// Returns the next field in the iterator.
    pub fn next(&mut self) -> (r: Result<Option<Field>, Error>)
        requires
            old(self).wf(),
        ensures
            final(self).wf(),
            final(self).data() == old(self).data(),
            final(self).presence() == old(self).presence(),
            final(self).length_spec() == old(self).length_spec(),
            final(self).state() == walk(
                old(self).data(),
                old(self).presence(),
                old(self).state(),
            ).state,
            match walk(old(self).data(), old(self).presence(), old(self).state()).outcome {
                Outcome::Done => r == Ok::<Option<Field>, Error>(None),
                Outcome::Yield(field) => r == Ok::<Option<Field>, Error>(Some(field)),
                Outcome::Fail => r matches Err(e) && e.is(ErrorKind::Read(vendor_name())),
            },
    {
        loop
            invariant
                self.wf(),
                self.data() == old(self).data(),
                self.presence() == old(self).presence(),
                self.length_spec() == old(self).length_spec(),
                walk(self.data(), self.presence(), self.state()) == walk(
                    old(self).data(),
                    old(self).presence(),
                    old(self).state(),
                ),
            decreases 32 * self.presence().len() - self.state().position,
        {
            if self.word >= self.presence.len() {
                return Ok(None);
            }
            let presence: u32 = self.presence[self.word];
            let bit: u32 = self.bit;
            let ghost before = self.state();
            if self.bit == 31 {
                self.word = self.word + 1;
                self.bit = 0;
            } else {
                self.bit = self.bit + 1;
            }
            proof {
                assert(before.position / 32 == self.word - (if bit == 31 {
                    1int
                } else {
                    0int
                }));
                assert(before.position % 32 == bit);
            }
            // if the bit is not set, then continue to next bit
            if presence & (1u32 << bit) != 0 {
                if bit == PRESENCE_DEFAULT_NAMESPACE {
                    // switching to radiotap namespace
                    self.namespace = Namespace::Default;
                } else if bit == PRESENCE_VENDOR_NAMESPACE {
                    // switching to vendor namespace
                    match self.bytes.align(VendorNamespace::ALIGN) {
                        Ok(()) => {},
                        Err(e) => {
                            return Err(Error::caused(ErrorKind::Read("VendorNamespace"), e));
                        },
                    }
                    let body = match self.bytes.read_fixed(VendorNamespace::SIZE) {
                        Ok(body) => body,
                        Err(e) => {
                            return Err(Error::caused(ErrorKind::Read("VendorNamespace"), e));
                        },
                    };
                    self.namespace = Namespace::Vendor(VendorNamespace::from_bytes(body));
                } else if bit == PRESENCE_EXT {
                    // same namespace, next word
                } else {
                    return Ok(Some(Field { namespace: self.namespace, bit }));
                }
            }
        }
    }

    /// Skip the given kind of field: align the cursor to the kind's
    /// alignment, then advance it by the kind's size.
    ///
    /// Fails where either would pass the end of the capture. The cursor then
    /// stays where the alignment took it, or where it was if already the
    /// alignment passes the end.
    pub fn skip<T: Kind>(&mut self, kind: T) -> (r: Result<(), Error>)
        requires
            old(self).wf(),
            valid_align(kind.align_spec()),
        ensures
            final(self).wf(),
            final(self).data() == old(self).data(),
            final(self).presence() == old(self).presence(),
            final(self).length_spec() == old(self).length_spec(),
            final(self).state().position == old(self).state().position,
            final(self).state().namespace == old(self).state().namespace,
            ({
                let start = align_up(old(self).state().offset, kind.align_spec() as nat);
                if start + kind.size_spec() <= old(self).data().len() {
                    r.is_ok() && final(self).state().offset == start + kind.size_spec()
                } else {
                    &&& r matches Err(e) && e.is(ErrorKind::Skip)
                    &&& final(self).state().offset == if start <= old(self).data().len() {
                        start
                    } else {
                        old(self).state().offset
                    }
                }
            }),
    {
        match self.bytes.align(kind.align()) {
            Ok(()) => {},
            Err(e) => {
                return Err(Error::caused(ErrorKind::Skip, e));
            },
        }
        match self.bytes.advance(kind.size()) {
            Ok(()) => Ok(()),
            Err(e) => Err(Error::caused(ErrorKind::Skip, e)),
        }
    }

    /// Skip the given vendor namespace: advance the cursor by the number of
    /// bytes that its descriptor claims.
    ///
    /// Fails, and leaves the cursor where it is, where that would pass the
    /// end of the capture.
    pub fn skip_vns(&mut self, vns: &VendorNamespace) -> (r: Result<(), Error>)
        requires
            old(self).wf(),
        ensures
            final(self).wf(),
            final(self).data() == old(self).data(),
            final(self).presence() == old(self).presence(),
            final(self).length_spec() == old(self).length_spec(),
            final(self).state().position == old(self).state().position,
            final(self).state().namespace == old(self).state().namespace,
            if old(self).state().offset + vns.skip_length <= old(self).data().len() {
                r.is_ok() && final(self).state().offset == old(self).state().offset
                    + vns.skip_length
            } else {
                &&& r matches Err(e) && e.is(ErrorKind::Skip)
                &&& final(self).state().offset == old(self).state().offset
            },
    {
        match self.bytes.advance(vns.skip_length()) {
            Ok(()) => Ok(()),
            Err(e) => Err(Error::caused(ErrorKind::Skip, e)),
        }
    }

    /// Reads the given kind of field: align the cursor to the kind's
    /// alignment, then read the value from as many bytes as the kind is
    /// long, and advance the cursor over them.
    ///
    /// The field is read at an offset that is a multiple of its alignment.
    /// Fails where the field would pass the end of the capture. The cursor
    /// then stays where the alignment took it, or where it was if already
    /// the alignment passes the end.
    pub fn read(&mut self, kind: Type) -> (r: Result<Value, Error>)
        requires
            old(self).wf(),
        ensures
            final(self).wf(),
            final(self).data() == old(self).data(),
            final(self).presence() == old(self).presence(),
            final(self).length_spec() == old(self).length_spec(),
            final(self).state().position == old(self).state().position,
            final(self).state().namespace == old(self).state().namespace,
            ({
                let start = align_up(old(self).state().offset, kind.align_spec() as nat);
                let size = kind.size_spec() as nat;
                if start + size <= old(self).data().len() {
                    &&& r == Ok::<Value, Error>(
                        Value::decode(kind, span(old(self).data(), start, size)),
                    )
                    &&& final(self).state().offset == start + size
                    &&& start % (kind.align_spec() as nat) == 0
                } else {
                    &&& r matches Err(e) && e.is(ErrorKind::Read(kind.name_spec()))
                    &&& final(self).state().offset == if start <= old(self).data().len() {
                        start
                    } else {
                        old(self).state().offset
                    }
                }
            }),
    {
        proof {
            kind.lemma_layout();
        }
        match self.bytes.align(kind.align()) {
            Ok(()) => {},
            Err(e) => {
                return Err(Error::caused(ErrorKind::Read(kind.name()), e));
            },
        }
        match self.bytes.read_fixed(kind.size()) {
            Ok(body) => Ok(Value::from_bytes(kind, body)),
            Err(e) => Err(Error::caused(ErrorKind::Read(kind.name()), e)),
        }
    }
}

impl<'a> IterDefault<'a> {
    /// The iterator that this one filters.
    pub closed spec fn inner_spec(&self) -> Iter<'a> {
        self.inner
    }

    /// Returns the version of the radiotap header.
    pub fn version(&self) -> (r: u8)
        ensures
            r == VERSION,
    {
        self.inner.version()
    }

    /// Returns the entire length of the radiotap header.
    pub fn length(&self) -> (r: usize)
        ensures
            r == self.inner_spec().length_spec(),
    {
        self.inner.length()
    }

    /// Returns the offset in the capture at which the iterator stands.
    pub fn offset(&self) -> (r: usize)
        requires
            self.inner_spec().wf(),
        ensures
            r == self.inner_spec().state().offset,
    {
        self.inner.offset()
    }

    /// Returns the next field type in the iterator.
    ///
    /// A field in a vendor namespace is answered by skipping the bytes that
    /// the namespace's descriptor claims. A presence bit of the default
    /// namespace that stands for no type is passed over, and the cursor does
    /// not move for it.
    pub fn next(&mut self) -> (r: Result<Option<Type>, Error>)
        requires
            old(self).inner_spec().wf(),
        ensures
            final(self).inner_spec().wf(),
            final(self).inner_spec().data() == old(self).inner_spec().data(),
            final(self).inner_spec().presence() == old(self).inner_spec().presence(),
            final(self).inner_spec().length_spec() == old(self).inner_spec().length_spec(),
            final(self).inner_spec().state() == walk_known(
                old(self).inner_spec().data(),
                old(self).inner_spec().presence(),
                old(self).inner_spec().state(),
            ).state,
            match walk_known(
                old(self).inner_spec().data(),
                old(self).inner_spec().presence(),
                old(self).inner_spec().state(),
            ).outcome {
                KnownOutcome::Done => r == Ok::<Option<Type>, Error>(None),
                KnownOutcome::Yield(kind) => r == Ok::<Option<Type>, Error>(Some(kind)),
                KnownOutcome::Fail(kind) => r matches Err(e) && e.is(kind),
            },
    {
        loop
            invariant
                self.inner.wf(),
                self.inner.data() == old(self).inner.data(),
                self.inner.presence() == old(self).inner.presence(),
                self.inner.length_spec() == old(self).inner.length_spec(),
                walk_known(self.inner.data(), self.inner.presence(), self.inner.state())
                    == walk_known(
                    old(self).inner.data(),
                    old(self).inner.presence(),
                    old(self).inner.state(),
                ),
            decreases 32 * self.inner.presence().len() - self.inner.state().position,
        {
            proof {
                lemma_walk_known(self.inner.data(), self.inner.presence(), self.inner.state());
                lemma_walk_yields(self.inner.data(), self.inner.presence(), self.inner.state());
            }
            let field = match self.inner.next() {
                Ok(Some(field)) => field,
                Ok(None) => {
                    return Ok(None);
                },
                Err(e) => {
                    return Err(e);
                },
            };
            match field.namespace {
                Namespace::Default => {
                    match Type::from_bit(field.bit) {
                        Some(kind) => {
                            return Ok(Some(kind));
                        },
                        None => {},
                    }
                },
                Namespace::Vendor(vns) => {
                    match self.inner.skip_vns(&vns) {
                        Ok(()) => {},
                        Err(e) => {
                            return Err(e);
                        },
                    }
                },
            }
        }
    }

    /// Skip the given kind of field.
    pub fn skip(&mut self, kind: Type) -> (r: Result<(), Error>)
        requires
            old(self).inner_spec().wf(),
        ensures
            final(self).inner_spec().wf(),
            final(self).inner_spec().data() == old(self).inner_spec().data(),
            final(self).inner_spec().presence() == old(self).inner_spec().presence(),
            final(self).inner_spec().length_spec() == old(self).inner_spec().length_spec(),
            final(self).inner_spec().state().position == old(self).inner_spec().state().position,
            final(self).inner_spec().state().namespace == old(
                self,
            ).inner_spec().state().namespace,
            ({
                let start = align_up(
                    old(self).inner_spec().state().offset,
                    kind.align_spec() as nat,
                );
                if start + kind.size_spec() <= old(self).inner_spec().data().len() {
                    r.is_ok() && final(self).inner_spec().state().offset == start
                        + kind.size_spec()
                } else {
                    &&& r matches Err(e) && e.is(ErrorKind::Skip)
                    &&& final(self).inner_spec().state().offset == if start <= old(
                        self,
                    ).inner_spec().data().len() {
                        start
                    } else {
                        old(self).inner_spec().state().offset
                    }
                }
            }),
    {
        proof {
            kind.lemma_layout();
        }
        self.inner.skip(kind)
    }

    /// Reads the given kind of field.
    pub fn read(&mut self, kind: Type) -> (r: Result<Value, Error>)
        requires
            old(self).inner_spec().wf(),
        ensures
            final(self).inner_spec().wf(),
            final(self).inner_spec().data() == old(self).inner_spec().data(),
            final(self).inner_spec().presence() == old(self).inner_spec().presence(),
            final(self).inner_spec().length_spec() == old(self).inner_spec().length_spec(),
            final(self).inner_spec().state().position == old(self).inner_spec().state().position,
            final(self).inner_spec().state().namespace == old(
                self,
            ).inner_spec().state().namespace,
            ({
                let start = align_up(
                    old(self).inner_spec().state().offset,
                    kind.align_spec() as nat,
                );
                let size = kind.size_spec() as nat;
                if start + size <= old(self).inner_spec().data().len() {
                    &&& r == Ok::<Value, Error>(
                        Value::decode(kind, span(old(self).inner_spec().data(), start, size)),
                    )
                    &&& final(self).inner_spec().state().offset == start + size
                    &&& start % (kind.align_spec() as nat) == 0
                } else {
                    &&& r matches Err(e) && e.is(ErrorKind::Read(kind.name_spec()))
                    &&& final(self).inner_spec().state().offset == if start <= old(
                        self,
                    ).inner_spec().data().len() {
                        start
                    } else {
                        old(self).inner_spec().state().offset
                    }
                }
            }),
    {
        self.inner.read(kind)
    }
}

} // verus!
