//! Field definitions.
//!
//! Each field helps to describe a sent or received IEEE 802.11 frame.

pub mod ampdu_status;
pub mod channel;
pub mod ext;
pub mod mcs;
pub mod timestamp;
pub mod util;
pub mod vht;
pub mod xchannel;

pub use crate::field::ampdu_status::AmpduStatus;
pub use crate::field::channel::Channel;
pub use crate::field::mcs::Mcs;
pub use crate::field::timestamp::Timestamp;
pub use crate::field::vht::Vht;
pub use crate::field::xchannel::XChannel;

use crate::bytes::{i8_of, le_u16, le_u64, signed_u8, span, u16_le, u64_le, valid_align};
use vstd::prelude::*;

verus! {

/// An organizationally unique identifier.
pub type Oui = [u8; 3];

/// A kind of radiotap field.
///
/// [`Type`] implements this to describe the alignment and size of the
/// default radiotap fields. Vendor namespaces need to implement this in
/// order to be able to use the iterator to skip their fields.
pub trait Kind {
    /// The alignment of the field.
    spec fn align_spec(&self) -> usize;

    /// The size of the field.
    spec fn size_spec(&self) -> usize;

    /// Returns the alignment of the field.
    fn align(&self) -> (r: usize)
        ensures
            r == self.align_spec(),
    ;

    /// Returns the size of the field.
    fn size(&self) -> (r: usize)
        ensures
            r == self.size_spec(),
    ;
}

/// The type of radiotap field.
///
/// Each variant corresponds to a unique field in the radiotap capture.
/// [`Kind`] is implemented to describe the alignment and size of each field,
/// so that the iterator knows how to handle it.
///
/// Not all of these types are parsed by this crate. The ones that have a
/// corresponding field have the identical name in this module.
#[derive(Debug, Clone, Copy, PartialEq, Eq, Structural)]
#[non_exhaustive]
pub enum Type {

    Tsft,
    Flags,
    Rate,
    Channel,
    Fhss,
    AntennaSignal,
    AntennaNoise,
    LockQuality,
    TxAttenuation,
    TxAttenuationDb,
    TxPower,
    Antenna,
    AntennaSignalDb,
    AntennaNoiseDb,
    RxFlags,
    TxFlags,
    RtsRetries,
    DataRetries,
    XChannel,
    Mcs,
    AmpduStatus,
    Vht,
    Timestamp,
    He,
    HeMu,
    HeMuUser,
    ZeroLenPsdu,
    LSig,
}

impl Type {
    /// The type that a presence bit stands for, if it stands for one.
    pub open spec fn of_bit(bit: u32) -> Option<Type> {
        match bit {

            0u32 => Some(Type::Tsft),
            1u32 => Some(Type::Flags),
            2u32 => Some(Type::Rate),
            3u32 => Some(Type::Channel),
            4u32 => Some(Type::Fhss),
            5u32 => Some(Type::AntennaSignal),
            6u32 => Some(Type::AntennaNoise),
            7u32 => Some(Type::LockQuality),
            8u32 => Some(Type::TxAttenuation),
            9u32 => Some(Type::TxAttenuationDb),
            10u32 => Some(Type::TxPower),
            11u32 => Some(Type::Antenna),
            12u32 => Some(Type::AntennaSignalDb),
            13u32 => Some(Type::AntennaNoiseDb),
            14u32 => Some(Type::RxFlags),
            15u32 => Some(Type::TxFlags),
            16u32 => Some(Type::RtsRetries),
            17u32 => Some(Type::DataRetries),
            18u32 => Some(Type::XChannel),
            19u32 => Some(Type::Mcs),
            20u32 => Some(Type::AmpduStatus),
            21u32 => Some(Type::Vht),
            22u32 => Some(Type::Timestamp),
            23u32 => Some(Type::He),
            24u32 => Some(Type::HeMu),
            25u32 => Some(Type::HeMuUser),
            26u32 => Some(Type::ZeroLenPsdu),
            27u32 => Some(Type::LSig),
            _ => None,
        }
    }

    /// The presence bit of the type.
    pub open spec fn bit_spec(&self) -> u32 {
        match self {

            Type::Tsft => 0,
            Type::Flags => 1,
            Type::Rate => 2,
            Type::Channel => 3,
            Type::Fhss => 4,
            Type::AntennaSignal => 5,
            Type::AntennaNoise => 6,
            Type::LockQuality => 7,
            Type::TxAttenuation => 8,
            Type::TxAttenuationDb => 9,
            Type::TxPower => 10,
            Type::Antenna => 11,
            Type::AntennaSignalDb => 12,
            Type::AntennaNoiseDb => 13,
            Type::RxFlags => 14,
            Type::TxFlags => 15,
            Type::RtsRetries => 16,
            Type::DataRetries => 17,
            Type::XChannel => 18,
            Type::Mcs => 19,
            Type::AmpduStatus => 20,
            Type::Vht => 21,
            Type::Timestamp => 22,
            Type::He => 23,
            Type::HeMu => 24,
            Type::HeMuUser => 25,
            Type::ZeroLenPsdu => 26,
            Type::LSig => 27,
        }
    }

    /// The name of the type.
    pub open spec fn name_spec(&self) -> &'static str {
        match self {

            Type::Tsft => "Tsft",
            Type::Flags => "Flags",
            Type::Rate => "Rate",
            Type::Channel => "Channel",
            Type::Fhss => "Fhss",
            Type::AntennaSignal => "AntennaSignal",
            Type::AntennaNoise => "AntennaNoise",
            Type::LockQuality => "LockQuality",
            Type::TxAttenuation => "TxAttenuation",
            Type::TxAttenuationDb => "TxAttenuationDb",
            Type::TxPower => "TxPower",
            Type::Antenna => "Antenna",
            Type::AntennaSignalDb => "AntennaSignalDb",
            Type::AntennaNoiseDb => "AntennaNoiseDb",
            Type::RxFlags => "RxFlags",
            Type::TxFlags => "TxFlags",
            Type::RtsRetries => "RtsRetries",
            Type::DataRetries => "DataRetries",
            Type::XChannel => "XChannel",
            Type::Mcs => "Mcs",
            Type::AmpduStatus => "AmpduStatus",
            Type::Vht => "Vht",
            Type::Timestamp => "Timestamp",
            Type::He => "He",
            Type::HeMu => "HeMu",
            Type::HeMuUser => "HeMuUser",
            Type::ZeroLenPsdu => "ZeroLenPsdu",
            Type::LSig => "LSig",
        }
    }

    /// Construct a new type from a bit. `None` if unknown.
    pub fn from_bit(bit: u32) -> (r: Option<Type>)
        ensures
            r == Type::of_bit(bit),
    {
        match bit {

            0 => Some(Type::Tsft),
            1 => Some(Type::Flags),
            2 => Some(Type::Rate),
            3 => Some(Type::Channel),
            4 => Some(Type::Fhss),
            5 => Some(Type::AntennaSignal),
            6 => Some(Type::AntennaNoise),
            7 => Some(Type::LockQuality),
            8 => Some(Type::TxAttenuation),
            9 => Some(Type::TxAttenuationDb),
            10 => Some(Type::TxPower),
            11 => Some(Type::Antenna),
            12 => Some(Type::AntennaSignalDb),
            13 => Some(Type::AntennaNoiseDb),
            14 => Some(Type::RxFlags),
            15 => Some(Type::TxFlags),
            16 => Some(Type::RtsRetries),
            17 => Some(Type::DataRetries),
            18 => Some(Type::XChannel),
            19 => Some(Type::Mcs),
            20 => Some(Type::AmpduStatus),
            21 => Some(Type::Vht),
            22 => Some(Type::Timestamp),
            23 => Some(Type::He),
            24 => Some(Type::HeMu),
            25 => Some(Type::HeMuUser),
            26 => Some(Type::ZeroLenPsdu),
            27 => Some(Type::LSig),
            _ => None,
        }
    }

    /// Returns the present bit for the type.
    pub fn bit(&self) -> (r: u32)
        ensures
            r == self.bit_spec(),
            r <= 27,
    {
        match self {

            Type::Tsft => 0,
            Type::Flags => 1,
            Type::Rate => 2,
            Type::Channel => 3,
            Type::Fhss => 4,
            Type::AntennaSignal => 5,
            Type::AntennaNoise => 6,
            Type::LockQuality => 7,
            Type::TxAttenuation => 8,
            Type::TxAttenuationDb => 9,
            Type::TxPower => 10,
            Type::Antenna => 11,
            Type::AntennaSignalDb => 12,
            Type::AntennaNoiseDb => 13,
            Type::RxFlags => 14,
            Type::TxFlags => 15,
            Type::RtsRetries => 16,
            Type::DataRetries => 17,
            Type::XChannel => 18,
            Type::Mcs => 19,
            Type::AmpduStatus => 20,
            Type::Vht => 21,
            Type::Timestamp => 22,
            Type::He => 23,
            Type::HeMu => 24,
            Type::HeMuUser => 25,
            Type::ZeroLenPsdu => 26,
            Type::LSig => 27,
        }
    }

    /// Returns the name of the type, as it is written in errors.
    pub fn name(&self) -> (r: &'static str)
        ensures
            r == self.name_spec(),
    {
        match self {

            Type::Tsft => "Tsft",
            Type::Flags => "Flags",
            Type::Rate => "Rate",
            Type::Channel => "Channel",
            Type::Fhss => "Fhss",
            Type::AntennaSignal => "AntennaSignal",
            Type::AntennaNoise => "AntennaNoise",
            Type::LockQuality => "LockQuality",
            Type::TxAttenuation => "TxAttenuation",
            Type::TxAttenuationDb => "TxAttenuationDb",
            Type::TxPower => "TxPower",
            Type::Antenna => "Antenna",
            Type::AntennaSignalDb => "AntennaSignalDb",
            Type::AntennaNoiseDb => "AntennaNoiseDb",
            Type::RxFlags => "RxFlags",
            Type::TxFlags => "TxFlags",
            Type::RtsRetries => "RtsRetries",
            Type::DataRetries => "DataRetries",
            Type::XChannel => "XChannel",
            Type::Mcs => "Mcs",
            Type::AmpduStatus => "AmpduStatus",
            Type::Vht => "Vht",
            Type::Timestamp => "Timestamp",
            Type::He => "He",
            Type::HeMu => "HeMu",
            Type::HeMuUser => "HeMuUser",
            Type::ZeroLenPsdu => "ZeroLenPsdu",
            Type::LSig => "LSig",
        }
    }

    /// Every type has a presence bit below 28, and that bit stands for the
    /// type again.
    pub proof fn lemma_bit_of_type(self)
        ensures
            self.bit_spec() <= 27,
            Type::of_bit(self.bit_spec()) == Some(self),
    {
    }

    /// A presence bit stands for at most one type, which has that bit.
    pub proof fn lemma_type_of_bit(bit: u32)
        ensures
            Type::of_bit(bit) matches Some(kind) ==> kind.bit_spec() == bit,
            bit > 27 ==> Type::of_bit(bit).is_none(),
    {
    }

    /// Every type is aligned to 1, 2, 4 or 8 bytes and is between 1 and 12
    /// bytes long.
    pub proof fn lemma_layout(self)
        ensures
            valid_align(self.align_spec()),
            self.align_spec() <= 8,
            1 <= self.size_spec() <= 12,
    {
    }
}

impl Kind for Type {
    open spec fn align_spec(&self) -> usize {
        match self {

            Type::Tsft => 8,
            Type::Flags => 1,
            Type::Rate => 1,
            Type::Channel => 2,
            Type::Fhss => 2,
            Type::AntennaSignal => 1,
            Type::AntennaNoise => 1,
            Type::LockQuality => 2,
            Type::TxAttenuation => 2,
            Type::TxAttenuationDb => 2,
            Type::TxPower => 1,
            Type::Antenna => 1,
            Type::AntennaSignalDb => 1,
            Type::AntennaNoiseDb => 1,
            Type::RxFlags => 2,
            Type::TxFlags => 2,
            Type::RtsRetries => 1,
            Type::DataRetries => 1,
            Type::XChannel => 4,
            Type::Mcs => 1,
            Type::AmpduStatus => 4,
            Type::Vht => 2,
            Type::Timestamp => 8,
            Type::He => 2,
            Type::HeMu => 2,
            Type::HeMuUser => 2,
            Type::ZeroLenPsdu => 1,
            Type::LSig => 2,
        }
    }

    open spec fn size_spec(&self) -> usize {
        match self {

            Type::Tsft => 8,
            Type::Flags => 1,
            Type::Rate => 1,
            Type::Channel => 4,
            Type::Fhss => 2,
            Type::AntennaSignal => 1,
            Type::AntennaNoise => 1,
            Type::LockQuality => 2,
            Type::TxAttenuation => 2,
            Type::TxAttenuationDb => 2,
            Type::TxPower => 1,
            Type::Antenna => 1,
            Type::AntennaSignalDb => 1,
            Type::AntennaNoiseDb => 1,
            Type::RxFlags => 2,
            Type::TxFlags => 2,
            Type::RtsRetries => 1,
            Type::DataRetries => 1,
            Type::XChannel => 8,
            Type::Mcs => 3,
            Type::AmpduStatus => 8,
            Type::Vht => 12,
            Type::Timestamp => 12,
            Type::He => 12,
            Type::HeMu => 12,
            Type::HeMuUser => 6,
            Type::ZeroLenPsdu => 1,
            Type::LSig => 4,
        }
    }

    fn align(&self) -> (r: usize) {
        match self {

            Type::Tsft => 8,
            Type::Flags => 1,
            Type::Rate => 1,
            Type::Channel => 2,
            Type::Fhss => 2,
            Type::AntennaSignal => 1,
            Type::AntennaNoise => 1,
            Type::LockQuality => 2,
            Type::TxAttenuation => 2,
            Type::TxAttenuationDb => 2,
            Type::TxPower => 1,
            Type::Antenna => 1,
            Type::AntennaSignalDb => 1,
            Type::AntennaNoiseDb => 1,
            Type::RxFlags => 2,
            Type::TxFlags => 2,
            Type::RtsRetries => 1,
            Type::DataRetries => 1,
            Type::XChannel => 4,
            Type::Mcs => 1,
            Type::AmpduStatus => 4,
            Type::Vht => 2,
            Type::Timestamp => 8,
            Type::He => 2,
            Type::HeMu => 2,
            Type::HeMuUser => 2,
            Type::ZeroLenPsdu => 1,
            Type::LSig => 2,
        }
    }

    fn size(&self) -> (r: usize) {
        match self {

            Type::Tsft => 8,
            Type::Flags => 1,
            Type::Rate => 1,
            Type::Channel => 4,
            Type::Fhss => 2,
            Type::AntennaSignal => 1,
            Type::AntennaNoise => 1,
            Type::LockQuality => 2,
            Type::TxAttenuation => 2,
            Type::TxAttenuationDb => 2,
            Type::TxPower => 1,
            Type::Antenna => 1,
            Type::AntennaSignalDb => 1,
            Type::AntennaNoiseDb => 1,
            Type::RxFlags => 2,
            Type::TxFlags => 2,
            Type::RtsRetries => 1,
            Type::DataRetries => 1,
            Type::XChannel => 8,
            Type::Mcs => 3,
            Type::AmpduStatus => 8,
            Type::Vht => 12,
            Type::Timestamp => 12,
            Type::He => 12,
            Type::HeMu => 12,
            Type::HeMuUser => 6,
            Type::ZeroLenPsdu => 1,
            Type::LSig => 4,
        }
    }
}

/// A special field that describes a vendor namespace within a radiotap
/// capture.
#[derive(Debug, Clone, Copy, PartialEq, Eq)]
pub struct VendorNamespace {
    /// The three bytes of the organizationally unique identifier.
    pub oui: (u8, u8, u8),
    /// The sub-namespace.
    pub sub_ns: u8,
    /// The number of bytes that follow the descriptor and belong to it.
    pub skip_length: u16,
}

impl VendorNamespace {
    /// The alignment of the descriptor.
    pub const ALIGN: usize = 2;

    /// The size of the descriptor.
    pub const SIZE: usize = 6;

    /// The descriptor that six bytes hold.
    pub open spec fn decode(bytes: Seq<u8>) -> VendorNamespace {
        VendorNamespace {
            oui: (bytes[0], bytes[1], bytes[2]),
            sub_ns: bytes[3],
            skip_length: le_u16(span(bytes, 4, 2)) as u16,
        }
    }

    /// Reads the descriptor from its six bytes.
    pub fn from_bytes(bytes: &[u8]) -> (r: VendorNamespace)
        requires
            bytes.len() == 6,
        ensures
            r == VendorNamespace::decode(bytes@),
    {
        VendorNamespace {
            oui: (bytes[0], bytes[1], bytes[2]),
            sub_ns: bytes[3],
            skip_length: u16_le(bytes, 4),
        }
    }

    /// An organizationally unique identifier for the vendor.
    ///
    /// Note: this not unique to the capture, there could be multiple vendor
    /// namespaces with this OUI.
    pub fn oui(&self) -> (r: Oui)
        ensures
            r@ == seq![self.oui.0, self.oui.1, self.oui.2],
    {
        let r: Oui = [self.oui.0, self.oui.1, self.oui.2];
        assert(r@ =~= seq![self.oui.0, self.oui.1, self.oui.2]);
        r
    }

    /// The sub-namespace of this vendor namespace.
    pub fn sub_ns(&self) -> (r: u8)
        ensures
            r == self.sub_ns,
    {
        self.sub_ns
    }

    /// Specifies the number of bytes following this field that belong to this
    /// vendor namespace.
    pub fn skip_length(&self) -> (r: usize)
        ensures
            r == self.skip_length,
    {
        self.skip_length as usize
    }
}

/// The guard interval.
#[derive(Debug, Clone, Copy, PartialEq, Eq, Hash, Structural)]
#[non_exhaustive]
pub enum GuardInterval {
    /// 800 ns.
    Long,
    /// 400 ns.
    Short,
}

impl GuardInterval {
    /// The guard interval that a flag encodes.
    pub open spec fn of_bool(b: bool) -> GuardInterval {
        if b {
            GuardInterval::Short
        } else {
            GuardInterval::Long
        }
    }

    /// The number that encodes the guard interval.
    pub open spec fn inner(self) -> u8 {
        match self {
            GuardInterval::Long => 0,
            GuardInterval::Short => 1,
        }
    }

    pub(crate) fn from_bool(b: bool) -> (r: GuardInterval)
        ensures
            r == GuardInterval::of_bool(b),
    {
        match b {
            false => GuardInterval::Long,
            true => GuardInterval::Short,
        }
    }

    pub(crate) fn into_inner(self) -> (r: u8)
        ensures
            r == self.inner(),
    {
        match self {
            GuardInterval::Long => 0,
            GuardInterval::Short => 1,
        }
    }
}

/// Forward error correction type.
#[derive(Debug, Clone, Copy, PartialEq, Eq, Hash, Structural)]
pub enum Fec {
    /// Binary convolutional coding.
    Bcc,
    /// Low-density parity-check.
    Ldpc,
}

impl Fec {
    /// The FEC type that a flag encodes.
    pub open spec fn of_bool(b: bool) -> Fec {
        if b {
            Fec::Ldpc
        } else {
            Fec::Bcc
        }
    }

    pub(crate) fn from_bool(b: bool) -> (r: Fec)
        ensures
            r == Fec::of_bool(b),
    {
        match b {
            false => Fec::Bcc,
            true => Fec::Ldpc,
        }
    }
}

/// The TSFT value.
///
/// Value in microseconds of the MAC's 64-bit 802.11 Time Synchronization
/// Function Timer when the first bit of the MPDU arrived at the MAC. For
/// received frames only.
#[derive(Debug, Clone, Copy, PartialEq, Eq, Hash, PartialOrd, Ord, Structural)]
pub struct Tsft(pub u64);

impl Tsft {
    /// The value that the field's bytes hold.
    pub open spec fn decode(bytes: Seq<u8>) -> Tsft {
        Tsft(le_u64(bytes) as u64)
    }

    /// Reads the field from its bytes.
    pub fn from_bytes(bytes: &[u8]) -> (r: Tsft)
        requires
            bytes.len() == 8,
        ensures
            r == Tsft::decode(bytes@),
    {
        proof {
            assert(span(bytes@, 0, 8) =~= bytes@);
        }
        Tsft(u64_le(bytes, 0))
    }

    /// Consumes the field and returns the underlying value.
    pub fn into_inner(self) -> (r: u64)
        ensures
            r == self.0,
    {
        self.0
    }
}

/// Tx/Rx legacy data rate.
///
/// Other rate fields: [`Mcs`], [`Vht`]
///
/// The raw value's unit is 500 Kbps. Use the [`.to_kbps()`][Rate::to_kbps]
/// method to get the rate in kilobits per second.
#[derive(Debug, Clone, Copy, PartialEq, Eq, Hash, PartialOrd, Ord, Structural)]
pub struct Rate(pub u8);

impl Rate {
    /// The value that the field's bytes hold.
    pub open spec fn decode(bytes: Seq<u8>) -> Rate {
        Rate(bytes[0])
    }

    /// Reads the field from its bytes.
    pub fn from_bytes(bytes: &[u8]) -> (r: Rate)
        requires
            bytes.len() == 1,
        ensures
            r == Rate::decode(bytes@),
    {
        Rate(bytes[0])
    }

    /// Consumes the field and returns the underlying value.
    pub fn into_inner(self) -> (r: u8)
        ensures
            r == self.0,
    {
        self.0
    }
}

/// RF signal power at the antenna in dBm.
///
/// It indicates the RF signal power at the antenna, in decibels difference from
/// one milliwatt.
#[derive(Debug, Clone, Copy, PartialEq, Eq, Hash, PartialOrd, Ord, Structural)]
pub struct AntennaSignal(pub i8);

impl AntennaSignal {
    /// The value that the field's bytes hold.
    pub open spec fn decode(bytes: Seq<u8>) -> AntennaSignal {
        AntennaSignal(signed_u8(bytes[0]) as i8)
    }

    /// Reads the field from its bytes.
    pub fn from_bytes(bytes: &[u8]) -> (r: AntennaSignal)
        requires
            bytes.len() == 1,
        ensures
            r == AntennaSignal::decode(bytes@),
    {
        AntennaSignal(i8_of(bytes[0]))
    }

    /// Consumes the field and returns the underlying value.
    pub fn into_inner(self) -> (r: i8)
        ensures
            r == self.0,
    {
        self.0
    }
}

/// RF signal power at the antenna in dB.
///
/// It indicates the RF signal power at the antenna, in decibels difference from
/// an arbitrary, fixed reference.
#[derive(Debug, Clone, Copy, PartialEq, Eq, Hash, PartialOrd, Ord, Structural)]
pub struct AntennaSignalDb(pub u8);

impl AntennaSignalDb {
    /// The value that the field's bytes hold.
    pub open spec fn decode(bytes: Seq<u8>) -> AntennaSignalDb {
        AntennaSignalDb(bytes[0])
    }

    /// Reads the field from its bytes.
    pub fn from_bytes(bytes: &[u8]) -> (r: AntennaSignalDb)
        requires
            bytes.len() == 1,
        ensures
            r == AntennaSignalDb::decode(bytes@),
    {
        AntennaSignalDb(bytes[0])
    }

    /// Consumes the field and returns the underlying value.
    pub fn into_inner(self) -> (r: u8)
        ensures
            r == self.0,
    {
        self.0
    }
}

/// RF noise power at the antenna in dBm.
///
/// It indicates the RF signal noise at the antenna, in decibels difference from
/// one milliwatt.
#[derive(Debug, Clone, Copy, PartialEq, Eq, Hash, PartialOrd, Ord, Structural)]
pub struct AntennaNoise(pub i8);

impl AntennaNoise {
    /// The value that the field's bytes hold.
    pub open spec fn decode(bytes: Seq<u8>) -> AntennaNoise {
        AntennaNoise(signed_u8(bytes[0]) as i8)
    }

    /// Reads the field from its bytes.
    pub fn from_bytes(bytes: &[u8]) -> (r: AntennaNoise)
        requires
            bytes.len() == 1,
        ensures
            r == AntennaNoise::decode(bytes@),
    {
        AntennaNoise(i8_of(bytes[0]))
    }

    /// Consumes the field and returns the underlying value.
    pub fn into_inner(self) -> (r: i8)
        ensures
            r == self.0,
    {
        self.0
    }
}

/// RF noise power at the antenna in dB.
///
/// It indicates the RF signal noise at the antenna, in decibels difference from
/// an arbitrary, fixed reference.
#[derive(Debug, Clone, Copy, PartialEq, Eq, Hash, PartialOrd, Ord, Structural)]
pub struct AntennaNoiseDb(pub u8);

impl AntennaNoiseDb {
    /// The value that the field's bytes hold.
    pub open spec fn decode(bytes: Seq<u8>) -> AntennaNoiseDb {
        AntennaNoiseDb(bytes[0])
    }

    /// Reads the field from its bytes.
    pub fn from_bytes(bytes: &[u8]) -> (r: AntennaNoiseDb)
        requires
            bytes.len() == 1,
        ensures
            r == AntennaNoiseDb::decode(bytes@),
    {
        AntennaNoiseDb(bytes[0])
    }

    /// Consumes the field and returns the underlying value.
    pub fn into_inner(self) -> (r: u8)
        ensures
            r == self.0,
    {
        self.0
    }
}

/// Quality of Barker code lock, unitless.
///
/// Monotonically nondecreasing with "better" lock strength. Called "Signal
/// Quality" in datasheets.
#[derive(Debug, Clone, Copy, PartialEq, Eq, Hash, PartialOrd, Ord, Structural)]
pub struct LockQuality(pub u16);

impl LockQuality {
    /// The value that the field's bytes hold.
    pub open spec fn decode(bytes: Seq<u8>) -> LockQuality {
        LockQuality(le_u16(bytes) as u16)
    }

    /// Reads the field from its bytes.
    pub fn from_bytes(bytes: &[u8]) -> (r: LockQuality)
        requires
            bytes.len() == 2,
        ensures
            r == LockQuality::decode(bytes@),
    {
        proof {
            assert(span(bytes@, 0, 2) =~= bytes@);
        }
        LockQuality(u16_le(bytes, 0))
    }

    /// Consumes the field and returns the underlying value.
    pub fn into_inner(self) -> (r: u16)
        ensures
            r == self.0,
    {
        self.0
    }
}

/// Transmit power expressed as unitless distance from max power.
///
/// Zero is max power. Monotonically nondecreasing with lower power levels.
#[derive(Debug, Clone, Copy, PartialEq, Eq, Hash, PartialOrd, Ord, Structural)]
pub struct TxAttenuation(pub u16);

impl TxAttenuation {
    /// The value that the field's bytes hold.
    pub open spec fn decode(bytes: Seq<u8>) -> TxAttenuation {
        TxAttenuation(le_u16(bytes) as u16)
    }

    /// Reads the field from its bytes.
    pub fn from_bytes(bytes: &[u8]) -> (r: TxAttenuation)
        requires
            bytes.len() == 2,
        ensures
            r == TxAttenuation::decode(bytes@),
    {
        proof {
            assert(span(bytes@, 0, 2) =~= bytes@);
        }
        TxAttenuation(u16_le(bytes, 0))
    }

    /// Consumes the field and returns the underlying value.
    pub fn into_inner(self) -> (r: u16)
        ensures
            r == self.0,
    {
        self.0
    }
}

/// Transmit power expressed as decibel distance from max power set at factory
/// calibration.
///
/// Zero is max power. Monotonically nondecreasing with lower power levels.
#[derive(Debug, Clone, Copy, PartialEq, Eq, Hash, PartialOrd, Ord, Structural)]
pub struct TxAttenuationDb(pub u16);

impl TxAttenuationDb {
    /// The value that the field's bytes hold.
    pub open spec fn decode(bytes: Seq<u8>) -> TxAttenuationDb {
        TxAttenuationDb(le_u16(bytes) as u16)
    }

    /// Reads the field from its bytes.
    pub fn from_bytes(bytes: &[u8]) -> (r: TxAttenuationDb)
        requires
            bytes.len() == 2,
        ensures
            r == TxAttenuationDb::decode(bytes@),
    {
        proof {
            assert(span(bytes@, 0, 2) =~= bytes@);
        }
        TxAttenuationDb(u16_le(bytes, 0))
    }

    /// Consumes the field and returns the underlying value.
    pub fn into_inner(self) -> (r: u16)
        ensures
            r == self.0,
    {
        self.0
    }
}

/// Transmit power in dBm.
///
/// This is the absolute power level measured at the antenna port in decibels
/// difference from one milliwatt.
#[derive(Debug, Clone, Copy, PartialEq, Eq, Hash, PartialOrd, Ord, Structural)]
pub struct TxPower(pub i8);

impl TxPower {
    /// The value that the field's bytes hold.
    pub open spec fn decode(bytes: Seq<u8>) -> TxPower {
        TxPower(signed_u8(bytes[0]) as i8)
    }

    /// Reads the field from its bytes.
    pub fn from_bytes(bytes: &[u8]) -> (r: TxPower)
        requires
            bytes.len() == 1,
        ensures
            r == TxPower::decode(bytes@),
    {
        TxPower(i8_of(bytes[0]))
    }

    /// Consumes the field and returns the underlying value.
    pub fn into_inner(self) -> (r: i8)
        ensures
            r == self.0,
    {
        self.0
    }
}

/// The antenna index.
///
/// Unitless indication of the Rx/Tx antenna for this packet. The first antenna
/// is antenna zero.
#[derive(Debug, Clone, Copy, PartialEq, Eq, Hash, PartialOrd, Ord, Structural)]
pub struct Antenna(pub u8);

impl Antenna {
    /// The value that the field's bytes hold.
    pub open spec fn decode(bytes: Seq<u8>) -> Antenna {
        Antenna(bytes[0])
    }

    /// Reads the field from its bytes.
    pub fn from_bytes(bytes: &[u8]) -> (r: Antenna)
        requires
            bytes.len() == 1,
        ensures
            r == Antenna::decode(bytes@),
    {
        Antenna(bytes[0])
    }

    /// Consumes the field and returns the underlying value.
    pub fn into_inner(self) -> (r: u8)
        ensures
            r == self.0,
    {
        self.0
    }
}

impl Rate {
    /// The data rate in kilobits per second.
    pub open spec fn kbps(&self) -> int {
        self.0 * 500
    }

    /// Returns the data rate in kilobits per second.
    pub fn to_kbps(&self) -> (r: u32)
        ensures
            r == self.kbps(),
    {
        self.0 as u32 * 500
    }
}

/// Flags describing transmitted and received frames.
#[derive(Debug, Clone, Copy, PartialEq, Eq, Structural)]
pub struct Flags {
    bits: u8,
}

impl Flags {
    /// The frame was sent/received during CFP.
    pub const CFP: u8 = 0x01;

    /// The frame was sent/received with short preamble.
    pub const PREAMBLE: u8 = 0x02;

    /// The frame was sent/received with WEP encryption.
    pub const WEP: u8 = 0x04;

    /// The frame was sent/received with fragmentation.
    pub const FRAG: u8 = 0x08;

    /// The frame includes FCS at the end.
    pub const FCS: u8 = 0x10;

    /// The frame has padding between 802.11 header and payload.
    pub const DATA_PAD: u8 = 0x20;

    /// The frame failed FCS check.
    pub const BAD_FCS: u8 = 0x40;

    /// The frame was sent/received with HT short Guard Interval.
    pub const SHORT_GI: u8 = 0x80;

    /// Every bit that has a meaning.
    pub const ALL: u8 = 0xff;

    /// The underlying bits.
    pub closed spec fn view(&self) -> u8 {
        self.bits
    }

    /// The flags that `bits` holds, unknown bits dropped.
    pub closed spec fn truncated(bits: u8) -> Self {
        Flags { bits: bits & Self::ALL }
    }

    /// Whether every bit of `mask` is set.
    pub open spec fn has(&self, mask: u8) -> bool {
        self@ & mask == mask
    }

    /// Converts from the underlying bits, dropping any bit without a meaning.
    pub fn from_bits_truncate(bits: u8) -> (r: Self)
        ensures
            r == Self::truncated(bits),
            r@ == bits & Self::ALL,
    {
        Flags { bits: bits & Self::ALL }
    }

    /// Returns the underlying bits.
    pub fn bits(&self) -> (r: u8)
        ensures
            r == self@,
    {
        self.bits
    }

    /// Consumes the flags and returns the underlying bits.
    pub fn into_inner(self) -> (r: u8)
        ensures
            r == self@,
    {
        self.bits
    }

    /// Returns whether every bit of `mask` is set.
    pub fn contains(&self, mask: u8) -> (r: bool)
        ensures
            r == self.has(mask),
    {
        self.bits & mask == mask
    }
}

impl Flags {
    /// The flags that the field's bytes hold.
    pub open spec fn decode(bytes: Seq<u8>) -> Flags {
        Flags::truncated(bytes[0])
    }

    /// Reads the field from its bytes.
    pub fn from_bytes(bytes: &[u8]) -> (r: Flags)
        requires
            bytes.len() == 1,
        ensures
            r == Flags::decode(bytes@),
    {
        Flags::from_bits_truncate(bytes[0])
    }
}

/// Properties of received frames.
#[derive(Debug, Clone, Copy, PartialEq, Eq, Structural)]
pub struct RxFlags {
    bits: u16,
}

impl RxFlags {
    /// PLCP CRC check failed.
    pub const BAD_PLCP: u16 = 0x0002;

    /// Every bit that has a meaning.
    pub const ALL: u16 = 0x0002;

    /// The underlying bits.
    pub closed spec fn view(&self) -> u16 {
        self.bits
    }

    /// The flags that `bits` holds, unknown bits dropped.
    pub closed spec fn truncated(bits: u16) -> Self {
        RxFlags { bits: bits & Self::ALL }
    }

    /// Whether every bit of `mask` is set.
    pub open spec fn has(&self, mask: u16) -> bool {
        self@ & mask == mask
    }

    /// Converts from the underlying bits, dropping any bit without a meaning.
    pub fn from_bits_truncate(bits: u16) -> (r: Self)
        ensures
            r == Self::truncated(bits),
            r@ == bits & Self::ALL,
    {
        RxFlags { bits: bits & Self::ALL }
    }

    /// Returns the underlying bits.
    pub fn bits(&self) -> (r: u16)
        ensures
            r == self@,
    {
        self.bits
    }

    /// Consumes the flags and returns the underlying bits.
    pub fn into_inner(self) -> (r: u16)
        ensures
            r == self@,
    {
        self.bits
    }

    /// Returns whether every bit of `mask` is set.
    pub fn contains(&self, mask: u16) -> (r: bool)
        ensures
            r == self.has(mask),
    {
        self.bits & mask == mask
    }
}

impl RxFlags {
    /// The flags that the field's bytes hold.
    pub open spec fn decode(bytes: Seq<u8>) -> RxFlags {
        RxFlags::truncated(le_u16(bytes) as u16)
    }

    /// Reads the field from its bytes.
    pub fn from_bytes(bytes: &[u8]) -> (r: RxFlags)
        requires
            bytes.len() == 2,
        ensures
            r == RxFlags::decode(bytes@),
    {
        proof {
            assert(span(bytes@, 0, 2) =~= bytes@);
        }
        RxFlags::from_bits_truncate(u16_le(bytes, 0))
    }
}

/// Properties of transmitted frames.
#[derive(Debug, Clone, Copy, PartialEq, Eq, Structural)]
pub struct TxFlags {
    bits: u16,
}

impl TxFlags {
    /// Transmission failed due to excessive retries.
    pub const FAIL: u16 = 0x0001;

    /// Transmission used CTS-to-self protection.
    pub const CTS: u16 = 0x0002;

    /// Transmission used RTS/CTS handshake.
    pub const RTS: u16 = 0x0004;

    /// Transmission shall not expect an ACK frame and not retry when no ACK is received.
    pub const NO_ACK: u16 = 0x0008;

    /// Transmission includes a pre-configured sequence number that should not be changed by the driver's TX handlers.
    pub const NO_SEQ: u16 = 0x0010;

    /// Every bit that has a meaning.
    pub const ALL: u16 = 0x001f;

    /// The underlying bits.
    pub closed spec fn view(&self) -> u16 {
        self.bits
    }

    /// The flags that `bits` holds, unknown bits dropped.
    pub closed spec fn truncated(bits: u16) -> Self {
        TxFlags { bits: bits & Self::ALL }
    }

    /// Whether every bit of `mask` is set.
    pub open spec fn has(&self, mask: u16) -> bool {
        self@ & mask == mask
    }

    /// Converts from the underlying bits, dropping any bit without a meaning.
    pub fn from_bits_truncate(bits: u16) -> (r: Self)
        ensures
            r == Self::truncated(bits),
            r@ == bits & Self::ALL,
    {
        TxFlags { bits: bits & Self::ALL }
    }

    /// Returns the underlying bits.
    pub fn bits(&self) -> (r: u16)
        ensures
            r == self@,
    {
        self.bits
    }

    /// Consumes the flags and returns the underlying bits.
    pub fn into_inner(self) -> (r: u16)
        ensures
            r == self@,
    {
        self.bits
    }

    /// Returns whether every bit of `mask` is set.
    pub fn contains(&self, mask: u16) -> (r: bool)
        ensures
            r == self.has(mask),
    {
        self.bits & mask == mask
    }
}

impl TxFlags {
    /// The flags that the field's bytes hold.
    pub open spec fn decode(bytes: Seq<u8>) -> TxFlags {
        TxFlags::truncated(le_u16(bytes) as u16)
    }

    /// Reads the field from its bytes.
    pub fn from_bytes(bytes: &[u8]) -> (r: TxFlags)
        requires
            bytes.len() == 2,
        ensures
            r == TxFlags::decode(bytes@),
    {
        proof {
            assert(span(bytes@, 0, 2) =~= bytes@);
        }
        TxFlags::from_bits_truncate(u16_le(bytes, 0))
    }
}

/// The hop set and pattern for frequency-hopping radios.
#[derive(Debug, Clone, Copy, PartialEq, Eq, PartialOrd, Ord, Structural)]
pub struct Fhss {
    /// The hop set.
    pub hop_set: u8,
    /// The hop pattern.
    pub hop_pattern: u8,
}

impl Fhss {
    /// The value that the field's bytes hold.
    pub open spec fn decode(bytes: Seq<u8>) -> Fhss {
        Fhss { hop_set: bytes[0], hop_pattern: bytes[1] }
    }

    /// Reads the field from its bytes.
    pub fn from_bytes(bytes: &[u8]) -> (r: Fhss)
        requires
            bytes.len() == 2,
        ensures
            r == Fhss::decode(bytes@),
    {
        Fhss { hop_set: bytes[0], hop_pattern: bytes[1] }
    }

    /// Returns the hop set.
    pub fn hop_set(&self) -> (r: u8)
        ensures
            r == self.hop_set,
    {
        self.hop_set
    }

    /// Returns the hop pattern.
    pub fn hop_pattern(&self) -> (r: u8)
        ensures
            r == self.hop_pattern,
    {
        self.hop_pattern
    }
}

/// The value of a field of any type.
#[derive(Debug, Clone, Copy, PartialEq, Eq)]
#[non_exhaustive]
pub enum Value {
    Tsft(Tsft),
    Flags(Flags),
    Rate(Rate),
    Channel(Channel),
    Fhss(Fhss),
    AntennaSignal(AntennaSignal),
    AntennaNoise(AntennaNoise),
    LockQuality(LockQuality),
    TxAttenuation(TxAttenuation),
    TxAttenuationDb(TxAttenuationDb),
    TxPower(TxPower),
    Antenna(Antenna),
    AntennaSignalDb(AntennaSignalDb),
    AntennaNoiseDb(AntennaNoiseDb),
    RxFlags(RxFlags),
    TxFlags(TxFlags),
    XChannel(XChannel),
    Mcs(Mcs),
    AmpduStatus(AmpduStatus),
    Vht(Vht),
    Timestamp(Timestamp),
    /// A field of a type that this crate does not parse.
    Unparsed(Type),
}

impl Type {
    /// Whether this crate parses fields of the type.
    pub open spec fn parsed(&self) -> bool {
        match self {
            Type::RtsRetries => false,
            Type::DataRetries => false,
            Type::He => false,
            Type::HeMu => false,
            Type::HeMuUser => false,
            Type::ZeroLenPsdu => false,
            Type::LSig => false,
            _ => true,
        }
    }

    /// Returns whether this crate parses fields of the type.
    pub fn is_parsed(&self) -> (r: bool)
        ensures
            r == self.parsed(),
    {
        match self {
            Type::RtsRetries => false,
            Type::DataRetries => false,
            Type::He => false,
            Type::HeMu => false,
            Type::HeMuUser => false,
            Type::ZeroLenPsdu => false,
            Type::LSig => false,
            _ => true,
        }
    }
}

impl Value {
    /// The value of a field of type `kind` that the field's bytes hold.
    pub open spec fn decode(kind: Type, bytes: Seq<u8>) -> Value {
        match kind {
            Type::Tsft => Value::Tsft(Tsft::decode(bytes)),
            Type::Flags => Value::Flags(Flags::decode(bytes)),
            Type::Rate => Value::Rate(Rate::decode(bytes)),
            Type::Channel => Value::Channel(Channel::decode(bytes)),
            Type::Fhss => Value::Fhss(Fhss::decode(bytes)),
            Type::AntennaSignal => Value::AntennaSignal(AntennaSignal::decode(bytes)),
            Type::AntennaNoise => Value::AntennaNoise(AntennaNoise::decode(bytes)),
            Type::LockQuality => Value::LockQuality(LockQuality::decode(bytes)),
            Type::TxAttenuation => Value::TxAttenuation(TxAttenuation::decode(bytes)),
            Type::TxAttenuationDb => Value::TxAttenuationDb(TxAttenuationDb::decode(bytes)),
            Type::TxPower => Value::TxPower(TxPower::decode(bytes)),
            Type::Antenna => Value::Antenna(Antenna::decode(bytes)),
            Type::AntennaSignalDb => Value::AntennaSignalDb(AntennaSignalDb::decode(bytes)),
            Type::AntennaNoiseDb => Value::AntennaNoiseDb(AntennaNoiseDb::decode(bytes)),
            Type::RxFlags => Value::RxFlags(RxFlags::decode(bytes)),
            Type::TxFlags => Value::TxFlags(TxFlags::decode(bytes)),
            Type::XChannel => Value::XChannel(XChannel::decode(bytes)),
            Type::Mcs => Value::Mcs(Mcs::decode(bytes)),
            Type::AmpduStatus => Value::AmpduStatus(AmpduStatus::decode(bytes)),
            Type::Vht => Value::Vht(Vht::decode(bytes)),
            Type::Timestamp => Value::Timestamp(Timestamp::decode(bytes)),
            _ => Value::Unparsed(kind),
        }
    }

    /// The type of field that the value is of.
    pub open spec fn kind_spec(&self) -> Type {
        match self {
            Value::Tsft(_) => Type::Tsft,
            Value::Flags(_) => Type::Flags,
            Value::Rate(_) => Type::Rate,
            Value::Channel(_) => Type::Channel,
            Value::Fhss(_) => Type::Fhss,
            Value::AntennaSignal(_) => Type::AntennaSignal,
            Value::AntennaNoise(_) => Type::AntennaNoise,
            Value::LockQuality(_) => Type::LockQuality,
            Value::TxAttenuation(_) => Type::TxAttenuation,
            Value::TxAttenuationDb(_) => Type::TxAttenuationDb,
            Value::TxPower(_) => Type::TxPower,
            Value::Antenna(_) => Type::Antenna,
            Value::AntennaSignalDb(_) => Type::AntennaSignalDb,
            Value::AntennaNoiseDb(_) => Type::AntennaNoiseDb,
            Value::RxFlags(_) => Type::RxFlags,
            Value::TxFlags(_) => Type::TxFlags,
            Value::XChannel(_) => Type::XChannel,
            Value::Mcs(_) => Type::Mcs,
            Value::AmpduStatus(_) => Type::AmpduStatus,
            Value::Vht(_) => Type::Vht,
            Value::Timestamp(_) => Type::Timestamp,
            Value::Unparsed(kind) => *kind,
        }
    }

    /// Reads a field of type `kind` from its bytes.
    pub fn from_bytes(kind: Type, bytes: &[u8]) -> (r: Value)
        requires
            bytes.len() == kind.size_spec(),
        ensures
            r == Value::decode(kind, bytes@),
    {
        match kind {
            Type::Tsft => Value::Tsft(Tsft::from_bytes(bytes)),
            Type::Flags => Value::Flags(Flags::from_bytes(bytes)),
            Type::Rate => Value::Rate(Rate::from_bytes(bytes)),
            Type::Channel => Value::Channel(Channel::from_bytes(bytes)),
            Type::Fhss => Value::Fhss(Fhss::from_bytes(bytes)),
            Type::AntennaSignal => Value::AntennaSignal(AntennaSignal::from_bytes(bytes)),
            Type::AntennaNoise => Value::AntennaNoise(AntennaNoise::from_bytes(bytes)),
            Type::LockQuality => Value::LockQuality(LockQuality::from_bytes(bytes)),
            Type::TxAttenuation => Value::TxAttenuation(TxAttenuation::from_bytes(bytes)),
            Type::TxAttenuationDb => Value::TxAttenuationDb(TxAttenuationDb::from_bytes(bytes)),
            Type::TxPower => Value::TxPower(TxPower::from_bytes(bytes)),
            Type::Antenna => Value::Antenna(Antenna::from_bytes(bytes)),
            Type::AntennaSignalDb => Value::AntennaSignalDb(AntennaSignalDb::from_bytes(bytes)),
            Type::AntennaNoiseDb => Value::AntennaNoiseDb(AntennaNoiseDb::from_bytes(bytes)),
            Type::RxFlags => Value::RxFlags(RxFlags::from_bytes(bytes)),
            Type::TxFlags => Value::TxFlags(TxFlags::from_bytes(bytes)),
            Type::XChannel => Value::XChannel(XChannel::from_bytes(bytes)),
            Type::Mcs => Value::Mcs(Mcs::from_bytes(bytes)),
            Type::AmpduStatus => Value::AmpduStatus(AmpduStatus::from_bytes(bytes)),
            Type::Vht => Value::Vht(Vht::from_bytes(bytes)),
            Type::Timestamp => Value::Timestamp(Timestamp::from_bytes(bytes)),
            _ => Value::Unparsed(kind),
        }
    }

    /// Returns the type of field that the value is of.
    pub fn kind(&self) -> (r: Type)
        ensures
            r == self.kind_spec(),
    {
        match self {
            Value::Tsft(_) => Type::Tsft,
            Value::Flags(_) => Type::Flags,
            Value::Rate(_) => Type::Rate,
            Value::Channel(_) => Type::Channel,
            Value::Fhss(_) => Type::Fhss,
            Value::AntennaSignal(_) => Type::AntennaSignal,
            Value::AntennaNoise(_) => Type::AntennaNoise,
            Value::LockQuality(_) => Type::LockQuality,
            Value::TxAttenuation(_) => Type::TxAttenuation,
            Value::TxAttenuationDb(_) => Type::TxAttenuationDb,
            Value::TxPower(_) => Type::TxPower,
            Value::Antenna(_) => Type::Antenna,
            Value::AntennaSignalDb(_) => Type::AntennaSignalDb,
            Value::AntennaNoiseDb(_) => Type::AntennaNoiseDb,
            Value::RxFlags(_) => Type::RxFlags,
            Value::TxFlags(_) => Type::TxFlags,
            Value::XChannel(_) => Type::XChannel,
            Value::Mcs(_) => Type::Mcs,
            Value::AmpduStatus(_) => Type::AmpduStatus,
            Value::Vht(_) => Type::Vht,
            Value::Timestamp(_) => Type::Timestamp,
            Value::Unparsed(kind) => *kind,
        }
    }

    /// A value read from bytes is of the type that it was read as.
    pub proof fn lemma_decode_kind(kind: Type, bytes: Seq<u8>)
        ensures
            Value::decode(kind, bytes).kind_spec() == kind,
    {
    }
}

} // verus!
