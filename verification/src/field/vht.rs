//! Defines the VHT field.

use crate::bytes::{le_u16, span, u16_le};
use crate::field::ext::{column_of, rate_column, vht_cell, vht_lookup};
use crate::field::mcs;
use crate::field::{Fec, GuardInterval};
use vstd::prelude::*;

verus! {

/// An error returned when parsing a [`Bandwidth`] from the raw bits in
/// [`.bandwidth()`][Vht::bandwidth].
#[derive(Debug, Clone, Copy, PartialEq, Eq, Structural)]
pub struct InvalidBandwidth(pub u8);

/// What is wrong with a data rate.
#[derive(Debug, Clone, Copy, PartialEq, Eq, Structural)]
pub enum InvalidDatarateKind {
    /// The MCS index is invalid.
    Index(u8),
    /// The NSS is invalid.
    Nss(u8),
    /// Failed to parse the bandwidth.
    Bandwidth(InvalidBandwidth),
    /// The MCS index, guard interval, NSS and bandwidth combination is invalid.
    Mismatch,
}

/// An error returned when parsing the datarate in
/// [`.to_kbps()`][User::to_kbps].
#[derive(Debug, Clone, Copy, PartialEq, Eq, Structural)]
pub struct InvalidDatarate {
    /// What is wrong.
    pub kind: InvalidDatarateKind,
}

/// The bandwidth.
#[derive(Debug, Clone, Copy, PartialEq, Eq, Hash, Structural)]
pub enum Bandwidth {
    BW20,
    BW40,
    BW20L,
    BW20U,
    BW80,
    BW40L,
    BW40U,
    BW20LL,
    BW20LU,
    BW20UL,
    BW20UU,
    BW160,
    BW80L,
    BW80U,
    BW40LL,
    BW40LU,
    BW40UL,
    BW40UU,
    BW20LLL,
    BW20LLU,
    BW20LUL,
    BW20LUU,
    BW20ULL,
    BW20ULU,
    BW20UUL,
    BW20UUU,
}

/// Indicates what VHT information is known.
#[derive(Debug, Clone, Copy, PartialEq, Eq, Structural)]
pub struct Known {
    bits: u16,
}

impl Known {
    /// The space-time block coding (STBC) information is known.
    pub const STBC: u16 = 0x0001;

    /// The `TXOP_PS_NA` information is known.
    pub const TXOP_PS_NA: u16 = 0x0002;

    /// The guard interval is known.
    pub const GI: u16 = 0x0004;

    /// The short GI NSYM disambiguation is known.
    pub const SGI_NSYM_DA: u16 = 0x0008;

    /// The LDPC extra OFDM symbol is known.
    pub const LDPC_EXTRA_OFDM_SYM: u16 = 0x0010;

    /// The beamformed information is known.
    pub const BF: u16 = 0x0020;

    /// The bandwidth is known.
    pub const BW: u16 = 0x0040;

    /// The group ID is known.
    pub const G_ID: u16 = 0x0080;

    /// The partial AID is known/applicable.
    pub const P_AID: u16 = 0x0100;

    /// Every bit that has a meaning.
    pub const ALL: u16 = 0x01ff;

    /// The underlying bits.
    pub closed spec fn view(&self) -> u16 {
        self.bits
    }

    /// The flags that `bits` holds, unknown bits dropped.
    pub closed spec fn truncated(bits: u16) -> Self {
        Known { bits: bits & Self::ALL }
    }

    /// Whether every bit of `mask` is set.
    pub open spec fn has(&self, mask: u16) -> bool {
        self@ & mask == mask
    }

    /// Converts from the underlying bits, dropping any bit without a meaning.
    pub fn from_bits_truncate(bits: u16) -> (r: Self)
        ensures
            r == Self::truncated(bits),
            r@ == bits & Self::ALL,
    {
        Known { bits: bits & Self::ALL }
    }

    /// Returns the underlying bits.
    pub fn bits(&self) -> (r: u16)
        ensures
            r == self@,
    {
        self.bits
    }

    /// Consumes the flags and returns the underlying bits.
    pub fn into_inner(self) -> (r: u16)
        ensures
            r == self@,
    {
        self.bits
    }

    /// Returns whether every bit of `mask` is set.
    pub fn contains(&self, mask: u16) -> (r: bool)
        ensures
            r == self.has(mask),
    {
        self.bits & mask == mask
    }
}

/// Flags describing the VHT information.
#[derive(Debug, Clone, Copy, PartialEq, Eq, Structural)]
pub struct Flags {
    bits: u8,
}

impl Flags {
    /// Endodes the space-time block coding (STBC).
    pub const STBC: u8 = 0x01;

    /// Encodes whether STAs may doze during TXOP.
    pub const TXOP_PS_NA: u8 = 0x02;

    /// Encodes the guard interval.
    pub const GI: u8 = 0x04;

    /// Encodes the short Guard Interval Nsym disambiguation.
    pub const SGI_NSYM_DA: u8 = 0x08;

    /// Encodes the LDPC extra OFDM symbol.
    pub const LDPC_EXTRA_OFDM_SYM: u8 = 0x10;

    /// Encodes whether this frame was beamformed.
    pub const BF: u8 = 0x20;

    /// Every bit that has a meaning.
    pub const ALL: u8 = 0x3f;

    /// The underlying bits.
    pub closed spec fn view(&self) -> u8 {
        self.bits
    }

    /// The flags that `bits` holds, unknown bits dropped.
    pub closed spec fn truncated(bits: u8) -> Self {
        Flags { bits: bits & Self::ALL }
    }

    /// Whether every bit of `mask` is set.
    pub open spec fn has(&self, mask: u8) -> bool {
        self@ & mask == mask
    }

    /// Converts from the underlying bits, dropping any bit without a meaning.
    pub fn from_bits_truncate(bits: u8) -> (r: Self)
        ensures
            r == Self::truncated(bits),
            r@ == bits & Self::ALL,
    {
        Flags { bits: bits & Self::ALL }
    }

    /// Returns the underlying bits.
    pub fn bits(&self) -> (r: u8)
        ensures
            r == self@,
    {
        self.bits
    }

    /// Consumes the flags and returns the underlying bits.
    pub fn into_inner(self) -> (r: u8)
        ensures
            r == self@,
    {
        self.bits
    }

    /// Returns whether every bit of `mask` is set.
    pub fn contains(&self, mask: u8) -> (r: bool)
        ensures
            r == self.has(mask),
    {
        self.bits & mask == mask
    }
}

/// A VHT user.
///
/// This is created by the [`.users()`][Vht::users] method on the [`Vht`]
/// field.
#[derive(Debug, Clone, Copy, PartialEq, Eq)]
pub struct User<'a> {
    /// The field that the user belongs to.
    pub vht: &'a Vht,
    /// The VHT index.
    pub index: u8,
    /// The number of spatial streams.
    pub nss: u8,
    /// The number of space-time streams.
    pub nsts: u8,
    /// The FEC type.
    pub fec: Fec,
}

/// The VHT information.
///
/// The IEEE 802.11ac data rate index.
///
/// Other rate fields: [`Rate`][super::Rate], [`Mcs`][super::Mcs]
#[derive(Debug, Clone, Copy, PartialEq, Eq)]
pub struct Vht {
    /// Indicates which information is known.
    pub known: Known,
    /// Contains various encoded information.
    pub flags: Flags,
    /// The bandwidth, in its low five bits.
    pub bandwidth: u8,
    /// For each of the four users, the number of spatial streams in the low
    /// four bits and the MCS index in the high four.
    pub mcs_nss: (u8, u8, u8, u8),
    /// For each of the four users, in the bit of the user's number, the FEC
    /// type.
    pub coding: u8,
    /// The group ID.
    pub group_id: u8,
    /// The partial AID.
    pub partial_aid: u16,
}

impl Bandwidth {
    /// The bandwidth that a number encodes, if it encodes one.
    pub open spec fn of_bits(bits: u8) -> Option<Bandwidth> {
        match bits {
            0u8 => Some(Bandwidth::BW20),
            1u8 => Some(Bandwidth::BW40),
            2u8 => Some(Bandwidth::BW20L),
            3u8 => Some(Bandwidth::BW20U),
            4u8 => Some(Bandwidth::BW80),
            5u8 => Some(Bandwidth::BW40L),
            6u8 => Some(Bandwidth::BW40U),
            7u8 => Some(Bandwidth::BW20LL),
            8u8 => Some(Bandwidth::BW20LU),
            9u8 => Some(Bandwidth::BW20UL),
            10u8 => Some(Bandwidth::BW20UU),
            11u8 => Some(Bandwidth::BW160),
            12u8 => Some(Bandwidth::BW80L),
            13u8 => Some(Bandwidth::BW80U),
            14u8 => Some(Bandwidth::BW40LL),
            15u8 => Some(Bandwidth::BW40LU),
            16u8 => Some(Bandwidth::BW40UL),
            17u8 => Some(Bandwidth::BW40UU),
            18u8 => Some(Bandwidth::BW20LLL),
            19u8 => Some(Bandwidth::BW20LLU),
            20u8 => Some(Bandwidth::BW20LUL),
            21u8 => Some(Bandwidth::BW20LUU),
            22u8 => Some(Bandwidth::BW20ULL),
            23u8 => Some(Bandwidth::BW20ULU),
            24u8 => Some(Bandwidth::BW20UUL),
            25u8 => Some(Bandwidth::BW20UUU),
            _ => None,
        }
    }

    /// The number that encodes the bandwidth.
    pub open spec fn inner(&self) -> u8 {
        match self {
            Bandwidth::BW20 => 0,
            Bandwidth::BW40 => 1,
            Bandwidth::BW20L => 2,
            Bandwidth::BW20U => 3,
            Bandwidth::BW80 => 4,
            Bandwidth::BW40L => 5,
            Bandwidth::BW40U => 6,
            Bandwidth::BW20LL => 7,
            Bandwidth::BW20LU => 8,
            Bandwidth::BW20UL => 9,
            Bandwidth::BW20UU => 10,
            Bandwidth::BW160 => 11,
            Bandwidth::BW80L => 12,
            Bandwidth::BW80U => 13,
            Bandwidth::BW40LL => 14,
            Bandwidth::BW40LU => 15,
            Bandwidth::BW40UL => 16,
            Bandwidth::BW40UU => 17,
            Bandwidth::BW20LLL => 18,
            Bandwidth::BW20LLU => 19,
            Bandwidth::BW20LUL => 20,
            Bandwidth::BW20LUU => 21,
            Bandwidth::BW20ULL => 22,
            Bandwidth::BW20ULU => 23,
            Bandwidth::BW20UUL => 24,
            Bandwidth::BW20UUU => 25,
        }
    }

    /// The bandwidth in MHz: that of the whole channel which the sideband, if
    /// it is one, belongs to.
    pub open spec fn mhz(&self) -> u8 {
        if self.inner() == 0 {
            20
        } else if self.inner() <= 3 {
            40
        } else if self.inner() <= 10 {
            80
        } else {
            160
        }
    }

    pub(crate) fn from_bits(bits: u8) -> (r: Option<Bandwidth>)
        ensures
            r == Bandwidth::of_bits(bits),
    {
        match bits {
            0 => Some(Bandwidth::BW20),
            1 => Some(Bandwidth::BW40),
            2 => Some(Bandwidth::BW20L),
            3 => Some(Bandwidth::BW20U),
            4 => Some(Bandwidth::BW80),
            5 => Some(Bandwidth::BW40L),
            6 => Some(Bandwidth::BW40U),
            7 => Some(Bandwidth::BW20LL),
            8 => Some(Bandwidth::BW20LU),
            9 => Some(Bandwidth::BW20UL),
            10 => Some(Bandwidth::BW20UU),
            11 => Some(Bandwidth::BW160),
            12 => Some(Bandwidth::BW80L),
            13 => Some(Bandwidth::BW80U),
            14 => Some(Bandwidth::BW40LL),
            15 => Some(Bandwidth::BW40LU),
            16 => Some(Bandwidth::BW40UL),
            17 => Some(Bandwidth::BW40UU),
            18 => Some(Bandwidth::BW20LLL),
            19 => Some(Bandwidth::BW20LLU),
            20 => Some(Bandwidth::BW20LUL),
            21 => Some(Bandwidth::BW20LUU),
            22 => Some(Bandwidth::BW20ULL),
            23 => Some(Bandwidth::BW20ULU),
            24 => Some(Bandwidth::BW20UUL),
            25 => Some(Bandwidth::BW20UUU),
            _ => None,
        }
    }

    /// Returns the bandwidth in MHz.
    pub fn to_mhz(&self) -> (r: u8)
        ensures
            r == self.mhz(),
    {
        match self {
            Bandwidth::BW20 => 20,
            Bandwidth::BW40 => 40,
            Bandwidth::BW20L => 40,
            Bandwidth::BW20U => 40,
            Bandwidth::BW80 => 80,
            Bandwidth::BW40L => 80,
            Bandwidth::BW40U => 80,
            Bandwidth::BW20LL => 80,
            Bandwidth::BW20LU => 80,
            Bandwidth::BW20UL => 80,
            Bandwidth::BW20UU => 80,
            Bandwidth::BW160 => 160,
            Bandwidth::BW80L => 160,
            Bandwidth::BW80U => 160,
            Bandwidth::BW40LL => 160,
            Bandwidth::BW40LU => 160,
            Bandwidth::BW40UL => 160,
            Bandwidth::BW40UU => 160,
            Bandwidth::BW20LLL => 160,
            Bandwidth::BW20LLU => 160,
            Bandwidth::BW20LUL => 160,
            Bandwidth::BW20LUU => 160,
            Bandwidth::BW20ULL => 160,
            Bandwidth::BW20ULU => 160,
            Bandwidth::BW20UUL => 160,
            Bandwidth::BW20UUU => 160,
        }
    }

    /// A number encodes a bandwidth if and only if it is below 26, and the
    /// bandwidth is encoded by that number.
    pub proof fn lemma_of_bits(bits: u8)
        ensures
            Bandwidth::of_bits(bits).is_some() <==> bits <= 25,
            Bandwidth::of_bits(bits) matches Some(bw) ==> bw.inner() == bits,
    {
    }
}

impl From<mcs::Bandwidth> for Bandwidth {
    fn from(bw: mcs::Bandwidth) -> (r: Bandwidth) {
        match bw {
            mcs::Bandwidth::BW20 => Bandwidth::BW20,
            mcs::Bandwidth::BW40 => Bandwidth::BW40,
            mcs::Bandwidth::BW20L => Bandwidth::BW40L,
            mcs::Bandwidth::BW20U => Bandwidth::BW20U,
        }
    }
}

impl vstd::std_specs::convert::FromSpecImpl<mcs::Bandwidth> for Bandwidth {
    open spec fn obeys_from_spec() -> bool {
        true
    }

    open spec fn from_spec(bw: mcs::Bandwidth) -> Bandwidth {
        match bw {
            mcs::Bandwidth::BW20 => Bandwidth::BW20,
            mcs::Bandwidth::BW40 => Bandwidth::BW40,
            mcs::Bandwidth::BW20L => Bandwidth::BW40L,
            mcs::Bandwidth::BW20U => Bandwidth::BW20U,
        }
    }
}

impl User<'_> {
    /// The data rate in kilobits per second. An index above 9 is an error,
    /// and then so is a number of spatial streams that is not between 1 and
    /// 8. Otherwise the rate is unknown where the bandwidth is unknown; a
    /// bandwidth that is known and invalid is an error; the rate is unknown
    /// where the guard interval is; and a combination that the table lacks
    /// is an error.
    pub open spec fn kbps_spec(&self) -> Option<Result<u32, InvalidDatarate>> {
        if self.index > 9 {
            Some(Err(InvalidDatarate { kind: InvalidDatarateKind::Index(self.index) }))
        } else if self.nss > 8 || self.nss == 0 {
            Some(Err(InvalidDatarate { kind: InvalidDatarateKind::Nss(self.nss) }))
        } else {
            match self.vht.bandwidth_spec() {
                None => None,
                Some(Err(e)) => Some(
                    Err(InvalidDatarate { kind: InvalidDatarateKind::Bandwidth(e) }),
                ),
                Some(Ok(bw)) => match self.vht.guard_interval_spec() {
                    None => None,
                    Some(gi) => {
                        let rate = vht_cell(
                            (self.index + (self.nss - 1) * 10) as u8,
                            rate_column(bw.mhz(), gi == GuardInterval::Short).unwrap(),
                        );
                        if rate == 0 {
                            Some(Err(InvalidDatarate { kind: InvalidDatarateKind::Mismatch }))
                        } else {
                            Some(Ok(rate))
                        }
                    },
                },
            }
        }
    }

    /// Returns the VHT index (1 - 9).
    pub fn index(&self) -> (r: u8)
        ensures
            r == self.index,
    {
        self.index
    }

    /// Returns the number of spatial streams (1 - 8).
    pub fn nss(&self) -> (r: u8)
        ensures
            r == self.nss,
    {
        self.nss
    }

    /// Returns the number of space-time streams.
    pub fn nsts(&self) -> (r: u8)
        ensures
            r == self.nsts,
    {
        self.nsts
    }

    /// Returns the FEC type.
    pub fn fec(&self) -> (r: Fec)
        ensures
            r == self.fec,
    {
        self.fec
    }

    /// Returns the data rate in kilobits per second.
    pub fn to_kbps(&self) -> (r: Option<Result<u32, InvalidDatarate>>)
        ensures
            r == self.kbps_spec(),
    {
        if self.index > 9 {
            return Some(Err(InvalidDatarate { kind: InvalidDatarateKind::Index(self.index) }));
        }
        if self.nss > 8 || self.nss == 0 {
            return Some(Err(InvalidDatarate { kind: InvalidDatarateKind::Nss(self.nss) }));
        }
        let bw = match self.vht.bandwidth() {
            None => {
                return None;
            },
            Some(Err(e)) => {
                return Some(Err(InvalidDatarate { kind: InvalidDatarateKind::Bandwidth(e) }));
            },
            Some(Ok(bw)) => bw,
        };
        let gi = match self.vht.guard_interval() {
            None => {
                return None;
            },
            Some(gi) => gi,
        };
        let column: u8 = match column_of(bw.to_mhz(), gi == GuardInterval::Short) {
            Some(column) => column,
            None => {
                return None;
            },
        };
        let rate = vht_lookup(self.index + (self.nss - 1) * 10, column);
        if rate == 0 {
            return Some(Err(InvalidDatarate { kind: InvalidDatarateKind::Mismatch }));
        }
        Some(Ok(rate))
    }
}

/// Whether bit `i` of `coding` is set, for `i` from 0 to 3.
pub open spec fn coding_bit(coding: u8, i: int) -> bool {
    let unit: int = if i == 0 {
        1
    } else if i == 1 {
        2
    } else if i == 2 {
        4
    } else {
        8
    };
    (coding as int / unit) % 2 == 1
}

impl Vht {
    /// The value that the field's bytes hold: two bytes of known bits,
    /// little-endian, the flags, the bandwidth, a byte for each of four
    /// users, the coding, the group ID, and two bytes of partial AID,
    /// little-endian.
    pub open spec fn decode(bytes: Seq<u8>) -> Vht {
        Vht {
            known: Known::truncated(le_u16(span(bytes, 0, 2)) as u16),
            flags: Flags::truncated(bytes[2]),
            bandwidth: bytes[3],
            mcs_nss: (bytes[4], bytes[5], bytes[6], bytes[7]),
            coding: bytes[8],
            group_id: bytes[9],
            partial_aid: le_u16(span(bytes, 10, 2)) as u16,
        }
    }

    /// The byte of user `i`, for `i` from 0 to 3.
    pub open spec fn mcs_nss_at(&self, i: int) -> u8 {
        if i == 0 {
            self.mcs_nss.0
        } else if i == 1 {
            self.mcs_nss.1
        } else if i == 2 {
            self.mcs_nss.2
        } else {
            self.mcs_nss.3
        }
    }

    /// The guard interval, where it is known.
    pub open spec fn guard_interval_spec(&self) -> Option<GuardInterval> {
        if self.known.has(Known::GI) {
            Some(GuardInterval::of_bool(self.flags.has(Flags::GI)))
        } else {
            None
        }
    }

    /// The low five bits of the bandwidth byte.
    pub open spec fn bandwidth_bits(&self) -> u8 {
        (self.bandwidth % 32) as u8
    }

    /// The bandwidth, where it is known, or the error for a number that
    /// encodes none.
    pub open spec fn bandwidth_spec(&self) -> Option<Result<Bandwidth, InvalidBandwidth>> {
        if self.known.has(Known::BW) {
            match Bandwidth::of_bits(self.bandwidth_bits()) {
                Some(bw) => Some(Ok(bw)),
                None => Some(Err(InvalidBandwidth(self.bandwidth_bits()))),
            }
        } else {
            None
        }
    }

    /// User `i`, for `i` from 0 to 3: absent where the low four bits of the
    /// user's byte, the number of spatial streams, are zero. The number of
    /// space-time streams is twice that of spatial streams where STBC is
    /// known and set, and equal to it otherwise.
    pub open spec fn user_spec(&self, i: int) -> Option<User<'_>> {
        let byte = self.mcs_nss_at(i);
        let nss = (byte % 16) as u8;
        if nss == 0 {
            None
        } else {
            Some(
                User {
                    vht: self,
                    index: (byte / 16) as u8,
                    nss,
                    nsts: if self.known.has(Known::STBC) && self.flags.has(Flags::STBC) {
                        (nss * 2) as u8
                    } else {
                        nss
                    },
                    fec: Fec::of_bool(coding_bit(self.coding, i)),
                },
            )
        }
    }

    /// Reads the field from its bytes.
    pub fn from_bytes(bytes: &[u8]) -> (r: Vht)
        requires
            bytes.len() == 12,
        ensures
            r == Vht::decode(bytes@),
    {
        let known = Known::from_bits_truncate(u16_le(bytes, 0));
        let flags = Flags::from_bits_truncate(bytes[2]);
        let bandwidth = bytes[3];
        let mcs_nss = (bytes[4], bytes[5], bytes[6], bytes[7]);
        let coding = bytes[8];
        let group_id = bytes[9];
        let partial_aid = u16_le(bytes, 10);
        Vht { known, flags, bandwidth, mcs_nss, coding, group_id, partial_aid }
    }

    /// Returns whether all spatial streams of all users have STBC.
    pub fn has_stbc(&self) -> (r: Option<bool>)
        ensures
            r == (if self.known.has(Known::STBC) {
                Some(self.flags.has(Flags::STBC))
            } else {
                None::<bool>
            }),
    {
        if self.known.contains(Known::STBC) {
            Some(self.flags.contains(Flags::STBC))
        } else {
            None
        }
    }

    /// Returns the guard interval.
    pub fn guard_interval(&self) -> (r: Option<GuardInterval>)
        ensures
            r == self.guard_interval_spec(),
    {
        if self.known.contains(Known::GI) {
            Some(GuardInterval::from_bool(self.flags.contains(Flags::GI)))
        } else {
            None
        }
    }

    /// Returns whether the frame was beamformed.
    pub fn is_beamformed(&self) -> (r: Option<bool>)
        ensures
            r == (if self.known.has(Known::BF) {
                Some(self.flags.has(Flags::BF))
            } else {
                None::<bool>
            }),
    {
        if self.known.contains(Known::BF) {
            Some(self.flags.contains(Flags::BF))
        } else {
            None
        }
    }

    /// Returns the bandwidth.
    pub fn bandwidth(&self) -> (r: Option<Result<Bandwidth, InvalidBandwidth>>)
        ensures
            r == self.bandwidth_spec(),
    {
        if self.known.contains(Known::BW) {
            let bits: u8 = self.bandwidth % 32;
            match Bandwidth::from_bits(bits) {
                Some(bw) => Some(Ok(bw)),
                None => Some(Err(InvalidBandwidth(bits))),
            }
        } else {
            None
        }
    }

    /// Returns the group ID of the frame.
    ///
    /// The group ID can be used to differentiate between SU PPDUs (group ID is
    /// 0 or 63) and MU PPDUs (group ID is 1 through 62).
    pub fn group_id(&self) -> (r: Option<u8>)
        ensures
            r == (if self.known.has(Known::G_ID) {
                Some(self.group_id)
            } else {
                None::<u8>
            }),
    {
        if self.known.contains(Known::G_ID) {
            Some(self.group_id)
        } else {
            None
        }
    }

    /// Returns the partial aid.
    ///
    /// This is a non-unique identifier of a STA to identify whether the
    /// transmissions are destined to a STA or not, used in conjunction with
    /// group ID.
    pub fn partial_aid(&self) -> (r: Option<u16>)
        ensures
            r == (if self.known.has(Known::P_AID) {
                Some(self.partial_aid)
            } else {
                None::<u16>
            }),
    {
        if self.known.contains(Known::P_AID) {
            Some(self.partial_aid)
        } else {
            None
        }
    }

    /// Returns the user in slot `i`, if the slot is in use.
    pub fn user(&self, i: u8) -> (r: Option<User<'_>>)
        requires
            i < 4,
        ensures
            r == self.user_spec(i as int),
    {
        let byte: u8 = match i {
            0 => self.mcs_nss.0,
            1 => self.mcs_nss.1,
            2 => self.mcs_nss.2,
            _ => self.mcs_nss.3,
        };
        let nss: u8 = byte % 16;
        if nss == 0 {
            return None;
        }
        let index: u8 = byte / 16;
        let stbc = self.known.contains(Known::STBC) && self.flags.contains(Flags::STBC);
        let nsts: u8 = if stbc {
            nss * 2
        } else {
            nss
        };
        let unit: u8 = match i {
            0 => 1,
            1 => 2,
            2 => 4,
            _ => 8,
        };
        let fec = Fec::from_bool((self.coding / unit) % 2 == 1);
        Some(User { vht: self, index, nss, nsts, fec })
    }

    /// Returns the VHT users.
    pub fn users(&self) -> (r: [Option<User<'_>>; 4])
        ensures
            forall|i: int| 0 <= i < 4 ==> r@[i] == self.user_spec(i),
    {
        let u0 = self.user(0);
        let u1 = self.user(1);
        let u2 = self.user(2);
        let u3 = self.user(3);
        [u0, u1, u2, u3]
    }

    /// Returns the raw known information.
    pub fn known(&self) -> (r: Known)
        ensures
            r == self.known,
    {
        self.known
    }

    /// Returns the raw flags.
    pub fn flags(&self) -> (r: Flags)
        ensures
            r == self.flags,
    {
        self.flags
    }
}

} // verus!
