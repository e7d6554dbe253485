//! Defines the MCS field.

use crate::field::ext::{ht_cell, ht_lookup};
use crate::field::{Fec, GuardInterval};
use vstd::pervasive::unreached;
use vstd::prelude::*;

verus! {

/// An error returned when parsing the datarate: the MCS index is above 31.
#[derive(Debug, Clone, Copy, PartialEq, Eq, Structural)]
pub struct InvalidDatarate(pub u8);

/// The bandwidth.
#[derive(Debug, Clone, Copy, PartialEq, Eq, Hash, Structural)]
pub enum Bandwidth {
    BW20,
    BW40,
    BW20L,
    BW20U,
}

/// The HT format.
#[derive(Debug, Clone, Copy, PartialEq, Eq, Hash, Structural)]
pub enum Format {
    Mixed,
    Greenfield,
}

/// Indicates what MCS information is known.
#[derive(Debug, Clone, Copy, PartialEq, Eq, Structural)]
pub struct Known {
    bits: u8,
}

impl Known {
    /// The bandwidth is known.
    pub const BW: u8 = 0x01;

    /// The MCS index is known.
    pub const INDEX: u8 = 0x02;

    /// The guard interval is known.
    pub const GI: u8 = 0x04;

    /// The HT format is known.
    pub const FMT: u8 = 0x08;

    /// The FEC type is known.
    pub const FEC: u8 = 0x10;

    /// The number of STBC streams is known.
    pub const STBC: u8 = 0x20;

    /// The number of extension spatial streams is known.
    pub const NESS: u8 = 0x40;

    /// Number of extension spatial streams value (bit 1).
    pub const NESS_BIT_1: u8 = 0x80;

    /// Every bit that has a meaning.
    pub const ALL: u8 = 0xff;

    /// The underlying bits.
    pub closed spec fn view(&self) -> u8 {
        self.bits
    }

    /// The flags that `bits` holds, unknown bits dropped.
    pub closed spec fn truncated(bits: u8) -> Self {
        Known { bits: bits & Self::ALL }
    }

    /// Whether every bit of `mask` is set.
    pub open spec fn has(&self, mask: u8) -> bool {
        self@ & mask == mask
    }

    /// Converts from the underlying bits, dropping any bit without a meaning.
    pub fn from_bits_truncate(bits: u8) -> (r: Self)
        ensures
            r == Self::truncated(bits),
            r@ == bits & Self::ALL,
    {
        Known { bits: bits & Self::ALL }
    }

    /// Returns the underlying bits.
    pub fn bits(&self) -> (r: u8)
        ensures
            r == self@,
    {
        self.bits
    }

    /// Consumes the flags and returns the underlying bits.
    pub fn into_inner(self) -> (r: u8)
        ensures
            r == self@,
    {
        self.bits
    }

    /// Returns whether every bit of `mask` is set.
    pub fn contains(&self, mask: u8) -> (r: bool)
        ensures
            r == self.has(mask),
    {
        self.bits & mask == mask
    }
}

/// Flags describing the MCS information.
#[derive(Debug, Clone, Copy, PartialEq, Eq, Structural)]
pub struct Flags {
    bits: u8,
}

impl Flags {
    /// Encodes the bandwidth (bit 0).
    pub const BW_BIT_0: u8 = 0x01;

    /// Encodes the bandwidth (bit 1).
    pub const BW_BIT_1: u8 = 0x02;

    /// The bandwidth mask.
    pub const BW_MASK: u8 = 0x03;

    /// Encodes the guard interval.
    pub const GI: u8 = 0x04;

    /// Encodes the HT format.
    pub const FMT: u8 = 0x08;

    /// Encodes the FEC type.
    pub const FEC: u8 = 0x10;

    /// Encodes the number of STBC streams (bit 0).
    pub const STBC_BIT_0: u8 = 0x20;

    /// Encodes the number of STBC streams (bit 1).
    pub const STBC_BIT_1: u8 = 0x40;

    /// The STBC mask.
    pub const STBC_MASK: u8 = 0x60;

    /// Number of extension spatial streams value (bit 0).
    pub const NESS_BIT_0: u8 = 0x80;

    /// Every bit that has a meaning.
    pub const ALL: u8 = 0xff;

    /// The underlying bits.
    pub closed spec fn view(&self) -> u8 {
        self.bits
    }

    /// The flags that `bits` holds, unknown bits dropped.
    pub closed spec fn truncated(bits: u8) -> Self {
        Flags { bits: bits & Self::ALL }
    }

    /// Whether every bit of `mask` is set.
    pub open spec fn has(&self, mask: u8) -> bool {
        self@ & mask == mask
    }

    /// Converts from the underlying bits, dropping any bit without a meaning.
    pub fn from_bits_truncate(bits: u8) -> (r: Self)
        ensures
            r == Self::truncated(bits),
            r@ == bits & Self::ALL,
    {
        Flags { bits: bits & Self::ALL }
    }

    /// Returns the underlying bits.
    pub fn bits(&self) -> (r: u8)
        ensures
            r == self@,
    {
        self.bits
    }

    /// Consumes the flags and returns the underlying bits.
    pub fn into_inner(self) -> (r: u8)
        ensures
            r == self@,
    {
        self.bits
    }

    /// Returns whether every bit of `mask` is set.
    pub fn contains(&self, mask: u8) -> (r: bool)
        ensures
            r == self.has(mask),
    {
        self.bits & mask == mask
    }
}

/// The MCS information.
///
/// The IEEE 802.11n data rate index.
///
/// Other rate fields: [`Rate`][super::Rate], [`Vht`][super::Vht]
#[derive(Debug, Clone, Copy, PartialEq, Eq, Structural)]
pub struct Mcs {
    /// Indicates which information is known.
    pub known: Known,
    /// Contains various encoded information.
    pub flags: Flags,
    /// The MCS index.
    pub index: u8,
}

impl Bandwidth {
    /// The bandwidth that a number encodes, if it encodes one.
    pub open spec fn of_bits(bits: u8) -> Option<Bandwidth> {
        match bits {
            0u8 => Some(Bandwidth::BW20),
            1u8 => Some(Bandwidth::BW40),
            2u8 => Some(Bandwidth::BW20L),
            3u8 => Some(Bandwidth::BW20U),
            _ => None,
        }
    }

    /// The bandwidth in MHz.
    pub open spec fn mhz(&self) -> u8 {
        match self {
            Bandwidth::BW20 => 20,
            Bandwidth::BW40 => 40,
            Bandwidth::BW20L => 40,
            Bandwidth::BW20U => 40,
        }
    }

    pub(crate) fn from_bits(bits: u8) -> (r: Option<Bandwidth>)
        ensures
            r == Bandwidth::of_bits(bits),
    {
        match bits {
            0 => Some(Bandwidth::BW20),
            1 => Some(Bandwidth::BW40),
            2 => Some(Bandwidth::BW20L),
            3 => Some(Bandwidth::BW20U),
            _ => None,
        }
    }

    /// Returns the bandwidth in MHz.
    pub fn to_mhz(&self) -> (r: u8)
        ensures
            r == self.mhz(),
    {
        match self {
            Bandwidth::BW20 => 20,
            Bandwidth::BW40 => 40,
            Bandwidth::BW20L => 40,
            Bandwidth::BW20U => 40,
        }
    }
}

impl Format {
    /// The HT format that a flag encodes.
    pub open spec fn of_bool(b: bool) -> Format {
        if b {
            Format::Greenfield
        } else {
            Format::Mixed
        }
    }

}

impl From<bool> for Format {
    fn from(b: bool) -> (r: Format) {
        match b {
            false => Format::Mixed,
            true => Format::Greenfield,
        }
    }
}

impl vstd::std_specs::convert::FromSpecImpl<bool> for Format {
    open spec fn obeys_from_spec() -> bool {
        true
    }

    open spec fn from_spec(b: bool) -> Format {
        Format::of_bool(b)
    }
}

impl Mcs {
    /// The value that the field's bytes hold: the known bits, the flags and
    /// the MCS index.
    pub open spec fn decode(bytes: Seq<u8>) -> Mcs {
        Mcs { known: Known::truncated(bytes[0]), flags: Flags::truncated(bytes[1]), index: bytes[2] }
    }

    /// The bandwidth, where it is known.
    pub open spec fn bandwidth_spec(&self) -> Option<Bandwidth> {
        if self.known.has(Known::BW) {
            Bandwidth::of_bits(self.flags@ & Flags::BW_MASK)
        } else {
            None
        }
    }

    /// The MCS index, where it is known.
    pub open spec fn index_spec(&self) -> Option<u8> {
        if self.known.has(Known::INDEX) {
            Some(self.index)
        } else {
            None
        }
    }

    /// The guard interval, where it is known.
    pub open spec fn guard_interval_spec(&self) -> Option<GuardInterval> {
        if self.known.has(Known::GI) {
            Some(GuardInterval::of_bool(self.flags.has(Flags::GI)))
        } else {
            None
        }
    }

    /// The HT format, where it is known.
    pub open spec fn format_spec(&self) -> Option<Format> {
        if self.known.has(Known::FMT) {
            Some(Format::of_bool(self.flags.has(Flags::FMT)))
        } else {
            None
        }
    }

    /// The FEC type, where it is known.
    pub open spec fn fec_spec(&self) -> Option<Fec> {
        if self.known.has(Known::FEC) {
            Some(Fec::of_bool(self.flags.has(Flags::FEC)))
        } else {
            None
        }
    }

    /// The data rate in kilobits per second. It is unknown unless the index,
    /// the bandwidth and the guard interval are all known, except that a
    /// known index above 31 is an error whatever else is known.
    pub open spec fn kbps_spec(&self) -> Option<Result<u32, InvalidDatarate>> {
        match self.index_spec() {
            None => None,
            Some(index) => if index > 31 {
                Some(Err(InvalidDatarate(index)))
            } else {
                match (self.bandwidth_spec(), self.guard_interval_spec()) {
                    (Some(bw), Some(gi)) => Some(
                        Ok(
                            ht_cell(
                                index,
                                ((if bw.mhz() == 20 {
                                    0int
                                } else {
                                    2int
                                }) + gi.inner()) as u8,
                            ),
                        ),
                    ),
                    _ => None,
                }
            },
        }
    }

    /// Reads the field from its bytes.
    pub fn from_bytes(bytes: &[u8]) -> (r: Mcs)
        requires
            bytes.len() == 3,
        ensures
            r == Mcs::decode(bytes@),
    {
        Mcs {
            known: Known::from_bits_truncate(bytes[0]),
            flags: Flags::from_bits_truncate(bytes[1]),
            index: bytes[2],
        }
    }

    /// Returns the bandwidth.
    pub fn bandwidth(&self) -> (r: Option<Bandwidth>)
        ensures
            r == self.bandwidth_spec(),
            r.is_some() == self.known.has(Known::BW),
    {
        if self.known.contains(Known::BW) {
            let flags: u8 = self.flags.bits();
            let bits: u8 = flags & Flags::BW_MASK;
            assert(bits <= 3) by (bit_vector)
                requires
                    bits == flags & 0x03,
            ;
            match Bandwidth::from_bits(bits) {
                Some(bw) => Some(bw),
                None => unreached(),
            }
        } else {
            None
        }
    }

    /// Returns the MCS index.
    pub fn index(&self) -> (r: Option<u8>)
        ensures
            r == self.index_spec(),
    {
        if self.known.contains(Known::INDEX) {
            Some(self.index)
        } else {
            None
        }
    }

    /// Returns the guard interval.
    pub fn guard_interval(&self) -> (r: Option<GuardInterval>)
        ensures
            r == self.guard_interval_spec(),
    {
        if self.known.contains(Known::GI) {
            Some(GuardInterval::from_bool(self.flags.contains(Flags::GI)))
        } else {
            None
        }
    }

    /// Returns the HT format.
    pub fn format(&self) -> (r: Option<Format>)
        ensures
            r == self.format_spec(),
    {
        if self.known.contains(Known::FMT) {
            Some(Format::from(self.flags.contains(Flags::FMT)))
        } else {
            None
        }
    }

    /// Returns the FEC type.
    pub fn fec(&self) -> (r: Option<Fec>)
        ensures
            r == self.fec_spec(),
    {
        if self.known.contains(Known::FEC) {
            Some(Fec::from_bool(self.flags.contains(Flags::FEC)))
        } else {
            None
        }
    }

    /// Returns the number of STBCs.
    pub fn stbc(&self) -> (r: Option<u8>)
        ensures
            r == (if self.known.has(Known::STBC) {
                Some((self.flags@ & Flags::STBC_MASK) >> 5)
            } else {
                None
            }),
            r matches Some(n) ==> n <= 3,
    {
        if self.known.contains(Known::STBC) {
            let flags: u8 = self.flags.bits();
            let n: u8 = (flags & Flags::STBC_MASK) >> 5;
            assert(n <= 3) by (bit_vector)
                requires
                    n == (flags & 0x60) >> 5,
            ;
            Some(n)
        } else {
            None
        }
    }

    /// Return the number of extension spatial streams: its high bit is bit 7
    /// of the known bits, its low bit is bit 7 of the flags.
    pub fn ness(&self) -> (r: Option<u8>)
        ensures
            r == (if self.known.has(Known::NESS) {
                Some(
                    (if self.known.has(Known::NESS_BIT_1) {
                        2u8
                    } else {
                        0u8
                    }) | (if self.flags.has(Flags::NESS_BIT_0) {
                        1u8
                    } else {
                        0u8
                    }),
                )
            } else {
                None
            }),
            r matches Some(n) ==> n <= 3,
    {
        if self.known.contains(Known::NESS) {
            let high: u8 = if self.known.contains(Known::NESS_BIT_1) {
                2
            } else {
                0
            };
            let low: u8 = if self.flags.contains(Flags::NESS_BIT_0) {
                1
            } else {
                0
            };
            assert(high | low <= 3) by (bit_vector)
                requires
                    high == 0 || high == 2,
                    low == 0 || low == 1,
            ;
            Some(high | low)
        } else {
            None
        }
    }

    /// Returns the number of spatial streams (1 - 4) calculated using the MCS
    /// index.
    pub fn nss(&self) -> (r: Option<u8>)
        ensures
            r == (match self.index_spec() {
                Some(index) => Some((index / 8 + 1) as u8),
                None => None,
            }),
    {
        match self.index() {
            Some(index) => Some(index / 8 + 1),
            None => None,
        }
    }

    /// Returns the data rate in kilobits per second.
    pub fn to_kbps(&self) -> (r: Option<Result<u32, InvalidDatarate>>)
        ensures
            r == self.kbps_spec(),
    {
        let index = match self.index() {
            Some(index) => index,
            None => {
                return None;
            },
        };
        if index > 31 {
            return Some(Err(InvalidDatarate(index)));
        }
        let bw = match self.bandwidth() {
            Some(bw) => bw,
            None => {
                return None;
            },
        };
        let gi = match self.guard_interval() {
            Some(gi) => gi,
            None => {
                return None;
            },
        };
        let b: u8 = if bw.to_mhz() == 20 {
            0
        } else {
            2
        };
        Some(Ok(ht_lookup(index, b + gi.into_inner())))
    }

    /// Where the guard interval is all that is known, the guard interval is
    /// there and the bandwidth, the index, the format, the FEC type and the
    /// data rate are not, whatever the flags and the index hold.
    pub proof fn lemma_only_guard_interval_known(&self)
        requires
            self.known@ == Known::GI,
        ensures
            self.guard_interval_spec().is_some(),
            self.bandwidth_spec().is_none(),
            self.index_spec().is_none(),
            self.format_spec().is_none(),
            self.fec_spec().is_none(),
            self.kbps_spec().is_none(),
    {
        assert(0x04u8 & 0x04u8 == 0x04u8) by (bit_vector);
        assert(0x04u8 & 0x01u8 != 0x01u8) by (bit_vector);
        assert(0x04u8 & 0x02u8 != 0x02u8) by (bit_vector);
        assert(0x04u8 & 0x08u8 != 0x08u8) by (bit_vector);
        assert(0x04u8 & 0x10u8 != 0x10u8) by (bit_vector);
    }

    /// Returns the raw known information.
    pub fn known(&self) -> (r: Known)
        ensures
            r == self.known,
    {
        self.known
    }

    /// Returns the raw flags.
    pub fn flags(&self) -> (r: Flags)
        ensures
            r == self.flags,
    {
        self.flags
    }
}

} // verus!
