//! Defines the Timestamp field.

use crate::bytes::{le_u16, le_u64, span, u16_le, u64_le};
use vstd::prelude::*;

verus! {

/// An error returned when parsing a [`Unit`] from the raw bits in
/// [`.unit()`][Timestamp::unit].
#[derive(Debug, Clone, Copy, PartialEq, Eq, Structural)]
pub struct InvalidUnit(pub u8);

/// An error returned when parsing a [`SamplingPosition`] from the raw bits
/// in [`.sampling_position()`][Timestamp::sampling_position].
#[derive(Debug, Clone, Copy, PartialEq, Eq, Structural)]
pub struct InvalidSamplingPosition(pub u8);

/// The time unit.
#[derive(Debug, Clone, Copy, PartialEq, Eq, Hash, Structural)]
pub enum Unit {
    Millis,
    Micros,
    Nanos,
}

/// The sampling position.
#[derive(Debug, Clone, Copy, PartialEq, Eq, Hash, Structural)]
pub enum SamplingPosition {
    /// First MPDU bit/symbol.
    StartMpdu,
    /// Signal acquisition at start of PLCP.
    PlcpSigAcq,
    /// End of PPDU.
    EndPpdu,
    /// End of MPDU.
    EndMpdu,
    /// Unknown or vendor defined.
    Unknown,
}

/// Flags describing the timestamp.
#[derive(Debug, Clone, Copy, PartialEq, Eq, Structural)]
pub struct Flags {
    bits: u8,
}

impl Flags {
    /// 32-bit counter.
    pub const BIT32: u8 = 0x01;

    /// Accuracy field is known.
    pub const ACCURACY: u8 = 0x02;

    /// Every bit that has a meaning.
    pub const ALL: u8 = 0x03;

    /// The underlying bits.
    pub closed spec fn view(&self) -> u8 {
        self.bits
    }

    /// The flags that `bits` holds, unknown bits dropped.
    pub closed spec fn truncated(bits: u8) -> Self {
        Flags { bits: bits & Self::ALL }
    }

    /// Whether every bit of `mask` is set.
    pub open spec fn has(&self, mask: u8) -> bool {
        self@ & mask == mask
    }

    /// Converts from the underlying bits, dropping any bit without a meaning.
    pub fn from_bits_truncate(bits: u8) -> (r: Self)
        ensures
            r == Self::truncated(bits),
            r@ == bits & Self::ALL,
    {
        Flags { bits: bits & Self::ALL }
    }

    /// Returns the underlying bits.
    pub fn bits(&self) -> (r: u8)
        ensures
            r == self@,
    {
        self.bits
    }

    /// Consumes the flags and returns the underlying bits.
    pub fn into_inner(self) -> (r: u8)
        ensures
            r == self@,
    {
        self.bits
    }

    /// Returns whether every bit of `mask` is set.
    pub fn contains(&self, mask: u8) -> (r: bool)
        ensures
            r == self.has(mask),
    {
        self.bits & mask == mask
    }
}

/// A span of time: whole seconds and the nanoseconds of the second begun.
#[derive(Debug, Clone, Copy, PartialEq, Eq, Structural)]
pub struct Duration {
    /// The whole seconds.
    pub secs: u64,
    /// The nanoseconds beyond the whole seconds, fewer than a second's.
    pub nanos: u32,
}

impl Duration {
    /// The span in nanoseconds.
    pub open spec fn as_nanos(&self) -> int {
        self.secs * 1_000_000_000 + self.nanos
    }

    /// Returns the whole seconds of the span.
    pub fn as_secs(&self) -> (r: u64)
        ensures
            r == self.secs,
    {
        self.secs
    }

    /// Returns the nanoseconds beyond the whole seconds.
    pub fn subsec_nanos(&self) -> (r: u32)
        ensures
            r == self.nanos,
    {
        self.nanos
    }
}

/// The time the frame was transmitted or received.
#[derive(Debug, Clone, Copy, PartialEq, Eq, Structural)]
pub struct Timestamp {
    /// The timestamp, in the unit that `unit_position` names.
    pub ts: u64,
    /// The accuracy of the timestamp, in the same unit.
    pub accuracy: u16,
    /// The unit in the low four bits, the sampling position in the high four.
    pub unit_position: u8,
    /// Flags describing the timestamp.
    pub flags: Flags,
}

impl Unit {
    /// The unit that a number encodes, if it encodes one.
    pub open spec fn of_bits(bits: u8) -> Option<Unit> {
        match bits {
            0u8 => Some(Unit::Millis),
            1u8 => Some(Unit::Micros),
            2u8 => Some(Unit::Nanos),
            _ => None,
        }
    }

    /// The number of nanoseconds in one unit.
    pub open spec fn nanos_per_unit(&self) -> int {
        match self {
            Unit::Millis => 1_000_000,
            Unit::Micros => 1_000,
            Unit::Nanos => 1,
        }
    }

    pub(crate) fn from_bits(bits: u8) -> (r: Option<Unit>)
        ensures
            r == Unit::of_bits(bits),
    {
        match bits {
            0 => Some(Unit::Millis),
            1 => Some(Unit::Micros),
            2 => Some(Unit::Nanos),
            _ => None,
        }
    }

    /// Returns the span of `ts` units.
    pub fn duration(&self, ts: u64) -> (r: Duration)
        ensures
            r.nanos < 1_000_000_000,
            r.as_nanos() == ts * self.nanos_per_unit(),
    {
        match self {
            Unit::Millis => Duration { secs: ts / 1_000, nanos: ((ts % 1_000) * 1_000_000) as u32 },
            Unit::Micros => Duration { secs: ts / 1_000_000, nanos: ((ts % 1_000_000) * 1_000) as u32 },
            Unit::Nanos => Duration { secs: ts / 1_000_000_000, nanos: (ts % 1_000_000_000) as u32 },
        }
    }
}

impl SamplingPosition {
    /// The sampling position that a number encodes, if it encodes one.
    pub open spec fn of_bits(bits: u8) -> Option<SamplingPosition> {
        match bits {
            0u8 => Some(SamplingPosition::StartMpdu),
            1u8 => Some(SamplingPosition::PlcpSigAcq),
            2u8 => Some(SamplingPosition::EndPpdu),
            3u8 => Some(SamplingPosition::EndMpdu),
            15u8 => Some(SamplingPosition::Unknown),
            _ => None,
        }
    }

    pub(crate) fn from_bits(bits: u8) -> (r: Option<SamplingPosition>)
        ensures
            r == SamplingPosition::of_bits(bits),
    {
        match bits {
            0 => Some(SamplingPosition::StartMpdu),
            1 => Some(SamplingPosition::PlcpSigAcq),
            2 => Some(SamplingPosition::EndPpdu),
            3 => Some(SamplingPosition::EndMpdu),
            15 => Some(SamplingPosition::Unknown),
            _ => None,
        }
    }
}

impl Timestamp {
    /// The value that the field's bytes hold: eight bytes of timestamp and
    /// two of accuracy, both little-endian, then the unit and sampling
    /// position, then the flags.
    pub open spec fn decode(bytes: Seq<u8>) -> Timestamp {
        Timestamp {
            ts: le_u64(span(bytes, 0, 8)) as u64,
            accuracy: le_u16(span(bytes, 8, 2)) as u16,
            unit_position: bytes[10],
            flags: Flags::truncated(bytes[11]),
        }
    }

    /// The low four bits of `unit_position`.
    pub open spec fn unit_bits(&self) -> u8 {
        (self.unit_position % 16) as u8
    }

    /// The high four bits of `unit_position`.
    pub open spec fn position_bits(&self) -> u8 {
        (self.unit_position / 16) as u8
    }

    /// The time unit, or the error for a number that encodes none.
    pub open spec fn unit_spec(&self) -> Result<Unit, InvalidUnit> {
        match Unit::of_bits(self.unit_bits()) {
            Some(unit) => Ok(unit),
            None => Err(InvalidUnit(self.unit_bits())),
        }
    }

    /// Reads the field from its bytes.
    pub fn from_bytes(bytes: &[u8]) -> (r: Timestamp)
        requires
            bytes.len() == 12,
        ensures
            r == Timestamp::decode(bytes@),
    {
        Timestamp {
            ts: u64_le(bytes, 0),
            accuracy: u16_le(bytes, 8),
            unit_position: bytes[10],
            flags: Flags::from_bits_truncate(bytes[11]),
        }
    }

    /// Returns the time unit of the timestamp.
    pub fn unit(&self) -> (r: Result<Unit, InvalidUnit>)
        ensures
            r == self.unit_spec(),
    {
        let bits: u8 = self.unit_position % 16;
        match Unit::from_bits(bits) {
            Some(unit) => Ok(unit),
            None => Err(InvalidUnit(bits)),
        }
    }

    /// Returns the timestamp as a duration since the UNIX Epoch.
    pub fn duration(&self) -> (r: Result<Duration, InvalidUnit>)
        ensures
            match self.unit_spec() {
                Ok(unit) => r.is_ok() && r.unwrap().nanos < 1_000_000_000 && r.unwrap().as_nanos()
                    == self.ts * unit.nanos_per_unit(),
                Err(e) => r == Err::<Duration, InvalidUnit>(e),
            },
    {
        match self.unit() {
            Ok(unit) => Ok(unit.duration(self.ts)),
            Err(e) => Err(e),
        }
    }

    /// Returns the accuracy of the timestamp as a duration.
    pub fn accuracy(&self) -> (r: Option<Result<Duration, InvalidUnit>>)
        ensures
            r.is_some() == self.flags.has(Flags::ACCURACY),
            r.is_some() ==> match self.unit_spec() {
                Ok(unit) => r.unwrap().is_ok() && r.unwrap().unwrap().nanos < 1_000_000_000
                    && r.unwrap().unwrap().as_nanos() == self.accuracy * unit.nanos_per_unit(),
                Err(e) => r.unwrap() == Err::<Duration, InvalidUnit>(e),
            },
    {
        if self.flags.contains(Flags::ACCURACY) {
            match self.unit() {
                Ok(unit) => Some(Ok(unit.duration(self.accuracy as u64))),
                Err(e) => Some(Err(e)),
            }
        } else {
            None
        }
    }

    /// Returns the sampling position of the timstamp.
    pub fn sampling_position(&self) -> (r: Result<SamplingPosition, InvalidSamplingPosition>)
        ensures
            r == (match SamplingPosition::of_bits(self.position_bits()) {
                Some(position) => Ok::<SamplingPosition, InvalidSamplingPosition>(position),
                None => Err(InvalidSamplingPosition(self.position_bits())),
            }),
    {
        let bits: u8 = self.unit_position / 16;
        match SamplingPosition::from_bits(bits) {
            Some(position) => Ok(position),
            None => Err(InvalidSamplingPosition(bits)),
        }
    }

    /// Returns the flags describing the timestamp.
    pub fn flags(&self) -> (r: Flags)
        ensures
            r == self.flags,
    {
        self.flags
    }
}

} // verus!
