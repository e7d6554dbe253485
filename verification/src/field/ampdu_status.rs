//! Defines the A-MPDU Status field.

use crate::bytes::{le_u16, le_u32, span, u16_le, u32_le};
use vstd::prelude::*;

verus! {

/// Flags describing the A-MPDU.
#[derive(Debug, Clone, Copy, PartialEq, Eq, Structural)]
pub struct Flags {
    bits: u16,
}

impl Flags {
    /// Driver reports 0-length subframes.
    pub const REPORT_ZERO_LEN: u16 = 0x0001;

    /// Frame is 0-length subframe (valid only if REPORT_ZERO_LEN is set).
    pub const IS_ZERO_LEN: u16 = 0x0002;

    /// Last subframe is known (should be set for all subframes in an A-MPDU).
    pub const LAST_KNOWN: u16 = 0x0004;

    /// This frame is the last subframe.
    pub const IS_LAST: u16 = 0x0008;

    /// Delimiter CRC error.
    pub const DELIM_CRC_ERR: u16 = 0x0010;

    /// Delimiter CRC value known: the delimiter CRC value field is valid.
    pub const DELIM_CRC_KNOWN: u16 = 0x0020;

    /// EOF value.
    pub const EOF: u16 = 0x0040;

    /// EOF value known.
    pub const EOF_KNOWN: u16 = 0x0080;

    /// Every bit that has a meaning.
    pub const ALL: u16 = 0x00ff;

    /// The underlying bits.
    pub closed spec fn view(&self) -> u16 {
        self.bits
    }

    /// The flags that `bits` holds, unknown bits dropped.
    pub closed spec fn truncated(bits: u16) -> Self {
        Flags { bits: bits & Self::ALL }
    }

    /// Whether every bit of `mask` is set.
    pub open spec fn has(&self, mask: u16) -> bool {
        self@ & mask == mask
    }

    /// Converts from the underlying bits, dropping any bit without a meaning.
    pub fn from_bits_truncate(bits: u16) -> (r: Self)
        ensures
            r == Self::truncated(bits),
            r@ == bits & Self::ALL,
    {
        Flags { bits: bits & Self::ALL }
    }

    /// Returns the underlying bits.
    pub fn bits(&self) -> (r: u16)
        ensures
            r == self@,
    {
        self.bits
    }

    /// Consumes the flags and returns the underlying bits.
    pub fn into_inner(self) -> (r: u16)
        ensures
            r == self@,
    {
        self.bits
    }

    /// Returns whether every bit of `mask` is set.
    pub fn contains(&self, mask: u16) -> (r: bool)
        ensures
            r == self.has(mask),
    {
        self.bits & mask == mask
    }
}

/// Indicates that the frame was received as part of an A-MPDU.
#[derive(Debug, Clone, Copy, PartialEq, Eq, Structural)]
pub struct AmpduStatus {
    /// The A-MPDU reference number.
    pub reference: u32,
    /// The A-AMPDU flags.
    pub flags: Flags,
    /// The A-MPDU subframe delimiter CRC.
    pub delim_crc: u8,
}

impl AmpduStatus {
    /// The value that the field's bytes hold: four bytes of reference number
    /// and two of flags, both little-endian, then the delimiter CRC. The
    /// last byte is reserved.
    pub open spec fn decode(bytes: Seq<u8>) -> AmpduStatus {
        AmpduStatus {
            reference: le_u32(span(bytes, 0, 4)) as u32,
            flags: Flags::truncated(le_u16(span(bytes, 4, 2)) as u16),
            delim_crc: bytes[6],
        }
    }

    /// Reads the field from its bytes.
    pub fn from_bytes(bytes: &[u8]) -> (r: AmpduStatus)
        requires
            bytes.len() == 8,
        ensures
            r == AmpduStatus::decode(bytes@),
    {
        AmpduStatus {
            reference: u32_le(bytes, 0),
            flags: Flags::from_bits_truncate(u16_le(bytes, 4)),
            delim_crc: bytes[6],
        }
    }

    /// Whether the frame is 0-length subframe of this A-MPDU.
    pub fn is_zero_len(&self) -> (r: Option<bool>)
        ensures
            r == (if self.flags.has(Flags::REPORT_ZERO_LEN) {
                Some(self.flags.has(Flags::IS_ZERO_LEN))
            } else {
                None
            }),
    {
        if self.flags.contains(Flags::REPORT_ZERO_LEN) {
            Some(self.flags.contains(Flags::IS_ZERO_LEN))
        } else {
            None
        }
    }

    /// Whether this frame is the last subframe of this A-MPDU.
    pub fn is_last(&self) -> (r: Option<bool>)
        ensures
            r == (if self.flags.has(Flags::LAST_KNOWN) {
                Some(self.flags.has(Flags::IS_LAST))
            } else {
                None
            }),
    {
        if self.flags.contains(Flags::LAST_KNOWN) {
            Some(self.flags.contains(Flags::IS_LAST))
        } else {
            None
        }
    }

    /// Returns the A-MPDU subframe delimiter CRC value.
    pub fn delim_crc(&self) -> (r: Option<u8>)
        ensures
            r == (if self.flags.has(Flags::DELIM_CRC_KNOWN) {
                Some(self.delim_crc)
            } else {
                None
            }),
    {
        if self.flags.contains(Flags::DELIM_CRC_KNOWN) {
            Some(self.delim_crc)
        } else {
            None
        }
    }

    /// Whether there is an EOF on this A-MPDU subframe.
    pub fn has_eof(&self) -> (r: Option<bool>)
        ensures
            r == (if self.flags.has(Flags::EOF_KNOWN) {
                Some(self.flags.has(Flags::EOF))
            } else {
                None
            }),
    {
        if self.flags.contains(Flags::EOF_KNOWN) {
            Some(self.flags.contains(Flags::EOF))
        } else {
            None
        }
    }

    /// Returns the raw A-MPDU flags.
    pub fn flags(&self) -> (r: Flags)
        ensures
            r == self.flags,
    {
        self.flags
    }

    /// Returns the A-MPDU reference number.
    pub fn reference(&self) -> (r: u32)
        ensures
            r == self.reference,
    {
        self.reference
    }
}

} // verus!
