//! Defines the Channel field.

use crate::bytes::{le_u16, span, u16_le};
use vstd::prelude::*;

verus! {

/// Flags describing the channel.
#[derive(Debug, Clone, Copy, PartialEq, Eq, Structural)]
pub struct Flags {
    bits: u16,
}

impl Flags {
    /// Turbo channel.
    pub const TURBO: u16 = 0x0010;

    /// Complementary Code Keying (CCK) channel.
    pub const CCK: u16 = 0x0020;

    /// Orthogonal Frequency-Division Multiplexing (OFDM) channel.
    pub const OFDM: u16 = 0x0040;

    /// 2 GHz spectrum channel.
    pub const GHZ2: u16 = 0x0080;

    /// 5 GHz spectrum channel.
    pub const GHZ5: u16 = 0x0100;

    /// Only passive scan allowed.
    pub const PASSIVE: u16 = 0x0200;

    /// Dynamic CCK-OFDM channel.
    pub const DYNAMIC: u16 = 0x0400;

    /// Gaussian Frequency Shift Keying (GFSK) channel.
    pub const GFSK: u16 = 0x0800;

    /// GSM (900MHz) channel.
    pub const GSM: u16 = 0x1000;

    /// Static Turbo channel.
    pub const STURBO: u16 = 0x2000;

    /// Half rate channel.
    pub const HALF: u16 = 0x4000;

    /// Quarter rate channel.
    pub const QUARTER: u16 = 0x8000;

    /// Every bit that has a meaning.
    pub const ALL: u16 = 0xfff0;

    /// The underlying bits.
    pub closed spec fn view(&self) -> u16 {
        self.bits
    }

    /// The flags that `bits` holds, unknown bits dropped.
    pub closed spec fn truncated(bits: u16) -> Self {
        Flags { bits: bits & Self::ALL }
    }

    /// Whether every bit of `mask` is set.
    pub open spec fn has(&self, mask: u16) -> bool {
        self@ & mask == mask
    }

    /// Converts from the underlying bits, dropping any bit without a meaning.
    pub fn from_bits_truncate(bits: u16) -> (r: Self)
        ensures
            r == Self::truncated(bits),
            r@ == bits & Self::ALL,
    {
        Flags { bits: bits & Self::ALL }
    }

    /// Returns the underlying bits.
    pub fn bits(&self) -> (r: u16)
        ensures
            r == self@,
    {
        self.bits
    }

    /// Consumes the flags and returns the underlying bits.
    pub fn into_inner(self) -> (r: u16)
        ensures
            r == self@,
    {
        self.bits
    }

    /// Returns whether every bit of `mask` is set.
    pub fn contains(&self, mask: u16) -> (r: bool)
        ensures
            r == self.has(mask),
    {
        self.bits & mask == mask
    }
}

/// Channel information.
#[derive(Debug, Clone, Copy, PartialEq, Eq, Structural)]
pub struct Channel {
    /// The channel frequency in MHz.
    pub freq: u16,
    /// Flags describing the channel.
    pub flags: Flags,
}

impl Channel {
    /// The value that the field's bytes hold: the frequency, then the flags,
    /// both little-endian.
    pub open spec fn decode(bytes: Seq<u8>) -> Channel {
        Channel {
            freq: le_u16(span(bytes, 0, 2)) as u16,
            flags: Flags::truncated(le_u16(span(bytes, 2, 2)) as u16),
        }
    }

    /// Reads the field from its bytes.
    pub fn from_bytes(bytes: &[u8]) -> (r: Channel)
        requires
            bytes.len() == 4,
        ensures
            r == Channel::decode(bytes@),
    {
        Channel { freq: u16_le(bytes, 0), flags: Flags::from_bits_truncate(u16_le(bytes, 2)) }
    }

    /// Returns the channel frequency in MHz.
    pub fn freq(&self) -> (r: u16)
        ensures
            r == self.freq,
    {
        self.freq
    }

    /// Returns flags describing the channel.
    pub fn flags(&self) -> (r: Flags)
        ensures
            r == self.flags,
    {
        self.flags
    }
}

} // verus!
