//! Defines the XChannel field.

use crate::bytes::{le_u16, le_u32, span, u16_le, u32_le};
use vstd::prelude::*;

verus! {

/// Extended flags describing the channel.
#[derive(Debug, Clone, Copy, PartialEq, Eq, Structural)]
pub struct Flags {
    bits: u32,
}

impl Flags {
    /// Turbo channel.
    pub const TURBO: u32 = 0x0010;

    /// Complementary Code Keying (CCK) channel.
    pub const CCK: u32 = 0x0020;

    /// Orthogonal Frequency-Division Multiplexing (OFDM) channel.
    pub const OFDM: u32 = 0x0040;

    /// 2 GHz spectrum channel.
    pub const GHZ2: u32 = 0x0080;

    /// 5 GHz spectrum channel.
    pub const GHZ5: u32 = 0x0100;

    /// Only passive scan allowed.
    pub const PASSIVE: u32 = 0x0200;

    /// Dynamic CCK-OFDM channel.
    pub const DYNAMIC: u32 = 0x0400;

    /// Gaussian Frequency Shift Keying (GFSK) channel.
    pub const GFSK: u32 = 0x0800;

    /// GSM (900MHz) channel.
    pub const GSM: u32 = 0x1000;

    /// Static Turbo channel.
    pub const STURBO: u32 = 0x2000;

    /// Half rate channel (10 MHz Channel Width).
    pub const HALF: u32 = 0x4000;

    /// Quarter rate channel (5 MHz Channel Width).
    pub const QUARTER: u32 = 0x8000;

    /// HT Channel (20 MHz Channel Width).
    pub const HT20: u32 = 0x0001_0000;

    /// HT Channel (40 MHz Channel Width with Extension channel above).
    pub const HT40U: u32 = 0x0002_0000;

    /// HT Channel (40 MHz Channel Width with Extension channel below).
    pub const HT40D: u32 = 0x0004_0000;

    /// Every bit that has a meaning.
    pub const ALL: u32 = 0x0007_fff0;

    /// The underlying bits.
    pub closed spec fn view(&self) -> u32 {
        self.bits
    }

    /// The flags that `bits` holds, unknown bits dropped.
    pub closed spec fn truncated(bits: u32) -> Self {
        Flags { bits: bits & Self::ALL }
    }

    /// Whether every bit of `mask` is set.
    pub open spec fn has(&self, mask: u32) -> bool {
        self@ & mask == mask
    }

    /// Converts from the underlying bits, dropping any bit without a meaning.
    pub fn from_bits_truncate(bits: u32) -> (r: Self)
        ensures
            r == Self::truncated(bits),
            r@ == bits & Self::ALL,
    {
        Flags { bits: bits & Self::ALL }
    }

    /// Returns the underlying bits.
    pub fn bits(&self) -> (r: u32)
        ensures
            r == self@,
    {
        self.bits
    }

    /// Consumes the flags and returns the underlying bits.
    pub fn into_inner(self) -> (r: u32)
        ensures
            r == self@,
    {
        self.bits
    }

    /// Returns whether every bit of `mask` is set.
    pub fn contains(&self, mask: u32) -> (r: bool)
        ensures
            r == self.has(mask),
    {
        self.bits & mask == mask
    }
}

/// Extended channel information.
#[derive(Debug, Clone, Copy, PartialEq, Eq, Structural)]
pub struct XChannel {
    /// Flags describing the channel.
    pub flags: Flags,
    /// The channel frequency in MHz.
    pub freq: u16,
    /// The channel number.
    pub channel: u8,
    /// The maximum power.
    pub max_power: u8,
}

impl XChannel {
    /// The value that the field's bytes hold: four bytes of flags and two of
    /// frequency, both little-endian, then the channel number and the
    /// maximum power.
    pub open spec fn decode(bytes: Seq<u8>) -> XChannel {
        XChannel {
            flags: Flags::truncated(le_u32(span(bytes, 0, 4)) as u32),
            freq: le_u16(span(bytes, 4, 2)) as u16,
            channel: bytes[6],
            max_power: bytes[7],
        }
    }

    /// Reads the field from its bytes.
    pub fn from_bytes(bytes: &[u8]) -> (r: XChannel)
        requires
            bytes.len() == 8,
        ensures
            r == XChannel::decode(bytes@),
    {
        XChannel {
            flags: Flags::from_bits_truncate(u32_le(bytes, 0)),
            freq: u16_le(bytes, 4),
            channel: bytes[6],
            max_power: bytes[7],
        }
    }

    /// Returns flags describing the channel.
    pub fn flags(&self) -> (r: Flags)
        ensures
            r == self.flags,
    {
        self.flags
    }

    /// Returns the channel frequency in MHz.
    pub fn freq(&self) -> (r: u16)
        ensures
            r == self.freq,
    {
        self.freq
    }

    /// Returns the channel number.
    pub fn channel(&self) -> (r: u8)
        ensures
            r == self.channel,
    {
        self.channel
    }

    /// Returns the maximum power.
    pub fn max_power(&self) -> (r: u8)
        ensures
            r == self.max_power,
    {
        self.max_power
    }
}

} // verus!
