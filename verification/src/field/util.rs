//! Helpers that pick bits out of an integer.

use vstd::prelude::*;

verus! {

/// Whether `number` and `flag` have a set bit in common.
pub open spec fn flag_set(number: u64, flag: u64) -> bool {
    number & flag > 0
}

/// The `count` bits of `number` that start at bit `bit`.
pub open spec fn bits_of(number: u64, bit: u64, count: u64) -> u64 {
    (number >> bit) & (((1u64 << count) - 1) as u64)
}

/// Returns whether `number` and `flag` have a set bit in common.
#[inline]
pub fn flag_is_set(number: u64, flag: u64) -> (r: bool)
    ensures
        r == flag_set(number, flag),
{
    number & flag > 0
}

/// Returns whether bit `bit` of `number` is set.
#[inline]
pub fn bit_is_set(number: u64, bit: u8) -> (r: bool)
    requires
        bit < 64,
    ensures
        r == flag_set(number, 1u64 << bit),
        r == ((number >> bit) & 1 == 1),
{
    assert((number & (1u64 << bit) > 0) == ((number >> bit) & 1 == 1)) by (bit_vector)
        requires
            bit < 64,
    ;
    flag_is_set(number, 1u64 << bit)
}

/// Returns the `count` bits of `number` that start at bit `bit`, as an
/// integer.
#[inline]
pub fn bits_as_int(number: u64, bit: u64, count: u64) -> (r: u64)
    requires
        bit < 64,
        count < 64,
    ensures
        r == bits_of(number, bit, count),
        r < (1u64 << count),
{
    assert((1u64 << count) >= 1) by (bit_vector)
        requires
            count < 64,
    ;
    let mask: u64 = (1u64 << count) - 1;
    let shifted: u64 = number >> bit;
    assert(shifted & mask < (1u64 << count)) by (bit_vector)
        requires
            count < 64,
            mask == ((1u64 << count) - 1) as u64,
    ;
    shifted & mask
}

} // verus!
