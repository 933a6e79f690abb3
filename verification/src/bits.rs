//! Bit-field access on machine words.

use bit_field::BitField;
use vstd::prelude::*;

verus! {

/// The bits `start..end` of `value`, moved down to bit 0.
pub open spec fn bits_of(value: u64, start: usize, end: usize) -> u64 {
    if start == end {
        0
    } else {
        ((value << ((64 - end) as u64)) >> ((64 - end) as u64)) >> (start as u64)
    }
}

/// `value` with bit `bit` set or cleared.
pub open spec fn with_bit(value: u32, bit: usize, on: bool) -> u32 {
    if on {
        value | (1u32 << (bit as u32))
    } else {
        value & !(1u32 << (bit as u32))
    }
}

/// `BitField::get_bits` of the `bit_field` crate on a `u64`, for the range
/// `start..end`. The crate shifts the bits above `end` out to the left, back,
/// and then the bits below `start` out to the right; an empty range gives 0.
/// It panics on a range that leaves the word, which `requires` rules out.
#[verifier::external_body]
pub(crate) fn get_bits(value: u64, start: usize, end: usize) -> (r: u64)
    requires
        start < 64,
        end <= 64,
        start <= end,
    ensures
        r == bits_of(value, start, end),
{
    value.get_bits(start..end)
}

/// `BitField::set_bit` of the `bit_field` crate on a `u32`: the word with the
/// one bit set (`on`) or cleared, every other bit kept. It panics on a bit
/// index of 32 or more, which `requires` rules out.
#[verifier::external_body]
pub(crate) fn set_bit(value: u32, bit: usize, on: bool) -> (r: u32)
    requires
        bit < 32,
    ensures
        r == with_bit(value, bit, on),
{
    let mut word = value;
    word.set_bit(bit, on);
    word
}

/// What the bit ranges used by this crate come to, as masks and shifts.
pub proof fn lemma_bits_of(value: u64)
    ensures
        bits_of(value, 0, 32) == value & 0xffff_ffff,
        bits_of(value, 16, 40) == (value >> 16) & 0xff_ffff,
        bits_of(value, 56, 64) == value >> 56,
{
    assert(((value << 32u64) >> 32u64) >> 0u64 == value & 0xffff_ffff
        && ((value << 24u64) >> 24u64) >> 16u64 == (value >> 16) & 0xff_ffff
        && ((value << 0u64) >> 0u64) >> 56u64 == value >> 56) by (bit_vector);
}

} // verus!
