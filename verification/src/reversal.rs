//! Byte reversal of fixed-width unsigned integers, as a mathematical function.
//!
//! A value of `2n` bytes is reversed by reversing each of its halves and
//! exchanging them; a single byte is its own reversal.

use vstd::prelude::*;

verus! {

/// The one byte of `x`, unchanged.
pub open spec fn reversed_u8(x: u8) -> u8 {
    x
}

/// `x` with its two bytes exchanged.
pub open spec fn reversed_u16(x: u16) -> u16 {
    (x << 8) | (x >> 8)
}

/// `x` with its four bytes in the opposite order.
pub open spec fn reversed_u32(x: u32) -> u32 {
    ((reversed_u16(x as u16) as u32) << 16) | (reversed_u16((x >> 16) as u16) as u32)
}

/// `x` with its eight bytes in the opposite order.
pub open spec fn reversed_u64(x: u64) -> u64 {
    ((reversed_u32(x as u32) as u64) << 32) | (reversed_u32((x >> 32) as u32) as u64)
}

/// `x` with its sixteen bytes in the opposite order.
pub open spec fn reversed_u128(x: u128) -> u128 {
    ((reversed_u64(x as u64) as u128) << 64) | (reversed_u64((x >> 64) as u64) as u128)
}

/// `x` with its bytes in the opposite order, at the width the target gives `usize`.
pub open spec fn reversed_usize(x: usize) -> usize {
    if usize::BITS == 64 {
        reversed_u64(x as u64) as usize
    } else {
        reversed_u32(x as u32) as usize
    }
}

/// Reversing the bytes twice gives the value back.
pub proof fn lemma_reversed_u16_involutive(x: u16)
    ensures
        reversed_u16(reversed_u16(x)) == x,
{
    assert(reversed_u16(reversed_u16(x)) == x) by (bit_vector);
}

/// Reversing the bytes twice gives the value back.
pub proof fn lemma_reversed_u32_involutive(x: u32)
    ensures
        reversed_u32(reversed_u32(x)) == x,
{
    assert(reversed_u32(reversed_u32(x)) == x) by (bit_vector);
}

/// Reversing the bytes twice gives the value back.
pub proof fn lemma_reversed_u64_involutive(x: u64)
    ensures
        reversed_u64(reversed_u64(x)) == x,
{
    assert(reversed_u64(reversed_u64(x)) == x) by (bit_vector);
}

/// Reversing the bytes twice gives the value back.
pub proof fn lemma_reversed_u128_involutive(x: u128)
    ensures
        reversed_u128(reversed_u128(x)) == x,
{
    assert(reversed_u128(reversed_u128(x)) == x) by (bit_vector);
}

/// Reversing the bytes twice gives the value back.
pub proof fn lemma_reversed_usize_involutive(x: usize)
    ensures
        reversed_usize(reversed_usize(x)) == x,
{
    assert(reversed_usize(reversed_usize(x)) == x) by (bit_vector);
}

} // verus!
