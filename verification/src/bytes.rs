//! The bytes of an unsigned integer as a sequence, in each of the two orders.
//!
//! A single byte is its own sequence. A wider value is split into its high
//! and low halves: big-endian order puts the bytes of the high half first,
//! little-endian order those of the low half.

use vstd::prelude::*;
use crate::reversal::{
    reversed_u128, reversed_u16, reversed_u32, reversed_u64, reversed_u8, reversed_usize,
};

verus! {

/// The byte of `x`.
pub open spec fn be_bytes_u8(x: u8) -> Seq<u8> {
    seq![x]
}

/// The byte of `x`.
pub open spec fn le_bytes_u8(x: u8) -> Seq<u8> {
    seq![x]
}

/// The 2 bytes of `x`, most significant first.
pub open spec fn be_bytes_u16(x: u16) -> Seq<u8> {
    be_bytes_u8((x >> 8) as u8) + be_bytes_u8(x as u8)
}

/// The 2 bytes of `x`, least significant first.
pub open spec fn le_bytes_u16(x: u16) -> Seq<u8> {
    le_bytes_u8(x as u8) + le_bytes_u8((x >> 8) as u8)
}

/// The 4 bytes of `x`, most significant first.
pub open spec fn be_bytes_u32(x: u32) -> Seq<u8> {
    be_bytes_u16((x >> 16) as u16) + be_bytes_u16(x as u16)
}

/// The 4 bytes of `x`, least significant first.
pub open spec fn le_bytes_u32(x: u32) -> Seq<u8> {
    le_bytes_u16(x as u16) + le_bytes_u16((x >> 16) as u16)
}

/// The 8 bytes of `x`, most significant first.
pub open spec fn be_bytes_u64(x: u64) -> Seq<u8> {
    be_bytes_u32((x >> 32) as u32) + be_bytes_u32(x as u32)
}

/// The 8 bytes of `x`, least significant first.
pub open spec fn le_bytes_u64(x: u64) -> Seq<u8> {
    le_bytes_u32(x as u32) + le_bytes_u32((x >> 32) as u32)
}

/// The 16 bytes of `x`, most significant first.
pub open spec fn be_bytes_u128(x: u128) -> Seq<u8> {
    be_bytes_u64((x >> 64) as u64) + be_bytes_u64(x as u64)
}

/// The 16 bytes of `x`, least significant first.
pub open spec fn le_bytes_u128(x: u128) -> Seq<u8> {
    le_bytes_u64(x as u64) + le_bytes_u64((x >> 64) as u64)
}

/// The bytes of `x`, most significant first, at the width the target gives `usize`.
pub open spec fn be_bytes_usize(x: usize) -> Seq<u8> {
    if usize::BITS == 64 {
        be_bytes_u64(x as u64)
    } else {
        be_bytes_u32(x as u32)
    }
}

/// The bytes of `x`, least significant first, at the width the target gives `usize`.
pub open spec fn le_bytes_usize(x: usize) -> Seq<u8> {
    if usize::BITS == 64 {
        le_bytes_u64(x as u64)
    } else {
        le_bytes_u32(x as u32)
    }
}

/// A single byte reads the same in both orders.
pub proof fn lemma_reversed_u8_bytes(x: u8)
    ensures
        le_bytes_u8(reversed_u8(x)) == be_bytes_u8(x),
        be_bytes_u8(reversed_u8(x)) == le_bytes_u8(x),
        be_bytes_u8(x) == le_bytes_u8(x).reverse(),
        be_bytes_u8(x).len() == 1,
        le_bytes_u8(x).len() == 1,
{
    assert(be_bytes_u8(x) =~= le_bytes_u8(x).reverse());
}

/// The reversal of `x` has, least significant first, the bytes that `x` has
/// most significant first, and the other way round.
pub proof fn lemma_reversed_u16_bytes(x: u16)
    ensures
        le_bytes_u16(reversed_u16(x)) == be_bytes_u16(x),
        be_bytes_u16(reversed_u16(x)) == le_bytes_u16(x),
        be_bytes_u16(x) == le_bytes_u16(x).reverse(),
        be_bytes_u16(x).len() == 2,
        le_bytes_u16(x).len() == 2,
{
    let low = x as u8;
    let high = (x >> 8) as u8;
    let y = reversed_u16(x);
    assert(y as u8 == reversed_u8((x >> 8) as u8) && (y >> 8) as u8 == reversed_u8(x as u8))
        by (bit_vector)
        requires
            y == reversed_u16(x),
    ;
    lemma_reversed_u8_bytes(low);
    lemma_reversed_u8_bytes(high);
    lemma_reversed_u8_bytes(reversed_u8(low));
    lemma_reversed_u8_bytes(reversed_u8(high));
    assert(be_bytes_u16(x) =~= le_bytes_u16(x).reverse());
}

/// The reversal of `x` has, least significant first, the bytes that `x` has
/// most significant first, and the other way round.
pub proof fn lemma_reversed_u32_bytes(x: u32)
    ensures
        le_bytes_u32(reversed_u32(x)) == be_bytes_u32(x),
        be_bytes_u32(reversed_u32(x)) == le_bytes_u32(x),
        be_bytes_u32(x) == le_bytes_u32(x).reverse(),
        be_bytes_u32(x).len() == 4,
        le_bytes_u32(x).len() == 4,
{
    let low = x as u16;
    let high = (x >> 16) as u16;
    let y = reversed_u32(x);
    assert(y as u16 == reversed_u16((x >> 16) as u16) && (y >> 16) as u16 == reversed_u16(x as u16))
        by (bit_vector)
        requires
            y == reversed_u32(x),
    ;
    lemma_reversed_u16_bytes(low);
    lemma_reversed_u16_bytes(high);
    lemma_reversed_u16_bytes(reversed_u16(low));
    lemma_reversed_u16_bytes(reversed_u16(high));
    assert(be_bytes_u32(x) =~= le_bytes_u32(x).reverse());
}

/// The reversal of `x` has, least significant first, the bytes that `x` has
/// most significant first, and the other way round.
pub proof fn lemma_reversed_u64_bytes(x: u64)
    ensures
        le_bytes_u64(reversed_u64(x)) == be_bytes_u64(x),
        be_bytes_u64(reversed_u64(x)) == le_bytes_u64(x),
        be_bytes_u64(x) == le_bytes_u64(x).reverse(),
        be_bytes_u64(x).len() == 8,
        le_bytes_u64(x).len() == 8,
{
    let low = x as u32;
    let high = (x >> 32) as u32;
    let y = reversed_u64(x);
    assert(y as u32 == reversed_u32((x >> 32) as u32) && (y >> 32) as u32 == reversed_u32(x as u32))
        by (bit_vector)
        requires
            y == reversed_u64(x),
    ;
    lemma_reversed_u32_bytes(low);
    lemma_reversed_u32_bytes(high);
    lemma_reversed_u32_bytes(reversed_u32(low));
    lemma_reversed_u32_bytes(reversed_u32(high));
    assert(be_bytes_u64(x) =~= le_bytes_u64(x).reverse());
}

/// The reversal of `x` has, least significant first, the bytes that `x` has
/// most significant first, and the other way round.
pub proof fn lemma_reversed_u128_bytes(x: u128)
    ensures
        le_bytes_u128(reversed_u128(x)) == be_bytes_u128(x),
        be_bytes_u128(reversed_u128(x)) == le_bytes_u128(x),
        be_bytes_u128(x) == le_bytes_u128(x).reverse(),
        be_bytes_u128(x).len() == 16,
        le_bytes_u128(x).len() == 16,
{
    let low = x as u64;
    let high = (x >> 64) as u64;
    let y = reversed_u128(x);
    assert(y as u64 == reversed_u64((x >> 64) as u64) && (y >> 64) as u64 == reversed_u64(x as u64))
        by (bit_vector)
        requires
            y == reversed_u128(x),
    ;
    lemma_reversed_u64_bytes(low);
    lemma_reversed_u64_bytes(high);
    lemma_reversed_u64_bytes(reversed_u64(low));
    lemma_reversed_u64_bytes(reversed_u64(high));
    assert(be_bytes_u128(x) =~= le_bytes_u128(x).reverse());
}

/// The reversal of `x` has, least significant first, the bytes that `x` has
/// most significant first, and the other way round.
pub proof fn lemma_reversed_usize_bytes(x: usize)
    ensures
        le_bytes_usize(reversed_usize(x)) == be_bytes_usize(x),
        be_bytes_usize(reversed_usize(x)) == le_bytes_usize(x),
        be_bytes_usize(x) == le_bytes_usize(x).reverse(),
        be_bytes_usize(x).len() == usize::BITS / 8,
        le_bytes_usize(x).len() == usize::BITS / 8,
{
    let y = reversed_usize(x);
    assert(usize::BITS == 64 ==> y as u64 == reversed_u64(x as u64)) by (bit_vector)
        requires
            y == reversed_usize(x),
    ;
    assert(usize::BITS != 64 ==> usize::BITS == 32 && y as u32 == reversed_u32(x as u32))
        by (bit_vector)
        requires
            y == reversed_usize(x),
    ;
    lemma_reversed_u64_bytes(x as u64);
    lemma_reversed_u32_bytes(x as u32);
}

} // verus!
