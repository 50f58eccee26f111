//! What the standard library's byte-order conversions return.
//!
//! The conversions of the integer types are not checked here: each contract
//! below is taken on trust from the standard library's documentation, which
//! says that a conversion to or from the target's own order is a no-op and
//! that the other one swaps the bytes. The target's order is the one that
//! `vstd::endian::endianness` stands for.

use vstd::endian::endianness;
use vstd::prelude::*;
use crate::bytes::{
    be_bytes_u128, be_bytes_u16, be_bytes_u32, be_bytes_u64, be_bytes_u8, be_bytes_usize,
    le_bytes_u128, le_bytes_u16, le_bytes_u32, le_bytes_u64, le_bytes_u8, le_bytes_usize,
};
use crate::reversal::{
    reversed_u128, reversed_u16, reversed_u32, reversed_u64, reversed_u8, reversed_usize,
};

verus! {

/// The bits of `x` arranged in big-endian order: a single byte has one order.
pub open spec fn big_endian_u8(x: u8) -> u8 {
    x
}

/// The bits of `x` arranged in little-endian order: a single byte has one order.
pub open spec fn little_endian_u8(x: u8) -> u8 {
    x
}

/// The bytes that `x` occupies on the target, lowest address first.
pub open spec fn memory_bytes_u8(x: u8) -> Seq<u8> {
    seq![x]
}

/// Calls `u8::to_be`, which is documented as a no-op or a byte swap: of a
/// single byte, the same value either way.
#[verifier::external_body]
pub(crate) fn u8_to_be(x: u8) -> (r: u8)
    ensures
        r == x,
{
    u8::to_be(x)
}

/// Calls `u8::to_le`, which is documented as a no-op or a byte swap: of a
/// single byte, the same value either way.
#[verifier::external_body]
pub(crate) fn u8_to_le(x: u8) -> (r: u8)
    ensures
        r == x,
{
    u8::to_le(x)
}

/// Calls `u8::from_be`, which is documented as a no-op or a byte swap: of a
/// single byte, the same value either way.
#[verifier::external_body]
pub(crate) fn u8_from_be(x: u8) -> (r: u8)
    ensures
        r == x,
{
    u8::from_be(x)
}

/// Calls `u8::from_le`, which is documented as a no-op or a byte swap: of a
/// single byte, the same value either way.
#[verifier::external_body]
pub(crate) fn u8_from_le(x: u8) -> (r: u8)
    ensures
        r == x,
{
    u8::from_le(x)
}

/// The bits of `x` arranged in big-endian order: reversed on a little-endian
/// target, unchanged on a big-endian one.
pub open spec fn big_endian_u16(x: u16) -> u16 {
    match endianness() {
        vstd::endian::Endian::Little => reversed_u16(x),
        vstd::endian::Endian::Big => x,
    }
}

/// The bits of `x` arranged in little-endian order: unchanged on a
/// little-endian target, reversed on a big-endian one.
pub open spec fn little_endian_u16(x: u16) -> u16 {
    match endianness() {
        vstd::endian::Endian::Little => x,
        vstd::endian::Endian::Big => reversed_u16(x),
    }
}

/// The bytes that `x` occupies on the target, lowest address first.
pub open spec fn memory_bytes_u16(x: u16) -> Seq<u8> {
    match endianness() {
        vstd::endian::Endian::Little => le_bytes_u16(x),
        vstd::endian::Endian::Big => be_bytes_u16(x),
    }
}

/// Calls `u16::to_be`, which is documented as a no-op on a big-endian target
/// and a byte swap on a little-endian one.
#[verifier::external_body]
pub(crate) fn u16_to_be(x: u16) -> (r: u16)
    ensures
        endianness() == vstd::endian::Endian::Little ==> r == reversed_u16(x),
        endianness() == vstd::endian::Endian::Big ==> r == x,
{
    u16::to_be(x)
}

/// Calls `u16::to_le`, which is documented as a no-op on a little-endian
/// target and a byte swap on a big-endian one.
#[verifier::external_body]
pub(crate) fn u16_to_le(x: u16) -> (r: u16)
    ensures
        endianness() == vstd::endian::Endian::Little ==> r == x,
        endianness() == vstd::endian::Endian::Big ==> r == reversed_u16(x),
{
    u16::to_le(x)
}

/// Calls `u16::from_be`, which is documented as a no-op on a big-endian
/// target and a byte swap on a little-endian one.
#[verifier::external_body]
pub(crate) fn u16_from_be(x: u16) -> (r: u16)
    ensures
        endianness() == vstd::endian::Endian::Little ==> r == reversed_u16(x),
        endianness() == vstd::endian::Endian::Big ==> r == x,
{
    u16::from_be(x)
}

/// Calls `u16::from_le`, which is documented as a no-op on a little-endian
/// target and a byte swap on a big-endian one.
#[verifier::external_body]
pub(crate) fn u16_from_le(x: u16) -> (r: u16)
    ensures
        endianness() == vstd::endian::Endian::Little ==> r == x,
        endianness() == vstd::endian::Endian::Big ==> r == reversed_u16(x),
{
    u16::from_le(x)
}

/// The bits of `x` arranged in big-endian order: reversed on a little-endian
/// target, unchanged on a big-endian one.
pub open spec fn big_endian_u32(x: u32) -> u32 {
    match endianness() {
        vstd::endian::Endian::Little => reversed_u32(x),
        vstd::endian::Endian::Big => x,
    }
}

/// The bits of `x` arranged in little-endian order: unchanged on a
/// little-endian target, reversed on a big-endian one.
pub open spec fn little_endian_u32(x: u32) -> u32 {
    match endianness() {
        vstd::endian::Endian::Little => x,
        vstd::endian::Endian::Big => reversed_u32(x),
    }
}

/// The bytes that `x` occupies on the target, lowest address first.
pub open spec fn memory_bytes_u32(x: u32) -> Seq<u8> {
    match endianness() {
        vstd::endian::Endian::Little => le_bytes_u32(x),
        vstd::endian::Endian::Big => be_bytes_u32(x),
    }
}

/// Calls `u32::to_be`, which is documented as a no-op on a big-endian target
/// and a byte swap on a little-endian one.
#[verifier::external_body]
pub(crate) fn u32_to_be(x: u32) -> (r: u32)
    ensures
        endianness() == vstd::endian::Endian::Little ==> r == reversed_u32(x),
        endianness() == vstd::endian::Endian::Big ==> r == x,
{
    u32::to_be(x)
}

/// Calls `u32::to_le`, which is documented as a no-op on a little-endian
/// target and a byte swap on a big-endian one.
#[verifier::external_body]
pub(crate) fn u32_to_le(x: u32) -> (r: u32)
    ensures
        endianness() == vstd::endian::Endian::Little ==> r == x,
        endianness() == vstd::endian::Endian::Big ==> r == reversed_u32(x),
{
    u32::to_le(x)
}

/// Calls `u32::from_be`, which is documented as a no-op on a big-endian
/// target and a byte swap on a little-endian one.
#[verifier::external_body]
pub(crate) fn u32_from_be(x: u32) -> (r: u32)
    ensures
        endianness() == vstd::endian::Endian::Little ==> r == reversed_u32(x),
        endianness() == vstd::endian::Endian::Big ==> r == x,
{
    u32::from_be(x)
}

/// Calls `u32::from_le`, which is documented as a no-op on a little-endian
/// target and a byte swap on a big-endian one.
#[verifier::external_body]
pub(crate) fn u32_from_le(x: u32) -> (r: u32)
    ensures
        endianness() == vstd::endian::Endian::Little ==> r == x,
        endianness() == vstd::endian::Endian::Big ==> r == reversed_u32(x),
{
    u32::from_le(x)
}

/// The bits of `x` arranged in big-endian order: reversed on a little-endian
/// target, unchanged on a big-endian one.
pub open spec fn big_endian_u64(x: u64) -> u64 {
    match endianness() {
        vstd::endian::Endian::Little => reversed_u64(x),
        vstd::endian::Endian::Big => x,
    }
}

/// The bits of `x` arranged in little-endian order: unchanged on a
/// little-endian target, reversed on a big-endian one.
pub open spec fn little_endian_u64(x: u64) -> u64 {
    match endianness() {
        vstd::endian::Endian::Little => x,
        vstd::endian::Endian::Big => reversed_u64(x),
    }
}

/// The bytes that `x` occupies on the target, lowest address first.
pub open spec fn memory_bytes_u64(x: u64) -> Seq<u8> {
    match endianness() {
        vstd::endian::Endian::Little => le_bytes_u64(x),
        vstd::endian::Endian::Big => be_bytes_u64(x),
    }
}

/// Calls `u64::to_be`, which is documented as a no-op on a big-endian target
/// and a byte swap on a little-endian one.
#[verifier::external_body]
pub(crate) fn u64_to_be(x: u64) -> (r: u64)
    ensures
        endianness() == vstd::endian::Endian::Little ==> r == reversed_u64(x),
        endianness() == vstd::endian::Endian::Big ==> r == x,
{
    u64::to_be(x)
}

/// Calls `u64::to_le`, which is documented as a no-op on a little-endian
/// target and a byte swap on a big-endian one.
#[verifier::external_body]
pub(crate) fn u64_to_le(x: u64) -> (r: u64)
    ensures
        endianness() == vstd::endian::Endian::Little ==> r == x,
        endianness() == vstd::endian::Endian::Big ==> r == reversed_u64(x),
{
    u64::to_le(x)
}

/// Calls `u64::from_be`, which is documented as a no-op on a big-endian
/// target and a byte swap on a little-endian one.
#[verifier::external_body]
pub(crate) fn u64_from_be(x: u64) -> (r: u64)
    ensures
        endianness() == vstd::endian::Endian::Little ==> r == reversed_u64(x),
        endianness() == vstd::endian::Endian::Big ==> r == x,
{
    u64::from_be(x)
}

/// Calls `u64::from_le`, which is documented as a no-op on a little-endian
/// target and a byte swap on a big-endian one.
#[verifier::external_body]
pub(crate) fn u64_from_le(x: u64) -> (r: u64)
    ensures
        endianness() == vstd::endian::Endian::Little ==> r == x,
        endianness() == vstd::endian::Endian::Big ==> r == reversed_u64(x),
{
    u64::from_le(x)
}

/// The bits of `x` arranged in big-endian order: reversed on a little-endian
/// target, unchanged on a big-endian one.
pub open spec fn big_endian_u128(x: u128) -> u128 {
    match endianness() {
        vstd::endian::Endian::Little => reversed_u128(x),
        vstd::endian::Endian::Big => x,
    }
}

/// The bits of `x` arranged in little-endian order: unchanged on a
/// little-endian target, reversed on a big-endian one.
pub open spec fn little_endian_u128(x: u128) -> u128 {
    match endianness() {
        vstd::endian::Endian::Little => x,
        vstd::endian::Endian::Big => reversed_u128(x),
    }
}

/// The bytes that `x` occupies on the target, lowest address first.
pub open spec fn memory_bytes_u128(x: u128) -> Seq<u8> {
    match endianness() {
        vstd::endian::Endian::Little => le_bytes_u128(x),
        vstd::endian::Endian::Big => be_bytes_u128(x),
    }
}

/// Calls `u128::to_be`, which is documented as a no-op on a big-endian target
/// and a byte swap on a little-endian one.
#[verifier::external_body]
pub(crate) fn u128_to_be(x: u128) -> (r: u128)
    ensures
        endianness() == vstd::endian::Endian::Little ==> r == reversed_u128(x),
        endianness() == vstd::endian::Endian::Big ==> r == x,
{
    u128::to_be(x)
}

/// Calls `u128::to_le`, which is documented as a no-op on a little-endian
/// target and a byte swap on a big-endian one.
#[verifier::external_body]
pub(crate) fn u128_to_le(x: u128) -> (r: u128)
    ensures
        endianness() == vstd::endian::Endian::Little ==> r == x,
        endianness() == vstd::endian::Endian::Big ==> r == reversed_u128(x),
{
    u128::to_le(x)
}

/// Calls `u128::from_be`, which is documented as a no-op on a big-endian
/// target and a byte swap on a little-endian one.
#[verifier::external_body]
pub(crate) fn u128_from_be(x: u128) -> (r: u128)
    ensures
        endianness() == vstd::endian::Endian::Little ==> r == reversed_u128(x),
        endianness() == vstd::endian::Endian::Big ==> r == x,
{
    u128::from_be(x)
}

/// Calls `u128::from_le`, which is documented as a no-op on a little-endian
/// target and a byte swap on a big-endian one.
#[verifier::external_body]
pub(crate) fn u128_from_le(x: u128) -> (r: u128)
    ensures
        endianness() == vstd::endian::Endian::Little ==> r == x,
        endianness() == vstd::endian::Endian::Big ==> r == reversed_u128(x),
{
    u128::from_le(x)
}

/// The bits of `x` arranged in big-endian order: reversed on a little-endian
/// target, unchanged on a big-endian one.
pub open spec fn big_endian_usize(x: usize) -> usize {
    match endianness() {
        vstd::endian::Endian::Little => reversed_usize(x),
        vstd::endian::Endian::Big => x,
    }
}

/// The bits of `x` arranged in little-endian order: unchanged on a
/// little-endian target, reversed on a big-endian one.
pub open spec fn little_endian_usize(x: usize) -> usize {
    match endianness() {
        vstd::endian::Endian::Little => x,
        vstd::endian::Endian::Big => reversed_usize(x),
    }
}

/// The bytes that `x` occupies on the target, lowest address first.
pub open spec fn memory_bytes_usize(x: usize) -> Seq<u8> {
    match endianness() {
        vstd::endian::Endian::Little => le_bytes_usize(x),
        vstd::endian::Endian::Big => be_bytes_usize(x),
    }
}

/// Calls `usize::to_be`, which is documented as a no-op on a big-endian target
/// and a byte swap on a little-endian one.
#[verifier::external_body]
pub(crate) fn usize_to_be(x: usize) -> (r: usize)
    ensures
        endianness() == vstd::endian::Endian::Little ==> r == reversed_usize(x),
        endianness() == vstd::endian::Endian::Big ==> r == x,
{
    usize::to_be(x)
}

/// Calls `usize::to_le`, which is documented as a no-op on a little-endian
/// target and a byte swap on a big-endian one.
#[verifier::external_body]
pub(crate) fn usize_to_le(x: usize) -> (r: usize)
    ensures
        endianness() == vstd::endian::Endian::Little ==> r == x,
        endianness() == vstd::endian::Endian::Big ==> r == reversed_usize(x),
{
    usize::to_le(x)
}

/// Calls `usize::from_be`, which is documented as a no-op on a big-endian
/// target and a byte swap on a little-endian one.
#[verifier::external_body]
pub(crate) fn usize_from_be(x: usize) -> (r: usize)
    ensures
        endianness() == vstd::endian::Endian::Little ==> r == reversed_usize(x),
        endianness() == vstd::endian::Endian::Big ==> r == x,
{
    usize::from_be(x)
}

/// Calls `usize::from_le`, which is documented as a no-op on a little-endian
/// target and a byte swap on a big-endian one.
#[verifier::external_body]
pub(crate) fn usize_from_le(x: usize) -> (r: usize)
    ensures
        endianness() == vstd::endian::Endian::Little ==> r == x,
        endianness() == vstd::endian::Endian::Big ==> r == reversed_usize(x),
{
    usize::from_le(x)
}

} // verus!
