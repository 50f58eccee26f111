//! The capability of an integer type to move between the target's byte
//! order and a named one.

use vstd::prelude::*;
use crate::native::{
    big_endian_u128, big_endian_u16, big_endian_u32, big_endian_u64, big_endian_u8,
    big_endian_usize, little_endian_u128, little_endian_u16, little_endian_u32,
    little_endian_u64, little_endian_u8, little_endian_usize,
};
use crate::native::{
    u128_from_be, u128_from_le, u128_to_be, u128_to_le, u16_from_be, u16_from_le, u16_to_be,
    u16_to_le, u32_from_be, u32_from_le, u32_to_be, u32_to_le, u64_from_be, u64_from_le, u64_to_be,
    u64_to_le, u8_from_be, u8_from_le, u8_to_be, u8_to_le, usize_from_be, usize_from_le,
    usize_to_be, usize_to_le,
};
use crate::reversal::{
    lemma_reversed_u128_involutive, lemma_reversed_u16_involutive,
    lemma_reversed_u32_involutive, lemma_reversed_u64_involutive,
    lemma_reversed_usize_involutive,
};

verus! {

/// A type whose values can be rearranged into big-endian and little-endian
/// order and back.
///
/// The four conversions are total. An implementation owes four proofs: that
/// `from_be` and `to_be` undo each other, and that `from_le` and `to_le` do.
pub trait Endian<T> where Self: Into<T> + Copy + Clone + Send + Sync {
    /// The value itself, seen as a `T` in the target's order.
    spec fn native(self) -> T;

    /// The bits of the value in big-endian order.
    spec fn be_bits(self) -> T;

    /// The bits of the value in little-endian order.
    spec fn le_bits(self) -> T;

    /// The value in the target's order whose big-endian bits are `value`.
    spec fn of_be_bits(value: T) -> T;

    /// The value in the target's order whose little-endian bits are `value`.
    spec fn of_le_bits(value: T) -> T;

    /// Converts `self` to big endian from the target's endianness.
    fn to_be(&self) -> (r: T)
        ensures
            r == self.be_bits(),
    ;

    /// Converts `self` to little endian from the target's endianness.
    fn to_le(&self) -> (r: T)
        ensures
            r == self.le_bits(),
    ;

    /// Converts `value` from big endian to the target's endianness.
    fn from_be(value: T) -> (r: T)
        ensures
            r == Self::of_be_bits(value),
    ;

    /// Converts `value` from little endian to the target's endianness.
    fn from_le(value: T) -> (r: T)
        ensures
            r == Self::of_le_bits(value),
    ;

    /// Reading big-endian bits back gives the value they were made from.
    proof fn lemma_be_round_trip(x: Self)
        ensures
            Self::of_be_bits(x.be_bits()) == x.native(),
    ;

    /// Reading little-endian bits back gives the value they were made from.
    proof fn lemma_le_round_trip(x: Self)
        ensures
            Self::of_le_bits(x.le_bits()) == x.native(),
    ;

    /// Arranging in big-endian order undoes reading from it: the value that
    /// `value` reads as has `value` as its big-endian bits.
    proof fn lemma_be_bits_of_read(x: Self, value: T)
        requires
            x.native() == Self::of_be_bits(value),
        ensures
            x.be_bits() == value,
    ;

    /// Arranging in little-endian order undoes reading from it: the value
    /// that `value` reads as has `value` as its little-endian bits.
    proof fn lemma_le_bits_of_read(x: Self, value: T)
        requires
            x.native() == Self::of_le_bits(value),
        ensures
            x.le_bits() == value,
    ;
}

impl Endian<u8> for u8 {
    open spec fn native(self) -> u8 {
        self
    }

    open spec fn be_bits(self) -> u8 {
        big_endian_u8(self)
    }

    open spec fn le_bits(self) -> u8 {
        little_endian_u8(self)
    }

    open spec fn of_be_bits(value: u8) -> u8 {
        big_endian_u8(value)
    }

    open spec fn of_le_bits(value: u8) -> u8 {
        little_endian_u8(value)
    }

    fn to_be(&self) -> (r: u8) {
        u8_to_be(*self)
    }

    fn to_le(&self) -> (r: u8) {
        u8_to_le(*self)
    }

    fn from_be(value: u8) -> (r: u8) {
        u8_from_be(value)
    }

    fn from_le(value: u8) -> (r: u8) {
        u8_from_le(value)
    }

    proof fn lemma_be_round_trip(x: u8) {
    }

    proof fn lemma_le_round_trip(x: u8) {
    }

    proof fn lemma_be_bits_of_read(x: u8, value: u8) {
    }

    proof fn lemma_le_bits_of_read(x: u8, value: u8) {
    }
}

impl Endian<u16> for u16 {
    open spec fn native(self) -> u16 {
        self
    }

    open spec fn be_bits(self) -> u16 {
        big_endian_u16(self)
    }

    open spec fn le_bits(self) -> u16 {
        little_endian_u16(self)
    }

    open spec fn of_be_bits(value: u16) -> u16 {
        big_endian_u16(value)
    }

    open spec fn of_le_bits(value: u16) -> u16 {
        little_endian_u16(value)
    }

    fn to_be(&self) -> (r: u16) {
        u16_to_be(*self)
    }

    fn to_le(&self) -> (r: u16) {
        u16_to_le(*self)
    }

    fn from_be(value: u16) -> (r: u16) {
        u16_from_be(value)
    }

    fn from_le(value: u16) -> (r: u16) {
        u16_from_le(value)
    }

    proof fn lemma_be_round_trip(x: u16) {
        lemma_reversed_u16_involutive(x);
    }

    proof fn lemma_le_round_trip(x: u16) {
        lemma_reversed_u16_involutive(x);
    }

    proof fn lemma_be_bits_of_read(x: u16, value: u16) {
        lemma_reversed_u16_involutive(value);
    }

    proof fn lemma_le_bits_of_read(x: u16, value: u16) {
        lemma_reversed_u16_involutive(value);
    }
}

impl Endian<u32> for u32 {
    open spec fn native(self) -> u32 {
        self
    }

    open spec fn be_bits(self) -> u32 {
        big_endian_u32(self)
    }

    open spec fn le_bits(self) -> u32 {
        little_endian_u32(self)
    }

    open spec fn of_be_bits(value: u32) -> u32 {
        big_endian_u32(value)
    }

    open spec fn of_le_bits(value: u32) -> u32 {
        little_endian_u32(value)
    }

    fn to_be(&self) -> (r: u32) {
        u32_to_be(*self)
    }

    fn to_le(&self) -> (r: u32) {
        u32_to_le(*self)
    }

    fn from_be(value: u32) -> (r: u32) {
        u32_from_be(value)
    }

    fn from_le(value: u32) -> (r: u32) {
        u32_from_le(value)
    }

    proof fn lemma_be_round_trip(x: u32) {
        lemma_reversed_u32_involutive(x);
    }

    proof fn lemma_le_round_trip(x: u32) {
        lemma_reversed_u32_involutive(x);
    }

    proof fn lemma_be_bits_of_read(x: u32, value: u32) {
        lemma_reversed_u32_involutive(value);
    }

    proof fn lemma_le_bits_of_read(x: u32, value: u32) {
        lemma_reversed_u32_involutive(value);
    }
}

impl Endian<u64> for u64 {
    open spec fn native(self) -> u64 {
        self
    }

    open spec fn be_bits(self) -> u64 {
        big_endian_u64(self)
    }

    open spec fn le_bits(self) -> u64 {
        little_endian_u64(self)
    }

    open spec fn of_be_bits(value: u64) -> u64 {
        big_endian_u64(value)
    }

    open spec fn of_le_bits(value: u64) -> u64 {
        little_endian_u64(value)
    }

    fn to_be(&self) -> (r: u64) {
        u64_to_be(*self)
    }

    fn to_le(&self) -> (r: u64) {
        u64_to_le(*self)
    }

    fn from_be(value: u64) -> (r: u64) {
        u64_from_be(value)
    }

    fn from_le(value: u64) -> (r: u64) {
        u64_from_le(value)
    }

    proof fn lemma_be_round_trip(x: u64) {
        lemma_reversed_u64_involutive(x);
    }

    proof fn lemma_le_round_trip(x: u64) {
        lemma_reversed_u64_involutive(x);
    }

    proof fn lemma_be_bits_of_read(x: u64, value: u64) {
        lemma_reversed_u64_involutive(value);
    }

    proof fn lemma_le_bits_of_read(x: u64, value: u64) {
        lemma_reversed_u64_involutive(value);
    }
}

impl Endian<u128> for u128 {
    open spec fn native(self) -> u128 {
        self
    }

    open spec fn be_bits(self) -> u128 {
        big_endian_u128(self)
    }

    open spec fn le_bits(self) -> u128 {
        little_endian_u128(self)
    }

    open spec fn of_be_bits(value: u128) -> u128 {
        big_endian_u128(value)
    }

    open spec fn of_le_bits(value: u128) -> u128 {
        little_endian_u128(value)
    }

    fn to_be(&self) -> (r: u128) {
        u128_to_be(*self)
    }

    fn to_le(&self) -> (r: u128) {
        u128_to_le(*self)
    }

    fn from_be(value: u128) -> (r: u128) {
        u128_from_be(value)
    }

    fn from_le(value: u128) -> (r: u128) {
        u128_from_le(value)
    }

    proof fn lemma_be_round_trip(x: u128) {
        lemma_reversed_u128_involutive(x);
    }

    proof fn lemma_le_round_trip(x: u128) {
        lemma_reversed_u128_involutive(x);
    }

    proof fn lemma_be_bits_of_read(x: u128, value: u128) {
        lemma_reversed_u128_involutive(value);
    }

    proof fn lemma_le_bits_of_read(x: u128, value: u128) {
        lemma_reversed_u128_involutive(value);
    }
}

impl Endian<usize> for usize {
    open spec fn native(self) -> usize {
        self
    }

    open spec fn be_bits(self) -> usize {
        big_endian_usize(self)
    }

    open spec fn le_bits(self) -> usize {
        little_endian_usize(self)
    }

    open spec fn of_be_bits(value: usize) -> usize {
        big_endian_usize(value)
    }

    open spec fn of_le_bits(value: usize) -> usize {
        little_endian_usize(value)
    }

    fn to_be(&self) -> (r: usize) {
        usize_to_be(*self)
    }

    fn to_le(&self) -> (r: usize) {
        usize_to_le(*self)
    }

    fn from_be(value: usize) -> (r: usize) {
        usize_from_be(value)
    }

    fn from_le(value: usize) -> (r: usize) {
        usize_from_le(value)
    }

    proof fn lemma_be_round_trip(x: usize) {
        lemma_reversed_usize_involutive(x);
    }

    proof fn lemma_le_round_trip(x: usize) {
        lemma_reversed_usize_involutive(x);
    }

    proof fn lemma_be_bits_of_read(x: usize, value: usize) {
        lemma_reversed_usize_involutive(value);
    }

    proof fn lemma_le_bits_of_read(x: usize, value: usize) {
        lemma_reversed_usize_involutive(value);
    }
}

} // verus!
