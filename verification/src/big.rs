//! An integer stored in big-endian order.

use vstd::prelude::*;
use vstd::std_specs::cmp::{PartialEqSpec, PartialEqSpecImpl};
use vstd::std_specs::convert::FromSpecImpl;
use crate::endian::Endian;

verus! {

/// A value of `T` whose stored bits are in big-endian order, whatever the
/// target's own order is.
///
/// Its view is the value in the target's order; [`BigEndian::bits`] is what
/// is stored. Two wrappers are equal exactly when their stored bits are.
#[derive(Debug, Copy, Eq, Hash)]
pub struct BigEndian<T: Endian<T>>(T);

impl<T: Endian<T>> View for BigEndian<T> {
    type V = T;

    /// The value in the target's order that the stored bits stand for.
    open spec fn view(&self) -> T {
        T::of_be_bits(self.bits())
    }
}

impl<T: Endian<T>> BigEndian<T> {
    /// The stored bits, in big-endian order.
    pub closed spec fn bits(self) -> T {
        self.0
    }

    /// The wrapper whose stored bits are `bits`.
    pub closed spec fn spec_from_bits(bits: T) -> Self {
        BigEndian(bits)
    }

    /// The wrapper that stands for the native value `value`.
    pub open spec fn spec_new(value: T) -> Self {
        Self::spec_from_bits(value.be_bits())
    }

    /// A wrapper is determined by its stored bits, and holds the bits it was
    /// made from.
    pub proof fn lemma_bits(self, bits: T)
        ensures
            Self::spec_from_bits(self.bits()) == self,
            Self::spec_from_bits(bits).bits() == bits,
    {
    }

    /// Wraps a native value, storing its bits in big-endian order.
    #[inline]
    pub fn new(value: T) -> (r: Self)
        ensures
            r == Self::spec_new(value),
            r.bits() == value.be_bits(),
            r@ == value.native(),
    {
        proof {
            T::lemma_be_round_trip(value);
        }
        Self(value.to_be())
    }

    /// Wraps bits that are already in big-endian order, as they are.
    #[inline]
    pub fn from_bits(bits: T) -> (r: Self)
        ensures
            r == Self::spec_from_bits(bits),
            r.bits() == bits,
            r@ == T::of_be_bits(bits),
    {
        Self(bits)
    }

    /// Converts `self` from big endian to the target's endianness.
    #[inline]
    pub fn to_native(self) -> (r: T)
        ensures
            r == self@,
    {
        T::from_be(self.0)
    }

    /// The stored bits as they are, in big-endian order.
    #[inline]
    pub fn to_bits(self) -> (r: T)
        ensures
            r == self.bits(),
    {
        self.0
    }
}

impl<T: Endian<T>> Clone for BigEndian<T> {
    /// A copy with the same stored bits.
    fn clone(&self) -> (r: Self)
        ensures
            r == *self,
    {
        *self
    }
}

impl<T: Endian<T> + Default> Default for BigEndian<T> {
    /// The wrapper whose stored bits are the default of `T`.
    fn default() -> (r: Self)
        ensures
            call_ensures(T::default, (), r.bits()),
    {
        Self(T::default())
    }
}

impl<T: Endian<T> + PartialEq> PartialEq for BigEndian<T> {
    /// Compares the stored bits.
    fn eq(&self, other: &Self) -> (r: bool) {
        self.0 == other.0
    }
}

impl<T: Endian<T> + PartialEq> PartialEqSpecImpl for BigEndian<T> {
    open spec fn obeys_eq_spec() -> bool {
        T::obeys_eq_spec()
    }

    open spec fn eq_spec(&self, other: &Self) -> bool {
        self.bits().eq_spec(&other.bits())
    }
}

impl<T: Endian<T>> From<T> for BigEndian<T> {
    #[inline]
    fn from(value: T) -> (r: Self)
        ensures
            r.bits() == value.be_bits(),
            r@ == value.native(),
    {
        Self::new(value)
    }
}

impl<T: Endian<T>> FromSpecImpl<T> for BigEndian<T> {
    open spec fn obeys_from_spec() -> bool {
        true
    }

    open spec fn from_spec(value: T) -> Self {
        Self::spec_new(value)
    }
}

impl From<BigEndian<u8>> for u8 {
    #[inline]
    fn from(value: BigEndian<u8>) -> (r: u8) {
        value.to_native()
    }
}

impl FromSpecImpl<BigEndian<u8>> for u8 {
    open spec fn obeys_from_spec() -> bool {
        true
    }

    open spec fn from_spec(value: BigEndian<u8>) -> u8 {
        value@
    }
}

impl From<BigEndian<u16>> for u16 {
    #[inline]
    fn from(value: BigEndian<u16>) -> (r: u16) {
        value.to_native()
    }
}

impl FromSpecImpl<BigEndian<u16>> for u16 {
    open spec fn obeys_from_spec() -> bool {
        true
    }

    open spec fn from_spec(value: BigEndian<u16>) -> u16 {
        value@
    }
}

impl From<BigEndian<u32>> for u32 {
    #[inline]
    fn from(value: BigEndian<u32>) -> (r: u32) {
        value.to_native()
    }
}

impl FromSpecImpl<BigEndian<u32>> for u32 {
    open spec fn obeys_from_spec() -> bool {
        true
    }

    open spec fn from_spec(value: BigEndian<u32>) -> u32 {
        value@
    }
}

impl From<BigEndian<u64>> for u64 {
    #[inline]
    fn from(value: BigEndian<u64>) -> (r: u64) {
        value.to_native()
    }
}

impl FromSpecImpl<BigEndian<u64>> for u64 {
    open spec fn obeys_from_spec() -> bool {
        true
    }

    open spec fn from_spec(value: BigEndian<u64>) -> u64 {
        value@
    }
}

impl From<BigEndian<u128>> for u128 {
    #[inline]
    fn from(value: BigEndian<u128>) -> (r: u128) {
        value.to_native()
    }
}

impl FromSpecImpl<BigEndian<u128>> for u128 {
    open spec fn obeys_from_spec() -> bool {
        true
    }

    open spec fn from_spec(value: BigEndian<u128>) -> u128 {
        value@
    }
}

impl From<BigEndian<usize>> for usize {
    #[inline]
    fn from(value: BigEndian<usize>) -> (r: usize) {
        value.to_native()
    }
}

impl FromSpecImpl<BigEndian<usize>> for usize {
    open spec fn obeys_from_spec() -> bool {
        true
    }

    open spec fn from_spec(value: BigEndian<usize>) -> usize {
        value@
    }
}

} // verus!
