//! What holds of the wrappers and of the conversions under them, for every
//! value of every supported width.

use vstd::endian::endianness;
use vstd::prelude::*;
use vstd::std_specs::cmp::PartialEqSpec;
use vstd::std_specs::convert::FromSpec;
use crate::big::BigEndian;
use crate::bytes::{
    be_bytes_u128, be_bytes_u16, be_bytes_u32, be_bytes_u64, be_bytes_u8, be_bytes_usize,
    le_bytes_u128, le_bytes_u16, le_bytes_u32, le_bytes_u64, le_bytes_u8, le_bytes_usize,
    lemma_reversed_u128_bytes, lemma_reversed_u16_bytes, lemma_reversed_u32_bytes,
    lemma_reversed_u64_bytes, lemma_reversed_u8_bytes, lemma_reversed_usize_bytes,
};
use crate::endian::Endian;
use crate::little::LittleEndian;
use crate::native::{
    memory_bytes_u128, memory_bytes_u16, memory_bytes_u32, memory_bytes_u64, memory_bytes_u8,
    memory_bytes_usize,
};
use crate::reversal::{
    lemma_reversed_u128_involutive, lemma_reversed_u16_involutive,
    lemma_reversed_u32_involutive, lemma_reversed_u64_involutive,
    lemma_reversed_usize_involutive, reversed_u128, reversed_u16, reversed_u32, reversed_u64,
    reversed_u8, reversed_usize,
};

verus! {

/// Wrapping a native value and reading it back gives the value, in both
/// orders and for every type that has the capability.
pub proof fn lemma_round_trip<T: Endian<T>>(v: T)
    ensures
        BigEndian::<T>::spec_new(v)@ == v.native(),
        LittleEndian::<T>::spec_new(v)@ == v.native(),
{
    T::lemma_be_round_trip(v);
    T::lemma_le_round_trip(v);
    BigEndian::<T>::spec_new(v).lemma_bits(v.be_bits());
    LittleEndian::<T>::spec_new(v).lemma_bits(v.le_bits());
}

/// Wrapping the value that a wrapper stands for gives the wrapper back, for
/// every type whose values are their own native form.
pub proof fn lemma_rewrap<T: Endian<T>>(a: BigEndian<T>, b: LittleEndian<T>)
    requires
        a@.native() == a@,
        b@.native() == b@,
    ensures
        BigEndian::<T>::spec_new(a@) == a,
        LittleEndian::<T>::spec_new(b@) == b,
{
    T::lemma_be_bits_of_read(a@, a.bits());
    T::lemma_le_bits_of_read(b@, b.bits());
    a.lemma_bits(a.bits());
    b.lemma_bits(b.bits());
}

/// For `u8`: each conversion from an order undoes the conversion to it, and
/// the other way round; the big-endian bits are the little-endian bits with
/// the bytes reversed, so the two agree exactly on the values that read the
/// same in both directions.
pub proof fn lemma_u8_orders(x: u8)
    ensures
        <u8>::of_be_bits(x.be_bits()) == x,
        <u8>::of_be_bits(x).be_bits() == x,
        <u8>::of_le_bits(x.le_bits()) == x,
        <u8>::of_le_bits(x).le_bits() == x,
        x.be_bits() == reversed_u8(x.le_bits()),
        x.be_bits() == x.le_bits() <==> reversed_u8(x) == x,
{
}

/// For `u8`: wrapping a native value and reading it back gives the value,
/// in both orders.
pub proof fn lemma_u8_round_trip(v: u8)
    ensures
        BigEndian::<u8>::spec_new(v)@ == v,
        LittleEndian::<u8>::spec_new(v)@ == v,
{
    lemma_round_trip::<u8>(v);
}

/// For `u8`: wrapping the value that a wrapper stands for gives the wrapper
/// back, in both orders.
pub proof fn lemma_u8_rewrap(a: BigEndian<u8>, b: LittleEndian<u8>)
    ensures
        BigEndian::<u8>::spec_new(a@) == a,
        LittleEndian::<u8>::spec_new(b@) == b,
{
    lemma_rewrap::<u8>(a, b);
}

/// For `u8`: both wrappers hold the native value unchanged, on every target.
pub proof fn lemma_u8_stored_bits(v: u8)
    ensures
        BigEndian::<u8>::spec_new(v).bits() == v,
        LittleEndian::<u8>::spec_new(v).bits() == v,
{
    BigEndian::<u8>::spec_new(v).lemma_bits(v.be_bits());
    LittleEndian::<u8>::spec_new(v).lemma_bits(v.le_bits());
}

/// For `u8`: whatever the target's order, the bits that the big-endian
/// wrapper stores lie in memory most significant byte first, and those of the
/// little-endian wrapper least significant byte first.
pub proof fn lemma_u8_memory_bytes(v: u8)
    ensures
        memory_bytes_u8(BigEndian::<u8>::spec_new(v).bits()) == be_bytes_u8(v),
        memory_bytes_u8(LittleEndian::<u8>::spec_new(v).bits()) == le_bytes_u8(v),
{
    BigEndian::<u8>::spec_new(v).lemma_bits(v.be_bits());
    LittleEndian::<u8>::spec_new(v).lemma_bits(v.le_bits());
    lemma_reversed_u8_bytes(v);
}

/// For `u8`: two wrappers of one order compare equal exactly when their
/// stored bits are equal, and so exactly when they were made from the same
/// native value.
pub proof fn lemma_u8_equality(
    a: BigEndian<u8>,
    b: BigEndian<u8>,
    c: LittleEndian<u8>,
    d: LittleEndian<u8>,
    v: u8,
    w: u8,
)
    ensures
        BigEndian::<u8>::obeys_eq_spec(),
        LittleEndian::<u8>::obeys_eq_spec(),
        a.eq_spec(&b) <==> a.bits() == b.bits(),
        c.eq_spec(&d) <==> c.bits() == d.bits(),
        BigEndian::<u8>::spec_new(v).eq_spec(&BigEndian::<u8>::spec_new(w)) <==> v == w,
        LittleEndian::<u8>::spec_new(v).eq_spec(&LittleEndian::<u8>::spec_new(w)) <==> v == w,
{
    BigEndian::<u8>::spec_new(v).lemma_bits(v.be_bits());
    BigEndian::<u8>::spec_new(w).lemma_bits(w.be_bits());
    LittleEndian::<u8>::spec_new(v).lemma_bits(v.le_bits());
    LittleEndian::<u8>::spec_new(w).lemma_bits(w.le_bits());
}

/// For `u8`: converting a native value into a wrapper with `From` and back
/// with `From` gives the value, in both orders.
pub proof fn lemma_u8_conversions_inverse(v: u8)
    ensures
        <u8>::from_spec(BigEndian::<u8>::from_spec(v)) == v,
        <u8>::from_spec(LittleEndian::<u8>::from_spec(v)) == v,
{
    lemma_round_trip::<u8>(v);
}

/// For `u16`: each conversion from an order undoes the conversion to it, and
/// the other way round; the big-endian bits are the little-endian bits with
/// the bytes reversed, so the two agree exactly on the values that read the
/// same in both directions.
pub proof fn lemma_u16_orders(x: u16)
    ensures
        <u16>::of_be_bits(x.be_bits()) == x,
        <u16>::of_be_bits(x).be_bits() == x,
        <u16>::of_le_bits(x.le_bits()) == x,
        <u16>::of_le_bits(x).le_bits() == x,
        x.be_bits() == reversed_u16(x.le_bits()),
        x.be_bits() == x.le_bits() <==> reversed_u16(x) == x,
{
    lemma_reversed_u16_involutive(x);
}

/// For `u16`: wrapping a native value and reading it back gives the value,
/// in both orders.
pub proof fn lemma_u16_round_trip(v: u16)
    ensures
        BigEndian::<u16>::spec_new(v)@ == v,
        LittleEndian::<u16>::spec_new(v)@ == v,
{
    lemma_round_trip::<u16>(v);
}

/// For `u16`: wrapping the value that a wrapper stands for gives the wrapper
/// back, in both orders.
pub proof fn lemma_u16_rewrap(a: BigEndian<u16>, b: LittleEndian<u16>)
    ensures
        BigEndian::<u16>::spec_new(a@) == a,
        LittleEndian::<u16>::spec_new(b@) == b,
{
    lemma_rewrap::<u16>(a, b);
}

/// For `u16`: on a little-endian target the big-endian wrapper holds the byte
/// reversal of the native value and the little-endian wrapper holds the value
/// unchanged; on a big-endian target the two exchange.
pub proof fn lemma_u16_stored_bits(v: u16)
    ensures
        endianness() == vstd::endian::Endian::Little ==> BigEndian::<u16>::spec_new(v).bits() == reversed_u16(v)
            && LittleEndian::<u16>::spec_new(v).bits() == v,
        endianness() == vstd::endian::Endian::Big ==> BigEndian::<u16>::spec_new(v).bits() == v
            && LittleEndian::<u16>::spec_new(v).bits() == reversed_u16(v),
{
    BigEndian::<u16>::spec_new(v).lemma_bits(v.be_bits());
    LittleEndian::<u16>::spec_new(v).lemma_bits(v.le_bits());
}

/// For `u16`: whatever the target's order, the bits that the big-endian
/// wrapper stores lie in memory most significant byte first, and those of the
/// little-endian wrapper least significant byte first.
pub proof fn lemma_u16_memory_bytes(v: u16)
    ensures
        memory_bytes_u16(BigEndian::<u16>::spec_new(v).bits()) == be_bytes_u16(v),
        memory_bytes_u16(LittleEndian::<u16>::spec_new(v).bits()) == le_bytes_u16(v),
{
    BigEndian::<u16>::spec_new(v).lemma_bits(v.be_bits());
    LittleEndian::<u16>::spec_new(v).lemma_bits(v.le_bits());
    lemma_reversed_u16_bytes(v);
}

/// For `u16`: two wrappers of one order compare equal exactly when their
/// stored bits are equal, and so exactly when they were made from the same
/// native value.
pub proof fn lemma_u16_equality(
    a: BigEndian<u16>,
    b: BigEndian<u16>,
    c: LittleEndian<u16>,
    d: LittleEndian<u16>,
    v: u16,
    w: u16,
)
    ensures
        BigEndian::<u16>::obeys_eq_spec(),
        LittleEndian::<u16>::obeys_eq_spec(),
        a.eq_spec(&b) <==> a.bits() == b.bits(),
        c.eq_spec(&d) <==> c.bits() == d.bits(),
        BigEndian::<u16>::spec_new(v).eq_spec(&BigEndian::<u16>::spec_new(w)) <==> v == w,
        LittleEndian::<u16>::spec_new(v).eq_spec(&LittleEndian::<u16>::spec_new(w)) <==> v == w,
{
    BigEndian::<u16>::spec_new(v).lemma_bits(v.be_bits());
    BigEndian::<u16>::spec_new(w).lemma_bits(w.be_bits());
    LittleEndian::<u16>::spec_new(v).lemma_bits(v.le_bits());
    LittleEndian::<u16>::spec_new(w).lemma_bits(w.le_bits());
    lemma_reversed_u16_involutive(v);
    lemma_reversed_u16_involutive(w);
}

/// For `u16`: converting a native value into a wrapper with `From` and back
/// with `From` gives the value, in both orders.
pub proof fn lemma_u16_conversions_inverse(v: u16)
    ensures
        <u16>::from_spec(BigEndian::<u16>::from_spec(v)) == v,
        <u16>::from_spec(LittleEndian::<u16>::from_spec(v)) == v,
{
    lemma_round_trip::<u16>(v);
}

/// For `u32`: each conversion from an order undoes the conversion to it, and
/// the other way round; the big-endian bits are the little-endian bits with
/// the bytes reversed, so the two agree exactly on the values that read the
/// same in both directions.
pub proof fn lemma_u32_orders(x: u32)
    ensures
        <u32>::of_be_bits(x.be_bits()) == x,
        <u32>::of_be_bits(x).be_bits() == x,
        <u32>::of_le_bits(x.le_bits()) == x,
        <u32>::of_le_bits(x).le_bits() == x,
        x.be_bits() == reversed_u32(x.le_bits()),
        x.be_bits() == x.le_bits() <==> reversed_u32(x) == x,
{
    lemma_reversed_u32_involutive(x);
}

/// For `u32`: wrapping a native value and reading it back gives the value,
/// in both orders.
pub proof fn lemma_u32_round_trip(v: u32)
    ensures
        BigEndian::<u32>::spec_new(v)@ == v,
        LittleEndian::<u32>::spec_new(v)@ == v,
{
    lemma_round_trip::<u32>(v);
}

/// For `u32`: wrapping the value that a wrapper stands for gives the wrapper
/// back, in both orders.
pub proof fn lemma_u32_rewrap(a: BigEndian<u32>, b: LittleEndian<u32>)
    ensures
        BigEndian::<u32>::spec_new(a@) == a,
        LittleEndian::<u32>::spec_new(b@) == b,
{
    lemma_rewrap::<u32>(a, b);
}

/// For `u32`: on a little-endian target the big-endian wrapper holds the byte
/// reversal of the native value and the little-endian wrapper holds the value
/// unchanged; on a big-endian target the two exchange.
pub proof fn lemma_u32_stored_bits(v: u32)
    ensures
        endianness() == vstd::endian::Endian::Little ==> BigEndian::<u32>::spec_new(v).bits() == reversed_u32(v)
            && LittleEndian::<u32>::spec_new(v).bits() == v,
        endianness() == vstd::endian::Endian::Big ==> BigEndian::<u32>::spec_new(v).bits() == v
            && LittleEndian::<u32>::spec_new(v).bits() == reversed_u32(v),
{
    BigEndian::<u32>::spec_new(v).lemma_bits(v.be_bits());
    LittleEndian::<u32>::spec_new(v).lemma_bits(v.le_bits());
}

/// For `u32`: whatever the target's order, the bits that the big-endian
/// wrapper stores lie in memory most significant byte first, and those of the
/// little-endian wrapper least significant byte first.
pub proof fn lemma_u32_memory_bytes(v: u32)
    ensures
        memory_bytes_u32(BigEndian::<u32>::spec_new(v).bits()) == be_bytes_u32(v),
        memory_bytes_u32(LittleEndian::<u32>::spec_new(v).bits()) == le_bytes_u32(v),
{
    BigEndian::<u32>::spec_new(v).lemma_bits(v.be_bits());
    LittleEndian::<u32>::spec_new(v).lemma_bits(v.le_bits());
    lemma_reversed_u32_bytes(v);
}

/// For `u32`: two wrappers of one order compare equal exactly when their
/// stored bits are equal, and so exactly when they were made from the same
/// native value.
pub proof fn lemma_u32_equality(
    a: BigEndian<u32>,
    b: BigEndian<u32>,
    c: LittleEndian<u32>,
    d: LittleEndian<u32>,
    v: u32,
    w: u32,
)
    ensures
        BigEndian::<u32>::obeys_eq_spec(),
        LittleEndian::<u32>::obeys_eq_spec(),
        a.eq_spec(&b) <==> a.bits() == b.bits(),
        c.eq_spec(&d) <==> c.bits() == d.bits(),
        BigEndian::<u32>::spec_new(v).eq_spec(&BigEndian::<u32>::spec_new(w)) <==> v == w,
        LittleEndian::<u32>::spec_new(v).eq_spec(&LittleEndian::<u32>::spec_new(w)) <==> v == w,
{
    BigEndian::<u32>::spec_new(v).lemma_bits(v.be_bits());
    BigEndian::<u32>::spec_new(w).lemma_bits(w.be_bits());
    LittleEndian::<u32>::spec_new(v).lemma_bits(v.le_bits());
    LittleEndian::<u32>::spec_new(w).lemma_bits(w.le_bits());
    lemma_reversed_u32_involutive(v);
    lemma_reversed_u32_involutive(w);
}

/// For `u32`: converting a native value into a wrapper with `From` and back
/// with `From` gives the value, in both orders.
pub proof fn lemma_u32_conversions_inverse(v: u32)
    ensures
        <u32>::from_spec(BigEndian::<u32>::from_spec(v)) == v,
        <u32>::from_spec(LittleEndian::<u32>::from_spec(v)) == v,
{
    lemma_round_trip::<u32>(v);
}

/// For `u64`: each conversion from an order undoes the conversion to it, and
/// the other way round; the big-endian bits are the little-endian bits with
/// the bytes reversed, so the two agree exactly on the values that read the
/// same in both directions.
pub proof fn lemma_u64_orders(x: u64)
    ensures
        <u64>::of_be_bits(x.be_bits()) == x,
        <u64>::of_be_bits(x).be_bits() == x,
        <u64>::of_le_bits(x.le_bits()) == x,
        <u64>::of_le_bits(x).le_bits() == x,
        x.be_bits() == reversed_u64(x.le_bits()),
        x.be_bits() == x.le_bits() <==> reversed_u64(x) == x,
{
    lemma_reversed_u64_involutive(x);
}

/// For `u64`: wrapping a native value and reading it back gives the value,
/// in both orders.
pub proof fn lemma_u64_round_trip(v: u64)
    ensures
        BigEndian::<u64>::spec_new(v)@ == v,
        LittleEndian::<u64>::spec_new(v)@ == v,
{
    lemma_round_trip::<u64>(v);
}

/// For `u64`: wrapping the value that a wrapper stands for gives the wrapper
/// back, in both orders.
pub proof fn lemma_u64_rewrap(a: BigEndian<u64>, b: LittleEndian<u64>)
    ensures
        BigEndian::<u64>::spec_new(a@) == a,
        LittleEndian::<u64>::spec_new(b@) == b,
{
    lemma_rewrap::<u64>(a, b);
}

/// For `u64`: on a little-endian target the big-endian wrapper holds the byte
/// reversal of the native value and the little-endian wrapper holds the value
/// unchanged; on a big-endian target the two exchange.
pub proof fn lemma_u64_stored_bits(v: u64)
    ensures
        endianness() == vstd::endian::Endian::Little ==> BigEndian::<u64>::spec_new(v).bits() == reversed_u64(v)
            && LittleEndian::<u64>::spec_new(v).bits() == v,
        endianness() == vstd::endian::Endian::Big ==> BigEndian::<u64>::spec_new(v).bits() == v
            && LittleEndian::<u64>::spec_new(v).bits() == reversed_u64(v),
{
    BigEndian::<u64>::spec_new(v).lemma_bits(v.be_bits());
    LittleEndian::<u64>::spec_new(v).lemma_bits(v.le_bits());
}

/// For `u64`: whatever the target's order, the bits that the big-endian
/// wrapper stores lie in memory most significant byte first, and those of the
/// little-endian wrapper least significant byte first.
pub proof fn lemma_u64_memory_bytes(v: u64)
    ensures
        memory_bytes_u64(BigEndian::<u64>::spec_new(v).bits()) == be_bytes_u64(v),
        memory_bytes_u64(LittleEndian::<u64>::spec_new(v).bits()) == le_bytes_u64(v),
{
    BigEndian::<u64>::spec_new(v).lemma_bits(v.be_bits());
    LittleEndian::<u64>::spec_new(v).lemma_bits(v.le_bits());
    lemma_reversed_u64_bytes(v);
}

/// For `u64`: two wrappers of one order compare equal exactly when their
/// stored bits are equal, and so exactly when they were made from the same
/// native value.
pub proof fn lemma_u64_equality(
    a: BigEndian<u64>,
    b: BigEndian<u64>,
    c: LittleEndian<u64>,
    d: LittleEndian<u64>,
    v: u64,
    w: u64,
)
    ensures
        BigEndian::<u64>::obeys_eq_spec(),
        LittleEndian::<u64>::obeys_eq_spec(),
        a.eq_spec(&b) <==> a.bits() == b.bits(),
        c.eq_spec(&d) <==> c.bits() == d.bits(),
        BigEndian::<u64>::spec_new(v).eq_spec(&BigEndian::<u64>::spec_new(w)) <==> v == w,
        LittleEndian::<u64>::spec_new(v).eq_spec(&LittleEndian::<u64>::spec_new(w)) <==> v == w,
{
    BigEndian::<u64>::spec_new(v).lemma_bits(v.be_bits());
    BigEndian::<u64>::spec_new(w).lemma_bits(w.be_bits());
    LittleEndian::<u64>::spec_new(v).lemma_bits(v.le_bits());
    LittleEndian::<u64>::spec_new(w).lemma_bits(w.le_bits());
    lemma_reversed_u64_involutive(v);
    lemma_reversed_u64_involutive(w);
}

/// For `u64`: converting a native value into a wrapper with `From` and back
/// with `From` gives the value, in both orders.
pub proof fn lemma_u64_conversions_inverse(v: u64)
    ensures
        <u64>::from_spec(BigEndian::<u64>::from_spec(v)) == v,
        <u64>::from_spec(LittleEndian::<u64>::from_spec(v)) == v,
{
    lemma_round_trip::<u64>(v);
}

/// For `u128`: each conversion from an order undoes the conversion to it, and
/// the other way round; the big-endian bits are the little-endian bits with
/// the bytes reversed, so the two agree exactly on the values that read the
/// same in both directions.
pub proof fn lemma_u128_orders(x: u128)
    ensures
        <u128>::of_be_bits(x.be_bits()) == x,
        <u128>::of_be_bits(x).be_bits() == x,
        <u128>::of_le_bits(x.le_bits()) == x,
        <u128>::of_le_bits(x).le_bits() == x,
        x.be_bits() == reversed_u128(x.le_bits()),
        x.be_bits() == x.le_bits() <==> reversed_u128(x) == x,
{
    lemma_reversed_u128_involutive(x);
}

/// For `u128`: wrapping a native value and reading it back gives the value,
/// in both orders.
pub proof fn lemma_u128_round_trip(v: u128)
    ensures
        BigEndian::<u128>::spec_new(v)@ == v,
        LittleEndian::<u128>::spec_new(v)@ == v,
{
    lemma_round_trip::<u128>(v);
}

/// For `u128`: wrapping the value that a wrapper stands for gives the wrapper
/// back, in both orders.
pub proof fn lemma_u128_rewrap(a: BigEndian<u128>, b: LittleEndian<u128>)
    ensures
        BigEndian::<u128>::spec_new(a@) == a,
        LittleEndian::<u128>::spec_new(b@) == b,
{
    lemma_rewrap::<u128>(a, b);
}

/// For `u128`: on a little-endian target the big-endian wrapper holds the byte
/// reversal of the native value and the little-endian wrapper holds the value
/// unchanged; on a big-endian target the two exchange.
pub proof fn lemma_u128_stored_bits(v: u128)
    ensures
        endianness() == vstd::endian::Endian::Little ==> BigEndian::<u128>::spec_new(v).bits() == reversed_u128(v)
            && LittleEndian::<u128>::spec_new(v).bits() == v,
        endianness() == vstd::endian::Endian::Big ==> BigEndian::<u128>::spec_new(v).bits() == v
            && LittleEndian::<u128>::spec_new(v).bits() == reversed_u128(v),
{
    BigEndian::<u128>::spec_new(v).lemma_bits(v.be_bits());
    LittleEndian::<u128>::spec_new(v).lemma_bits(v.le_bits());
}

/// For `u128`: whatever the target's order, the bits that the big-endian
/// wrapper stores lie in memory most significant byte first, and those of the
/// little-endian wrapper least significant byte first.
pub proof fn lemma_u128_memory_bytes(v: u128)
    ensures
        memory_bytes_u128(BigEndian::<u128>::spec_new(v).bits()) == be_bytes_u128(v),
        memory_bytes_u128(LittleEndian::<u128>::spec_new(v).bits()) == le_bytes_u128(v),
{
    BigEndian::<u128>::spec_new(v).lemma_bits(v.be_bits());
    LittleEndian::<u128>::spec_new(v).lemma_bits(v.le_bits());
    lemma_reversed_u128_bytes(v);
}

/// For `u128`: two wrappers of one order compare equal exactly when their
/// stored bits are equal, and so exactly when they were made from the same
/// native value.
pub proof fn lemma_u128_equality(
    a: BigEndian<u128>,
    b: BigEndian<u128>,
    c: LittleEndian<u128>,
    d: LittleEndian<u128>,
    v: u128,
    w: u128,
)
    ensures
        BigEndian::<u128>::obeys_eq_spec(),
        LittleEndian::<u128>::obeys_eq_spec(),
        a.eq_spec(&b) <==> a.bits() == b.bits(),
        c.eq_spec(&d) <==> c.bits() == d.bits(),
        BigEndian::<u128>::spec_new(v).eq_spec(&BigEndian::<u128>::spec_new(w)) <==> v == w,
        LittleEndian::<u128>::spec_new(v).eq_spec(&LittleEndian::<u128>::spec_new(w)) <==> v == w,
{
    BigEndian::<u128>::spec_new(v).lemma_bits(v.be_bits());
    BigEndian::<u128>::spec_new(w).lemma_bits(w.be_bits());
    LittleEndian::<u128>::spec_new(v).lemma_bits(v.le_bits());
    LittleEndian::<u128>::spec_new(w).lemma_bits(w.le_bits());
    lemma_reversed_u128_involutive(v);
    lemma_reversed_u128_involutive(w);
}

/// For `u128`: converting a native value into a wrapper with `From` and back
/// with `From` gives the value, in both orders.
pub proof fn lemma_u128_conversions_inverse(v: u128)
    ensures
        <u128>::from_spec(BigEndian::<u128>::from_spec(v)) == v,
        <u128>::from_spec(LittleEndian::<u128>::from_spec(v)) == v,
{
    lemma_round_trip::<u128>(v);
}

/// For `usize`: each conversion from an order undoes the conversion to it, and
/// the other way round; the big-endian bits are the little-endian bits with
/// the bytes reversed, so the two agree exactly on the values that read the
/// same in both directions.
pub proof fn lemma_usize_orders(x: usize)
    ensures
        <usize>::of_be_bits(x.be_bits()) == x,
        <usize>::of_be_bits(x).be_bits() == x,
        <usize>::of_le_bits(x.le_bits()) == x,
        <usize>::of_le_bits(x).le_bits() == x,
        x.be_bits() == reversed_usize(x.le_bits()),
        x.be_bits() == x.le_bits() <==> reversed_usize(x) == x,
{
    lemma_reversed_usize_involutive(x);
}

/// For `usize`: wrapping a native value and reading it back gives the value,
/// in both orders.
pub proof fn lemma_usize_round_trip(v: usize)
    ensures
        BigEndian::<usize>::spec_new(v)@ == v,
        LittleEndian::<usize>::spec_new(v)@ == v,
{
    lemma_round_trip::<usize>(v);
}

/// For `usize`: wrapping the value that a wrapper stands for gives the wrapper
/// back, in both orders.
pub proof fn lemma_usize_rewrap(a: BigEndian<usize>, b: LittleEndian<usize>)
    ensures
        BigEndian::<usize>::spec_new(a@) == a,
        LittleEndian::<usize>::spec_new(b@) == b,
{
    lemma_rewrap::<usize>(a, b);
}

/// For `usize`: on a little-endian target the big-endian wrapper holds the byte
/// reversal of the native value and the little-endian wrapper holds the value
/// unchanged; on a big-endian target the two exchange.
pub proof fn lemma_usize_stored_bits(v: usize)
    ensures
        endianness() == vstd::endian::Endian::Little ==> BigEndian::<usize>::spec_new(v).bits() == reversed_usize(v)
            && LittleEndian::<usize>::spec_new(v).bits() == v,
        endianness() == vstd::endian::Endian::Big ==> BigEndian::<usize>::spec_new(v).bits() == v
            && LittleEndian::<usize>::spec_new(v).bits() == reversed_usize(v),
{
    BigEndian::<usize>::spec_new(v).lemma_bits(v.be_bits());
    LittleEndian::<usize>::spec_new(v).lemma_bits(v.le_bits());
}

/// For `usize`: whatever the target's order, the bits that the big-endian
/// wrapper stores lie in memory most significant byte first, and those of the
/// little-endian wrapper least significant byte first.
pub proof fn lemma_usize_memory_bytes(v: usize)
    ensures
        memory_bytes_usize(BigEndian::<usize>::spec_new(v).bits()) == be_bytes_usize(v),
        memory_bytes_usize(LittleEndian::<usize>::spec_new(v).bits()) == le_bytes_usize(v),
{
    BigEndian::<usize>::spec_new(v).lemma_bits(v.be_bits());
    LittleEndian::<usize>::spec_new(v).lemma_bits(v.le_bits());
    lemma_reversed_usize_bytes(v);
}

/// For `usize`: two wrappers of one order compare equal exactly when their
/// stored bits are equal, and so exactly when they were made from the same
/// native value.
pub proof fn lemma_usize_equality(
    a: BigEndian<usize>,
    b: BigEndian<usize>,
    c: LittleEndian<usize>,
    d: LittleEndian<usize>,
    v: usize,
    w: usize,
)
    ensures
        BigEndian::<usize>::obeys_eq_spec(),
        LittleEndian::<usize>::obeys_eq_spec(),
        a.eq_spec(&b) <==> a.bits() == b.bits(),
        c.eq_spec(&d) <==> c.bits() == d.bits(),
        BigEndian::<usize>::spec_new(v).eq_spec(&BigEndian::<usize>::spec_new(w)) <==> v == w,
        LittleEndian::<usize>::spec_new(v).eq_spec(&LittleEndian::<usize>::spec_new(w)) <==> v == w,
{
    BigEndian::<usize>::spec_new(v).lemma_bits(v.be_bits());
    BigEndian::<usize>::spec_new(w).lemma_bits(w.be_bits());
    LittleEndian::<usize>::spec_new(v).lemma_bits(v.le_bits());
    LittleEndian::<usize>::spec_new(w).lemma_bits(w.le_bits());
    lemma_reversed_usize_involutive(v);
    lemma_reversed_usize_involutive(w);
}

/// For `usize`: converting a native value into a wrapper with `From` and back
/// with `From` gives the value, in both orders.
pub proof fn lemma_usize_conversions_inverse(v: usize)
    ensures
        <usize>::from_spec(BigEndian::<usize>::from_spec(v)) == v,
        <usize>::from_spec(LittleEndian::<usize>::from_spec(v)) == v,
{
    lemma_round_trip::<usize>(v);
}

} // verus!
