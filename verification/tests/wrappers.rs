use endian_type::{BigEndian, LittleEndian};

struct Packet(BigEndian<u64>, LittleEndian<u64>);

fn byte_endian() -> &'static str {
    if u16::from_ne_bytes([0, 1]) == 1 {
        "big_endian"
    } else {
        "little_endian"
    }
}

#[test]
fn inside_packed() {
    // Every accessor takes the wrapper by value, so a field is copied out of
    // the record before anything is computed on it.
    let packet = Packet(0xfe.into(), 0xfe.into());

    assert_eq!(packet.0.to_native(), 0xfe);
    if byte_endian() == "big_endian" {
        assert_eq!(packet.0.to_bits(), 0xfeu64);
    } else {
        assert_eq!(packet.0.to_bits(), 0xfe00000000000000u64);
    }

    assert_eq!(packet.1.to_native(), 0xfe);
    if byte_endian() == "big_endian" {
        assert_eq!(packet.1.to_bits(), 0xfe00000000000000u64);
    } else {
        assert_eq!(packet.1.to_bits(), 0xfeu64);
    }
}

#[test]
fn new_to_native() {
    let be_value = BigEndian::new(12345u64);
    assert_eq!(be_value, 12345u64.into());
    assert_eq!(be_value.to_native(), 12345u64);

    let be_native: u64 = be_value.into();
    assert_eq!(be_native, 12345u64);

    let le_value = LittleEndian::new(12345u64);
    assert_eq!(le_value, 12345u64.into());
    assert_eq!(le_value.to_native(), 12345u64);

    let native: u64 = le_value.into();
    assert_eq!(native, 12345u64);
}

#[test]
fn new_to_bits() {
    let value = BigEndian::new(0xfeu64);
    if byte_endian() == "big_endian" {
        assert_eq!(value.to_bits(), 0xfeu64);
    } else {
        assert_eq!(value.to_bits(), 0xfe00000000000000u64);
    }

    let value = LittleEndian::new(0xfeu64);
    if byte_endian() == "big_endian" {
        assert_eq!(value.to_bits(), 0xfe00000000000000u64);
    } else {
        assert_eq!(value.to_bits(), 0xfeu64);
    }
}

#[test]
fn big_endian_bits_lie_in_memory_most_significant_first() {
    assert_eq!(BigEndian::new(0xabu8).to_bits().to_ne_bytes(), [0xab]);
    assert_eq!(BigEndian::new(0x0102u16).to_bits().to_ne_bytes(), [1, 2]);
    assert_eq!(BigEndian::new(0x01020304u32).to_bits().to_ne_bytes(), [1, 2, 3, 4]);
    assert_eq!(
        BigEndian::new(0x0102030405060708u64).to_bits().to_ne_bytes(),
        [1, 2, 3, 4, 5, 6, 7, 8]
    );
    assert_eq!(
        BigEndian::new(0x0102030405060708090a0b0c0d0e0f10u128).to_bits().to_ne_bytes(),
        [1, 2, 3, 4, 5, 6, 7, 8, 9, 10, 11, 12, 13, 14, 15, 16]
    );
    let word: usize = 0x0102;
    assert_eq!(BigEndian::new(word).to_bits().to_ne_bytes(), word.to_be_bytes());
}

#[test]
fn little_endian_bits_lie_in_memory_least_significant_first() {
    assert_eq!(LittleEndian::new(0xabu8).to_bits().to_ne_bytes(), [0xab]);
    assert_eq!(LittleEndian::new(0x0102u16).to_bits().to_ne_bytes(), [2, 1]);
    assert_eq!(LittleEndian::new(0x01020304u32).to_bits().to_ne_bytes(), [4, 3, 2, 1]);
    assert_eq!(
        LittleEndian::new(0x0102030405060708u64).to_bits().to_ne_bytes(),
        [8, 7, 6, 5, 4, 3, 2, 1]
    );
    assert_eq!(
        LittleEndian::new(0x0102030405060708090a0b0c0d0e0f10u128).to_bits().to_ne_bytes(),
        [16, 15, 14, 13, 12, 11, 10, 9, 8, 7, 6, 5, 4, 3, 2, 1]
    );
    let word: usize = 0x0102;
    assert_eq!(LittleEndian::new(word).to_bits().to_ne_bytes(), word.to_le_bytes());
}

#[test]
fn stored_bits_of_the_two_orders_are_byte_reversals() {
    let v = 0x1122334455667788u64;
    assert_eq!(BigEndian::new(v).to_bits(), LittleEndian::new(v).to_bits().swap_bytes());
    let expected_be = if byte_endian() == "big_endian" { v } else { 0x8877665544332211u64 };
    let expected_le = if byte_endian() == "big_endian" { 0x8877665544332211u64 } else { v };
    assert_eq!(BigEndian::new(v).to_bits(), expected_be);
    assert_eq!(LittleEndian::new(v).to_bits(), expected_le);

    let w = 0x11223344u32;
    let expected_be = if byte_endian() == "big_endian" { w } else { 0x44332211u32 };
    assert_eq!(BigEndian::new(w).to_bits(), expected_be);
    let h = 0x1122u16;
    let expected_be = if byte_endian() == "big_endian" { h } else { 0x2211u16 };
    assert_eq!(BigEndian::new(h).to_bits(), expected_be);
}

#[test]
fn round_trip_u8() {
    for v in [0u8, 1, 0x7f, 0x80, 0xfe, u8::MAX] {
        assert_eq!(BigEndian::new(v).to_native(), v);
        assert_eq!(LittleEndian::new(v).to_native(), v);
        assert_eq!(BigEndian::new(v).to_bits(), v);
        assert_eq!(LittleEndian::new(v).to_bits(), v);
    }
}

#[test]
fn round_trip_u16() {
    for v in [0u16, 1, 0xfe, 0x1234, 0xff00, u16::MAX] {
        assert_eq!(BigEndian::new(v).to_native(), v);
        assert_eq!(LittleEndian::new(v).to_native(), v);
    }
}

#[test]
fn round_trip_u32() {
    for v in [0u32, 1, 0xfe, 0x12345678, 0xff000000, u32::MAX] {
        assert_eq!(BigEndian::new(v).to_native(), v);
        assert_eq!(LittleEndian::new(v).to_native(), v);
    }
}

#[test]
fn round_trip_u64() {
    for v in [0u64, 1, 0xfe, 12345, 0x0123456789abcdef, u64::MAX] {
        assert_eq!(BigEndian::new(v).to_native(), v);
        assert_eq!(LittleEndian::new(v).to_native(), v);
    }
}

#[test]
fn round_trip_u128() {
    for v in [0u128, 1, 0xfe, 0x0123456789abcdef_fedcba9876543210, u128::MAX] {
        assert_eq!(BigEndian::new(v).to_native(), v);
        assert_eq!(LittleEndian::new(v).to_native(), v);
    }
}

#[test]
fn round_trip_usize() {
    for v in [0usize, 1, 0xfe, 0x1234, usize::MAX - 1, usize::MAX] {
        assert_eq!(BigEndian::new(v).to_native(), v);
        assert_eq!(LittleEndian::new(v).to_native(), v);
    }
}

#[test]
fn equality_compares_stored_bits() {
    assert_eq!(BigEndian::new(12345u64), BigEndian::new(12345u64));
    assert_ne!(BigEndian::new(12345u64), BigEndian::new(12346u64));
    assert_eq!(LittleEndian::new(12345u64), LittleEndian::new(12345u64));
    assert_ne!(LittleEndian::new(12345u64), LittleEndian::new(12346u64));
    assert!(BigEndian::new(7u16) == BigEndian::new(7u16));
    assert!(BigEndian::new(0x0100u16) != BigEndian::new(0x0001u16));
    let a = BigEndian::new(0xfeu32);
    let b = a;
    assert_eq!(a, b);
    assert_eq!(a.clone().to_bits(), a.to_bits());
}

#[test]
fn conversions_are_inverse_for_every_width() {
    let a: BigEndian<u8> = 0x12u8.into();
    assert_eq!(u8::from(a), 0x12);
    let a: LittleEndian<u8> = 0x12u8.into();
    assert_eq!(u8::from(a), 0x12);
    let a: BigEndian<u16> = 0x1234u16.into();
    assert_eq!(u16::from(a), 0x1234);
    let a: LittleEndian<u16> = 0x1234u16.into();
    assert_eq!(u16::from(a), 0x1234);
    let a: BigEndian<u32> = 0x12345678u32.into();
    assert_eq!(u32::from(a), 0x12345678);
    let a: LittleEndian<u32> = 0x12345678u32.into();
    assert_eq!(u32::from(a), 0x12345678);
    let a: BigEndian<u64> = 12345u64.into();
    assert_eq!(u64::from(a), 12345);
    let a: LittleEndian<u64> = 12345u64.into();
    assert_eq!(u64::from(a), 12345);
    let a: BigEndian<u128> = (u128::MAX - 5).into();
    assert_eq!(u128::from(a), u128::MAX - 5);
    let a: LittleEndian<u128> = (u128::MAX - 5).into();
    assert_eq!(u128::from(a), u128::MAX - 5);
    let a: BigEndian<usize> = 4096usize.into();
    assert_eq!(usize::from(a), 4096);
    let a: LittleEndian<usize> = 4096usize.into();
    assert_eq!(usize::from(a), 4096);
}

#[test]
fn conversion_from_native_is_construction() {
    assert_eq!(BigEndian::from(0xfeu64).to_bits(), BigEndian::new(0xfeu64).to_bits());
    assert_eq!(LittleEndian::from(0xfeu64).to_bits(), LittleEndian::new(0xfeu64).to_bits());
    assert_eq!(BigEndian::from(0x0102u16).to_bits().to_ne_bytes(), [1, 2]);
}

#[test]
fn default_holds_the_default_bits() {
    assert_eq!(BigEndian::<u64>::default().to_bits(), 0);
    assert_eq!(LittleEndian::<u32>::default().to_bits(), 0);
    assert_eq!(BigEndian::<u16>::default().to_native(), 0);
    assert_eq!(BigEndian::<u64>::default(), BigEndian::new(0u64));
}

#[test]
fn wrapper_is_as_large_as_the_integer() {
    assert_eq!(std::mem::size_of::<BigEndian<u8>>(), std::mem::size_of::<u8>());
    assert_eq!(std::mem::size_of::<BigEndian<u16>>(), std::mem::size_of::<u16>());
    assert_eq!(std::mem::size_of::<BigEndian<u32>>(), std::mem::size_of::<u32>());
    assert_eq!(std::mem::size_of::<BigEndian<u64>>(), std::mem::size_of::<u64>());
    assert_eq!(std::mem::size_of::<BigEndian<u128>>(), std::mem::size_of::<u128>());
    assert_eq!(std::mem::size_of::<BigEndian<usize>>(), std::mem::size_of::<usize>());
    assert_eq!(std::mem::size_of::<LittleEndian<u8>>(), std::mem::size_of::<u8>());
    assert_eq!(std::mem::size_of::<LittleEndian<u16>>(), std::mem::size_of::<u16>());
    assert_eq!(std::mem::size_of::<LittleEndian<u32>>(), std::mem::size_of::<u32>());
    assert_eq!(std::mem::size_of::<LittleEndian<u64>>(), std::mem::size_of::<u64>());
    assert_eq!(std::mem::size_of::<LittleEndian<u128>>(), std::mem::size_of::<u128>());
    assert_eq!(std::mem::size_of::<LittleEndian<usize>>(), std::mem::size_of::<usize>());
}

#[test]
fn bits_taken_as_they_are_read_back_in_the_named_order() {
    let be = BigEndian::from_bits(u16::from_ne_bytes([1, 2]));
    assert_eq!(be.to_native(), 0x0102);
    assert_eq!(be.to_bits().to_ne_bytes(), [1, 2]);
    let le = LittleEndian::from_bits(u16::from_ne_bytes([1, 2]));
    assert_eq!(le.to_native(), 0x0201);
    assert_eq!(le.to_bits().to_ne_bytes(), [1, 2]);

    let be = BigEndian::from_bits(u64::from_ne_bytes([0, 0, 0, 0, 0, 0, 0x30, 0x39]));
    assert_eq!(be.to_native(), 12345);
    assert_eq!(be, BigEndian::new(12345u64));
    let le = LittleEndian::from_bits(u32::from_ne_bytes([0x39, 0x30, 0, 0]));
    assert_eq!(le.to_native(), 12345);
    assert_eq!(le, LittleEndian::new(12345u32));
    let be = BigEndian::from_bits(u128::from_ne_bytes([0, 0, 0, 0, 0, 0, 0, 0, 0, 0, 0, 0, 0, 0, 1, 0]));
    assert_eq!(be.to_native(), 256);
    let be = BigEndian::from_bits(usize::from_ne_bytes(258usize.to_be_bytes()));
    assert_eq!(be.to_native(), 258);
    let le = LittleEndian::from_bits(usize::from_ne_bytes(258usize.to_le_bytes()));
    assert_eq!(le.to_native(), 258);
    assert_eq!(BigEndian::from_bits(0xabu8).to_native(), 0xab);
}

#[test]
fn wrapping_the_value_read_gives_the_wrapper_back() {
    let be = BigEndian::from_bits(0x1234u16);
    assert_eq!(BigEndian::new(be.to_native()), be);
    assert_eq!(BigEndian::new(be.to_native()).to_bits(), 0x1234);
    let le = LittleEndian::from_bits(0x1234u16);
    assert_eq!(LittleEndian::new(le.to_native()), le);
    assert_eq!(LittleEndian::new(le.to_native()).to_bits(), 0x1234);
    let be = BigEndian::from_bits(0x0123456789abcdefu64);
    assert_eq!(BigEndian::new(be.to_native()).to_bits(), 0x0123456789abcdef);
    let le = LittleEndian::from_bits(u128::MAX - 0xfe);
    assert_eq!(LittleEndian::new(le.to_native()).to_bits(), u128::MAX - 0xfe);
    let be = BigEndian::from_bits(0xfeu8);
    assert_eq!(BigEndian::new(be.to_native()).to_bits(), 0xfe);
}
