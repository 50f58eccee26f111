use endian_type::Endian;

#[test]
fn capability_matches_the_byte_sequences() {
    let x = 0x0102u16;
    assert_eq!(<u16 as Endian<u16>>::to_be(&x).to_ne_bytes(), [1, 2]);
    assert_eq!(<u16 as Endian<u16>>::to_le(&x).to_ne_bytes(), [2, 1]);
    assert_eq!(<u16 as Endian<u16>>::from_be(u16::from_ne_bytes([1, 2])), x);
    assert_eq!(<u16 as Endian<u16>>::from_le(u16::from_ne_bytes([2, 1])), x);

    let x = 0x01020304u32;
    assert_eq!(<u32 as Endian<u32>>::to_be(&x).to_ne_bytes(), [1, 2, 3, 4]);
    assert_eq!(<u32 as Endian<u32>>::to_le(&x).to_ne_bytes(), [4, 3, 2, 1]);
    assert_eq!(<u32 as Endian<u32>>::from_be(u32::from_ne_bytes([1, 2, 3, 4])), x);
    assert_eq!(<u32 as Endian<u32>>::from_le(u32::from_ne_bytes([4, 3, 2, 1])), x);

    let x = 0x0102030405060708u64;
    assert_eq!(<u64 as Endian<u64>>::to_be(&x).to_ne_bytes(), [1, 2, 3, 4, 5, 6, 7, 8]);
    assert_eq!(<u64 as Endian<u64>>::to_le(&x).to_ne_bytes(), [8, 7, 6, 5, 4, 3, 2, 1]);
    assert_eq!(<u64 as Endian<u64>>::from_be(u64::from_ne_bytes([1, 2, 3, 4, 5, 6, 7, 8])), x);
    assert_eq!(<u64 as Endian<u64>>::from_le(u64::from_ne_bytes([8, 7, 6, 5, 4, 3, 2, 1])), x);

    let x = 0x0102030405060708090a0b0c0d0e0f10u128;
    assert_eq!(<u128 as Endian<u128>>::to_be(&x).to_ne_bytes(), x.to_be_bytes());
    assert_eq!(<u128 as Endian<u128>>::to_le(&x).to_ne_bytes(), x.to_le_bytes());
    assert_eq!(<u128 as Endian<u128>>::from_be(u128::from_ne_bytes(x.to_be_bytes())), x);
    assert_eq!(<u128 as Endian<u128>>::from_le(u128::from_ne_bytes(x.to_le_bytes())), x);

    let x = 0x0102usize;
    assert_eq!(<usize as Endian<usize>>::to_be(&x).to_ne_bytes(), x.to_be_bytes());
    assert_eq!(<usize as Endian<usize>>::to_le(&x).to_ne_bytes(), x.to_le_bytes());
    assert_eq!(<usize as Endian<usize>>::from_be(usize::from_ne_bytes(x.to_be_bytes())), x);
    assert_eq!(<usize as Endian<usize>>::from_le(usize::from_ne_bytes(x.to_le_bytes())), x);
}

#[test]
fn single_byte_is_the_same_in_both_orders() {
    for x in [0u8, 1, 0x80, 0xfe, u8::MAX] {
        assert_eq!(<u8 as Endian<u8>>::to_be(&x), x);
        assert_eq!(<u8 as Endian<u8>>::to_le(&x), x);
        assert_eq!(<u8 as Endian<u8>>::from_be(x), x);
        assert_eq!(<u8 as Endian<u8>>::from_le(x), x);
    }
}

#[test]
fn conversions_undo_each_other() {
    for x in [0u64, 1, 0xfe, 0x0123456789abcdef, u64::MAX] {
        assert_eq!(<u64 as Endian<u64>>::from_be(<u64 as Endian<u64>>::to_be(&x)), x);
        assert_eq!(<u64 as Endian<u64>>::from_le(<u64 as Endian<u64>>::to_le(&x)), x);
        let back = <u64 as Endian<u64>>::from_be(x);
        assert_eq!(<u64 as Endian<u64>>::to_be(&back), x);
    }
    for x in [0u32, 0xfe, 0x01234567, u32::MAX] {
        assert_eq!(<u32 as Endian<u32>>::from_be(<u32 as Endian<u32>>::to_be(&x)), x);
        assert_eq!(<u32 as Endian<u32>>::from_le(<u32 as Endian<u32>>::to_le(&x)), x);
    }
}

#[test]
fn orders_agree_only_on_palindromes() {
    let x = 0x1212u16;
    assert_eq!(<u16 as Endian<u16>>::to_be(&x), <u16 as Endian<u16>>::to_le(&x));
    let y = 0x1234u16;
    assert_ne!(<u16 as Endian<u16>>::to_be(&y), <u16 as Endian<u16>>::to_le(&y));
    assert_eq!(<u16 as Endian<u16>>::to_be(&y), <u16 as Endian<u16>>::to_le(&y).swap_bytes());
}
