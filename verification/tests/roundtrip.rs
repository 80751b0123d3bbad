use bytecord::{ByteCord, ByteCordBuilder};

// For every supported numeric type and byte order: building a value with the
// corresponding append function and reading it back with the corresponding
// typed read function (same alignment) yields the original value.

#[test]
fn roundtrip_u8() {
    let values: [u8; 5] = [0, 1, 0x7F, 0x80, u8::MAX];
    for align in [1usize, 4, 16] {
        for &v in values.iter() {
            let mut b = ByteCordBuilder::new(align);
            b.append_u8(v);
            let bytes = b.into_boxed_slice();
            let cord = ByteCord::new(&bytes[..]);
            let mut r = cord.read_with_alignment(align);
            assert_eq!(r.next_u8(), Some(v));
        }
    }
}

#[test]
fn roundtrip_i8() {
    let values: [i8; 5] = [0, 1, -1, i8::MIN, i8::MAX];
    for align in [1usize, 4, 16] {
        for &v in values.iter() {
            let mut b = ByteCordBuilder::new(align);
            b.append_i8(v);
            let bytes = b.into_boxed_slice();
            let cord = ByteCord::new(&bytes[..]);
            let mut r = cord.read_with_alignment(align);
            assert_eq!(r.next_i8(), Some(v));
        }
    }
}

#[test]
fn roundtrip_le_u16() {
    let values: [u16; 5] = [0, 1, u16::MAX, (u16::MAX >> 1) + 1, 0x1234];
    for align in [1usize, 4, 16] {
        for &v in values.iter() {
            let mut b = ByteCordBuilder::new(align);
            b.append_le_u16(v);
            let bytes = b.into_boxed_slice();
            let cord = ByteCord::new(&bytes[..]);
            let mut r = cord.read_with_alignment(align);
            assert_eq!(r.next_le_u16(), Some(v));
        }
    }
}

#[test]
fn roundtrip_be_u16() {
    let values: [u16; 5] = [0, 1, u16::MAX, (u16::MAX >> 1) + 1, 0x1234];
    for align in [1usize, 4, 16] {
        for &v in values.iter() {
            let mut b = ByteCordBuilder::new(align);
            b.append_be_u16(v);
            let bytes = b.into_boxed_slice();
            let cord = ByteCord::new(&bytes[..]);
            let mut r = cord.read_with_alignment(align);
            assert_eq!(r.next_be_u16(), Some(v));
        }
    }
}

#[test]
fn roundtrip_le_i16() {
    let values: [i16; 6] = [0, 1, -1, i16::MIN, i16::MAX, -3919];
    for align in [1usize, 4, 16] {
        for &v in values.iter() {
            let mut b = ByteCordBuilder::new(align);
            b.append_le_i16(v);
            let bytes = b.into_boxed_slice();
            let cord = ByteCord::new(&bytes[..]);
            let mut r = cord.read_with_alignment(align);
            assert_eq!(r.next_le_i16(), Some(v));
        }
    }
}

#[test]
fn roundtrip_be_i16() {
    let values: [i16; 6] = [0, 1, -1, i16::MIN, i16::MAX, -3919];
    for align in [1usize, 4, 16] {
        for &v in values.iter() {
            let mut b = ByteCordBuilder::new(align);
            b.append_be_i16(v);
            let bytes = b.into_boxed_slice();
            let cord = ByteCord::new(&bytes[..]);
            let mut r = cord.read_with_alignment(align);
            assert_eq!(r.next_be_i16(), Some(v));
        }
    }
}

#[test]
fn roundtrip_le_u32() {
    let values: [u32; 5] = [0, 1, u32::MAX, (u32::MAX >> 1) + 1, 0x0102 << 16];
    for align in [1usize, 4, 16] {
        for &v in values.iter() {
            let mut b = ByteCordBuilder::new(align);
            b.append_le_u32(v);
            let bytes = b.into_boxed_slice();
            let cord = ByteCord::new(&bytes[..]);
            let mut r = cord.read_with_alignment(align);
            assert_eq!(r.next_le_u32(), Some(v));
        }
    }
}

#[test]
fn roundtrip_be_u32() {
    let values: [u32; 5] = [0, 1, u32::MAX, (u32::MAX >> 1) + 1, 0x0102 << 16];
    for align in [1usize, 4, 16] {
        for &v in values.iter() {
            let mut b = ByteCordBuilder::new(align);
            b.append_be_u32(v);
            let bytes = b.into_boxed_slice();
            let cord = ByteCord::new(&bytes[..]);
            let mut r = cord.read_with_alignment(align);
            assert_eq!(r.next_be_u32(), Some(v));
        }
    }
}

#[test]
fn roundtrip_le_i32() {
    let values: [i32; 6] = [0, 1, -1, i32::MIN, i32::MAX, -3919];
    for align in [1usize, 4, 16] {
        for &v in values.iter() {
            let mut b = ByteCordBuilder::new(align);
            b.append_le_i32(v);
            let bytes = b.into_boxed_slice();
            let cord = ByteCord::new(&bytes[..]);
            let mut r = cord.read_with_alignment(align);
            assert_eq!(r.next_le_i32(), Some(v));
        }
    }
}

#[test]
fn roundtrip_be_i32() {
    let values: [i32; 6] = [0, 1, -1, i32::MIN, i32::MAX, -3919];
    for align in [1usize, 4, 16] {
        for &v in values.iter() {
            let mut b = ByteCordBuilder::new(align);
            b.append_be_i32(v);
            let bytes = b.into_boxed_slice();
            let cord = ByteCord::new(&bytes[..]);
            let mut r = cord.read_with_alignment(align);
            assert_eq!(r.next_be_i32(), Some(v));
        }
    }
}

#[test]
fn roundtrip_le_u64() {
    let values: [u64; 5] = [0, 1, u64::MAX, (u64::MAX >> 1) + 1, 0x0102 << 32];
    for align in [1usize, 4, 16] {
        for &v in values.iter() {
            let mut b = ByteCordBuilder::new(align);
            b.append_le_u64(v);
            let bytes = b.into_boxed_slice();
            let cord = ByteCord::new(&bytes[..]);
            let mut r = cord.read_with_alignment(align);
            assert_eq!(r.next_le_u64(), Some(v));
        }
    }
}

#[test]
fn roundtrip_be_u64() {
    let values: [u64; 5] = [0, 1, u64::MAX, (u64::MAX >> 1) + 1, 0x0102 << 32];
    for align in [1usize, 4, 16] {
        for &v in values.iter() {
            let mut b = ByteCordBuilder::new(align);
            b.append_be_u64(v);
            let bytes = b.into_boxed_slice();
            let cord = ByteCord::new(&bytes[..]);
            let mut r = cord.read_with_alignment(align);
            assert_eq!(r.next_be_u64(), Some(v));
        }
    }
}

#[test]
fn roundtrip_le_i64() {
    let values: [i64; 6] = [0, 1, -1, i64::MIN, i64::MAX, -3919];
    for align in [1usize, 4, 16] {
        for &v in values.iter() {
            let mut b = ByteCordBuilder::new(align);
            b.append_le_i64(v);
            let bytes = b.into_boxed_slice();
            let cord = ByteCord::new(&bytes[..]);
            let mut r = cord.read_with_alignment(align);
            assert_eq!(r.next_le_i64(), Some(v));
        }
    }
}

#[test]
fn roundtrip_be_i64() {
    let values: [i64; 6] = [0, 1, -1, i64::MIN, i64::MAX, -3919];
    for align in [1usize, 4, 16] {
        for &v in values.iter() {
            let mut b = ByteCordBuilder::new(align);
            b.append_be_i64(v);
            let bytes = b.into_boxed_slice();
            let cord = ByteCord::new(&bytes[..]);
            let mut r = cord.read_with_alignment(align);
            assert_eq!(r.next_be_i64(), Some(v));
        }
    }
}

#[test]
fn roundtrip_le_u128() {
    let values: [u128; 5] = [0, 1, u128::MAX, (u128::MAX >> 1) + 1, 0x0102 << 64];
    for align in [1usize, 4, 16] {
        for &v in values.iter() {
            let mut b = ByteCordBuilder::new(align);
            b.append_le_u128(v);
            let bytes = b.into_boxed_slice();
            let cord = ByteCord::new(&bytes[..]);
            let mut r = cord.read_with_alignment(align);
            assert_eq!(r.next_le_u128(), Some(v));
        }
    }
}

#[test]
fn roundtrip_be_u128() {
    let values: [u128; 5] = [0, 1, u128::MAX, (u128::MAX >> 1) + 1, 0x0102 << 64];
    for align in [1usize, 4, 16] {
        for &v in values.iter() {
            let mut b = ByteCordBuilder::new(align);
            b.append_be_u128(v);
            let bytes = b.into_boxed_slice();
            let cord = ByteCord::new(&bytes[..]);
            let mut r = cord.read_with_alignment(align);
            assert_eq!(r.next_be_u128(), Some(v));
        }
    }
}

#[test]
fn roundtrip_le_i128() {
    let values: [i128; 6] = [0, 1, -1, i128::MIN, i128::MAX, -3919];
    for align in [1usize, 4, 16] {
        for &v in values.iter() {
            let mut b = ByteCordBuilder::new(align);
            b.append_le_i128(v);
            let bytes = b.into_boxed_slice();
            let cord = ByteCord::new(&bytes[..]);
            let mut r = cord.read_with_alignment(align);
            assert_eq!(r.next_le_i128(), Some(v));
        }
    }
}

#[test]
fn roundtrip_be_i128() {
    let values: [i128; 6] = [0, 1, -1, i128::MIN, i128::MAX, -3919];
    for align in [1usize, 4, 16] {
        for &v in values.iter() {
            let mut b = ByteCordBuilder::new(align);
            b.append_be_i128(v);
            let bytes = b.into_boxed_slice();
            let cord = ByteCord::new(&bytes[..]);
            let mut r = cord.read_with_alignment(align);
            assert_eq!(r.next_be_i128(), Some(v));
        }
    }
}

#[test]
fn roundtrip_mixed_values_aligned() {
    let mut b = ByteCordBuilder::new(4);
    b.append_u8(0xAB);
    b.append_le_u32(0xDEADBEEF);
    b.append_be_i16(-2);
    b.append_le_u128(u128::MAX - 7);
    let bytes = b.into_boxed_slice();
    let cord = ByteCord::new(&bytes[..]);
    let mut r = cord.read_with_alignment(4);
    assert_eq!(r.next_u8(), Some(0xAB));
    assert_eq!(r.next_le_u32(), Some(0xDEADBEEF));
    assert_eq!(r.next_be_i16(), Some(-2));
    assert_eq!(r.next_le_u128(), Some(u128::MAX - 7));
    assert_eq!(r.remaining(), 0);
}

#[test]
fn byte_order_of_appends() {
    let mut b = ByteCordBuilder::new(1);
    b.append_be_u32(0x01020304);
    b.append_le_u32(0x01020304);
    b.append_le_i16(-2);
    b.append_be_i16(-2);
    let bytes = b.into_boxed_slice();
    assert_eq!(
        &bytes[..],
        &[1, 2, 3, 4, 4, 3, 2, 1, 0xFE, 0xFF, 0xFF, 0xFE]
    );
}

#[test]
fn byte_order_of_reads() {
    let data = vec![0x01u8, 0x02, 0x03, 0x04];
    let cord = ByteCord::new(&data[..]);
    assert_eq!(cord.read().next_be_u32(), Some(0x01020304));
    assert_eq!(cord.read().next_le_u32(), Some(0x04030201));
    assert_eq!(cord.read().next_be_u16(), Some(0x0102));
    assert_eq!(cord.read().next_le_u16(), Some(0x0201));
}

#[test]
fn typed_reads_fail_without_enough_bytes() {
    let data = vec![0u8; 3];
    let cord = ByteCord::new(&data[..]);
    assert_eq!(cord.read().next_le_u32(), None);
    assert_eq!(cord.read().next_be_u32(), None);
    assert_eq!(cord.read().next_le_i64(), None);
    assert_eq!(cord.read().next_be_u128(), None);
    assert_eq!(cord.read().next_le_u16(), Some(0));
}
