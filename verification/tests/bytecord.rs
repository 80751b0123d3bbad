use bytecord::{ByteCord, ByteCordBuilder, ByteCordReader};

// ---------------------------------------------------------------------------
// Concrete builder scenarios.
// ---------------------------------------------------------------------------

#[test]
fn builds_mixed_values_unaligned() {
    let mut data = ByteCordBuilder::new(1);
    data.append_le_u32(1111);
    data.append_u8(1);
    data.append_le_i64(-3919);
    let slice = data.into_boxed_slice();
    assert_eq!(slice.len(), 13);
    let expected: [u8; 13] = [
        0x57, 0x04, 0x00, 0x00, // 1111 little-endian
        0x01, // the single byte
        0xB1, 0xF0, 0xFF, 0xFF, 0xFF, 0xFF, 0xFF, 0xFF, // -3919 little-endian
    ];
    assert_eq!(&slice[..], &expected[..]);
}

#[test]
fn builder_pads_every_append_to_alignment() {
    let mut data = ByteCordBuilder::new(4);
    data.append_u8(1);
    let probe = data.into_boxed_slice();
    assert_eq!(probe.len(), 4);
    assert_eq!(&probe[..], &[1, 0, 0, 0]);

    let mut data = ByteCordBuilder::new(4);
    data.append_u8(1);
    data.append_u8(2);
    let out = data.into_boxed_slice();
    assert_eq!(out.len(), 8);
    assert_eq!(out[4], 2);
}

#[test]
fn builder_length_is_multiple_of_alignment_after_each_call() {
    let mut data = ByteCordBuilder::new(8);
    data.append_from_slice(&[1, 2, 3]);
    // padded: 3 data bytes + 5 zeros
    let mut lengths = vec![];
    lengths.push(3usize.next_multiple_of(8));
    data.append(&[9u8, 8, 7, 6, 5]);
    lengths.push(lengths[0] + 5usize.next_multiple_of(8));
    data.append_be_u16(0x0102);
    lengths.push(lengths[1] + 2usize.next_multiple_of(8));
    let out = data.into_boxed_slice();
    assert_eq!(out.len(), *lengths.last().unwrap());
    assert_eq!(
        &out[..],
        &[
            1, 2, 3, 0, 0, 0, 0, 0, //
            9, 8, 7, 6, 5, 0, 0, 0, //
            0x01, 0x02, 0, 0, 0, 0, 0, 0,
        ]
    );
}

#[test]
fn builder_with_capacity_starts_empty() {
    let data = ByteCordBuilder::with_capacity(64, 2);
    assert_eq!(data.into_boxed_slice().len(), 0);
}

#[test]
fn append_from_slice_empty_keeps_length_aligned() {
    let mut data = ByteCordBuilder::new(4);
    data.append_from_slice(&[]);
    assert_eq!(data.into_boxed_slice().len(), 0);
}

// ---------------------------------------------------------------------------
// Concrete reader scenarios.
// ---------------------------------------------------------------------------

#[test]
fn reader_advances_to_aligned_positions_and_failure_keeps_cursor() {
    let data = vec![0u8; 10];
    let cord = ByteCord::new(data);
    let mut reader = cord.read_with_alignment(4);

    let first = reader.next_n(3).expect("3 bytes at position 0");
    assert_eq!(first.len(), 3);
    assert_eq!(reader.remaining(), 6); // cursor advanced to 4

    let second = reader.next_n(3).expect("3 bytes at position 4");
    assert_eq!(second.len(), 3);
    assert_eq!(reader.remaining(), 2); // cursor advanced to 8

    // Third read would need bytes 8..11 of a 10-byte buffer: it fails and the
    // cursor does not move.
    let before = reader.remaining();
    assert!(reader.next_n(3).is_none());
    assert_eq!(reader.remaining(), before);
}

#[test]
fn reader_returns_slices_of_the_original_buffer() {
    let data: Vec<u8> = (0..12).collect();
    let cord = ByteCord::new(data);
    let mut reader = cord.read_with_alignment(4);
    assert_eq!(reader.next_n(2), Some(&[0u8, 1][..]));
    assert_eq!(reader.next_n(4), Some(&[4u8, 5, 6, 7][..]));
    assert_eq!(reader.next_n(4), Some(&[8u8, 9, 10, 11][..]));
    assert!(reader.next_n(1).is_none());
}

#[test]
fn skip_moves_like_next_n() {
    let data = vec![7u8; 10];
    let cord = ByteCord::new(data);
    let mut reader = cord.read_with_alignment(4);
    assert!(reader.skip(3));
    assert_eq!(reader.remaining(), 6);
    assert!(reader.skip(4));
    assert_eq!(reader.remaining(), 2);
    assert!(!reader.skip(3));
    assert_eq!(reader.remaining(), 2);
    assert!(reader.skip(2));
    assert_eq!(reader.remaining(), 0);
}

#[test]
fn unaligned_reader_reads_back_to_back() {
    let data = vec![1u8, 2, 3];
    let cord = ByteCord::new(&data[..]);
    let mut reader = cord.read();
    assert_eq!(reader.next_u8(), Some(1));
    assert_eq!(reader.next_u8(), Some(2));
    assert_eq!(reader.next_u8(), Some(3));
    assert_eq!(reader.next_u8(), None);
    assert_eq!(reader.remaining(), 0);
}

#[test]
fn reader_new_matches_with_alignment_one() {
    let data = vec![5u8; 4];
    let cord = ByteCord::new(data);
    let mut a = ByteCordReader::new(&cord);
    let mut b = ByteCordReader::with_alignment(&cord, 1);
    assert_eq!(a.next_n(3), b.next_n(3));
    assert_eq!(a.remaining(), b.remaining());
}

// ---------------------------------------------------------------------------
// Bounds symmetry of the positional accessors.
// ---------------------------------------------------------------------------

#[test]
fn at_n_bounds_are_exact() {
    let data = vec![1u8, 2, 3, 4, 5];
    let cord = ByteCord::new(data);
    assert_eq!(cord.at_n(0, 5), Some(&[1u8, 2, 3, 4, 5][..]));
    assert_eq!(cord.at_n(2, 3), Some(&[3u8, 4, 5][..]));
    assert_eq!(cord.at_n(5, 0), Some(&[][..]));
    assert!(cord.at_n(3, 3).is_none());
    assert!(cord.at_n(6, 0).is_none());
    assert!(cord.at_n(0, 6).is_none());
    assert_eq!(cord.len(), 5);
    assert!(!cord.is_empty());
}

#[test]
fn at_n_mut_bounds_match_the_immutable_ones() {
    let data = vec![1u8, 2, 3, 4, 5];
    let mut cord = ByteCord::new(data);
    // Every range accepted by at_n is accepted by at_n_mut, including ranges
    // that reach exactly the final byte.
    assert!(cord.at_n_mut(0, 5).is_some());
    assert!(cord.at_n_mut(2, 3).is_some());
    assert!(cord.at_n_mut(5, 0).is_some());
    assert!(cord.at_n_mut(3, 3).is_none());
    assert!(cord.at_n_mut(6, 0).is_none());
    assert!(cord.at_n_mut(0, 6).is_none());
}

#[test]
fn writes_through_at_n_mut_land_in_range() {
    let data = vec![0u8; 6];
    let mut cord = ByteCord::new(data);
    {
        let window = cord.at_n_mut(2, 3).expect("range in bounds");
        window.copy_from_slice(&[7, 8, 9]);
    }
    assert_eq!(cord.at_n(0, 6), Some(&[0u8, 0, 7, 8, 9, 0][..]));
}

#[test]
fn empty_cord() {
    let data: Vec<u8> = Vec::new();
    let cord = ByteCord::new(data);
    assert!(cord.is_empty());
    assert_eq!(cord.len(), 0);
    assert_eq!(cord.at_n(0, 0), Some(&[][..]));
    assert!(cord.at_n(0, 1).is_none());
    let mut reader = cord.read();
    assert!(reader.next_u8().is_none());
    assert_eq!(reader.remaining(), 0);
}

#[test]
fn storage_variants_share_one_view() {
    let data = vec![1u8, 2, 3, 4];
    let by_ref = ByteCord::new(&data);
    assert_eq!(by_ref.at_n(1, 2), Some(&[2u8, 3][..]));
    assert_eq!(by_ref.len(), 4);

    let mut b = ByteCordBuilder::new(2);
    b.append_be_u16(0x0102);
    let cord = ByteCord::new(b.into_boxed_slice());
    assert_eq!(cord.read().next_be_u16(), Some(0x0102));
}
