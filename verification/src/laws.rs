//! The laws that tie the components together: where appended bytes land in a
//! builder's padded contents, and that every typed append reads back, through
//! the corresponding typed read, as the value that was appended.

use vstd::bytes::{
    lemma_auto_spec_u128_to_from_le_bytes, lemma_auto_spec_u16_to_from_le_bytes,
    lemma_auto_spec_u32_to_from_le_bytes, lemma_auto_spec_u64_to_from_le_bytes,
    spec_u128_from_le_bytes, spec_u128_to_le_bytes, spec_u16_from_le_bytes, spec_u16_to_le_bytes,
    spec_u32_from_le_bytes, spec_u32_to_le_bytes, spec_u64_from_le_bytes, spec_u64_to_le_bytes,
};
use vstd::prelude::*;

use crate::align::round_up;
use crate::builder::append_aligned;
use crate::scalar::{
    lemma_roundtrip_be_i128, lemma_roundtrip_be_i16, lemma_roundtrip_be_i32,
    lemma_roundtrip_be_i64, lemma_roundtrip_be_u128, lemma_roundtrip_be_u16,
    lemma_roundtrip_be_u32, lemma_roundtrip_be_u64, lemma_roundtrip_i8, lemma_roundtrip_le_i128,
    lemma_roundtrip_le_i16, lemma_roundtrip_le_i32, lemma_roundtrip_le_i64,
    lemma_roundtrip_le_u128, lemma_roundtrip_le_u16, lemma_roundtrip_le_u32,
    lemma_roundtrip_le_u64, spec_i128_to_u128, spec_i16_to_u16, spec_i32_to_u32, spec_i64_to_u64,
    spec_i8_to_u8, spec_u128_from_be_bytes, spec_u128_to_be_bytes, spec_u128_to_i128,
    spec_u16_from_be_bytes, spec_u16_to_be_bytes, spec_u16_to_i16, spec_u32_from_be_bytes,
    spec_u32_to_be_bytes, spec_u32_to_i32, spec_u64_from_be_bytes, spec_u64_to_be_bytes,
    spec_u64_to_i64, spec_u8_to_i8,
};

verus! {

/// Law: bytes appended to a well-formed builder read back from where they were
/// appended. If the accumulated length is a multiple of the alignment before
/// an append (which the builder invariant guarantees), then afterwards the old
/// contents are an unchanged prefix, the appended bytes sit exactly at the old
/// length (where a reader whose cursor has reached that aligned position finds
/// them), everything after them is zero padding, and the padded length is
/// exactly the aligned position such a reader's cursor advances to after
/// reading them.
pub proof fn lemma_append_then_read(s: Seq<u8>, b: Seq<u8>, a: int)
    requires
        a >= 1,
        (s.len() as int) % a == 0,
    ensures
        round_up(s.len() as int, a) == s.len() as int,
        append_aligned(s, b, a).subrange(0, s.len() as int) == s,
        append_aligned(s, b, a).subrange(s.len() as int, (s.len() + b.len()) as int) == b,
        append_aligned(s, b, a).len() == round_up((s.len() + b.len()) as int, a),
        forall|k: int|
            s.len() + b.len() <= k < append_aligned(s, b, a).len() ==> append_aligned(
                s,
                b,
                a,
            )[k] == 0u8,
{
    crate::align::lemma_round_up_is_least_multiple((s.len() + b.len()) as int, a);
    assert(append_aligned(s, b, a).subrange(0, s.len() as int) =~= s);
    assert(append_aligned(s, b, a).subrange(s.len() as int, (s.len() + b.len()) as int) =~= b);
}

/// Law: a single byte appended to a well-formed builder reads back intact
/// from the old length of the padded contents.
pub proof fn lemma_cord_roundtrip_u8(s: Seq<u8>, x: u8, a: int)
    requires
        a >= 1,
        (s.len() as int) % a == 0,
    ensures
        append_aligned(s, seq![x], a).subrange(s.len() as int, (s.len() + 1) as int)[0] == x,
{
    lemma_append_then_read(s, seq![x], a);
}

/// Law: a signed byte appended to a well-formed builder reads back intact
/// from the old length of the padded contents.
pub proof fn lemma_cord_roundtrip_i8(s: Seq<u8>, x: i8, a: int)
    requires
        a >= 1,
        (s.len() as int) % a == 0,
    ensures
        spec_u8_to_i8(
            append_aligned(s, seq![spec_i8_to_u8(x)], a).subrange(
                s.len() as int,
                (s.len() + 1) as int,
            )[0],
        ) == x,
{
    lemma_append_then_read(s, seq![spec_i8_to_u8(x)], a);
    lemma_roundtrip_i8(x);
}

/// Law: a `u16` appended little-endian to a well-formed builder reads back
/// intact: the two bytes at the old length of the padded contents decode,
/// little-endian, to the value appended.
pub proof fn lemma_cord_roundtrip_le_u16(s: Seq<u8>, x: u16, a: int)
    requires
        a >= 1,
        (s.len() as int) % a == 0,
    ensures
        spec_u16_from_le_bytes(
            append_aligned(s, spec_u16_to_le_bytes(x), a).subrange(s.len() as int, (s.len() + 2) as int),
        ) == x,
{
    lemma_auto_spec_u16_to_from_le_bytes();
    assert(spec_u16_to_le_bytes(x).len() == 2);
    lemma_append_then_read(s, spec_u16_to_le_bytes(x), a);
    lemma_roundtrip_le_u16(x);
}

/// Law: an `i16` appended little-endian to a well-formed builder reads back
/// intact: the two bytes at the old length of the padded contents decode,
/// little-endian and two's complement, to the value appended.
pub proof fn lemma_cord_roundtrip_le_i16(s: Seq<u8>, x: i16, a: int)
    requires
        a >= 1,
        (s.len() as int) % a == 0,
    ensures
        spec_u16_to_i16(
            spec_u16_from_le_bytes(
                append_aligned(s, spec_u16_to_le_bytes(spec_i16_to_u16(x)), a).subrange(s.len() as int, (s.len() + 2) as int),
            ),
        ) == x,
{
    lemma_auto_spec_u16_to_from_le_bytes();
    assert(spec_u16_to_le_bytes(spec_i16_to_u16(x)).len() == 2);
    lemma_append_then_read(s, spec_u16_to_le_bytes(spec_i16_to_u16(x)), a);
    lemma_roundtrip_le_i16(x);
}

/// Law: a `u16` appended big-endian to a well-formed builder reads back
/// intact: the two bytes at the old length of the padded contents decode,
/// big-endian, to the value appended.
pub proof fn lemma_cord_roundtrip_be_u16(s: Seq<u8>, x: u16, a: int)
    requires
        a >= 1,
        (s.len() as int) % a == 0,
    ensures
        spec_u16_from_be_bytes(
            append_aligned(s, spec_u16_to_be_bytes(x), a).subrange(s.len() as int, (s.len() + 2) as int),
        ) == x,
{
    lemma_auto_spec_u16_to_from_le_bytes();
    assert(spec_u16_to_le_bytes(x).len() == 2);
    lemma_append_then_read(s, spec_u16_to_be_bytes(x), a);
    lemma_roundtrip_be_u16(x);
}

/// Law: an `i16` appended big-endian to a well-formed builder reads back
/// intact: the two bytes at the old length of the padded contents decode,
/// big-endian and two's complement, to the value appended.
pub proof fn lemma_cord_roundtrip_be_i16(s: Seq<u8>, x: i16, a: int)
    requires
        a >= 1,
        (s.len() as int) % a == 0,
    ensures
        spec_u16_to_i16(
            spec_u16_from_be_bytes(
                append_aligned(s, spec_u16_to_be_bytes(spec_i16_to_u16(x)), a).subrange(s.len() as int, (s.len() + 2) as int),
            ),
        ) == x,
{
    lemma_auto_spec_u16_to_from_le_bytes();
    assert(spec_u16_to_le_bytes(spec_i16_to_u16(x)).len() == 2);
    lemma_append_then_read(s, spec_u16_to_be_bytes(spec_i16_to_u16(x)), a);
    lemma_roundtrip_be_i16(x);
}

/// Law: a `u32` appended little-endian to a well-formed builder reads back
/// intact: the four bytes at the old length of the padded contents decode,
/// little-endian, to the value appended.
pub proof fn lemma_cord_roundtrip_le_u32(s: Seq<u8>, x: u32, a: int)
    requires
        a >= 1,
        (s.len() as int) % a == 0,
    ensures
        spec_u32_from_le_bytes(
            append_aligned(s, spec_u32_to_le_bytes(x), a).subrange(s.len() as int, (s.len() + 4) as int),
        ) == x,
{
    lemma_auto_spec_u32_to_from_le_bytes();
    assert(spec_u32_to_le_bytes(x).len() == 4);
    lemma_append_then_read(s, spec_u32_to_le_bytes(x), a);
    lemma_roundtrip_le_u32(x);
}

/// Law: an `i32` appended little-endian to a well-formed builder reads back
/// intact: the four bytes at the old length of the padded contents decode,
/// little-endian and two's complement, to the value appended.
pub proof fn lemma_cord_roundtrip_le_i32(s: Seq<u8>, x: i32, a: int)
    requires
        a >= 1,
        (s.len() as int) % a == 0,
    ensures
        spec_u32_to_i32(
            spec_u32_from_le_bytes(
                append_aligned(s, spec_u32_to_le_bytes(spec_i32_to_u32(x)), a).subrange(s.len() as int, (s.len() + 4) as int),
            ),
        ) == x,
{
    lemma_auto_spec_u32_to_from_le_bytes();
    assert(spec_u32_to_le_bytes(spec_i32_to_u32(x)).len() == 4);
    lemma_append_then_read(s, spec_u32_to_le_bytes(spec_i32_to_u32(x)), a);
    lemma_roundtrip_le_i32(x);
}

/// Law: a `u32` appended big-endian to a well-formed builder reads back
/// intact: the four bytes at the old length of the padded contents decode,
/// big-endian, to the value appended.
pub proof fn lemma_cord_roundtrip_be_u32(s: Seq<u8>, x: u32, a: int)
    requires
        a >= 1,
        (s.len() as int) % a == 0,
    ensures
        spec_u32_from_be_bytes(
            append_aligned(s, spec_u32_to_be_bytes(x), a).subrange(s.len() as int, (s.len() + 4) as int),
        ) == x,
{
    lemma_auto_spec_u32_to_from_le_bytes();
    assert(spec_u32_to_le_bytes(x).len() == 4);
    lemma_append_then_read(s, spec_u32_to_be_bytes(x), a);
    lemma_roundtrip_be_u32(x);
}

/// Law: an `i32` appended big-endian to a well-formed builder reads back
/// intact: the four bytes at the old length of the padded contents decode,
/// big-endian and two's complement, to the value appended.
pub proof fn lemma_cord_roundtrip_be_i32(s: Seq<u8>, x: i32, a: int)
    requires
        a >= 1,
        (s.len() as int) % a == 0,
    ensures
        spec_u32_to_i32(
            spec_u32_from_be_bytes(
                append_aligned(s, spec_u32_to_be_bytes(spec_i32_to_u32(x)), a).subrange(s.len() as int, (s.len() + 4) as int),
            ),
        ) == x,
{
    lemma_auto_spec_u32_to_from_le_bytes();
    assert(spec_u32_to_le_bytes(spec_i32_to_u32(x)).len() == 4);
    lemma_append_then_read(s, spec_u32_to_be_bytes(spec_i32_to_u32(x)), a);
    lemma_roundtrip_be_i32(x);
}

/// Law: a `u64` appended little-endian to a well-formed builder reads back
/// intact: the eight bytes at the old length of the padded contents decode,
/// little-endian, to the value appended.
pub proof fn lemma_cord_roundtrip_le_u64(s: Seq<u8>, x: u64, a: int)
    requires
        a >= 1,
        (s.len() as int) % a == 0,
    ensures
        spec_u64_from_le_bytes(
            append_aligned(s, spec_u64_to_le_bytes(x), a).subrange(s.len() as int, (s.len() + 8) as int),
        ) == x,
{
    lemma_auto_spec_u64_to_from_le_bytes();
    assert(spec_u64_to_le_bytes(x).len() == 8);
    lemma_append_then_read(s, spec_u64_to_le_bytes(x), a);
    lemma_roundtrip_le_u64(x);
}

/// Law: an `i64` appended little-endian to a well-formed builder reads back
/// intact: the eight bytes at the old length of the padded contents decode,
/// little-endian and two's complement, to the value appended.
pub proof fn lemma_cord_roundtrip_le_i64(s: Seq<u8>, x: i64, a: int)
    requires
        a >= 1,
        (s.len() as int) % a == 0,
    ensures
        spec_u64_to_i64(
            spec_u64_from_le_bytes(
                append_aligned(s, spec_u64_to_le_bytes(spec_i64_to_u64(x)), a).subrange(s.len() as int, (s.len() + 8) as int),
            ),
        ) == x,
{
    lemma_auto_spec_u64_to_from_le_bytes();
    assert(spec_u64_to_le_bytes(spec_i64_to_u64(x)).len() == 8);
    lemma_append_then_read(s, spec_u64_to_le_bytes(spec_i64_to_u64(x)), a);
    lemma_roundtrip_le_i64(x);
}

/// Law: a `u64` appended big-endian to a well-formed builder reads back
/// intact: the eight bytes at the old length of the padded contents decode,
/// big-endian, to the value appended.
pub proof fn lemma_cord_roundtrip_be_u64(s: Seq<u8>, x: u64, a: int)
    requires
        a >= 1,
        (s.len() as int) % a == 0,
    ensures
        spec_u64_from_be_bytes(
            append_aligned(s, spec_u64_to_be_bytes(x), a).subrange(s.len() as int, (s.len() + 8) as int),
        ) == x,
{
    lemma_auto_spec_u64_to_from_le_bytes();
    assert(spec_u64_to_le_bytes(x).len() == 8);
    lemma_append_then_read(s, spec_u64_to_be_bytes(x), a);
    lemma_roundtrip_be_u64(x);
}

/// Law: an `i64` appended big-endian to a well-formed builder reads back
/// intact: the eight bytes at the old length of the padded contents decode,
/// big-endian and two's complement, to the value appended.
pub proof fn lemma_cord_roundtrip_be_i64(s: Seq<u8>, x: i64, a: int)
    requires
        a >= 1,
        (s.len() as int) % a == 0,
    ensures
        spec_u64_to_i64(
            spec_u64_from_be_bytes(
                append_aligned(s, spec_u64_to_be_bytes(spec_i64_to_u64(x)), a).subrange(s.len() as int, (s.len() + 8) as int),
            ),
        ) == x,
{
    lemma_auto_spec_u64_to_from_le_bytes();
    assert(spec_u64_to_le_bytes(spec_i64_to_u64(x)).len() == 8);
    lemma_append_then_read(s, spec_u64_to_be_bytes(spec_i64_to_u64(x)), a);
    lemma_roundtrip_be_i64(x);
}

/// Law: a `u128` appended little-endian to a well-formed builder reads back
/// intact: the sixteen bytes at the old length of the padded contents decode,
/// little-endian, to the value appended.
pub proof fn lemma_cord_roundtrip_le_u128(s: Seq<u8>, x: u128, a: int)
    requires
        a >= 1,
        (s.len() as int) % a == 0,
    ensures
        spec_u128_from_le_bytes(
            append_aligned(s, spec_u128_to_le_bytes(x), a).subrange(s.len() as int, (s.len() + 16) as int),
        ) == x,
{
    lemma_auto_spec_u128_to_from_le_bytes();
    assert(spec_u128_to_le_bytes(x).len() == 16);
    lemma_append_then_read(s, spec_u128_to_le_bytes(x), a);
    lemma_roundtrip_le_u128(x);
}

/// Law: an `i128` appended little-endian to a well-formed builder reads back
/// intact: the sixteen bytes at the old length of the padded contents decode,
/// little-endian and two's complement, to the value appended.
pub proof fn lemma_cord_roundtrip_le_i128(s: Seq<u8>, x: i128, a: int)
    requires
        a >= 1,
        (s.len() as int) % a == 0,
    ensures
        spec_u128_to_i128(
            spec_u128_from_le_bytes(
                append_aligned(s, spec_u128_to_le_bytes(spec_i128_to_u128(x)), a).subrange(s.len() as int, (s.len() + 16) as int),
            ),
        ) == x,
{
    lemma_auto_spec_u128_to_from_le_bytes();
    assert(spec_u128_to_le_bytes(spec_i128_to_u128(x)).len() == 16);
    lemma_append_then_read(s, spec_u128_to_le_bytes(spec_i128_to_u128(x)), a);
    lemma_roundtrip_le_i128(x);
}

/// Law: a `u128` appended big-endian to a well-formed builder reads back
/// intact: the sixteen bytes at the old length of the padded contents decode,
/// big-endian, to the value appended.
pub proof fn lemma_cord_roundtrip_be_u128(s: Seq<u8>, x: u128, a: int)
    requires
        a >= 1,
        (s.len() as int) % a == 0,
    ensures
        spec_u128_from_be_bytes(
            append_aligned(s, spec_u128_to_be_bytes(x), a).subrange(s.len() as int, (s.len() + 16) as int),
        ) == x,
{
    lemma_auto_spec_u128_to_from_le_bytes();
    assert(spec_u128_to_le_bytes(x).len() == 16);
    lemma_append_then_read(s, spec_u128_to_be_bytes(x), a);
    lemma_roundtrip_be_u128(x);
}

/// Law: an `i128` appended big-endian to a well-formed builder reads back
/// intact: the sixteen bytes at the old length of the padded contents decode,
/// big-endian and two's complement, to the value appended.
pub proof fn lemma_cord_roundtrip_be_i128(s: Seq<u8>, x: i128, a: int)
    requires
        a >= 1,
        (s.len() as int) % a == 0,
    ensures
        spec_u128_to_i128(
            spec_u128_from_be_bytes(
                append_aligned(s, spec_u128_to_be_bytes(spec_i128_to_u128(x)), a).subrange(s.len() as int, (s.len() + 16) as int),
            ),
        ) == x,
{
    lemma_auto_spec_u128_to_from_le_bytes();
    assert(spec_u128_to_le_bytes(spec_i128_to_u128(x)).len() == 16);
    lemma_append_then_read(s, spec_u128_to_be_bytes(spec_i128_to_u128(x)), a);
    lemma_roundtrip_be_i128(x);
}

} // verus!
