//! Byte-order and signedness conversions for the typed accessors: big-endian
//! byte sequences as the reverse of vstd's little-endian ones, two's
//! complement conversions between signed and unsigned values of equal width,
//! and the round-trip laws that tie each typed append to its typed read.

use vstd::bytes::{
    lemma_auto_spec_u128_to_from_le_bytes, lemma_auto_spec_u16_to_from_le_bytes,
    lemma_auto_spec_u32_to_from_le_bytes, lemma_auto_spec_u64_to_from_le_bytes,
    spec_u128_from_le_bytes, spec_u128_to_le_bytes, spec_u16_from_le_bytes, spec_u16_to_le_bytes,
    spec_u32_from_le_bytes, spec_u32_to_le_bytes, spec_u64_from_le_bytes, spec_u64_to_le_bytes,
};
use vstd::prelude::*;
use vstd::slice::slice_index_get;

verus! {

// ---------------------------------------------------------------------------
// Big-endian byte sequences: the little-endian ones, reversed.
// ---------------------------------------------------------------------------
/// The two big-endian bytes of `x`.
pub open spec fn spec_u16_to_be_bytes(x: u16) -> Seq<u8> {
    spec_u16_to_le_bytes(x).reverse()
}

/// The value of two bytes read big-endian.
pub open spec fn spec_u16_from_be_bytes(s: Seq<u8>) -> u16
    recommends
        s.len() == 2,
{
    spec_u16_from_le_bytes(s.reverse())
}

/// The four big-endian bytes of `x`.
pub open spec fn spec_u32_to_be_bytes(x: u32) -> Seq<u8> {
    spec_u32_to_le_bytes(x).reverse()
}

/// The value of four bytes read big-endian.
pub open spec fn spec_u32_from_be_bytes(s: Seq<u8>) -> u32
    recommends
        s.len() == 4,
{
    spec_u32_from_le_bytes(s.reverse())
}

/// The eight big-endian bytes of `x`.
pub open spec fn spec_u64_to_be_bytes(x: u64) -> Seq<u8> {
    spec_u64_to_le_bytes(x).reverse()
}

/// The value of eight bytes read big-endian.
pub open spec fn spec_u64_from_be_bytes(s: Seq<u8>) -> u64
    recommends
        s.len() == 8,
{
    spec_u64_from_le_bytes(s.reverse())
}

/// The sixteen big-endian bytes of `x`.
pub open spec fn spec_u128_to_be_bytes(x: u128) -> Seq<u8> {
    spec_u128_to_le_bytes(x).reverse()
}

/// The value of sixteen bytes read big-endian.
pub open spec fn spec_u128_from_be_bytes(s: Seq<u8>) -> u128
    recommends
        s.len() == 16,
{
    spec_u128_from_le_bytes(s.reverse())
}

// ---------------------------------------------------------------------------
// Two's complement: signed and unsigned values of equal width carry the same
// bytes; the unsigned value is the signed one taken modulo 2^width.
// ---------------------------------------------------------------------------
/// The unsigned value with the same eight-bit representation as `x`.
pub open spec fn spec_i8_to_u8(x: i8) -> u8 {
    (if x >= 0 {
        x as int
    } else {
        x + 0x100
    }) as u8
}

/// The signed value with the same eight-bit representation as `x`.
pub open spec fn spec_u8_to_i8(x: u8) -> i8 {
    (if x < 0x80 {
        x as int
    } else {
        x - 0x100
    }) as i8
}

/// The unsigned value with the same 16-bit representation as `x`.
pub open spec fn spec_i16_to_u16(x: i16) -> u16 {
    (if x >= 0 {
        x as int
    } else {
        x + 0x1_0000
    }) as u16
}

/// The signed value with the same 16-bit representation as `x`.
pub open spec fn spec_u16_to_i16(x: u16) -> i16 {
    (if x < 0x8000 {
        x as int
    } else {
        x - 0x1_0000
    }) as i16
}

/// The unsigned value with the same 32-bit representation as `x`.
pub open spec fn spec_i32_to_u32(x: i32) -> u32 {
    (if x >= 0 {
        x as int
    } else {
        x + 0x1_0000_0000
    }) as u32
}

/// The signed value with the same 32-bit representation as `x`.
pub open spec fn spec_u32_to_i32(x: u32) -> i32 {
    (if x < 0x8000_0000 {
        x as int
    } else {
        x - 0x1_0000_0000
    }) as i32
}

/// The unsigned value with the same 64-bit representation as `x`.
pub open spec fn spec_i64_to_u64(x: i64) -> u64 {
    (if x >= 0 {
        x as int
    } else {
        x + 0x1_0000_0000_0000_0000
    }) as u64
}

/// The signed value with the same 64-bit representation as `x`.
pub open spec fn spec_u64_to_i64(x: u64) -> i64 {
    (if x < 0x8000_0000_0000_0000 {
        x as int
    } else {
        x - 0x1_0000_0000_0000_0000
    }) as i64
}

/// The unsigned value with the same 128-bit representation as `x`.
pub open spec fn spec_i128_to_u128(x: i128) -> u128 {
    (if x >= 0 {
        x as int
    } else {
        x + 0x1_0000_0000_0000_0000_0000_0000_0000_0000
    }) as u128
}

/// The signed value with the same 128-bit representation as `x`.
pub open spec fn spec_u128_to_i128(x: u128) -> i128 {
    (if x < 0x8000_0000_0000_0000_0000_0000_0000_0000 {
        x as int
    } else {
        x - 0x1_0000_0000_0000_0000_0000_0000_0000_0000
    }) as i128
}

// ---------------------------------------------------------------------------
// Executable conversions. Each widens (or splits on the sign) so that every
// cast stays in range; no truncating cast is needed.
// ---------------------------------------------------------------------------
/// Reinterprets an unsigned byte as signed.
pub fn u8_to_i8(x: u8) -> (r: i8)
    ensures
        r == spec_u8_to_i8(x),
{
    if x < 0x80 {
        x as i8
    } else {
        ((x as i16) - 0x100) as i8
    }
}

/// Reinterprets a signed byte as unsigned.
pub fn i8_to_u8(x: i8) -> (r: u8)
    ensures
        r == spec_i8_to_u8(x),
{
    if x >= 0 {
        x as u8
    } else {
        ((x as i16) + 0x100) as u8
    }
}

/// Reinterprets an unsigned 16-bit value as signed.
pub fn u16_to_i16(x: u16) -> (r: i16)
    ensures
        r == spec_u16_to_i16(x),
{
    if x < 0x8000 {
        x as i16
    } else {
        ((x as i32) - 0x1_0000) as i16
    }
}

/// Reinterprets a signed 16-bit value as unsigned.
pub fn i16_to_u16(x: i16) -> (r: u16)
    ensures
        r == spec_i16_to_u16(x),
{
    if x >= 0 {
        x as u16
    } else {
        ((x as i32) + 0x1_0000) as u16
    }
}

/// Reinterprets an unsigned 32-bit value as signed.
pub fn u32_to_i32(x: u32) -> (r: i32)
    ensures
        r == spec_u32_to_i32(x),
{
    if x < 0x8000_0000 {
        x as i32
    } else {
        ((x as i64) - 0x1_0000_0000) as i32
    }
}

/// Reinterprets a signed 32-bit value as unsigned.
pub fn i32_to_u32(x: i32) -> (r: u32)
    ensures
        r == spec_i32_to_u32(x),
{
    if x >= 0 {
        x as u32
    } else {
        ((x as i64) + 0x1_0000_0000) as u32
    }
}

/// Reinterprets an unsigned 64-bit value as signed.
pub fn u64_to_i64(x: u64) -> (r: i64)
    ensures
        r == spec_u64_to_i64(x),
{
    if x < 0x8000_0000_0000_0000 {
        x as i64
    } else {
        ((x as i128) - 0x1_0000_0000_0000_0000) as i64
    }
}

/// Reinterprets a signed 64-bit value as unsigned.
pub fn i64_to_u64(x: i64) -> (r: u64)
    ensures
        r == spec_i64_to_u64(x),
{
    if x >= 0 {
        x as u64
    } else {
        ((x as i128) + 0x1_0000_0000_0000_0000) as u64
    }
}

/// Reinterprets an unsigned 128-bit value as signed. There is no wider
/// integer to widen into, so the negative half is reached by counting down
/// from the top of the range instead.
pub fn u128_to_i128(x: u128) -> (r: i128)
    ensures
        r == spec_u128_to_i128(x),
{
    if x < 0x8000_0000_0000_0000_0000_0000_0000_0000 {
        x as i128
    } else {
        -((u128::MAX - x) as i128) - 1
    }
}

/// Reinterprets a signed 128-bit value as unsigned.
pub fn i128_to_u128(x: i128) -> (r: u128)
    ensures
        r == spec_i128_to_u128(x),
{
    if x >= 0 {
        x as u128
    } else {
        ((x - i128::MIN) as u128) + 0x8000_0000_0000_0000_0000_0000_0000_0000
    }
}

// ---------------------------------------------------------------------------
// Byte reversal, used to read and write big-endian values through the
// little-endian conversions.
// ---------------------------------------------------------------------------
/// Returns the bytes of `s` in reverse order.
pub fn reversed(s: &[u8]) -> (r: Vec<u8>)
    ensures
        r@ == s@.reverse(),
{
    let n = s.len();
    let mut r: Vec<u8> = Vec::with_capacity(n);
    let mut i: usize = 0;
    while i < n
        invariant
            i <= n,
            n == s@.len(),
            r@.len() == i,
            forall|k: int| 0 <= k < i ==> r@[k] == s@[n - 1 - k],
        decreases n - i,
    {
        r.push(*slice_index_get(s, n - 1 - i));
        i += 1;
    }
    proof {
        assert(r@ =~= s@.reverse());
    }
    r
}

// ---------------------------------------------------------------------------
// Round-trip laws: for every supported width, signedness and byte order, the
// byte sequence a value is appended as reads back as the same value.
// ---------------------------------------------------------------------------
/// Law: a signed byte survives the trip through its unsigned representation.
pub proof fn lemma_roundtrip_i8(x: i8)
    ensures
        spec_u8_to_i8(spec_i8_to_u8(x)) == x,
{
}

/// Law: a `u16` written little-endian reads back unchanged.
pub proof fn lemma_roundtrip_le_u16(x: u16)
    ensures
        spec_u16_from_le_bytes(spec_u16_to_le_bytes(x)) == x,
{
    lemma_auto_spec_u16_to_from_le_bytes();
    assert(spec_u16_to_le_bytes(x).len() == 2);
}

/// Law: a `u16` written big-endian reads back unchanged.
pub proof fn lemma_roundtrip_be_u16(x: u16)
    ensures
        spec_u16_from_be_bytes(spec_u16_to_be_bytes(x)) == x,
{
    lemma_auto_spec_u16_to_from_le_bytes();
    assert(spec_u16_to_le_bytes(x).len() == 2);
    assert(spec_u16_to_le_bytes(x).reverse().reverse() =~= spec_u16_to_le_bytes(x));
}

/// Law: an `i16` written little-endian reads back unchanged.
pub proof fn lemma_roundtrip_le_i16(x: i16)
    ensures
        spec_u16_to_i16(spec_u16_from_le_bytes(spec_u16_to_le_bytes(spec_i16_to_u16(x)))) == x,
{
    lemma_roundtrip_le_u16(spec_i16_to_u16(x));
}

/// Law: an `i16` written big-endian reads back unchanged.
pub proof fn lemma_roundtrip_be_i16(x: i16)
    ensures
        spec_u16_to_i16(spec_u16_from_be_bytes(spec_u16_to_be_bytes(spec_i16_to_u16(x)))) == x,
{
    lemma_roundtrip_be_u16(spec_i16_to_u16(x));
}

/// Law: a `u32` written little-endian reads back unchanged.
pub proof fn lemma_roundtrip_le_u32(x: u32)
    ensures
        spec_u32_from_le_bytes(spec_u32_to_le_bytes(x)) == x,
{
    lemma_auto_spec_u32_to_from_le_bytes();
    assert(spec_u32_to_le_bytes(x).len() == 4);
}

/// Law: a `u32` written big-endian reads back unchanged.
pub proof fn lemma_roundtrip_be_u32(x: u32)
    ensures
        spec_u32_from_be_bytes(spec_u32_to_be_bytes(x)) == x,
{
    lemma_auto_spec_u32_to_from_le_bytes();
    assert(spec_u32_to_le_bytes(x).len() == 4);
    assert(spec_u32_to_le_bytes(x).reverse().reverse() =~= spec_u32_to_le_bytes(x));
}

/// Law: an `i32` written little-endian reads back unchanged.
pub proof fn lemma_roundtrip_le_i32(x: i32)
    ensures
        spec_u32_to_i32(spec_u32_from_le_bytes(spec_u32_to_le_bytes(spec_i32_to_u32(x)))) == x,
{
    lemma_roundtrip_le_u32(spec_i32_to_u32(x));
}

/// Law: an `i32` written big-endian reads back unchanged.
pub proof fn lemma_roundtrip_be_i32(x: i32)
    ensures
        spec_u32_to_i32(spec_u32_from_be_bytes(spec_u32_to_be_bytes(spec_i32_to_u32(x)))) == x,
{
    lemma_roundtrip_be_u32(spec_i32_to_u32(x));
}

/// Law: a `u64` written little-endian reads back unchanged.
pub proof fn lemma_roundtrip_le_u64(x: u64)
    ensures
        spec_u64_from_le_bytes(spec_u64_to_le_bytes(x)) == x,
{
    lemma_auto_spec_u64_to_from_le_bytes();
    assert(spec_u64_to_le_bytes(x).len() == 8);
}

/// Law: a `u64` written big-endian reads back unchanged.
pub proof fn lemma_roundtrip_be_u64(x: u64)
    ensures
        spec_u64_from_be_bytes(spec_u64_to_be_bytes(x)) == x,
{
    lemma_auto_spec_u64_to_from_le_bytes();
    assert(spec_u64_to_le_bytes(x).len() == 8);
    assert(spec_u64_to_le_bytes(x).reverse().reverse() =~= spec_u64_to_le_bytes(x));
}

/// Law: an `i64` written little-endian reads back unchanged.
pub proof fn lemma_roundtrip_le_i64(x: i64)
    ensures
        spec_u64_to_i64(spec_u64_from_le_bytes(spec_u64_to_le_bytes(spec_i64_to_u64(x)))) == x,
{
    lemma_roundtrip_le_u64(spec_i64_to_u64(x));
}

/// Law: an `i64` written big-endian reads back unchanged.
pub proof fn lemma_roundtrip_be_i64(x: i64)
    ensures
        spec_u64_to_i64(spec_u64_from_be_bytes(spec_u64_to_be_bytes(spec_i64_to_u64(x)))) == x,
{
    lemma_roundtrip_be_u64(spec_i64_to_u64(x));
}

/// Law: a `u128` written little-endian reads back unchanged.
pub proof fn lemma_roundtrip_le_u128(x: u128)
    ensures
        spec_u128_from_le_bytes(spec_u128_to_le_bytes(x)) == x,
{
    lemma_auto_spec_u128_to_from_le_bytes();
    assert(spec_u128_to_le_bytes(x).len() == 16);
}

/// Law: a `u128` written big-endian reads back unchanged.
pub proof fn lemma_roundtrip_be_u128(x: u128)
    ensures
        spec_u128_from_be_bytes(spec_u128_to_be_bytes(x)) == x,
{
    lemma_auto_spec_u128_to_from_le_bytes();
    assert(spec_u128_to_le_bytes(x).len() == 16);
    assert(spec_u128_to_le_bytes(x).reverse().reverse() =~= spec_u128_to_le_bytes(x));
}

/// Law: an `i128` written little-endian reads back unchanged.
pub proof fn lemma_roundtrip_le_i128(x: i128)
    ensures
        spec_u128_to_i128(spec_u128_from_le_bytes(spec_u128_to_le_bytes(spec_i128_to_u128(x))))
            == x,
{
    lemma_roundtrip_le_u128(spec_i128_to_u128(x));
}

/// Law: an `i128` written big-endian reads back unchanged.
pub proof fn lemma_roundtrip_be_i128(x: i128)
    ensures
        spec_u128_to_i128(spec_u128_from_be_bytes(spec_u128_to_be_bytes(spec_i128_to_u128(x))))
            == x,
{
    lemma_roundtrip_be_u128(spec_i128_to_u128(x));
}

} // verus!
