//! [`ByteCordReader`]: walks a [`ByteCord`] sequentially, rounding its cursor
//! up to the next alignment boundary after every successful read.

use vstd::bytes::{
    spec_u128_from_le_bytes, spec_u16_from_le_bytes, spec_u32_from_le_bytes,
    spec_u64_from_le_bytes, u128_from_le_bytes, u16_from_le_bytes, u32_from_le_bytes,
    u64_from_le_bytes,
};
use vstd::prelude::*;
use vstd::slice::slice_index_get;

use crate::align::{
    is_alignment, lemma_alignment_positive, lemma_round_up_is_least_multiple, round_up,
    round_up_to,
};
use crate::scalar::{
    reversed, spec_u128_from_be_bytes, spec_u128_to_i128, spec_u16_from_be_bytes, spec_u16_to_i16,
    spec_u32_from_be_bytes, spec_u32_to_i32, spec_u64_from_be_bytes, spec_u64_to_i64,
    spec_u8_to_i8, u128_to_i128, u16_to_i16, u32_to_i32, u64_to_i64, u8_to_i8,
};
use crate::{range_in_bounds, ByteCord, ByteStore};

verus! {

/// A cursor-driven reader over a borrowed [`ByteCord`]. Each successful read
/// returns a zero-copy slice of the cord and advances the cursor to the next
/// multiple of the reader's alignment; a failed read leaves the cursor where
/// it was.
pub struct ByteCordReader<'c, T> {
    cord: &'c ByteCord<T>,
    alignment: usize,
    position: usize,
}

impl<'c, T: ByteStore> ByteCordReader<'c, T> {
    /// The bytes of the borrowed cord.
    pub closed spec fn buf(&self) -> Seq<u8> {
        self.cord@
    }

    /// The alignment this reader was constructed with.
    pub closed spec fn spec_alignment(&self) -> usize {
        self.alignment
    }

    /// The current cursor position.
    pub closed spec fn spec_position(&self) -> usize {
        self.position
    }

    /// Well-formedness: the alignment is valid, the cursor sits on a multiple
    /// of it, and the buffer is short enough that rounding a cursor inside it
    /// up to an alignment boundary cannot overflow. Constructors establish
    /// this and every read preserves it.
    pub open spec fn wf(&self) -> bool {
        &&& is_alignment(self.spec_alignment())
        &&& (self.spec_position() as int) % (self.spec_alignment() as int) == 0
        &&& self.buf().len() + self.spec_alignment() - 1 <= usize::MAX
    }

    /// Returns a new reader over `cord` with the given alignment, its cursor
    /// at position 0. The alignment must be a power of two (or 1, meaning no
    /// padding is skipped between reads).
    pub fn with_alignment(cord: &'c ByteCord<T>, alignment: usize) -> (r: Self)
        requires
            is_alignment(alignment),
            cord@.len() + alignment - 1 <= usize::MAX,
        ensures
            r.wf(),
            r.buf() == cord@,
            r.spec_alignment() == alignment,
            r.spec_position() == 0,
    {
        proof {
            lemma_alignment_positive(alignment);
        }
        let r = ByteCordReader { cord, alignment, position: 0 };
        proof {
            assert((0int) % (alignment as int) == 0);
        }
        r
    }

    /// Returns a new reader over `cord` with 1-byte alignment (no padding is
    /// skipped between reads), its cursor at position 0.
    pub fn new(cord: &'c ByteCord<T>) -> (r: Self)
        requires
            cord@.len() <= usize::MAX,
        ensures
            r.wf(),
            r.buf() == cord@,
            r.spec_alignment() == 1,
            r.spec_position() == 0,
    {
        Self::with_alignment(cord, 1)
    }

    /// Returns `length` bytes at the current position and advances the cursor
    /// to the next aligned offset, or returns `None`, leaving the cursor
    /// unmoved, if fewer than `length` bytes lie between the cursor and the
    /// end of the cord.
    pub fn next_n(&mut self, length: usize) -> (r: Option<&'c [u8]>)
        requires
            old(self).wf(),
        ensures
            final(self).wf(),
            final(self).buf() == old(self).buf(),
            final(self).spec_alignment() == old(self).spec_alignment(),
            r is Some <==> range_in_bounds(
                old(self).spec_position() as int,
                length as int,
                old(self).buf().len() as int,
            ),
            r matches Some(s) ==> s@ == old(self).buf().subrange(
                old(self).spec_position() as int,
                old(self).spec_position() + length,
            ) && final(self).spec_position() == round_up(
                old(self).spec_position() + length,
                old(self).spec_alignment() as int,
            ),
            r is None ==> *final(self) == *old(self),
    {
        proof {
            lemma_alignment_positive(self.alignment);
        }
        let cord: &'c ByteCord<T> = self.cord;
        match cord.at_n(self.position, length) {
            Some(result) => {
                proof {
                    lemma_round_up_is_least_multiple(
                        self.position + length,
                        self.alignment as int,
                    );
                }
                self.position = round_up_to(self.position + length, self.alignment);
                Some(result)
            },
            None => None,
        }
    }

    /// Advances the cursor past `length` bytes (plus alignment padding) and
    /// discards them, returning whether enough bytes remained. The cursor
    /// moves exactly as in [`Self::next_n`].
    pub fn skip(&mut self, length: usize) -> (r: bool)
        requires
            old(self).wf(),
        ensures
            final(self).wf(),
            final(self).buf() == old(self).buf(),
            final(self).spec_alignment() == old(self).spec_alignment(),
            r <==> range_in_bounds(
                old(self).spec_position() as int,
                length as int,
                old(self).buf().len() as int,
            ),
            r ==> final(self).spec_position() == round_up(
                old(self).spec_position() + length,
                old(self).spec_alignment() as int,
            ),
            !r ==> *final(self) == *old(self),
    {
        self.next_n(length).is_some()
    }

    /// Returns the count of unread bytes: the distance from the cursor to the
    /// end of the cord, or 0 if the cursor has been rounded past the end.
    pub fn remaining(&self) -> (r: usize)
        ensures
            r as int == if self.spec_position() <= self.buf().len() {
                self.buf().len() - self.spec_position()
            } else {
                0int
            },
    {
        let len = self.cord.len();
        if self.position >= len {
            0
        } else {
            len - self.position
        }
    }

    /// Reads the next byte as an unsigned byte and advances the cursor
    /// to the next aligned offset, or returns `None`, leaving the cursor
    /// unmoved, if the cursor is at or past the end of the cord.
    pub fn next_u8(&mut self) -> (r: Option<u8>)
        requires
            old(self).wf(),
        ensures
            final(self).wf(),
            final(self).buf() == old(self).buf(),
            final(self).spec_alignment() == old(self).spec_alignment(),
            r is Some <==> old(self).spec_position() + 1 <= old(self).buf().len(),
            r matches Some(v) ==> v == old(self).buf()[old(self).spec_position() as int] && final(self).spec_position() == round_up(
                old(self).spec_position() + 1,
                old(self).spec_alignment() as int,
            ),
            r is None ==> *final(self) == *old(self),
    {
        match self.next_n(1) {
            Some(s) => Some(*slice_index_get(s, 0)),
            None => None,
        }
    }

    /// Reads the next byte as a signed byte and advances the cursor
    /// to the next aligned offset, or returns `None`, leaving the cursor
    /// unmoved, if the cursor is at or past the end of the cord.
    pub fn next_i8(&mut self) -> (r: Option<i8>)
        requires
            old(self).wf(),
        ensures
            final(self).wf(),
            final(self).buf() == old(self).buf(),
            final(self).spec_alignment() == old(self).spec_alignment(),
            r is Some <==> old(self).spec_position() + 1 <= old(self).buf().len(),
            r matches Some(v) ==> v == spec_u8_to_i8(old(self).buf()[old(self).spec_position() as int]) && final(self).spec_position() == round_up(
                old(self).spec_position() + 1,
                old(self).spec_alignment() as int,
            ),
            r is None ==> *final(self) == *old(self),
    {
        match self.next_n(1) {
            Some(s) => Some(u8_to_i8(*slice_index_get(s, 0))),
            None => None,
        }
    }

    /// Reads the next two bytes as a big-endian `u16` and advances the cursor
    /// to the next aligned offset, or returns `None`, leaving the cursor
    /// unmoved, if fewer than 2 bytes remain.
    pub fn next_be_u16(&mut self) -> (r: Option<u16>)
        requires
            old(self).wf(),
        ensures
            final(self).wf(),
            final(self).buf() == old(self).buf(),
            final(self).spec_alignment() == old(self).spec_alignment(),
            r is Some <==> old(self).spec_position() + 2 <= old(self).buf().len(),
            r matches Some(v) ==> v == spec_u16_from_be_bytes(old(self).buf().subrange(
                old(self).spec_position() as int,
                old(self).spec_position() + 2,
            )) && final(self).spec_position() == round_up(
                old(self).spec_position() + 2,
                old(self).spec_alignment() as int,
            ),
            r is None ==> *final(self) == *old(self),
    {
        match self.next_n(2) {
            Some(s) => {
                let rev = reversed(s);
                Some(u16_from_le_bytes(rev.as_slice()))
            },
            None => None,
        }
    }

    /// Reads the next two bytes as a little-endian `u16` and advances the cursor
    /// to the next aligned offset, or returns `None`, leaving the cursor
    /// unmoved, if fewer than 2 bytes remain.
    pub fn next_le_u16(&mut self) -> (r: Option<u16>)
        requires
            old(self).wf(),
        ensures
            final(self).wf(),
            final(self).buf() == old(self).buf(),
            final(self).spec_alignment() == old(self).spec_alignment(),
            r is Some <==> old(self).spec_position() + 2 <= old(self).buf().len(),
            r matches Some(v) ==> v == spec_u16_from_le_bytes(old(self).buf().subrange(
                old(self).spec_position() as int,
                old(self).spec_position() + 2,
            )) && final(self).spec_position() == round_up(
                old(self).spec_position() + 2,
                old(self).spec_alignment() as int,
            ),
            r is None ==> *final(self) == *old(self),
    {
        match self.next_n(2) {
            Some(s) => Some(u16_from_le_bytes(s)),
            None => None,
        }
    }

    /// Reads the next four bytes as a big-endian `u32` and advances the cursor
    /// to the next aligned offset, or returns `None`, leaving the cursor
    /// unmoved, if fewer than 4 bytes remain.
    pub fn next_be_u32(&mut self) -> (r: Option<u32>)
        requires
            old(self).wf(),
        ensures
            final(self).wf(),
            final(self).buf() == old(self).buf(),
            final(self).spec_alignment() == old(self).spec_alignment(),
            r is Some <==> old(self).spec_position() + 4 <= old(self).buf().len(),
            r matches Some(v) ==> v == spec_u32_from_be_bytes(old(self).buf().subrange(
                old(self).spec_position() as int,
                old(self).spec_position() + 4,
            )) && final(self).spec_position() == round_up(
                old(self).spec_position() + 4,
                old(self).spec_alignment() as int,
            ),
            r is None ==> *final(self) == *old(self),
    {
        match self.next_n(4) {
            Some(s) => {
                let rev = reversed(s);
                Some(u32_from_le_bytes(rev.as_slice()))
            },
            None => None,
        }
    }

    /// Reads the next four bytes as a little-endian `u32` and advances the cursor
    /// to the next aligned offset, or returns `None`, leaving the cursor
    /// unmoved, if fewer than 4 bytes remain.
    pub fn next_le_u32(&mut self) -> (r: Option<u32>)
        requires
            old(self).wf(),
        ensures
            final(self).wf(),
            final(self).buf() == old(self).buf(),
            final(self).spec_alignment() == old(self).spec_alignment(),
            r is Some <==> old(self).spec_position() + 4 <= old(self).buf().len(),
            r matches Some(v) ==> v == spec_u32_from_le_bytes(old(self).buf().subrange(
                old(self).spec_position() as int,
                old(self).spec_position() + 4,
            )) && final(self).spec_position() == round_up(
                old(self).spec_position() + 4,
                old(self).spec_alignment() as int,
            ),
            r is None ==> *final(self) == *old(self),
    {
        match self.next_n(4) {
            Some(s) => Some(u32_from_le_bytes(s)),
            None => None,
        }
    }

    /// Reads the next eight bytes as a big-endian `u64` and advances the cursor
    /// to the next aligned offset, or returns `None`, leaving the cursor
    /// unmoved, if fewer than 8 bytes remain.
    pub fn next_be_u64(&mut self) -> (r: Option<u64>)
        requires
            old(self).wf(),
        ensures
            final(self).wf(),
            final(self).buf() == old(self).buf(),
            final(self).spec_alignment() == old(self).spec_alignment(),
            r is Some <==> old(self).spec_position() + 8 <= old(self).buf().len(),
            r matches Some(v) ==> v == spec_u64_from_be_bytes(old(self).buf().subrange(
                old(self).spec_position() as int,
                old(self).spec_position() + 8,
            )) && final(self).spec_position() == round_up(
                old(self).spec_position() + 8,
                old(self).spec_alignment() as int,
            ),
            r is None ==> *final(self) == *old(self),
    {
        match self.next_n(8) {
            Some(s) => {
                let rev = reversed(s);
                Some(u64_from_le_bytes(rev.as_slice()))
            },
            None => None,
        }
    }

    /// Reads the next eight bytes as a little-endian `u64` and advances the cursor
    /// to the next aligned offset, or returns `None`, leaving the cursor
    /// unmoved, if fewer than 8 bytes remain.
    pub fn next_le_u64(&mut self) -> (r: Option<u64>)
        requires
            old(self).wf(),
        ensures
            final(self).wf(),
            final(self).buf() == old(self).buf(),
            final(self).spec_alignment() == old(self).spec_alignment(),
            r is Some <==> old(self).spec_position() + 8 <= old(self).buf().len(),
            r matches Some(v) ==> v == spec_u64_from_le_bytes(old(self).buf().subrange(
                old(self).spec_position() as int,
                old(self).spec_position() + 8,
            )) && final(self).spec_position() == round_up(
                old(self).spec_position() + 8,
                old(self).spec_alignment() as int,
            ),
            r is None ==> *final(self) == *old(self),
    {
        match self.next_n(8) {
            Some(s) => Some(u64_from_le_bytes(s)),
            None => None,
        }
    }

    /// Reads the next sixteen bytes as a big-endian `u128` and advances the cursor
    /// to the next aligned offset, or returns `None`, leaving the cursor
    /// unmoved, if fewer than 16 bytes remain.
    pub fn next_be_u128(&mut self) -> (r: Option<u128>)
        requires
            old(self).wf(),
        ensures
            final(self).wf(),
            final(self).buf() == old(self).buf(),
            final(self).spec_alignment() == old(self).spec_alignment(),
            r is Some <==> old(self).spec_position() + 16 <= old(self).buf().len(),
            r matches Some(v) ==> v == spec_u128_from_be_bytes(old(self).buf().subrange(
                old(self).spec_position() as int,
                old(self).spec_position() + 16,
            )) && final(self).spec_position() == round_up(
                old(self).spec_position() + 16,
                old(self).spec_alignment() as int,
            ),
            r is None ==> *final(self) == *old(self),
    {
        match self.next_n(16) {
            Some(s) => {
                let rev = reversed(s);
                Some(u128_from_le_bytes(rev.as_slice()))
            },
            None => None,
        }
    }

    /// Reads the next sixteen bytes as a little-endian `u128` and advances the cursor
    /// to the next aligned offset, or returns `None`, leaving the cursor
    /// unmoved, if fewer than 16 bytes remain.
    pub fn next_le_u128(&mut self) -> (r: Option<u128>)
        requires
            old(self).wf(),
        ensures
            final(self).wf(),
            final(self).buf() == old(self).buf(),
            final(self).spec_alignment() == old(self).spec_alignment(),
            r is Some <==> old(self).spec_position() + 16 <= old(self).buf().len(),
            r matches Some(v) ==> v == spec_u128_from_le_bytes(old(self).buf().subrange(
                old(self).spec_position() as int,
                old(self).spec_position() + 16,
            )) && final(self).spec_position() == round_up(
                old(self).spec_position() + 16,
                old(self).spec_alignment() as int,
            ),
            r is None ==> *final(self) == *old(self),
    {
        match self.next_n(16) {
            Some(s) => Some(u128_from_le_bytes(s)),
            None => None,
        }
    }

    /// Reads the next two bytes as a big-endian `i16` and advances the cursor
    /// to the next aligned offset, or returns `None`, leaving the cursor
    /// unmoved, if fewer than 2 bytes remain.
    pub fn next_be_i16(&mut self) -> (r: Option<i16>)
        requires
            old(self).wf(),
        ensures
            final(self).wf(),
            final(self).buf() == old(self).buf(),
            final(self).spec_alignment() == old(self).spec_alignment(),
            r is Some <==> old(self).spec_position() + 2 <= old(self).buf().len(),
            r matches Some(v) ==> v == spec_u16_to_i16(spec_u16_from_be_bytes(old(self).buf().subrange(
                old(self).spec_position() as int,
                old(self).spec_position() + 2,
            ))) && final(self).spec_position() == round_up(
                old(self).spec_position() + 2,
                old(self).spec_alignment() as int,
            ),
            r is None ==> *final(self) == *old(self),
    {
        match self.next_n(2) {
            Some(s) => {
                let rev = reversed(s);
                Some(u16_to_i16(u16_from_le_bytes(rev.as_slice())))
            },
            None => None,
        }
    }

    /// Reads the next two bytes as a little-endian `i16` and advances the cursor
    /// to the next aligned offset, or returns `None`, leaving the cursor
    /// unmoved, if fewer than 2 bytes remain.
    pub fn next_le_i16(&mut self) -> (r: Option<i16>)
        requires
            old(self).wf(),
        ensures
            final(self).wf(),
            final(self).buf() == old(self).buf(),
            final(self).spec_alignment() == old(self).spec_alignment(),
            r is Some <==> old(self).spec_position() + 2 <= old(self).buf().len(),
            r matches Some(v) ==> v == spec_u16_to_i16(spec_u16_from_le_bytes(old(self).buf().subrange(
                old(self).spec_position() as int,
                old(self).spec_position() + 2,
            ))) && final(self).spec_position() == round_up(
                old(self).spec_position() + 2,
                old(self).spec_alignment() as int,
            ),
            r is None ==> *final(self) == *old(self),
    {
        match self.next_n(2) {
            Some(s) => Some(u16_to_i16(u16_from_le_bytes(s))),
            None => None,
        }
    }

    /// Reads the next four bytes as a big-endian `i32` and advances the cursor
    /// to the next aligned offset, or returns `None`, leaving the cursor
    /// unmoved, if fewer than 4 bytes remain.
    pub fn next_be_i32(&mut self) -> (r: Option<i32>)
        requires
            old(self).wf(),
        ensures
            final(self).wf(),
            final(self).buf() == old(self).buf(),
            final(self).spec_alignment() == old(self).spec_alignment(),
            r is Some <==> old(self).spec_position() + 4 <= old(self).buf().len(),
            r matches Some(v) ==> v == spec_u32_to_i32(spec_u32_from_be_bytes(old(self).buf().subrange(
                old(self).spec_position() as int,
                old(self).spec_position() + 4,
            ))) && final(self).spec_position() == round_up(
                old(self).spec_position() + 4,
                old(self).spec_alignment() as int,
            ),
            r is None ==> *final(self) == *old(self),
    {
        match self.next_n(4) {
            Some(s) => {
                let rev = reversed(s);
                Some(u32_to_i32(u32_from_le_bytes(rev.as_slice())))
            },
            None => None,
        }
    }

    /// Reads the next four bytes as a little-endian `i32` and advances the cursor
    /// to the next aligned offset, or returns `None`, leaving the cursor
    /// unmoved, if fewer than 4 bytes remain.
    pub fn next_le_i32(&mut self) -> (r: Option<i32>)
        requires
            old(self).wf(),
        ensures
            final(self).wf(),
            final(self).buf() == old(self).buf(),
            final(self).spec_alignment() == old(self).spec_alignment(),
            r is Some <==> old(self).spec_position() + 4 <= old(self).buf().len(),
            r matches Some(v) ==> v == spec_u32_to_i32(spec_u32_from_le_bytes(old(self).buf().subrange(
                old(self).spec_position() as int,
                old(self).spec_position() + 4,
            ))) && final(self).spec_position() == round_up(
                old(self).spec_position() + 4,
                old(self).spec_alignment() as int,
            ),
            r is None ==> *final(self) == *old(self),
    {
        match self.next_n(4) {
            Some(s) => Some(u32_to_i32(u32_from_le_bytes(s))),
            None => None,
        }
    }

    /// Reads the next eight bytes as a big-endian `i64` and advances the cursor
    /// to the next aligned offset, or returns `None`, leaving the cursor
    /// unmoved, if fewer than 8 bytes remain.
    pub fn next_be_i64(&mut self) -> (r: Option<i64>)
        requires
            old(self).wf(),
        ensures
            final(self).wf(),
            final(self).buf() == old(self).buf(),
            final(self).spec_alignment() == old(self).spec_alignment(),
            r is Some <==> old(self).spec_position() + 8 <= old(self).buf().len(),
            r matches Some(v) ==> v == spec_u64_to_i64(spec_u64_from_be_bytes(old(self).buf().subrange(
                old(self).spec_position() as int,
                old(self).spec_position() + 8,
            ))) && final(self).spec_position() == round_up(
                old(self).spec_position() + 8,
                old(self).spec_alignment() as int,
            ),
            r is None ==> *final(self) == *old(self),
    {
        match self.next_n(8) {
            Some(s) => {
                let rev = reversed(s);
                Some(u64_to_i64(u64_from_le_bytes(rev.as_slice())))
            },
            None => None,
        }
    }

    /// Reads the next eight bytes as a little-endian `i64` and advances the cursor
    /// to the next aligned offset, or returns `None`, leaving the cursor
    /// unmoved, if fewer than 8 bytes remain.
    pub fn next_le_i64(&mut self) -> (r: Option<i64>)
        requires
            old(self).wf(),
        ensures
            final(self).wf(),
            final(self).buf() == old(self).buf(),
            final(self).spec_alignment() == old(self).spec_alignment(),
            r is Some <==> old(self).spec_position() + 8 <= old(self).buf().len(),
            r matches Some(v) ==> v == spec_u64_to_i64(spec_u64_from_le_bytes(old(self).buf().subrange(
                old(self).spec_position() as int,
                old(self).spec_position() + 8,
            ))) && final(self).spec_position() == round_up(
                old(self).spec_position() + 8,
                old(self).spec_alignment() as int,
            ),
            r is None ==> *final(self) == *old(self),
    {
        match self.next_n(8) {
            Some(s) => Some(u64_to_i64(u64_from_le_bytes(s))),
            None => None,
        }
    }

    /// Reads the next sixteen bytes as a big-endian `i128` and advances the cursor
    /// to the next aligned offset, or returns `None`, leaving the cursor
    /// unmoved, if fewer than 16 bytes remain.
    pub fn next_be_i128(&mut self) -> (r: Option<i128>)
        requires
            old(self).wf(),
        ensures
            final(self).wf(),
            final(self).buf() == old(self).buf(),
            final(self).spec_alignment() == old(self).spec_alignment(),
            r is Some <==> old(self).spec_position() + 16 <= old(self).buf().len(),
            r matches Some(v) ==> v == spec_u128_to_i128(spec_u128_from_be_bytes(old(self).buf().subrange(
                old(self).spec_position() as int,
                old(self).spec_position() + 16,
            ))) && final(self).spec_position() == round_up(
                old(self).spec_position() + 16,
                old(self).spec_alignment() as int,
            ),
            r is None ==> *final(self) == *old(self),
    {
        match self.next_n(16) {
            Some(s) => {
                let rev = reversed(s);
                Some(u128_to_i128(u128_from_le_bytes(rev.as_slice())))
            },
            None => None,
        }
    }

    /// Reads the next sixteen bytes as a little-endian `i128` and advances the cursor
    /// to the next aligned offset, or returns `None`, leaving the cursor
    /// unmoved, if fewer than 16 bytes remain.
    pub fn next_le_i128(&mut self) -> (r: Option<i128>)
        requires
            old(self).wf(),
        ensures
            final(self).wf(),
            final(self).buf() == old(self).buf(),
            final(self).spec_alignment() == old(self).spec_alignment(),
            r is Some <==> old(self).spec_position() + 16 <= old(self).buf().len(),
            r matches Some(v) ==> v == spec_u128_to_i128(spec_u128_from_le_bytes(old(self).buf().subrange(
                old(self).spec_position() as int,
                old(self).spec_position() + 16,
            ))) && final(self).spec_position() == round_up(
                old(self).spec_position() + 16,
                old(self).spec_alignment() as int,
            ),
            r is None ==> *final(self) == *old(self),
    {
        match self.next_n(16) {
            Some(s) => Some(u128_to_i128(u128_from_le_bytes(s))),
            None => None,
        }
    }
}

} // verus!
