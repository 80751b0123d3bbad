//! Alignment-aware, bounds-checked access to in-memory byte buffers.
//!
//! A [`ByteCord`] wraps any storage that exposes its bytes and offers
//! bounds-checked positional access, immutable and mutable. A
//! [`ByteCordReader`] walks a cord sequentially, rounding its cursor up to an
//! alignment boundary after every read. A [`ByteCordBuilder`] accumulates
//! bytes, padding with zeros after every append so that its length stays a
//! multiple of its alignment.

use vstd::prelude::*;
use vstd::slice::slice_subrange;

pub mod align;
pub mod builder;
pub mod laws;
pub mod reader;
pub mod scalar;

pub use builder::ByteCordBuilder;
pub use reader::ByteCordReader;

use crate::align::is_alignment;

verus! {

/// Storage that exposes its contents as a read-only byte slice.
///
/// The spec function [`ByteStore::bytes`] is the mathematical content of the
/// storage; `byte_slice` hands out that content as a slice.
pub trait ByteStore {
    /// The bytes held by this storage, as a mathematical sequence.
    spec fn bytes(&self) -> Seq<u8>;

    /// Returns the stored bytes as a slice.
    fn byte_slice(&self) -> (r: &[u8])
        ensures
            r@ == self.bytes(),
    ;
}

/// Storage that additionally exposes its contents as a mutable byte slice.
pub trait ByteStoreMut: ByteStore {
    /// Returns the stored bytes as a mutable slice; writes through the slice
    /// become the new contents of the storage.
    fn byte_slice_mut(&mut self) -> (r: &mut [u8])
        ensures
            r@ == old(self).bytes(),
            final(self).bytes() == final(r)@,
    ;
}

impl ByteStore for Vec<u8> {
    open spec fn bytes(&self) -> Seq<u8> {
        self@
    }

    fn byte_slice(&self) -> (r: &[u8]) {
        self.as_slice()
    }
}

impl ByteStoreMut for Vec<u8> {
    fn byte_slice_mut(&mut self) -> (r: &mut [u8]) {
        self.as_mut_slice()
    }
}

impl<'s> ByteStore for &'s [u8] {
    open spec fn bytes(&self) -> Seq<u8> {
        (*self)@
    }

    fn byte_slice(&self) -> (r: &[u8]) {
        *self
    }
}

impl<'v> ByteStore for &'v Vec<u8> {
    open spec fn bytes(&self) -> Seq<u8> {
        (*self)@
    }

    fn byte_slice(&self) -> (r: &[u8]) {
        self.as_slice()
    }
}

impl ByteStore for Box<[u8]> {
    open spec fn bytes(&self) -> Seq<u8> {
        self@
    }

    fn byte_slice(&self) -> (r: &[u8]) {
        &**self
    }
}

/// True exactly when the range `[position, position + length)` lies inside a
/// buffer of `buf_len` bytes. Both the immutable and the mutable positional
/// accessors succeed on precisely these ranges.
pub open spec fn range_in_bounds(position: int, length: int, buf_len: int) -> bool {
    position + length <= buf_len
}

/// A windowed view over byte storage `T`, giving bounds-checked access by
/// position. It holds no position or alignment state of its own.
pub struct ByteCord<T> {
    data: T,
}

impl<T: ByteStore> View for ByteCord<T> {
    type V = Seq<u8>;

    closed spec fn view(&self) -> Seq<u8> {
        self.data.bytes()
    }
}

impl<T: ByteStore> ByteCord<T> {
    /// Returns a new [`ByteCord`] wrapping the provided data.
    pub fn new(data: T) -> (r: Self)
        ensures
            r@ == data.bytes(),
    {
        ByteCord { data }
    }

    /// Returns a new reader over this cord with default alignment (1 byte,
    /// meaning no padding is skipped between reads).
    pub fn read<'s>(&'s self) -> (r: ByteCordReader<'s, T>)
        requires
            self@.len() <= usize::MAX,
        ensures
            r.wf(),
            r.buf() == self@,
            r.spec_alignment() == 1,
            r.spec_position() == 0,
    {
        ByteCordReader::new(self)
    }

    /// Returns a new reader over this cord with the given alignment, which
    /// must be a power of two (or 1, meaning no padding is skipped between
    /// reads).
    pub fn read_with_alignment<'s>(&'s self, alignment: usize) -> (r: ByteCordReader<'s, T>)
        requires
            is_alignment(alignment),
            self@.len() + alignment - 1 <= usize::MAX,
        ensures
            r.wf(),
            r.buf() == self@,
            r.spec_alignment() == alignment,
            r.spec_position() == 0,
    {
        ByteCordReader::with_alignment(self, alignment)
    }

    /// Returns a byte slice starting at `position` with the given `length`,
    /// or `None` if the range is out of bounds.
    pub fn at_n(&self, position: usize, length: usize) -> (r: Option<&[u8]>)
        ensures
            r is Some <==> range_in_bounds(position as int, length as int, self@.len() as int),
            r matches Some(s) ==> s@ == self@.subrange(position as int, position + length),
    {
        let data = self.data.byte_slice();
        if length > data.len() || position > data.len() - length {
            None
        } else {
            Some(slice_subrange(data, position, position + length))
        }
    }

    /// Returns the number of bytes held by this cord.
    pub fn len(&self) -> (r: usize)
        ensures
            r == self@.len(),
    {
        self.data.byte_slice().len()
    }

    /// Returns `true` if the underlying data is empty.
    pub fn is_empty(&self) -> (r: bool)
        ensures
            r == (self@.len() == 0),
    {
        self.data.byte_slice().is_empty()
    }
}

impl<T: ByteStoreMut> ByteCord<T> {
    /// Returns a mutable byte slice starting at `position` with the given
    /// `length`, or `None` if the range is out of bounds. Writes through the
    /// returned slice land in that range of the cord; the bytes outside it
    /// are unchanged. The bounds condition is the same as for [`Self::at_n`].
    pub fn at_n_mut(&mut self, position: usize, length: usize) -> (r: Option<&mut [u8]>)
        ensures
            r is Some <==> range_in_bounds(
                position as int,
                length as int,
                old(self)@.len() as int,
            ),
            r is Some ==> r.unwrap()@ == old(self)@.subrange(position as int, position + length)
                && final(self)@ == old(self)@.subrange(0, position as int) + final(r.unwrap())@
                + old(self)@.subrange(position + length, old(self)@.len() as int),
            r is None ==> final(self)@ == old(self)@,
    {
        let data = self.data.byte_slice_mut();
        if length > data.len() || position > data.len() - length {
            None
        } else {
            let (head, tail) = data.split_at_mut(position);
            let (mid, rest) = tail.split_at_mut(length);
            proof {
                assert(mid@ =~= old(self)@.subrange(position as int, position + length));
                assert(rest@ =~= old(self)@.subrange(position + length, old(self)@.len() as int));
                assert(head@ =~= old(self)@.subrange(0, position as int));
            }
            Some(mid)
        }
    }
}

} // verus!
