//! [`ByteCordBuilder`]: accumulates bytes into a growable sequence, padding
//! with zeros after every append so that the length stays a multiple of the
//! builder's alignment.

use vstd::bytes::{
    spec_u128_to_le_bytes, spec_u16_to_le_bytes, spec_u32_to_le_bytes, spec_u64_to_le_bytes,
    u128_to_le_bytes, u16_to_le_bytes, u32_to_le_bytes, u64_to_le_bytes,
};
use vstd::prelude::*;

use crate::align::{is_alignment, lemma_alignment_positive, round_up};
use crate::scalar::{
    i128_to_u128, i16_to_u16, i32_to_u32, i64_to_u64, i8_to_u8, reversed, spec_i128_to_u128,
    spec_i16_to_u16, spec_i32_to_u32, spec_i64_to_u64, spec_i8_to_u8, spec_u128_to_be_bytes,
    spec_u16_to_be_bytes, spec_u32_to_be_bytes, spec_u64_to_be_bytes,
};

verus! {

/// The sequence obtained by appending `b` to `s` and then padding with zero
/// bytes up to the next multiple of the alignment `a`. Every append operation
/// of [`ByteCordBuilder`] extends the accumulated bytes this way.
pub open spec fn append_aligned(s: Seq<u8>, b: Seq<u8>, a: int) -> Seq<u8>
    recommends
        a >= 1,
{
    let t = s + b;
    t + Seq::new((round_up(t.len() as int, a) - t.len()) as nat, |i: int| 0u8)
}

/// Accumulates bytes, padding each append with zeros to the next multiple of
/// the alignment; finalized once into an immutable boxed slice.
pub struct ByteCordBuilder {
    inner: Vec<u8>,
    alignment: usize,
}

impl View for ByteCordBuilder {
    type V = Seq<u8>;

    closed spec fn view(&self) -> Seq<u8> {
        self.inner@
    }
}

impl ByteCordBuilder {
    /// The alignment this builder was constructed with.
    pub closed spec fn spec_alignment(&self) -> usize {
        self.alignment
    }

    /// Well-formedness: the alignment is valid and the accumulated length is
    /// a multiple of it. Constructors establish this and every append keeps
    /// it, so the padding invariant holds after every single call.
    pub open spec fn wf(&self) -> bool {
        &&& is_alignment(self.spec_alignment())
        &&& (self@.len() as int) % (self.spec_alignment() as int) == 0
    }

    /// Returns a new builder with the given alignment, pre-reserving storage
    /// for `capacity` bytes. The alignment must be a power of two (or 1,
    /// meaning no padding).
    pub fn with_capacity(capacity: usize, alignment: usize) -> (r: Self)
        requires
            is_alignment(alignment),
        ensures
            r.wf(),
            r@ == Seq::<u8>::empty(),
            r.spec_alignment() == alignment,
    {
        proof {
            lemma_alignment_positive(alignment);
        }
        let r = ByteCordBuilder { inner: Vec::with_capacity(capacity), alignment };
        proof {
            assert(r@ =~= Seq::<u8>::empty());
        }
        r
    }

    /// Returns a new, empty builder with the given alignment.
    pub fn new(alignment: usize) -> (r: Self)
        requires
            is_alignment(alignment),
        ensures
            r.wf(),
            r@ == Seq::<u8>::empty(),
            r.spec_alignment() == alignment,
    {
        Self::with_capacity(0, alignment)
    }

    /// Appends all bytes of `slice`, then appends zero bytes until the new
    /// length is a multiple of the alignment. This is the primitive that all
    /// other append operations build on.
    pub fn append_from_slice(&mut self, slice: &[u8])
        requires
            old(self).wf(),
            old(self)@.len() + slice@.len() + old(self).spec_alignment() - 1 <= usize::MAX,
        ensures
            final(self).wf(),
            final(self).spec_alignment() == old(self).spec_alignment(),
            final(self)@ == append_aligned(
                old(self)@,
                slice@,
                old(self).spec_alignment() as int,
            ),
    {
        proof {
            lemma_alignment_positive(self.alignment);
        }
        self.inner.extend_from_slice(slice);
        let len = self.inner.len();
        let rem = len % self.alignment;
        if rem != 0 {
            let pad = self.alignment - rem;
            let mut i: usize = 0;
            while i < pad
                invariant
                    i <= pad,
                    pad < self.alignment,
                    self.alignment == old(self).spec_alignment(),
                    is_alignment(self.alignment),
                    len + pad <= usize::MAX,
                    self.inner@.len() == len + i,
                    self.inner@ == old(self)@ + slice@ + Seq::new(i as nat, |j: int| 0u8),
                decreases pad - i,
            {
                self.inner.push(0u8);
                proof {
                    assert(self.inner@ =~= old(self)@ + slice@ + Seq::new(
                        (i + 1) as nat,
                        |j: int| 0u8,
                    ));
                }
                i += 1;
            }
        }
        proof {
            crate::align::lemma_round_up_is_least_multiple(
                (old(self)@.len() + slice@.len()) as int,
                self.alignment as int,
            );
            assert(self.inner@ =~= append_aligned(
                old(self)@,
                slice@,
                old(self).spec_alignment() as int,
            ));
            assert((self.inner@.len() as int) % (self.alignment as int) == 0);
        }
    }

    /// Appends the `S` bytes of `bytes`, then pads to alignment.
    pub fn append<const S: usize>(&mut self, bytes: &[u8; S])
        requires
            old(self).wf(),
            old(self)@.len() + S + old(self).spec_alignment() - 1 <= usize::MAX,
        ensures
            final(self).wf(),
            final(self).spec_alignment() == old(self).spec_alignment(),
            final(self)@ == append_aligned(
                old(self)@,
                bytes@,
                old(self).spec_alignment() as int,
            ),
    {
        self.append_from_slice(bytes.as_slice());
    }

    /// Consumes the builder, returning the accumulated bytes as an immutable
    /// boxed slice.
    pub fn into_boxed_slice(self) -> (r: Box<[u8]>)
        ensures
            r@ == self@,
    {
        vec_into_boxed_slice(self.inner)
    }

    /// Appends `value` as a single byte, then pads with zero bytes to the
    /// next multiple of the alignment.
    pub fn append_u8(&mut self, value: u8)
        requires
            old(self).wf(),
            old(self)@.len() + 1 + old(self).spec_alignment() - 1 <= usize::MAX,
        ensures
            final(self).wf(),
            final(self).spec_alignment() == old(self).spec_alignment(),
            final(self)@ == append_aligned(
                old(self)@,
                seq![value],
                old(self).spec_alignment() as int,
            ),
    {
        let mut bytes: Vec<u8> = Vec::new();
        bytes.push(value);
        proof {
            assert(bytes@ =~= seq![value]);
        }
        self.append_from_slice(bytes.as_slice());
    }

    /// Appends `value` as a single byte, two's complement, then pads with zero bytes to the
    /// next multiple of the alignment.
    pub fn append_i8(&mut self, value: i8)
        requires
            old(self).wf(),
            old(self)@.len() + 1 + old(self).spec_alignment() - 1 <= usize::MAX,
        ensures
            final(self).wf(),
            final(self).spec_alignment() == old(self).spec_alignment(),
            final(self)@ == append_aligned(
                old(self)@,
                seq![spec_i8_to_u8(value)],
                old(self).spec_alignment() as int,
            ),
    {
        let mut bytes: Vec<u8> = Vec::new();
        bytes.push(i8_to_u8(value));
        proof {
            assert(bytes@ =~= seq![spec_i8_to_u8(value)]);
        }
        self.append_from_slice(bytes.as_slice());
    }

    /// Appends `value` as two big-endian bytes, then pads with zero bytes to the
    /// next multiple of the alignment.
    pub fn append_be_u16(&mut self, value: u16)
        requires
            old(self).wf(),
            old(self)@.len() + 2 + old(self).spec_alignment() - 1 <= usize::MAX,
        ensures
            final(self).wf(),
            final(self).spec_alignment() == old(self).spec_alignment(),
            final(self)@ == append_aligned(
                old(self)@,
                spec_u16_to_be_bytes(value),
                old(self).spec_alignment() as int,
            ),
    {
        let bytes = u16_to_le_bytes(value);
        let rev = reversed(bytes.as_slice());
        self.append_from_slice(rev.as_slice());
    }

    /// Appends `value` as two little-endian bytes, then pads with zero bytes to the
    /// next multiple of the alignment.
    pub fn append_le_u16(&mut self, value: u16)
        requires
            old(self).wf(),
            old(self)@.len() + 2 + old(self).spec_alignment() - 1 <= usize::MAX,
        ensures
            final(self).wf(),
            final(self).spec_alignment() == old(self).spec_alignment(),
            final(self)@ == append_aligned(
                old(self)@,
                spec_u16_to_le_bytes(value),
                old(self).spec_alignment() as int,
            ),
    {
        let bytes = u16_to_le_bytes(value);
        self.append_from_slice(bytes.as_slice());
    }

    /// Appends `value` as four big-endian bytes, then pads with zero bytes to the
    /// next multiple of the alignment.
    pub fn append_be_u32(&mut self, value: u32)
        requires
            old(self).wf(),
            old(self)@.len() + 4 + old(self).spec_alignment() - 1 <= usize::MAX,
        ensures
            final(self).wf(),
            final(self).spec_alignment() == old(self).spec_alignment(),
            final(self)@ == append_aligned(
                old(self)@,
                spec_u32_to_be_bytes(value),
                old(self).spec_alignment() as int,
            ),
    {
        let bytes = u32_to_le_bytes(value);
        let rev = reversed(bytes.as_slice());
        self.append_from_slice(rev.as_slice());
    }

    /// Appends `value` as four little-endian bytes, then pads with zero bytes to the
    /// next multiple of the alignment.
    pub fn append_le_u32(&mut self, value: u32)
        requires
            old(self).wf(),
            old(self)@.len() + 4 + old(self).spec_alignment() - 1 <= usize::MAX,
        ensures
            final(self).wf(),
            final(self).spec_alignment() == old(self).spec_alignment(),
            final(self)@ == append_aligned(
                old(self)@,
                spec_u32_to_le_bytes(value),
                old(self).spec_alignment() as int,
            ),
    {
        let bytes = u32_to_le_bytes(value);
        self.append_from_slice(bytes.as_slice());
    }

    /// Appends `value` as eight big-endian bytes, then pads with zero bytes to the
    /// next multiple of the alignment.
    pub fn append_be_u64(&mut self, value: u64)
        requires
            old(self).wf(),
            old(self)@.len() + 8 + old(self).spec_alignment() - 1 <= usize::MAX,
        ensures
            final(self).wf(),
            final(self).spec_alignment() == old(self).spec_alignment(),
            final(self)@ == append_aligned(
                old(self)@,
                spec_u64_to_be_bytes(value),
                old(self).spec_alignment() as int,
            ),
    {
        let bytes = u64_to_le_bytes(value);
        let rev = reversed(bytes.as_slice());
        self.append_from_slice(rev.as_slice());
    }

    /// Appends `value` as eight little-endian bytes, then pads with zero bytes to the
    /// next multiple of the alignment.
    pub fn append_le_u64(&mut self, value: u64)
        requires
            old(self).wf(),
            old(self)@.len() + 8 + old(self).spec_alignment() - 1 <= usize::MAX,
        ensures
            final(self).wf(),
            final(self).spec_alignment() == old(self).spec_alignment(),
            final(self)@ == append_aligned(
                old(self)@,
                spec_u64_to_le_bytes(value),
                old(self).spec_alignment() as int,
            ),
    {
        let bytes = u64_to_le_bytes(value);
        self.append_from_slice(bytes.as_slice());
    }

    /// Appends `value` as sixteen big-endian bytes, then pads with zero bytes to the
    /// next multiple of the alignment.
    pub fn append_be_u128(&mut self, value: u128)
        requires
            old(self).wf(),
            old(self)@.len() + 16 + old(self).spec_alignment() - 1 <= usize::MAX,
        ensures
            final(self).wf(),
            final(self).spec_alignment() == old(self).spec_alignment(),
            final(self)@ == append_aligned(
                old(self)@,
                spec_u128_to_be_bytes(value),
                old(self).spec_alignment() as int,
            ),
    {
        let bytes = u128_to_le_bytes(value);
        let rev = reversed(bytes.as_slice());
        self.append_from_slice(rev.as_slice());
    }

    /// Appends `value` as sixteen little-endian bytes, then pads with zero bytes to the
    /// next multiple of the alignment.
    pub fn append_le_u128(&mut self, value: u128)
        requires
            old(self).wf(),
            old(self)@.len() + 16 + old(self).spec_alignment() - 1 <= usize::MAX,
        ensures
            final(self).wf(),
            final(self).spec_alignment() == old(self).spec_alignment(),
            final(self)@ == append_aligned(
                old(self)@,
                spec_u128_to_le_bytes(value),
                old(self).spec_alignment() as int,
            ),
    {
        let bytes = u128_to_le_bytes(value);
        self.append_from_slice(bytes.as_slice());
    }

    /// Appends `value` as two big-endian bytes, two's complement, then pads with zero bytes to the
    /// next multiple of the alignment.
    pub fn append_be_i16(&mut self, value: i16)
        requires
            old(self).wf(),
            old(self)@.len() + 2 + old(self).spec_alignment() - 1 <= usize::MAX,
        ensures
            final(self).wf(),
            final(self).spec_alignment() == old(self).spec_alignment(),
            final(self)@ == append_aligned(
                old(self)@,
                spec_u16_to_be_bytes(spec_i16_to_u16(value)),
                old(self).spec_alignment() as int,
            ),
    {
        let bytes = u16_to_le_bytes(i16_to_u16(value));
        let rev = reversed(bytes.as_slice());
        self.append_from_slice(rev.as_slice());
    }

    /// Appends `value` as two little-endian bytes, two's complement, then pads with zero bytes to the
    /// next multiple of the alignment.
    pub fn append_le_i16(&mut self, value: i16)
        requires
            old(self).wf(),
            old(self)@.len() + 2 + old(self).spec_alignment() - 1 <= usize::MAX,
        ensures
            final(self).wf(),
            final(self).spec_alignment() == old(self).spec_alignment(),
            final(self)@ == append_aligned(
                old(self)@,
                spec_u16_to_le_bytes(spec_i16_to_u16(value)),
                old(self).spec_alignment() as int,
            ),
    {
        let bytes = u16_to_le_bytes(i16_to_u16(value));
        self.append_from_slice(bytes.as_slice());
    }

    /// Appends `value` as four big-endian bytes, two's complement, then pads with zero bytes to the
    /// next multiple of the alignment.
    pub fn append_be_i32(&mut self, value: i32)
        requires
            old(self).wf(),
            old(self)@.len() + 4 + old(self).spec_alignment() - 1 <= usize::MAX,
        ensures
            final(self).wf(),
            final(self).spec_alignment() == old(self).spec_alignment(),
            final(self)@ == append_aligned(
                old(self)@,
                spec_u32_to_be_bytes(spec_i32_to_u32(value)),
                old(self).spec_alignment() as int,
            ),
    {
        let bytes = u32_to_le_bytes(i32_to_u32(value));
        let rev = reversed(bytes.as_slice());
        self.append_from_slice(rev.as_slice());
    }

    /// Appends `value` as four little-endian bytes, two's complement, then pads with zero bytes to the
    /// next multiple of the alignment.
    pub fn append_le_i32(&mut self, value: i32)
        requires
            old(self).wf(),
            old(self)@.len() + 4 + old(self).spec_alignment() - 1 <= usize::MAX,
        ensures
            final(self).wf(),
            final(self).spec_alignment() == old(self).spec_alignment(),
            final(self)@ == append_aligned(
                old(self)@,
                spec_u32_to_le_bytes(spec_i32_to_u32(value)),
                old(self).spec_alignment() as int,
            ),
    {
        let bytes = u32_to_le_bytes(i32_to_u32(value));
        self.append_from_slice(bytes.as_slice());
    }

    /// Appends `value` as eight big-endian bytes, two's complement, then pads with zero bytes to the
    /// next multiple of the alignment.
    pub fn append_be_i64(&mut self, value: i64)
        requires
            old(self).wf(),
            old(self)@.len() + 8 + old(self).spec_alignment() - 1 <= usize::MAX,
        ensures
            final(self).wf(),
            final(self).spec_alignment() == old(self).spec_alignment(),
            final(self)@ == append_aligned(
                old(self)@,
                spec_u64_to_be_bytes(spec_i64_to_u64(value)),
                old(self).spec_alignment() as int,
            ),
    {
        let bytes = u64_to_le_bytes(i64_to_u64(value));
        let rev = reversed(bytes.as_slice());
        self.append_from_slice(rev.as_slice());
    }

    /// Appends `value` as eight little-endian bytes, two's complement, then pads with zero bytes to the
    /// next multiple of the alignment.
    pub fn append_le_i64(&mut self, value: i64)
        requires
            old(self).wf(),
            old(self)@.len() + 8 + old(self).spec_alignment() - 1 <= usize::MAX,
        ensures
            final(self).wf(),
            final(self).spec_alignment() == old(self).spec_alignment(),
            final(self)@ == append_aligned(
                old(self)@,
                spec_u64_to_le_bytes(spec_i64_to_u64(value)),
                old(self).spec_alignment() as int,
            ),
    {
        let bytes = u64_to_le_bytes(i64_to_u64(value));
        self.append_from_slice(bytes.as_slice());
    }

    /// Appends `value` as sixteen big-endian bytes, two's complement, then pads with zero bytes to the
    /// next multiple of the alignment.
    pub fn append_be_i128(&mut self, value: i128)
        requires
            old(self).wf(),
            old(self)@.len() + 16 + old(self).spec_alignment() - 1 <= usize::MAX,
        ensures
            final(self).wf(),
            final(self).spec_alignment() == old(self).spec_alignment(),
            final(self)@ == append_aligned(
                old(self)@,
                spec_u128_to_be_bytes(spec_i128_to_u128(value)),
                old(self).spec_alignment() as int,
            ),
    {
        let bytes = u128_to_le_bytes(i128_to_u128(value));
        let rev = reversed(bytes.as_slice());
        self.append_from_slice(rev.as_slice());
    }

    /// Appends `value` as sixteen little-endian bytes, two's complement, then pads with zero bytes to the
    /// next multiple of the alignment.
    pub fn append_le_i128(&mut self, value: i128)
        requires
            old(self).wf(),
            old(self)@.len() + 16 + old(self).spec_alignment() - 1 <= usize::MAX,
        ensures
            final(self).wf(),
            final(self).spec_alignment() == old(self).spec_alignment(),
            final(self)@ == append_aligned(
                old(self)@,
                spec_u128_to_le_bytes(spec_i128_to_u128(value)),
                old(self).spec_alignment() as int,
            ),
    {
        let bytes = u128_to_le_bytes(i128_to_u128(value));
        self.append_from_slice(bytes.as_slice());
    }
}

/// Relies on `Vec::into_boxed_slice`: returns the vector's bytes, unchanged,
/// as a boxed slice.
#[verifier::external_body]
fn vec_into_boxed_slice(v: Vec<u8>) -> (r: Box<[u8]>)
    ensures
        r@ == v@,
{
    v.into_boxed_slice()
}

} // verus!
