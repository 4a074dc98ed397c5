//! A caller-owned raw byte region and little-endian field access into it.
//!
//! The region models the storage a caller hands to the record builder: a
//! span of bytes whose first byte sits at address `base`. Records are
//! written inside the region and never outlive it; the region itself is
//! never grown or reallocated here.

use vstd::bytes::{
    lemma_auto_spec_u16_to_from_le_bytes, lemma_auto_spec_u32_to_from_le_bytes,
    lemma_auto_spec_u64_to_from_le_bytes, spec_u16_from_le_bytes, spec_u32_from_le_bytes,
    spec_u64_from_le_bytes, u16_from_le_bytes, u16_to_le_bytes, u32_from_le_bytes,
    u32_to_le_bytes, u64_from_le_bytes, u64_to_le_bytes,
};
use vstd::prelude::*;
use vstd::slice::slice_subrange;

verus! {

/// The 16-bit little-endian value stored at byte offset `off` of `bytes`.
pub open spec fn u16_at(bytes: Seq<u8>, off: int) -> u16
    recommends
        0 <= off,
        off + 2 <= bytes.len(),
{
    spec_u16_from_le_bytes(bytes.subrange(off, off + 2))
}

/// The 32-bit little-endian value stored at byte offset `off` of `bytes`.
pub open spec fn u32_at(bytes: Seq<u8>, off: int) -> u32
    recommends
        0 <= off,
        off + 4 <= bytes.len(),
{
    spec_u32_from_le_bytes(bytes.subrange(off, off + 4))
}

/// The 64-bit little-endian value stored at byte offset `off` of `bytes`.
pub open spec fn u64_at(bytes: Seq<u8>, off: int) -> u64
    recommends
        0 <= off,
        off + 8 <= bytes.len(),
{
    spec_u64_from_le_bytes(bytes.subrange(off, off + 8))
}

/// Two byte sequences of equal length that agree on `[off, off + 2)` store
/// the same 16-bit value there.
pub proof fn lemma_agree_u16(b1: Seq<u8>, b2: Seq<u8>, off: int)
    requires
        0 <= off,
        off + 2 <= b1.len(),
        b1.len() == b2.len(),
        forall|j: int| off <= j < off + 2 ==> b1[j] == b2[j],
    ensures
        u16_at(b1, off) == u16_at(b2, off),
{
    assert(b1.subrange(off, off + 2) =~= b2.subrange(off, off + 2));
}

/// Two byte sequences of equal length that agree on `[off, off + 4)` store
/// the same 32-bit value there.
pub proof fn lemma_agree_u32(b1: Seq<u8>, b2: Seq<u8>, off: int)
    requires
        0 <= off,
        off + 4 <= b1.len(),
        b1.len() == b2.len(),
        forall|j: int| off <= j < off + 4 ==> b1[j] == b2[j],
    ensures
        u32_at(b1, off) == u32_at(b2, off),
{
    assert(b1.subrange(off, off + 4) =~= b2.subrange(off, off + 4));
}

/// Two byte sequences of equal length that agree on `[off, off + 8)` store
/// the same 64-bit value there.
pub proof fn lemma_agree_u64(b1: Seq<u8>, b2: Seq<u8>, off: int)
    requires
        0 <= off,
        off + 8 <= b1.len(),
        b1.len() == b2.len(),
        forall|j: int| off <= j < off + 8 ==> b1[j] == b2[j],
    ensures
        u64_at(b1, off) == u64_at(b2, off),
{
    assert(b1.subrange(off, off + 8) =~= b2.subrange(off, off + 8));
}

/// A caller-owned mutable byte span whose first byte sits at address `base`.
pub struct RawRegion {
    /// Address of the first byte of the span; alignment is judged against it.
    pub base: usize,
    /// The bytes of the span.
    pub bytes: Vec<u8>,
}

impl RawRegion {
    /// A region of `len` zeroed bytes based at address `base`.
    pub fn new_zeroed(base: usize, len: usize) -> (r: RawRegion)
        ensures
            r.base == base,
            r.bytes@ == Seq::new(len as nat, |i: int| 0u8),
    {
        let bytes = vec![0u8; len];
        assert(bytes@ =~= Seq::new(len as nat, |i: int| 0u8));
        RawRegion { base, bytes }
    }

    /// Number of bytes in the region.
    pub fn len(&self) -> (r: usize)
        ensures
            r == self.bytes@.len(),
    {
        self.bytes.len()
    }

    /// Overwrites the bytes at `[off, off + src.len())` with `src`, leaving
    /// every other byte, the length, and the base untouched.
    pub fn write_bytes_at(&mut self, off: usize, src: &[u8])
        requires
            off + src@.len() <= old(self).bytes@.len(),
        ensures
            final(self).base == old(self).base,
            final(self).bytes@.len() == old(self).bytes@.len(),
            forall|j: int|
                off <= j < off + src@.len() ==> final(self).bytes@[j] == src@[j - off],
            forall|j: int|
                0 <= j < old(self).bytes@.len() && !(off <= j < off + src@.len())
                    ==> final(self).bytes@[j] == old(self).bytes@[j],
    {
        let n = src.len();
        let total = self.bytes.len();
        let mut i: usize = 0;
        while i < n
            invariant
                i <= n,
                n == src@.len(),
                off + n <= total,
                self.base == old(self).base,
                self.bytes@.len() == total,
                total == old(self).bytes@.len(),
                forall|j: int| off <= j < off + i ==> self.bytes@[j] == src@[j - off],
                forall|j: int|
                    0 <= j < old(self).bytes@.len() && !(off <= j < off + i)
                        ==> self.bytes@[j] == old(self).bytes@[j],
            decreases n - i,
        {
            self.bytes.set(off + i, src[i]);
            i = i + 1;
        }
    }

    /// Stores `v` as two little-endian bytes at offset `off`.
    pub fn write_u16_at(&mut self, off: usize, v: u16)
        requires
            off + 2 <= old(self).bytes@.len(),
        ensures
            final(self).base == old(self).base,
            final(self).bytes@.len() == old(self).bytes@.len(),
            u16_at(final(self).bytes@, off as int) == v,
            forall|j: int|
                0 <= j < old(self).bytes@.len() && !(off <= j < off + 2)
                    ==> final(self).bytes@[j] == old(self).bytes@[j],
    {
        let le = u16_to_le_bytes(v);
        self.write_bytes_at(off, le.as_slice());
        proof {
            lemma_auto_spec_u16_to_from_le_bytes();
            assert(self.bytes@.subrange(off as int, off as int + 2) =~= le@);
        }
    }

    /// Stores `v` as four little-endian bytes at offset `off`.
    pub fn write_u32_at(&mut self, off: usize, v: u32)
        requires
            off + 4 <= old(self).bytes@.len(),
        ensures
            final(self).base == old(self).base,
            final(self).bytes@.len() == old(self).bytes@.len(),
            u32_at(final(self).bytes@, off as int) == v,
            forall|j: int|
                0 <= j < old(self).bytes@.len() && !(off <= j < off + 4)
                    ==> final(self).bytes@[j] == old(self).bytes@[j],
    {
        let le = u32_to_le_bytes(v);
        self.write_bytes_at(off, le.as_slice());
        proof {
            lemma_auto_spec_u32_to_from_le_bytes();
            assert(self.bytes@.subrange(off as int, off as int + 4) =~= le@);
        }
    }

    /// Stores `v` as eight little-endian bytes at offset `off`.
    pub fn write_u64_at(&mut self, off: usize, v: u64)
        requires
            off + 8 <= old(self).bytes@.len(),
        ensures
            final(self).base == old(self).base,
            final(self).bytes@.len() == old(self).bytes@.len(),
            u64_at(final(self).bytes@, off as int) == v,
            forall|j: int|
                0 <= j < old(self).bytes@.len() && !(off <= j < off + 8)
                    ==> final(self).bytes@[j] == old(self).bytes@[j],
    {
        let le = u64_to_le_bytes(v);
        self.write_bytes_at(off, le.as_slice());
        proof {
            lemma_auto_spec_u64_to_from_le_bytes();
            assert(self.bytes@.subrange(off as int, off as int + 8) =~= le@);
        }
    }

    /// Stores the single byte `v` at offset `off`.
    pub fn write_u8_at(&mut self, off: usize, v: u8)
        requires
            off < old(self).bytes@.len(),
        ensures
            final(self).base == old(self).base,
            final(self).bytes@.len() == old(self).bytes@.len(),
            final(self).bytes@[off as int] == v,
            forall|j: int|
                0 <= j < old(self).bytes@.len() && j != off
                    ==> final(self).bytes@[j] == old(self).bytes@[j],
    {
        self.bytes.set(off, v);
    }

    /// The byte stored at offset `off`.
    pub fn read_u8_at(&self, off: usize) -> (r: u8)
        requires
            off < self.bytes@.len(),
        ensures
            r == self.bytes@[off as int],
    {
        self.bytes[off]
    }

    /// The 16-bit little-endian value stored at offset `off`.
    pub fn read_u16_at(&self, off: usize) -> (r: u16)
        requires
            off + 2 <= self.bytes@.len(),
        ensures
            r == u16_at(self.bytes@, off as int),
    {
        let total = self.bytes.len();
        assert(off + 2 <= total);
        let sub = slice_subrange(self.bytes.as_slice(), off, off + 2);
        u16_from_le_bytes(sub)
    }

    /// The 32-bit little-endian value stored at offset `off`.
    pub fn read_u32_at(&self, off: usize) -> (r: u32)
        requires
            off + 4 <= self.bytes@.len(),
        ensures
            r == u32_at(self.bytes@, off as int),
    {
        let total = self.bytes.len();
        assert(off + 4 <= total);
        let sub = slice_subrange(self.bytes.as_slice(), off, off + 4);
        u32_from_le_bytes(sub)
    }

    /// The 64-bit little-endian value stored at offset `off`.
    pub fn read_u64_at(&self, off: usize) -> (r: u64)
        requires
            off + 8 <= self.bytes@.len(),
        ensures
            r == u64_at(self.bytes@, off as int),
    {
        let total = self.bytes.len();
        assert(off + 8 <= total);
        let sub = slice_subrange(self.bytes.as_slice(), off, off + 8);
        u64_from_le_bytes(sub)
    }
}

} // verus!
