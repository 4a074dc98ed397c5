//! Size and alignment arithmetic for variable-length records.
//!
//! A record occupies `name_offset` header bytes followed by a UCS-2 name
//! trailer of `2 * units` bytes (terminator included), and its total size
//! is that sum rounded up to the record kind's alignment.

use vstd::arithmetic::div_mod::{
    lemma_fundamental_div_mod, lemma_mod_multiples_basic, lemma_mod_self_0,
};
use vstd::prelude::*;

verus! {

/// Number of leading bytes that must be trimmed from a region whose first
/// byte sits at address `base` so that the first kept byte lies on an
/// `align`-byte boundary.
pub open spec fn spec_align_offset(base: int, align: int) -> int
    recommends
        align > 0,
{
    (align - base % align) % align
}

/// Smallest multiple of `align` that is at least `n`.
pub open spec fn spec_round_up(n: int, align: int) -> int
    recommends
        align > 0,
{
    ((n + align - 1) / align) * align
}

/// Total byte length of a record with `name_offset` header bytes and a name
/// of `units_with_nul` UCS-2 code units (terminator included), rounded up to
/// the kind's alignment.
pub open spec fn spec_record_size(name_offset: int, units_with_nul: int, align: int) -> int
    recommends
        align > 0,
{
    spec_round_up(name_offset + 2 * units_with_nul, align)
}

/// Rounding up lands on a multiple of the alignment, never below the raw
/// size, and never a full alignment step above it.
pub proof fn lemma_round_up_props(n: int, align: int)
    requires
        0 <= n,
        0 < align,
    ensures
        spec_round_up(n, align) % align == 0,
        n <= spec_round_up(n, align) < n + align,
        n % align == 0 ==> spec_round_up(n, align) == n,
{
    let q = (n + align - 1) / align;
    let r = (n + align - 1) % align;
    lemma_fundamental_div_mod(n + align - 1, align);
    assert(spec_round_up(n, align) == n + align - 1 - r);
    lemma_mod_multiples_basic(q, align);
    if n % align == 0 {
        let nq = n / align;
        lemma_fundamental_div_mod(n, align);
        assert(n + align - 1 == nq * align + (align - 1));
        vstd::arithmetic::div_mod::lemma_fundamental_div_mod_converse_mod(
            n + align - 1,
            align,
            nq,
            align - 1,
        );
    }
}

/// The size invariant every record kind obeys: the computed total size is a
/// multiple of the kind's alignment and is at least the header size plus
/// `2 * units_with_nul` bytes of name trailer.
pub proof fn lemma_record_size_invariant(name_offset: int, units_with_nul: int, align: int)
    requires
        0 <= name_offset,
        0 <= units_with_nul,
        0 < align,
    ensures
        spec_record_size(name_offset, units_with_nul, align) % align == 0,
        spec_record_size(name_offset, units_with_nul, align) >= name_offset + 2 * units_with_nul,
        spec_record_size(name_offset, units_with_nul, align) < name_offset + 2 * units_with_nul
            + align,
{
    lemma_round_up_props(name_offset + 2 * units_with_nul, align);
}

/// A record without header bytes and with a two-byte alignment needs no
/// rounding beyond the code-unit boundary: its total size is exactly the
/// name trailer, `2 * units_with_nul` bytes.
pub proof fn lemma_headerless_size_exact(units_with_nul: int)
    requires
        0 <= units_with_nul,
    ensures
        spec_record_size(0, units_with_nul, 2) == 2 * units_with_nul,
{
    lemma_round_up_props(2 * units_with_nul, 2);
    lemma_mod_multiples_basic(units_with_nul, 2);
}

/// The trim offset is always smaller than the alignment, and a base that is
/// already aligned is not trimmed at all.
pub proof fn lemma_align_offset_props(base: int, align: int)
    requires
        0 <= base,
        0 < align,
    ensures
        0 <= spec_align_offset(base, align) < align,
        (base + spec_align_offset(base, align)) % align == 0,
{
    let m = base % align;
    lemma_fundamental_div_mod(base, align);
    if m == 0 {
        lemma_mod_self_0(align);
        assert(spec_align_offset(base, align) == 0) by {
            assert(align % align == 0) by {
                lemma_mod_multiples_basic(1, align);
            }
        }
        lemma_mod_multiples_basic(base / align, align);
    } else {
        assert((align - m) % align == align - m) by {
            vstd::arithmetic::div_mod::lemma_small_mod((align - m) as nat, align as nat);
        }
        let q = base / align;
        assert(base == align * q + m);
        assert(base + (align - m) == (q + 1) * align) by (nonlinear_arith)
            requires
                base == align * q + m,
        ;
        lemma_mod_multiples_basic(q + 1, align);
    }
}

/// Exact rounded size of a record, as `spec_record_size` describes it.
pub fn record_size(name_offset: usize, units_with_nul: usize, align: usize) -> (r: usize)
    requires
        0 < align,
        name_offset + 2 * units_with_nul + align - 1 <= usize::MAX,
    ensures
        r == spec_record_size(name_offset as int, units_with_nul as int, align as int),
{
    let raw: usize = name_offset + 2 * units_with_nul;
    proof {
        lemma_round_up_props(raw as int, align as int);
    }
    ((raw + (align - 1)) / align) * align
}

/// Number of leading bytes to trim so that a region based at `base` starts
/// on an `align`-byte boundary.
pub fn align_offset(base: usize, align: usize) -> (r: usize)
    requires
        0 < align,
    ensures
        r == spec_align_offset(base as int, align as int),
        r < align,
{
    proof {
        lemma_align_offset_props(base as int, align as int);
    }
    (align - base % align) % align
}

} // verus!
