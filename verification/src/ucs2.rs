//! Owned null-terminated UCS-2 strings.
//!
//! A [`CString16`] holds the logical code units of a name; the null
//! terminator is part of the on-wire trailer but never part of the value.
//! Every stored code unit is non-zero, so the terminator written after the
//! units is the first and only null of the trailer.

use vstd::prelude::*;

verus! {

/// A character that one non-null UCS-2 code unit can carry.
pub open spec fn is_ucs2_unit(c: char) -> bool {
    0 < (c as u32) <= 0xffff
}

/// The code unit that carries `c`.
pub open spec fn ucs2_unit_of(c: char) -> u16 {
    (c as u32) as u16
}

/// Why a string could not be turned into UCS-2 code units.
#[derive(Clone, Copy, Debug, PartialEq, Eq, Structural)]
pub enum Ucs2Error {
    /// A null code unit stood before the end of the value.
    InteriorNul,
    /// A character does not fit in one UCS-2 code unit.
    Unrepresentable,
}

/// An owned UCS-2 string: the logical code units of a name, terminator
/// excluded. No stored unit is zero.
#[derive(Debug, PartialEq, Eq)]
pub struct CString16 {
    units: Vec<u16>,
}

impl View for CString16 {
    type V = Seq<u16>;

    closed spec fn view(&self) -> Seq<u16> {
        self.units@
    }
}

impl Clone for CString16 {
    fn clone(&self) -> (r: Self)
        ensures
            r@ == self@,
    {
        let mut units: Vec<u16> = Vec::new();
        let n = self.units.len();
        let mut i: usize = 0;
        while i < n
            invariant
                i <= n,
                n == self.units@.len(),
                units@ == self.units@.subrange(0, i as int),
            decreases n - i,
        {
            units.push(self.units[i]);
            assert(units@ =~= self.units@.subrange(0, i as int + 1));
            i = i + 1;
        }
        assert(units@ =~= self.units@);
        CString16 { units }
    }
}

impl CString16 {
    /// Every stored code unit is non-zero.
    pub open spec fn wf(&self) -> bool {
        forall|i: int| 0 <= i < self@.len() ==> self@[i] != 0
    }

    /// The empty string.
    pub fn new_empty() -> (r: CString16)
        ensures
            r@ == Seq::<u16>::empty(),
            r.wf(),
    {
        CString16 { units: Vec::new() }
    }

    /// Takes ownership of `units` as a UCS-2 value; rejects a vector that
    /// holds a null unit anywhere.
    pub fn from_u16_vec(units: Vec<u16>) -> (r: Result<CString16, Ucs2Error>)
        ensures
            r is Ok <==> (forall|i: int| 0 <= i < units@.len() ==> units@[i] != 0),
            r matches Ok(s) ==> s@ == units@ && s.wf(),
            r matches Err(e) ==> e == Ucs2Error::InteriorNul,
    {
        let n = units.len();
        let mut i: usize = 0;
        while i < n
            invariant
                i <= n,
                n == units@.len(),
                forall|k: int| 0 <= k < i ==> units@[k] != 0,
            decreases n - i,
        {
            if units[i] == 0 {
                return Err(Ucs2Error::InteriorNul);
            }
            i = i + 1;
        }
        Ok(CString16 { units })
    }

    /// Wraps units already known to be free of nulls.
    pub(crate) fn from_units_unchecked(units: Vec<u16>) -> (r: CString16)
        requires
            forall|i: int| 0 <= i < units@.len() ==> units@[i] != 0,
        ensures
            r@ == units@,
            r.wf(),
    {
        CString16 { units }
    }

    /// Converts a string to UCS-2: each character must be a non-null value
    /// of the basic multilingual plane, and becomes one code unit.
    pub fn try_from(s: &str) -> (r: Result<CString16, Ucs2Error>)
        ensures
            r is Ok <==> (forall|i: int| 0 <= i < s@.len() ==> #[trigger] is_ucs2_unit(s@[i])),
            r matches Ok(v) ==> v@ == Seq::new(s@.len(), |i: int| ucs2_unit_of(s@[i])) && v.wf(),
    {
        let n = s.unicode_len();
        let mut units: Vec<u16> = Vec::new();
        let mut i: usize = 0;
        while i < n
            invariant
                i <= n,
                n == s@.len(),
                units@.len() == i as int,
                forall|k: int| 0 <= k < i ==> #[trigger] is_ucs2_unit(s@[k]),
                forall|k: int| 0 <= k < i ==> units@[k] == ucs2_unit_of(s@[k]) && units@[k] != 0,
            decreases n - i,
        {
            let c = s.get_char(i);
            let v = c as u32;
            if v == 0 {
                assert(!is_ucs2_unit(s@[i as int]));
                return Err(Ucs2Error::InteriorNul);
            }
            if v > 0xffff {
                assert(!is_ucs2_unit(s@[i as int]));
                return Err(Ucs2Error::Unrepresentable);
            }
            units.push(v as u16);
            i = i + 1;
        }
        let r = CString16 { units };
        assert(r@ =~= Seq::new(s@.len(), |i: int| ucs2_unit_of(s@[i])));
        Ok(r)
    }

    /// Number of logical code units, terminator excluded.
    pub fn num_units(&self) -> (r: usize)
        ensures
            r == self@.len(),
    {
        self.units.len()
    }

    /// The code unit at position `i`.
    pub fn unit(&self, i: usize) -> (r: u16)
        requires
            i < self@.len(),
        ensures
            r == self@[i as int],
    {
        self.units[i]
    }

    /// The code units as a vector reference, terminator excluded.
    pub fn as_units(&self) -> (r: &Vec<u16>)
        ensures
            r@ == self@,
    {
        &self.units
    }
}

} // verus!
