use vstd::prelude::*;
use crate::angle::Angle;

verus! {

/// Fractional bits of every fixed-point value of the engine.
pub const FRAC_BITS: u32 = 16;

/// The fixed-point value of 1.
pub const ONE: i64 = 65536;

/// A sine or cosine value in fixed point: within `[-ONE, ONE]`.
pub open spec fn unit_value(v: i32) -> bool {
    -ONE <= v <= ONE
}

/// What a table must hold: 360 entries each, one per whole degree, all in
/// `[-ONE, ONE]`.
pub open spec fn valid_table(s: Seq<i32>) -> bool {
    &&& s.len() == 360
    &&& forall|i: int| 0 <= i < 360 ==> #[trigger] unit_value(s[i])
}

/// Sine and cosine of every whole degree, in fixed point.
///
/// The table is immutable once built; it is owned by the engine and passed
/// by reference to the code that needs directions.
#[derive(Debug)]
pub struct TrigTable {
    sin: Vec<i32>,
    cos: Vec<i32>,
}

impl TrigTable {
    #[verifier::type_invariant]
    spec fn well_formed(self) -> bool {
        valid_table(self.sin@) && valid_table(self.cos@)
    }

    /// The sine entries, indexed by degree.
    pub closed spec fn sin_seq(&self) -> Seq<i32> {
        self.sin@
    }

    /// The cosine entries, indexed by degree.
    pub closed spec fn cos_seq(&self) -> Seq<i32> {
        self.cos@
    }

    /// Builds a table from precomputed entries (`sin[d]` and `cos[d]` for
    /// degree `d`, scaled by `ONE`). Fails unless both hold 360 entries in
    /// `[-ONE, ONE]`.
    pub fn from_entries(sin: Vec<i32>, cos: Vec<i32>) -> (r: Option<TrigTable>)
        ensures
            r is Some <==> valid_table(sin@) && valid_table(cos@),
            r matches Some(t) ==> t.sin_seq() == sin@ && t.cos_seq() == cos@,
    {
        if sin.len() != 360 || cos.len() != 360 {
            return None;
        }
        let mut i: usize = 0;
        while i < 360
            invariant
                sin@.len() == 360,
                cos@.len() == 360,
                0 <= i <= 360,
                forall|k: int| 0 <= k < i ==> #[trigger] unit_value(sin@[k]),
                forall|k: int| 0 <= k < i ==> #[trigger] unit_value(cos@[k]),
            decreases 360 - i,
        {
            let s = sin[i] as i64;
            let c = cos[i] as i64;
            if s < -ONE || s > ONE || c < -ONE || c > ONE {
                assert(!unit_value(sin@[i as int]) || !unit_value(cos@[i as int]));
                return None;
            }
            assert(unit_value(sin@[i as int]) && unit_value(cos@[i as int]));
            i = i + 1;
        }
        Some(TrigTable { sin, cos })
    }

    /// Sine of `a`, scaled by `ONE`.
    pub fn sin(&self, a: Angle) -> (r: i32)
        ensures
            r == self.sin_seq()[a@],
            unit_value(r),
    {
        proof {
            use_type_invariant(self);
        }
        self.sin[a.degrees() as usize]
    }

    /// Cosine of `a`, scaled by `ONE`.
    pub fn cos(&self, a: Angle) -> (r: i32)
        ensures
            r == self.cos_seq()[a@],
            unit_value(r),
    {
        proof {
            use_type_invariant(self);
        }
        self.cos[a.degrees() as usize]
    }
}

} // verus!
