use vstd::prelude::*;

verus! {

/// Number of integer degrees in a full turn.
pub const FULL_TURN: i64 = 360;

/// The angle `d` (in degrees, any integer) brought into `[0, 360)`.
pub open spec fn norm_deg(d: int) -> int {
    d % 360
}

/// An angle of whole degrees, always in `[0, 360)`.
#[derive(Clone, Copy, Debug, PartialEq, Eq)]
pub struct Angle {
    deg: u16,
}

impl View for Angle {
    type V = int;

    closed spec fn view(&self) -> int {
        self.deg as int
    }
}

impl Angle {
    #[verifier::type_invariant]
    spec fn in_range(self) -> bool {
        self.deg < 360
    }

    /// The angle of `d` degrees, wrapped into `[0, 360)` (never negative).
    pub fn from_degrees(d: i64) -> (r: Angle)
        ensures
            r@ == norm_deg(d as int),
            0 <= r@ < 360,
    {
        let m: i64 = d % FULL_TURN;
        let w: i64 = if m < 0 { m + FULL_TURN } else { m };
        Angle { deg: w as u16 }
    }

    /// The angle in degrees.
    pub fn degrees(&self) -> (r: u16)
        ensures
            r as int == self@,
            r < 360,
    {
        proof {
            use_type_invariant(self);
        }
        self.deg
    }

    /// This angle turned by `delta` degrees, wrapped into `[0, 360)`.
    pub fn add_degrees(&self, delta: i64) -> (r: Angle)
        requires
            -0x4000_0000_0000_0000 <= delta <= 0x4000_0000_0000_0000,
        ensures
            r@ == norm_deg(self@ + delta),
    {
        let d = self.degrees();
        Angle::from_degrees(d as i64 + delta)
    }
}

/// Wrapping is unchanged by a full turn either way: for an angle `a` in
/// `[0, 360)`, normalizing `a + 360` or `a - 360` gives back `a`.
pub proof fn lemma_wrap_full_turn(a: int)
    requires
        0 <= a < 360,
    ensures
        norm_deg(a + 360) == a,
        norm_deg(a - 360) == a,
        norm_deg(a) == a,
{
}

} // verus!
