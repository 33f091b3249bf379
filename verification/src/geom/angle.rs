//! Angles in microdegrees.

use super::trig::{cos_sin, cos_spec, sin_spec, FULL_TURN, HALF_TURN, UNIT};
use crate::math::div_toward_zero;
use std::ops::{Add, Div, Neg, Sub};
use vstd::prelude::*;
use vstd::std_specs::ops::{AddSpecImpl, DivSpecImpl, NegSpecImpl, SubSpecImpl};

verus! {

/// The largest number of whole degrees, in magnitude, that an `Angle` holds.
pub const MAX_DEGREES: i64 = 9_000_000_000_000;

/// An angle, counted in microdegrees, counter-clockwise. It may span any
/// number of turns: `clamp2pi` and `clamp_pos_neg_pi` bring it back into one.
#[derive(Clone, Copy, Debug, PartialEq, Eq, Structural)]
pub struct Angle {
    pub microdegrees: i64,
}

impl Angle {
    /// The angle brought into `[0, FULL_TURN)` by adding or removing whole
    /// turns, in microdegrees.
    pub open spec fn wrapped(self) -> int {
        (self.microdegrees as int) % (FULL_TURN as int)
    }

    /// The angle brought into `(-HALF_TURN, HALF_TURN]` by adding or removing
    /// whole turns, in microdegrees.
    pub open spec fn wrapped_signed(self) -> int {
        if self.wrapped() > HALF_TURN {
            self.wrapped() - FULL_TURN
        } else {
            self.wrapped()
        }
    }

    /// The zero angle.
    pub fn new() -> (r: Angle)
        ensures
            r.microdegrees == 0,
    {
        Angle::zero()
    }

    /// The zero angle.
    pub fn zero() -> (r: Angle)
        ensures
            r.microdegrees == 0,
    {
        Angle { microdegrees: 0 }
    }

    /// Half a turn.
    pub fn half() -> (r: Angle)
        ensures
            r.microdegrees == HALF_TURN,
    {
        Angle { microdegrees: HALF_TURN }
    }

    /// A full turn.
    pub fn full() -> (r: Angle)
        ensures
            r.microdegrees == FULL_TURN,
    {
        Angle { microdegrees: FULL_TURN }
    }

    /// The angle of `degrees` whole degrees.
    pub fn from_degrees(degrees: i64) -> (r: Angle)
        requires
            -MAX_DEGREES <= degrees <= MAX_DEGREES,
        ensures
            r.microdegrees == degrees * 1_000_000,
    {
        Angle { microdegrees: degrees * 1_000_000 }
    }

    /// The whole degrees in the angle, rounded toward zero.
    pub fn degrees(&self) -> (d: i64)
        ensures
            d == div_toward_zero(self.microdegrees as int, 1_000_000),
    {
        self.microdegrees / 1_000_000
    }

    /// The sine of the angle, in millionths.
    pub fn sin(&self) -> (s: i64)
        ensures
            s == sin_spec(self.microdegrees as int),
            -UNIT <= s <= UNIT,
    {
        cos_sin(self.microdegrees).1
    }

    /// The cosine of the angle, in millionths.
    pub fn cos(&self) -> (c: i64)
        ensures
            c == cos_spec(self.microdegrees as int),
            -UNIT <= c <= UNIT,
    {
        cos_sin(self.microdegrees).0
    }

    /// The same direction, in `[0, FULL_TURN)`.
    pub fn clamp2pi(&self) -> (r: Angle)
        ensures
            r.microdegrees == self.wrapped(),
            0 <= r.microdegrees < FULL_TURN,
    {
        let m: i64 = self.microdegrees % FULL_TURN;
        proof {
            let a = self.microdegrees as int;
            assert(a < 0 && (-a) % 360_000_000 != 0 ==> a % 360_000_000 == 360_000_000 - (-a)
                % 360_000_000) by (nonlinear_arith);
            assert(a < 0 && (-a) % 360_000_000 == 0 ==> a % 360_000_000 == 0) by (nonlinear_arith);
        }
        if m < 0 {
            Angle { microdegrees: m + FULL_TURN }
        } else {
            Angle { microdegrees: m }
        }
    }

    /// The same direction, in `(-HALF_TURN, HALF_TURN]`.
    pub fn clamp_pos_neg_pi(&self) -> (r: Angle)
        ensures
            r.microdegrees == self.wrapped_signed(),
            -HALF_TURN < r.microdegrees <= HALF_TURN,
    {
        let twopi = self.clamp2pi();
        if twopi.microdegrees > HALF_TURN {
            Angle { microdegrees: twopi.microdegrees - FULL_TURN }
        } else {
            twopi
        }
    }
}

/// Wrapping an angle that is already within one turn changes nothing, and
/// two angles a whole number of turns apart wrap to the same angle.
pub proof fn lemma_wrapped_laws(a: Angle, b: Angle, turns: int)
    ensures
        0 <= a.wrapped() < FULL_TURN,
        0 <= a.microdegrees < FULL_TURN ==> a.wrapped() == a.microdegrees,
        b.microdegrees == a.microdegrees + turns * FULL_TURN ==> b.wrapped() == a.wrapped(),
{
    let x = a.microdegrees as int;
    assert((x + turns * 360_000_000) % 360_000_000 == x % 360_000_000) by (nonlinear_arith);
}

impl NegSpecImpl for Angle {
    open spec fn obeys_neg_spec() -> bool {
        true
    }

    open spec fn neg_req(self) -> bool {
        self.microdegrees > i64::MIN
    }

    open spec fn neg_spec(self) -> Angle {
        Angle { microdegrees: (-self.microdegrees) as i64 }
    }
}

impl Neg for Angle {
    type Output = Angle;

    fn neg(self) -> Angle {
        Angle { microdegrees: -self.microdegrees }
    }
}

impl AddSpecImpl<Angle> for Angle {
    open spec fn obeys_add_spec() -> bool {
        true
    }

    open spec fn add_req(self, rhs: Angle) -> bool {
        i64::MIN <= self.microdegrees + rhs.microdegrees <= i64::MAX
    }

    open spec fn add_spec(self, rhs: Angle) -> Angle {
        Angle { microdegrees: (self.microdegrees + rhs.microdegrees) as i64 }
    }
}

impl Add<Angle> for Angle {
    type Output = Angle;

    fn add(self, rhs: Angle) -> Angle {
        Angle { microdegrees: self.microdegrees + rhs.microdegrees }
    }
}

impl SubSpecImpl<Angle> for Angle {
    open spec fn obeys_sub_spec() -> bool {
        true
    }

    open spec fn sub_req(self, rhs: Angle) -> bool {
        i64::MIN <= self.microdegrees - rhs.microdegrees <= i64::MAX
    }

    open spec fn sub_spec(self, rhs: Angle) -> Angle {
        Angle { microdegrees: (self.microdegrees - rhs.microdegrees) as i64 }
    }
}

impl Sub<Angle> for Angle {
    type Output = Angle;

    fn sub(self, rhs: Angle) -> Angle {
        Angle { microdegrees: self.microdegrees - rhs.microdegrees }
    }
}

impl DivSpecImpl<i64> for Angle {
    open spec fn obeys_div_spec() -> bool {
        true
    }

    open spec fn div_req(self, rhs: i64) -> bool {
        rhs > 0
    }

    open spec fn div_spec(self, rhs: i64) -> Angle {
        Angle { microdegrees: div_toward_zero(self.microdegrees as int, rhs as int) as i64 }
    }
}

impl Div<i64> for Angle {
    type Output = Angle;

    fn div(self, rhs: i64) -> Angle {
        proof {
            crate::math::lemma_div_toward_zero_bounds(self.microdegrees as int, rhs as int);
        }
        Angle { microdegrees: self.microdegrees / rhs }
    }
}

} // verus!
