//! Sine and cosine in fixed point.
//!
//! An angle is reduced to the first eighth of a turn, where the sine and
//! the cosine are evaluated as truncated power series in nanoradians. The
//! results are millionths: `UNIT` stands for one.

use vstd::prelude::*;

verus! {

/// A full turn, in microdegrees.
pub const FULL_TURN: i64 = 360_000_000;

/// Half a turn, in microdegrees.
pub const HALF_TURN: i64 = 180_000_000;

/// A quarter of a turn, in microdegrees.
pub const QUARTER_TURN: i64 = 90_000_000;

/// An eighth of a turn, in microdegrees.
pub const EIGHTH_TURN: i64 = 45_000_000;

/// The value that stands for one in a sine or a cosine.
pub const UNIT: i64 = 1_000_000;

/// The value that stands for one inside the series.
pub const ONE: i64 = 1_000_000_000;

/// An angle of `t` microdegrees, in nanoradians, rounded down.
pub open spec fn nanoradians(t: int) -> int {
    t * 17_453_292_520 / 1_000_000_000
}

/// The product of two fixed-point values of scale `ONE`, rounded down.
pub open spec fn fixed_mul(a: int, b: int) -> int {
    a * b / (ONE as int)
}

/// The sine of `t` microdegrees in millionths, for `t` in the first eighth
/// of a turn: the series up to the ninth power, rounded to the nearest.
pub open spec fn sin_octant(t: int) -> int {
    let x = nanoradians(t);
    let x2 = fixed_mul(x, x);
    let a = ONE - x2 / 72;
    let b = ONE - fixed_mul(x2, a) / 42;
    let c = ONE - fixed_mul(x2, b) / 20;
    let d = ONE - fixed_mul(x2, c) / 6;
    (fixed_mul(x, d) + 500) / 1000
}

/// The cosine of `t` microdegrees in millionths, for `t` in the first eighth
/// of a turn: the series up to the tenth power, rounded to the nearest.
pub open spec fn cos_octant(t: int) -> int {
    let x = nanoradians(t);
    let x2 = fixed_mul(x, x);
    let a = ONE - x2 / 90;
    let b = ONE - fixed_mul(x2, a) / 56;
    let c = ONE - fixed_mul(x2, b) / 30;
    let d = ONE - fixed_mul(x2, c) / 12;
    let e = ONE - fixed_mul(x2, d) / 2;
    (e + 500) / 1000
}

/// Cosine and sine of `r` microdegrees, for `r` in the first quarter of a
/// turn. Past the eighth, the two series swap roles on the complement.
pub open spec fn cos_sin_quadrant(r: int) -> (int, int) {
    if r <= EIGHTH_TURN {
        (cos_octant(r), sin_octant(r))
    } else {
        (sin_octant(QUARTER_TURN - r), cos_octant(QUARTER_TURN - r))
    }
}

/// Cosine and sine of `a` microdegrees, in millionths, for any `a`.
pub open spec fn cos_sin_spec(a: int) -> (int, int) {
    let w = a % (FULL_TURN as int);
    let (c, s) = cos_sin_quadrant(w % (QUARTER_TURN as int));
    let q = w / (QUARTER_TURN as int);
    if q == 0 {
        (c, s)
    } else if q == 1 {
        (-s, c)
    } else if q == 2 {
        (-c, -s)
    } else {
        (s, -c)
    }
}

/// The cosine of `a` microdegrees, in millionths.
pub open spec fn cos_spec(a: int) -> int {
    cos_sin_spec(a).0
}

/// The sine of `a` microdegrees, in millionths.
pub open spec fn sin_spec(a: int) -> int {
    cos_sin_spec(a).1
}

/// A fixed-point product of two values between zero and one lies between
/// zero and each factor.
pub proof fn lemma_fixed_mul_bounds(a: int, b: int)
    requires
        0 <= a <= ONE,
        0 <= b <= ONE,
    ensures
        0 <= fixed_mul(a, b) <= a,
        fixed_mul(a, b) <= b,
{
    assert(0 <= a * b <= a * 1_000_000_000 && a * b <= b * 1_000_000_000) by (nonlinear_arith)
        requires
            0 <= a <= 1_000_000_000,
            0 <= b <= 1_000_000_000,
    ;
}

/// In the first eighth of a turn the angle is less than one radian.
pub proof fn lemma_nanoradians_bounds(t: int)
    requires
        0 <= t <= EIGHTH_TURN,
    ensures
        0 <= nanoradians(t) <= 785_398_163,
        t == 0 ==> nanoradians(t) == 0,
{
}

/// Both series stay between zero and one in the first eighth of a turn.
pub proof fn lemma_octant_bounds(t: int)
    requires
        0 <= t <= EIGHTH_TURN,
    ensures
        0 <= sin_octant(t) <= UNIT,
        0 <= cos_octant(t) <= UNIT,
{
    let x = nanoradians(t);
    lemma_nanoradians_bounds(t);
    let x2 = fixed_mul(x, x);
    lemma_fixed_mul_bounds(x, x);
    {
        let a = ONE - x2 / 72;
        lemma_fixed_mul_bounds(x2, a);
        let b = ONE - fixed_mul(x2, a) / 42;
        lemma_fixed_mul_bounds(x2, b);
        let c = ONE - fixed_mul(x2, b) / 20;
        lemma_fixed_mul_bounds(x2, c);
        let d = ONE - fixed_mul(x2, c) / 6;
        lemma_fixed_mul_bounds(x, d);
    }
    {
        let a = ONE - x2 / 90;
        lemma_fixed_mul_bounds(x2, a);
        let b = ONE - fixed_mul(x2, a) / 56;
        lemma_fixed_mul_bounds(x2, b);
        let c = ONE - fixed_mul(x2, b) / 30;
        lemma_fixed_mul_bounds(x2, c);
        let d = ONE - fixed_mul(x2, c) / 12;
        lemma_fixed_mul_bounds(x2, d);
    }
}

/// Neither the cosine nor the sine of any angle exceeds one in magnitude.
pub proof fn lemma_cos_sin_bounds(a: int)
    ensures
        -UNIT <= cos_spec(a) <= UNIT,
        -UNIT <= sin_spec(a) <= UNIT,
{
    let w = a % (FULL_TURN as int);
    let r = w % (QUARTER_TURN as int);
    if r <= EIGHTH_TURN {
        lemma_octant_bounds(r);
    } else {
        lemma_octant_bounds(QUARTER_TURN - r);
    }
}

/// Adding a full turn changes neither the cosine nor the sine.
pub proof fn lemma_cos_sin_periodic(a: int)
    ensures
        cos_sin_spec(a + FULL_TURN) == cos_sin_spec(a),
{
    assert((a + 360_000_000) % 360_000_000 == a % 360_000_000) by (nonlinear_arith);
}

/// At the four quarter turns the cosine and the sine are exactly 0, 1 or -1.
pub proof fn lemma_cos_sin_quarters()
    ensures
        cos_sin_spec(0) == (UNIT as int, 0int),
        cos_sin_spec(QUARTER_TURN as int) == (0int, UNIT as int),
        cos_sin_spec(HALF_TURN as int) == (-(UNIT as int), 0int),
        cos_sin_spec(3 * QUARTER_TURN) == (0int, -(UNIT as int)),
{
    assert(nanoradians(0) == 0);
    assert(fixed_mul(0, 0) == 0);
    assert(fixed_mul(0, ONE as int) == 0);
    assert(sin_octant(0) == 0);
    assert(cos_octant(0) == UNIT);
}

/// A quarter turn further, the cosine is the sine negated and the sine is
/// the cosine.
pub proof fn lemma_cos_sin_quarter_shift(a: int)
    ensures
        cos_spec(a + QUARTER_TURN) == -sin_spec(a),
        sin_spec(a + QUARTER_TURN) == cos_spec(a),
{
    let w = a % (FULL_TURN as int);
    let w2 = (a + QUARTER_TURN) % (FULL_TURN as int);
    assert(w2 == if w + QUARTER_TURN < FULL_TURN { w + QUARTER_TURN } else { w + QUARTER_TURN - FULL_TURN }) by {
        assert((a + 90_000_000) % 360_000_000 == if a % 360_000_000 + 90_000_000 < 360_000_000 {
            a % 360_000_000 + 90_000_000
        } else {
            a % 360_000_000 + 90_000_000 - 360_000_000
        }) by (nonlinear_arith);
    }
    assert(w2 % (QUARTER_TURN as int) == w % (QUARTER_TURN as int));
    assert(w2 / (QUARTER_TURN as int) == (w / (QUARTER_TURN as int) + 1) % 4);
}

/// The fixed-point product of two values between zero and one.
fn fixed_product(a: i64, b: i64) -> (r: i64)
    requires
        0 <= a <= ONE,
        0 <= b <= ONE,
    ensures
        r == fixed_mul(a as int, b as int),
        0 <= r <= a,
        r <= b,
{
    proof {
        lemma_fixed_mul_bounds(a as int, b as int);
        assert(0 <= a * b <= 1_000_000_000 * 1_000_000_000) by (nonlinear_arith)
            requires
                0 <= a <= 1_000_000_000,
                0 <= b <= 1_000_000_000,
        ;
    }
    a * b / ONE
}

/// Evaluates both series at `t` microdegrees.
fn cos_sin_octant(t: i64) -> (r: (i64, i64))
    requires
        0 <= t <= EIGHTH_TURN,
    ensures
        r.0 == cos_octant(t as int),
        r.1 == sin_octant(t as int),
        0 <= r.0 <= UNIT,
        0 <= r.1 <= UNIT,
{
    proof {
        lemma_nanoradians_bounds(t as int);
        lemma_octant_bounds(t as int);
    }
    let x: i64 = t * 17_453_292_520 / 1_000_000_000;
    let x2: i64 = fixed_product(x, x);
    let sa: i64 = ONE - x2 / 72;
    let sb: i64 = ONE - fixed_product(x2, sa) / 42;
    let sc: i64 = ONE - fixed_product(x2, sb) / 20;
    let sd: i64 = ONE - fixed_product(x2, sc) / 6;
    let sine: i64 = (fixed_product(x, sd) + 500) / 1000;
    let ca: i64 = ONE - x2 / 90;
    let cb: i64 = ONE - fixed_product(x2, ca) / 56;
    let cc: i64 = ONE - fixed_product(x2, cb) / 30;
    let cd: i64 = ONE - fixed_product(x2, cc) / 12;
    let ce: i64 = ONE - fixed_product(x2, cd) / 2;
    let cosine: i64 = (ce + 500) / 1000;
    (cosine, sine)
}

/// Cosine and sine of an angle of `a` microdegrees, in millionths.
pub fn cos_sin(a: i64) -> (r: (i64, i64))
    ensures
        r.0 == cos_spec(a as int),
        r.1 == sin_spec(a as int),
        -UNIT <= r.0 <= UNIT,
        -UNIT <= r.1 <= UNIT,
{
    let m: i64 = a % FULL_TURN;
    let w: i64 = if m < 0 {
        m + FULL_TURN
    } else {
        m
    };
    assert(w == (a as int) % (FULL_TURN as int)) by {
        assert(a < 0 && (-(a as int)) % 360_000_000 != 0 ==> (a as int) % 360_000_000 == 360_000_000 - (-(
        a as int)) % 360_000_000) by (nonlinear_arith);
        assert(a < 0 && (-(a as int)) % 360_000_000 == 0 ==> (a as int) % 360_000_000 == 0) by (nonlinear_arith);
    }
    let q: i64 = w / QUARTER_TURN;
    let r: i64 = w % QUARTER_TURN;
    let (c, s) = if r <= EIGHTH_TURN {
        cos_sin_octant(r)
    } else {
        let (c2, s2) = cos_sin_octant(QUARTER_TURN - r);
        (s2, c2)
    };
    if q == 0 {
        (c, s)
    } else if q == 1 {
        (-s, c)
    } else if q == 2 {
        (-c, -s)
    } else {
        (s, -c)
    }
}

} // verus!
