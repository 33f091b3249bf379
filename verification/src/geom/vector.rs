//! Displacements and velocities in the plane.

use super::angle::Angle;
use super::trig::{cos_sin, cos_spec, sin_spec, UNIT};
use crate::math::{div_toward_zero, is_isqrt, isqrt, isqrt_spec, lemma_div_toward_zero_bounds, lemma_square_monotone};
use std::ops::Div;
use vstd::prelude::*;
use vstd::std_specs::ops::DivSpecImpl;

verus! {

/// The largest coordinate, in magnitude, of a vector that `rotate` accepts.
pub const MAX_ROTATED: i64 = 0x3FFF_FFFF_FFFF_FFFF;

/// A displacement in micrometres, or a velocity in micrometres per second.
#[derive(Clone, Copy, Debug, PartialEq, Eq, Structural)]
pub struct Vector {
    pub x: i64,
    pub y: i64,
}

impl Vector {
    /// The square of the vector's length.
    pub open spec fn length_squared(self) -> int {
        self.x * self.x + self.y * self.y
    }

    /// The vector's length, rounded down.
    pub open spec fn length_spec(self) -> int {
        isqrt_spec(self.length_squared())
    }

    /// The vector of length `length` that points along `angle`, each
    /// coordinate rounded toward zero.
    pub open spec fn from_angle_spec(angle: Angle, length: i64) -> Vector {
        Vector {
            x: div_toward_zero(length * cos_spec(angle.microdegrees as int), UNIT as int) as i64,
            y: div_toward_zero(length * sin_spec(angle.microdegrees as int), UNIT as int) as i64,
        }
    }

    /// The vector turned counter-clockwise by `angle`, each coordinate
    /// rounded toward zero.
    pub open spec fn rotate_spec(self, angle: Angle) -> Vector {
        let c = cos_spec(angle.microdegrees as int);
        let s = sin_spec(angle.microdegrees as int);
        Vector {
            x: div_toward_zero(self.x * c - self.y * s, UNIT as int) as i64,
            y: div_toward_zero(self.x * s + self.y * c, UNIT as int) as i64,
        }
    }

    /// The vector scaled to the length `dist`, each coordinate rounded toward
    /// zero; the zero vector, which has no direction, stays zero.
    pub open spec fn norm_spec(self, dist: i64) -> Vector {
        if self.length_spec() == 0 {
            Vector { x: 0, y: 0 }
        } else {
            Vector {
                x: div_toward_zero(self.x * dist, self.length_spec()) as i64,
                y: div_toward_zero(self.y * dist, self.length_spec()) as i64,
            }
        }
    }

    /// The zero vector.
    pub fn new() -> (v: Vector)
        ensures
            v == (Vector { x: 0, y: 0 }),
    {
        Vector { x: 0, y: 0 }
    }

    /// The vector of length `length` that points along `angle`.
    pub fn from_angle(angle: Angle, length: i64) -> (v: Vector)
        requires
            length > i64::MIN,
        ensures
            v == Vector::from_angle_spec(angle, length),
            -length <= v.x <= length || length <= v.x <= -length,
            -length <= v.y <= length || length <= v.y <= -length,
    {
        let (c, s) = cos_sin(angle.microdegrees);
        let px: i128 = scaled_product(length, c);
        let py: i128 = scaled_product(length, s);
        Vector { x: px as i64, y: py as i64 }
    }

    /// The vector's length, rounded down.
    pub fn length(&self) -> (l: u64)
        ensures
            l == self.length_spec(),
            is_isqrt(self.length_squared(), l as int),
    {
        let xx: u128 = square(self.x);
        let yy: u128 = square(self.y);
        isqrt(xx + yy)
    }

    /// The vector turned counter-clockwise by `angle`.
    pub fn rotate(&self, angle: &Angle) -> (v: Vector)
        requires
            -MAX_ROTATED <= self.x <= MAX_ROTATED,
            -MAX_ROTATED <= self.y <= MAX_ROTATED,
        ensures
            v == self.rotate_spec(*angle),
    {
        let (c, s) = cos_sin(angle.microdegrees);
        let xc: i128 = bounded_product(self.x, c);
        let ys: i128 = bounded_product(self.y, s);
        let xs: i128 = bounded_product(self.x, s);
        let yc: i128 = bounded_product(self.y, c);
        let nx: i128 = xc - ys;
        let ny: i128 = xs + yc;
        proof {
            lemma_div_toward_zero_bounds(nx as int, UNIT as int);
            lemma_div_toward_zero_bounds(ny as int, UNIT as int);
            lemma_quotient_bound(nx as int, 2 * MAX_ROTATED);
            lemma_quotient_bound(ny as int, 2 * MAX_ROTATED);
        }
        Vector { x: (nx / (UNIT as i128)) as i64, y: (ny / (UNIT as i128)) as i64 }
    }

    /// The vector scaled to the length `dist`; the zero vector stays zero.
    pub fn norm(&self, dist: i64) -> (v: Vector)
        requires
            dist > i64::MIN,
        ensures
            v == self.norm_spec(dist),
            -dist <= v.x <= dist || dist <= v.x <= -dist,
            -dist <= v.y <= dist || dist <= v.y <= -dist,
    {
        let len: u64 = self.length();
        if len == 0 {
            Vector { x: 0, y: 0 }
        } else {
            proof {
                lemma_coordinates_within_length(*self, len as int);
            }
            let qx: i128 = scaled_quotient(self.x, dist, len);
            let qy: i128 = scaled_quotient(self.y, dist, len);
            Vector { x: qx as i64, y: qy as i64 }
        }
    }
}

/// Every vector has a length.
pub proof fn lemma_length_exists(v: Vector)
    ensures
        is_isqrt(v.length_squared(), v.length_spec()),
{
    assert(0 <= v.x * v.x && 0 <= v.y * v.y) by (nonlinear_arith);
    crate::math::lemma_isqrt_exists(v.length_squared());
}

/// No coordinate of a vector exceeds the vector's length in magnitude.
pub proof fn lemma_coordinates_within_length(v: Vector, len: int)
    requires
        is_isqrt(v.length_squared(), len),
    ensures
        -len <= v.x <= len,
        -len <= v.y <= len,
{
    let ax: int = if v.x >= 0 { v.x as int } else { -(v.x as int) };
    let ay: int = if v.y >= 0 { v.y as int } else { -(v.y as int) };
    assert(ax * ax == v.x * v.x) by (nonlinear_arith)
        requires
            ax == v.x || ax == -v.x,
    ;
    assert(ay * ay == v.y * v.y) by (nonlinear_arith)
        requires
            ay == v.y || ay == -v.y,
    ;
    assert(0 <= ax * ax && 0 <= ay * ay) by (nonlinear_arith);
    lemma_square_monotone(ax, len + 1);
    lemma_square_monotone(ay, len + 1);
}

/// Dividing by `UNIT` a value of at most `bound * UNIT` in magnitude gives
/// at most `bound` in magnitude.
proof fn lemma_quotient_bound(n: int, bound: int)
    requires
        -bound * UNIT <= n <= bound * UNIT,
        bound >= 0,
    ensures
        -bound <= div_toward_zero(n, UNIT as int) <= bound,
{
    let a = if n >= 0 { n } else { -n };
    assert(a / 1_000_000 <= bound) by (nonlinear_arith)
        requires
            0 <= a <= bound * 1_000_000,
    ;
}

/// The square of a coordinate.
fn square(a: i64) -> (r: u128)
    ensures
        r == a * a,
        r <= 0x4000_0000_0000_0000_0000_0000_0000_0000,
{
    let w: i128 = a as i128;
    assert(0 <= w * w <= 0x4000_0000_0000_0000_0000_0000_0000_0000) by (nonlinear_arith)
        requires
            -0x8000_0000_0000_0000 <= w <= 0x8000_0000_0000_0000,
    ;
    (w * w) as u128
}

/// The product of a coordinate and a sine or cosine.
fn bounded_product(a: i64, t: i64) -> (r: i128)
    requires
        -MAX_ROTATED <= a <= MAX_ROTATED,
        -UNIT <= t <= UNIT,
    ensures
        r == a * t,
        -MAX_ROTATED * UNIT <= r <= MAX_ROTATED * UNIT,
{
    assert(-0x3FFF_FFFF_FFFF_FFFF * 1_000_000 <= a * t <= 0x3FFF_FFFF_FFFF_FFFF * 1_000_000)
        by (nonlinear_arith)
        requires
            -0x3FFF_FFFF_FFFF_FFFF <= a <= 0x3FFF_FFFF_FFFF_FFFF,
            -1_000_000 <= t <= 1_000_000,
    ;
    (a as i128) * (t as i128)
}

/// `length` times a sine or cosine, brought back from millionths.
fn scaled_product(length: i64, t: i64) -> (r: i128)
    requires
        -UNIT <= t <= UNIT,
    ensures
        r == div_toward_zero(length * t, UNIT as int),
        -length <= r <= length || length <= r <= -length,
{
    assert(-0x8000_0000_0000_0000 * 1_000_000 <= length * t <= 0x8000_0000_0000_0000 * 1_000_000)
        by (nonlinear_arith)
        requires
            -0x8000_0000_0000_0000 <= length <= 0x8000_0000_0000_0000,
            -1_000_000 <= t <= 1_000_000,
    ;
    let p: i128 = (length as i128) * (t as i128);
    proof {
        let bound: int = if length >= 0 { length as int } else { -(length as int) };
        assert(-bound * 1_000_000 <= length * t <= bound * 1_000_000) by (nonlinear_arith)
            requires
                bound == length || bound == -length,
                bound >= 0,
                -1_000_000 <= t <= 1_000_000,
        ;
        lemma_quotient_bound(p as int, bound);
    }
    p / (UNIT as i128)
}

/// `a * dist / len`, for a coordinate `a` that `len` bounds.
fn scaled_quotient(a: i64, dist: i64, len: u64) -> (r: i128)
    requires
        len > 0,
        -len <= a <= len,
    ensures
        r == div_toward_zero(a * dist, len as int),
        -dist <= r <= dist || dist <= r <= -dist,
{
    assert(-0x8000_0000_0000_0000 * 0x8000_0000_0000_0000 <= a * dist <= 0x8000_0000_0000_0000
        * 0x8000_0000_0000_0000) by (nonlinear_arith)
        requires
            -0x8000_0000_0000_0000 <= a <= 0x8000_0000_0000_0000,
            -0x8000_0000_0000_0000 <= dist <= 0x8000_0000_0000_0000,
    ;
    let p: i128 = (a as i128) * (dist as i128);
    proof {
        let bound: int = if dist >= 0 { dist as int } else { -(dist as int) };
        let n: int = if p >= 0 { p as int } else { -(p as int) };
        assert(n <= bound * len) by (nonlinear_arith)
            requires
                n == a * dist || n == -(a * dist),
                bound == dist || bound == -dist,
                bound >= 0,
                -len <= a <= len,
        ;
        assert(n / (len as int) <= bound) by (nonlinear_arith)
            requires
                0 <= n <= bound * len,
                len > 0,
        ;
    }
    p / (len as i128)
}

impl DivSpecImpl<i64> for Vector {
    open spec fn obeys_div_spec() -> bool {
        true
    }

    open spec fn div_req(self, rhs: i64) -> bool {
        rhs > 0
    }

    open spec fn div_spec(self, rhs: i64) -> Vector {
        Vector {
            x: div_toward_zero(self.x as int, rhs as int) as i64,
            y: div_toward_zero(self.y as int, rhs as int) as i64,
        }
    }
}

impl Div<i64> for Vector {
    type Output = Vector;

    fn div(self, rhs: i64) -> Vector {
        proof {
            lemma_div_toward_zero_bounds(self.x as int, rhs as int);
            lemma_div_toward_zero_bounds(self.y as int, rhs as int);
        }
        Vector { x: self.x / rhs, y: self.y / rhs }
    }
}

} // verus!
