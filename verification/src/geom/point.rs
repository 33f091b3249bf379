//! Positions on the field.

use super::vector::Vector;
use std::ops::{Add, Sub};
use vstd::prelude::*;
use vstd::std_specs::ops::{AddSpecImpl, SubSpecImpl};

verus! {

/// A position on the field, in micrometres from the centre mark.
#[derive(Clone, Copy, Debug, PartialEq, Eq, Structural)]
pub struct Point {
    pub x: i32,
    pub y: i32,
}

impl Point {
    /// The displacement that leads from `from` to `self`.
    pub open spec fn minus(self, from: Point) -> Vector {
        Vector { x: (self.x - from.x) as i64, y: (self.y - from.y) as i64 }
    }

    /// Whether `self` moved by `by` is still a position that a `Point` holds.
    pub open spec fn can_move(self, by: Vector) -> bool {
        i32::MIN <= self.x + by.x <= i32::MAX && i32::MIN <= self.y + by.y <= i32::MAX
    }

    /// `self` moved by `by`.
    pub open spec fn moved(self, by: Vector) -> Point {
        Point { x: (self.x + by.x) as i32, y: (self.y + by.y) as i32 }
    }

    /// The square of the distance between `self` and `other`.
    pub open spec fn distance_squared(self, other: Point) -> int {
        (self.x - other.x) * (self.x - other.x) + (self.y - other.y) * (self.y - other.y)
    }

    /// The centre mark.
    pub fn new() -> (p: Point)
        ensures
            p == (Point { x: 0, y: 0 }),
    {
        Point { x: 0, y: 0 }
    }

    /// The square of the distance between `self` and `other`.
    fn squared_distance(&self, other: &Point) -> (d: u128)
        ensures
            d == self.distance_squared(*other),
            d <= 0x2_0000_0000_0000_0000,
    {
        let dx: i128 = self.x as i128 - other.x as i128;
        let dy: i128 = self.y as i128 - other.y as i128;
        assert(0 <= dx * dx <= 0x1_0000_0000 * 0x1_0000_0000) by (nonlinear_arith)
            requires
                -0x1_0000_0000 <= dx <= 0x1_0000_0000,
        ;
        assert(0 <= dy * dy <= 0x1_0000_0000 * 0x1_0000_0000) by (nonlinear_arith)
            requires
                -0x1_0000_0000 <= dy <= 0x1_0000_0000,
        ;
        (dx * dx) as u128 + (dy * dy) as u128
    }

    /// Whether `other` lies farther than `dist` from `self`. The squares are
    /// compared: no rounding is involved.
    pub fn is_farther_than(&self, other: &Point, dist: u32) -> (b: bool)
        ensures
            b == (self.distance_squared(*other) > dist * dist),
    {
        assert(0 <= dist * dist <= 0x1_0000_0000 * 0x1_0000_0000) by (nonlinear_arith)
            requires
                0 <= dist <= 0x1_0000_0000,
        ;
        self.squared_distance(other) > (dist as u128) * (dist as u128)
    }

    /// Whether `other` lies closer than `dist` to `self`. The squares are
    /// compared: no rounding is involved.
    pub fn is_closer_than(&self, other: &Point, dist: u32) -> (b: bool)
        ensures
            b == (self.distance_squared(*other) < dist * dist),
    {
        assert(0 <= dist * dist <= 0x1_0000_0000 * 0x1_0000_0000) by (nonlinear_arith)
            requires
                0 <= dist <= 0x1_0000_0000,
        ;
        self.squared_distance(other) < (dist as u128) * (dist as u128)
    }
}

impl AddSpecImpl<Vector> for Point {
    open spec fn obeys_add_spec() -> bool {
        true
    }

    open spec fn add_req(self, rhs: Vector) -> bool {
        self.can_move(rhs)
    }

    open spec fn add_spec(self, rhs: Vector) -> Point {
        self.moved(rhs)
    }
}

impl Add<Vector> for Point {
    type Output = Point;

    fn add(self, rhs: Vector) -> Point {
        Point { x: (self.x as i64 + rhs.x) as i32, y: (self.y as i64 + rhs.y) as i32 }
    }
}

impl SubSpecImpl<Point> for Point {
    open spec fn obeys_sub_spec() -> bool {
        true
    }

    open spec fn sub_req(self, rhs: Point) -> bool {
        true
    }

    open spec fn sub_spec(self, rhs: Point) -> Vector {
        self.minus(rhs)
    }
}

impl Sub<Point> for Point {
    type Output = Vector;

    fn sub(self, rhs: Point) -> Vector {
        Vector { x: self.x as i64 - rhs.x as i64, y: self.y as i64 - rhs.y as i64 }
    }
}

} // verus!
