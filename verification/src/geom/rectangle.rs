//! Rectangles with sides along the axes.

use super::point::Point;
use vstd::prelude::*;

verus! {

/// A rectangle whose sides lie along the axes of the field.
#[derive(Clone, Copy, Debug, PartialEq, Eq, Structural)]
pub struct Rectangle {
    bottom_left: Point,
    top_right: Point,
}

/// A rectangle as a plain value: its two extreme corners.
pub struct RectangleView {
    pub bottom_left: Point,
    pub top_right: Point,
}

impl View for Rectangle {
    type V = RectangleView;

    closed spec fn view(&self) -> RectangleView {
        RectangleView { bottom_left: self.bottom_left, top_right: self.top_right }
    }
}

/// The smaller of two coordinates.
pub open spec fn lower(a: i32, b: i32) -> i32 {
    if a <= b {
        a
    } else {
        b
    }
}

/// The larger of two coordinates.
pub open spec fn upper(a: i32, b: i32) -> i32 {
    if a >= b {
        a
    } else {
        b
    }
}

impl RectangleView {
    /// The rectangle of which `p1` and `p2` are opposite corners.
    pub open spec fn spanning(p1: Point, p2: Point) -> RectangleView {
        RectangleView {
            bottom_left: Point { x: lower(p1.x, p2.x), y: lower(p1.y, p2.y) },
            top_right: Point { x: upper(p1.x, p2.x), y: upper(p1.y, p2.y) },
        }
    }

    /// The bottom left corner is not beyond the top right one.
    pub open spec fn is_ordered(self) -> bool {
        self.bottom_left.x <= self.top_right.x && self.bottom_left.y <= self.top_right.y
    }
}

impl Rectangle {
    #[verifier::type_invariant]
    spec fn well_formed(&self) -> bool {
        self@.is_ordered()
    }

    /// The rectangle of which `p1` and `p2` are opposite corners, whichever
    /// they are.
    pub fn new(p1: Point, p2: Point) -> (r: Rectangle)
        ensures
            r@ == RectangleView::spanning(p1, p2),
            r@.is_ordered(),
    {
        Rectangle {
            bottom_left: Point {
                x: if p1.x <= p2.x {
                    p1.x
                } else {
                    p2.x
                },
                y: if p1.y <= p2.y {
                    p1.y
                } else {
                    p2.y
                },
            },
            top_right: Point {
                x: if p1.x >= p2.x {
                    p1.x
                } else {
                    p2.x
                },
                y: if p1.y >= p2.y {
                    p1.y
                } else {
                    p2.y
                },
            },
        }
    }

    /// The length of the side along the x axis.
    pub fn len_x(&self) -> (len: i64)
        ensures
            len == self@.top_right.x - self@.bottom_left.x,
            len >= 0,
    {
        proof {
            use_type_invariant(self);
        }
        self.top_right.x as i64 - self.bottom_left.x as i64
    }

    /// The length of the side along the y axis.
    pub fn len_y(&self) -> (len: i64)
        ensures
            len == self@.top_right.y - self@.bottom_left.y,
            len >= 0,
    {
        proof {
            use_type_invariant(self);
        }
        self.top_right.y as i64 - self.bottom_left.y as i64
    }

    /// The centre, each coordinate rounded down to the micrometre.
    pub fn centre(&self) -> (c: Point)
        ensures
            c.x == self@.bottom_left.x + (self@.top_right.x - self@.bottom_left.x) / 2,
            c.y == self@.bottom_left.y + (self@.top_right.y - self@.bottom_left.y) / 2,
            self@.bottom_left.x <= c.x <= self@.top_right.x,
            self@.bottom_left.y <= c.y <= self@.top_right.y,
    {
        proof {
            use_type_invariant(self);
        }
        Point {
            x: (self.bottom_left.x as i64 + self.len_x() / 2) as i32,
            y: (self.bottom_left.y as i64 + self.len_y() / 2) as i32,
        }
    }
}

} // verus!
