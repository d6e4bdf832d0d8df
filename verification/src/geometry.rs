//! Whole-pixel geometry: pointer positions, bounding boxes, and the shapes
//! that finished paths trace.

use vstd::prelude::*;

verus! {

/// A position on the canvas, in whole pixels.
#[derive(Clone, Copy, Debug, PartialEq, Eq, Structural)]
pub struct Point {
    pub x: i16,
    pub y: i16,
}

/// An axis-aligned box given by its four edges.
#[derive(Clone, Copy, Debug, PartialEq, Eq, Structural)]
pub struct Bounds {
    pub left: i16,
    pub top: i16,
    pub right: i16,
    pub bottom: i16,
}

/// The shape that a finished path traces.
#[verifier::ext_equal]
pub enum Outline {
    /// An open run of line segments through the points, in order.
    Polyline(Seq<Point>),
    /// The closed outline of a box.
    Rectangle(Bounds),
    /// The closed oval inscribed in a box.
    Oval(Bounds),
}

pub open spec fn lesser(a: i16, b: i16) -> i16 {
    if a <= b {
        a
    } else {
        b
    }
}

pub open spec fn greater(a: i16, b: i16) -> i16 {
    if a <= b {
        b
    } else {
        a
    }
}

impl Point {
    pub fn new(x: i16, y: i16) -> (p: Point)
        ensures
            p == (Point { x, y }),
    {
        Point { x, y }
    }
}

impl Bounds {
    /// Left is not right of right, and top is not below bottom.
    pub open spec fn is_ordered(self) -> bool {
        self.left <= self.right && self.top <= self.bottom
    }

    /// The smallest box that holds both corners, whichever way the drag went.
    pub open spec fn spanning(a: Point, b: Point) -> Bounds {
        Bounds {
            left: lesser(a.x, b.x),
            top: lesser(a.y, b.y),
            right: greater(a.x, b.x),
            bottom: greater(a.y, b.y),
        }
    }

    /// Computes the box spanned by two opposite corners of a drag.
    pub fn between(a: Point, b: Point) -> (r: Bounds)
        ensures
            r == Bounds::spanning(a, b),
            r.is_ordered(),
    {
        let left: i16 = if a.x <= b.x { a.x } else { b.x };
        let right: i16 = if a.x <= b.x { b.x } else { a.x };
        let top: i16 = if a.y <= b.y { a.y } else { b.y };
        let bottom: i16 = if a.y <= b.y { b.y } else { a.y };
        Bounds { left, top, right, bottom }
    }
}

/// A drag spans the same box from either end: swapping the start and the end
/// point changes nothing.
pub proof fn law_spanning_symmetric(a: Point, b: Point)
    ensures
        Bounds::spanning(a, b) == Bounds::spanning(b, a),
        Bounds::spanning(a, b).is_ordered(),
{
}

} // verus!
