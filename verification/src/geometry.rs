//! Integer points and axis-aligned rectangles on the display grid.

use vstd::prelude::*;

verus! {

/// A position or a displacement on the display grid.
#[derive(Clone, Copy, Debug, PartialEq, Eq, Structural)]
pub struct Point {
    pub x: i32,
    pub y: i32,
}

impl Point {
    /// The point with the given coordinates.
    pub fn new(x: i32, y: i32) -> (p: Point)
        ensures
            p.x == x,
            p.y == y,
    {
        Point { x, y }
    }
}

/// An axis-aligned rectangle given by two opposite corners.
#[derive(Clone, Copy, Debug, PartialEq, Eq, Structural)]
pub struct Rectangle {
    pub top_left: Point,
    pub bottom_right: Point,
}

impl Rectangle {
    /// The rectangle spanned by the two corners.
    pub fn new(top_left: Point, bottom_right: Point) -> (r: Rectangle)
        ensures
            r.top_left == top_left,
            r.bottom_right == bottom_right,
    {
        Rectangle { top_left, bottom_right }
    }
}

} // verus!
