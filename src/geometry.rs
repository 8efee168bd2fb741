use vstd::prelude::*;

verus! {

/// A direction in which focus can move.
#[derive(Clone, Copy, Debug, PartialEq, Eq, Structural)]
pub enum Direction {
    Left,
    Right,
    Up,
    Down,
}

/// An axis-aligned rectangle given by its four edges.
///
/// Coordinates grow to the right and downwards, so `left <= right` and
/// `top <= bottom` for every rectangle taken from a window frame.
#[derive(Clone, Copy, Debug, PartialEq, Eq, Structural)]
pub struct Rectangle {
    pub left: i64,
    pub right: i64,
    pub top: i64,
    pub bottom: i64,
}

impl Rectangle {
    /// The edges are ordered.
    pub open spec fn wf(self) -> bool {
        self.left <= self.right && self.top <= self.bottom
    }

    /// Builds the rectangle of a frame given by its origin and size.
    pub fn from_frame(x: i32, y: i32, width: i32, height: i32) -> (r: Rectangle)
        requires
            width >= 0,
            height >= 0,
        ensures
            r.left == x,
            r.right == x + width,
            r.top == y,
            r.bottom == y + height,
            r.wf(),
    {
        Rectangle {
            left: x as i64,
            right: x as i64 + width as i64,
            top: y as i64,
            bottom: y as i64 + height as i64,
        }
    }

    /// The two rectangles share no row: one lies wholly above the other.
    pub open spec fn spec_vertically_disjoint(self, other: Rectangle) -> bool {
        self.top >= other.bottom || self.bottom <= other.top
    }

    /// The two rectangles share no column: one lies wholly beside the other.
    pub open spec fn spec_horizontally_disjoint(self, other: Rectangle) -> bool {
        self.left >= other.right || self.right <= other.left
    }

    pub fn vertically_disjoint(&self, other: &Rectangle) -> (r: bool)
        ensures
            r == self.spec_vertically_disjoint(*other),
    {
        self.top >= other.bottom || self.bottom <= other.top
    }

    pub fn horizontally_disjoint(&self, other: &Rectangle) -> (r: bool)
        ensures
            r == self.spec_horizontally_disjoint(*other),
    {
        self.left >= other.right || self.right <= other.left
    }
}

} // verus!
