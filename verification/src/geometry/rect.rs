//! An axis-aligned rectangle.

use vstd::prelude::*;

use crate::geometry::point::Point;
use crate::geometry::size::Size;

verus! {

/// A rectangle given by its top-left corner and its extent.
#[derive(Clone, Copy, Debug, PartialEq, Eq, Structural)]
pub struct Rect {
    pub origin: Point<i32>,
    pub size: Size<u32>,
}

impl Rect {
    pub fn new(origin: Point<i32>, size: Size<u32>) -> (r: Rect)
        ensures
            r == (Rect { origin, size }),
    {
        Rect { origin, size }
    }

    /// A rectangle of the given size centered within this one. The
    /// midpoint arithmetic truncates toward zero rather than rounding,
    /// which matters when the difference of the extents is odd: the new
    /// rectangle then sits half a pixel toward the origin.
    pub fn centered(&self, size: Size<u32>) -> (r: Rect)
        requires
            size.width <= self.size.width,
            size.height <= self.size.height,
            self.origin.x + (self.size.width - size.width) / 2 <= i32::MAX,
            self.origin.y + (self.size.height - size.height) / 2 <= i32::MAX,
        ensures
            r.size == size,
            r.origin.x == self.origin.x + (self.size.width - size.width) / 2,
            r.origin.y == self.origin.y + (self.size.height - size.height) / 2,
    {
        Rect {
            origin: Point {
                x: self.origin.x + ((self.size.width - size.width) / 2) as i32,
                y: self.origin.y + ((self.size.height - size.height) / 2) as i32,
            },
            size,
        }
    }

    /// The rectangle moved so that its corner shifts by the coordinates
    /// of the point, keeping its size.
    pub fn translated(&self, rhs: Point<i32>) -> (r: Rect)
        requires
            i32::MIN <= self.origin.x + rhs.x <= i32::MAX,
            i32::MIN <= self.origin.y + rhs.y <= i32::MAX,
        ensures
            r.origin.x == self.origin.x + rhs.x,
            r.origin.y == self.origin.y + rhs.y,
            r.size == self.size,
    {
        Rect {
            origin: Point { x: self.origin.x + rhs.x, y: self.origin.y + rhs.y },
            size: self.size,
        }
    }
}

} // verus!
