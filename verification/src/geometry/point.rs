//! A position on the screen.

use vstd::prelude::*;

use crate::geometry::vector::Vector;

verus! {

/// A position, with the axes of the screen: x grows to the right, y grows
/// downward.
#[derive(Clone, Copy, Debug, PartialEq, Eq, Structural)]
pub struct Point<T> {
    pub x: T,
    pub y: T,
}

impl<T> Point<T> {
    pub fn new(x: T, y: T) -> (p: Point<T>)
        ensures
            p == (Point { x, y }),
    {
        Point { x, y }
    }
}

impl Point<i32> {
    /// The point reached by following the vector from this point.
    pub fn translated(&self, rhs: Vector<i32>) -> (p: Point<i32>)
        requires
            i32::MIN <= self.x + rhs.x <= i32::MAX,
            i32::MIN <= self.y + rhs.y <= i32::MAX,
        ensures
            p.x == self.x + rhs.x,
            p.y == self.y + rhs.y,
    {
        Point { x: self.x + rhs.x, y: self.y + rhs.y }
    }
}

} // verus!
