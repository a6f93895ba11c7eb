//! A displacement between two points.

use vstd::prelude::*;

verus! {

/// A displacement along both screen axes.
#[derive(Clone, Copy, Debug, PartialEq, Eq, Structural)]
pub struct Vector<T> {
    pub x: T,
    pub y: T,
}

impl<T> Vector<T> {
    pub fn new(x: T, y: T) -> (v: Vector<T>)
        ensures
            v == (Vector { x, y }),
    {
        Vector { x, y }
    }
}

} // verus!
