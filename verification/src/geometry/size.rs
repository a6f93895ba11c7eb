//! An extent in pixels.

use vstd::prelude::*;

verus! {

/// A width and a height.
#[derive(Clone, Copy, Debug, PartialEq, Eq, Structural)]
pub struct Size<T> {
    pub width: T,
    pub height: T,
}

impl<T> Size<T> {
    pub fn new(width: T, height: T) -> (s: Size<T>)
        ensures
            s == (Size { width, height }),
    {
        Size { width, height }
    }
}

} // verus!
