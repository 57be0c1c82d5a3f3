//! Pixel dimensions.

use vstd::prelude::*;

verus! {

/// The width and height of a surface, in pixels.
#[derive(Clone, Copy, Debug, PartialEq, Eq, Structural)]
pub struct Size2D {
    /// Pixels per row.
    pub width: i32,
    /// Number of rows.
    pub height: i32,
}

impl Size2D {
    /// The size `width` by `height`.
    pub fn new(width: i32, height: i32) -> (size: Size2D)
        ensures
            size == (Size2D { width, height }),
    {
        Size2D { width, height }
    }
}

} // verus!
