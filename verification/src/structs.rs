//! Plain geometric values used across the window modules.

use vstd::prelude::*;

verus! {

/// A point in pixels, relative to some origin.
#[derive(Clone, Copy, PartialEq, Eq, Structural, Debug)]
pub struct POINT {
    pub x: i32,
    pub y: i32,
}

/// A width and height in pixels.
#[derive(Clone, Copy, PartialEq, Eq, Structural, Debug)]
pub struct SIZE {
    pub cx: i32,
    pub cy: i32,
}

/// A rectangle in pixels: left/top edge and right/bottom edge.
#[derive(Clone, Copy, PartialEq, Eq, Structural, Debug)]
pub struct RECT {
    pub left: i32,
    pub top: i32,
    pub right: i32,
    pub bottom: i32,
}

impl POINT {
    /// A point from its coordinates.
    pub fn new(x: i32, y: i32) -> (p: POINT)
        ensures
            p == (POINT { x, y }),
    {
        POINT { x, y }
    }
}

impl SIZE {
    /// A size from its extents.
    pub fn new(cx: i32, cy: i32) -> (s: SIZE)
        ensures
            s == (SIZE { cx, cy }),
    {
        SIZE { cx, cy }
    }
}

impl Default for SIZE {
    /// The zero size.
    fn default() -> (s: SIZE)
        ensures
            s == (SIZE { cx: 0, cy: 0 }),
    {
        SIZE { cx: 0, cy: 0 }
    }
}

} // verus!
