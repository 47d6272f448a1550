//! Window rectangles in screen coordinates.

use vstd::prelude::*;

verus! {

/// The bounding rectangle of a window: the corner `(left, top)` and the
/// corner `(right, bottom)`, as the window system reported them. No order
/// between the corners is assumed.
#[derive(Clone, Copy, Debug, PartialEq, Eq, Structural)]
pub struct Rect {
    pub left: i32,
    pub top: i32,
    pub right: i32,
    pub bottom: i32,
}

impl Rect {
    /// A rectangle from its four edges, each kept as given.
    pub fn new(left: i32, top: i32, right: i32, bottom: i32) -> (r: Rect)
        ensures
            r == (Rect { left, top, right, bottom }),
    {
        Rect { left, top, right, bottom }
    }
}

} // verus!
