//! Integer rectangles.
use vstd::prelude::*;

verus! {

/// A rectangle from its top-left corner to its bottom-right corner, exclusive.
#[derive(Clone, Copy, PartialEq, Eq, Structural, Debug)]
pub struct Rect {
    pub x1: i32,
    pub y1: i32,
    pub x2: i32,
    pub y2: i32,
}

impl Rect {
    /// The rectangle with the given corners.
    pub fn new(x1: i32, y1: i32, x2: i32, y2: i32) -> (r: Rect)
        ensures
            r == (Rect { x1, y1, x2, y2 }),
    {
        Rect { x1, y1, x2, y2 }
    }

    /// The rectangle moved by an offset.
    pub fn moved_by(&self, x: i32, y: i32) -> (r: Rect)
        requires
            i32::MIN <= self.x1 + x <= i32::MAX,
            i32::MIN <= self.x2 + x <= i32::MAX,
            i32::MIN <= self.y1 + y <= i32::MAX,
            i32::MIN <= self.y2 + y <= i32::MAX,
        ensures
            r == (Rect { x1: (self.x1 + x) as i32, y1: (self.y1 + y) as i32, x2: (self.x2 + x) as i32, y2: (self.y2 + y) as i32 }),
    {
        Rect { x1: self.x1 + x, y1: self.y1 + y, x2: self.x2 + x, y2: self.y2 + y }
    }
}

} // verus!
