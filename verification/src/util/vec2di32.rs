//! Integer 2D vectors, for pixel and tile positions.
use vstd::prelude::*;

verus! {

/// A point or size in pixels or tiles.
#[derive(Clone, Copy, PartialEq, Eq, Structural, Debug, Default)]
pub struct Vec2Di32 {
    pub x: i32,
    pub y: i32,
}

impl Vec2Di32 {
    /// The vector `(x, y)`.
    pub fn new(x: i32, y: i32) -> (v: Vec2Di32)
        ensures
            v == (Vec2Di32 { x, y }),
    {
        Vec2Di32 { x, y }
    }
}

} // verus!
