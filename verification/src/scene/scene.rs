//! The parts of a scene read from its data: camera bounds, exits and treasure.
use vstd::prelude::*;
use crate::facing::Facing;

verus! {

/// The area the camera is kept within, in pixels.
#[derive(Clone, Copy, PartialEq, Eq, Structural, Debug)]
pub struct ScrollMask {
    pub left: isize,
    pub top: isize,
    pub right: isize,
    pub bottom: isize,
}

/// An exit of a scene: the area that triggers it and where it leads, in pixels.
#[derive(Clone, Copy, PartialEq, Eq, Structural, Debug)]
pub struct SceneExit {
    pub index: usize,
    pub x: i32,
    pub y: i32,
    pub width: i32,
    pub height: i32,
    pub destination_index: usize,
    pub destination_x: i32,
    pub destination_y: i32,
    pub facing: Facing,
}

/// A treasure chest of a scene: an identifier, its tile, and the gold or item inside.
pub struct SceneTreasure {
    pub id: String,
    pub tile_x: i32,
    pub tile_y: i32,
    pub gold: u32,
    pub item: usize,
}

} // verus!
