//! Exits on a world map.
use crate::destination::Destination;
use crate::util::vec2di32::Vec2Di32;
use vstd::prelude::*;

verus! {

/// What taking a world exit does.
#[derive(Clone, Copy, PartialEq, Eq, Structural, Debug)]
pub enum WorldExitType {
    Scripted { pointer_index: usize },
    Destination { destination: Destination },
}

/// An exit from a world map to a scene, or into a world script.
#[derive(Clone, Copy, PartialEq, Eq, Structural, Debug)]
pub struct WorldExit {
    pub index: usize,
    pub pos: Vec2Di32,
    pub is_available: bool,
    pub name_index: usize,
    pub exit_type: WorldExitType,
    pub unknown: u32,
}

/// A place on a world map that runs a world script when the player arrives at it.
#[derive(Clone, Copy, PartialEq, Eq, Structural, Debug)]
pub struct ScriptedWorldExit {
    pub index: usize,
    pub pos: Vec2Di32,
    pub script_offset_index: usize,
    pub is_available: bool,
}

} // verus!
