//! A treasure chest at a tile position.
use crate::util::vec2di32::Vec2Di32;
use vstd::prelude::*;

verus! {

/// A treasure chest: an identifier, its tile, and the gold or item inside.
pub struct Treasure {
    pub id: String,
    pub tile_pos: Vec2Di32,
    pub gold: u32,
    pub item: usize,
}

} // verus!
