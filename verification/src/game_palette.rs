//! A palette of the game data with its index.
use crate::palette::Palette;
use vstd::prelude::*;

verus! {

/// A palette with the index it was loaded from.
pub struct GamePalette {
    pub index: usize,
    pub palette: Palette,
}

impl GamePalette {
    /// The asset key of a sprite palette.
    pub fn key_for_sprite_palette(palette_index: usize) -> (key: u64)
        ensures
            key == 0x10000000u64 | (palette_index as u64),
    {
        0x10000000u64 | (palette_index as u64)
    }
}

} // verus!
