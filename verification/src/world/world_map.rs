//! The chips of a world map: what blocks movement on them, where exits are and what music plays.
use vstd::prelude::*;

verus! {

/// World chip flag bits.
pub const WORLD_CHIP_BLOCK_WALK: u32 = 0x01;
pub const WORLD_CHIP_BLOCK_HOVER: u32 = 0x02;
pub const WORLD_CHIP_BLOCK_FLYING: u32 = 0x04;
pub const WORLD_CHIP_HAS_EXIT: u32 = 0x08;

/// One 8 by 8 pixel chip of a world map.
#[derive(Clone, Copy, PartialEq, Eq, Structural, Debug, Default)]
pub struct WorldChip {
    pub flags: u32,
    pub music: usize,
}

/// The chips of a world map, row by row.
pub struct WorldMap {
    pub index: usize,
    pub width: u32,
    pub height: u32,
    pub chips: Vec<WorldChip>,
}

} // verus!
