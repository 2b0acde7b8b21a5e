//! Tilesets: 16x16 tiles assembled from four 8x8 chips each, the chip graphics and their
//! animations.
use crate::bitmap::Bitmap;
use crate::map::MapChip;
use vstd::prelude::*;

verus! {

/// A 16x16 tile: its top-left, top-right, bottom-left and bottom-right chips.
#[derive(Clone, Copy, Debug, Default)]
pub struct Tile {
    pub corners: [MapChip; 4],
}

/// A tile from its four corners.
pub fn tile_from_corners(c0: MapChip, c1: MapChip, c2: MapChip, c3: MapChip) -> (t: Tile)
    ensures
        t.corners@ == seq![c0, c1, c2, c3],
{
    let t = Tile { corners: [c0, c1, c2, c3] };
    assert(t.corners@ =~= seq![c0, c1, c2, c3]);
    t
}

/// One frame of a chip animation: how many 60ths of a second it shows, and which animated chip.
#[derive(Clone, Copy, PartialEq, Eq, Structural, Debug)]
pub struct ChipAnimFrame {
    pub duration_frames: u32,
    pub src_chip: usize,
}

/// An animation of a tileset chip through a list of animated chips.
#[derive(Clone, Debug)]
pub struct ChipAnim {
    pub dest_chip: usize,
    pub frames: Vec<ChipAnimFrame>,
    pub frame: usize,
}

/// A tileset: tiles, chip graphics and chip animations.
pub struct TileSet {
    pub index: usize,
    pub index_assembly: usize,
    pub tiles: Vec<Tile>,
    pub chip_bitmaps: Vec<Bitmap>,
    pub animated_chip_bitmaps: Vec<Bitmap>,
    pub chip_anims: Vec<ChipAnim>,
}

} // verus!
