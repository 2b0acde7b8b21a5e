//! Map layers made of 8x8 chips, assembled from 16x16 tiles of a tileset.
use crate::tileset::{Tile, TileSet};
use vstd::arithmetic::div_mod::lemma_fundamental_div_mod_converse;
use vstd::prelude::*;

verus! {

/// How a layer scrolls relative to the camera.
#[derive(Clone, Copy, PartialEq, Eq, Structural, Debug)]
pub enum LayerScrollMode {
    Normal,
    IgnoreCamera,
    Parallax,
}

impl LayerScrollMode {
    /// The name of the mode.
    pub fn to_string(&self) -> (s: &'static str)
        ensures
            s@ == match *self {
                LayerScrollMode::Normal => "Normal"@,
                LayerScrollMode::IgnoreCamera => "Ignore camera"@,
                LayerScrollMode::Parallax => "Parallax"@,
            },
    {
        match self {
            LayerScrollMode::Normal => "Normal",
            LayerScrollMode::IgnoreCamera => "Ignore camera",
            LayerScrollMode::Parallax => "Parallax",
        }
    }
}

/// Screen designation bits: which layers go to the main and the sub screen.
pub const SCREEN_L1_MAIN: u32 = 0x01;
pub const SCREEN_L2_MAIN: u32 = 0x02;
pub const SCREEN_L3_MAIN: u32 = 0x04;
pub const SCREEN_SPR_MAIN: u32 = 0x08;
pub const SCREEN_L1_SUB: u32 = 0x10;
pub const SCREEN_L2_SUB: u32 = 0x20;
pub const SCREEN_L3_SUB: u32 = 0x40;
pub const SCREEN_SPR_SUB: u32 = 0x80;

/// Color math bits: which layers are blended, and how.
pub const EFFECT_L1: u32 = 0x01;
pub const EFFECT_L2: u32 = 0x02;
pub const EFFECT_L3: u32 = 0x04;
pub const EFFECT_UNKNOWN: u32 = 0x08;
pub const EFFECT_SPR: u32 = 0x10;
pub const EFFECT_DEFAULT_COL: u32 = 0x20;
pub const EFFECT_HALF_INTENSITY: u32 = 0x40;
pub const EFFECT_SUBTRACT: u32 = 0x80;

/// Chip bits.
pub const CHIP_PRIORITY: u32 = 0x01;
pub const CHIP_FLIP_X: u32 = 0x02;
pub const CHIP_FLIP_Y: u32 = 0x04;

/// One 8x8 chip of a layer: the chip graphic, its flags and its first palette entry.
#[derive(Clone, Copy, PartialEq, Eq, Structural, Debug, Default)]
pub struct MapChip {
    pub chip: usize,
    pub flags: u32,
    pub palette: usize,
}

/// The chip with all fields zero.
pub open spec fn empty_chip() -> MapChip {
    MapChip { chip: 0, flags: 0, palette: 0 }
}

/// A layer of a map: its tiles and the chips they are made of.
pub struct MapLayer {
    pub chip_width: u32,
    pub chip_height: u32,
    pub chips: Vec<MapChip>,
    pub tile_width: u32,
    pub tile_height: u32,
    pub tiles: Vec<usize>,
    pub scroll_mode: LayerScrollMode,
    /// How fast the layer scrolls by itself, in quarter pixels per second.
    pub scroll_speed: (i32, i32),
}

impl MapLayer {
    /// Whether the chip and tile lists have the sizes that the dimensions give.
    pub open spec fn wf(&self) -> bool {
        &&& self.chips@.len() == self.chip_width * self.chip_height
        &&& self.tile_width == self.chip_width / 2
        &&& self.tile_height == self.chip_height / 2
        &&& self.tiles@.len() == (self.chip_width * self.chip_height) / 4
    }

    /// An empty layer of the given size in chips: empty chips, tiles zero, normal scrolling.
    pub fn new(chip_width: u32, chip_height: u32) -> (layer: MapLayer)
        requires
            chip_width * chip_height <= u32::MAX,
        ensures
            layer.wf(),
            layer.chip_width == chip_width,
            layer.chip_height == chip_height,
            forall|i: int| 0 <= i < layer.chips@.len() ==> layer.chips@[i] == empty_chip(),
            forall|i: int| 0 <= i < layer.tiles@.len() ==> layer.tiles@[i] == 0,
            layer.scroll_mode == LayerScrollMode::Normal,
            layer.scroll_speed == (0i32, 0i32),
    {
        let len = (chip_width * chip_height) as usize;
        let mut chips: Vec<MapChip> = Vec::with_capacity(len);
        let mut i: usize = 0;
        while i < len
            invariant
                i <= len,
                chips@.len() == i,
                forall|k: int| 0 <= k < i ==> chips@[k] == empty_chip(),
            decreases len - i,
        {
            chips.push(MapChip { chip: 0, flags: 0, palette: 0 });
            i = i + 1;
        }
        let tile_count = len / 4;
        let mut tiles: Vec<usize> = Vec::with_capacity(tile_count);
        let mut j: usize = 0;
        while j < tile_count
            invariant
                j <= tile_count,
                tiles@.len() == j,
                forall|k: int| 0 <= k < j ==> tiles@[k] == 0,
            decreases tile_count - j,
        {
            tiles.push(0);
            j = j + 1;
        }
        MapLayer {
            chip_width,
            chip_height,
            chips,
            tile_width: chip_width / 2,
            tile_height: chip_height / 2,
            tiles,
            scroll_mode: LayerScrollMode::Normal,
            scroll_speed: (0, 0),
        }
    }
}

} // verus!

verus! {

/// A map: three layers, their screen and color math settings and their drawing priorities.
pub struct TileMap {
    pub index: usize,
    pub screen_flags: u32,
    pub effect_flags: u32,
    pub layer_priorities: [u8; 4],
    pub layers: [MapLayer; 3],
}


/// The tile that covers chip `k` of a layer `cw` chips and `tw` tiles wide.
pub open spec fn covering_tile(cw: int, tw: int, k: int) -> int {
    ((k / cw) / 2) * tw + (k % cw) / 2
}

/// Which corner of its tile chip `k` is.
pub open spec fn covering_corner(cw: int, k: int) -> int {
    (k % cw) % 2 + 2 * ((k / cw) % 2)
}

/// Chip `k` of a layer once the tiles before tile `upto` are assembled: the corner of its tile
/// where the tile is in the tileset, else what it was.
pub open spec fn assembled_chip(chips: Seq<MapChip>, tiles: Seq<usize>, set: Seq<Tile>, cw: int, tw: int, upto: int, k: int) -> MapChip {
    let t = covering_tile(cw, tw, k);
    if 0 <= t < upto && t < tiles.len() && tiles[t] < set.len() {
        set[tiles[t] as int].corners@[covering_corner(cw, k)]
    } else {
        chips[k]
    }
}

/// The chips of tile `i` are the four at its top-left chip, right of it, below and below right.
proof fn lemma_tile_chips(cw: int, tw: int, th: int, i: int, dx: int, dy: int)
    requires
        cw == 2 * tw,
        tw > 0,
        0 <= i < tw * th,
        0 <= dx < 2,
        0 <= dy < 2,
    ensures
        ({
            let k = (2 * (i / tw) + dy) * cw + 2 * (i % tw) + dx;
            &&& covering_tile(cw, tw, k) == i
            &&& covering_corner(cw, k) == dx + 2 * dy
            &&& 0 <= k < cw * (2 * th)
        }),
{
    let q = i / tw;
    let r = i % tw;
    vstd::arithmetic::div_mod::lemma_fundamental_div_mod(i, tw);
    vstd::arithmetic::div_mod::lemma_mod_bound(i, tw);
    assert(i == q * tw + r) by (nonlinear_arith)
        requires
            i == tw * q + r,
    ;
    let k = (2 * q + dy) * cw + 2 * r + dx;
    assert(0 <= 2 * r + dx < cw);
    lemma_fundamental_div_mod_converse(k, cw, 2 * q + dy, 2 * r + dx);
    lemma_fundamental_div_mod_converse(2 * q + dy, 2, q, dy);
    lemma_fundamental_div_mod_converse(2 * r + dx, 2, r, dx);
    assert(q < th) by (nonlinear_arith)
        requires
            i == q * tw + r,
            0 <= r < tw,
            i < tw * th,
            tw > 0,
    ;
    assert(0 <= q) by (nonlinear_arith)
        requires
            i == q * tw + r,
            0 <= r < tw,
            i >= 0,
            tw > 0,
    ;
    assert(k < cw * (2 * th)) by (nonlinear_arith)
        requires
            k == (2 * q + dy) * cw + 2 * r + dx,
            0 <= 2 * r + dx < cw,
            q < th,
            dy < 2,
            q >= 0,
            dy >= 0,
    ;
    assert(k >= 0) by (nonlinear_arith)
        requires
            k == (2 * q + dy) * cw + 2 * r + dx,
            q >= 0,
            dy >= 0,
            r >= 0,
            dx >= 0,
            cw > 0,
    ;
}

/// Only the four chips of tile `i` are covered by it.
proof fn lemma_covered_by(cw: int, tw: int, i: int, k: int)
    requires
        cw == 2 * tw,
        tw > 0,
        0 <= i,
        0 <= k,
        covering_tile(cw, tw, k) == i,
    ensures
        k == (2 * (i / tw) + (k / cw) % 2) * cw + 2 * (i % tw) + (k % cw) % 2,
{
    let cx = k % cw;
    let cy = k / cw;
    vstd::arithmetic::div_mod::lemma_fundamental_div_mod(k, cw);
    vstd::arithmetic::div_mod::lemma_mod_bound(k, cw);
    vstd::arithmetic::div_mod::lemma_fundamental_div_mod(cx, 2);
    vstd::arithmetic::div_mod::lemma_fundamental_div_mod(cy, 2);
    vstd::arithmetic::div_mod::lemma_mod_bound(cx, 2);
    vstd::arithmetic::div_mod::lemma_mod_bound(cy, 2);
    assert(cx / 2 < tw);
    assert(0 <= cx / 2);
    assert(i == (cy / 2) * tw + cx / 2);
    lemma_fundamental_div_mod_converse(i, tw, cy / 2, cx / 2);
    assert(k == (2 * (cy / 2) + cy % 2) * cw + 2 * (cx / 2) + cx % 2) by (nonlinear_arith)
        requires
            k == cw * cy + cx,
            cy == 2 * (cy / 2) + cy % 2,
            cx == 2 * (cx / 2) + cx % 2,
    ;
}

/// Assembles a whole layer from a tileset: each tile that is in the tileset sets its four chips.
pub fn assemble_map_layer(layer: &mut MapLayer, tileset: &TileSet)
    requires
        old(layer).wf(),
        old(layer).chip_width % 2 == 0,
        old(layer).chip_height % 2 == 0,
        old(layer).chip_width > 0,
    ensures
        final(layer).chip_width == old(layer).chip_width,
        final(layer).chip_height == old(layer).chip_height,
        final(layer).tile_width == old(layer).tile_width,
        final(layer).tile_height == old(layer).tile_height,
        final(layer).tiles@ == old(layer).tiles@,
        final(layer).scroll_mode == old(layer).scroll_mode,
        final(layer).scroll_speed == old(layer).scroll_speed,
        final(layer).wf(),
        final(layer).chips@ == Seq::new(
            old(layer).chips@.len(),
            |k: int| assembled_chip(
                old(layer).chips@,
                old(layer).tiles@,
                tileset.tiles@,
                old(layer).chip_width as int,
                old(layer).tile_width as int,
                old(layer).tiles@.len() as int,
                k,
            ),
        ),
{
    let ghost old_chips = layer.chips@;
    let ghost cw = layer.chip_width as int;
    let ghost tw = layer.tile_width as int;
    let ghost th = layer.tile_height as int;
    let ghost n = layer.tiles@.len() as int;
    proof {
        assert(cw * (layer.chip_height as int) == (2 * tw) * (2 * th));
        assert((2 * tw) * (2 * th) == 4 * (tw * th)) by (nonlinear_arith);
        assert(n == tw * th);
        assert(cw * (2 * th) == old_chips.len());
    }
    let chip_width = layer.chip_width as usize;
    let tile_width = layer.tile_width as usize;
    let count = layer.tiles.len();
    let total = layer.chips.len();
    let mut index: usize = 0;
    while index < count
        invariant
            index <= count,
            count == n,
            n == tw * th,
            cw == 2 * tw,
            tw > 0,
            chip_width == cw,
            tile_width == tw,
            total == old_chips.len(),
            cw * (2 * th) == old_chips.len(),
            layer.chip_width == old(layer).chip_width,
            layer.chip_height == old(layer).chip_height,
            layer.tile_width == old(layer).tile_width,
            layer.tile_height == old(layer).tile_height,
            cw == old(layer).chip_width,
            tw == old(layer).tile_width,
            th == old(layer).tile_height,
            layer.tiles@ == old(layer).tiles@,
            layer.scroll_mode == old(layer).scroll_mode,
            layer.scroll_speed == old(layer).scroll_speed,
            old_chips == old(layer).chips@,
            n == old(layer).tiles@.len(),
            layer.chips@.len() == old_chips.len(),
            forall|k: int| 0 <= k < old_chips.len() ==> #[trigger] layer.chips@[k] == assembled_chip(old_chips, layer.tiles@, tileset.tiles@, cw, tw, index as int, k),
        decreases count - index,
    {
        let tile_index = layer.tiles[index];
        let src_x = index % tile_width;
        let src_y = index / tile_width;
        proof {
            lemma_tile_chips(cw, tw, th, index as int, 0, 0);
            lemma_tile_chips(cw, tw, th, index as int, 1, 0);
            lemma_tile_chips(cw, tw, th, index as int, 0, 1);
            lemma_tile_chips(cw, tw, th, index as int, 1, 1);
        }
        let ghost before = layer.chips@;
        if tile_index < tileset.tiles.len() {
            let tile = tileset.tiles[tile_index];
            proof {
                assert((2 * src_y) * chip_width + 2 * src_x + chip_width + 1 == (2 * (index as int / tw) + 1) * cw + 2 * (index as int % tw) + 1) by (nonlinear_arith)
                    requires
                        src_y == index as int / tw,
                        src_x == index as int % tw,
                        chip_width == cw,
                ;
                assert((2 * src_y) * chip_width + 2 * src_x == (2 * (index as int / tw) + 0) * cw + 2 * (index as int % tw) + 0) by (nonlinear_arith)
                    requires
                        src_y == index as int / tw,
                        src_x == index as int % tw,
                        chip_width == cw,
                ;
            }
            assert(2 * src_y <= (2 * src_y) * chip_width) by (nonlinear_arith)
                requires
                    chip_width >= 1,
                    src_y >= 0,
            ;
            let dest = (2 * src_y) * chip_width + 2 * src_x;
            layer.chips.set(dest, tile.corners[0]);
            layer.chips.set(dest + 1, tile.corners[1]);
            layer.chips.set(dest + chip_width, tile.corners[2]);
            layer.chips.set(dest + chip_width + 1, tile.corners[3]);
        }
        proof {
            assert forall|k: int| 0 <= k < old_chips.len() implies #[trigger] layer.chips@[k] == assembled_chip(old_chips, layer.tiles@, tileset.tiles@, cw, tw, index + 1, k) by {
                if covering_tile(cw, tw, k) == index as int {
                    lemma_covered_by(cw, tw, index as int, k);
                }
            }
        }
        index = index + 1;
    }
    assert(layer.chips@ =~= Seq::new(
        old_chips.len(),
        |k: int| assembled_chip(old_chips, old(layer).tiles@, tileset.tiles@, cw, tw, n, k),
    ));
}

} // verus!
