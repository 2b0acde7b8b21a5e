//! Tileset data: tile assemblies of four chips each, chip graphics and chip animations.
use crate::bitmap::Bitmap;
use crate::map::{MapChip, CHIP_FLIP_X, CHIP_FLIP_Y, CHIP_PRIORITY};
use crate::reader::{le16, ByteReader};
use crate::tileset::{tile_from_corners, ChipAnim, ChipAnimFrame, Tile};
use crate::GameMode;
use vstd::prelude::*;

verus! {

/// The size of a chip entry of a scene tile assembly: the PC adds a byte with the priority.
pub open spec fn corner_len(mode: GameMode) -> int {
    match mode {
        GameMode::Pc => 3,
        GameMode::Snes => 2,
    }
}

/// The chip of a scene tile assembly entry at `p`.
pub open spec fn scene_chip_at(data: Seq<u8>, p: int, palette_size: usize, mode: GameMode) -> MapChip {
    let w = le16(data, p) as u16;
    match mode {
        GameMode::Pc => MapChip {
            chip: (w & 0x3FF) as usize,
            flags: (if w & 0x400 > 0 { CHIP_FLIP_X } else { 0 }) | (if w & 0x800 > 0 { CHIP_FLIP_Y } else { 0 }) | (if data[p
                + 2] & 0x01 > 0 {
                CHIP_PRIORITY
            } else {
                0
            }),
            palette: (((w >> 12u16) & 0xF) as usize * palette_size) as usize,
        },
        GameMode::Snes => MapChip {
            chip: if palette_size == 4 {
                (w & 0x3FF) as usize
            } else if (w & 0x3FF) < 256 {
                0
            } else {
                ((w & 0x3FF) - 256) as usize
            },
            flags: (if w & 0x2000 > 0 { CHIP_PRIORITY } else { 0 }) | (if w & 0x4000 > 0 { CHIP_FLIP_X } else { 0 }) | (if w
                & 0x8000 > 0 {
                CHIP_FLIP_Y
            } else {
                0
            }),
            palette: ((((w & 0x1C00) as usize) >> 10usize) * palette_size) as usize,
        },
    }
}

/// The chip of a world tile assembly word.
pub open spec fn world_chip_of(w: u16, palette_size: usize) -> MapChip {
    MapChip {
        chip: (w & 0x3FF) as usize,
        flags: (if w & 0x2000 > 0 { CHIP_PRIORITY } else { 0 }) | (if w & 0x4000 > 0 { CHIP_FLIP_X } else { 0 }) | (if w
            & 0x8000 > 0 {
            CHIP_FLIP_Y
        } else {
            0
        }),
        palette: (((w >> 10u16) & 0x7) as usize * palette_size) as usize,
    }
}

proof fn lemma_word_high_bits(lo: u8, hi: u8, w: u16)
    requires
        w == (lo + 256 * hi) as u16,
    ensures
        (w & 0x2000 > 0) == ((hi / 32) % 2 == 1),
        (w & 0x4000 > 0) == ((hi / 64) % 2 == 1),
        (w & 0x8000 > 0) == (hi / 128 == 1),
        (w & 0x400 > 0) == ((hi / 4) % 2 == 1),
        (w & 0x800 > 0) == ((hi / 8) % 2 == 1),
{
    assert(w == (lo + 256 * hi) as u16 ==> {
        &&& (w & 0x2000 > 0) == ((hi / 32) % 2 == 1)
        &&& (w & 0x4000 > 0) == ((hi / 64) % 2 == 1)
        &&& (w & 0x8000 > 0) == (hi / 128 == 1)
        &&& (w & 0x400 > 0) == ((hi / 4) % 2 == 1)
        &&& (w & 0x800 > 0) == ((hi / 8) % 2 == 1)
    }) by (bit_vector);
}

proof fn lemma_chip_flag_bits(p: bool, x: bool, y: bool)
    ensures
        ({
            let f = (if p { CHIP_PRIORITY } else { 0 }) | (if x { CHIP_FLIP_X } else { 0 }) | (if y { CHIP_FLIP_Y } else { 0 });
            &&& (f & CHIP_PRIORITY != 0) == p
            &&& (f & CHIP_FLIP_X != 0) == x
            &&& (f & CHIP_FLIP_Y != 0) == y
        }),
        ({
            let f = (if x { CHIP_FLIP_X } else { 0 }) | (if y { CHIP_FLIP_Y } else { 0 }) | (if p { CHIP_PRIORITY } else { 0 });
            &&& (f & CHIP_PRIORITY != 0) == p
            &&& (f & CHIP_FLIP_X != 0) == x
            &&& (f & CHIP_FLIP_Y != 0) == y
        }),
{
    assert(({
        let f = (if p { 1u32 } else { 0 }) | (if x { 2u32 } else { 0 }) | (if y { 4u32 } else { 0 });
        let g = (if x { 2u32 } else { 0 }) | (if y { 4u32 } else { 0 }) | (if p { 1u32 } else { 0 });
        &&& (f & 1 != 0) == p
        &&& (f & 2 != 0) == x
        &&& (f & 4 != 0) == y
        &&& (g & 1 != 0) == p
        &&& (g & 2 != 0) == x
        &&& (g & 4 != 0) == y
    })) by (bit_vector);
}

/// The flags of a scene tile assembly entry come from the high byte of its chip word: on the
/// SNES bit 6 mirrors the chip horizontally, bit 7 vertically and bit 5 gives it priority; on
/// the PC bit 2 mirrors horizontally, bit 3 vertically, and the entry's third byte's bit 0 gives
/// priority.
pub proof fn law_scene_chip_flags(data: Seq<u8>, p: int, palette_size: usize)
    requires
        0 <= p,
        p + 3 <= data.len(),
    ensures
        ({
            let hi = data[p + 1];
            let snes = scene_chip_at(data, p, palette_size, GameMode::Snes).flags;
            let pc = scene_chip_at(data, p, palette_size, GameMode::Pc).flags;
            &&& (snes & CHIP_FLIP_X != 0) == ((hi / 64) % 2 == 1)
            &&& (snes & CHIP_FLIP_Y != 0) == (hi / 128 == 1)
            &&& (snes & CHIP_PRIORITY != 0) == ((hi / 32) % 2 == 1)
            &&& (pc & CHIP_FLIP_X != 0) == ((hi / 4) % 2 == 1)
            &&& (pc & CHIP_FLIP_Y != 0) == ((hi / 8) % 2 == 1)
            &&& (pc & CHIP_PRIORITY != 0) == (data[p + 2] % 2 == 1)
        }),
{
    let w = le16(data, p) as u16;
    lemma_word_high_bits(data[p], data[p + 1], w);
    let b = data[p + 2];
    assert((b & 0x01 > 0) == (b % 2 == 1)) by (bit_vector);
    lemma_chip_flag_bits(w & 0x2000 > 0, w & 0x4000 > 0, w & 0x8000 > 0);
    lemma_chip_flag_bits(b & 0x01 > 0, w & 0x400 > 0, w & 0x800 > 0);
}

/// The flags of a world tile assembly word, made of a low and a high byte: bit 6 of the high
/// byte mirrors the chip horizontally, bit 7 vertically, and bit 5 gives it priority.
pub proof fn law_world_chip_flags(lo: u8, hi: u8, palette_size: usize)
    ensures
        ({
            let f = world_chip_of((lo + 256 * hi) as u16, palette_size).flags;
            &&& (f & CHIP_FLIP_X != 0) == ((hi / 64) % 2 == 1)
            &&& (f & CHIP_FLIP_Y != 0) == (hi / 128 == 1)
            &&& (f & CHIP_PRIORITY != 0) == ((hi / 32) % 2 == 1)
        }),
{
    let w = (lo + 256 * hi) as u16;
    lemma_word_high_bits(lo, hi, w);
    lemma_chip_flag_bits(w & 0x2000 > 0, w & 0x4000 > 0, w & 0x8000 > 0);
}

/// Reads one chip entry of a scene tile assembly.
fn read_scene_chip(reader: &mut ByteReader, palette_size: usize, mode: GameMode) -> (chip: MapChip)
    requires
        old(reader).pos + corner_len(mode) <= old(reader).data@.len(),
        palette_size * 16 <= usize::MAX,
    ensures
        final(reader).data@ == old(reader).data@,
        final(reader).pos == old(reader).pos + corner_len(mode),
        chip == scene_chip_at(old(reader).data@, old(reader).pos as int, palette_size, mode),
{
    let data1 = reader.read_u16_le();
    match mode {
        GameMode::Pc => {
            let data2 = reader.read_u8();
            let flags: u32 = (if data1 & 0x400 > 0 { CHIP_FLIP_X } else { 0 }) | (if data1 & 0x800 > 0 {
                CHIP_FLIP_Y
            } else {
                0
            }) | (if data2 & 0x01 > 0 { CHIP_PRIORITY } else { 0 });
            let palette_bits = ((data1 >> 12) & 0xF) as usize;
            assert(((data1 >> 12) & 0xF) < 16) by (bit_vector);
            assert(palette_bits * palette_size <= usize::MAX) by (nonlinear_arith)
                requires
                    palette_bits < 16,
                    palette_size * 16 <= usize::MAX,
            ;
            MapChip { chip: (data1 & 0x3FF) as usize, flags, palette: ((data1 >> 12) & 0xF) as usize * palette_size }
        },
        GameMode::Snes => {
            let chip = if palette_size == 4 { (data1 & 0x3FF) as usize } else { (data1 & 0x3FF).saturating_sub(256) as usize };
            let flags: u32 = (if data1 & 0x2000 > 0 { CHIP_PRIORITY } else { 0 }) | (if data1 & 0x4000 > 0 {
                CHIP_FLIP_X
            } else {
                0
            }) | (if data1 & 0x8000 > 0 { CHIP_FLIP_Y } else { 0 });
            let palette_bits = (data1 & 0x1C00) as usize >> 10;
            assert(palette_bits < 8) by (bit_vector)
                requires
                    palette_bits == ((data1 & 0x1C00) as usize) >> 10usize,
            ;
            assert(palette_bits * palette_size <= usize::MAX) by (nonlinear_arith)
                requires
                    palette_bits < 8,
                    palette_size * 16 <= usize::MAX,
            ;
            MapChip { chip, flags, palette: palette_bits * palette_size }
        },
    }
}

/// Reads the tile assembly of a scene tileset: four chips per tile, in order.
pub fn parse_scene_tile_assembly(reader: &mut ByteReader, tile_count: usize, palette_size: usize, mode: GameMode) -> (tiles: Vec<Tile>)
    requires
        old(reader).pos + corner_len(mode) * 4 * tile_count <= old(reader).data@.len(),
        palette_size * 16 <= usize::MAX,
    ensures
        final(reader).data@ == old(reader).data@,
        final(reader).pos == old(reader).pos + corner_len(mode) * 4 * tile_count,
        tiles@.len() == tile_count,
        forall|t: int, c: int|
            0 <= t < tile_count && 0 <= c < 4 ==> (#[trigger] tiles@[t].corners@[c]) == scene_chip_at(
                old(reader).data@,
                old(reader).pos + corner_len(mode) * (4 * t + c),
                palette_size,
                mode,
            ),
{
    let ghost d = reader.data@;
    let ghost p = reader.pos as int;
    let ghost w = corner_len(mode);
    let mut tiles: Vec<Tile> = Vec::with_capacity(tile_count);
    let mut t: usize = 0;
    while t < tile_count
        invariant
            reader.data@ == d,
            w == corner_len(mode),
            w == 2 || w == 3,
            palette_size * 16 <= usize::MAX,
            t <= tile_count,
            p + w * 4 * tile_count <= d.len(),
            reader.pos == p + w * (4 * t),
            tiles@.len() == t,
            forall|k: int, c: int|
                0 <= k < t && 0 <= c < 4 ==> (#[trigger] tiles@[k].corners@[c]) == scene_chip_at(d, p + w * (4 * k + c), palette_size, mode),
        decreases tile_count - t,
    {
        assert(p + w * (4 * t + 4) <= d.len()) by (nonlinear_arith)
            requires
                t < tile_count,
                p + w * 4 * tile_count <= d.len(),
                w >= 0,
        ;
        let c0 = read_scene_chip(reader, palette_size, mode);
        let c1 = read_scene_chip(reader, palette_size, mode);
        let c2 = read_scene_chip(reader, palette_size, mode);
        let c3 = read_scene_chip(reader, palette_size, mode);
        let tile = tile_from_corners(c0, c1, c2, c3);
        tiles.push(tile);
        assert forall|c: int| 0 <= c < 4 implies (#[trigger] tiles@[t as int].corners@[c]) == scene_chip_at(d, p + w * (4 * t + c), palette_size, mode) by {
            assert(w * (4 * t + c) == w * (4 * t) + w * c) by (nonlinear_arith);
        }
        assert(w * (4 * (t + 1)) == w * (4 * t) + 4 * w) by (nonlinear_arith);
        t = t + 1;
    }
    proof {
        assert(w * (4 * tile_count) == w * 4 * tile_count) by (nonlinear_arith);
    }
    tiles
}

/// Reads the tile assembly of a world layer 1 or 2 tileset: four chip words per tile, in order.
pub fn parse_world_l12_tile_assembly(data: &mut ByteReader, tile_count: usize, palette_size: usize) -> (tiles: Vec<Tile>)
    requires
        old(data).pos + 8 * tile_count <= old(data).data@.len(),
        palette_size * 8 <= usize::MAX,
    ensures
        final(data).data@ == old(data).data@,
        final(data).pos == old(data).pos + 8 * tile_count,
        tiles@.len() == tile_count,
        forall|t: int, c: int|
            0 <= t < tile_count && 0 <= c < 4 ==> (#[trigger] tiles@[t].corners@[c]) == world_chip_of(
                le16(old(data).data@, old(data).pos + 8 * t + 2 * c) as u16,
                palette_size,
            ),
{
    let ghost d = data.data@;
    let ghost p = data.pos as int;
    let mut tiles: Vec<Tile> = Vec::with_capacity(tile_count);
    let mut t: usize = 0;
    while t < tile_count
        invariant
            data.data@ == d,
            palette_size * 8 <= usize::MAX,
            t <= tile_count,
            p + 8 * tile_count <= d.len(),
            data.pos == p + 8 * t,
            tiles@.len() == t,
            forall|k: int, c: int|
                0 <= k < t && 0 <= c < 4 ==> (#[trigger] tiles@[k].corners@[c]) == world_chip_of(le16(d, p + 8 * k + 2 * c) as u16, palette_size),
        decreases tile_count - t,
    {
        let c0 = world_chip(data.read_u16_le(), palette_size);
        let c1 = world_chip(data.read_u16_le(), palette_size);
        let c2 = world_chip(data.read_u16_le(), palette_size);
        let c3 = world_chip(data.read_u16_le(), palette_size);
        tiles.push(tile_from_corners(c0, c1, c2, c3));
        t = t + 1;
    }
    tiles
}

/// The chip of a world tile assembly word.
fn world_chip(data1: u16, palette_size: usize) -> (chip: MapChip)
    requires
        palette_size * 8 <= usize::MAX,
    ensures
        chip == world_chip_of(data1, palette_size),
{
    let flags: u32 = (if data1 & 0x2000 > 0 { CHIP_PRIORITY } else { 0 }) | (if data1 & 0x4000 > 0 {
        CHIP_FLIP_X
    } else {
        0
    }) | (if data1 & 0x8000 > 0 { CHIP_FLIP_Y } else { 0 });
    assert(((data1 >> 10) & 0x7) < 8) by (bit_vector);
    let palette_bits = ((data1 >> 10) & 0x7) as usize;
    assert(palette_bits * palette_size <= usize::MAX) by (nonlinear_arith)
        requires
            palette_bits < 8,
            palette_size * 8 <= usize::MAX,
    ;
    MapChip { chip: (data1 & 0x3FF) as usize, palette: ((data1 >> 10) & 0x7) as usize * palette_size, flags }
}

/// Which word of a world layer 3 assembly holds corner `c` of tile `t`: the words are stored as
/// a 32 chip wide picture, left to right and top to bottom, of 16 tiles per row.
pub open spec fn l3_word_index(t: int, c: int) -> int {
    (2 * (t % 16) + c % 2) + 32 * (2 * (t / 16) + c / 2)
}

/// Reads the tile assembly of a world layer 3 tileset.
pub fn parse_world_l3_tile_assembly(data: &mut ByteReader, tile_count: usize, palette_size: usize) -> (tiles: Vec<Tile>)
    requires
        tile_count % 16 == 0,
        old(data).pos + 8 * tile_count <= old(data).data@.len(),
        palette_size * 8 <= usize::MAX,
    ensures
        final(data).data@ == old(data).data@,
        final(data).pos == old(data).pos + 8 * tile_count,
        tiles@.len() == tile_count,
        forall|t: int, c: int|
            0 <= t < tile_count && 0 <= c < 4 ==> (#[trigger] tiles@[t].corners@[c]) == world_chip_of(
                le16(old(data).data@, old(data).pos + 2 * l3_word_index(t, c)) as u16,
                palette_size,
            ),
{
    let ghost d = data.data@;
    let ghost p = data.pos as int;
    let start = data.pos;
    let total = data.len();
    let mut tiles: Vec<Tile> = Vec::with_capacity(tile_count);
    let mut t: usize = 0;
    while t < tile_count
        invariant
            data.data@ == d,
            data.pos == start,
            start == p,
            total == d.len(),
            tile_count % 16 == 0,
            palette_size * 8 <= usize::MAX,
            t <= tile_count,
            p + 8 * tile_count <= d.len(),
            tiles@.len() == t,
            forall|k: int, c: int|
                0 <= k < t && 0 <= c < 4 ==> (#[trigger] tiles@[k].corners@[c]) == world_chip_of(le16(d, p + 2 * l3_word_index(k, c)) as u16, palette_size),
        decreases tile_count - t,
    {
        let base = 2 * (t % 16) + 64 * (t / 16);
        assert(forall|c: int| 0 <= c < 4 ==> #[trigger] l3_word_index(t as int, c) == base + c % 2 + 32 * (c / 2));
        assert(base + 33 < 4 * tile_count) by (nonlinear_arith)
            requires
                base == 2 * (t % 16) + 64 * (t / 16),
                t < tile_count,
                tile_count % 16 == 0,
        ;
        let c0 = world_chip(le_word(data, start + 2 * base), palette_size);
        let c1 = world_chip(le_word(data, start + 2 * (base + 1)), palette_size);
        let c2 = world_chip(le_word(data, start + 2 * (base + 32)), palette_size);
        let c3 = world_chip(le_word(data, start + 2 * (base + 33)), palette_size);
        tiles.push(tile_from_corners(c0, c1, c2, c3));
        t = t + 1;
    }
    data.seek(start + 8 * tile_count);
    tiles
}

/// The little-endian word at `pos` of the reader's data, leaving the reader where it is.
fn le_word(reader: &mut ByteReader, pos: usize) -> (w: u16)
    requires
        pos + 2 <= old(reader).data@.len(),
    ensures
        final(reader).data@ == old(reader).data@,
        final(reader).pos == old(reader).pos,
        w == le16(old(reader).data@, pos as int),
{
    let back = reader.pos;
    reader.seek(pos);
    let w = reader.read_u16_le();
    reader.seek(back);
    w
}


/// Where pixel `(c, r)` of chip `k` is in chip graphics stored 16 chips, 128 pixels, per row.
pub open spec fn chip_pixel_index(k: int, r: int, c: int) -> int {
    ((k / 16) * 8 + r) * 128 + (k % 16) * 8 + c
}

/// Splits chip graphics, stored 16 chips per 128 pixel row, into 8x8 bitmaps.
pub fn split_chip_graphics(chip_data: &Vec<u8>, chip_count: usize) -> (chips: Vec<Bitmap>)
    requires
        forall|k: int| 0 <= k < chip_count ==> #[trigger] chip_pixel_index(k, 7, 7) < chip_data@.len(),
    ensures
        chips@.len() == chip_count,
        forall|k: int| 0 <= k < chip_count ==> (#[trigger] chips@[k]).width == 8 && chips@[k].height == 8 && chips@[k].data@.len() == 64,
        forall|k: int, r: int, c: int|
            0 <= k < chip_count && 0 <= r < 8 && 0 <= c < 8 ==> (#[trigger] chips@[k].data@[8 * r + c]) == chip_data@[chip_pixel_index(k, r, c)],
{
    let total = chip_data.len();
    let mut chips: Vec<Bitmap> = Vec::with_capacity(chip_count);
    let mut x: usize = 0;
    let mut y: usize = 0;
    let mut k: usize = 0;
    while k < chip_count
        invariant
            k <= chip_count,
            total == chip_data@.len(),
            x == (k % 16) * 8,
            y == (k / 16) * 8,
            forall|j: int| 0 <= j < chip_count ==> #[trigger] chip_pixel_index(j, 7, 7) < chip_data@.len(),
            chips@.len() == k,
            forall|j: int| 0 <= j < k ==> (#[trigger] chips@[j]).width == 8 && chips@[j].height == 8 && chips@[j].data@.len() == 64,
            forall|j: int, r: int, c: int|
                0 <= j < k && 0 <= r < 8 && 0 <= c < 8 ==> (#[trigger] chips@[j].data@[8 * r + c]) == chip_data@[chip_pixel_index(j, r, c)],
        decreases chip_count - k,
    {
        assert(chip_pixel_index(k as int, 7, 7) < total);
        let mut pixels: Vec<u8> = Vec::with_capacity(64);
        let mut row: usize = 0;
        while row < 8
            invariant
                row <= 8,
                x == (k % 16) * 8,
                y == (k / 16) * 8,
                total == chip_data@.len(),
                chip_pixel_index(k as int, 7, 7) < total,
                pixels@.len() == 8 * row,
                forall|r: int, c: int| 0 <= r < row && 0 <= c < 8 ==> #[trigger] pixels@[8 * r + c] == chip_data@[chip_pixel_index(k as int, r, c)],
            decreases 8 - row,
        {
            let src = (y + row) * 128 + x;
            assert(src + 7 <= chip_pixel_index(k as int, 7, 7));
            let mut col: usize = 0;
            while col < 8
                invariant
                    col <= 8,
                    row < 8,
                    src == (y + row) * 128 + x,
                    x == (k % 16) * 8,
                    y == (k / 16) * 8,
                    src + 7 < total,
                    total == chip_data@.len(),
                    pixels@.len() == 8 * row + col,
                    forall|r: int, c: int| 0 <= r < row && 0 <= c < 8 ==> #[trigger] pixels@[8 * r + c] == chip_data@[chip_pixel_index(k as int, r, c)],
                    forall|c: int| 0 <= c < col ==> #[trigger] pixels@[8 * row + c] == chip_data@[chip_pixel_index(k as int, row as int, c)],
                decreases 8 - col,
            {
                pixels.push(chip_data[src + col]);
                col = col + 1;
            }
            row = row + 1;
        }
        chips.push(Bitmap::from_raw_data(8, 8, pixels));
        x = x + 8;
        if x >= 128 {
            x = 0;
            y = y + 8;
        }
        k = k + 1;
    }
    chips
}

/// Copies chip graphics into a larger buffer at `offset`.
pub fn set_chip_bitmap_data(bitmap_data: &mut Vec<u8>, data: &Vec<u8>, offset: usize)
    requires
        offset + data@.len() <= old(bitmap_data)@.len(),
    ensures
        final(bitmap_data)@ == old(bitmap_data)@.take(offset as int) + data@ + old(bitmap_data)@.skip(offset + data@.len()),
{
    let ghost start = bitmap_data@;
    let total = bitmap_data.len();
    let mut i: usize = 0;
    while i < data.len()
        invariant
            i <= data@.len(),
            total == start.len(),
            offset + data@.len() <= start.len(),
            bitmap_data@.len() == start.len(),
            forall|k: int| 0 <= k < start.len() ==> #[trigger] bitmap_data@[k] == (if offset <= k < offset + i { data@[k - offset] } else { start[k] }),
        decreases data@.len() - i,
    {
        bitmap_data.set(offset + i, data[i]);
        i = i + 1;
    }
    assert(bitmap_data@ =~= start.take(offset as int) + data@ + start.skip(offset + data@.len()));
}


/// How many 60ths of a second a chip animation frame shows, from its duration byte.
pub open spec fn frame_duration(b: u8) -> u32 {
    let bits = b >> 4u8;
    if bits == 1 {
        16
    } else if bits == 2 {
        12
    } else if bits == 4 {
        8
    } else if bits == 8 {
        4
    } else {
        0
    }
}

/// The chip a chip animation changes, from its stored address.
pub open spec fn dest_chip_of(w: u16, mode: GameMode) -> usize {
    match mode {
        GameMode::Snes => ((w - 0x2000) / 16) as usize,
        GameMode::Pc => (w / 32) as usize,
    }
}

/// The animated chip a frame shows, from its stored address.
pub open spec fn src_chip_of(w: u16, mode: GameMode) -> usize {
    match mode {
        GameMode::Snes => ((w - 0x6000) / 32) as usize,
        GameMode::Pc => (w / 32) as usize,
    }
}

/// Whether stored chip addresses can be converted: the SNES ones count from an offset.
pub open spec fn chip_address_ok(w: u16, base: u16, mode: GameMode) -> bool {
    match mode {
        GameMode::Snes => w >= base,
        GameMode::Pc => true,
    }
}

/// The frames of the chip animation whose frame count `n` is at `pos`: durations first, then
/// source chips.
pub open spec fn anim_frames_at(data: Seq<u8>, pos: int, n: int, mode: GameMode) -> Seq<ChipAnimFrame> {
    Seq::new(
        n as nat,
        |f: int|
            ChipAnimFrame {
                duration_frames: frame_duration(data[pos + 3 + f]),
                src_chip: src_chip_of(le16(data, pos + 3 + n + 2 * f) as u16, mode),
            },
    )
}

/// The chip animations from `pos` to the end of the data or to a frame count of 0 or 0x80: for
/// each its destination chip and frames. `None` where an animation does not fit in the data or
/// has an address that cannot be converted.
pub open spec fn chip_anims_from(data: Seq<u8>, pos: int, mode: GameMode) -> Option<Seq<(usize, Seq<ChipAnimFrame>)>>
    decreases data.len() - pos,
{
    if pos < 0 || pos >= data.len() {
        Some(Seq::empty())
    } else {
        let n = data[pos] as int;
        if n == 0 || n == 0x80 {
            Some(Seq::empty())
        } else if pos + 3 + 3 * n > data.len() {
            None
        } else if !chip_address_ok(le16(data, pos + 1) as u16, 0x2000, mode) || exists|f: int|
            0 <= f < n && !chip_address_ok(#[trigger] le16(data, pos + 3 + n + 2 * f) as u16, 0x6000, mode) {
            None
        } else {
            match chip_anims_from(data, pos + 3 + 3 * n, mode) {
                None => None,
                Some(rest) => Some(seq![(dest_chip_of(le16(data, pos + 1) as u16, mode), anim_frames_at(data, pos, n, mode))] + rest),
            }
        }
    }
}

/// Reads the chip animations of a tileset: for each a frame count, the address of the chip it
/// changes, the frame durations and the addresses of the animated chips. A frame count of 0 or
/// 0x80 ends the list.
pub fn parse_chip_anims(reader: &mut ByteReader, mode: GameMode) -> (anims: Vec<ChipAnim>)
    requires
        chip_anims_from(old(reader).data@, old(reader).pos as int, mode) is Some,
    ensures
        final(reader).data@ == old(reader).data@,
        ({
            let expected = chip_anims_from(old(reader).data@, old(reader).pos as int, mode).unwrap();
            &&& anims@.len() == expected.len()
            &&& forall|i: int| 0 <= i < expected.len() ==> (#[trigger] anims@[i]).dest_chip == expected[i].0
                && anims@[i].frames@ == expected[i].1 && anims@[i].frame == 0
        }),
{
    let ghost d = reader.data@;
    let ghost whole = chip_anims_from(d, reader.pos as int, mode).unwrap();
    let total = reader.len();
    let mut anims: Vec<ChipAnim> = Vec::new();
    let ghost mut done: Seq<(usize, Seq<ChipAnimFrame>)> = Seq::empty();
    loop
        invariant_except_break
            reader.data@ == d,
            total == d.len(),
            chip_anims_from(d, reader.pos as int, mode) is Some,
            done + chip_anims_from(d, reader.pos as int, mode).unwrap() == whole,
            anims@.len() == done.len(),
            forall|i: int| 0 <= i < done.len() ==> (#[trigger] anims@[i]).dest_chip == done[i].0 && anims@[i].frames@ == done[i].1 && anims@[i].frame == 0,
        ensures
            anims@.len() == whole.len(),
            forall|i: int| 0 <= i < whole.len() ==> (#[trigger] anims@[i]).dest_chip == whole[i].0 && anims@[i].frames@ == whole[i].1 && anims@[i].frame == 0,
            reader.data@ == d,
        decreases d.len() - reader.pos,
    {
        let ghost pos = reader.pos as int;
        if !reader.has(1) {
            assert(chip_anims_from(d, pos, mode).unwrap() =~= Seq::<(usize, Seq<ChipAnimFrame>)>::empty());
            assert(done =~= whole);
            break;
        }
        let frame_count = reader.read_u8() as usize;
        if frame_count == 0 || frame_count == 0x80 {
            assert(done =~= whole);
            break;
        }
        let w = reader.read_u16_le();
        let dest_chip = match mode {
            GameMode::Snes => ((w as usize) - 0x2000) / 16,
            GameMode::Pc => (w as usize) / 32,
        };
        let mut frames: Vec<ChipAnimFrame> = Vec::new();
        let mut f: usize = 0;
        while f < frame_count
            invariant
                reader.data@ == d,
                f <= frame_count,
                frame_count == d[pos],
                pos + 3 + 3 * frame_count <= d.len(),
                reader.pos == pos + 3 + f,
                frames@.len() == f,
                forall|j: int| 0 <= j < f ==> (#[trigger] frames@[j]).duration_frames == frame_duration(d[pos + 3 + j]) && frames@[j].src_chip == 0,
            decreases frame_count - f,
        {
            let b = reader.read_u8();
            let bits = b >> 4;
            let duration_frames: u32 = if bits == 1 { 16 } else if bits == 2 { 12 } else if bits == 4 { 8 } else if bits == 8 { 4 } else { 0 };
            frames.push(ChipAnimFrame { duration_frames, src_chip: 0 });
            f = f + 1;
        }
        let mut g: usize = 0;
        while g < frame_count
            invariant
                reader.data@ == d,
                g <= frame_count,
                frame_count == d[pos],
                pos + 3 + 3 * frame_count <= d.len(),
                reader.pos == pos + 3 + frame_count + 2 * g,
                frames@.len() == frame_count,
                forall|j: int| 0 <= j < frame_count ==> !(!chip_address_ok(#[trigger] le16(d, pos + 3 + frame_count + 2 * j) as u16, 0x6000, mode)),
                forall|j: int| 0 <= j < frame_count ==> (#[trigger] frames@[j]).duration_frames == frame_duration(d[pos + 3 + j]),
                forall|j: int| 0 <= j < g ==> (#[trigger] frames@[j]).src_chip == src_chip_of(le16(d, pos + 3 + frame_count + 2 * j) as u16, mode),
            decreases frame_count - g,
        {
            let w2 = reader.read_u16_le();
            assert(chip_address_ok(le16(d, pos + 3 + frame_count + 2 * g) as u16, 0x6000, mode));
            let src_chip = match mode {
                GameMode::Snes => ((w2 - 0x6000) as usize) / 32,
                GameMode::Pc => (w2 as usize) / 32,
            };
            let mut frame = frames[g];
            frame.src_chip = src_chip;
            frames.set(g, frame);
            g = g + 1;
        }
        assert(frames@ =~= anim_frames_at(d, pos, frame_count as int, mode));
        anims.push(ChipAnim { dest_chip, frames, frame: 0 });
        proof {
            let entry = (dest_chip_of(le16(d, pos + 1) as u16, mode), anim_frames_at(d, pos, frame_count as int, mode));
            assert(chip_anims_from(d, pos, mode).unwrap() == seq![entry] + chip_anims_from(d, reader.pos as int, mode).unwrap());
            done = done.push(entry);
            assert(done + chip_anims_from(d, reader.pos as int, mode).unwrap() =~= whole);
        }
    }
    anims
}


/// Where a scene tileset's chipset goes: set 6 holds the animated chips, at the start of their
/// own bitmap; set 7 follows the six regular sets at 0xC000; the others go 0x2000 bytes apart.
/// Returns whether the set is animated, and its offset.
pub fn scene_chipset_target(chipset_index: usize) -> (target: (bool, usize))
    requires
        chipset_index < 8,
    ensures
        target == (if chipset_index == 6 {
            (true, 0usize)
        } else if chipset_index == 7 {
            (false, 0xC000usize)
        } else {
            (false, (chipset_index * 0x2000) as usize)
        }),
{
    if chipset_index == 6 {
        (true, 0)
    } else if chipset_index == 7 {
        (false, 0xC000)
    } else {
        (false, chipset_index * 0x2000)
    }
}

/// Whether a scene tileset or layer 3 chip index refers to data: 0xFF and 0xFFFF mean none.
pub fn scene_tileset_present(index: usize) -> (present: bool)
    ensures
        present == (index != 0xFF && index != 0xFFFF),
{
    index != 0xFF && index != 0xFFFF
}

} // verus!
