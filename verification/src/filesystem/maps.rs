//! Map data: the scene map header, layer tiles and the run-length coded tile properties, and
//! the world maps with their chip properties and music.
use crate::map::{assembled_chip, empty_chip, LayerScrollMode, MapChip, MapLayer, TileMap};
use crate::scene::scene_map::{collision_number, SceneMap, ScenePropLayer};
use crate::tileset::TileSet;
use vstd::arithmetic::div_mod::{lemma_fundamental_div_mod_converse, lemma_fundamental_div_mod, lemma_mod_bound};
use crate::reader::ByteReader;
pub use crate::map::assemble_map_layer;
use crate::scene::scene_map::{
    default_tile_props, SceneMoveDirection, SceneTileCollision, SceneTileProps, TILE_COLLISION_IGNORE_Z,
    TILE_COLLISION_INVERTED, TILE_DOOR_TRIGGER, TILE_L1_TILE_ADD, TILE_L2_TILE_ADD, TILE_NPC_COLLISION,
    TILE_NPC_COLLISION_BATTLE, TILE_RLE_COMPRESSED, TILE_UNKNOWN_1, TILE_UNKNOWN_2, TILE_Z_NEUTRAL,
};
use crate::sprites::SpritePriority;
use crate::map::{SCREEN_L1_MAIN, SCREEN_L2_MAIN, SCREEN_L3_MAIN, SCREEN_L3_SUB, SCREEN_SPR_MAIN, EFFECT_L1, EFFECT_L2, EFFECT_SPR, EFFECT_HALF_INTENSITY};
use crate::world::world_map::{WorldChip, WorldMap, WORLD_CHIP_BLOCK_WALK, WORLD_CHIP_BLOCK_HOVER, WORLD_CHIP_BLOCK_FLYING, WORLD_CHIP_HAS_EXIT};
use vstd::prelude::*;

verus! {

/// The collision shape of a five bit collision value.
pub open spec fn collision_of(v: u8) -> SceneTileCollision {
    if v == 0 { SceneTileCollision::NoCollision }
    else if v == 1 { SceneTileCollision::Full }
    else if v == 2 { SceneTileCollision::Corner45NW }
    else if v == 3 { SceneTileCollision::Corner45NE }
    else if v == 4 { SceneTileCollision::Corner45SW }
    else if v == 5 { SceneTileCollision::Corner45SE }
    else if v == 6 { SceneTileCollision::Corner30NW }
    else if v == 7 { SceneTileCollision::Corner30NE }
    else if v == 8 { SceneTileCollision::Corner30SW }
    else if v == 9 { SceneTileCollision::Corner30SE }
    else if v == 10 { SceneTileCollision::Corner22NW }
    else if v == 11 { SceneTileCollision::Corner22NE }
    else if v == 12 { SceneTileCollision::Corner22SW }
    else if v == 13 { SceneTileCollision::Corner22SE }
    else if v == 14 { SceneTileCollision::Corner75NW }
    else if v == 15 { SceneTileCollision::Corner75NE }
    else if v == 16 { SceneTileCollision::Corner75SW }
    else if v == 17 { SceneTileCollision::Corner75SE }
    else if v == 18 { SceneTileCollision::Corner75NWDup }
    else if v == 19 { SceneTileCollision::Corner75NEDup }
    else if v == 20 { SceneTileCollision::Corner75SWDup }
    else if v == 21 { SceneTileCollision::Corner75SEDup }
    else if v == 22 { SceneTileCollision::StairsSWNE }
    else if v == 23 { SceneTileCollision::StairsSENW }
    else if v == 24 { SceneTileCollision::LeftHalf }
    else if v == 25 { SceneTileCollision::TopHalf }
    else if v == 26 { SceneTileCollision::SW }
    else if v == 27 { SceneTileCollision::SE }
    else if v == 28 { SceneTileCollision::NE }
    else if v == 29 { SceneTileCollision::NW }
    else if v == 30 { SceneTileCollision::Ladder }
    else { SceneTileCollision::Invalid }
}

/// `flag` where `set`, else nothing.
pub open spec fn flag_if(set: bool, flag: u32) -> u32 {
    if set { flag } else { 0 }
}

/// The flags of three bytes of tile properties.
pub open spec fn tile_flags_of(b0: u8, b1: u8, b2: u8) -> u32 {
    flag_if(b0 & 0x01 != 0, TILE_L1_TILE_ADD) | flag_if(b0 & 0x02 != 0, TILE_L2_TILE_ADD) | flag_if(
        b0 & 0x80 != 0,
        TILE_RLE_COMPRESSED,
    ) | flag_if(b1 & 0x10 != 0, TILE_DOOR_TRIGGER) | flag_if(b1 & 0x20 != 0, TILE_UNKNOWN_1) | flag_if(
        b1 & 0x80 != 0,
        TILE_NPC_COLLISION_BATTLE,
    ) | flag_if(b2 & 0x04 != 0, TILE_COLLISION_IGNORE_Z) | flag_if(b2 & 0x08 != 0, TILE_COLLISION_INVERTED)
        | flag_if(b2 & 0x10 != 0, TILE_UNKNOWN_2) | flag_if(b2 & 0x20 != 0, TILE_Z_NEUTRAL) | flag_if(
        b2 & 0x80 != 0,
        TILE_NPC_COLLISION,
    )
}

/// The tile properties that three bytes describe.
pub open spec fn tile_props_of(b0: u8, b1: u8, b2: u8) -> SceneTileProps {
    SceneTileProps {
        flags: tile_flags_of(b0, b1, b2),
        sprite_priority_top: if b1 & 0x40 != 0 { SpritePriority::AboveAll } else { SpritePriority::BelowL2AboveL1 },
        sprite_priority_bottom: if b2 & 0x40 != 0 { SpritePriority::AboveAll } else { SpritePriority::BelowL2AboveL1 },
        z_plane: (b2 & 0x3) as u32,
        move_speed: ((b1 >> 2u8) & 0x03) as u32,
        move_direction: if b1 & 0x03 == 0 {
            SceneMoveDirection::North
        } else if b1 & 0x03 == 1 {
            SceneMoveDirection::South
        } else if b1 & 0x03 == 2 {
            SceneMoveDirection::East
        } else {
            SceneMoveDirection::West
        },
        collision: collision_of((b0 >> 2u8) & 0x1F),
    }
}

/// The collision shape of a tile is the one whose number is bits 2 to 6 of the tile's first
/// property byte: 2 is the north-west and 3 the north-east 45 degree corner, and 31 the invalid
/// shape.
pub proof fn law_collision_value_is_table_position(b0: u8, b1: u8, b2: u8)
    ensures
        collision_number(tile_props_of(b0, b1, b2).collision) == (b0 / 4) % 32,
{
    assert((b0 >> 2u8) & 0x1F == (b0 / 4) % 32) by (bit_vector);
}

/// The other fields of a tile's properties: the low two bits of the second byte give the
/// direction the tile moves things (north, south, east, west in that order) and the next two
/// its speed; bit 6 of the second and third bytes puts the top and the bottom half of sprites
/// above all layers; the low two bits of the third byte are the Z plane.
pub proof fn law_tile_props_fields(b0: u8, b1: u8, b2: u8)
    ensures
        ({
            let p = tile_props_of(b0, b1, b2);
            &&& b1 % 4 == 0 ==> p.move_direction == SceneMoveDirection::North
            &&& b1 % 4 == 1 ==> p.move_direction == SceneMoveDirection::South
            &&& b1 % 4 == 2 ==> p.move_direction == SceneMoveDirection::East
            &&& b1 % 4 == 3 ==> p.move_direction == SceneMoveDirection::West
            &&& p.move_speed == (b1 / 4) % 4
            &&& (p.sprite_priority_top == SpritePriority::AboveAll) == ((b1 / 64) % 2 == 1)
            &&& (p.sprite_priority_bottom == SpritePriority::AboveAll) == ((b2 / 64) % 2 == 1)
            &&& p.z_plane == b2 % 4
        }),
{
    assert(b1 & 0x03 == b1 % 4 && (b1 >> 2u8) & 0x03 == (b1 / 4) % 4 && (b1 & 0x40 != 0) == ((b1 / 64) % 2 == 1)
        && (b2 & 0x40 != 0) == ((b2 / 64) % 2 == 1) && b2 & 0x3 == b2 % 4) by (bit_vector);
}

/// The collision shape of a five bit collision value.
fn collision_from(v: u8) -> (c: SceneTileCollision)
    ensures
        c == collision_of(v),
{
    match v {
        0 => SceneTileCollision::NoCollision,
        1 => SceneTileCollision::Full,
        2 => SceneTileCollision::Corner45NW,
        3 => SceneTileCollision::Corner45NE,
        4 => SceneTileCollision::Corner45SW,
        5 => SceneTileCollision::Corner45SE,
        6 => SceneTileCollision::Corner30NW,
        7 => SceneTileCollision::Corner30NE,
        8 => SceneTileCollision::Corner30SW,
        9 => SceneTileCollision::Corner30SE,
        10 => SceneTileCollision::Corner22NW,
        11 => SceneTileCollision::Corner22NE,
        12 => SceneTileCollision::Corner22SW,
        13 => SceneTileCollision::Corner22SE,
        14 => SceneTileCollision::Corner75NW,
        15 => SceneTileCollision::Corner75NE,
        16 => SceneTileCollision::Corner75SW,
        17 => SceneTileCollision::Corner75SE,
        18 => SceneTileCollision::Corner75NWDup,
        19 => SceneTileCollision::Corner75NEDup,
        20 => SceneTileCollision::Corner75SWDup,
        21 => SceneTileCollision::Corner75SEDup,
        22 => SceneTileCollision::StairsSWNE,
        23 => SceneTileCollision::StairsSENW,
        24 => SceneTileCollision::LeftHalf,
        25 => SceneTileCollision::TopHalf,
        26 => SceneTileCollision::SW,
        27 => SceneTileCollision::SE,
        28 => SceneTileCollision::NE,
        29 => SceneTileCollision::NW,
        30 => SceneTileCollision::Ladder,
        _ => SceneTileCollision::Invalid,
    }
}

/// Parses three bytes of scene tile property data.
pub fn parse_scene_tile_props(data: [u8; 3]) -> (props: SceneTileProps)
    ensures
        props == tile_props_of(data@[0], data@[1], data@[2]),
{
    let b0 = data[0];
    let b1 = data[1];
    let b2 = data[2];
    let flags: u32 = (if b0 & 0x01 != 0 { TILE_L1_TILE_ADD } else { 0 }) | (if b0 & 0x02 != 0 {
        TILE_L2_TILE_ADD
    } else {
        0
    }) | (if b0 & 0x80 != 0 { TILE_RLE_COMPRESSED } else { 0 }) | (if b1 & 0x10 != 0 {
        TILE_DOOR_TRIGGER
    } else {
        0
    }) | (if b1 & 0x20 != 0 { TILE_UNKNOWN_1 } else { 0 }) | (if b1 & 0x80 != 0 {
        TILE_NPC_COLLISION_BATTLE
    } else {
        0
    }) | (if b2 & 0x04 != 0 { TILE_COLLISION_IGNORE_Z } else { 0 }) | (if b2 & 0x08 != 0 {
        TILE_COLLISION_INVERTED
    } else {
        0
    }) | (if b2 & 0x10 != 0 { TILE_UNKNOWN_2 } else { 0 }) | (if b2 & 0x20 != 0 { TILE_Z_NEUTRAL } else { 0 })
        | (if b2 & 0x80 != 0 { TILE_NPC_COLLISION } else { 0 });
    let move_bits = b1 & 0x03;
    let move_direction = if move_bits == 0 {
        SceneMoveDirection::North
    } else if move_bits == 1 {
        SceneMoveDirection::South
    } else if move_bits == 2 {
        SceneMoveDirection::East
    } else {
        SceneMoveDirection::West
    };
    SceneTileProps {
        flags,
        sprite_priority_top: if b1 & 0x40 != 0 { SpritePriority::AboveAll } else { SpritePriority::BelowL2AboveL1 },
        sprite_priority_bottom: if b2 & 0x40 != 0 { SpritePriority::AboveAll } else { SpritePriority::BelowL2AboveL1 },
        z_plane: (b2 & 0x3) as u32,
        move_speed: ((b1 >> 2) & 0x03) as u32,
        move_direction,
        collision: collision_from((b0 >> 2) & 0x1F),
    }
}

/// How many times a run-length coded entry repeats: a count of zero means 256.
pub open spec fn repeat_count(b: u8) -> nat {
    if b > 0 { b as nat } else { 256 }
}

/// The tile properties coded from `pos` to the end of the data: entries of three bytes, each
/// followed by a repeat count where its coded flag is set; a trailing part shorter than an entry
/// is ignored. `None` where a repeat count is missing.
pub open spec fn coded_tile_props(data: Seq<u8>, pos: int) -> Option<Seq<SceneTileProps>>
    decreases data.len() - pos,
{
    if pos < 0 || pos + 3 > data.len() {
        Some(Seq::empty())
    } else {
        let p = tile_props_of(data[pos], data[pos + 1], data[pos + 2]);
        if data[pos] & 0x80 != 0 {
            if pos + 4 > data.len() {
                None
            } else {
                match coded_tile_props(data, pos + 4) {
                    None => None,
                    Some(rest) => Some(Seq::new(repeat_count(data[pos + 3]), |i: int| p) + rest),
                }
            }
        } else {
            match coded_tile_props(data, pos + 3) {
                None => None,
                Some(rest) => Some(seq![p] + rest),
            }
        }
    }
}

/// `props` made exactly `count` long: cut, or filled up with default properties.
pub open spec fn fitted(props: Seq<SceneTileProps>, count: nat) -> Seq<SceneTileProps> {
    if props.len() >= count {
        props.take(count as int)
    } else {
        props + Seq::new((count - props.len()) as nat, |i: int| default_tile_props())
    }
}

/// Reads the run-length coded tile properties of a scene map of `width` by `height` tiles, up to
/// the end of the data; the list is cut or padded to one entry per tile.
pub fn read_scene_map_tile_props(width: u32, height: u32, data: &mut ByteReader) -> (props: Vec<SceneTileProps>)
    requires
        width * height <= u32::MAX,
        coded_tile_props(old(data).data@, old(data).pos as int) is Some,
    ensures
        final(data).data@ == old(data).data@,
        final(data).pos == old(data).data@.len(),
        props@ == fitted(coded_tile_props(old(data).data@, old(data).pos as int).unwrap(), (width * height) as nat),
{
    let ghost d = data.data@;
    let ghost whole = coded_tile_props(d, data.pos as int).unwrap();
    let mut tile_props: Vec<SceneTileProps> = Vec::new();
    let _total = data.len();
    while data.has(3)
        invariant
            data.data@ == d,
            _total == d.len(),
            coded_tile_props(d, data.pos as int) is Some,
            tile_props@ + coded_tile_props(d, data.pos as int).unwrap() == whole,
        decreases d.len() - data.pos,
    {
        let ghost before = tile_props@;
        let b0 = data.read_u8();
        let b1 = data.read_u8();
        let b2 = data.read_u8();
        let props = parse_scene_tile_props([b0, b1, b2]);
        if props.flags & TILE_RLE_COMPRESSED != 0 {
            assert(b0 & 0x80 != 0) by {
                assert((tile_flags_of(b0, b1, b2) & TILE_RLE_COMPRESSED != 0) == (b0 & 0x80 != 0)) by (bit_vector);
            }
            let repeat = data.read_u8() as u32;
            let repeat = if repeat > 0 { repeat } else { 256 };
            let mut k: u32 = 0;
            while k < repeat
                invariant
                    k <= repeat,
                    tile_props@ == before + Seq::new(k as nat, |i: int| props),
                decreases repeat - k,
            {
                tile_props.push(props);
                k = k + 1;
                assert(tile_props@ =~= before + Seq::new(k as nat, |i: int| props));
            }
        } else {
            assert(b0 & 0x80 == 0) by {
                assert((tile_flags_of(b0, b1, b2) & TILE_RLE_COMPRESSED != 0) == (b0 & 0x80 != 0)) by (bit_vector);
            }
            tile_props.push(props);
        }
        assert(tile_props@ + coded_tile_props(d, data.pos as int).unwrap() =~= whole);
    }
    assert(tile_props@ =~= whole);
    data.seek(_total);

    let count_expected = (width * height) as usize;
    if tile_props.len() < count_expected {
        let missing = count_expected - tile_props.len();
        let ghost raw = tile_props@;
        let mut k: usize = 0;
        while k < missing
            invariant
                k <= missing,
                missing == count_expected - raw.len(),
                tile_props@ == raw + Seq::new(k as nat, |i: int| default_tile_props()),
            decreases missing - k,
        {
            tile_props.push(SceneTileProps::default());
            k = k + 1;
            assert(tile_props@ =~= raw + Seq::new(k as nat, |i: int| default_tile_props()));
        }
    } else if tile_props.len() > count_expected {
        tile_props.truncate(count_expected);
    }
    tile_props
}


/// A layer scroll speed nibble in quarter pixels per second: 0, 3.75, 7.5, 15, 30, 60, 120 and
/// 240 pixels per second, then the same backwards.
pub open spec fn scroll_speed_of(nibble: int) -> i32 {
    let magnitude: i32 = if nibble % 8 == 0 { 0 } else if nibble % 8 == 1 { 15 } else if nibble % 8 == 2 { 30 } else if nibble
        % 8 == 3 {
        60
    } else if nibble % 8 == 4 {
        120
    } else if nibble % 8 == 5 {
        240
    } else if nibble % 8 == 6 {
        480
    } else {
        960
    };
    if nibble >= 8 { (-magnitude) as i32 } else { magnitude }
}

/// The scroll speed of a nibble, in quarter pixels per second.
fn scroll_speed(nibble: u8) -> (speed: i32)
    requires
        nibble < 16,
    ensures
        speed == scroll_speed_of(nibble as int),
{
    let m = nibble % 8;
    let magnitude: i32 = if m == 0 { 0 } else if m == 1 { 15 } else if m == 2 { 30 } else if m == 3 { 60 } else if m == 4 {
        120
    } else if m == 5 {
        240
    } else if m == 6 {
        480
    } else {
        960
    };
    if nibble >= 8 { -magnitude } else { magnitude }
}

/// Decodes layer scroll speed bits into horizontal and vertical speeds, in quarter pixels per
/// second: the low nibble is horizontal, the high nibble vertical.
pub fn decode_scene_layer_scroll_speed(bits: u8) -> (speed: (i32, i32))
    ensures
        speed == (scroll_speed_of((bits & 0x0F) as int), scroll_speed_of(((bits & 0xF0) >> 4u8) as int)),
{
    assert((bits & 0x0F) < 16 && ((bits & 0xF0) >> 4) < 16) by (bit_vector);
    (scroll_speed(bits & 0x0F), scroll_speed((bits & 0xF0) >> 4))
}

/// The six header bytes of a scene map: layer 1 and 2 sizes, layer 3 size and scroll bits,
/// layer 2 and 3 scroll speeds, and the screen and color math flags.
#[derive(Clone, Copy, PartialEq, Eq, Structural, Debug)]
pub struct SceneMapHeader {
    pub layer12_size: u8,
    pub bits: u8,
    pub scroll_l2: u8,
    pub scroll_l3: u8,
    pub screen_flags: u8,
    pub effect_flags: u8,
}

/// Reads a scene map header.
pub fn read_scene_map_header(data: &mut ByteReader) -> (header: SceneMapHeader)
    requires
        old(data).pos + 6 <= old(data).data@.len(),
    ensures
        final(data).data@ == old(data).data@,
        final(data).pos == old(data).pos + 6,
        ({
            let d = old(data).data@;
            let p = old(data).pos as int;
            header == (SceneMapHeader {
                layer12_size: d[p],
                bits: d[p + 1],
                scroll_l2: d[p + 2],
                scroll_l3: d[p + 3],
                screen_flags: d[p + 4],
                effect_flags: d[p + 5],
            })
        }),
{
    SceneMapHeader {
        layer12_size: data.read_u8(),
        bits: data.read_u8(),
        scroll_l2: data.read_u8(),
        scroll_l3: data.read_u8(),
        screen_flags: data.read_u8(),
        effect_flags: data.read_u8(),
    }
}

/// A layer dimension in tiles from two size bits: 16, 32, 48 or 64.
pub open spec fn layer_tiles(size_bits: u8, shift: u8) -> u32 {
    (((size_bits >> shift) & 0x3) * 16 + 16) as u32
}

/// A layer dimension in tiles from two size bits.
pub fn layer_size(size_bits: u8, shift: u8) -> (tiles: u32)
    requires
        shift < 8,
    ensures
        tiles == layer_tiles(size_bits, shift),
        16 <= tiles <= 64,
{
    assert(((size_bits >> shift) & 0x3) <= 3) by (bit_vector);
    (((size_bits >> shift) & 0x3) * 16 + 16) as u32
}

/// The scroll mode of scene layer 2: a layer that scrolls by itself ignores the camera;
/// otherwise the scroll bits decide.
pub open spec fn layer2_scroll_mode(speed: (i32, i32), scroll_bits: u8) -> LayerScrollMode {
    if speed.0 != 0 || speed.1 != 0 {
        LayerScrollMode::IgnoreCamera
    } else if scroll_bits == 1 || scroll_bits == 3 {
        LayerScrollMode::IgnoreCamera
    } else if scroll_bits == 4 {
        LayerScrollMode::Parallax
    } else {
        LayerScrollMode::Normal
    }
}

/// The scroll mode of scene layer 3.
pub open spec fn layer3_scroll_mode(scroll_bits: u8) -> LayerScrollMode {
    if scroll_bits == 2 { LayerScrollMode::IgnoreCamera } else { LayerScrollMode::Normal }
}

/// The scroll mode of scene layer 2.
pub fn scene_layer2_scroll_mode(speed: (i32, i32), scroll_bits: u8) -> (mode: LayerScrollMode)
    ensures
        mode == layer2_scroll_mode(speed, scroll_bits),
{
    if speed.0 != 0 || speed.1 != 0 {
        LayerScrollMode::IgnoreCamera
    } else {
        match scroll_bits {
            1 | 3 => LayerScrollMode::IgnoreCamera,
            4 => LayerScrollMode::Parallax,
            _ => LayerScrollMode::Normal,
        }
    }
}

/// The scroll mode of scene layer 3.
pub fn scene_layer3_scroll_mode(scroll_bits: u8) -> (mode: LayerScrollMode)
    ensures
        mode == layer3_scroll_mode(scroll_bits),
{
    if scroll_bits == 2 { LayerScrollMode::IgnoreCamera } else { LayerScrollMode::Normal }
}

/// Reads the raw tiles of a layer, one byte each, adding `tile_offset`.
pub fn read_map_layer_tiles(layer: &mut MapLayer, data: &mut ByteReader, tile_offset: usize)
    requires
        old(data).pos + old(layer).tiles@.len() <= old(data).data@.len(),
        tile_offset + 255 <= usize::MAX,
    ensures
        final(data).data@ == old(data).data@,
        final(data).pos == old(data).pos + old(layer).tiles@.len(),
        final(layer).tiles@ == Seq::new(old(layer).tiles@.len(), |i: int| (old(data).data@[old(data).pos + i] + tile_offset) as usize),
        final(layer).chips@ == old(layer).chips@,
        final(layer).chip_width == old(layer).chip_width,
        final(layer).chip_height == old(layer).chip_height,
        final(layer).tile_width == old(layer).tile_width,
        final(layer).tile_height == old(layer).tile_height,
        final(layer).scroll_mode == old(layer).scroll_mode,
        final(layer).scroll_speed == old(layer).scroll_speed,
{
    let ghost d = data.data@;
    let ghost p = data.pos as int;
    let n = layer.tiles.len();
    let mut i: usize = 0;
    while i < n
        invariant
            data.data@ == d,
            n == old(layer).tiles@.len(),
            layer.tiles@.len() == n,
            p + n <= d.len(),
            tile_offset + 255 <= usize::MAX,
            data.pos == p + i,
            i <= n,
            layer.chips@ == old(layer).chips@,
            layer.chip_width == old(layer).chip_width,
            layer.chip_height == old(layer).chip_height,
            layer.tile_width == old(layer).tile_width,
            layer.tile_height == old(layer).tile_height,
            layer.scroll_mode == old(layer).scroll_mode,
            layer.scroll_speed == old(layer).scroll_speed,
            forall|k: int| 0 <= k < i ==> #[trigger] layer.tiles@[k] == (d[p + k] + tile_offset) as usize,
        decreases n - i,
    {
        let b = data.read_u8();
        layer.tiles.set(i, b as usize + tile_offset);
        i = i + 1;
    }
    assert(layer.tiles@ =~= Seq::new(n as nat, |k: int| (d[p + k] + tile_offset) as usize));
}


/// Tile `j` of a layer `w` tiles wide after the first `upto` tiles were checked against the
/// properties of a map `sw` tiles wide: a tile whose property has `flag` refers to the upper
/// bank of 256 tiles.
pub open spec fn tile_with_bank(tiles: Seq<usize>, props: Seq<SceneTileProps>, sw: int, w: int, flag: u32, upto: int, j: int) -> usize {
    if 0 <= j < upto && props[(j / w) * sw + j % w].flags & flag != 0 {
        tiles[j] | 256
    } else {
        tiles[j]
    }
}

/// Moves the tiles of a layer `width` by `height` tiles to the upper bank where the scene tile
/// properties, `scene_width` wide, have `flag`.
pub fn apply_tile_add(layer: &mut MapLayer, props: &Vec<SceneTileProps>, scene_width: u32, width: u32, height: u32, flag: u32)
    requires
        0 < width <= scene_width,
        width * height <= old(layer).tiles@.len(),
        height == 0 || (height - 1) * scene_width + width <= props@.len(),
    ensures
        final(layer).tiles@ == Seq::new(
            old(layer).tiles@.len(),
            |j: int| tile_with_bank(old(layer).tiles@, props@, scene_width as int, width as int, flag, (width * height) as int, j),
        ),
        final(layer).chips@ == old(layer).chips@,
        final(layer).chip_width == old(layer).chip_width,
        final(layer).chip_height == old(layer).chip_height,
        final(layer).tile_width == old(layer).tile_width,
        final(layer).tile_height == old(layer).tile_height,
        final(layer).scroll_mode == old(layer).scroll_mode,
        final(layer).scroll_speed == old(layer).scroll_speed,
{
    let ghost old_tiles = layer.tiles@;
    let ghost sw = scene_width as int;
    let ghost w = width as int;
    let props_len = props.len();
    let tiles_len = layer.tiles.len();
    let mut y: u32 = 0;
    while y < height
        invariant
            y <= height,
            0 < width <= scene_width,
            w == width,
            sw == scene_width,
            width * height <= old_tiles.len(),
            height == 0 || (height - 1) * scene_width + width <= props@.len(),
            props_len == props@.len(),
            tiles_len == old_tiles.len(),
            old_tiles == old(layer).tiles@,
            layer.tiles@.len() == old_tiles.len(),
            layer.chips@ == old(layer).chips@,
            layer.chip_width == old(layer).chip_width,
            layer.chip_height == old(layer).chip_height,
            layer.tile_width == old(layer).tile_width,
            layer.tile_height == old(layer).tile_height,
            layer.scroll_mode == old(layer).scroll_mode,
            layer.scroll_speed == old(layer).scroll_speed,
            forall|j: int| 0 <= j < old_tiles.len() ==> #[trigger] layer.tiles@[j] == tile_with_bank(old_tiles, props@, sw, w, flag, y * w, j),
        decreases height - y,
    {
        let mut x: u32 = 0;
        while x < width
            invariant
                x <= width,
                y < height,
                0 < width <= scene_width,
                w == width,
                sw == scene_width,
                width * height <= old_tiles.len(),
                (height - 1) * scene_width + width <= props@.len(),
                props_len == props@.len(),
                tiles_len == old_tiles.len(),
                old_tiles == old(layer).tiles@,
                layer.tiles@.len() == old_tiles.len(),
                layer.chips@ == old(layer).chips@,
                layer.chip_width == old(layer).chip_width,
                layer.chip_height == old(layer).chip_height,
                layer.tile_width == old(layer).tile_width,
                layer.tile_height == old(layer).tile_height,
                layer.scroll_mode == old(layer).scroll_mode,
                layer.scroll_speed == old(layer).scroll_speed,
                forall|j: int| 0 <= j < old_tiles.len() ==> #[trigger] layer.tiles@[j] == tile_with_bank(old_tiles, props@, sw, w, flag, y * w + x, j),
            decreases width - x,
        {
            let ghost j0 = y * w + x;
            proof {
                lemma_fundamental_div_mod_converse(j0, w, y as int, x as int);
                assert(y * scene_width + x < props@.len()) by (nonlinear_arith)
                    requires
                        y < height,
                        x < width,
                        (height - 1) * scene_width + width <= props@.len(),
                ;
                assert(y * width + x < width * height) by (nonlinear_arith)
                    requires
                        y < height,
                        x < width,
                ;
            }
            assert((y as usize) * (scene_width as usize) <= y * scene_width + x);
            assert((y as usize) * (width as usize) <= y * width + x);
            let prop_index = (y as usize) * (scene_width as usize) + (x as usize);
            let tile_index = (y as usize) * (width as usize) + (x as usize);
            if props[prop_index].flags & flag != 0 {
                let t = layer.tiles[tile_index];
                layer.tiles.set(tile_index, t | 256);
            }
            x = x + 1;
        }
        assert(y * w + w == (y + 1) * w) by (nonlinear_arith);
        y = y + 1;
    }
    assert(layer.tiles@ =~= Seq::new(
        old_tiles.len(),
        |j: int| tile_with_bank(old_tiles, props@, sw, w, flag, (width * height) as int, j),
    )) by {
        assert(height * w == width * height) by (nonlinear_arith)
            requires
                w == width,
        ;
    }
}


/// The raw tiles of a layer of `count` tiles stored from `p`.
pub open spec fn raw_tiles(data: Seq<u8>, p: int, count: int) -> Seq<usize> {
    Seq::new(count as nat, |i: int| data[p + i] as usize)
}

/// A layer's tiles after moving those that the properties mark to the upper bank.
pub open spec fn banked_tiles(raw: Seq<usize>, props: Seq<SceneTileProps>, sw: int, w: int, h: int, flag: u32) -> Seq<usize> {
    Seq::new(raw.len(), |j: int| tile_with_bank(raw, props, sw, w, flag, w * h, j))
}

/// A layer's chips assembled from its tiles, `w` tiles wide.
pub open spec fn layer_chips(tiles: Seq<usize>, set: Seq<crate::tileset::Tile>, w: int) -> Seq<MapChip> {
    Seq::new(
        (4 * tiles.len()) as nat,
        |k: int| assembled_chip(Seq::new((4 * tiles.len()) as nat, |i: int| empty_chip()), tiles, set, 2 * w, w, tiles.len() as int, k),
    )
}

/// Whether `layer` is a scene map layer of `w` by `h` tiles with the given tiles, assembled from
/// `set`, scrolling in `mode` at `speed`.
pub open spec fn is_scene_layer(layer: MapLayer, w: u32, h: u32, tiles: Seq<usize>, set: Seq<crate::tileset::Tile>, mode: LayerScrollMode, speed: (i32, i32)) -> bool {
    &&& layer.chip_width == 2 * w
    &&& layer.chip_height == 2 * h
    &&& layer.tile_width == w
    &&& layer.tile_height == h
    &&& layer.tiles@ == tiles
    &&& layer.chips@ == layer_chips(tiles, set, w as int)
    &&& layer.scroll_mode == mode
    &&& layer.scroll_speed == speed
}

/// An empty layer of `w` by `h` tiles.
fn new_layer(w: u32, h: u32) -> (layer: MapLayer)
    requires
        16 <= w <= 64,
        16 <= h <= 64,
    ensures
        layer.wf(),
        layer.chip_width == 2 * w,
        layer.chip_height == 2 * h,
        layer.tile_width == w,
        layer.tile_height == h,
        layer.tiles@ == Seq::new((w * h) as nat, |i: int| 0usize),
        layer.chips@ == Seq::new((4 * (w * h)) as nat, |i: int| empty_chip()),
        layer.scroll_mode == LayerScrollMode::Normal,
        layer.scroll_speed == (0i32, 0i32),
{
    assert((w * 2) * (h * 2) <= u32::MAX) by (nonlinear_arith)
        requires
            w <= 64,
            h <= 64,
    ;
    let layer = MapLayer::new(w * 2, h * 2);
    assert((2 * w) * (2 * h) / 4 == w * h) by (nonlinear_arith);
    assert((2 * w) * (2 * h) == 4 * (w * h)) by (nonlinear_arith);
    assert(layer.tiles@ =~= Seq::new((w * h) as nat, |i: int| 0usize));
    assert(layer.chips@ =~= Seq::new((4 * (w * h)) as nat, |i: int| empty_chip()));
    layer
}

/// Reads a scene map: the header, the tiles of layers 1 and 2, those of layer 3 where the header
/// enables it, then the tile properties for the larger of layers 1 and 2. Tiles whose property
/// says so come from the upper bank of 256; the layers are assembled from the tilesets; layers 2
/// and 3 get their scroll speed and mode. The layer priorities are the ones given.
pub fn read_scene_map(
    index: usize,
    data: &mut ByteReader,
    tileset_l12: &TileSet,
    tileset_l3: &TileSet,
    layer_priorities: [u8; 4],
) -> (result: (SceneMap, TileMap))
    requires
        ({
            let d = old(data).data@;
            let p = old(data).pos as int;
            let size = d[p];
            let bits = d[p + 1];
            let n1 = layer_tiles(size, 0) * layer_tiles(size, 2);
            let n2 = layer_tiles(size, 4) * layer_tiles(size, 6);
            let n3 = if bits & 0x80 > 0 { layer_tiles(bits, 0) * layer_tiles(bits, 2) } else { 0 };
            &&& p + 6 <= d.len()
            &&& p + 6 + n1 + n2 + n3 <= d.len()
            &&& coded_tile_props(d, p + 6 + n1 + n2 + n3) is Some
        }),
    ensures
        final(data).data@ == old(data).data@,
        ({
            let d = old(data).data@;
            let p = old(data).pos as int;
            let size = d[p];
            let bits = d[p + 1];
            let (w1, h1) = (layer_tiles(size, 0), layer_tiles(size, 2));
            let (w2, h2) = (layer_tiles(size, 4), layer_tiles(size, 6));
            let (w3, h3) = (layer_tiles(bits, 0), layer_tiles(bits, 2));
            let n1 = w1 * h1;
            let n2 = w2 * h2;
            let l3 = bits & 0x80 > 0;
            let n3 = if l3 { w3 * h3 } else { 0 };
            let sw = if w1 < w2 { w2 } else { w1 };
            let sh = if h1 < h2 { h2 } else { h1 };
            let props = fitted(coded_tile_props(d, p + 6 + n1 + n2 + n3).unwrap(), (sw * sh) as nat);
            let scroll_bits = (bits & 0x70) >> 4u8;
            let speed2 = (scroll_speed_of((d[p + 2] & 0x0F) as int), scroll_speed_of(((d[p + 2] & 0xF0) >> 4u8) as int));
            let speed3 = (scroll_speed_of((d[p + 3] & 0x0F) as int), scroll_speed_of(((d[p + 3] & 0xF0) >> 4u8) as int));
            let tiles1 = banked_tiles(raw_tiles(d, p + 6, n1 as int), props, sw as int, w1 as int, h1 as int, TILE_L1_TILE_ADD);
            let tiles2 = banked_tiles(raw_tiles(d, p + 6 + n1, n2 as int), props, sw as int, w2 as int, h2 as int, TILE_L2_TILE_ADD);
            let tiles3 = if l3 { raw_tiles(d, p + 6 + n1 + n2, (w3 * h3) as int) } else { Seq::new((w3 * h3) as nat, |i: int| 0usize) };
            let (scene_map, map) = result;
            &&& scene_map.index == index
            &&& scene_map.props.width == sw
            &&& scene_map.props.height == sh
            &&& scene_map.props.props@ == props
            &&& map.index == index
            &&& map.screen_flags == d[p + 4] as u32
            &&& map.effect_flags == d[p + 5] as u32
            &&& map.layer_priorities == layer_priorities
            &&& is_scene_layer(map.layers[0], w1, h1, tiles1, tileset_l12.tiles@, LayerScrollMode::Normal, (0i32, 0i32))
            &&& is_scene_layer(map.layers[1], w2, h2, tiles2, tileset_l12.tiles@, layer2_scroll_mode(speed2, scroll_bits), speed2)
            &&& is_scene_layer(map.layers[2], w3, h3, tiles3, tileset_l3.tiles@, layer3_scroll_mode(scroll_bits), speed3)
            &&& final(data).pos == d.len()
        }),
{
    let ghost d = data.data@;
    let ghost p = data.pos as int;
    let header = read_scene_map_header(data);
    let scroll_bits = (header.bits & 0x70) >> 4;

    let width_l1 = layer_size(header.layer12_size, 0);
    let height_l1 = layer_size(header.layer12_size, 2);
    let mut layer_1 = new_layer(width_l1, height_l1);
    read_map_layer_tiles(&mut layer_1, data, 0);
    let ghost raw1 = layer_1.tiles@;
    assert(raw1 =~= raw_tiles(d, p + 6, (width_l1 * height_l1) as int));

    let width_l2 = layer_size(header.layer12_size, 4);
    let height_l2 = layer_size(header.layer12_size, 6);
    let mut layer_2 = new_layer(width_l2, height_l2);
    read_map_layer_tiles(&mut layer_2, data, 0);
    let ghost raw2 = layer_2.tiles@;
    assert(raw2 =~= raw_tiles(d, p + 6 + width_l1 * height_l1, (width_l2 * height_l2) as int));

    let width_l3 = layer_size(header.bits, 0);
    let height_l3 = layer_size(header.bits, 2);
    let mut layer_3 = new_layer(width_l3, height_l3);
    if (header.bits & 0x80) > 0 {
        read_map_layer_tiles(&mut layer_3, data, 0);
        assert(layer_3.tiles@ =~= raw_tiles(d, p + 6 + width_l1 * height_l1 + width_l2 * height_l2, (width_l3 * height_l3) as int));
    }

    let scene_width = if width_l1 < width_l2 { width_l2 } else { width_l1 };
    let scene_height = if height_l1 < height_l2 { height_l2 } else { height_l1 };
    assert(scene_width * scene_height <= u32::MAX) by (nonlinear_arith)
        requires
            scene_width <= 64,
            scene_height <= 64,
    ;
    let scene_tile_props = read_scene_map_tile_props(scene_width, scene_height, data);

    proof {
        assert((height_l1 - 1) * scene_width + width_l1 <= scene_width * scene_height) by (nonlinear_arith)
            requires
                width_l1 <= scene_width,
                height_l1 <= scene_height,
                height_l1 >= 1,
        ;
        assert((height_l2 - 1) * scene_width + width_l2 <= scene_width * scene_height) by (nonlinear_arith)
            requires
                width_l2 <= scene_width,
                height_l2 <= scene_height,
                height_l2 >= 1,
        ;
    }
    apply_tile_add(&mut layer_1, &scene_tile_props, scene_width, width_l1, height_l1, TILE_L1_TILE_ADD);
    apply_tile_add(&mut layer_2, &scene_tile_props, scene_width, width_l2, height_l2, TILE_L2_TILE_ADD);
    let ghost tiles1 = layer_1.tiles@;
    let ghost tiles2 = layer_2.tiles@;
    let ghost tiles3 = layer_3.tiles@;

    assemble_map_layer(&mut layer_1, tileset_l12);
    assemble_map_layer(&mut layer_2, tileset_l12);
    assemble_map_layer(&mut layer_3, tileset_l3);

    let speed2 = decode_scene_layer_scroll_speed(header.scroll_l2);
    layer_2.scroll_mode = scene_layer2_scroll_mode(speed2, scroll_bits);
    layer_2.scroll_speed = speed2;
    let speed3 = decode_scene_layer_scroll_speed(header.scroll_l3);
    layer_3.scroll_mode = scene_layer3_scroll_mode(scroll_bits);
    layer_3.scroll_speed = speed3;

    proof {
        assert(layer_1.chips@ =~= layer_chips(tiles1, tileset_l12.tiles@, width_l1 as int));
        assert(layer_2.chips@ =~= layer_chips(tiles2, tileset_l12.tiles@, width_l2 as int));
        assert(layer_3.chips@ =~= layer_chips(tiles3, tileset_l3.tiles@, width_l3 as int));
    }

    let scene_map = SceneMap {
        index,
        props: ScenePropLayer { width: scene_width, height: scene_height, props: scene_tile_props },
    };
    let map = TileMap {
        index,
        screen_flags: header.screen_flags as u32,
        effect_flags: header.effect_flags as u32,
        layer_priorities,
        layers: [layer_1, layer_2, layer_3],
    };
    (scene_map, map)
}


/// The chip width of world map layers 1 and 2.
pub const WORLD_CHIP_WIDTH: u32 = 192;

/// The chip height of world map layers 1 and 2.
pub const WORLD_CHIP_HEIGHT: u32 = 128;

/// The screen flags of a world map: layers 1, 2 and sprites on the main screen and layer 3 on
/// the sub screen, except that world 2 has layer 3 on the main screen and world 4 not at all.
pub open spec fn world_screen_flags(index: usize) -> u32 {
    if index == 2 {
        SCREEN_L1_MAIN | SCREEN_L2_MAIN | SCREEN_L3_MAIN | SCREEN_SPR_MAIN
    } else if index == 4 {
        SCREEN_L1_MAIN | SCREEN_L2_MAIN | SCREEN_SPR_MAIN
    } else {
        SCREEN_L1_MAIN | SCREEN_L2_MAIN | SCREEN_L3_SUB | SCREEN_SPR_MAIN
    }
}

/// The color math of every world map: layers 1, 2 and sprites at half intensity.
pub open spec fn world_effect_flags() -> u32 {
    EFFECT_L1 | EFFECT_L2 | EFFECT_SPR | EFFECT_HALF_INTENSITY
}

/// How fast layer 3 of a world scrolls by itself, in quarter pixels per second: 16 pixels left
/// and 8 down each second in worlds 0, 1, 3, 5 and 6.
pub open spec fn world_layer3_speed(index: usize) -> (i32, i32) {
    if index == 0 || index == 1 || index == 3 || index == 5 || index == 6 { (-64i32, 32i32) } else { (0i32, 0i32) }
}

/// How fast layer 1 of a world scrolls by itself: 16 pixels right each second in world 7.
pub open spec fn world_layer1_speed(index: usize) -> (i32, i32) {
    if index == 7 { (64i32, 0i32) } else { (0i32, 0i32) }
}

/// Tile `k` of world layer 3, 32 tiles wide: its left half shows the first 256 tiles of the
/// tileset, 16 to a row, its right half the next 256.
pub open spec fn world_layer3_tile(k: int) -> usize {
    let x = k % 32;
    let y = k / 32;
    if x < 16 { (x + y * 16) as usize } else { ((x - 16) + y * 16 + 256) as usize }
}

/// The flags that a world tile property nibble gives a chip.
pub open spec fn world_chip_flags_of(v: u8) -> u32 {
    if v == 1 {
        WORLD_CHIP_BLOCK_WALK
    } else if v == 2 {
        WORLD_CHIP_BLOCK_HOVER
    } else if v == 3 {
        WORLD_CHIP_BLOCK_FLYING
    } else if v == 4 {
        WORLD_CHIP_HAS_EXIT
    } else {
        0
    }
}

/// The property nibble of chip `k` of the world map: the layer 2 tile over it, counted from the
/// upper bank, has two bytes of properties, one nibble per corner, the high nibble first.
pub open spec fn world_chip_nibble(props: Seq<u8>, tiles2: Seq<usize>, k: int) -> u8 {
    let cx = k % 192;
    let cy = k / 192;
    let tile = tiles2[(cy / 2) * 96 + cx / 2];
    let src = (tile - 256) * 2 + (cy % 2);
    if cx % 2 == 0 { props[src] >> 4u8 } else { props[src] & 0x0F }
}

/// The music of chip `k`: each byte of music data covers two tiles side by side, the left one
/// in its high nibble.
pub open spec fn world_chip_music(music: Seq<u8>, k: int) -> usize {
    let cx = k % 192;
    let cy = k / 192;
    let tile = (cy / 2) * 96 + cx / 2;
    let b = music[tile / 2];
    if tile % 2 == 0 { (b >> 4u8) as usize } else { (b & 0x0F) as usize }
}

/// The chips of a world map from the property and music data and the tiles of layer 2.
fn world_chips(props: &Vec<u8>, music: &Vec<u8>, tiles2: &Vec<usize>) -> (chips: Vec<WorldChip>)
    requires
        props@.len() >= 0x200,
        music@.len() >= 3072,
        tiles2@.len() == 6144,
        forall|i: int| 0 <= i < 6144 ==> 256 <= #[trigger] tiles2@[i] < 512,
    ensures
        chips@.len() == 192 * 128,
        forall|k: int| 0 <= k < 192 * 128 ==> (#[trigger] chips@[k]).flags == world_chip_flags_of(world_chip_nibble(props@, tiles2@, k))
            && chips@[k].music == world_chip_music(music@, k),
{
    let mut chips: Vec<WorldChip> = Vec::with_capacity(192 * 128);
    let mut k: usize = 0;
    while k < 192 * 128
        invariant
            k <= 192 * 128,
            props@.len() >= 0x200,
            music@.len() >= 3072,
            tiles2@.len() == 6144,
            forall|i: int| 0 <= i < 6144 ==> 256 <= #[trigger] tiles2@[i] < 512,
            chips@.len() == k,
            forall|j: int| 0 <= j < k ==> (#[trigger] chips@[j]).flags == world_chip_flags_of(world_chip_nibble(props@, tiles2@, j))
                && chips@[j].music == world_chip_music(music@, j),
        decreases 192 * 128 - k,
    {
        let cx = k % 192;
        let cy = k / 192;
        let tile_index = (cy / 2) * 96 + cx / 2;
        let tile = tiles2[tile_index];
        let src = (tile - 256) * 2 + cy % 2;
        let byte = props[src];
        let v = if cx % 2 == 0 { byte >> 4 } else { byte & 0x0F };
        let flags = if v == 1 {
            WORLD_CHIP_BLOCK_WALK
        } else if v == 2 {
            WORLD_CHIP_BLOCK_HOVER
        } else if v == 3 {
            WORLD_CHIP_BLOCK_FLYING
        } else if v == 4 {
            WORLD_CHIP_HAS_EXIT
        } else {
            0
        };
        let b = music[tile_index / 2];
        let value = if tile_index % 2 == 0 { (b >> 4) as usize } else { (b & 0x0F) as usize };
        chips.push(WorldChip { flags, music: value });
        k = k + 1;
    }
    chips
}

/// Sets the tiles of world layer 3 to the two halves of its tileset.
fn set_world_layer3_tiles(layer: &mut MapLayer)
    requires
        old(layer).tiles@.len() == 512,
    ensures
        final(layer).tiles@ == Seq::new(512, |k: int| world_layer3_tile(k)),
        final(layer).chips@ == old(layer).chips@,
        final(layer).chip_width == old(layer).chip_width,
        final(layer).chip_height == old(layer).chip_height,
        final(layer).tile_width == old(layer).tile_width,
        final(layer).tile_height == old(layer).tile_height,
        final(layer).scroll_mode == old(layer).scroll_mode,
        final(layer).scroll_speed == old(layer).scroll_speed,
{
    let mut k: usize = 0;
    while k < 512
        invariant
            k <= 512,
            layer.tiles@.len() == 512,
            forall|j: int| 0 <= j < k ==> #[trigger] layer.tiles@[j] == world_layer3_tile(j),
            layer.chips@ == old(layer).chips@,
            layer.chip_width == old(layer).chip_width,
            layer.chip_height == old(layer).chip_height,
            layer.tile_width == old(layer).tile_width,
            layer.tile_height == old(layer).tile_height,
            layer.scroll_mode == old(layer).scroll_mode,
            layer.scroll_speed == old(layer).scroll_speed,
        decreases 512 - k,
    {
        let x = k % 32;
        let y = k / 32;
        let tile = if x < 16 { x + y * 16 } else { (x - 16) + y * 16 + 256 };
        layer.tiles.set(k, tile);
        k = k + 1;
    }
    assert(layer.tiles@ =~= Seq::new(512, |j: int| world_layer3_tile(j)));
}

/// Reads a world map: the tiles of layers 1 and 2, the second from the upper bank, assembled
/// from the layer 1 and 2 tileset; layer 3 showing its tileset's two halves side by side; the
/// chips' movement flags and music; and the world's screen settings and scroll speeds.
pub fn read_world_map(
    index: usize,
    map_data: &Vec<u8>,
    props_data: &Vec<u8>,
    music_data: &Vec<u8>,
    tileset_l12: &TileSet,
    tileset_l3: &TileSet,
) -> (result: (WorldMap, TileMap))
    requires
        map_data@.len() >= 2 * 6144,
        props_data@.len() >= 0x200,
        music_data@.len() >= 3072,
    ensures
        ({
            let (world_map, map) = result;
            let tiles1 = raw_tiles(map_data@, 0, 6144);
            let tiles2 = Seq::new(6144, |i: int| (map_data@[6144 + i] + 256) as usize);
            let tiles3 = Seq::new(512, |k: int| world_layer3_tile(k));
            &&& world_map.index == index
            &&& world_map.width == 192
            &&& world_map.height == 128
            &&& world_map.chips@.len() == 192 * 128
            &&& forall|k: int| 0 <= k < 192 * 128 ==> (#[trigger] world_map.chips@[k]).flags == world_chip_flags_of(world_chip_nibble(props_data@, tiles2, k))
                && world_map.chips@[k].music == world_chip_music(music_data@, k)
            &&& map.index == index
            &&& map.screen_flags == world_screen_flags(index)
            &&& map.effect_flags == world_effect_flags()
            &&& map.layer_priorities == [3u8, 2u8, 2u8, 1u8]
            &&& is_scene_layer(map.layers[0], 96, 64, tiles1, tileset_l12.tiles@, LayerScrollMode::Normal, world_layer1_speed(index))
            &&& is_scene_layer(map.layers[1], 96, 64, tiles2, tileset_l12.tiles@, LayerScrollMode::Normal, (0i32, 0i32))
            &&& is_scene_layer(map.layers[2], 32, 16, tiles3, tileset_l3.tiles@, LayerScrollMode::Normal, world_layer3_speed(index))
        }),
{
    let mut layer_1 = MapLayer::new(192, 128);
    let mut layer_2 = MapLayer::new(192, 128);
    let mut layer_3 = MapLayer::new(64, 32);
    let mut screen_flags = SCREEN_L1_MAIN | SCREEN_L2_MAIN | SCREEN_L3_SUB | SCREEN_SPR_MAIN;
    let effect_flags = EFFECT_L1 | EFFECT_L2 | EFFECT_SPR | EFFECT_HALF_INTENSITY;
    if index == 0 || index == 1 || index == 3 || index == 5 || index == 6 {
        layer_3.scroll_speed = (-64, 32);
    } else if index == 2 {
        screen_flags = SCREEN_L1_MAIN | SCREEN_L2_MAIN | SCREEN_L3_MAIN | SCREEN_SPR_MAIN;
    } else if index == 4 {
        screen_flags = SCREEN_L1_MAIN | SCREEN_L2_MAIN | SCREEN_SPR_MAIN;
    } else if index == 7 {
        layer_1.scroll_speed = (64, 0);
    }

    let ghost empty1 = layer_1.chips@;
    let ghost empty2 = layer_2.chips@;
    let ghost empty3 = layer_3.chips@;
    let mut reader = ByteReader::new(map_data.clone());
    read_map_layer_tiles(&mut layer_1, &mut reader, 0);
    read_map_layer_tiles(&mut layer_2, &mut reader, 256);
    let ghost tiles1 = layer_1.tiles@;
    let ghost tiles2 = layer_2.tiles@;
    assert(tiles1 =~= raw_tiles(map_data@, 0, 6144));
    assemble_map_layer(&mut layer_1, tileset_l12);
    assemble_map_layer(&mut layer_2, tileset_l12);
    set_world_layer3_tiles(&mut layer_3);
    let ghost tiles3 = layer_3.tiles@;
    assemble_map_layer(&mut layer_3, tileset_l3);

    let chips = world_chips(props_data, music_data, &layer_2.tiles);
    proof {
        assert(empty1 =~= Seq::new((4 * 6144) as nat, |i: int| empty_chip()));
        assert(empty3 =~= Seq::new((4 * 512) as nat, |i: int| empty_chip()));
        assert(layer_1.chips@ =~= layer_chips(tiles1, tileset_l12.tiles@, 96));
        assert(layer_2.chips@ =~= layer_chips(tiles2, tileset_l12.tiles@, 96));
        assert(layer_3.chips@ =~= layer_chips(tiles3, tileset_l3.tiles@, 32));
    }
    let world_map = WorldMap { index, width: layer_1.chip_width, height: layer_1.chip_height, chips };
    let map = TileMap {
        index,
        screen_flags,
        effect_flags,
        layer_priorities: [3, 2, 2, 1],
        layers: [layer_1, layer_2, layer_3],
    };
    (world_map, map)
}

} // verus!
