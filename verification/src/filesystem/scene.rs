//! Scene data: the scene header, its exits and its treasure.
use crate::facing::{facing_of, Facing};
use crate::fmt::{digits, push_decimal};
use crate::reader::{le16, le32, signed8, ByteReader};
use crate::scene::scene::{SceneExit, SceneTreasure, ScrollMask};
use crate::GameMode;
use vstd::prelude::*;

verus! {

/// The size of an exit record: the PC stores the facing and shift bits in a byte of its own.
pub open spec fn scene_exit_record_len(mode: GameMode) -> int {
    match mode {
        GameMode::Pc => 8,
        GameMode::Snes => 7,
    }
}

/// The size in pixels of the long side of an exit area.
pub open spec fn exit_size(size_bits: u8) -> int {
    ((size_bits & 0x7F) + 1) * 16
}

/// Whether the exit record at `p` can be decoded: the PC computes the size in a byte, which
/// holds it for sizes up to 15 tiles.
pub open spec fn scene_exit_decodable(data: Seq<u8>, p: int, mode: GameMode) -> bool {
    match mode {
        GameMode::Pc => exit_size(data[p + 2]) <= 255,
        GameMode::Snes => true,
    }
}

/// The scene exit stored in the record at `p`, the `index`-th of the list.
pub open spec fn scene_exit_at(data: Seq<u8>, p: int, mode: GameMode, index: usize) -> SceneExit {
    let size_bits = data[p + 2];
    let size = exit_size(size_bits);
    let (width, height) = if size_bits & 0x80 > 0 { (16int, size) } else { (size, 16int) };
    let (dest_index, facing, raw_x, raw_y, left, up) = match mode {
        GameMode::Pc => {
            let f = data[p + 3];
            (
                le16(data, p + 4),
                facing_of((f & 0x3) as usize),
                data[p + 6] * 8,
                data[p + 7] * 8,
                f & 0x4 > 0,
                f & 0x8 > 0,
            )
        },
        GameMode::Snes => {
            let w = le16(data, p + 3) as u16;
            (
                (w & 0x1FF) as int,
                facing_of(((w & 0x600) >> 9u16) as usize),
                data[p + 5] as int,
                data[p + 6] as int,
                w & 0x800 > 0,
                w & 0x1000 > 0,
            )
        },
    };
    let scale = if 0x1F0 <= dest_index <= 0x1FF { 8int } else { 16int };
    SceneExit {
        index,
        x: (data[p] * 16) as i32,
        y: (data[p + 1] * 16) as i32,
        width: width as i32,
        height: height as i32,
        destination_index: dest_index as usize,
        destination_x: (raw_x * scale - if left { 8int } else { 0int }) as i32,
        destination_y: (raw_y * scale - if up { 8int } else { 0int }) as i32,
        facing,
    }
}

/// Reads one exit record.
fn read_scene_exit(data: &mut ByteReader, mode: GameMode, exit_index: usize) -> (exit: SceneExit)
    requires
        old(data).pos + scene_exit_record_len(mode) <= old(data).data@.len(),
        scene_exit_decodable(old(data).data@, old(data).pos as int, mode),
    ensures
        final(data).data@ == old(data).data@,
        final(data).pos == old(data).pos + scene_exit_record_len(mode),
        exit == scene_exit_at(old(data).data@, old(data).pos as int, mode, exit_index),
{
    let width: i32;
    let height: i32;
    let x: i32;
    let y: i32;
    let facing: Facing;
    let mut dest_x: i32;
    let mut dest_y: i32;
    let dest_index: usize;
    match mode {
        GameMode::Pc => {
            x = data.read_u8() as i32 * 16;
            y = data.read_u8() as i32 * 16;
            let size_bits = data.read_u8();
            let facing_shift = data.read_u8();
            dest_index = data.read_u16_le() as usize;
            dest_x = data.read_u8() as i32 * 8;
            dest_y = data.read_u8() as i32 * 8;
            let size = (((size_bits & 0x7F) + 1) * 16) as i32;
            if size_bits & 0x80 > 0 {
                width = 16;
                height = size;
            } else {
                width = size;
                height = 16;
            }
            facing = Facing::from_index((facing_shift & 0x3) as usize);
            if dest_index >= 0x1F0 && dest_index <= 0x1FF {
                dest_x = dest_x * 8;
                dest_y = dest_y * 8;
            } else {
                dest_x = dest_x * 16;
                dest_y = dest_y * 16;
            }
            if facing_shift & 0x4 > 0 {
                dest_x = dest_x - 8;
            }
            if facing_shift & 0x8 > 0 {
                dest_y = dest_y - 8;
            }
        },
        GameMode::Snes => {
            x = data.read_u8() as i32 * 16;
            y = data.read_u8() as i32 * 16;
            let size_bits = data.read_u8();
            let dest_index_facing = data.read_u16_le() as usize;
            dest_x = data.read_u8() as i32;
            dest_y = data.read_u8() as i32;
            dest_index = dest_index_facing & 0x1FF;
            facing = Facing::from_index((dest_index_facing & 0x600) >> 9);
            assert(size_bits & 0x7F <= 0x7F) by (bit_vector);
            let size = ((size_bits & 0x7F) + 1) as i32 * 16;
            if size_bits & 0x80 > 0 {
                width = 16;
                height = size;
            } else {
                width = size;
                height = 16;
            }
            if dest_index >= 0x1F0 && dest_index <= 0x1FF {
                dest_x = dest_x * 8;
                dest_y = dest_y * 8;
            } else {
                dest_x = dest_x * 16;
                dest_y = dest_y * 16;
            }
            if dest_index_facing & 0x800 > 0 {
                dest_x = dest_x - 8;
            }
            if dest_index_facing & 0x1000 > 0 {
                dest_y = dest_y - 8;
            }
            proof {
                let w = le16(data.data@, old(data).pos + 3) as u16;
                assert(dest_index_facing == w as usize);
                assert((dest_index_facing & 0x1FF) == (w & 0x1FF) as usize) by (bit_vector)
                    requires
                        dest_index_facing == w as usize,
                ;
                assert(((dest_index_facing & 0x600) >> 9) == ((w & 0x600) >> 9u16) as usize) by (bit_vector)
                    requires
                        dest_index_facing == w as usize,
                ;
                assert((dest_index_facing & 0x800 > 0) == (w & 0x800 > 0)) by (bit_vector)
                    requires
                        dest_index_facing == w as usize,
                ;
                assert((dest_index_facing & 0x1000 > 0) == (w & 0x1000 > 0)) by (bit_vector)
                    requires
                        dest_index_facing == w as usize,
                ;
            }
        },
    }
    SceneExit {
        index: exit_index,
        x,
        y,
        width,
        height,
        destination_index: dest_index,
        destination_x: dest_x,
        destination_y: dest_y,
        facing,
    }
}

/// Reads the exits of a scene: as many whole records as the data holds.
pub fn read_scene_exits(data: &Vec<u8>, mode: GameMode) -> (exits: Vec<SceneExit>)
    requires
        forall|i: int|
            0 <= i < data@.len() as int / scene_exit_record_len(mode) ==> #[trigger] scene_exit_decodable(
                data@,
                scene_exit_record_len(mode) * i,
                mode,
            ),
    ensures
        exits@.len() == data@.len() as int / scene_exit_record_len(mode),
        forall|i: int|
            0 <= i < exits@.len() ==> #[trigger] exits@[i] == scene_exit_at(
                data@,
                scene_exit_record_len(mode) * i,
                mode,
                i as usize,
            ),
{
    let count = match mode {
        GameMode::Pc => data.len() / 8,
        GameMode::Snes => data.len() / 7,
    };
    let ghost rl = scene_exit_record_len(mode);
    let mut reader = ByteReader::new(data.clone());
    let mut exits: Vec<SceneExit> = Vec::new();
    let mut exit_index: usize = 0;
    while exit_index < count
        invariant
            rl == scene_exit_record_len(mode),
            count == data@.len() as int / rl,
            reader.data@ == data@,
            exit_index <= count,
            reader.pos == rl * exit_index,
            exits@.len() == exit_index,
            forall|i: int| 0 <= i < count ==> #[trigger] scene_exit_decodable(data@, rl * i, mode),
            forall|i: int| 0 <= i < exit_index ==> #[trigger] exits@[i] == scene_exit_at(data@, rl * i, mode, i as usize),
        decreases count - exit_index,
    {
        assert(rl * exit_index + rl <= data@.len()) by (nonlinear_arith)
            requires
                exit_index < count,
                count == data@.len() as int / rl,
                rl == 7 || rl == 8,
        ;
        assert(scene_exit_decodable(data@, rl * exit_index, mode));
        let exit = read_scene_exit(&mut reader, mode, exit_index);
        exits.push(exit);
        exit_index = exit_index + 1;
    }
    exits
}


/// The gold and item of a treasure value of the PC version: gold has the top bit set and is
/// stored halved; items are numbered within their category, the category in the high byte.
pub open spec fn pc_treasure_contents(c: u16) -> (u32, usize) {
    if c & 0x8000 > 0 {
        (((c & 0x7FFF) * 2) as u32, 0)
    } else if c & 0xFF00 == 0x5000 {
        (0, ((c & 0x1FF) + 302) as usize)
    } else if c & 0xFF00 == 0x4000 {
        (0, ((c & 0x1FF) + 259) as usize)
    } else if c & 0xFF00 == 0x3000 {
        (0, ((c & 0x1FF) + 200) as usize)
    } else if c & 0xFF00 == 0x2000 {
        (0, ((c & 0x1FF) + 161) as usize)
    } else if c & 0xFF00 == 0x1000 {
        (0, ((c & 0x1FF) + 111) as usize)
    } else if c & 0xFF00 == 0 {
        (0, (c & 0x1FF) as usize)
    } else {
        (0, 0)
    }
}

/// The gold and item of a treasure value of the SNES version.
pub open spec fn snes_treasure_contents(c: u16) -> (u32, usize) {
    if c & 0x8000 > 0 {
        (((c & 0x7FFF) * 2) as u32, 0)
    } else if c & 0x4000 == 0 {
        (0, (c & 0x1FF) as usize)
    } else {
        (0, 0)
    }
}

/// The gold and item of a treasure value.
pub open spec fn treasure_contents(mode: GameMode, c: u16) -> (u32, usize) {
    match mode {
        GameMode::Pc => pc_treasure_contents(c),
        GameMode::Snes => snes_treasure_contents(c),
    }
}

/// The identifier of the `index`-th treasure of a scene.
pub open spec fn treasure_id(scene_index: usize, index: usize) -> Seq<char> {
    digits(scene_index as nat, 10, false) + "_"@ + digits(index as nat, 10, false)
}

/// The size of a treasure record: the PC adds a 16 bit value that is skipped.
pub open spec fn treasure_stride(mode: GameMode) -> int {
    match mode {
        GameMode::Pc => 6,
        GameMode::Snes => 4,
    }
}

/// Where the records of a scene's treasure start.
pub open spec fn treasure_start(pointers: Seq<u32>, scene: int) -> int {
    pointers[scene] as int
}

/// How many records a scene's treasure has.
pub open spec fn treasure_count(pointers: Seq<u32>, scene: int, mode: GameMode) -> int {
    (pointers[scene + 1] - pointers[scene]) / treasure_stride(mode)
}

/// The first record from `i` on, before `count`, whose tile is zero: it points to the treasure
/// of another scene.
pub open spec fn first_pointer_record(data: Seq<u8>, start: int, stride: int, i: int, count: int) -> Option<int>
    decreases count - i,
{
    if i >= count || i < 0 {
        None
    } else if data[start + stride * i] == 0 && data[start + stride * i + 1] == 0 {
        Some(i)
    } else {
        first_pointer_record(data, start, stride, i + 1, count)
    }
}

/// Whether the `i`-th record of `stride` bytes from `start` lies in the data.
pub open spec fn record_in_data(data: Seq<u8>, start: int, stride: int, i: int) -> bool {
    start + stride * i + stride <= data.len()
}

/// `first_pointer_record` finds the first pointing record in its range.
pub proof fn lemma_first_pointer_record(data: Seq<u8>, start: int, stride: int, i: int, count: int)
    requires
        0 <= i,
    ensures
        match first_pointer_record(data, start, stride, i, count) {
            Some(j) => i <= j < count && data[start + stride * j] == 0 && data[start + stride * j + 1] == 0,
            None => true,
        },
    decreases count - i,
{
    if i < count && !(data[start + stride * i] == 0 && data[start + stride * i + 1] == 0) {
        lemma_first_pointer_record(data, start, stride, i + 1, count);
    }
}

/// Whether the treasure records of a scene can be read: the scene has a next pointer that is not
/// smaller, and the records read, up to a pointing record, are in the data.
pub open spec fn treasure_readable(pointers: Seq<u32>, data: Seq<u8>, mode: GameMode, scene: int) -> bool {
    &&& 0 <= scene
    &&& scene + 1 < pointers.len()
    &&& pointers[scene] <= pointers[scene + 1]
    &&& {
        let start = treasure_start(pointers, scene);
        let stride = treasure_stride(mode);
        let count = treasure_count(pointers, scene, mode);
        match first_pointer_record(data, start, stride, 0, count) {
            Some(j) => start + stride * j + 4 <= data.len() && forall|i: int|
                0 <= i < j ==> #[trigger] record_in_data(data, start, stride, i),
            None => forall|i: int| 0 <= i < count ==> #[trigger] record_in_data(data, start, stride, i),
        }
    }
}

/// The scene whose treasure a scene's treasure list resolves to, following pointing records
/// at most `fuel` times; `None` where the data cannot be read or the chain is longer.
pub open spec fn treasure_target(pointers: Seq<u32>, data: Seq<u8>, mode: GameMode, scene: int, fuel: nat) -> Option<int>
    decreases fuel,
{
    if !treasure_readable(pointers, data, mode, scene) {
        None
    } else {
        let start = treasure_start(pointers, scene);
        let stride = treasure_stride(mode);
        match first_pointer_record(data, start, stride, 0, treasure_count(pointers, scene, mode)) {
            None => Some(scene),
            Some(j) => if fuel == 0 {
                None
            } else {
                treasure_target(pointers, data, mode, le16(data, start + stride * j + 2), (fuel - 1) as nat)
            },
        }
    }
}

/// A PC treasure record decoded.
fn parse_pc_treasure(id: String, x: u8, y: u8, contents: u16) -> (t: SceneTreasure)
    ensures
        t.id@ == id@,
        t.tile_x == x as i32,
        t.tile_y == y as i32,
        (t.gold, t.item) == pc_treasure_contents(contents),
{
    let mut gold: u32 = 0;
    let mut item: usize = 0;
    if contents & 0x8000 > 0 {
        gold = (contents & 0x7FFF) as u32 * 2;
    } else if contents & 0xFF00 == 0x5000 {
        item = (contents & 0x1FF) as usize + 302;
    } else if contents & 0xFF00 == 0x4000 {
        item = (contents & 0x1FF) as usize + 259;
    } else if contents & 0xFF00 == 0x3000 {
        item = (contents & 0x1FF) as usize + 200;
    } else if contents & 0xFF00 == 0x2000 {
        item = (contents & 0x1FF) as usize + 161;
    } else if contents & 0xFF00 == 0x1000 {
        item = (contents & 0x1FF) as usize + 111;
    } else if contents & 0xFF00 == 0 {
        item = (contents & 0x1FF) as usize;
    }
    SceneTreasure { id, tile_x: x as i32, tile_y: y as i32, gold, item }
}

/// A SNES treasure record decoded.
fn parse_snes_treasure(id: String, x: u8, y: u8, contents: u16) -> (t: SceneTreasure)
    ensures
        t.id@ == id@,
        t.tile_x == x as i32,
        t.tile_y == y as i32,
        (t.gold, t.item) == snes_treasure_contents(contents),
{
    let mut gold: u32 = 0;
    let mut item: usize = 0;
    if contents & 0x8000 > 0 {
        gold = (contents & 0x7FFF) as u32 * 2;
    } else if contents & 0x4000 == 0 {
        item = (contents & 0x1FF) as usize;
    }
    SceneTreasure { id, tile_x: x as i32, tile_y: y as i32, gold, item }
}

/// Whether `t` is the `index`-th treasure of `scene`, decoded from its record.
pub open spec fn is_treasure_record(t: SceneTreasure, pointers: Seq<u32>, data: Seq<u8>, mode: GameMode, scene: int, index: int) -> bool {
    let p = treasure_start(pointers, scene) + treasure_stride(mode) * index;
    &&& t.id@ == treasure_id(scene as usize, index as usize)
    &&& t.tile_x == data[p] as i32
    &&& t.tile_y == data[p + 1] as i32
    &&& (t.gold, t.item) == treasure_contents(mode, le16(data, p + 2) as u16)
}

/// Reads the treasure of a scene, following at most `fuel` pointing records.
fn read_scene_treasure_within(
    pointers: &Vec<u32>,
    data: &Vec<u8>,
    mode: GameMode,
    scene_index: usize,
    fuel: usize,
) -> (treasure: Vec<SceneTreasure>)
    requires
        treasure_target(pointers@, data@, mode, scene_index as int, fuel as nat) is Some,
    ensures
        ({
            let s = treasure_target(pointers@, data@, mode, scene_index as int, fuel as nat).unwrap();
            &&& treasure@.len() == treasure_count(pointers@, s, mode)
            &&& forall|i: int| 0 <= i < treasure@.len() ==> is_treasure_record(#[trigger] treasure@[i], pointers@, data@, mode, s, i)
        }),
    decreases fuel,
{
    let ghost d = data@;
    let ghost ps = pointers@;
    let ghost stride = treasure_stride(mode);
    assert(treasure_readable(ps, d, mode, scene_index as int));
    let _table_len = pointers.len();
    let start = pointers[scene_index];
    let span = pointers[scene_index + 1] - pointers[scene_index];
    let treasure_count = match mode {
        GameMode::Pc => span / 6,
        GameMode::Snes => span / 4,
    };
    let mut reader = ByteReader::new(data.clone());
    reader.seek(start as usize);
    let ghost count = treasure_count as int;
    assert(count == crate::filesystem::scene::treasure_count(ps, scene_index as int, mode));
    let mut treasure: Vec<SceneTreasure> = Vec::new();
    let mut index: u32 = 0;
    while index < treasure_count
        invariant
            reader.data@ == d,
            d == data@,
            ps == pointers@,
            stride == treasure_stride(mode),
            count == treasure_count,
            count == crate::filesystem::scene::treasure_count(ps, scene_index as int, mode),
            treasure_readable(ps, d, mode, scene_index as int),
            start == treasure_start(ps, scene_index as int),
            index <= treasure_count,
            reader.pos == start + stride * index,
            first_pointer_record(d, start as int, stride, 0, count) == first_pointer_record(d, start as int, stride, index as int, count),
            treasure@.len() == index,
            forall|i: int| 0 <= i < index ==> is_treasure_record(#[trigger] treasure@[i], ps, d, mode, scene_index as int, i),
            treasure_target(ps, d, mode, scene_index as int, fuel as nat) is Some,
        decreases treasure_count - index,
    {
        let ghost p = reader.pos as int;
        proof {
            lemma_first_pointer_record(d, start as int, stride, index as int, count);
            match first_pointer_record(d, start as int, stride, 0, count) {
                Some(j) => {
                    if j > index {
                        assert(record_in_data(d, start as int, stride, index as int));
                    }
                },
                None => {
                    assert(record_in_data(d, start as int, stride, index as int));
                },
            }
        }
        let x = reader.read_u8();
        let y = reader.read_u8();
        let contents = reader.read_u16_le();
        if x == 0 && y == 0 {
            assert(first_pointer_record(d, start as int, stride, 0, count) == Some(index as int));
            return read_scene_treasure_within(pointers, data, mode, contents as usize, fuel - 1);
        }
        let mut id = String::new();
        push_decimal(&mut id, scene_index as u64);
        id.push_str("_");
        push_decimal(&mut id, index as u64);
        let item = match mode {
            GameMode::Snes => parse_snes_treasure(id, x, y, contents),
            GameMode::Pc => parse_pc_treasure(id, x, y, contents),
        };
        treasure.push(item);
        if let GameMode::Pc = mode {
            let _skipped = reader.read_u16_le();
        }
        index = index + 1;
    }
    proof {
        assert(first_pointer_record(d, start as int, stride, 0, count) is None);
    }
    treasure
}

/// Reads the treasure of a scene from the scene pointer table and the treasure data. A record
/// whose tile is zero points to the treasure of another scene, which is read instead; the chain
/// of such records is followed as long as the table has scenes.
pub fn read_scene_treasure(pointers: &Vec<u32>, data: &Vec<u8>, mode: GameMode, scene_index: usize) -> (treasure: Vec<SceneTreasure>)
    requires
        treasure_target(pointers@, data@, mode, scene_index as int, pointers@.len() as nat) is Some,
    ensures
        ({
            let s = treasure_target(pointers@, data@, mode, scene_index as int, pointers@.len() as nat).unwrap();
            &&& treasure@.len() == treasure_count(pointers@, s, mode)
            &&& forall|i: int| 0 <= i < treasure@.len() ==> is_treasure_record(#[trigger] treasure@[i], pointers@, data@, mode, s, i)
        }),
{
    read_scene_treasure_within(pointers, data, mode, scene_index, pointers.len())
}


/// The references of a scene to its music, tilesets, palette, map, animations and script, and
/// the area the camera is kept within.
#[derive(Clone, Copy, PartialEq, Eq, Structural, Debug)]
pub struct SceneHeader {
    pub music_index: usize,
    pub tileset_l12_index: usize,
    pub tileset_l12_assembly_index: usize,
    pub tileset_l3_index: usize,
    pub tileset_l3_assembly_index: usize,
    pub palette_index: usize,
    pub palette_anims_index: usize,
    pub map_index: usize,
    pub chip_anims_index: usize,
    pub script_index: usize,
    pub scroll_mask: ScrollMask,
}

/// The size of a scene header.
pub open spec fn scene_header_len(mode: GameMode) -> int {
    match mode {
        GameMode::Snes => 14,
        GameMode::Pc => 24,
    }
}

/// The scene header stored at `p`. The SNES version stores bytes and derives the animation and
/// assembly references from the tileset and palette; the PC version stores 16 bit values, a 32
/// bit script reference and signed scroll bounds, and takes the layer 3 assembly of the scene's
/// own index.
pub open spec fn scene_header_at(data: Seq<u8>, p: int, mode: GameMode, scene_index: usize) -> SceneHeader {
    match mode {
        GameMode::Snes => SceneHeader {
            music_index: data[p] as usize,
            tileset_l12_index: data[p + 1] as usize,
            tileset_l12_assembly_index: data[p + 1] as usize,
            tileset_l3_index: data[p + 2] as usize,
            tileset_l3_assembly_index: data[p + 2] as usize,
            palette_index: data[p + 3] as usize,
            map_index: le16(data, p + 4) as usize,
            chip_anims_index: data[p + 1] as usize,
            palette_anims_index: data[p + 3] as usize,
            script_index: le16(data, p + 8) as usize,
            scroll_mask: ScrollMask {
                left: (data[p + 10] * 16) as isize,
                top: (data[p + 11] * 16) as isize,
                right: (data[p + 12] * 16 + 16) as isize,
                bottom: (data[p + 13] * 16) as isize,
            },
        },
        GameMode::Pc => SceneHeader {
            music_index: le16(data, p) as usize,
            tileset_l12_index: le16(data, p + 2) as usize,
            tileset_l12_assembly_index: le16(data, p + 4) as usize,
            tileset_l3_index: le16(data, p + 6) as usize,
            tileset_l3_assembly_index: scene_index,
            palette_index: le16(data, p + 8) as usize,
            palette_anims_index: le16(data, p + 10) as usize,
            map_index: le16(data, p + 12) as usize,
            chip_anims_index: le16(data, p + 14) as usize,
            script_index: le32(data, p + 16) as usize,
            scroll_mask: ScrollMask {
                left: (signed8(data[p + 20]) * 16) as isize,
                top: (signed8(data[p + 21]) * 16) as isize,
                right: (signed8(data[p + 22]) * 16 + 16) as isize,
                bottom: (signed8(data[p + 23]) * 16 + 16) as isize,
            },
        },
    }
}


/// Reads a scene header.
pub fn read_scene_header(data: &mut ByteReader, mode: GameMode, scene_index: usize) -> (header: SceneHeader)
    requires
        old(data).pos + scene_header_len(mode) <= old(data).data@.len(),
    ensures
        final(data).data@ == old(data).data@,
        final(data).pos == old(data).pos + scene_header_len(mode),
        header == scene_header_at(old(data).data@, old(data).pos as int, mode, scene_index),
{
    match mode {
        GameMode::Snes => {
            let music_index = data.read_u8() as usize;
            let tileset_l12_index = data.read_u8() as usize;
            let tileset_l3_index = data.read_u8() as usize;
            let palette_index = data.read_u8() as usize;
            let map_index = data.read_u16_le() as usize;
            let _chip_anims_index = data.read_u8() as usize;
            let _palette_anims_index = data.read_u8() as usize;
            let script_index = data.read_u16_le() as usize;
            let left = data.read_u8() as isize * 16;
            let top = data.read_u8() as isize * 16;
            let right = data.read_u8() as isize * 16 + 16;
            let bottom = data.read_u8() as isize * 16;
            SceneHeader {
                music_index,
                tileset_l12_index,
                tileset_l12_assembly_index: tileset_l12_index,
                tileset_l3_index,
                tileset_l3_assembly_index: tileset_l3_index,
                palette_index,
                palette_anims_index: palette_index,
                map_index,
                chip_anims_index: tileset_l12_index,
                script_index,
                scroll_mask: ScrollMask { left, top, right, bottom },
            }
        },
        GameMode::Pc => {
            let music_index = data.read_u16_le() as usize;
            let tileset_l12_index = data.read_u16_le() as usize;
            let tileset_l12_assembly_index = data.read_u16_le() as usize;
            let tileset_l3_index = data.read_u16_le() as usize;
            let palette_index = data.read_u16_le() as usize;
            let palette_anims_index = data.read_u16_le() as usize;
            let map_index = data.read_u16_le() as usize;
            let chip_anims_index = data.read_u16_le() as usize;
            let script_index = data.read_u32_le() as usize;
            let left = data.read_i8() as isize * 16;
            let top = data.read_i8() as isize * 16;
            let right = data.read_i8() as isize * 16 + 16;
            let bottom = data.read_i8() as isize * 16 + 16;
            SceneHeader {
                music_index,
                tileset_l12_index,
                tileset_l12_assembly_index,
                tileset_l3_index,
                tileset_l3_assembly_index: scene_index,
                palette_index,
                palette_anims_index,
                map_index,
                chip_anims_index,
                script_index,
                scroll_mask: ScrollMask { left, top, right, bottom },
            }
        },
    }
}

/// The camera area of a scene whose map layer 1 is `tile_width` by `tile_height` tiles: a left
/// bound of 2048 or -2048 marks a scene without bounds, which gets the whole map.
pub open spec fn resolved_scroll_mask(mask: ScrollMask, tile_width: u32, tile_height: u32) -> ScrollMask {
    if mask.left == 2048 || mask.left == -2048 {
        ScrollMask { left: 0, top: 0, right: (tile_width * 16) as isize, bottom: (tile_height * 16) as isize }
    } else {
        mask
    }
}

/// The camera area of a scene, given the size of its first map layer in tiles.
pub fn resolve_scroll_mask(mask: ScrollMask, tile_width: u32, tile_height: u32) -> (resolved: ScrollMask)
    requires
        tile_width * 16 <= isize::MAX,
        tile_height * 16 <= isize::MAX,
    ensures
        resolved == resolved_scroll_mask(mask, tile_width, tile_height),
{
    if mask.left == 2048 || mask.left == -2048 {
        ScrollMask { left: 0, top: 0, right: tile_width as isize * 16, bottom: tile_height as isize * 16 }
    } else {
        mask
    }
}

} // verus!
