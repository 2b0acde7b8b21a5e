//! World exit data: exits to scenes, script-triggered exits and world script offsets.
use crate::destination::{destination_of, Destination};
use crate::facing::{facing_of, Facing};
use crate::reader::{le16, ByteReader};
use crate::util::vec2di32::Vec2Di32;
use crate::world::world_exit::{ScriptedWorldExit, WorldExit, WorldExitType};
use crate::GameMode;
use vstd::prelude::*;

verus! {

/// The size of an exit record: the PC stores the facing in a byte of its own.
pub open spec fn exit_record_len(mode: GameMode) -> int {
    match mode {
        GameMode::Snes => 7,
        GameMode::Pc => 8,
    }
}

/// The destination fields of an exit record at `p`: scene index, facing value, facing byte,
/// shift left, shift up, tile x, tile y.
pub open spec fn exit_destination_fields(data: Seq<u8>, p: int, mode: GameMode) -> (usize, u8, u8, bool, bool, i32, i32) {
    let scene_word = le16(data, p + 3) as u16;
    match mode {
        GameMode::Pc => {
            let f = data[p + 5];
            (scene_word as usize, (f & 0x6) >> 1u8, f, f & 0x8 > 0, f & 0x10 > 0, data[p + 6] as i32, data[p + 7] as i32)
        },
        GameMode::Snes => {
            let fb = (scene_word >> 8u16) as u8;
            (
                (scene_word & 0x1FF) as usize,
                ((fb >> 1u8) & 0x0F) | (fb & 0x80),
                fb,
                scene_word & 0x800 > 0,
                scene_word & 0x1000 > 0,
                data[p + 5] as i32,
                data[p + 6] as i32,
            )
        },
    }
}

/// The exit stored in the record at `p`, the `index`-th of the list. Scene index 0x1FF marks an
/// exit into the world script, whose pointer index is the facing value.
pub open spec fn world_exit_at(data: Seq<u8>, p: int, mode: GameMode, index: usize) -> WorldExit {
    let x = data[p];
    let y = data[p + 1];
    let f = exit_destination_fields(data, p, mode);
    let shift_x: i32 = if f.3 { -8i32 } else { 0i32 };
    let shift_y: i32 = if f.4 { -8i32 } else { 0i32 };
    WorldExit {
        index,
        pos: Vec2Di32 { x: ((x & 0x7F) * 16) as i32, y: ((y & 0x3F) * 16 - 8) as i32 },
        is_available: x & 0x80 > 0,
        name_index: data[p + 2] as usize,
        exit_type: if f.0 == 0x1FF {
            WorldExitType::Scripted { pointer_index: f.1 as usize }
        } else {
            WorldExitType::Destination {
                destination: destination_of(f.0, facing_of((f.1 & 3) as usize), f.5, f.6, shift_x, shift_y, f.2),
            }
        },
        unknown: (y & 0xC0) as u32,
    }
}

/// The scripted exits from the record at `q` on, the `j`-th of at most `count`, up to a record
/// of three zeros: the exits and the position after the last record read; `None` where the data
/// ends first.
pub open spec fn scripted_exits_from(data: Seq<u8>, q: int, j: int, count: int) -> Option<(Seq<ScriptedWorldExit>, int)>
    decreases count - j,
{
    if j >= count {
        Some((Seq::empty(), q))
    } else if q < 0 || q + 3 > data.len() {
        None
    } else if data[q] == 0 && data[q + 1] == 0 && data[q + 2] == 0 {
        Some((Seq::empty(), q + 3))
    } else {
        match scripted_exits_from(data, q + 3, j + 1, count) {
            None => None,
            Some((rest, end)) => Some((
                seq![
                    ScriptedWorldExit {
                        index: j as usize,
                        pos: Vec2Di32 { x: (data[q] * 16) as i32, y: (data[q + 1] * 16 - 8) as i32 },
                        script_offset_index: data[q + 2] as usize,
                        is_available: false,
                    },
                ] + rest,
                end,
            )),
        }
    }
}

/// A world script offset as stored: zero stays zero, others count from 0x400.
pub open spec fn script_offset(word: int) -> u64 {
    if word > 0 {
        (word - 0x400) as u64
    } else {
        0
    }
}

/// The layout of world exit data at `pos`: where the scripted exits' count is, where their list
/// ends, where the script offsets' count is, and where the data ends; `None` where it does not
/// fit in the data.
pub open spec fn world_exit_layout(data: Seq<u8>, pos: int, mode: GameMode) -> Option<(int, int, int, int)> {
    if pos < 0 || pos >= data.len() {
        None
    } else {
        let a = pos + 1 + exit_record_len(mode) * data[pos];
        if a >= data.len() {
            None
        } else {
            match scripted_exits_from(data, a + 1, 0, data[a] as int) {
                None => None,
                Some((_, b)) => {
                    if b >= data.len() {
                        None
                    } else {
                        let c = b + 1 + 3 * data[b];
                        if c >= data.len() || c + 1 + 2 * data[c] > data.len() {
                            None
                        } else {
                            Some((a, b, c, c + 1 + 2 * data[c]))
                        }
                    }
                },
            }
        }
    }
}

/// Reads one exit record.
fn read_world_exit(data: &mut ByteReader, mode: GameMode, exit_index: usize) -> (exit: WorldExit)
    requires
        old(data).pos + exit_record_len(mode) <= old(data).data@.len(),
    ensures
        final(data).data@ == old(data).data@,
        final(data).pos == old(data).pos + exit_record_len(mode),
        exit == world_exit_at(old(data).data@, old(data).pos as int, mode, exit_index),
{
    let x = data.read_u8();
    let y = data.read_u8();
    let name_index = data.read_u8();
    let scene_word = data.read_u16_le();
    let scene_facing: u8 = match mode {
        GameMode::Pc => data.read_u8(),
        GameMode::Snes => 0,
    };
    let scene_tile_x = data.read_u8() as i32;
    let scene_tile_y = data.read_u8() as i32;

    let tile_x = x & 0x7F;
    let is_available = x & 0x80 > 0;
    let tile_y = y & 0x3F;
    let unknown = (y & 0xC0) as u32;

    let scene_index: usize;
    let facing: u8;
    let facing_byte: u8;
    let shift_left: bool;
    let shift_up: bool;
    match mode {
        GameMode::Pc => {
            scene_index = scene_word as usize;
            facing = (scene_facing & 0x6) >> 1;
            facing_byte = scene_facing;
            shift_left = scene_facing & 0x8 > 0;
            shift_up = scene_facing & 0x10 > 0;
        },
        GameMode::Snes => {
            scene_index = (scene_word & 0x1FF) as usize;
            facing_byte = (scene_word >> 8) as u8;
            facing = ((facing_byte >> 1) & 0x0F) | (facing_byte & 0x80);
            shift_left = scene_word & 0x800 > 0;
            shift_up = scene_word & 0x1000 > 0;
        },
    }
    let shift_x: i32 = if shift_left { -8 } else { 0 };
    let shift_y: i32 = if shift_up { -8 } else { 0 };

    let exit_type = if scene_index == 0x1FF {
        WorldExitType::Scripted { pointer_index: facing as usize }
    } else {
        let destination = Destination::from_data(
            scene_index,
            Facing::from_data(facing),
            scene_tile_x,
            scene_tile_y,
            shift_x,
            shift_y,
            facing_byte,
        );
        WorldExitType::Destination { destination }
    };
    WorldExit {
        index: exit_index,
        pos: Vec2Di32::new(tile_x as i32 * 16, tile_y as i32 * 16 - 8),
        is_available,
        name_index: name_index as usize,
        exit_type,
        unknown,
    }
}

/// Reads world exit data: the exits to scenes, then the scripted exits up to a record of three
/// zeros, then a block of three-byte entries that is skipped, then the world script offsets,
/// which count from 0x400 where they are not zero.
pub fn read_world_exits(data: &mut ByteReader, mode: GameMode) -> (result: (
    Vec<WorldExit>,
    Vec<ScriptedWorldExit>,
    Vec<u64>,
))
    requires
        world_exit_layout(old(data).data@, old(data).pos as int, mode) is Some,
        ({
            let d = old(data).data@;
            let c = world_exit_layout(d, old(data).pos as int, mode).unwrap().2;
            forall|t: int| 0 <= t < d[c] ==> #[trigger] le16(d, c + 1 + 2 * t) == 0 || le16(d, c + 1 + 2 * t) >= 0x400
        }),
    ensures
        final(data).data@ == old(data).data@,
        ({
            let d = old(data).data@;
            let p = old(data).pos as int;
            let layout = world_exit_layout(d, p, mode).unwrap();
            let (a, b, c, end) = layout;
            &&& result.0@.len() == d[p]
            &&& forall|i: int| 0 <= i < d[p] ==> #[trigger] result.0@[i] == world_exit_at(
                d,
                p + 1 + exit_record_len(mode) * i,
                mode,
                i as usize,
            )
            &&& result.1@ == scripted_exits_from(d, a + 1, 0, d[a] as int).unwrap().0
            &&& result.2@.len() == d[c]
            &&& forall|t: int| 0 <= t < d[c] ==> #[trigger] result.2@[t] == script_offset(le16(d, c + 1 + 2 * t))
            &&& final(data).pos == end
        }),
{
    let ghost d = data.data@;
    let ghost p = data.pos as int;
    let ghost layout = world_exit_layout(d, p, mode).unwrap();
    let ghost rl = exit_record_len(mode);

    let mut exits: Vec<WorldExit> = Vec::new();
    let exit_count = data.read_u8() as usize;
    let mut exit_index: usize = 0;
    while exit_index < exit_count
        invariant
            data.data@ == d,
            rl == exit_record_len(mode),
            exit_count == d[p],
            exit_index <= exit_count,
            data.pos == p + 1 + rl * exit_index,
            p + 1 + rl * exit_count == layout.0,
            layout.0 < d.len(),
            exits@.len() == exit_index,
            forall|i: int| 0 <= i < exit_index ==> #[trigger] exits@[i] == world_exit_at(d, p + 1 + rl * i, mode, i as usize),
        decreases exit_count - exit_index,
    {
        let exit = read_world_exit(data, mode, exit_index);
        exits.push(exit);
        exit_index = exit_index + 1;
    }

    let mut scripted_exits: Vec<ScriptedWorldExit> = Vec::new();
    let scripted_exit_count = data.read_u8() as usize;
    let ghost all = scripted_exits_from(d, layout.0 + 1, 0, scripted_exit_count as int).unwrap();
    let mut scripted_exit_index: usize = 0;
    while scripted_exit_index < scripted_exit_count
        invariant_except_break
            data.data@ == d,
            scripted_exit_index <= scripted_exit_count,
            scripted_exits_from(d, data.pos as int, scripted_exit_index as int, scripted_exit_count as int) is Some,
            scripted_exits@ + scripted_exits_from(d, data.pos as int, scripted_exit_index as int, scripted_exit_count as int).unwrap().0
                == all.0,
            scripted_exits_from(d, data.pos as int, scripted_exit_index as int, scripted_exit_count as int).unwrap().1 == all.1,
        ensures
            data.data@ == d,
            scripted_exits@ == all.0,
            data.pos == all.1,
        decreases scripted_exit_count - scripted_exit_index,
    {
        let ghost q = data.pos as int;
        let ghost before = scripted_exits@;
        let x = data.read_u8() as usize;
        let y = data.read_u8() as usize;
        let script_offset_index = data.read_u8() as usize;
        if x == 0 && y == 0 && script_offset_index == 0 {
            assert(scripted_exits@ =~= scripted_exits@ + Seq::<ScriptedWorldExit>::empty());
            break;
        }
        scripted_exits.push(ScriptedWorldExit {
            index: scripted_exit_index,
            pos: Vec2Di32::new((x * 16) as i32, (y * 16) as i32 - 8),
            script_offset_index,
            is_available: false,
        });
        scripted_exit_index = scripted_exit_index + 1;
        assert(scripted_exits@ + scripted_exits_from(d, data.pos as int, scripted_exit_index as int, scripted_exit_count as int).unwrap().0
            =~= all.0) by {
            assert(scripted_exits@ =~= before.push(scripted_exits@.last()));
        }
    }
    proof {
        if scripted_exit_index >= scripted_exit_count {
            assert(scripted_exits@ =~= scripted_exits@ + Seq::<ScriptedWorldExit>::empty());
        }
    }

    assert(scripted_exit_count == d[layout.0]);
    assert(all.1 == layout.1);
    let unknown_count = data.read_u8() as usize;
    assert(data.pos + unknown_count * 3 == layout.2);
    let _total = data.len();
    let skip_to = data.pos + unknown_count * 3;
    data.seek(skip_to);

    let mut scripted_exit_offsets: Vec<u64> = Vec::new();
    let script_offset_count = data.read_u8() as usize;
    let ghost c = layout.2;
    let mut t: usize = 0;
    while t < script_offset_count
        invariant
            data.data@ == d,
            c == layout.2,
            layout.3 == c + 1 + 2 * d[c],
            layout.3 <= d.len(),
            script_offset_count == d[c],
            t <= script_offset_count,
            data.pos == c + 1 + 2 * t,
            forall|k: int| 0 <= k < d[c] ==> #[trigger] le16(d, c + 1 + 2 * k) == 0 || le16(d, c + 1 + 2 * k) >= 0x400,
            scripted_exit_offsets@.len() == t,
            forall|k: int| 0 <= k < t ==> #[trigger] scripted_exit_offsets@[k] == script_offset(le16(d, c + 1 + 2 * k)),
        decreases script_offset_count - t,
    {
        assert(le16(d, c + 1 + 2 * t) == 0 || le16(d, c + 1 + 2 * t) >= 0x400);
        let mut offset = data.read_u16_le() as u64;
        if offset > 0 {
            offset = offset - 0x400;
        }
        scripted_exit_offsets.push(offset);
        t = t + 1;
    }
    (exits, scripted_exits, scripted_exit_offsets)
}


/// What a world header says: the chip graphics, palettes, sprite sets, tile assemblies, map,
/// properties, music, exits and script of a world.
#[derive(Clone, Copy, Debug)]
pub struct WorldHeader {
    pub chips_l12: [usize; 8],
    pub chips_l3: [usize; 2],
    pub palette_index: usize,
    pub palette_anim_index: usize,
    pub sprite_sets: [usize; 4],
    pub assembly_l12: usize,
    pub map_index: usize,
    pub map_props_index: usize,
    pub music_props_index: usize,
    pub assembly_l3: usize,
    pub exits_index: usize,
    pub script_index: usize,
}

/// Reads the 23 header bytes of world `index`, one value per byte in the order of the header's
/// fields. The PC release keeps one palette animation per world, by the world's index.
pub fn read_world_header(data: &Vec<u8>, index: usize, mode: GameMode) -> (header: WorldHeader)
    requires
        data@.len() >= 23,
    ensures
        forall|i: int| 0 <= i < 8 ==> header.chips_l12[i] == data@[i],
        forall|i: int| 0 <= i < 2 ==> header.chips_l3[i] == data@[8 + i],
        header.palette_index == data@[10],
        header.palette_anim_index == (if mode == GameMode::Pc { index as int } else { data@[11] as int }),
        forall|i: int| 0 <= i < 4 ==> header.sprite_sets[i] == data@[12 + i],
        header.assembly_l12 == data@[16],
        header.map_index == data@[17],
        header.map_props_index == data@[18],
        header.music_props_index == data@[19],
        header.assembly_l3 == data@[20],
        header.exits_index == data@[21],
        header.script_index == data@[22],
{
    let chips_l12 = [
        data[0] as usize, data[1] as usize, data[2] as usize, data[3] as usize,
        data[4] as usize, data[5] as usize, data[6] as usize, data[7] as usize,
    ];
    let chips_l3 = [data[8] as usize, data[9] as usize];
    let sprite_sets = [data[12] as usize, data[13] as usize, data[14] as usize, data[15] as usize];
    let palette_anim_index = match mode {
        GameMode::Pc => index,
        GameMode::Snes => data[11] as usize,
    };
    WorldHeader {
        chips_l12,
        chips_l3,
        palette_index: data[10] as usize,
        palette_anim_index,
        sprite_sets,
        assembly_l12: data[16] as usize,
        map_index: data[17] as usize,
        map_props_index: data[18] as usize,
        music_props_index: data[19] as usize,
        assembly_l3: data[20] as usize,
        exits_index: data[21] as usize,
        script_index: data[22] as usize,
    }
}

} // verus!
