//! Where an exit or a script sends the player: a scene or a world, and a position in it.
use crate::facing::{facing_of, Facing};
use crate::fmt::{digits, push_decimal, push_hex, push_padded_decimal, push_signed_decimal, signed_decimal, zero_padded};
use crate::reader::{le16, ByteReader};
use crate::util::vec2di32::Vec2Di32;
use crate::l10n::{IndexedType, L10n};
use crate::GameMode;
use vstd::prelude::*;

verus! {

/// A place to go to.
#[derive(Clone, Copy, PartialEq, Eq, Structural, Debug)]
pub enum Destination {
    Scene { index: usize, pos: Vec2Di32, facing: Facing, data: u8 },
    World { index: usize, pos: Vec2Di32, data: u8 },
}

/// Whether a destination index names a world rather than a scene.
pub open spec fn is_world_index(index: usize) -> bool {
    0x1F0 <= index <= 0x1FF
}

/// The pixel position that a destination in tiles, shifted by a few pixels, comes to: worlds
/// are in 8 pixel tiles, scenes in 16 pixel tiles with the position at the bottom center.
pub open spec fn destination_pos(index: usize, tile_x: i32, tile_y: i32, shift_x: i32, shift_y: i32) -> (int, int) {
    if is_world_index(index) {
        (tile_x * 8 + shift_x, tile_y * 8 + shift_y)
    } else {
        (tile_x * 16 + 8 + shift_x, tile_y * 16 + 15 + shift_y)
    }
}

/// Whether 32 bit numbers hold the pixel position and each step of computing it.
pub open spec fn destination_fits(index: usize, tile_x: i32, tile_y: i32, shift_x: i32, shift_y: i32) -> bool {
    let p = destination_pos(index, tile_x, tile_y, shift_x, shift_y);
    let fits = |v: int| i32::MIN <= v <= i32::MAX;
    if is_world_index(index) {
        fits(tile_x * 8) && fits(tile_y * 8) && fits(p.0) && fits(p.1)
    } else {
        fits(tile_x * 16) && fits(tile_y * 16) && fits(tile_x * 16 + 8) && fits(tile_y * 16 + 15) && fits(p.0)
            && fits(p.1)
    }
}

/// The destination that an index, a facing, a tile position, a pixel shift and the raw data
/// byte describe.
pub open spec fn destination_of(
    index: usize,
    facing: Facing,
    tile_x: i32,
    tile_y: i32,
    shift_x: i32,
    shift_y: i32,
    data: u8,
) -> Destination {
    let p = destination_pos(index, tile_x, tile_y, shift_x, shift_y);
    if is_world_index(index) {
        Destination::World { index: (index - 0x1F0) as usize, pos: Vec2Di32 { x: p.0 as i32, y: p.1 as i32 }, data }
    } else {
        Destination::Scene { index, facing, pos: Vec2Di32 { x: p.0 as i32, y: p.1 as i32 }, data }
    }
}

/// The name of a direction, as `Debug` writes it.
pub open spec fn facing_name(f: Facing) -> Seq<char> {
    match f {
        Facing::Up => "Up"@,
        Facing::Down => "Down"@,
        Facing::Left => "Left"@,
        Facing::Right => "Right"@,
    }
}

/// The one-line description of a destination.
pub open spec fn destination_text(d: Destination) -> Seq<char> {
    match d {
        Destination::World { index, pos, data } => "World("@ + digits(index as nat, 10, false) + ", "@
            + signed_decimal(pos.x as int) + ", "@ + signed_decimal(pos.y as int) + ", 0x"@ + zero_padded(
            digits(data as nat, 16, true),
            2,
        ) + ")"@,
        Destination::Scene { index, pos, facing, data } => "Scene("@ + digits(index as nat, 10, false) + ", "@
            + signed_decimal(pos.x as int) + ", "@ + signed_decimal(pos.y as int) + ", "@ + facing_name(facing)
            + ", 0x"@ + zero_padded(digits(data as nat, 10, false), 2) + ")"@,
    }
}

/// The index that a destination is referred to by; worlds count from 0x1FF.
pub open spec fn destination_index(d: Destination) -> int {
    match d {
        Destination::World { index, .. } => index + 0x1FF,
        Destination::Scene { index, .. } => index as int,
    }
}

/// The fields of a destination stored in the data at `pos`, in the layout of the version:
/// index, the direction, the tile position and the facing byte; and the position after it.
pub open spec fn stored_destination(data: Seq<u8>, pos: int, mode: GameMode) -> (usize, u8, i32, i32, int) {
    match mode {
        GameMode::Snes => {
            let index_facing = le16(data, pos) as u16;
            let last = (index_facing >> 8u16) as u8;
            let facing = ((last >> 1u8) & 0x0F) | (last & 0x80);
            ((index_facing & 0x01FF) as usize, facing, data[pos + 2] as i32, data[pos + 3] as i32, pos + 4)
        },
        GameMode::Pc => {
            (le16(data, pos) as usize, data[pos + 2], data[pos + 3] as i32, data[pos + 4] as i32, pos + 5)
        },
    }
}

/// The number of bytes of a stored destination.
pub open spec fn stored_destination_len(mode: GameMode) -> int {
    match mode {
        GameMode::Snes => 4,
        GameMode::Pc => 5,
    }
}

impl Destination {
    /// The destination that an index, a facing, a tile position, a pixel shift and the raw data
    /// byte describe: indices 0x1F0 to 0x1FF are worlds, the others scenes.
    pub fn from_data(
        index: usize,
        facing: Facing,
        tile_x: i32,
        tile_y: i32,
        shift_x: i32,
        shift_y: i32,
        data: u8,
    ) -> (d: Destination)
        requires
            destination_fits(index, tile_x, tile_y, shift_x, shift_y),
        ensures
            d == destination_of(index, facing, tile_x, tile_y, shift_x, shift_y, data),
    {
        if index >= 0x1F0 && index <= 0x1FF {
            Destination::World {
                index: index - 0x1F0,
                pos: Vec2Di32::new(tile_x * 8 + shift_x, tile_y * 8 + shift_y),
                data,
            }
        } else {
            Destination::Scene {
                index,
                facing,
                pos: Vec2Di32::new(tile_x * 16 + 8 + shift_x, tile_y * 16 + 15 + shift_y),
                data,
            }
        }
    }

    /// Reads a destination in the layout of the version: the SNES packs the direction into the
    /// index word, the PC stores it in a byte of its own.
    pub fn from_cursor(data: &mut ByteReader, mode: GameMode) -> (d: Destination)
        requires
            old(data).pos + stored_destination_len(mode) <= old(data).data@.len(),
        ensures
            final(data).data@ == old(data).data@,
            ({
                let s = stored_destination(old(data).data@, old(data).pos as int, mode);
                &&& d == destination_of(s.0, facing_of((s.1 & 3) as usize), s.2, s.3, 0, 0, s.1)
                &&& final(data).pos == s.4
            }),
    {
        match mode {
            GameMode::Snes => {
                let index_facing = data.read_u16_le();
                let index = (index_facing & 0x01FF) as usize;
                let last_facing_byte = (index_facing >> 8) as u8;
                let facing = ((last_facing_byte >> 1) & 0x0F) | (last_facing_byte & 0x80);
                let tile_x = data.read_u8() as i32;
                let tile_y = data.read_u8() as i32;
                Destination::from_data(index, Facing::from_data(facing), tile_x, tile_y, 0, 0, facing)
            },
            GameMode::Pc => {
                let index = data.read_u16_le() as usize;
                let facing = data.read_u8();
                let tile_x = data.read_u8() as i32;
                let tile_y = data.read_u8() as i32;
                Destination::from_data(index, Facing::from_data(facing), tile_x, tile_y, 0, 0, facing)
            },
        }
    }

    /// The index that the destination is referred to by; worlds count from 0x1FF.
    pub fn get_index(&self) -> (index: usize)
        requires
            destination_index(*self) <= usize::MAX,
        ensures
            index == destination_index(*self),
    {
        match self {
            Destination::World { index, .. } => *index + 0x1FF,
            Destination::Scene { index, .. } => *index,
        }
    }

    /// The name of the scene or world.
    pub fn title(&self, l10n: &L10n) -> (s: String)
        requires
            l10n.wf(),
        ensures
            s@ == match *self {
                Destination::Scene { index, .. } => l10n.name_of(IndexedType::Scene, index),
                Destination::World { index, .. } => l10n.name_of(IndexedType::World, index),
            },
    {
        match self {
            Destination::Scene { index, .. } => l10n.get_indexed(IndexedType::Scene, *index),
            Destination::World { index, .. } => l10n.get_indexed(IndexedType::World, *index),
        }
    }

    /// The kind, index and name of the scene or world.
    pub fn info(&self, l10n: &L10n) -> (s: String)
        requires
            l10n.wf(),
        ensures
            s@ == match *self {
                Destination::Scene { index, .. } => "Scene "@ + digits(index as nat, 10, false) + " "@ + l10n.name_of(IndexedType::Scene, index),
                Destination::World { index, .. } => "World "@ + digits(index as nat, 10, false) + " "@ + l10n.name_of(IndexedType::World, index),
            },
    {
        let mut s = String::new();
        match self {
            Destination::Scene { index, .. } => {
                s.push_str("Scene ");
                push_decimal(&mut s, *index as u64);
                s.push_str(" ");
                let name = l10n.get_indexed(IndexedType::Scene, *index);
                s.push_str(name.as_str());
            },
            Destination::World { index, .. } => {
                s.push_str("World ");
                push_decimal(&mut s, *index as u64);
                s.push_str(" ");
                let name = l10n.get_indexed(IndexedType::World, *index);
                s.push_str(name.as_str());
            },
        }
        s
    }

    /// A one-line description.
    pub fn as_string(&self) -> (s: String)
        ensures
            s@ == destination_text(*self),
    {
        let mut s = String::new();
        match self {
            Destination::World { index, pos, data } => {
                s.push_str("World(");
                push_decimal(&mut s, *index as u64);
                s.push_str(", ");
                push_signed_decimal(&mut s, pos.x as i64);
                s.push_str(", ");
                push_signed_decimal(&mut s, pos.y as i64);
                s.push_str(", 0x");
                push_hex(&mut s, *data as u64, 2, true);
                s.push_str(")");
            },
            Destination::Scene { index, pos, facing, data } => {
                s.push_str("Scene(");
                push_decimal(&mut s, *index as u64);
                s.push_str(", ");
                push_signed_decimal(&mut s, pos.x as i64);
                s.push_str(", ");
                push_signed_decimal(&mut s, pos.y as i64);
                s.push_str(", ");
                match facing {
                    Facing::Up => s.push_str("Up"),
                    Facing::Down => s.push_str("Down"),
                    Facing::Left => s.push_str("Left"),
                    Facing::Right => s.push_str("Right"),
                }
                s.push_str(", 0x");
                push_padded_decimal(&mut s, *data as u64, 2);
                s.push_str(")");
            },
        }
        assert(s@ =~= destination_text(*self));
        s
    }
}

/// A scene destination keeps its index: reading the index back gives the one it was made from.
pub proof fn law_scene_destination_index(
    index: usize,
    facing: Facing,
    tile_x: i32,
    tile_y: i32,
    shift_x: i32,
    shift_y: i32,
    data: u8,
)
    requires
        !is_world_index(index),
    ensures
        destination_index(destination_of(index, facing, tile_x, tile_y, shift_x, shift_y, data)) == index,
{
}

} // verus!
