//! The tile properties of a scene map: collision, movement, sprite priority and triggers.
use crate::sprites::SpritePriority;
use vstd::prelude::*;

verus! {

/// Scene tile flag bits.
pub const TILE_L1_TILE_ADD: u32 = 0x001;
pub const TILE_L2_TILE_ADD: u32 = 0x002;
pub const TILE_DOOR_TRIGGER: u32 = 0x004;
pub const TILE_UNKNOWN_1: u32 = 0x008;
pub const TILE_UNKNOWN_2: u32 = 0x010;
pub const TILE_NPC_COLLISION_BATTLE: u32 = 0x080;
pub const TILE_NPC_COLLISION: u32 = 0x100;
pub const TILE_COLLISION_IGNORE_Z: u32 = 0x200;
pub const TILE_COLLISION_INVERTED: u32 = 0x400;
pub const TILE_Z_NEUTRAL: u32 = 0x800;
pub const TILE_RLE_COMPRESSED: u32 = 0x1000;

/// The collision shape of a scene tile.
#[derive(Clone, Copy, PartialEq, Eq, Structural, Debug)]
pub enum SceneTileCollision {
    NoCollision,
    Full,
    Corner45NW,
    Corner45NE,
    Corner45SW,
    Corner45SE,
    Corner30NW,
    Corner30NE,
    Corner30SW,
    Corner30SE,
    Corner22NW,
    Corner22NE,
    Corner22SW,
    Corner22SE,
    Corner75NW,
    Corner75NE,
    Corner75SW,
    Corner75SE,
    Corner75NWDup,
    Corner75NEDup,
    Corner75SWDup,
    Corner75SEDup,
    StairsSWNE,
    StairsSENW,
    LeftHalf,
    TopHalf,
    SW,
    SE,
    NE,
    NW,
    Ladder,
    Invalid,
}

/// The position of a collision shape in the list of shapes, in the order declared: the number
/// the map data uses for it.
pub open spec fn collision_number(c: SceneTileCollision) -> int {
    match c {
        SceneTileCollision::NoCollision => 0,
        SceneTileCollision::Full => 1,
        SceneTileCollision::Corner45NW => 2,
        SceneTileCollision::Corner45NE => 3,
        SceneTileCollision::Corner45SW => 4,
        SceneTileCollision::Corner45SE => 5,
        SceneTileCollision::Corner30NW => 6,
        SceneTileCollision::Corner30NE => 7,
        SceneTileCollision::Corner30SW => 8,
        SceneTileCollision::Corner30SE => 9,
        SceneTileCollision::Corner22NW => 10,
        SceneTileCollision::Corner22NE => 11,
        SceneTileCollision::Corner22SW => 12,
        SceneTileCollision::Corner22SE => 13,
        SceneTileCollision::Corner75NW => 14,
        SceneTileCollision::Corner75NE => 15,
        SceneTileCollision::Corner75SW => 16,
        SceneTileCollision::Corner75SE => 17,
        SceneTileCollision::Corner75NWDup => 18,
        SceneTileCollision::Corner75NEDup => 19,
        SceneTileCollision::Corner75SWDup => 20,
        SceneTileCollision::Corner75SEDup => 21,
        SceneTileCollision::StairsSWNE => 22,
        SceneTileCollision::StairsSENW => 23,
        SceneTileCollision::LeftHalf => 24,
        SceneTileCollision::TopHalf => 25,
        SceneTileCollision::SW => 26,
        SceneTileCollision::SE => 27,
        SceneTileCollision::NE => 28,
        SceneTileCollision::NW => 29,
        SceneTileCollision::Ladder => 30,
        SceneTileCollision::Invalid => 31,
    }
}

/// The direction a scene tile moves what stands on it.
#[derive(Clone, Copy, PartialEq, Eq, Structural, Debug)]
pub enum SceneMoveDirection {
    North,
    South,
    West,
    East,
}

/// The properties of one scene tile.
#[derive(Clone, Copy, PartialEq, Eq, Structural, Debug)]
pub struct SceneTileProps {
    pub flags: u32,
    pub collision: SceneTileCollision,
    pub sprite_priority_top: SpritePriority,
    pub sprite_priority_bottom: SpritePriority,
    pub z_plane: u32,
    pub move_direction: SceneMoveDirection,
    pub move_speed: u32,
}

/// The properties of a tile that the data does not describe.
pub open spec fn default_tile_props() -> SceneTileProps {
    SceneTileProps {
        flags: 0,
        collision: SceneTileCollision::NoCollision,
        sprite_priority_top: SpritePriority::BelowL2AboveL1,
        sprite_priority_bottom: SpritePriority::BelowL2AboveL1,
        z_plane: 0,
        move_direction: SceneMoveDirection::North,
        move_speed: 0,
    }
}

impl Default for SceneTileProps {
    fn default() -> (p: SceneTileProps)
        ensures
            p == default_tile_props(),
    {
        SceneTileProps {
            flags: 0,
            collision: SceneTileCollision::NoCollision,
            sprite_priority_top: SpritePriority::BelowL2AboveL1,
            sprite_priority_bottom: SpritePriority::BelowL2AboveL1,
            z_plane: 0,
            move_direction: SceneMoveDirection::North,
            move_speed: 0,
        }
    }
}

/// A grid of tile properties.
pub struct ScenePropLayer {
    pub width: u32,
    pub height: u32,
    pub props: Vec<SceneTileProps>,
}

/// The tile properties of a scene.
pub struct SceneMap {
    pub index: usize,
    pub props: ScenePropLayer,
}

/// A pixel coordinate divided by the tile size, rounding toward zero.
pub open spec fn tile_of(v: int) -> int {
    if v >= 0 {
        v / 16
    } else {
        -((-v) / 16)
    }
}

/// The index of the tile under a pixel position.
pub open spec fn prop_index_at(width: u32, x: int, y: int) -> int {
    tile_of(y) * width + tile_of(x)
}

impl SceneMap {
    /// The properties of the tile under a pixel position, given in whole pixels truncated
    /// toward zero; `None` where the index falls outside the properties.
    pub fn get_props_at_pixel(&self, x: i32, y: i32) -> (props: Option<&SceneTileProps>)
        requires
            self.props.width <= i32::MAX,
            i32::MIN <= tile_of(y as int) * self.props.width <= i32::MAX,
            i32::MIN <= prop_index_at(self.props.width, x as int, y as int) <= i32::MAX,
        ensures
            ({
                let i = prop_index_at(self.props.width, x as int, y as int);
                match props {
                    Some(p) => 0 <= i < self.props.props@.len() && *p == self.props.props@[i],
                    None => i < 0 || i >= self.props.props@.len(),
                }
            }),
    {
        let tile_x = x / 16;
        let tile_y = y / 16;
        assert(tile_x == tile_of(x as int) && tile_y == tile_of(y as int));
        let index = tile_y * (self.props.width as i32) + tile_x;
        if index < 0 {
            return None;
        }
        let index = index as usize;
        if index < self.props.props.len() {
            Some(&self.props.props[index])
        } else {
            None
        }
    }
}

} // verus!
