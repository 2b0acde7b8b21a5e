//! Debug overlays of a scene: which cell of the debug tile sheet shows a tile's properties, and
//! where the cells go on screen.
use crate::actor::DebugSprite;
use crate::scene::scene_map::{
    SceneMoveDirection, ScenePropLayer, SceneTileCollision, SceneTileProps, TILE_COLLISION_IGNORE_Z,
    TILE_COLLISION_INVERTED, TILE_DOOR_TRIGGER, TILE_NPC_COLLISION, TILE_NPC_COLLISION_BATTLE,
    TILE_Z_NEUTRAL,
};
use crate::sprites::SpritePriority;
use crate::surface::Surface;
use crate::util::vec2di32::Vec2Di32;
use crate::util::rect::Rect;
use crate::scene::scene::SceneTreasure;
use crate::scene::scene_exit::SceneExit;
use crate::surface::Color;
use vstd::prelude::*;

verus! {

/// What a scene's debug overlay shows.
#[derive(Clone, Copy, PartialEq, Eq, Structural, Debug)]
pub enum SceneDebugLayer {
    Disabled,
    SpritePriority,
    DoorTrigger,
    Movement,
    PcCollision,
    NpcCollision,
    ZPlane,
    Exits,
    Treasure,
    Actors,
}

/// The debug overlay state of a scene, with the sheets its cells come from.
pub struct SceneRenderer {
    pub debug_tiles: Surface,
    pub debug_sprites: Surface,
    pub debug_layer: SceneDebugLayer,
    pub debug_palette: bool,
}

impl SceneRenderer {
    /// A renderer over the given debug sheets, with every overlay off.
    pub fn new(debug_tiles: Surface, debug_sprites: Surface) -> (r: SceneRenderer)
        ensures
            r.debug_tiles == debug_tiles,
            r.debug_sprites == debug_sprites,
            r.debug_layer == SceneDebugLayer::Disabled,
            !r.debug_palette,
    {
        SceneRenderer { debug_tiles, debug_sprites, debug_layer: SceneDebugLayer::Disabled, debug_palette: false }
    }
}

/// The place of a collision shape in the order of its declaration.
pub open spec fn collision_order(c: SceneTileCollision) -> int {
    match c {
        SceneTileCollision::NoCollision => 0,
        SceneTileCollision::Full => 1,
        SceneTileCollision::Corner45NW => 2,
        SceneTileCollision::Corner45NE => 3,
        SceneTileCollision::Corner45SW => 4,
        SceneTileCollision::Corner45SE => 5,
        SceneTileCollision::Corner30NW => 6,
        SceneTileCollision::Corner30NE => 7,
        SceneTileCollision::Corner30SW => 8,
        SceneTileCollision::Corner30SE => 9,
        SceneTileCollision::Corner22NW => 10,
        SceneTileCollision::Corner22NE => 11,
        SceneTileCollision::Corner22SW => 12,
        SceneTileCollision::Corner22SE => 13,
        SceneTileCollision::Corner75NW => 14,
        SceneTileCollision::Corner75NE => 15,
        SceneTileCollision::Corner75SW => 16,
        SceneTileCollision::Corner75SE => 17,
        SceneTileCollision::Corner75NWDup => 18,
        SceneTileCollision::Corner75NEDup => 19,
        SceneTileCollision::Corner75SWDup => 20,
        SceneTileCollision::Corner75SEDup => 21,
        SceneTileCollision::StairsSWNE => 22,
        SceneTileCollision::StairsSENW => 23,
        SceneTileCollision::LeftHalf => 24,
        SceneTileCollision::TopHalf => 25,
        SceneTileCollision::SW => 26,
        SceneTileCollision::SE => 27,
        SceneTileCollision::NE => 28,
        SceneTileCollision::NW => 29,
        SceneTileCollision::Ladder => 30,
        SceneTileCollision::Invalid => 31,
    }
}

/// The debug sheet cell of a collision shape. The partial shapes follow each other eight to a
/// row, from row 1 for plain tiles and from row 7 for inverted ones; stairs and ladders have one
/// cell either way, a full tile shows only when not inverted, and no collision shows nothing.
pub open spec fn collision_cell(c: SceneTileCollision, inverted: bool) -> Option<(int, int)> {
    let k = collision_order(c) - 2;
    if c is NoCollision {
        None
    } else if c is Full {
        if inverted { None } else { Some((7, 0)) }
    } else if c is Invalid {
        Some((7, 5))
    } else if !inverted || c is StairsSWNE || c is StairsSENW || c is Ladder {
        Some((k % 8, 1 + k / 8))
    } else {
        Some((k % 8, 7 + k / 8))
    }
}

/// The debug sheet cell for a tile on a debug layer, if the tile shows one there.
pub open spec fn debug_cell(layer: SceneDebugLayer, p: SceneTileProps) -> Option<(int, int)> {
    let below = SpritePriority::BelowL2AboveL1;
    let above = SpritePriority::AboveAll;
    match layer {
        SceneDebugLayer::SpritePriority => {
            if p.sprite_priority_top == below && p.sprite_priority_bottom == below {
                Some((6, 10))
            } else if p.sprite_priority_top == below && p.sprite_priority_bottom == above {
                Some((5, 10))
            } else if p.sprite_priority_top == above && p.sprite_priority_bottom == below {
                Some((4, 10))
            } else if p.sprite_priority_top == above && p.sprite_priority_bottom == above {
                Some((7, 10))
            } else {
                None
            }
        },
        SceneDebugLayer::ZPlane => {
            if p.z_plane < 4 { Some((1 + p.z_plane, 5)) } else { None }
        },
        SceneDebugLayer::NpcCollision => {
            let battle = p.flags & TILE_NPC_COLLISION_BATTLE != 0;
            let npc = p.flags & TILE_NPC_COLLISION != 0;
            if battle && npc {
                Some((2, 0))
            } else if battle {
                Some((4, 0))
            } else if npc {
                Some((3, 0))
            } else {
                None
            }
        },
        SceneDebugLayer::DoorTrigger => {
            if p.flags & TILE_DOOR_TRIGGER != 0 { Some((0, 6)) } else { None }
        },
        SceneDebugLayer::Movement => {
            if p.move_speed > 0 {
                match p.move_direction {
                    SceneMoveDirection::North => Some((5, 4)),
                    SceneMoveDirection::South => Some((6, 4)),
                    SceneMoveDirection::East => Some((7, 4)),
                    SceneMoveDirection::West => Some((0, 5)),
                }
            } else {
                None
            }
        },
        SceneDebugLayer::PcCollision => collision_cell(p.collision, p.flags & TILE_COLLISION_INVERTED != 0),
        _ => None,
    }
}

/// The cell drawn over the first one: on the Z plane layer, the flags that ignore or neutralize
/// the plane.
pub open spec fn debug_overlay_cell(layer: SceneDebugLayer, p: SceneTileProps) -> Option<(int, int)> {
    let ignore_z = p.flags & TILE_COLLISION_IGNORE_Z != 0;
    let neutral = p.flags & TILE_Z_NEUTRAL != 0;
    if layer != SceneDebugLayer::ZPlane {
        None
    } else if ignore_z && neutral {
        Some((7, 5))
    } else if ignore_z {
        Some((5, 5))
    } else if neutral {
        Some((6, 5))
    } else {
        None
    }
}

/// The debug sheet cell of a collision shape.
fn collision_debug_cell(c: SceneTileCollision, inverted: bool) -> (cell: Option<(i32, i32)>)
    ensures
        match cell {
            Some((x, y)) => collision_cell(c, inverted) == Some((x as int, y as int)),
            None => collision_cell(c, inverted) is None,
        },
{
    if inverted {
        match c {
            SceneTileCollision::NoCollision => None,
            SceneTileCollision::Full => None,
            SceneTileCollision::Corner45NW => Some((0, 7)),
            SceneTileCollision::Corner45NE => Some((1, 7)),
            SceneTileCollision::Corner45SW => Some((2, 7)),
            SceneTileCollision::Corner45SE => Some((3, 7)),
            SceneTileCollision::Corner30NW => Some((4, 7)),
            SceneTileCollision::Corner30NE => Some((5, 7)),
            SceneTileCollision::Corner30SW => Some((6, 7)),
            SceneTileCollision::Corner30SE => Some((7, 7)),
            SceneTileCollision::Corner22NW => Some((0, 8)),
            SceneTileCollision::Corner22NE => Some((1, 8)),
            SceneTileCollision::Corner22SW => Some((2, 8)),
            SceneTileCollision::Corner22SE => Some((3, 8)),
            SceneTileCollision::Corner75NW => Some((4, 8)),
            SceneTileCollision::Corner75NE => Some((5, 8)),
            SceneTileCollision::Corner75SW => Some((6, 8)),
            SceneTileCollision::Corner75SE => Some((7, 8)),
            SceneTileCollision::Corner75NWDup => Some((0, 9)),
            SceneTileCollision::Corner75NEDup => Some((1, 9)),
            SceneTileCollision::Corner75SWDup => Some((2, 9)),
            SceneTileCollision::Corner75SEDup => Some((3, 9)),
            SceneTileCollision::StairsSWNE => Some((4, 3)),
            SceneTileCollision::StairsSENW => Some((5, 3)),
            SceneTileCollision::LeftHalf => Some((6, 9)),
            SceneTileCollision::TopHalf => Some((7, 9)),
            SceneTileCollision::SW => Some((0, 10)),
            SceneTileCollision::SE => Some((1, 10)),
            SceneTileCollision::NE => Some((2, 10)),
            SceneTileCollision::NW => Some((3, 10)),
            SceneTileCollision::Ladder => Some((4, 4)),
            SceneTileCollision::Invalid => Some((7, 5)),
        }
    } else {
        match c {
            SceneTileCollision::NoCollision => None,
            SceneTileCollision::Full => Some((7, 0)),
            SceneTileCollision::Corner45NW => Some((0, 1)),
            SceneTileCollision::Corner45NE => Some((1, 1)),
            SceneTileCollision::Corner45SW => Some((2, 1)),
            SceneTileCollision::Corner45SE => Some((3, 1)),
            SceneTileCollision::Corner30NW => Some((4, 1)),
            SceneTileCollision::Corner30NE => Some((5, 1)),
            SceneTileCollision::Corner30SW => Some((6, 1)),
            SceneTileCollision::Corner30SE => Some((7, 1)),
            SceneTileCollision::Corner22NW => Some((0, 2)),
            SceneTileCollision::Corner22NE => Some((1, 2)),
            SceneTileCollision::Corner22SW => Some((2, 2)),
            SceneTileCollision::Corner22SE => Some((3, 2)),
            SceneTileCollision::Corner75NW => Some((4, 2)),
            SceneTileCollision::Corner75NE => Some((5, 2)),
            SceneTileCollision::Corner75SW => Some((6, 2)),
            SceneTileCollision::Corner75SE => Some((7, 2)),
            SceneTileCollision::Corner75NWDup => Some((0, 3)),
            SceneTileCollision::Corner75NEDup => Some((1, 3)),
            SceneTileCollision::Corner75SWDup => Some((2, 3)),
            SceneTileCollision::Corner75SEDup => Some((3, 3)),
            SceneTileCollision::StairsSWNE => Some((4, 3)),
            SceneTileCollision::StairsSENW => Some((5, 3)),
            SceneTileCollision::LeftHalf => Some((6, 3)),
            SceneTileCollision::TopHalf => Some((7, 3)),
            SceneTileCollision::SW => Some((0, 4)),
            SceneTileCollision::SE => Some((1, 4)),
            SceneTileCollision::NE => Some((2, 4)),
            SceneTileCollision::NW => Some((3, 4)),
            SceneTileCollision::Ladder => Some((4, 4)),
            SceneTileCollision::Invalid => Some((7, 5)),
        }
    }
}


/// The debug sheet cell for a tile on a debug layer.
fn debug_tile_cell(layer: SceneDebugLayer, p: &SceneTileProps) -> (cell: Option<(i32, i32)>)
    ensures
        match cell {
            Some((x, y)) => debug_cell(layer, *p) == Some((x as int, y as int)),
            None => debug_cell(layer, *p) is None,
        },
{
    match layer {
        SceneDebugLayer::SpritePriority => {
            let below = SpritePriority::BelowL2AboveL1;
            let above = SpritePriority::AboveAll;
            if p.sprite_priority_top == below && p.sprite_priority_bottom == below {
                Some((6, 10))
            } else if p.sprite_priority_top == below && p.sprite_priority_bottom == above {
                Some((5, 10))
            } else if p.sprite_priority_top == above && p.sprite_priority_bottom == below {
                Some((4, 10))
            } else if p.sprite_priority_top == above && p.sprite_priority_bottom == above {
                Some((7, 10))
            } else {
                None
            }
        },
        SceneDebugLayer::ZPlane => {
            match p.z_plane {
                0 => Some((1, 5)),
                1 => Some((2, 5)),
                2 => Some((3, 5)),
                3 => Some((4, 5)),
                _ => None,
            }
        },
        SceneDebugLayer::NpcCollision => {
            let battle = p.flags & TILE_NPC_COLLISION_BATTLE != 0;
            let npc = p.flags & TILE_NPC_COLLISION != 0;
            if battle && npc {
                Some((2, 0))
            } else if battle {
                Some((4, 0))
            } else if npc {
                Some((3, 0))
            } else {
                None
            }
        },
        SceneDebugLayer::DoorTrigger => {
            if p.flags & TILE_DOOR_TRIGGER != 0 {
                Some((0, 6))
            } else {
                None
            }
        },
        SceneDebugLayer::Movement => {
            if p.move_speed > 0 {
                match p.move_direction {
                    SceneMoveDirection::North => Some((5, 4)),
                    SceneMoveDirection::South => Some((6, 4)),
                    SceneMoveDirection::East => Some((7, 4)),
                    SceneMoveDirection::West => Some((0, 5)),
                }
            } else {
                None
            }
        },
        SceneDebugLayer::PcCollision => collision_debug_cell(p.collision, p.flags & TILE_COLLISION_INVERTED != 0),
        _ => None,
    }
}

/// The debug sheet cell drawn over the first one of a tile.
fn debug_overlay_tile_cell(layer: SceneDebugLayer, p: &SceneTileProps) -> (cell: Option<(i32, i32)>)
    ensures
        match cell {
            Some((x, y)) => debug_overlay_cell(layer, *p) == Some((x as int, y as int)),
            None => debug_overlay_cell(layer, *p) is None,
        },
{
    if layer != SceneDebugLayer::ZPlane {
        return None;
    }
    let ignore_z = p.flags & TILE_COLLISION_IGNORE_Z != 0;
    let neutral = p.flags & TILE_Z_NEUTRAL != 0;
    if ignore_z && neutral {
        Some((7, 5))
    } else if ignore_z {
        Some((5, 5))
    } else if neutral {
        Some((6, 5))
    } else {
        None
    }
}

/// A tile coordinate brought into `0..size`: from 0 on it wraps around by the remainder, below 0
/// it counts down from `size - 1` by the remainder of its magnitude.
pub open spec fn wrapped_tile(t: int, size: int) -> int {
    if t < 0 {
        size - ((-t) % size) - 1
    } else {
        t % size
    }
}

/// Brings a tile coordinate into `0..size` as the debug layer wraps the map.
pub fn wrap_tile(t: i32, size: i32) -> (w: i32)
    requires
        size > 0,
        t > i32::MIN,
    ensures
        w == wrapped_tile(t as int, size as int),
        0 <= w < size,
{
    if t < 0 {
        size - ((-t) % size) - 1
    } else {
        t % size
    }
}

/// One cell of a debug sheet copied to the screen: the cell's pixel position on the sheet and
/// where it goes.
#[derive(Clone, Copy, PartialEq, Eq, Structural, Debug)]
pub struct DebugTileBlit {
    pub src_x: i32,
    pub src_y: i32,
    pub x: i32,
    pub y: i32,
}

/// The copy of a 16 by 16 pixel sheet cell to a screen position.
pub open spec fn cell_blit(cell: (int, int), x: int, y: int) -> DebugTileBlit {
    DebugTileBlit { src_x: (cell.0 * 16) as i32, src_y: (cell.1 * 16) as i32, x: x as i32, y: y as i32 }
}

/// What a tile draws at a screen position: its cell, then its overlay cell, if it has a cell.
pub open spec fn tile_blits(layer: SceneDebugLayer, p: SceneTileProps, x: int, y: int) -> Seq<DebugTileBlit> {
    match debug_cell(layer, p) {
        None => Seq::empty(),
        Some(c) => seq![cell_blit(c, x, y)] + match debug_overlay_cell(layer, p) {
            None => Seq::empty(),
            Some(o) => seq![cell_blit(o, x, y)],
        },
    }
}

/// The properties shown at a tile position of the wrapped map.
pub open spec fn wrapped_props(props: Seq<SceneTileProps>, width: int, height: int, tx: int, ty: int) -> SceneTileProps {
    props[wrapped_tile(tx, width) + wrapped_tile(ty, height) * width]
}

/// What the tiles of row `ty` from `x_from` up to `x_to` draw, left to right, with the camera at
/// pixel `(cam_x, cam_y)`.
pub open spec fn row_blits(
    layer: SceneDebugLayer,
    props: Seq<SceneTileProps>,
    width: int,
    height: int,
    ty: int,
    x_from: int,
    x_to: int,
    cam_x: int,
    cam_y: int,
) -> Seq<DebugTileBlit>
    decreases x_to - x_from,
{
    if x_to <= x_from {
        Seq::empty()
    } else {
        row_blits(layer, props, width, height, ty, x_from, x_to - 1, cam_x, cam_y)
            + tile_blits(layer, wrapped_props(props, width, height, x_to - 1, ty), (x_to - 1) * 16 - cam_x, ty * 16 - cam_y)
    }
}

/// What the rows from `y_from` up to `y_to` draw, top to bottom.
pub open spec fn area_blits(
    layer: SceneDebugLayer,
    props: Seq<SceneTileProps>,
    width: int,
    height: int,
    x_from: int,
    x_to: int,
    y_from: int,
    y_to: int,
    cam_x: int,
    cam_y: int,
) -> Seq<DebugTileBlit>
    decreases y_to - y_from,
{
    if y_to <= y_from {
        Seq::empty()
    } else {
        area_blits(layer, props, width, height, x_from, x_to, y_from, y_to - 1, cam_x, cam_y)
            + row_blits(layer, props, width, height, y_to - 1, x_from, x_to, cam_x, cam_y)
    }
}

pub(crate) proof fn lemma_wrapped_index_fits(xw: int, yw: int, w: int, h: int)
    requires
        0 <= xw < w,
        0 <= yw < h,
    ensures
        0 <= xw + yw * w < w * h,
{
    assert(yw * w <= (h - 1) * w) by (nonlinear_arith)
        requires
            0 <= yw < h,
            w > 0,
    ;
    assert((h - 1) * w + w == w * h) by (nonlinear_arith);
    assert(yw * w >= 0) by (nonlinear_arith)
        requires
            yw >= 0,
            w > 0,
    ;
}

impl SceneRenderer {
    /// The sheet cells that the current debug layer draws for the tiles from `tile1` up to
    /// `tile2`, the map's properties wrapping around, row by row; the camera is at pixel
    /// `(cam_x, cam_y)`.
    pub fn render_debug_layer(&self, props: &ScenePropLayer, tile1: Vec2Di32, tile2: Vec2Di32, cam_x: i32, cam_y: i32) -> (blits: Vec<DebugTileBlit>)
        requires
            tile1.y < tile2.y ==> tile1.y > i32::MIN && 0 < props.height <= i32::MAX,
            tile1.y < tile2.y ==> i32::MIN <= tile1.y * 16 - cam_y && (tile2.y - 1) * 16 - cam_y <= i32::MAX,
            tile1.y < tile2.y ==> i32::MIN <= tile1.y * 16 && (tile2.y - 1) * 16 <= i32::MAX,
            tile1.y < tile2.y && tile1.x < tile2.x ==> {
                &&& tile1.x > i32::MIN
                &&& props.width > 0
                &&& props.width * props.height <= i32::MAX
                &&& props.width * props.height <= props.props@.len()
                &&& i32::MIN <= tile1.x * 16 - cam_x && (tile2.x - 1) * 16 - cam_x <= i32::MAX
                &&& i32::MIN <= tile1.x * 16 && (tile2.x - 1) * 16 <= i32::MAX
            },
        ensures
            blits@ == area_blits(
                self.debug_layer,
                props.props@,
                props.width as int,
                props.height as int,
                tile1.x as int,
                tile2.x as int,
                tile1.y as int,
                tile2.y as int,
                cam_x as int,
                cam_y as int,
            ),
    {
        let layer = self.debug_layer;
        let ghost pr = props.props@;
        let ghost w = props.width as int;
        let ghost h = props.height as int;
        let mut blits: Vec<DebugTileBlit> = Vec::new();
        if tile1.y >= tile2.y {
            return blits;
        }
        let props_height = props.height as i32;
        let mut tile_y = tile1.y;
        while tile_y < tile2.y
            invariant
                tile1.y <= tile_y <= tile2.y,
                tile1.y < tile2.y,
                props_height == h,
                layer == self.debug_layer,
                pr == props.props@,
                w == props.width,
                h == props.height,
                tile1.y > i32::MIN && 0 < props.height <= i32::MAX,
                i32::MIN <= tile1.y * 16 - cam_y && (tile2.y - 1) * 16 - cam_y <= i32::MAX,
                i32::MIN <= tile1.y * 16 && (tile2.y - 1) * 16 <= i32::MAX,
                tile1.x < tile2.x ==> {
                    &&& tile1.x > i32::MIN
                    &&& props.width > 0
                    &&& props.width * props.height <= i32::MAX
                    &&& props.width * props.height <= props.props@.len()
                    &&& i32::MIN <= tile1.x * 16 - cam_x && (tile2.x - 1) * 16 - cam_x <= i32::MAX
                    &&& i32::MIN <= tile1.x * 16 && (tile2.x - 1) * 16 <= i32::MAX
                },
                blits@ == area_blits(layer, pr, w, h, tile1.x as int, tile2.x as int, tile1.y as int, tile_y as int, cam_x as int, cam_y as int),
            decreases tile2.y - tile_y,
        {
            let tile_y_wrap = wrap_tile(tile_y, props_height);
            let ghost before_row = blits@;
            let mut tile_x = tile1.x;
            if tile1.x < tile2.x {
                assert(props.width <= props.width * props.height) by (nonlinear_arith)
                    requires
                        props.height > 0,
                ;
                let props_width = props.width as i32;
                while tile_x < tile2.x
                    invariant
                        tile1.x <= tile_x <= tile2.x,
                        tile1.y <= tile_y < tile2.y,
                        props_width == w,
                        props_height == h,
                        tile_y_wrap == wrapped_tile(tile_y as int, h),
                        0 <= tile_y_wrap < h,
                        layer == self.debug_layer,
                        pr == props.props@,
                        w == props.width,
                        h == props.height,
                        tile1.x > i32::MIN,
                        props.width > 0,
                        props.width * props.height <= i32::MAX,
                        props.width * props.height <= props.props@.len(),
                        i32::MIN <= tile1.x * 16 - cam_x && (tile2.x - 1) * 16 - cam_x <= i32::MAX,
                        i32::MIN <= tile1.x * 16 && (tile2.x - 1) * 16 <= i32::MAX,
                        i32::MIN <= tile1.y * 16 - cam_y && (tile2.y - 1) * 16 - cam_y <= i32::MAX,
                        i32::MIN <= tile1.y * 16 && (tile2.y - 1) * 16 <= i32::MAX,
                        blits@ == before_row + row_blits(layer, pr, w, h, tile_y as int, tile1.x as int, tile_x as int, cam_x as int, cam_y as int),
                    decreases tile2.x - tile_x,
                {
                    let tile_x_wrap = wrap_tile(tile_x, props_width);
                    proof {
                        lemma_wrapped_index_fits(tile_x_wrap as int, tile_y_wrap as int, w, h);
                    }
                    let tile_offset = (tile_x_wrap + tile_y_wrap * props_width) as usize;
                    let tile = &props.props[tile_offset];
                    let ghost prev = blits@;
                    match debug_tile_cell(layer, tile) {
                        Some((src_x, src_y)) => {
                            let px = tile_x * 16 - cam_x;
                            let py = tile_y * 16 - cam_y;
                            blits.push(DebugTileBlit { src_x: src_x * 16, src_y: src_y * 16, x: px, y: py });
                            match debug_overlay_tile_cell(layer, tile) {
                                Some((over_x, over_y)) => {
                                    blits.push(DebugTileBlit { src_x: over_x * 16, src_y: over_y * 16, x: px, y: py });
                                },
                                None => {},
                            }
                        },
                        None => {},
                    }
                    assert(blits@ == prev + tile_blits(layer, wrapped_props(pr, w, h, tile_x as int, tile_y as int), tile_x * 16 - cam_x, tile_y * 16 - cam_y));
                    tile_x = tile_x + 1;
                }
            }
            assert(blits@ == before_row + row_blits(layer, pr, w, h, tile_y as int, tile1.x as int, tile2.x as int, cam_x as int, cam_y as int));
            tile_y = tile_y + 1;
        }
        blits
    }
}

/// The pixel position of the cell that shows an actor's debug state on the debug sprite sheet;
/// `None` where no state is shown.
pub fn debug_sprite_source(sprite: DebugSprite) -> (src: Option<(i32, i32)>)
    ensures
        src == match sprite {
            DebugSprite::Moving => Some((0i32, 0i32)),
            DebugSprite::Waiting => Some((8i32, 0i32)),
            DebugSprite::Animating => Some((16i32, 0i32)),
            DebugSprite::Hidden => None::<(i32, i32)>,
        },
{
    match sprite {
        DebugSprite::Moving => Some((0, 0)),
        DebugSprite::Waiting => Some((8, 0)),
        DebugSprite::Animating => Some((16, 0)),
        DebugSprite::Hidden => None,
    }
}


/// The color of the debug boxes over exits.
pub const DEBUG_EXIT_COLOR: Color = [255, 0, 255, 127];

/// The color of the debug boxes over treasure.
pub const DEBUG_TREASURE_COLOR: Color = [0, 255, 0, 127];

/// Whether an exit's box, moved by the camera, fits the screen's integer range.
pub open spec fn exit_box_fits(e: SceneExit, cam: Vec2Di32) -> bool {
    &&& i32::MIN <= e.pos.x - cam.x <= i32::MAX
    &&& i32::MIN <= e.pos.y - cam.y <= i32::MAX
    &&& i32::MIN <= e.pos.x - cam.x + e.size.x <= i32::MAX
    &&& i32::MIN <= e.pos.y - cam.y + e.size.y <= i32::MAX
}

/// The screen box of an exit with the camera at `cam`.
pub open spec fn exit_box(e: SceneExit, cam: Vec2Di32) -> Rect {
    Rect {
        x1: (e.pos.x - cam.x) as i32,
        y1: (e.pos.y - cam.y) as i32,
        x2: (e.pos.x - cam.x + e.size.x) as i32,
        y2: (e.pos.y - cam.y + e.size.y) as i32,
    }
}

/// The boxes that the exits debug layer draws, one per exit in order.
pub fn debug_exit_boxes(exits: &Vec<SceneExit>, cam: Vec2Di32) -> (boxes: Vec<Rect>)
    requires
        forall|i: int| 0 <= i < exits@.len() ==> exit_box_fits(#[trigger] exits@[i], cam),
    ensures
        boxes@.len() == exits@.len(),
        forall|i: int| 0 <= i < exits@.len() ==> #[trigger] boxes@[i] == exit_box(exits@[i], cam),
{
    let mut boxes: Vec<Rect> = Vec::with_capacity(exits.len());
    let mut i: usize = 0;
    while i < exits.len()
        invariant
            i <= exits@.len(),
            boxes@.len() == i,
            forall|k: int| 0 <= k < exits@.len() ==> exit_box_fits(#[trigger] exits@[k], cam),
            forall|k: int| 0 <= k < i ==> #[trigger] boxes@[k] == exit_box(exits@[k], cam),
        decreases exits@.len() - i,
    {
        let exit = &exits[i];
        assert(exit_box_fits(exits@[i as int], cam));
        let x = exit.pos.x - cam.x;
        let y = exit.pos.y - cam.y;
        boxes.push(Rect::new(x, y, x + exit.size.x, y + exit.size.y));
        i = i + 1;
    }
    boxes
}

/// Whether a treasure's box, moved by the camera, fits the screen's integer range.
pub open spec fn treasure_box_fits(t: SceneTreasure, cam: Vec2Di32) -> bool {
    &&& i32::MIN <= t.tile_x * 16 - cam.x && t.tile_x * 16 - cam.x + 16 <= i32::MAX
    &&& i32::MIN <= t.tile_y * 16 - cam.y && t.tile_y * 16 - cam.y + 16 <= i32::MAX
    &&& i32::MIN <= t.tile_x * 16 <= i32::MAX
    &&& i32::MIN <= t.tile_y * 16 <= i32::MAX
}

/// The screen box of a treasure's tile with the camera at `cam`.
pub open spec fn treasure_box(t: SceneTreasure, cam: Vec2Di32) -> Rect {
    Rect {
        x1: (t.tile_x * 16 - cam.x) as i32,
        y1: (t.tile_y * 16 - cam.y) as i32,
        x2: (t.tile_x * 16 - cam.x + 16) as i32,
        y2: (t.tile_y * 16 - cam.y + 16) as i32,
    }
}

/// The boxes that the treasure debug layer draws, one per treasure in order.
pub fn debug_treasure_boxes(treasure: &Vec<SceneTreasure>, cam: Vec2Di32) -> (boxes: Vec<Rect>)
    requires
        forall|i: int| 0 <= i < treasure@.len() ==> treasure_box_fits(#[trigger] treasure@[i], cam),
    ensures
        boxes@.len() == treasure@.len(),
        forall|i: int| 0 <= i < treasure@.len() ==> #[trigger] boxes@[i] == treasure_box(treasure@[i], cam),
{
    let mut boxes: Vec<Rect> = Vec::with_capacity(treasure.len());
    let mut i: usize = 0;
    while i < treasure.len()
        invariant
            i <= treasure@.len(),
            boxes@.len() == i,
            forall|k: int| 0 <= k < treasure@.len() ==> treasure_box_fits(#[trigger] treasure@[k], cam),
            forall|k: int| 0 <= k < i ==> #[trigger] boxes@[k] == treasure_box(treasure@[k], cam),
        decreases treasure@.len() - i,
    {
        let item = &treasure[i];
        assert(treasure_box_fits(treasure@[i as int], cam));
        let x = item.tile_x * 16 - cam.x;
        let y = item.tile_y * 16 - cam.y;
        boxes.push(Rect::new(x, y, x + 16, y + 16));
        i = i + 1;
    }
    boxes
}


proof fn lemma_row_blits_empty(layer: SceneDebugLayer, props: Seq<SceneTileProps>, w: int, h: int, ty: int, x_from: int, x_to: int, cam_x: int, cam_y: int)
    requires
        forall|p: SceneTileProps| #[trigger] debug_cell(layer, p) is None,
    ensures
        row_blits(layer, props, w, h, ty, x_from, x_to, cam_x, cam_y).len() == 0,
    decreases x_to - x_from,
{
    if x_to > x_from {
        lemma_row_blits_empty(layer, props, w, h, ty, x_from, x_to - 1, cam_x, cam_y);
        assert(debug_cell(layer, wrapped_props(props, w, h, x_to - 1, ty)) is None);
    }
}

/// The overlays of exits, treasure and actors, and no overlay at all, draw no tile cells.
pub proof fn law_non_tile_layers_draw_no_cells(
    layer: SceneDebugLayer,
    props: Seq<SceneTileProps>,
    w: int,
    h: int,
    x_from: int,
    x_to: int,
    y_from: int,
    y_to: int,
    cam_x: int,
    cam_y: int,
)
    requires
        layer == SceneDebugLayer::Disabled || layer == SceneDebugLayer::Exits || layer == SceneDebugLayer::Treasure
            || layer == SceneDebugLayer::Actors,
    ensures
        area_blits(layer, props, w, h, x_from, x_to, y_from, y_to, cam_x, cam_y).len() == 0,
    decreases y_to - y_from,
{
    if y_to > y_from {
        law_non_tile_layers_draw_no_cells(layer, props, w, h, x_from, x_to, y_from, y_to - 1, cam_x, cam_y);
        lemma_row_blits_empty(layer, props, w, h, y_to - 1, x_from, x_to, cam_x, cam_y);
    }
}

} // verus!
