use ctviewer::actor::DebugSprite;
use ctviewer::scene::scene_map::{
    ScenePropLayer, SceneMoveDirection, SceneTileCollision, SceneTileProps, TILE_COLLISION_IGNORE_Z,
    TILE_COLLISION_INVERTED, TILE_DOOR_TRIGGER,
};
use ctviewer::scene::scene_renderer::{debug_sprite_source, wrap_tile, DebugTileBlit, SceneDebugLayer, SceneRenderer};
use ctviewer::sprites::SpritePriority;
use ctviewer::surface::Surface;
use ctviewer::util::vec2di32::Vec2Di32;

fn props(flags: u32, collision: SceneTileCollision, z_plane: u32) -> SceneTileProps {
    SceneTileProps {
        flags,
        collision,
        sprite_priority_top: SpritePriority::BelowL2AboveL1,
        sprite_priority_bottom: SpritePriority::AboveAll,
        z_plane,
        move_direction: SceneMoveDirection::West,
        move_speed: 1,
    }
}

fn renderer(layer: SceneDebugLayer) -> SceneRenderer {
    let mut r = SceneRenderer::new(Surface::new(1, 1), Surface::new(1, 1));
    r.debug_layer = layer;
    r
}

#[test]
fn tiles_wrap_around_the_map() {
    assert_eq!(wrap_tile(5, 4), 1);
    assert_eq!(wrap_tile(0, 4), 0);
    assert_eq!(wrap_tile(-1, 4), 2);
    assert_eq!(wrap_tile(-4, 4), 3);
}

#[test]
fn collision_cells_differ_when_inverted() {
    let layer = ScenePropLayer {
        width: 2,
        height: 1,
        props: vec![props(0, SceneTileCollision::Corner30SE, 0), props(TILE_COLLISION_INVERTED, SceneTileCollision::Corner30SE, 0)],
    };
    let blits = renderer(SceneDebugLayer::PcCollision).render_debug_layer(&layer, Vec2Di32 { x: 0, y: 0 }, Vec2Di32 { x: 2, y: 1 }, 4, 2);
    assert_eq!(blits, vec![
        DebugTileBlit { src_x: 7 * 16, src_y: 16, x: -4, y: -2 },
        DebugTileBlit { src_x: 7 * 16, src_y: 7 * 16, x: 12, y: -2 },
    ]);
}

#[test]
fn z_plane_tiles_get_an_overlay() {
    let layer = ScenePropLayer { width: 1, height: 1, props: vec![props(TILE_COLLISION_IGNORE_Z, SceneTileCollision::NoCollision, 2)] };
    let blits = renderer(SceneDebugLayer::ZPlane).render_debug_layer(&layer, Vec2Di32 { x: 0, y: 0 }, Vec2Di32 { x: 2, y: 1 }, 0, 0);
    assert_eq!(blits, vec![
        DebugTileBlit { src_x: 48, src_y: 80, x: 0, y: 0 },
        DebugTileBlit { src_x: 80, src_y: 80, x: 0, y: 0 },
        DebugTileBlit { src_x: 48, src_y: 80, x: 16, y: 0 },
        DebugTileBlit { src_x: 80, src_y: 80, x: 16, y: 0 },
    ]);
}

#[test]
fn other_layers() {
    let layer = ScenePropLayer { width: 1, height: 1, props: vec![props(TILE_DOOR_TRIGGER, SceneTileCollision::NoCollision, 9)] };
    let origin = Vec2Di32 { x: 0, y: 0 };
    let one = Vec2Di32 { x: 1, y: 1 };
    assert_eq!(renderer(SceneDebugLayer::DoorTrigger).render_debug_layer(&layer, origin, one, 0, 0)[0].src_y, 96);
    assert_eq!(renderer(SceneDebugLayer::Movement).render_debug_layer(&layer, origin, one, 0, 0)[0].src_y, 80);
    assert_eq!(renderer(SceneDebugLayer::SpritePriority).render_debug_layer(&layer, origin, one, 0, 0)[0].src_x, 80);
    assert!(renderer(SceneDebugLayer::ZPlane).render_debug_layer(&layer, origin, one, 0, 0).is_empty());
    assert!(renderer(SceneDebugLayer::Exits).render_debug_layer(&layer, origin, one, 0, 0).is_empty());
    assert!(renderer(SceneDebugLayer::PcCollision).render_debug_layer(&layer, origin, one, 0, 0).is_empty());
}

#[test]
fn debug_sprites() {
    assert_eq!(debug_sprite_source(DebugSprite::Waiting), Some((8, 0)));
    assert_eq!(debug_sprite_source(DebugSprite::Hidden), None);
}
