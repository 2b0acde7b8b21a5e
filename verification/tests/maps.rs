use ctviewer::filesystem::maps::{
    decode_scene_layer_scroll_speed, layer_size, parse_scene_tile_props, read_scene_map_tile_props, read_world_map,
};
use ctviewer::map::{LayerScrollMode, MapChip, SCREEN_L3_MAIN, SCREEN_L3_SUB};
use ctviewer::reader::ByteReader;
use ctviewer::scene::scene_map::{
    SceneMoveDirection, SceneTileCollision, SceneTileProps, TILE_DOOR_TRIGGER, TILE_L1_TILE_ADD, TILE_NPC_COLLISION,
    TILE_RLE_COMPRESSED,
};
use ctviewer::sprites::SpritePriority;
use ctviewer::tileset::{Tile, TileSet};
use ctviewer::world::world_map::{WORLD_CHIP_BLOCK_WALK, WORLD_CHIP_HAS_EXIT};

#[test]
fn tile_properties_from_three_bytes() {
    let p = parse_scene_tile_props([0x01 | (9 << 2), 0x10 | 0x40 | 0x04 | 0x03, 0x80 | 0x02]);
    assert_eq!(p.collision, SceneTileCollision::Corner30SE);
    assert_eq!(p.flags, TILE_L1_TILE_ADD | TILE_DOOR_TRIGGER | TILE_NPC_COLLISION);
    assert_eq!(p.sprite_priority_top, SpritePriority::AboveAll);
    assert_eq!(p.sprite_priority_bottom, SpritePriority::BelowL2AboveL1);
    assert_eq!(p.move_speed, 1);
    assert_eq!(p.move_direction, SceneMoveDirection::West);
    assert_eq!(p.z_plane, 2);
}

#[test]
fn coded_tile_properties_repeat_and_are_fitted() {
    // One entry repeated three times, one single entry, then padding to 16 by 16 tiles.
    let data = vec![0x80, 0x00, 0x00, 3, 0x04, 0x00, 0x00];
    let mut r = ByteReader::new(data);
    let props = read_scene_map_tile_props(16, 16, &mut r);
    assert_eq!(props.len(), 256);
    assert_eq!(props[0].flags, TILE_RLE_COMPRESSED);
    assert_eq!(props[2].flags, TILE_RLE_COMPRESSED);
    assert_eq!(props[3].collision, SceneTileCollision::Full);
    assert_eq!(props[4], SceneTileProps::default());
}

#[test]
fn scroll_speeds_in_quarter_pixels() {
    assert_eq!(decode_scene_layer_scroll_speed(0x93), (60, -15));
    assert_eq!(decode_scene_layer_scroll_speed(0x07), (960, 0));
    assert_eq!(layer_size(0x00, 0), 16);
    assert_eq!(layer_size(0x03, 0), 64);
}

fn tileset(count: usize) -> TileSet {
    let mut tiles = Vec::new();
    for i in 0..count {
        let chip = MapChip { chip: i, flags: 0, palette: 0 };
        tiles.push(Tile { corners: [chip, chip, chip, chip] });
    }
    TileSet { index: 0, index_assembly: 0, tiles, chip_bitmaps: Vec::new(), animated_chip_bitmaps: Vec::new(), chip_anims: Vec::new() }
}

#[test]
fn world_maps() {
    let mut map_data = vec![0u8; 2 * 6144];
    map_data[0] = 5;
    map_data[6144] = 1;
    let mut props = vec![0u8; 0x200];
    // Layer 2 tile 0 is tileset tile 257: its properties are bytes 2 and 3.
    props[2] = 0x14;
    props[3] = 0x00;
    let mut music = vec![0u8; 3072];
    music[0] = 0x37;
    let (world_map, map) = read_world_map(2, &map_data, &props, &music, &tileset(600), &tileset(600));
    assert_eq!((world_map.width, world_map.height), (192, 128));
    assert_eq!(world_map.chips[0].flags, WORLD_CHIP_BLOCK_WALK);
    assert_eq!(world_map.chips[1].flags, WORLD_CHIP_HAS_EXIT);
    assert_eq!(world_map.chips[0].music, 3);
    assert_eq!(world_map.chips[2].music, 7);
    assert_eq!(world_map.chips[192].music, 3);
    assert_eq!(map.layers[0].tiles[0], 5);
    assert_eq!(map.layers[1].tiles[0], 257);
    assert_eq!(map.layers[0].chips[0].chip, 5);
    assert_eq!(map.layers[2].tiles[16], 256);
    assert_eq!(map.layers[2].tiles[32], 16);
    assert_ne!(map.screen_flags & SCREEN_L3_MAIN, 0);
    assert_eq!(map.screen_flags & SCREEN_L3_SUB, 0);
    assert_eq!(map.layers[2].scroll_speed, (0, 0));
    assert_eq!(map.layers[2].scroll_mode, LayerScrollMode::Normal);
    assert_eq!(map.layer_priorities, [3, 2, 2, 1]);
    let (_, map0) = read_world_map(0, &map_data, &props, &music, &tileset(600), &tileset(600));
    assert_eq!(map0.layers[2].scroll_speed, (-64, 32));
    assert_ne!(map0.screen_flags & SCREEN_L3_SUB, 0);
}
