use ctviewer::assets::Assets;
use ctviewer::filesystem::sprite::{parse_snes_sprite_assembly, read_sprite_header, snes_assembly_layout};
use ctviewer::sprites::{CHIP_FLIP_X, CHIP_FLIP_Y, CHIP_IS_BOTTOM, CHIP_IS_TOP};
use ctviewer::GameMode;

#[test]
fn snes_assembly_layouts_follow_the_size_flags() {
    assert_eq!(snes_assembly_layout(0), (1, 4));
    assert_eq!(snes_assembly_layout(1), (1, 8));
    assert_eq!(snes_assembly_layout(2), (3, 4));
    assert_eq!(snes_assembly_layout(7), (3, 8));
}

#[test]
fn snes_assembly_frames() {
    // One group of one tile: four chip words, then the tile's offsets.
    let data = vec![
        0x11, 0x40, // chip 0x11, flipped horizontally: upper left
        0x12, 0x00, // upper right
        0x21, 0x80, // chip 0x21, flipped vertically: lower left
        0x22, 0x03, // chip 0x322: lower right
        0xF8, 0xE0, // offsets -8, -32: the top of the sprite
    ];
    let (assembly, frames) = parse_snes_sprite_assembly(5, 1, 1, &data);
    assert_eq!(assembly.index, 5);
    assert_eq!(assembly.frame_keys.len(), 1);
    assert_eq!(assembly.chip_max, 0x322);
    let key = Assets::asset_key_sprite_assembly_frame_scene(5, 0);
    assert_eq!(assembly.frame_keys[0], key);
    let chips = &frames[&key].chips;
    assert_eq!(chips.len(), 4);
    assert_eq!((chips[0].src_index, chips[0].x, chips[0].y), (0x11, -8, -32));
    assert_eq!((chips[0].src_x, chips[0].src_y), (8, 8));
    assert_eq!(chips[0].flags, CHIP_FLIP_X | CHIP_IS_TOP);
    assert_eq!((chips[1].x, chips[1].y), (0, -32));
    assert_eq!((chips[2].x, chips[2].y), (-8, -24));
    assert_eq!(chips[2].flags, CHIP_FLIP_Y | CHIP_IS_TOP);
    assert_eq!(chips[3].src_index, 0x322);
    assert_eq!((chips[3].width, chips[3].height), (8, 8));
}

#[test]
fn low_tiles_are_the_bottom_and_partial_frames_are_ignored() {
    let mut data = vec![0u8; 10];
    data[9] = 0x00;
    data.push(0xAA);
    let (assembly, frames) = parse_snes_sprite_assembly(0, 1, 1, &data);
    assert_eq!(assembly.frame_keys.len(), 1);
    let key = Assets::asset_key_sprite_assembly_frame_scene(0, 0);
    assert_eq!(frames[&key].chips[0].flags, CHIP_IS_BOTTOM);
}

#[test]
fn sprite_headers() {
    let snes = read_sprite_header(&vec![1, 2, 3, 4, 5], GameMode::Snes, 9);
    assert_eq!((snes.bitmap_index, snes.assembly_index, snes.palette_index, snes.anim_index, snes.size_flags), (1, 2, 3, 4, 5));
    assert_eq!(snes.index, 9);
    let pc = read_sprite_header(&vec![0, 0, 0, 2, 7, 1], GameMode::Pc, 9);
    assert_eq!((pc.bitmap_index, pc.size_flags, pc.anim_index, pc.flags), (9, 2, 7, 1));
}
