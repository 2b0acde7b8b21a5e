use ctviewer::filesystem::backend_pc::{
    read_palette_file, remove_string_list_keys, scene_exit_range, treasure_offsets, unpack_4bpp_graphics,
    world_sprite_bitmap_name, FileSystemBackendPc, FileSystemBackendPcMode,
};

#[test]
fn four_bit_pixels_unpack_high_nibble_first() {
    assert_eq!(unpack_4bpp_graphics(&vec![0x12, 0xAB]), vec![1, 2, 10, 11]);
}

#[test]
fn string_list_keys_are_removed_at_the_first_comma() {
    let lines = vec!["A,Alpha".to_string(), "key,with,commas".to_string(), ",".to_string()];
    assert_eq!(remove_string_list_keys(&lines), vec!["Alpha".to_string(), "with,commas".to_string(), String::new()]);
}

#[test]
fn scene_exit_ranges_come_from_offsets() {
    // Two scenes: offsets 0 and 2 (in 8 byte exits) after a 4 byte header.
    let offsets = vec![2, 0, 0, 0, 0, 0, 2, 0];
    assert_eq!(scene_exit_range(&offsets, 100, 0), (4, 16));
    assert_eq!(scene_exit_range(&offsets, 100, 1), (20, 80));
}

#[test]
fn treasure_offsets_repeat_the_last() {
    let offsets = vec![2, 0, 0, 0, 0, 0, 3, 0];
    assert_eq!(treasure_offsets(&offsets), vec![4, 22, 22]);
}

#[test]
fn pc_palette_files_hold_256_colors_after_a_header() {
    let mut data = vec![0u8; 514];
    data[2] = 0xE0;
    data[3] = 0x03;
    let p = read_palette_file(&data);
    assert_eq!(p.colors.len(), 256);
    assert_eq!(p.colors[0], [0, 255, 0, 255]);
    assert_eq!(p.colors[1], [0, 0, 0, 255]);
}

#[test]
fn world_sprite_bitmaps_by_set() {
    assert_eq!(world_sprite_bitmap_name(0, 0), Some("Game/common/worldChara.bmp".to_string()));
    assert_eq!(world_sprite_bitmap_name(3, 7), Some("Game/world/gif/3_wboa.bmp".to_string()));
    assert_eq!(world_sprite_bitmap_name(0, 6), None);
    assert_eq!(world_sprite_bitmap_name(0, 14), None);
}

#[test]
fn pc_backend_in_directory_mode_has_no_archive() {
    let b = FileSystemBackendPc::new("data".to_string(), FileSystemBackendPcMode::FileSystem, None);
    assert_eq!(b.mode, FileSystemBackendPcMode::FileSystem);
    assert!(b.resources.is_none());
    assert_eq!(b.base_path, "data");
}
