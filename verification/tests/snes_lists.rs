use ctviewer::filesystem::backend_snes::{Entry, FileSystemBackendSnes};
use ctviewer::filesystem::sprite::read_sprite_animations;
use ctviewer::filesystem::strings::{read_item_names, world_names_in_order};
use ctviewer::filesystem::text_decoder::TextDecoder;

fn entry(address: usize, length: usize) -> Entry {
    Entry { address, length }
}

fn backend(data: Vec<u8>) -> FileSystemBackendSnes {
    FileSystemBackendSnes {
        data,
        text_decoder: TextDecoder { words: Vec::new() },
        world_header_entries: Vec::new(),
        world_map_tile_entries: Vec::new(),
        world_map_props_entries: Vec::new(),
        world_tileset_entries: Vec::new(),
        world_tileset12_assembly_entries: Vec::new(),
        world_tileset3_assembly_entries: Vec::new(),
        world_music_entries: Vec::new(),
        world_exit_entries: Vec::new(),
        world_sprite_entries: Vec::new(),
        world_palette_entries: Vec::new(),
        scene_map_entries: Vec::new(),
        scene_tileset_entries: Vec::new(),
        scene_tileset12_assembly_entries: Vec::new(),
        scene_tileset12_animation_entries: Vec::new(),
        scene_tileset3_assembly_entries: Vec::new(),
        scene_exit_entries: Vec::new(),
        sprite_entries: Vec::new(),
        sprite_assembly_entries: Vec::new(),
        sprite_anim_frame_entries: vec![entry(0x100, 0), entry(0x108, 0), entry(0x120, 0)],
        sprite_anim_duration_entries: vec![entry(0x200, 0), entry(0x204, 0)],
        sprite_palette_entries: vec![entry(0, 0), entry(0x300, 24)],
        sprite_anim_frame_data_entry: entry(0x10, 4),
        sprite_anim_duration_data_entry: entry(0x20, 2),
    }
}

#[test]
fn string_lists_follow_pointers_within_the_bank() {
    let mut data = vec![0u8; 0x20000];
    // Two pointers at 0x10010, relative to the bank at 0x10000.
    data[0x10010] = 0x00;
    data[0x10011] = 0x01;
    data[0x10012] = 0x80;
    data[0x10013] = 0x01;
    data[0x10100..0x10103].copy_from_slice(&[0xA0, 0xA1, 0x00]);
    data[0x10180..0x10182].copy_from_slice(&[0xA2, 0x00]);
    let b = backend(data);
    assert_eq!(b.read_string_list(0x10010, 2), vec!["AB".to_string(), "C".to_string()]);
}

#[test]
fn item_names_take_eleven_bytes_each() {
    let decoder = TextDecoder { words: Vec::new() };
    let mut data = vec![0xEFu8; 23];
    data[0] = 0xA0;
    data[11] = 0xA1;
    data[12] = 0xA2;
    assert_eq!(read_item_names(&decoder, &data), vec!["A".to_string(), "BC".to_string()]);
}

#[test]
fn world_names_repeat_the_fifth() {
    let names: Vec<String> = ["a", "b", "c", "d", "e", "f"].iter().map(|s| s.to_string()).collect();
    let ordered = world_names_in_order(&names);
    assert_eq!(ordered, vec!["a", "b", "c", "d", "e", "e", "e", "f"]);
}

#[test]
fn sprite_animation_pointers_are_relative_to_the_first() {
    let mut data = vec![0u8; 0x400];
    data[0x10..0x14].copy_from_slice(&[1, 2, 3, 4]);
    data[0x20] = 9;
    let b = backend(data);
    let (frames, frame_data, durations, duration_data) = b.get_sprite_animation_data();
    assert_eq!(frames, vec![0, 8, 0x20]);
    assert_eq!(durations, vec![0, 4]);
    assert_eq!(frame_data, vec![1, 2, 3, 4]);
    assert_eq!(duration_data, vec![9, 0]);
}

#[test]
fn sprite_palettes_are_missing_at_address_zero() {
    let mut data = vec![0u8; 0x400];
    data[0x300] = 0x1F;
    let b = backend(data);
    assert!(b.get_sprite_palette(0).is_none());
    let p = b.get_sprite_palette(1).unwrap();
    assert_eq!(p.colors.len(), 16);
    assert_eq!(p.colors[0], [0, 0, 0, 0xFF]);
    assert_eq!(p.colors[1][0], 255);
}

#[test]
fn sprite_header_data_is_five_or_ten_bytes() {
    let mut data = vec![0u8; 0x250000];
    data[0x24F000 + 5] = 7;
    data[0x24F600 + 10] = 8;
    let b = backend(data);
    let h = b.get_sprite_header_data(1);
    assert_eq!(h.len(), 5);
    assert_eq!(h[0], 7);
    let e = b.get_sprite_header_data(257);
    assert_eq!(e.len(), 10);
    assert_eq!(e[0], 8);
}

#[test]
fn sprite_animation_sets_split_by_pointers() {
    // One set with 16 bytes of slot data: 4 bytes per direction, so one animation.
    let slot_ptrs = vec![0usize, 16];
    let mut slots = vec![0u8; 16];
    for facing in 0..4 {
        slots[facing * 4] = (facing * 10) as u8;
        slots[facing * 4 + 1] = (facing * 10 + 1) as u8;
    }
    let interval_ptrs = vec![0usize];
    let intervals = vec![3u8, 5, 0, 0];
    let sets = read_sprite_animations(&slot_ptrs, &slots, &interval_ptrs, &intervals);
    assert_eq!(sets.len(), 1);
    assert_eq!(sets[0].index, 0);
    assert_eq!(sets[0].anims.len(), 1);
    let frames = &sets[0].anims[0].frames;
    assert_eq!(frames.len(), 2);
    assert_eq!(frames[0].sprite_frames, [0, 10, 20, 30]);
    assert_eq!(frames[1].sprite_frames, [1, 11, 21, 31]);
    assert_eq!(frames[0].delay, 3);
    assert_eq!(frames[1].delay, 5);
}

#[test]
fn sprite_animation_count_rounds_up() {
    // 20 bytes: 5 per direction, so two animations, the second in part.
    let slot_ptrs = vec![0usize, 20];
    let slots = vec![0u8; 20];
    let interval_ptrs = vec![0usize];
    let intervals = vec![0u8; 8];
    let sets = read_sprite_animations(&slot_ptrs, &slots, &interval_ptrs, &intervals);
    assert_eq!(sets[0].anims.len(), 2);
    assert_eq!(sets[0].anims[1].frames.len(), 0);
}
