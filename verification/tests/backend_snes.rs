use ctviewer::filesystem::backend_snes::{
    calculate_entry_sizes, calculate_ordered_entry_sizes, convert_planar_chips_to_linear, find_rom_header, get_entries,
    get_local_entries, get_relative_entries, read_palette, slice_bytes, Entry, FileSystemBackendSnes, SnesRomError,
};

fn entry(address: usize) -> Entry {
    Entry { address, length: 0 }
}

#[test]
fn entry_sizes_reach_the_next_entry_above() {
    let mut entries = vec![entry(30), entry(10), entry(20), entry(10)];
    calculate_entry_sizes(&mut entries, 50);
    let lengths: Vec<usize> = entries.iter().map(|e| e.length).collect();
    assert_eq!(lengths, vec![20, 10, 10, 10]);
}

#[test]
fn ordered_entry_sizes_leave_the_last_one_empty() {
    let mut entries = vec![entry(10), entry(15), entry(40)];
    calculate_ordered_entry_sizes(&mut entries, 100);
    let lengths: Vec<usize> = entries.iter().map(|e| e.length).collect();
    assert_eq!(lengths, vec![5, 25, 0]);
}

#[test]
fn long_pointers_count_from_bank_c0() {
    // Two pointers: 0xC1:0x0010 and a zero pointer.
    let data = vec![0x10, 0x00, 0xC1, 0x00, 0x00, 0x00];
    let entries = get_entries(&data, 0, 2, 0x10100);
    assert_eq!(entries[0].address, 0x10010);
    assert_eq!(entries[0].length, 0xF0);
    assert_eq!(entries[1].address, 0);
    assert_eq!(entries[1].length, 0x10010);
}

#[test]
fn local_and_relative_pointers() {
    let mut data = vec![0u8; 0x10010];
    data[0x10000] = 0x20;
    data[0x10001] = 0x00;
    data[0x10002] = 0x30;
    data[0x10003] = 0x00;
    let local = get_local_entries(&data, 0x10000, 2, 0x10040, false);
    assert_eq!((local[0].address, local[0].length), (0x10020, 0x10));
    assert_eq!((local[1].address, local[1].length), (0x10030, 0x10));
    let ordered = get_local_entries(&data, 0x10000, 2, 0x10040, true);
    assert_eq!((ordered[0].length, ordered[1].length), (0x10, 0));
    let relative = get_relative_entries(&data, 0x10000, 2, 0x100, 0x140);
    assert_eq!((relative[0].address, relative[0].length), (0x120, 0x10));
    assert_eq!((relative[1].address, relative[1].length), (0x130, 0x10));
}

#[test]
fn palette_sets_have_black_padding() {
    // One stored color, pure red (0x001F), then pure blue (0x7C00).
    let data = vec![0x1F, 0x00, 0x00, 0x7C];
    let p = read_palette(&data, 1, 1, 2, 1, 1);
    let black = [0, 0, 0, 0xFF];
    assert_eq!(p.colors, vec![black, black, [255, 0, 0, 255], black, black, [0, 0, 255, 255], black]);
}

#[test]
fn planar_chips_become_linear_pixels() {
    // One 2 bitplane chip: row 0 has plane 0 bits 10000000 and plane 1 bits 11000000.
    let mut data = vec![0u8; 16];
    data[0] = 0x80;
    data[1] = 0xC0;
    let pixels = convert_planar_chips_to_linear(&data, 2);
    assert_eq!(pixels.len(), 128 * 8);
    assert_eq!(pixels[0], 3);
    assert_eq!(pixels[1], 2);
    assert_eq!(pixels[2], 0);
    assert_eq!(pixels[8], 0);
    // Four bitplanes: planes 2 and 3 follow after 16 bytes.
    let mut data4 = vec![0u8; 32];
    data4[16 + 2] = 0x01;
    data4[16 + 3] = 0x01;
    let pixels4 = convert_planar_chips_to_linear(&data4, 4);
    assert_eq!(pixels4[128 + 7], 12);
    assert_eq!(pixels4[128 + 6], 0);
}

fn rom_with_title_at(len: usize, at: usize, title: &[u8]) -> Vec<u8> {
    let mut data = vec![0u8; len];
    data[at..at + title.len()].copy_from_slice(title);
    data
}

#[test]
fn rom_header_is_found_with_or_without_copier_header() {
    let title = b"CHRONO TRIGGER       ";
    let with_copier = rom_with_title_at(0x10200, 0x101C0, title);
    assert_eq!(find_rom_header(&with_copier), Some(0x101C0));
    // Valid UTF-8 at 0x101C0 that is not the title: the second place is not looked at.
    let plain = rom_with_title_at(0x10200, 0xFFC0, title);
    assert_eq!(find_rom_header(&plain), None);
    // Invalid UTF-8 at 0x101C0 lets the title at 0xFFC0 count.
    let mut second = rom_with_title_at(0x10200, 0xFFC0, title);
    second[0x101C0] = 0xFF;
    assert_eq!(find_rom_header(&second), Some(0xFFC0));
}

#[test]
fn rom_errors() {
    assert_eq!(FileSystemBackendSnes::new(vec![0u8; 0x600001]).err(), Some(SnesRomError::TooLarge));
    assert_eq!(FileSystemBackendSnes::new(vec![0u8; 0x100]).err(), Some(SnesRomError::NotChronoTrigger));
    let title = b"CHRONO TRIGGER       ";
    let mut small = vec![0u8; 0x10200];
    small[0x101C0] = 0xFF;
    small[0xFFC0..0xFFC0 + 21].copy_from_slice(title);
    assert_eq!(FileSystemBackendSnes::new(small).err(), Some(SnesRomError::BadData));
}

#[test]
fn slices_copy_bytes() {
    let data = vec![1u8, 2, 3, 4, 5];
    assert_eq!(slice_bytes(&data, 1, 3), vec![2, 3, 4]);
}
