use ctviewer::filesystem::palette::{read_palette_anim_set, read_world_palette_anim_data};
use ctviewer::palette::{read_color, read_colors, Palette};
use ctviewer::palette_anim::{PaletteAnim, PaletteAnimType};
use ctviewer::reader::ByteReader;

#[test]
fn snes_colors_scale_five_bits_to_eight() {
    let mut r = ByteReader::new(vec![0x1F, 0x7C, 0x10, 0x02]);
    // 0x7C1F: red 31, green 0, blue 31.
    assert_eq!(read_color(&mut r), [255, 0, 255, 255]);
    // 0x0210: red 16, green 16, blue 0; 16 * 255 / 31 rounds to 132.
    assert_eq!(read_color(&mut r), [132, 132, 0, 255]);
    assert_eq!(read_colors(&vec![0xFF, 0x7F, 0x00]), vec![[255, 255, 255, 255]]);
    assert_eq!(read_world_palette_anim_data(3, &vec![0, 0, 0, 0]).palette.colors.len(), 2);
    assert_eq!(Palette::new(2).colors, vec![[0, 0, 0, 0], [0, 0, 0, 0]]);
}

fn colors(n: u8) -> Vec<[u8; 4]> {
    (0..n).map(|i| [i, 0, 0, 255]).collect()
}

fn anim(anim_type: PaletteAnimType, color_index: usize, color_count: usize) -> PaletteAnim {
    PaletteAnim {
        index: 0,
        anim_type,
        color_index,
        color_count,
        delay_frames: 1,
        frames: Vec::new(),
        colors: Vec::new(),
        current_frame: 0,
    }
}

#[test]
fn cycles_rotate_one_place() {
    let mut p = Palette::from_colors(&colors(5));
    let mut forward = anim(PaletteAnimType::CycleForward, 1, 2);
    forward.advance(&mut p);
    let reds: Vec<u8> = p.colors.iter().map(|c| c[0]).collect();
    assert_eq!(reds, vec![0, 3, 1, 2, 4]);
    let mut backward = anim(PaletteAnimType::CycleBackward, 1, 2);
    backward.advance(&mut p);
    let reds: Vec<u8> = p.colors.iter().map(|c| c[0]).collect();
    assert_eq!(reds, vec![0, 1, 2, 3, 4]);
}

#[test]
fn sequences_copy_color_sets_in_frame_order() {
    let mut p = Palette::from_colors(&colors(4));
    let mut seq = anim(PaletteAnimType::Sequence, 2, 2);
    seq.frames = vec![0, 1];
    seq.colors = vec![[9, 0, 0, 255], [8, 0, 0, 255], [7, 0, 0, 255], [6, 0, 0, 255]];
    seq.advance(&mut p);
    assert_eq!(seq.current_frame, 1);
    assert_eq!(p.colors[2][0], 7);
    assert_eq!(p.colors[3][0], 6);
    seq.advance(&mut p);
    assert_eq!(seq.current_frame, 0);
    assert_eq!(p.colors[2][0], 9);
}

#[test]
fn animation_sets_are_read_up_to_the_zero() {
    let address_data = vec![0x00, 0x00, 0x08, 0x00];
    // A forward cycle, a byte of no type that is skipped, a stored sequence of two frames, the end.
    let anim_data = vec![
        0x30, 4, 3, 2, //
        0x05, //
        0x81, 1, 2, 6, 0x80, 0x73, 0x00, 1, 0, //
        0x00,
    ];
    let color_data = vec![0x1F, 0x00, 0x00, 0x00, 0x00, 0x7C, 0x00, 0x00];
    let set = read_palette_anim_set(0, &address_data, &anim_data, &color_data).unwrap();
    assert_eq!(set.index, 0);
    assert_eq!(set.anims.len(), 2);
    let cycle = &set.anims[0];
    assert_eq!((cycle.anim_type, cycle.color_index, cycle.color_count, cycle.delay_frames), (PaletteAnimType::CycleForward, 4, 3, 2));
    let seq = &set.anims[1];
    assert_eq!(seq.index, 1);
    assert_eq!(seq.anim_type, PaletteAnimType::Sequence);
    assert_eq!(seq.frames, vec![1, 0]);
    // Two color sets of two colors from address 0x7380 - 0x7380 = 0.
    assert_eq!(seq.colors, vec![[255, 0, 0, 255], [0, 0, 0, 255], [0, 0, 255, 255], [0, 0, 0, 255]]);
    // Index past the table, and a set that runs past the data.
    assert!(read_palette_anim_set(2, &address_data, &anim_data, &color_data).is_none());
    assert!(read_palette_anim_set(1, &address_data, &vec![0x30, 1], &color_data).is_none());
}

#[test]
fn linear_sequences_count_their_frames() {
    let address_data = vec![0x00, 0x00];
    let anim_data = vec![0x12, 0, 1, 1, 0x80, 0x73, 0x00, 0x00];
    let color_data = vec![0u8; 6];
    let set = read_palette_anim_set(0, &address_data, &anim_data, &color_data).unwrap();
    assert_eq!(set.anims[0].frames, vec![0, 1, 2]);
    assert_eq!(set.anims[0].colors.len(), 3);
}
