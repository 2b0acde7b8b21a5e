use ctviewer::map::{MapChip, MapLayer, CHIP_FLIP_X, CHIP_PRIORITY};
use ctviewer::map_renderer::{layer_chip_blits, ChipBlit};

fn layer() -> MapLayer {
    let mut layer = MapLayer::new(2, 2);
    layer.chips[0] = MapChip { chip: 1, flags: 0, palette: 16 };
    layer.chips[1] = MapChip { chip: 0, flags: 0, palette: 0 };
    layer.chips[2] = MapChip { chip: 2, flags: CHIP_PRIORITY | CHIP_FLIP_X, palette: 32 };
    layer.chips[3] = MapChip { chip: 12, flags: 0, palette: 0 };
    layer
}

#[test]
fn layer_chips_wrap_around_below_zero() {
    let blits = layer_chip_blits(&layer(), 10, 0, (-1, 0), (1, 1), (3, 0));
    let blit = ChipBlit { chip: 1, palette: 16, x: -11, y: 0, flip_x: false, flip_y: false };
    assert_eq!(blits, vec![blit, ChipBlit { x: -3, ..blit }]);
}

#[test]
fn priority_passes_split_the_chips() {
    let low = layer_chip_blits(&layer(), 10, 0, (0, 0), (2, 2), (0, 0));
    assert_eq!(low.len(), 1);
    assert_eq!(low[0].chip, 1);
    let high = layer_chip_blits(&layer(), 10, 1, (0, 0), (2, 2), (0, 0));
    assert_eq!(high, vec![ChipBlit { chip: 2, palette: 32, x: 0, y: 8, flip_x: true, flip_y: false }]);
    let all = layer_chip_blits(&layer(), 20, 2, (0, 0), (2, 2), (0, 0));
    assert_eq!(all.iter().map(|b| b.chip).collect::<Vec<_>>(), vec![1, 2, 12]);
}

#[test]
fn empty_ranges_draw_nothing() {
    assert!(layer_chip_blits(&layer(), 10, 0, (0, 1), (2, 1), (0, 0)).is_empty());
    assert!(layer_chip_blits(&layer(), 10, 0, (1, 0), (1, 2), (0, 0)).is_empty());
}
