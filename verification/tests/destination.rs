use ctviewer::destination::Destination;
use ctviewer::facing::Facing;
use ctviewer::l10n::L10n;
use ctviewer::next_destination::NextDestination;
use ctviewer::reader::ByteReader;
use ctviewer::util::vec2di32::Vec2Di32;
use ctviewer::GameMode;

#[test]
fn scene_destination_is_tile_bottom_center() {
    let d = Destination::from_data(0x10, Facing::Left, 3, 4, 0, 0, 2);
    assert_eq!(d, Destination::Scene { index: 0x10, pos: Vec2Di32 { x: 56, y: 79 }, facing: Facing::Left, data: 2 });
    assert_eq!(d.get_index(), 0x10);
}

#[test]
fn world_destination_uses_eight_pixel_tiles() {
    let d = Destination::from_data(0x1F2, Facing::Up, 10, 20, 1, 2, 0xA0);
    assert_eq!(d, Destination::World { index: 2, pos: Vec2Di32 { x: 81, y: 162 }, data: 0xA0 });
    assert_eq!(d.get_index(), 2 + 0x1FF);
}

#[test]
fn destination_descriptions() {
    let world = Destination::World { index: 3, pos: Vec2Di32 { x: -8, y: 16 }, data: 0x0A };
    assert_eq!(world.as_string(), "World(3, -8, 16, 0x0A)");
    let scene = Destination::Scene { index: 12, pos: Vec2Di32 { x: 24, y: 31 }, facing: Facing::Right, data: 7 };
    assert_eq!(scene.as_string(), "Scene(12, 24, 31, Right, 0x07)");
}

#[test]
fn destination_read_from_snes_and_pc_layouts() {
    // SNES: index 0x005 with facing bits in the high byte, then tile x and y.
    let mut snes = ByteReader::new(vec![0x05, 0x06, 2, 3]);
    let d = Destination::from_cursor(&mut snes, GameMode::Snes);
    assert_eq!(d, Destination::Scene { index: 5, pos: Vec2Di32 { x: 40, y: 63 }, facing: Facing::Right, data: 3 });
    assert_eq!(snes.pos, 4);
    // PC: index word, facing byte, tile x and y.
    let mut pc = ByteReader::new(vec![0x05, 0x00, 0x02, 1, 1]);
    let d = Destination::from_cursor(&mut pc, GameMode::Pc);
    assert_eq!(d, Destination::Scene { index: 5, pos: Vec2Di32 { x: 24, y: 31 }, facing: Facing::Left, data: 2 });
    assert_eq!(pc.pos, 5);
}

#[test]
fn first_pending_destination_wins() {
    let mut next = NextDestination::new();
    let a = Destination::from_data(1, Facing::Down, 0, 0, 0, 0, 0);
    let b = Destination::from_data(2, Facing::Down, 0, 0, 0, 0, 0);
    next.set(a, false);
    next.set(b, true);
    assert_eq!(next.destination, Some(a));
    assert!(!next.fade_in);
    next.clear();
    assert_eq!(next.destination, None);
    next.set(b, true);
    assert_eq!(next.destination, Some(b));
}

#[test]
fn titles_and_info_use_the_name_lists() {
    let l10n = L10n::new(
        "en",
        Vec::new(),
        vec!["Kitchen".to_string(), "Square".to_string()],
        vec!["1000 A.D.".to_string()],
        Vec::new(),
    );
    let scene = Destination::Scene { index: 1, pos: Vec2Di32 { x: 0, y: 0 }, facing: Facing::Down, data: 0 };
    let world = Destination::World { index: 0, pos: Vec2Di32 { x: 0, y: 0 }, data: 0 };
    let far = Destination::World { index: 5, pos: Vec2Di32 { x: 0, y: 0 }, data: 0 };
    assert_eq!(scene.title(&l10n), "Square");
    assert_eq!(scene.info(&l10n), "Scene 1 Square");
    assert_eq!(world.info(&l10n), "World 0 1000 A.D.");
    assert_eq!(far.title(&l10n), "IDX_5");
}
