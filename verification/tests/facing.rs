use ctviewer::facing::Facing;

#[test]
fn facing_index_roundtrip() {
    for index in 0..4usize {
        assert_eq!(Facing::from_index(index).to_index(), index);
    }
    assert_eq!(Facing::from_index(9), Facing::Down);
    assert_eq!(Facing::from_data(0x07), Facing::Right);
}
