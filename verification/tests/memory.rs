use ctviewer::scene::actor::SceneActorClass;
use std::collections::HashMap;
use ctviewer::gamestate::gamestate_world::{enter_world_memory, leave_world_memory};
use ctviewer::memory::{address_to_variable, DataDest, Memory};

#[test]
fn bytes_read_back_as_written_in_each_region() {
    let mut m = Memory::new();
    m.put_u8(0x7E0010, 1);
    m.put_u8(0x7F0005, 2);
    m.put_u8(0x7F0300, 3);
    m.put_u8(0x9F0200, 4);
    m.put_u8(0x123456, 5);
    assert_eq!(m.get_u8(0x7E0010), 1);
    assert_eq!(m.get_u8(0x7F0005), 2);
    assert_eq!(m.get_u8(0x7F0300), 3);
    assert_eq!(m.get_u8(0x9F0200), 4);
    assert_eq!(m.get_u8(0x123456), 0);
}

#[test]
fn words_are_little_endian() {
    let mut m = Memory::new();
    m.put_u16(0x7F0010, 0xBEEF);
    assert_eq!(m.get_u8(0x7F0010), 0xEF);
    assert_eq!(m.get_u8(0x7F0011), 0xBE);
    assert_eq!(m.get_u16(0x7F0010), 0xBEEF);
}

#[test]
fn clearing_local_storage_keeps_the_rest() {
    let mut m = Memory::new();
    m.put_u8(0x7F0200, 9);
    m.put_u8(0x7F0000, 8);
    m.clear_local();
    assert_eq!(m.get_u8(0x7F0200), 0);
    assert_eq!(m.get_u8(0x7F0000), 8);
}

#[test]
fn scene_writes_to_intercepted_addresses_are_dropped() {
    let mut m = Memory::new();
    m.put_scene_u8(0x7E0BD7, 5);
    assert_eq!(m.get_u8(0x7E0BD7), 0);
    m.put_scene_u8(0x7E0BD9, 5);
    assert_eq!(m.get_u8(0x7E0BD9), 5);
}

#[test]
fn byte_runs_roundtrip() {
    let mut m = Memory::new();
    m.put_bytes(0x7F01FE, &[1, 2, 3, 4]);
    assert_eq!(m.get_bytes(0x7F01FE, 4), vec![1, 2, 3, 4]);
}

#[test]
fn data_destinations_write_memory() {
    let mut m = Memory::new();
    DataDest::Memory(0x7E0100).put_u8(&mut m, 7);
    assert_eq!(m.get_u8(0x7E0100), 7);
    DataDest::WorldActor(3).put_u16(&mut m, 0x1234);
    assert_eq!(m.get_u16(0x7E0100), 7);
}

#[test]
fn addresses_have_names() {
    assert_eq!(address_to_variable(0x7E0005), "Temp05");
    assert_eq!(address_to_variable(0x7E0104), "DestinationFacing");
}

#[test]
fn story_flags_survive_a_world_visit() {
    let mut m = Memory::new();
    for i in 0..15usize {
        m.put_u8(0x7F01F0 + i, (i + 1) as u8);
    }
    m.put_u8(0x7F0000, 0x42);
    m.put_u8(0x7E1B59, 9);
    enter_world_memory(&mut m);
    assert_eq!(m.get_u8(0x7E1BA7), 1);
    assert_eq!(m.get_u8(0x7E1BA7 + 14), 15);
    assert_eq!(m.get_u8(0x7E1BA6), 0x42);
    assert_eq!(m.get_u8(0x7E1B59), 0);
    m.put_u8(0x7E1BA7, 99);
    leave_world_memory(&mut m);
    assert_eq!(m.get_u8(0x7F01F0), 99);
    assert_eq!(m.get_u8(0x7F01F0 + 14), 15);
}

#[test]
fn scene_reads_see_actors_and_party() {
    let mut m = Memory::new();
    m.put_u8(0x7E0010, 42);
    let actors = vec![(SceneActorClass::NPC, false), (SceneActorClass::Enemy, true)];
    let mut party = HashMap::new();
    party.insert(0usize, 3usize);
    party.insert(2usize, 0x105usize);
    // The class number is masked with the dead bit, so it always reads as zero.
    assert_eq!(m.get_scene_u8(0x7E1100, &actors, &party), 0);
    assert_eq!(m.get_scene_u8(0x7E1103, &actors, &party), 0);
    assert_eq!(m.get_scene_u8(0x7E2980, &actors, &party), 3);
    assert_eq!(m.get_scene_u8(0x7E2981, &actors, &party), 0);
    assert_eq!(m.get_scene_u8(0x7E2982, &actors, &party), 5);
    assert_eq!(m.get_scene_u8(0x7E0010, &actors, &party), 42);
}
