use ctviewer::reader::ByteReader;
use ctviewer::scene::ops::{ActorRef, DataRef, Op, WaitMode};
use ctviewer::scene::scene_script_decoder::op_decode;

#[test]
fn yield_is_one_byte() {
    let mut r = ByteReader::new(vec![0x00, 0xFF]);
    assert_eq!(op_decode(&mut r), Op::Yield);
    assert_eq!(r.pos, 1);
}

#[test]
fn calls_name_actor_function_and_priority() {
    let mut r = ByteReader::new(vec![0x04, 0x06, 0x32]);
    assert_eq!(
        op_decode(&mut r),
        Op::Call { actor: ActorRef::ScriptActor(3), priority: 3, function: 2, wait_mode: WaitMode::WaitForReturn }
    );
    assert_eq!(r.pos, 3);
}

#[test]
fn jumps_go_forward_and_back() {
    let mut r = ByteReader::new(vec![0x10, 0x05, 0x11, 0x07]);
    assert_eq!(op_decode(&mut r), Op::Jump { jump_by: 5 });
    assert_eq!(op_decode(&mut r), Op::Jump { jump_by: -7 });
    assert_eq!(r.pos, 4);
}

#[test]
fn coordinates_are_immediate_or_stored() {
    let mut r = ByteReader::new(vec![0x8B, 0x03, 0x04, 0x8C, 0x01, 0x02]);
    assert_eq!(
        op_decode(&mut r),
        Op::ActorCoordinatesSet { actor: ActorRef::This, x: DataRef::Immediate(3), y: DataRef::Immediate(4), precise: false }
    );
    assert_eq!(
        op_decode(&mut r),
        Op::ActorCoordinatesSet { actor: ActorRef::This, x: DataRef::StoredUpper(2), y: DataRef::StoredUpper(4), precise: false }
    );
}

#[test]
fn script_speed() {
    let mut r = ByteReader::new(vec![0x87, 0x20]);
    assert_eq!(op_decode(&mut r), Op::SetScriptSpeed { speed: 0x20 });
}
