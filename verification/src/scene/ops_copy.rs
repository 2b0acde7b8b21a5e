//! Decoding of the data copy operations.
use vstd::prelude::*;
use crate::reader::{le16, ByteReader};
use crate::scene::ops::{avail, ActorRef, DataRef, Op};
use crate::scene::scene_script_decoder::{read_script_blob, spec_read_script_blob};

verus! {

/// A one- or two-byte copy.
pub open spec fn copy_op(destination: DataRef, source: DataRef, byte_count: usize) -> Op {
    Op::Copy { destination, source, byte_count }
}

/// Byte `i` after the operation byte.
pub open spec fn at(s: Seq<u8>, p: int, i: int) -> int {
    s[p + i] as int
}

/// The copy operation `op` read from the bytes at `p`, and the position after it; `None` for an
/// operation that is not a copy or that runs past the end of the data.
///
/// The RAM address operands are three bytes, of which only the first takes part in the address:
/// the other two are shifted out entirely.
pub open spec fn spec_op_decode_copy(op: u8, s: Seq<u8>, p: int) -> Option<(Op, int)> {
    let su = |i: int| DataRef::StoredUpper((at(s, p, i) * 2) as usize);
    let sl = |i: int| DataRef::StoredLower((at(s, p, i) * 2) as usize);
    if op == 0x19 && avail(s, p, 1) {
        Some((copy_op(DataRef::ActorResult(ActorRef::This), su(0), 1), p + 1))
    } else if op == 0x1C && avail(s, p, 1) {
        Some(
            (
                copy_op(
                    DataRef::ActorResult(ActorRef::This),
                    DataRef::StoredLower(at(s, p, 0) as usize),
                    1,
                ),
                p + 1,
            ),
        )
    } else if op == 0x20 && avail(s, p, 1) {
        Some((copy_op(su(0), DataRef::PartyCharacter(0), 1), p + 1))
    } else if (op == 0x48 || op == 0x49) && avail(s, p, 4) {
        Some((copy_op(su(3), DataRef::RAM(at(s, p, 0) as usize), 1), p + 4))
    } else if op == 0x4A && avail(s, p, 4) {
        Some(
            (
                copy_op(
                    DataRef::RAM(at(s, p, 0) as usize),
                    DataRef::Immediate(at(s, p, 3) as u32),
                    1,
                ),
                p + 4,
            ),
        )
    } else if op == 0x4B && avail(s, p, 5) {
        Some(
            (
                copy_op(
                    DataRef::RAM(at(s, p, 0) as usize),
                    DataRef::Immediate(le16(s, p + 3) as u32),
                    2,
                ),
                p + 5,
            ),
        )
    } else if (op == 0x4C || op == 0x4D) && avail(s, p, 4) {
        Some((copy_op(DataRef::RAM(at(s, p, 0) as usize), su(3), 1), p + 4))
    } else if op == 0x4E && avail(s, p, 3) && spec_read_script_blob(s, p + 3) is Some {
        let (blob, q) = spec_read_script_blob(s, p + 3).unwrap();
        Some((copy_op(DataRef::RAM(at(s, p, 0) as usize), DataRef::Bytes(blob), 32), q))
    } else if op == 0x4F && avail(s, p, 2) {
        Some((copy_op(su(1), DataRef::Immediate(at(s, p, 0) as u32), 1), p + 2))
    } else if op == 0x50 && avail(s, p, 3) {
        Some((copy_op(su(2), DataRef::Immediate(le16(s, p) as u32), 2), p + 3))
    } else if (op == 0x51 || op == 0x52) && avail(s, p, 2) {
        Some((copy_op(su(1), su(0), if op == 0x51 { 1 } else { 2 }), p + 2))
    } else if (op == 0x53 || op == 0x54) && avail(s, p, 3) {
        Some(
            (
                copy_op(
                    su(2),
                    DataRef::Upper(le16(s, p) as usize),
                    if op == 0x53 { 1 } else { 2 },
                ),
                p + 3,
            ),
        )
    } else if op == 0x56 && avail(s, p, 2) {
        Some((copy_op(sl(1), DataRef::Immediate(at(s, p, 0) as u32), 1), p + 2))
    } else if (op == 0x58 || op == 0x59) && avail(s, p, 3) {
        Some(
            (
                copy_op(
                    DataRef::Upper(le16(s, p + 1) as usize),
                    su(0),
                    if op == 0x58 { 1 } else { 2 },
                ),
                p + 3,
            ),
        )
    } else if (op == 0x75 || op == 0x76 || op == 0x77) && avail(s, p, 1) {
        Some(
            (
                copy_op(
                    sl(0),
                    DataRef::Immediate(if op == 0x77 { 0 } else { 1 }),
                    if op == 0x76 { 2 } else { 1 },
                ),
                p + 1,
            ),
        )
    } else if op == 0x55 && avail(s, p, 1) {
        Some((copy_op(DataRef::StoredLower(0), su(0), 1), p + 1))
    } else if op == 0x5A && avail(s, p, 1) {
        Some(
            (copy_op(DataRef::StoredLower(0), DataRef::Immediate(at(s, p, 0) as u32), 1), p + 1),
        )
    } else if op == 0x7F && avail(s, p, 1) {
        Some((copy_op(su(0), DataRef::Random, 1), p + 1))
    } else {
        None
    }
}

/// Reads a three-byte RAM address operand as the game data is laid out: the second and third
/// bytes are shifted out of the result.
fn read_ram_address(data: &mut ByteReader) -> (address: usize)
    requires
        old(data).pos + 3 <= old(data).data@.len(),
    ensures
        final(data).data@ == old(data).data@,
        final(data).pos == old(data).pos + 3,
        address == old(data).data@[old(data).pos as int],
{
    let a = data.read_u8() as usize;
    let b = data.read_u8() as usize;
    let c = data.read_u8() as usize;
    assert((b < 256 ==> b >> 8usize == 0usize) && (c < 256 ==> c >> 16usize == 0usize) && a | 0usize == a) by (bit_vector);
    a | b >> 8 | c >> 16
}

/// Decodes a copy operation whose operation byte `op` was just read.
pub fn op_decode_copy(op: u8, data: &mut ByteReader) -> (result: Op)
    requires
        spec_op_decode_copy(op, old(data).data@, old(data).pos as int) is Some,
    ensures
        final(data).data@ == old(data).data@,
        spec_op_decode_copy(op, old(data).data@, old(data).pos as int) == Some(
            (result, final(data).pos as int),
        ),
{
    match op {
        // Set actor result from 0x7F0200.
        0x19 => Op::Copy {
            destination: DataRef::ActorResult(ActorRef::This),
            source: DataRef::StoredUpper(data.read_u8() as usize * 2),
            byte_count: 1,
        },
        // Set actor result from 0x7F0000.
        0x1C => Op::Copy {
            destination: DataRef::ActorResult(ActorRef::This),
            source: DataRef::StoredLower(data.read_u8() as usize),
            byte_count: 1,
        },
        // Set what character the first party member is to 0x7F0200.
        0x20 => Op::Copy {
            destination: DataRef::StoredUpper(data.read_u8() as usize * 2),
            source: DataRef::PartyCharacter(0),
            byte_count: 1,
        },
        // From RAM to temporary memory.
        0x48 | 0x49 => Op::Copy {
            source: DataRef::RAM(read_ram_address(data)),
            destination: DataRef::StoredUpper(data.read_u8() as usize * 2),
            byte_count: 1,
        },
        // Write directly to RAM.
        0x4A => Op::Copy {
            destination: DataRef::RAM(read_ram_address(data)),
            source: DataRef::Immediate(data.read_u8() as u32),
            byte_count: 1,
        },
        0x4B => Op::Copy {
            destination: DataRef::RAM(read_ram_address(data)),
            source: DataRef::Immediate(data.read_u16_le() as u32),
            byte_count: 2,
        },
        // Write to RAM.
        0x4C | 0x4D => Op::Copy {
            destination: DataRef::RAM(read_ram_address(data)),
            source: DataRef::StoredUpper(data.read_u8() as usize * 2),
            byte_count: 1,
        },
        0x4E => {
            let destination = read_ram_address(data);
            let blob = read_script_blob(data);
            Op::Copy {
                destination: DataRef::RAM(destination),
                source: DataRef::Bytes(blob),
                byte_count: blob.len(),
            }
        },
        0x4F => Op::Copy {
            source: DataRef::Immediate(data.read_u8() as u32),
            destination: DataRef::StoredUpper(data.read_u8() as usize * 2),
            byte_count: 1,
        },
        0x50 => Op::Copy {
            source: DataRef::Immediate(data.read_u16_le() as u32),
            destination: DataRef::StoredUpper(data.read_u8() as usize * 2),
            byte_count: 2,
        },
        0x51 => Op::Copy {
            source: DataRef::StoredUpper(data.read_u8() as usize * 2),
            destination: DataRef::StoredUpper(data.read_u8() as usize * 2),
            byte_count: 1,
        },
        0x52 => Op::Copy {
            source: DataRef::StoredUpper(data.read_u8() as usize * 2),
            destination: DataRef::StoredUpper(data.read_u8() as usize * 2),
            byte_count: 2,
        },
        0x53 => Op::Copy {
            source: DataRef::Upper(data.read_u16_le() as usize),
            destination: DataRef::StoredUpper(data.read_u8() as usize * 2),
            byte_count: 1,
        },
        0x54 => Op::Copy {
            source: DataRef::Upper(data.read_u16_le() as usize),
            destination: DataRef::StoredUpper(data.read_u8() as usize * 2),
            byte_count: 2,
        },
        0x56 => Op::Copy {
            source: DataRef::Immediate(data.read_u8() as u32),
            destination: DataRef::StoredLower(data.read_u8() as usize * 2),
            byte_count: 1,
        },
        0x58 => Op::Copy {
            source: DataRef::StoredUpper(data.read_u8() as usize * 2),
            destination: DataRef::Upper(data.read_u16_le() as usize),
            byte_count: 1,
        },
        0x59 => Op::Copy {
            source: DataRef::StoredUpper(data.read_u8() as usize * 2),
            destination: DataRef::Upper(data.read_u16_le() as usize),
            byte_count: 2,
        },
        0x75 => Op::Copy {
            source: DataRef::Immediate(1),
            destination: DataRef::StoredLower(data.read_u8() as usize * 2),
            byte_count: 1,
        },
        0x76 => Op::Copy {
            source: DataRef::Immediate(1),
            destination: DataRef::StoredLower(data.read_u8() as usize * 2),
            byte_count: 2,
        },
        0x77 => Op::Copy {
            source: DataRef::Immediate(0),
            destination: DataRef::StoredLower(data.read_u8() as usize * 2),
            byte_count: 1,
        },
        // Write to storyline counter.
        0x55 => Op::Copy {
            source: DataRef::StoredUpper(data.read_u8() as usize * 2),
            destination: DataRef::StoredLower(0x00),
            byte_count: 1,
        },
        0x5A => Op::Copy {
            source: DataRef::Immediate(data.read_u8() as u32),
            destination: DataRef::StoredLower(0x00),
            byte_count: 1,
        },
        _ => Op::Copy {
            source: DataRef::Random,
            destination: DataRef::StoredUpper(data.read_u8() as usize * 2),
            byte_count: 1,
        },
    }
}

} // verus!
