//! Decoding of scene script operations from script bytes.
use vstd::prelude::*;
use crate::reader::{le16, ByteReader};
use crate::scene::ops::{avail, ActorRef, BitMathOp, ByteMathOp, DataRef, Op};
use crate::scene::ops_call::{op_decode_call, spec_op_decode_call};
use crate::scene::ops_copy::{op_decode_copy, spec_op_decode_copy};
use crate::scene::ops_jump::{op_decode_jump, spec_op_decode_jump};
use crate::scene::ops_math::{op_decode_math, spec_op_decode_math};
use crate::scene::ops_palette::{op_decode_palette, spec_op_decode_palette};

verus! {

broadcast use vstd::array::axiom_array_ext_equal, vstd::array::array_len_matches_n;

/// The array of 32 bytes whose contents are `b`.
pub open spec fn blob_array(b: Seq<u8>) -> [u8; 32] {
    choose|a: [u8; 32]| a@ == b
}

/// A data blob: a little-endian length that counts its own two bytes, then the data. Only
/// blobs of exactly 32 data bytes are accepted.
pub open spec fn spec_read_script_blob(s: Seq<u8>, p: int) -> Option<([u8; 32], int)> {
    if avail(s, p, 34) && le16(s, p) == 34 {
        Some((blob_array(s.subrange(p + 2, p + 34)), p + 34))
    } else {
        None
    }
}

/// Reads a data blob.
pub fn read_script_blob(data: &mut ByteReader) -> (blob: [u8; 32])
    requires
        spec_read_script_blob(old(data).data@, old(data).pos as int) is Some,
    ensures
        final(data).data@ == old(data).data@,
        spec_read_script_blob(old(data).data@, old(data).pos as int) == Some(
            (blob, final(data).pos as int),
        ),
{
    let ghost s = data.data@;
    let ghost p = data.pos as int;
    let _len = data.read_u16_le();
    let mut blob = [0u8; 32];
    let mut i: usize = 0;
    while i < 32
        invariant
            i <= 32,
            data.data@ == s,
            data.pos == p + 2 + i,
            avail(s, p, 34),
            forall|j: int| 0 <= j < i ==> blob@[j] == s[p + 2 + j],
        decreases 32 - i,
    {
        let b = data.read_u8();
        blob[i] = b;
        i = i + 1;
    }
    proof {
        assert(blob@ =~= s.subrange(p + 2, p + 34));
        let c = blob_array(s.subrange(p + 2, p + 34));
        assert(c@ == s.subrange(p + 2, p + 34));
        assert(c =~= blob);
    }
    blob
}

/// The operation groups whose decoders are not part of this library: actor properties, actor
/// movement, character loading and actor direction.
pub open spec fn undecoded_group(op: u8) -> bool {
    ||| op == 0x08 || op == 0x09 || op == 0x0A || op == 0x0B || op == 0x0C || op == 0x7C
        || op == 0x7D || op == 0x90 || op == 0x91 || op == 0x7E || op == 0x8E || op == 0x84
        || op == 0x0D || op == 0x0E || op == 0x89 || op == 0x8A
    ||| op == 0x8F || op == 0x92 || op == 0x94 || op == 0x95 || op == 0x96 || op == 0x97
        || op == 0x98 || op == 0x99 || op == 0x9A || op == 0x9C || op == 0x9D || op == 0x9E
        || op == 0x9F || op == 0xA0 || op == 0xA1 || op == 0x7A || op == 0x7B
    ||| op == 0x57 || op == 0x5C || op == 0x62 || op == 0x68 || op == 0x6A || op == 0x6C
        || op == 0x6D || op == 0x80 || op == 0x81 || op == 0x82 || op == 0x83
    ||| op == 0x0F || op == 0x17 || op == 0x1B || op == 0x1D || op == 0x1E || op == 0x1F
        || op == 0x25 || op == 0x26 || op == 0x23 || op == 0x24 || op == 0xA6 || op == 0xA7
        || op == 0xA8 || op == 0xA9
}

/// The operation bytes handled by the call decoder.
pub open spec fn call_group(op: u8) -> bool {
    0x02 <= op <= 0x07
}

/// The operation bytes handled by the copy decoder.
pub open spec fn copy_group(op: u8) -> bool {
    op == 0x19 || op == 0x1C || op == 0x20 || (0x48 <= op <= 0x56) || op == 0x58 || op == 0x59
        || op == 0x5A || op == 0x75 || op == 0x76 || op == 0x77 || op == 0x7F
}

/// The operation bytes handled by the math decoder.
pub open spec fn math_group(op: u8) -> bool {
    op == 0x5B || op == 0x5D || op == 0x5E || op == 0x5F || op == 0x60 || op == 0x61 || op == 0x71
        || op == 0x72 || op == 0x73 || op == 0x63 || op == 0x64 || op == 0x65 || op == 0x66
        || op == 0x67 || op == 0x69 || op == 0x6B || op == 0x6F
}

/// The operation bytes handled by the jump decoder.
pub open spec fn jump_group(op: u8) -> bool {
    (0x10 <= op <= 0x16) || op == 0x18 || op == 0x1A || op == 0x27 || op == 0x28 || op == 0x2D
        || op == 0x30 || op == 0x31 || (0x34 <= op <= 0x39) || op == 0x3B || op == 0x3C
        || (0x3F <= op <= 0x44)
}

/// The operation bytes handled by the palette decoder.
pub open spec fn palette_group(op: u8) -> bool {
    op == 0x2E || op == 0x33 || op == 0x88
}

/// The operations that carry no operands, or one or two bytes of unknown purpose.
pub open spec fn spec_unknown_op(op: u8, s: Seq<u8>, p: int) -> Option<(Op, int)> {
    if (op == 0x29 || op == 0x2F || op == 0x47) && avail(s, p, 1) {
        Some((Op::Unknown { code: op, data: [s[p], 0, 0, 0] }, p + 1))
    } else if op == 0x2A || op == 0x2B || op == 0x32 {
        Some((Op::Unknown { code: op, data: [0, 0, 0, 0] }, p))
    } else if op == 0x2C && avail(s, p, 2) {
        Some((Op::Unknown { code: op, data: [s[p], s[p + 1], 0, 0] }, p + 2))
    } else {
        None
    }
}

/// The coordinate operations 0x21, 0x22 and 0x8B to 0x8D.
pub open spec fn spec_coordinates_op(op: u8, s: Seq<u8>, p: int) -> Option<(Op, int)> {
    if op == 0x21 && avail(s, p, 3) {
        Some(
            (
                Op::ActorCoordinatesGet {
                    actor: ActorRef::ScriptActor((s[p] / 2) as usize),
                    x: DataRef::StoredUpper((s[p + 1] * 2) as usize),
                    y: DataRef::StoredUpper((s[p + 2] * 2) as usize),
                },
                p + 3,
            ),
        )
    } else if op == 0x22 && avail(s, p, 3) {
        Some(
            (
                Op::ActorCoordinatesGet {
                    actor: ActorRef::PartyMember(s[p] as usize),
                    x: DataRef::StoredUpper((s[p + 1] * 2) as usize),
                    y: DataRef::StoredUpper((s[p + 2] * 2) as usize),
                },
                p + 3,
            ),
        )
    } else if op == 0x8B && avail(s, p, 2) {
        Some(
            (
                Op::ActorCoordinatesSet {
                    actor: ActorRef::This,
                    x: DataRef::Immediate(s[p] as u32),
                    y: DataRef::Immediate(s[p + 1] as u32),
                    precise: false,
                },
                p + 2,
            ),
        )
    } else if op == 0x8C && avail(s, p, 2) {
        Some(
            (
                Op::ActorCoordinatesSet {
                    actor: ActorRef::This,
                    x: DataRef::StoredUpper((s[p] * 2) as usize),
                    y: DataRef::StoredUpper((s[p + 1] * 2) as usize),
                    precise: false,
                },
                p + 2,
            ),
        )
    } else if op == 0x8D && avail(s, p, 4) {
        Some(
            (
                Op::ActorCoordinatesSet {
                    actor: ActorRef::This,
                    x: DataRef::Immediate(le16(s, p) as u32),
                    y: DataRef::Immediate(le16(s, p + 2) as u32),
                    precise: true,
                },
                p + 4,
            ),
        )
    } else {
        None
    }
}

/// The operation at `p` and the position after it; `None` where the data ends inside the
/// operation, the operation is rejected, or its group is not decoded here.
pub open spec fn spec_op_decode(s: Seq<u8>, p: int) -> Option<(Op, int)> {
    if !avail(s, p, 1) {
        None
    } else {
        let op = s[p];
        let q = p + 1;
        if op == 0x00 {
            Some((Op::Yield, q))
        } else if call_group(op) {
            spec_op_decode_call(op, s, q)
        } else if undecoded_group(op) {
            None
        } else if copy_group(op) {
            spec_op_decode_copy(op, s, q)
        } else if math_group(op) {
            spec_op_decode_math(op, s, q)
        } else if jump_group(op) {
            spec_op_decode_jump(op, s, q)
        } else if op == 0x21 || op == 0x22 || op == 0x8B || op == 0x8C || op == 0x8D {
            spec_coordinates_op(op, s, q)
        } else if palette_group(op) {
            spec_op_decode_palette(op, s, q)
        } else if op == 0x87 {
            if avail(s, q, 1) {
                Some((Op::SetScriptSpeed { speed: s[q] }, q + 1))
            } else {
                None
            }
        } else if op == 0x29 || op == 0x2A || op == 0x2B || op == 0x2C || op == 0x32 || op == 0x2F
            || op == 0x47 {
            spec_unknown_op(op, s, q)
        } else {
            Some((Op::NOP, q))
        }
    }
}

/// The byte math operations of scene scripts, each two bytes of operands long, the byte count
/// and the operation fixed by the operation byte: 0x5B adds and 0x5F subtracts an immediate
/// byte to or from one stored byte, 0x60 subtracts it from a stored 16 bit value; 0x5D adds one
/// stored byte to another, 0x5E one stored 16 bit value to another, 0x61 subtracts one stored
/// byte from another. Operand bytes name stored values at twice their value; the first operand
/// is the right-hand side, the second the value changed.
pub proof fn law_byte_math_ops(s: Seq<u8>, p: int)
    requires
        0 <= p,
        p + 3 <= s.len(),
    ensures
        ({
            let lhs = DataRef::StoredUpper((2 * s[p + 2]) as usize);
            let stored = DataRef::StoredUpper((2 * s[p + 1]) as usize);
            let imm = DataRef::Immediate(s[p + 1] as u32);
            &&& s[p] == 0x5B ==> spec_op_decode(s, p) == Some((Op::ByteMath { rhs: imm, lhs, byte_count: 1, operation: ByteMathOp::Add }, p + 3))
            &&& s[p] == 0x5F ==> spec_op_decode(s, p) == Some((Op::ByteMath { rhs: imm, lhs, byte_count: 1, operation: ByteMathOp::Subtract }, p + 3))
            &&& s[p] == 0x60 ==> spec_op_decode(s, p) == Some((Op::ByteMath { rhs: imm, lhs, byte_count: 2, operation: ByteMathOp::Subtract }, p + 3))
            &&& s[p] == 0x5D ==> spec_op_decode(s, p) == Some((Op::ByteMath { rhs: stored, lhs, byte_count: 1, operation: ByteMathOp::Add }, p + 3))
            &&& s[p] == 0x5E ==> spec_op_decode(s, p) == Some((Op::ByteMath { rhs: stored, lhs, byte_count: 2, operation: ByteMathOp::Add }, p + 3))
            &&& s[p] == 0x61 ==> spec_op_decode(s, p) == Some((Op::ByteMath { rhs: stored, lhs, byte_count: 1, operation: ByteMathOp::Subtract }, p + 3))
        }),
{
}

/// The increment and decrement operations of scene scripts, one operand byte long: 0x71 adds 1
/// to a stored byte, 0x72 to a stored 16 bit value, and 0x73 subtracts 1 from a stored byte, the
/// operand naming the stored value at twice its value.
pub proof fn law_increment_decrement_ops(s: Seq<u8>, p: int)
    requires
        0 <= p,
        p + 2 <= s.len(),
    ensures
        ({
            let lhs = DataRef::StoredUpper((2 * s[p + 1]) as usize);
            let one = DataRef::Immediate(1);
            &&& s[p] == 0x71 ==> spec_op_decode(s, p) == Some((Op::ByteMath { rhs: one, lhs, byte_count: 1, operation: ByteMathOp::Add }, p + 2))
            &&& s[p] == 0x72 ==> spec_op_decode(s, p) == Some((Op::ByteMath { rhs: one, lhs, byte_count: 2, operation: ByteMathOp::Add }, p + 2))
            &&& s[p] == 0x73 ==> spec_op_decode(s, p) == Some((Op::ByteMath { rhs: one, lhs, byte_count: 1, operation: ByteMathOp::Subtract }, p + 2))
        }),
{
}

/// Incrementing and decrementing the same stored byte decode to opposite operations on the same
/// value by the same amount.
pub proof fn law_increment_decrement_opposite(s: Seq<u8>, t: Seq<u8>, p: int)
    requires
        0 <= p,
        p + 2 <= s.len(),
        p + 2 <= t.len(),
        s[p] == 0x71,
        t[p] == 0x73,
        s[p + 1] == t[p + 1],
    ensures
        ({
            let (a, _) = spec_op_decode(s, p).unwrap();
            let (b, _) = spec_op_decode(t, p).unwrap();
            &&& a matches Op::ByteMath { rhs: ra, lhs: la, byte_count: ca, operation: oa }
            &&& b matches Op::ByteMath { rhs: rb, lhs: lb, byte_count: cb, operation: ob }
            &&& ra == rb && la == lb && ca == cb
            &&& oa == ByteMathOp::Add && ob == ByteMathOp::Subtract
        }),
{
    law_increment_decrement_ops(s, p);
    law_increment_decrement_ops(t, p);
}

/// The bit math operations on a stored byte with an immediate operand, two operand bytes long:
/// 0x67 ands, 0x69 ors, 0x6B xors and 0x6F shifts right by the immediate byte; 0x63 sets and
/// 0x64 keeps the bits of `1 >> shift`, which is 1 for a shift of 0 and 0 for the rest up to 31.
pub proof fn law_bit_math_ops(s: Seq<u8>, p: int)
    requires
        0 <= p,
        p + 3 <= s.len(),
    ensures
        ({
            let lhs = DataRef::StoredUpper((2 * s[p + 2]) as usize);
            let imm = DataRef::Immediate(s[p + 1] as u32);
            let bit = DataRef::Immediate(if s[p + 1] == 0 { 1 } else { 0 });
            &&& s[p] == 0x67 ==> spec_op_decode(s, p) == Some((Op::BitMath { rhs: imm, lhs, operation: BitMathOp::And }, p + 3))
            &&& s[p] == 0x69 ==> spec_op_decode(s, p) == Some((Op::BitMath { rhs: imm, lhs, operation: BitMathOp::Or }, p + 3))
            &&& s[p] == 0x6B ==> spec_op_decode(s, p) == Some((Op::BitMath { rhs: imm, lhs, operation: BitMathOp::Xor }, p + 3))
            &&& s[p] == 0x6F ==> spec_op_decode(s, p) == Some((Op::BitMath { rhs: imm, lhs, operation: BitMathOp::ShiftRight }, p + 3))
            &&& s[p] == 0x63 && s[p + 1] < 32 ==> spec_op_decode(s, p) == Some((Op::BitMath { rhs: bit, lhs, operation: BitMathOp::Or }, p + 3))
            &&& s[p] == 0x64 && s[p + 1] < 32 ==> spec_op_decode(s, p) == Some((Op::BitMath { rhs: bit, lhs, operation: BitMathOp::And }, p + 3))
        }),
{
}

/// Decodes the operation at the reader's position.
pub fn op_decode(data: &mut ByteReader) -> (result: Op)
    requires
        spec_op_decode(old(data).data@, old(data).pos as int) is Some,
    ensures
        final(data).data@ == old(data).data@,
        spec_op_decode(old(data).data@, old(data).pos as int) == Some(
            (result, final(data).pos as int),
        ),
{
    let op_byte = data.read_u8();
    match op_byte {
        // Yield to the function with the next higher priority number.
        // If there is none, simply yield.
        0x00 => Op::Yield,

        // Function calls.
        0x02 | 0x03 | 0x04 | 0x05 | 0x06 | 0x07 => op_decode_call(op_byte, data),

        // Data copy.
        0x19 | 0x1C | 0x20 | 0x48 | 0x49 | 0x4A | 0x4B | 0x4C | 0x4D | 0x4E | 0x4F | 0x50 | 0x51 |
        0x52 | 0x53 | 0x54 | 0x55 | 0x56 | 0x58 | 0x59 | 0x5A | 0x75 | 0x76 | 0x77 | 0x7F => op_decode_copy(op_byte, data),

        // Byte math.
        0x5B | 0x5D | 0x5E | 0x5F | 0x60 | 0x61 | 0x71 | 0x72 | 0x73 | 0x63 | 0x64 | 0x65 | 0x66 |
        0x67 | 0x69 | 0x6B | 0x6F => op_decode_math(op_byte, data),

        // Code jumps.
        0x10 | 0x11 | 0x12 | 0x13 | 0x14 | 0x15 | 0x16 | 0x18 | 0x1A | 0x27 | 0x28 | 0x2D | 0x30 |
        0x31 | 0x34 | 0x35 | 0x36 | 0x37 | 0x38 | 0x39 | 0x3B | 0x3C | 0x3F | 0x40 | 0x41 | 0x42 |
        0x43 | 0x44 => op_decode_jump(op_byte, data),

        // Actor coordinates, from actor.
        0x21 => Op::ActorCoordinatesGet {
            actor: ActorRef::ScriptActor(data.read_u8() as usize / 2),
            x: DataRef::StoredUpper(data.read_u8() as usize * 2),
            y: DataRef::StoredUpper(data.read_u8() as usize * 2),
        },
        // From party member actor.
        0x22 => Op::ActorCoordinatesGet {
            actor: ActorRef::PartyMember(data.read_u8() as usize),
            x: DataRef::StoredUpper(data.read_u8() as usize * 2),
            y: DataRef::StoredUpper(data.read_u8() as usize * 2),
        },
        0x8B => Op::ActorCoordinatesSet {
            actor: ActorRef::This,
            x: DataRef::Immediate(data.read_u8() as u32),
            y: DataRef::Immediate(data.read_u8() as u32),
            precise: false,
        },
        0x8C => Op::ActorCoordinatesSet {
            actor: ActorRef::This,
            x: DataRef::StoredUpper(data.read_u8() as usize * 2),
            y: DataRef::StoredUpper(data.read_u8() as usize * 2),
            precise: false,
        },
        0x8D => Op::ActorCoordinatesSet {
            actor: ActorRef::This,
            x: DataRef::Immediate(data.read_u16_le() as u32),
            y: DataRef::Immediate(data.read_u16_le() as u32),
            precise: true,
        },

        // Palette.
        0x2E | 0x33 | 0x88 => op_decode_palette(op_byte, data),

        // Script speed.
        0x87 => Op::SetScriptSpeed { speed: data.read_u8() },

        // Ascii text related (purpose unknown).
        0x29 => Op::Unknown { code: 0x29, data: [data.read_u8(), 0, 0, 0] },
        0x2A => Op::Unknown { code: 0x2A, data: [0, 0, 0, 0] },
        0x2B => Op::Unknown { code: 0x2B, data: [0, 0, 0, 0] },
        0x2C => Op::Unknown { code: 0x2C, data: [data.read_u8(), data.read_u8(), 0, 0] },
        0x32 => Op::Unknown { code: 0x32, data: [0, 0, 0, 0] },

        // Unknown purpose.
        0x2F => Op::Unknown { code: 0x2F, data: [data.read_u8(), 0, 0, 0] },
        0x47 => Op::Unknown { code: 0x47, data: [data.read_u8(), 0, 0, 0] },

        // Anything else is decoded as doing nothing.
        _ => Op::NOP,
    }
}

} // verus!
