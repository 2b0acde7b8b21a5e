//! Decoding of the byte and bit math operations.
use vstd::prelude::*;
use crate::reader::ByteReader;
use crate::scene::ops::{avail, BitMathOp, ByteMathOp, DataRef, Op};

verus! {

/// `1 >> shift`, for shifts within the 32 bits of the value.
pub open spec fn one_shifted_right(shift: int) -> u32 {
    if shift == 0 { 1 } else { 0 }
}

/// The math operation `op` read from the bytes at `p`, and the position after it; `None` for an
/// operation that is not a math operation, that runs past the end of the data, or whose bit
/// shift is 32 or more.
pub open spec fn spec_op_decode_math(op: u8, s: Seq<u8>, p: int) -> Option<(Op, int)> {
    let su = |i: int| DataRef::StoredUpper((s[p + i] * 2) as usize);
    if (op == 0x5B || op == 0x5F) && avail(s, p, 2) {
        Some(
            (
                Op::ByteMath {
                    rhs: DataRef::Immediate(s[p] as u32),
                    lhs: su(1),
                    byte_count: 1,
                    operation: if op == 0x5B { ByteMathOp::Add } else { ByteMathOp::Subtract },
                },
                p + 2,
            ),
        )
    } else if op == 0x60 && avail(s, p, 2) {
        Some(
            (
                Op::ByteMath {
                    rhs: DataRef::Immediate(s[p] as u32),
                    lhs: su(1),
                    byte_count: 2,
                    operation: ByteMathOp::Subtract,
                },
                p + 2,
            ),
        )
    } else if (op == 0x5D || op == 0x5E || op == 0x61) && avail(s, p, 2) {
        Some(
            (
                Op::ByteMath {
                    rhs: su(0),
                    lhs: su(1),
                    byte_count: if op == 0x5E { 2 } else { 1 },
                    operation: if op == 0x61 { ByteMathOp::Subtract } else { ByteMathOp::Add },
                },
                p + 2,
            ),
        )
    } else if (op == 0x71 || op == 0x72 || op == 0x73) && avail(s, p, 1) {
        Some(
            (
                Op::ByteMath {
                    rhs: DataRef::Immediate(1),
                    lhs: su(0),
                    byte_count: if op == 0x72 { 2 } else { 1 },
                    operation: if op == 0x73 { ByteMathOp::Subtract } else { ByteMathOp::Add },
                },
                p + 1,
            ),
        )
    } else if (op == 0x63 || op == 0x64) && avail(s, p, 2) && s[p] < 32 {
        Some(
            (
                Op::BitMath {
                    rhs: DataRef::Immediate(one_shifted_right(s[p] as int)),
                    lhs: su(1),
                    operation: if op == 0x63 { BitMathOp::Or } else { BitMathOp::And },
                },
                p + 2,
            ),
        )
    } else if (op == 0x65 || op == 0x66) && avail(s, p, 2) && (s[p] & 0x7F) < 32 {
        let address = if s[p] & 0x80 > 0 { s[p + 1] + 0x100 } else { s[p + 1] as int };
        Some(
            (
                Op::BitMath {
                    rhs: DataRef::Immediate(one_shifted_right((s[p] & 0x7F) as int)),
                    lhs: DataRef::Temp(address as usize),
                    operation: if op == 0x65 { BitMathOp::Or } else { BitMathOp::And },
                },
                p + 2,
            ),
        )
    } else if (op == 0x67 || op == 0x69 || op == 0x6B || op == 0x6F) && avail(s, p, 2) {
        Some(
            (
                Op::BitMath {
                    rhs: DataRef::Immediate(s[p] as u32),
                    lhs: su(1),
                    operation: if op == 0x67 {
                        BitMathOp::And
                    } else if op == 0x69 {
                        BitMathOp::Or
                    } else if op == 0x6B {
                        BitMathOp::Xor
                    } else {
                        BitMathOp::ShiftRight
                    },
                },
                p + 2,
            ),
        )
    } else {
        None
    }
}

/// `1 >> shift` as the script data computes it.
fn one_shr(shift: u32) -> (v: u32)
    requires
        shift < 32,
    ensures
        v == one_shifted_right(shift as int),
{
    assert(shift < 32 ==> (1u32 >> shift) == (if shift == 0 { 1u32 } else { 0u32 })) by (bit_vector);
    1u32 >> shift
}

/// Decodes a math operation whose operation byte `op` was just read.
pub fn op_decode_math(op: u8, data: &mut ByteReader) -> (result: Op)
    requires
        spec_op_decode_math(op, old(data).data@, old(data).pos as int) is Some,
    ensures
        final(data).data@ == old(data).data@,
        spec_op_decode_math(op, old(data).data@, old(data).pos as int) == Some(
            (result, final(data).pos as int),
        ),
{
    match op {
        // Byte math.
        0x5B => Op::ByteMath {
            rhs: DataRef::Immediate(data.read_u8() as u32),
            lhs: DataRef::StoredUpper(data.read_u8() as usize * 2),
            byte_count: 1,
            operation: ByteMathOp::Add,
        },
        0x5D => Op::ByteMath {
            rhs: DataRef::StoredUpper(data.read_u8() as usize * 2),
            lhs: DataRef::StoredUpper(data.read_u8() as usize * 2),
            byte_count: 1,
            operation: ByteMathOp::Add,
        },
        0x5E => Op::ByteMath {
            rhs: DataRef::StoredUpper(data.read_u8() as usize * 2),
            lhs: DataRef::StoredUpper(data.read_u8() as usize * 2),
            byte_count: 2,
            operation: ByteMathOp::Add,
        },
        0x5F => Op::ByteMath {
            rhs: DataRef::Immediate(data.read_u8() as u32),
            lhs: DataRef::StoredUpper(data.read_u8() as usize * 2),
            byte_count: 1,
            operation: ByteMathOp::Subtract,
        },
        0x60 => Op::ByteMath {
            rhs: DataRef::Immediate(data.read_u8() as u32),
            lhs: DataRef::StoredUpper(data.read_u8() as usize * 2),
            byte_count: 2,
            operation: ByteMathOp::Subtract,
        },
        0x61 => Op::ByteMath {
            rhs: DataRef::StoredUpper(data.read_u8() as usize * 2),
            lhs: DataRef::StoredUpper(data.read_u8() as usize * 2),
            byte_count: 1,
            operation: ByteMathOp::Subtract,
        },
        0x71 => Op::ByteMath {
            rhs: DataRef::Immediate(1),
            lhs: DataRef::StoredUpper(data.read_u8() as usize * 2),
            byte_count: 1,
            operation: ByteMathOp::Add,
        },
        0x72 => Op::ByteMath {
            rhs: DataRef::Immediate(1),
            lhs: DataRef::StoredUpper(data.read_u8() as usize * 2),
            byte_count: 2,
            operation: ByteMathOp::Add,
        },
        0x73 => Op::ByteMath {
            rhs: DataRef::Immediate(1),
            lhs: DataRef::StoredUpper(data.read_u8() as usize * 2),
            byte_count: 1,
            operation: ByteMathOp::Subtract,
        },

        // Bit math.
        0x63 => Op::BitMath {
            rhs: DataRef::Immediate(one_shr(data.read_u8() as u32)),
            lhs: DataRef::StoredUpper(data.read_u8() as usize * 2),
            operation: BitMathOp::Or,
        },
        0x64 => Op::BitMath {
            rhs: DataRef::Immediate(one_shr(data.read_u8() as u32)),
            lhs: DataRef::StoredUpper(data.read_u8() as usize * 2),
            operation: BitMathOp::And,
        },
        0x65 => {
            let bit = data.read_u8();
            let mut address = data.read_u8() as usize;
            if bit & 0x80 > 0 {
                address += 0x100;
            }
            Op::BitMath {
                rhs: DataRef::Immediate(one_shr((bit & 0x7F) as u32)),
                lhs: DataRef::Temp(address),
                operation: BitMathOp::Or,
            }
        },
        0x66 => {
            let bit = data.read_u8();
            let mut address = data.read_u8() as usize;
            if bit & 0x80 > 0 {
                address += 0x100;
            }
            Op::BitMath {
                rhs: DataRef::Immediate(one_shr((bit & 0x7F) as u32)),
                lhs: DataRef::Temp(address),
                operation: BitMathOp::And,
            }
        },
        0x67 => Op::BitMath {
            rhs: DataRef::Immediate(data.read_u8() as u32),
            lhs: DataRef::StoredUpper(data.read_u8() as usize * 2),
            operation: BitMathOp::And,
        },
        0x69 => Op::BitMath {
            rhs: DataRef::Immediate(data.read_u8() as u32),
            lhs: DataRef::StoredUpper(data.read_u8() as usize * 2),
            operation: BitMathOp::Or,
        },
        0x6B => Op::BitMath {
            rhs: DataRef::Immediate(data.read_u8() as u32),
            lhs: DataRef::StoredUpper(data.read_u8() as usize * 2),
            operation: BitMathOp::Xor,
        },
        _ => Op::BitMath {
            rhs: DataRef::Immediate(data.read_u8() as u32),
            lhs: DataRef::StoredUpper(data.read_u8() as usize * 2),
            operation: BitMathOp::ShiftRight,
        },
    }
}

} // verus!
