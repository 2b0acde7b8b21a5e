//! Decoding of the jump operations.
use vstd::prelude::*;
use crate::reader::{le16, ByteReader};
use crate::scene::ops::{
    avail, spec_conditional_op, ActorRef, ConditionalOp, DataRef, InputBinding, Op,
    ACTOR_FLAG_HIDDEN, ACTOR_FLAG_IN_BATTLE,
};

verus! {

/// A conditional jump.
pub open spec fn cond_jump(
    lhs: DataRef,
    rhs: DataRef,
    byte_width: usize,
    conditional_op: ConditionalOp,
    jump_by: u8,
) -> Op {
    Op::JumpConditional { lhs, rhs, byte_width, conditional_op, jump_by: jump_by as isize }
}

/// The input tested by the input jump operations, and whether only a change since the last test
/// counts.
pub open spec fn spec_input_jump(op: u8) -> Option<(bool, InputBinding)> {
    if op == 0x30 {
        Some((false, InputBinding::Dash))
    } else if op == 0x31 {
        Some((false, InputBinding::Confirm))
    } else if op == 0x34 {
        Some((false, InputBinding::A))
    } else if op == 0x35 {
        Some((false, InputBinding::B))
    } else if op == 0x36 {
        Some((false, InputBinding::X))
    } else if op == 0x37 {
        Some((false, InputBinding::Y))
    } else if op == 0x38 {
        Some((false, InputBinding::L))
    } else if op == 0x39 {
        Some((false, InputBinding::R))
    } else if op == 0x3B {
        Some((true, InputBinding::Dash))
    } else if op == 0x3C {
        Some((true, InputBinding::Confirm))
    } else if op == 0x3F {
        Some((true, InputBinding::A))
    } else if op == 0x40 {
        Some((true, InputBinding::B))
    } else if op == 0x41 {
        Some((true, InputBinding::X))
    } else if op == 0x42 {
        Some((true, InputBinding::Y))
    } else if op == 0x43 {
        Some((true, InputBinding::L))
    } else if op == 0x44 {
        Some((true, InputBinding::R))
    } else {
        None
    }
}

/// The jump operation `op` read from the bytes at `p`, and the position after it; `None` for an
/// operation that is not a jump or that runs past the end of the data.
pub open spec fn spec_op_decode_jump(op: u8, s: Seq<u8>, p: int) -> Option<(Op, int)> {
    if op == 0x10 && avail(s, p, 1) {
        Some((Op::Jump { jump_by: s[p] as isize }, p + 1))
    } else if op == 0x11 && avail(s, p, 1) {
        Some((Op::Jump { jump_by: (-(s[p] as int)) as isize }, p + 1))
    } else if op == 0x12 && avail(s, p, 4) {
        Some(
            (
                cond_jump(
                    DataRef::StoredUpper((s[p] * 2) as usize),
                    DataRef::Immediate(s[p + 1] as u32),
                    1,
                    spec_conditional_op(s[p + 2] as usize),
                    s[p + 3],
                ),
                p + 4,
            ),
        )
    } else if op == 0x13 && avail(s, p, 5) {
        Some(
            (
                cond_jump(
                    DataRef::StoredUpper((s[p] * 2) as usize),
                    DataRef::Immediate(le16(s, p + 1) as u32),
                    2,
                    spec_conditional_op(s[p + 3] as usize),
                    s[p + 4],
                ),
                p + 5,
            ),
        )
    } else if (op == 0x14 || op == 0x15) && avail(s, p, 4) {
        Some(
            (
                cond_jump(
                    DataRef::StoredUpper((s[p] * 2) as usize),
                    DataRef::StoredUpper((s[p + 1] * 2) as usize),
                    if op == 0x14 { 1 } else { 2 },
                    spec_conditional_op(s[p + 2] as usize),
                    s[p + 3],
                ),
                p + 4,
            ),
        )
    } else if op == 0x16 && avail(s, p, 4) {
        let upper = s[p + 2] & 0x80 > 0;
        Some(
            (
                cond_jump(
                    DataRef::StoredLower((if upper { s[p] + 0x100 } else { s[p] as int }) as usize),
                    DataRef::Immediate((s[p + 1] & 0x7F) as u32),
                    1,
                    spec_conditional_op((s[p + 2] & 0x7F) as usize),
                    s[p + 3],
                ),
                p + 4,
            ),
        )
    } else if op == 0x18 && avail(s, p, 2) {
        Some(
            (
                cond_jump(
                    DataRef::StoredLower(0),
                    DataRef::Immediate(s[p] as u32),
                    1,
                    ConditionalOp::Lt,
                    s[p + 1],
                ),
                p + 2,
            ),
        )
    } else if op == 0x1A && avail(s, p, 2) {
        Some(
            (
                cond_jump(
                    DataRef::ActorResult(ActorRef::This),
                    DataRef::Immediate(s[p] as u32),
                    1,
                    ConditionalOp::Eq,
                    s[p + 1],
                ),
                p + 2,
            ),
        )
    } else if (op == 0x27 || op == 0x28) && avail(s, p, 2) {
        Some(
            (
                cond_jump(
                    DataRef::ActorFlag(
                        ActorRef::ScriptActor((s[p] * 2) as usize),
                        if op == 0x27 { ACTOR_FLAG_HIDDEN } else { ACTOR_FLAG_IN_BATTLE },
                    ),
                    DataRef::Immediate(1),
                    1,
                    ConditionalOp::Eq,
                    s[p + 1],
                ),
                p + 2,
            ),
        )
    } else if op == 0x2D && avail(s, p, 1) {
        Some(
            (
                cond_jump(
                    DataRef::CurrentInput(false),
                    DataRef::Immediate(0),
                    1,
                    ConditionalOp::NotEq,
                    s[p],
                ),
                p + 1,
            ),
        )
    } else if spec_input_jump(op) is Some && avail(s, p, 1) {
        let (changed, binding) = spec_input_jump(op).unwrap();
        Some(
            (
                cond_jump(
                    DataRef::CurrentInput(changed),
                    DataRef::Input(binding),
                    1,
                    ConditionalOp::Or,
                    s[p],
                ),
                p + 1,
            ),
        )
    } else {
        None
    }
}

/// The input tested by an input jump operation.
fn input_jump(op: u8) -> (r: Option<(bool, InputBinding)>)
    ensures
        r == spec_input_jump(op),
{
    match op {
        0x30 => Some((false, InputBinding::Dash)),
        0x31 => Some((false, InputBinding::Confirm)),
        0x34 => Some((false, InputBinding::A)),
        0x35 => Some((false, InputBinding::B)),
        0x36 => Some((false, InputBinding::X)),
        0x37 => Some((false, InputBinding::Y)),
        0x38 => Some((false, InputBinding::L)),
        0x39 => Some((false, InputBinding::R)),
        0x3B => Some((true, InputBinding::Dash)),
        0x3C => Some((true, InputBinding::Confirm)),
        0x3F => Some((true, InputBinding::A)),
        0x40 => Some((true, InputBinding::B)),
        0x41 => Some((true, InputBinding::X)),
        0x42 => Some((true, InputBinding::Y)),
        0x43 => Some((true, InputBinding::L)),
        0x44 => Some((true, InputBinding::R)),
        _ => None,
    }
}

/// Decodes a jump operation whose operation byte `op` was just read.
pub fn op_decode_jump(op: u8, data: &mut ByteReader) -> (result: Op)
    requires
        spec_op_decode_jump(op, old(data).data@, old(data).pos as int) is Some,
    ensures
        final(data).data@ == old(data).data@,
        spec_op_decode_jump(op, old(data).data@, old(data).pos as int) == Some(
            (result, final(data).pos as int),
        ),
{
    match op {
        // Relative unconditional jumps.
        0x10 => Op::Jump { jump_by: data.read_u8() as isize },
        0x11 => Op::Jump { jump_by: -(data.read_u8() as isize) },

        // 1 byte direct compare with 0x7F0200.
        0x12 => Op::JumpConditional {
            lhs: DataRef::StoredUpper(data.read_u8() as usize * 2),
            rhs: DataRef::Immediate(data.read_u8() as u32),
            byte_width: 1,
            conditional_op: ConditionalOp::from_value(data.read_u8() as usize),
            jump_by: data.read_u8() as isize,
        },
        // 2 byte direct compare with 0x7F0200.
        0x13 => Op::JumpConditional {
            lhs: DataRef::StoredUpper(data.read_u8() as usize * 2),
            rhs: DataRef::Immediate(data.read_u16_le() as u32),
            byte_width: 2,
            conditional_op: ConditionalOp::from_value(data.read_u8() as usize),
            jump_by: data.read_u8() as isize,
        },
        // 1 byte from 0x7F0200 compare with 0x7F0200.
        0x14 => Op::JumpConditional {
            lhs: DataRef::StoredUpper(data.read_u8() as usize * 2),
            rhs: DataRef::StoredUpper(data.read_u8() as usize * 2),
            byte_width: 1,
            conditional_op: ConditionalOp::from_value(data.read_u8() as usize),
            jump_by: data.read_u8() as isize,
        },
        // 2 byte from 0x7F0200 compare with 0x7F0200.
        0x15 => Op::JumpConditional {
            lhs: DataRef::StoredUpper(data.read_u8() as usize * 2),
            rhs: DataRef::StoredUpper(data.read_u8() as usize * 2),
            byte_width: 2,
            conditional_op: ConditionalOp::from_value(data.read_u8() as usize),
            jump_by: data.read_u8() as isize,
        },
        // 1 byte direct compare with 0x7F0000 or 0x7F0100.
        0x16 => {
            let mut lhs = data.read_u8() as usize;
            let value = data.read_u8();
            let op_value = data.read_u8();
            if op_value & 0x80 > 0 {
                lhs += 0x100;
            }
            Op::JumpConditional {
                lhs: DataRef::StoredLower(lhs),
                rhs: DataRef::Immediate((value & 0x7F) as u32),
                byte_width: 1,
                conditional_op: ConditionalOp::from_value(op_value as usize & 0x7F),
                jump_by: data.read_u8() as isize,
            }
        },
        // Less than with storyline counter.
        0x18 => Op::JumpConditional {
            lhs: DataRef::StoredLower(0x000),
            rhs: DataRef::Immediate(data.read_u8() as u32),
            byte_width: 1,
            conditional_op: ConditionalOp::Lt,
            jump_by: data.read_u8() as isize,
        },
        // Equal with actor result.
        0x1A => Op::JumpConditional {
            lhs: DataRef::ActorResult(ActorRef::This),
            rhs: DataRef::Immediate(data.read_u8() as u32),
            byte_width: 1,
            conditional_op: ConditionalOp::Eq,
            jump_by: data.read_u8() as isize,
        },
        // If actor is hidden.
        0x27 => Op::JumpConditional {
            lhs: DataRef::ActorFlag(
                ActorRef::ScriptActor(data.read_u8() as usize * 2),
                ACTOR_FLAG_HIDDEN,
            ),
            rhs: DataRef::Immediate(1),
            byte_width: 1,
            conditional_op: ConditionalOp::Eq,
            jump_by: data.read_u8() as isize,
        },
        // If actor is in battle.
        0x28 => Op::JumpConditional {
            lhs: DataRef::ActorFlag(
                ActorRef::ScriptActor(data.read_u8() as usize * 2),
                ACTOR_FLAG_IN_BATTLE,
            ),
            rhs: DataRef::Immediate(1),
            byte_width: 1,
            conditional_op: ConditionalOp::Eq,
            jump_by: data.read_u8() as isize,
        },
        // Jump on input tests.
        0x2D => Op::JumpConditional {
            lhs: DataRef::CurrentInput(false),
            rhs: DataRef::Immediate(0),
            byte_width: 1,
            conditional_op: ConditionalOp::NotEq,
            jump_by: data.read_u8() as isize,
        },
        // Jump on a specific input, optionally only if changed since the last test.
        _ => {
            let (changed, binding) = input_jump(op).unwrap();
            Op::JumpConditional {
                lhs: DataRef::CurrentInput(changed),
                rhs: DataRef::Input(binding),
                byte_width: 1,
                conditional_op: ConditionalOp::Or,
                jump_by: data.read_u8() as isize,
            }
        },
    }
}

} // verus!
