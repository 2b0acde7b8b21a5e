//! Decoding of the function call operations.
use vstd::prelude::*;
use crate::reader::ByteReader;
use crate::scene::ops::{avail, ActorRef, Op, WaitMode};

verus! {

/// The wait mode of the call operations 0x02 to 0x07.
pub open spec fn call_wait_mode(op: u8) -> WaitMode {
    if op == 0x02 || op == 0x05 {
        WaitMode::NoWait
    } else if op == 0x03 || op == 0x06 {
        WaitMode::WaitForCompletion
    } else {
        WaitMode::WaitForReturn
    }
}

/// A call operation: an actor byte (twice the index) and a byte with the priority in the upper
/// and the function in the lower nibble. Operations 0x02 to 0x04 call a script actor, 0x05 to
/// 0x07 the actor of a party member.
pub open spec fn spec_op_decode_call(op: u8, s: Seq<u8>, p: int) -> Option<(Op, int)> {
    if 0x02 <= op <= 0x07 && avail(s, p, 2) {
        let index = (s[p] / 2) as usize;
        let bits = s[p + 1];
        let actor = if op <= 0x04 {
            ActorRef::ScriptActor(index)
        } else {
            ActorRef::PartyMember(index)
        };
        Some(
            (
                Op::Call {
                    actor,
                    function: (bits & 0x0F) as usize,
                    priority: ((bits & 0xF0) as usize) >> 4,
                    wait_mode: call_wait_mode(op),
                },
                p + 2,
            ),
        )
    } else {
        None
    }
}

/// Decodes a call operation whose operation byte `op` was just read.
pub fn op_decode_call(op: u8, data: &mut ByteReader) -> (result: Op)
    requires
        spec_op_decode_call(op, old(data).data@, old(data).pos as int) is Some,
    ensures
        final(data).data@ == old(data).data@,
        spec_op_decode_call(op, old(data).data@, old(data).pos as int) == Some(
            (result, final(data).pos as int),
        ),
{
    let actor_index = data.read_u8() as usize / 2;
    let bits = data.read_u8();
    let function = (bits & 0x0F) as usize;
    let priority = (bits & 0xF0) as usize >> 4;
    match op {
        // Call function on actor.
        // If current function priority < priority
        //   Saves the current execution position
        //   Calls function in priority slot
        // If current function priority == priority
        //   Do nothing
        // If current function priority > priority
        //   Set the function exit address to point to the function
        //   Only if the exit address is not defined yet.
        // Note that higher priority number == less urgent.
        0x02 => Op::Call {
            actor: ActorRef::ScriptActor(actor_index),
            function,
            priority,
            wait_mode: WaitMode::NoWait,
        },
        // Wait until the other actor completes a more urgent task, then call as in 0x02.
        0x03 => Op::Call {
            actor: ActorRef::ScriptActor(actor_index),
            function,
            priority,
            wait_mode: WaitMode::WaitForCompletion,
        },
        // Wait until the other actor completes a more urgent task, then call as in 0x02,
        // then wait until that function completes.
        0x04 => Op::Call {
            actor: ActorRef::ScriptActor(actor_index),
            function,
            priority,
            wait_mode: WaitMode::WaitForReturn,
        },
        // Same as 0x02, 0x03 and 0x04, but calls the actor of a specific party member.
        0x05 => Op::Call {
            actor: ActorRef::PartyMember(actor_index),
            function,
            priority,
            wait_mode: WaitMode::NoWait,
        },
        0x06 => Op::Call {
            actor: ActorRef::PartyMember(actor_index),
            function,
            priority,
            wait_mode: WaitMode::WaitForCompletion,
        },
        _ => Op::Call {
            actor: ActorRef::PartyMember(actor_index),
            function,
            priority,
            wait_mode: WaitMode::WaitForReturn,
        },
    }
}

} // verus!
