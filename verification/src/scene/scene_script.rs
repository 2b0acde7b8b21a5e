//! Scene scripts: the script bytes of a scene and the execution state of each actor's script.
use vstd::prelude::*;
use crate::reader::ByteReader;
use crate::scene::ops::Op;
use crate::scene::scene_script_decoder::{op_decode, spec_op_decode};

verus! {

/// The function pointers of one actor's script.
pub struct SceneActorScript {
    pub ptrs: [u64; 16],
}

impl SceneActorScript {
    pub fn new(ptrs: [u64; 16]) -> (s: SceneActorScript)
        ensures
            s.ptrs == ptrs,
    {
        SceneActorScript { ptrs }
    }

    /// The state an actor's script starts in: at its first function, one operation per tick.
    pub fn get_initial_state(&self) -> (state: ActorScriptState)
        ensures
            state.ptrs == self.ptrs,
            state.address == self.ptrs@[0],
            state.ops_per_tick == 1,
            state.priority_address@ == seq![0usize, 0, 0, 0, 0, 0, 0, 0],
            state.stored_address == 0,
    {
        ActorScriptState {
            ptrs: self.ptrs,
            address: self.ptrs[0],
            ops_per_tick: 1,
            priority_address: [0; 8],
            stored_address: 0,
        }
    }
}

/// The execution state of one actor's script.
pub struct ActorScriptState {
    pub ops_per_tick: u32,
    pub address: u64,
    pub stored_address: usize,
    pub ptrs: [u64; 16],
    pub priority_address: [usize; 8],
}

impl ActorScriptState {
    pub fn new() -> (state: ActorScriptState)
        ensures
            state.ops_per_tick == 0,
            state.address == 0,
            state.stored_address == 0,
            state.ptrs@ == Seq::new(16, |i: int| 0u64),
            state.priority_address@ == Seq::new(8, |i: int| 0usize),
    {
        let state = ActorScriptState {
            ops_per_tick: 0,
            address: 0,
            stored_address: 0,
            ptrs: [0; 16],
            priority_address: [0; 8],
        };
        assert(state.ptrs@ =~= Seq::new(16, |i: int| 0u64));
        assert(state.priority_address@ =~= Seq::new(8, |i: int| 0usize));
        state
    }
}

/// A decoded operation always consumes its operation byte and never runs past the data.
pub proof fn lemma_op_decode_advances(s: Seq<u8>, p: int)
    ensures
        spec_op_decode(s, p) matches Some((op, q)) ==> p < q <= s.len(),
{
}

/// Whether executing an operation ends the run; only operations that do nothing let it go on.
pub open spec fn ends_run(op: Op) -> bool {
    op != Op::NOP
}

/// The position after the first operation from `p` on that ends the run; `None` where an
/// operation on the way cannot be decoded.
pub open spec fn spec_run_until_yield(s: Seq<u8>, p: int) -> Option<int>
    decreases s.len() - p,
{
    match spec_op_decode(s, p) {
        None => None,
        Some((op, q)) => {
            if ends_run(op) {
                Some(q)
            } else if p < q {
                spec_run_until_yield(s, q)
            } else {
                None
            }
        },
    }
}

/// Whether executing an operation ends the run.
fn op_execute(op: Op) -> (yields: bool)
    ensures
        yields == ends_run(op),
{
    match op {
        Op::NOP => false,
        _ => true,
    }
}

/// The script of a scene: its bytes and the scripts of its actors.
pub struct SceneScript {
    pub index: usize,
    pub data: ByteReader,
    pub actors: Vec<SceneActorScript>,
}

impl SceneScript {
    pub fn new(index: usize, data: Vec<u8>, actors: Vec<SceneActorScript>) -> (script: SceneScript)
        ensures
            script.index == index,
            script.data.data@ == data@,
            script.data.pos == 0,
            script.actors@ == actors@,
    {
        SceneScript { index, data: ByteReader::new(data), actors }
    }

    /// Runs an actor's script from its current address until an operation other than a no-op
    /// has been executed, and leaves the address after that operation.
    pub fn run_until_yield(&mut self, state: &mut ActorScriptState)
        requires
            spec_run_until_yield(old(self).data.data@, old(state).address as int) is Some,
        ensures
            final(self).data.data@ == old(self).data.data@,
            final(self).index == old(self).index,
            final(self).actors@ == old(self).actors@,
            final(state).address as int == spec_run_until_yield(
                old(self).data.data@,
                old(state).address as int,
            ).unwrap(),
            final(self).data.pos == final(state).address,
            final(state).ptrs == old(state).ptrs,
            final(state).ops_per_tick == old(state).ops_per_tick,
            final(state).stored_address == old(state).stored_address,
            final(state).priority_address == old(state).priority_address,
    {
        let ghost s = self.data.data@;
        let ghost target = spec_run_until_yield(s, state.address as int).unwrap();
        let len = self.data.len();
        proof {
            lemma_op_decode_advances(s, state.address as int);
        }
        self.data.seek(state.address as usize);
        loop
            invariant_except_break
                spec_run_until_yield(s, self.data.pos as int) == Some(target),
            invariant
                self.data.data@ == s,
                s.len() == len,
                self.data.pos <= len,
                state.ptrs == old(state).ptrs,
                state.ops_per_tick == old(state).ops_per_tick,
                state.stored_address == old(state).stored_address,
                state.priority_address == old(state).priority_address,
                self.index == old(self).index,
                self.actors@ == old(self).actors@,
            ensures
                state.address == target,
                self.data.pos == target,
            decreases len - self.data.pos,
        {
            let ghost p = self.data.pos as int;
            proof {
                lemma_op_decode_advances(s, p);
            }
            let op = op_decode(&mut self.data);
            state.address = self.data.pos as u64;
            if op_execute(op) {
                break;
            }
        }
    }
}

} // verus!
