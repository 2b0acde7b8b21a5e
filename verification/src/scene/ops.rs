//! The scene script operations, as decoded from script bytes.
use vstd::prelude::*;

verus! {

/// Type of reference to an actor.
#[derive(Copy, Clone, PartialEq, Eq, Debug)]
pub enum ActorRef {
    This,
    ScriptActor(usize),
    ScriptActorStoredUpper(usize),
    PartyMember(usize),
}

/// A controller input that scripts can test.
#[derive(Copy, Clone, PartialEq, Eq, Debug)]
pub enum InputBinding {
    Dash,
    Confirm,
    A,
    B,
    X,
    Y,
    L,
    R,
}

/// Actor flag bits that scripts can test.
pub const ACTOR_FLAG_HIDDEN: u32 = 0x0002;
pub const ACTOR_FLAG_IN_BATTLE: u32 = 0x0200;

/// Source or destination values for data operations.
#[derive(Copy, Clone, PartialEq, Eq, Debug)]
pub enum DataRef {
    /// Immediate value.
    Immediate(u32),
    /// Temporary memory from 0x7E0000 to 0x7E0100.
    Temp(usize),
    /// Persistently stored space from 0x7F0000 to 0x7F0200.
    StoredLower(usize),
    /// Persistently stored space from 0x7F0200 to 0x7F0400.
    StoredUpper(usize),
    /// Entire upper space from 0x7F0000 to 0x7FFFFF.
    Upper(usize),
    /// The result value of an actor.
    ActorResult(ActorRef),
    /// The current character at the party index.
    PartyCharacter(usize),
    /// A flag of an actor.
    ActorFlag(ActorRef, u32),
    /// Button state; whether it changed since the last check.
    CurrentInput(bool),
    /// A specific input.
    Input(InputBinding),
    /// All of SNES RAM.
    RAM(usize),
    /// Up to 32 bytes.
    Bytes([u8; 32]),
    /// Next value from the random value table.
    Random,
}

/// Comparison applied by a conditional jump.
#[derive(Copy, Clone, PartialEq, Eq, Debug)]
pub enum ConditionalOp {
    Eq,
    NotEq,
    Gt,
    Lt,
    GtEq,
    LtEq,
    And,
    Or,
    Unknown(usize),
}

impl ConditionalOp {
    /// The comparison selected by an operator value in script data.
    pub fn from_value(value: usize) -> (c: ConditionalOp)
        ensures
            c == spec_conditional_op(value),
    {
        match value {
            0 => ConditionalOp::Eq,
            1 => ConditionalOp::NotEq,
            2 => ConditionalOp::Gt,
            3 => ConditionalOp::Lt,
            4 => ConditionalOp::GtEq,
            5 => ConditionalOp::LtEq,
            6 => ConditionalOp::And,
            7 => ConditionalOp::Or,
            _ => ConditionalOp::Unknown(value),
        }
    }
}

/// The comparison selected by an operator value in script data.
pub open spec fn spec_conditional_op(value: usize) -> ConditionalOp {
    if value == 0 {
        ConditionalOp::Eq
    } else if value == 1 {
        ConditionalOp::NotEq
    } else if value == 2 {
        ConditionalOp::Gt
    } else if value == 3 {
        ConditionalOp::Lt
    } else if value == 4 {
        ConditionalOp::GtEq
    } else if value == 5 {
        ConditionalOp::LtEq
    } else if value == 6 {
        ConditionalOp::And
    } else if value == 7 {
        ConditionalOp::Or
    } else {
        ConditionalOp::Unknown(value)
    }
}

/// Arithmetic applied to bytes in memory.
#[derive(Copy, Clone, PartialEq, Eq, Debug)]
pub enum ByteMathOp {
    Add,
    Subtract,
}

/// Bitwise operations applied to bytes in memory.
#[derive(Copy, Clone, PartialEq, Eq, Debug)]
pub enum BitMathOp {
    Or,
    And,
    Xor,
    ShiftRight,
}

/// How to wait for script execution.
#[derive(Copy, Clone, PartialEq, Eq, Debug)]
pub enum WaitMode {
    NoWait,
    WaitForCompletion,
    WaitForReturn,
}

/// The sub-palette a palette operation writes to.
#[derive(Copy, Clone, PartialEq, Eq, Debug)]
pub enum SubPalette {
    This,
    Index(usize),
}

/// Color math direction.
#[derive(Copy, Clone, PartialEq, Eq, Debug)]
pub enum ColorMathMode {
    Additive,
    Subtractive,
}

/// A decoded scene script operation.
#[allow(inconsistent_fields)]
#[derive(Copy, Clone, PartialEq, Eq, Debug)]
pub enum Op {
    NOP,
    Yield,
    SetScriptSpeed { speed: u8 },
    Call { actor: ActorRef, priority: usize, function: usize, wait_mode: WaitMode },
    ActorCoordinatesGet { actor: ActorRef, x: DataRef, y: DataRef },
    ActorCoordinatesSet { actor: ActorRef, x: DataRef, y: DataRef, precise: bool },
    Jump { jump_by: isize },
    JumpConditional {
        lhs: DataRef,
        rhs: DataRef,
        byte_width: usize,
        conditional_op: ConditionalOp,
        jump_by: isize,
    },
    Copy { destination: DataRef, source: DataRef, byte_count: usize },
    /// Intensities are in fifteenths, the duration in 1/60th second frames.
    ColorMath {
        mode: ColorMathMode,
        r: bool,
        g: bool,
        b: bool,
        color_start: u8,
        color_count: u8,
        intensity_start: u8,
        intensity_end: u8,
        duration: u8,
    },
    PaletteSetImmediate { sub_palette: SubPalette, color_index: usize, data: [u8; 32] },
    PaletteSet { palette: usize },
    PaletteRestore,
    ByteMath { rhs: DataRef, lhs: DataRef, byte_count: usize, operation: ByteMathOp },
    BitMath { rhs: DataRef, lhs: DataRef, operation: BitMathOp },
    Unknown { code: u8, data: [u8; 4] },
}

/// Whether `n` bytes are available at position `p`.
pub open spec fn avail(s: Seq<u8>, p: int, n: int) -> bool {
    0 <= p && p + n <= s.len()
}

} // verus!
