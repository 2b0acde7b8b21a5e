//! The direction a character faces.
use vstd::prelude::*;

verus! {

/// One of four directions; characters face down unless told otherwise.
#[derive(Clone, Copy, PartialEq, Eq, Structural, Debug)]
pub enum Facing {
    Up,
    Down,
    Left,
    Right,
}

/// The index of a direction: up, down, left, right in that order.
pub open spec fn facing_index(f: Facing) -> usize {
    match f {
        Facing::Up => 0,
        Facing::Down => 1,
        Facing::Left => 2,
        Facing::Right => 3,
    }
}

/// The direction of an index; down for any index past the four.
pub open spec fn facing_of(index: usize) -> Facing {
    if index == 0 {
        Facing::Up
    } else if index == 1 {
        Facing::Down
    } else if index == 2 {
        Facing::Left
    } else if index == 3 {
        Facing::Right
    } else {
        Facing::Down
    }
}

impl Default for Facing {
    fn default() -> (f: Facing)
        ensures
            f == Facing::Down,
    {
        Facing::Down
    }
}

impl Facing {
    /// The index of the direction.
    pub fn to_index(&self) -> (index: usize)
        ensures
            index == facing_index(*self),
    {
        match self {
            Facing::Up => 0,
            Facing::Down => 1,
            Facing::Left => 2,
            Facing::Right => 3,
        }
    }

    /// The direction of an index; down for any index past the four.
    pub fn from_index(index: usize) -> (f: Facing)
        ensures
            f == facing_of(index),
    {
        match index {
            0 => Facing::Up,
            1 => Facing::Down,
            2 => Facing::Left,
            3 => Facing::Right,
            _ => Facing::Down,
        }
    }

    /// The direction held in the low two bits of a facing byte of the game data.
    pub fn from_data(data: u8) -> (f: Facing)
        ensures
            f == facing_of((data & 3) as usize),
    {
        Facing::from_index((data & 3) as usize)
    }
}

/// Turning a direction into its index and back gives the same direction.
pub proof fn law_facing_index_roundtrip(f: Facing)
    ensures
        facing_of(facing_index(f)) == f,
        facing_index(f) < 4,
{
}

/// An index below four survives the trip to a direction and back.
pub proof fn law_facing_of_index(index: usize)
    requires
        index < 4,
    ensures
        facing_index(facing_of(index)) == index,
{
}

} // verus!
