//! The destination that the game moves to next, once the current frame is done.
use crate::destination::Destination;
use vstd::prelude::*;

verus! {

/// A pending move to a destination; the first one set wins until it is cleared.
pub struct NextDestination {
    pub destination: Option<Destination>,
    pub fade_in: bool,
}

/// The pending move after asking to go to `destination`.
pub open spec fn after_set(n: NextDestination, destination: Destination, fade_in: bool) -> NextDestination {
    if n.destination is Some {
        n
    } else {
        NextDestination { destination: Some(destination), fade_in }
    }
}

/// The pending move after dropping it.
pub open spec fn after_clear(n: NextDestination) -> NextDestination {
    NextDestination { destination: None, fade_in: n.fade_in }
}

impl NextDestination {
    /// Nothing pending; fading in by default.
    pub fn new() -> (n: NextDestination)
        ensures
            n.destination is None,
            n.fade_in,
    {
        NextDestination { destination: None, fade_in: true }
    }

    /// Sets the destination unless one is already pending.
    pub fn set(&mut self, destination: Destination, fade_in: bool)
        ensures
            *final(self) == after_set(*old(self), destination, fade_in),
    {
        if self.destination.is_some() {
            return;
        }
        self.destination = Some(destination);
        self.fade_in = fade_in;
    }

    /// Drops the pending destination.
    pub fn clear(&mut self)
        ensures
            *final(self) == after_clear(*old(self)),
    {
        self.destination = None;
    }
}

/// Once a destination is pending, asking for another changes nothing; after clearing, the
/// next one asked for is taken.
pub proof fn law_first_destination_wins(
    n: NextDestination,
    first: Destination,
    first_fade: bool,
    second: Destination,
    second_fade: bool,
)
    ensures
        after_set(after_set(n, first, first_fade), second, second_fade) == after_set(n, first, first_fade),
        after_set(after_clear(n), second, second_fade).destination == Some(second),
{
}

} // verus!
