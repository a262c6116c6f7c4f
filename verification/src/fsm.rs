//! Finite state machines.

use vstd::prelude::*;

verus! {

/// C-like enums that implement this trait can undergo state machine
/// transitions: an event may change the state, and nothing else happens.
pub trait TransitableState: Sized + Copy {
    /// Events that can trigger a change in state.
    type Event;

    /// Process the event and change the state, if a transition applies.
    fn ingest(&mut self, event: Self::Event);
}

} // verus!
