//! Finite state machines driven by events; an event a state does not accept
//! leaves the machine where it is.

use vstd::prelude::*;

verus! {

/// The event is not accepted in the current state.
#[derive(Clone, Copy, Debug, PartialEq, Eq, Structural)]
pub struct InvalidState;

/// A state that knows its successor for each event it accepts.
pub trait MachineState<Event>: Sized + Copy {
    /// The successor of `self` on `event`, `None` when the event is refused.
    spec fn transition(self, event: Event) -> Option<Self>;

    fn send(&self, event: Event) -> (r: Result<Self, InvalidState>)
        ensures
            match self.transition(event) {
                Some(next) => r == Ok::<Self, InvalidState>(next),
                None => r == Err::<Self, InvalidState>(InvalidState),
            },
    ;
}

/// The state after `event`: the successor when the event is accepted, the
/// same state otherwise.
pub open spec fn spec_step<S: MachineState<E>, E>(state: S, event: E) -> S {
    match state.transition(event) {
        Some(next) => next,
        None => state,
    }
}

/// Applies one event to a machine's state.
pub fn step<S: MachineState<E>, E: Copy>(state: S, event: E) -> (r: S)
    ensures
        r == spec_step(state, event),
{
    match state.send(event) {
        Ok(next) => next,
        Err(_) => state,
    }
}

} // verus!
