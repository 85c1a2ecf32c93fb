use vstd::prelude::*;

verus! {

/// What a dispatch did with its event.
#[derive(Debug, Clone, Copy, PartialEq, Eq, Structural)]
pub enum Outcome {
    /// The event was accepted: a state was committed (possibly the same one)
    /// and the actions of the transition ran.
    Transitioned,
    /// The event did not advance the machine; nothing was changed.
    Rejected,
}

/// What a state handler decided for one event.
#[derive(Debug, PartialEq, Eq)]
pub enum Decision<S> {
    /// Move to (or stay in) the given state.
    Transition(S),
    /// Refuse the event.
    Reject,
}

} // verus!
