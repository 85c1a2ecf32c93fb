use vstd::prelude::*;
use crate::cycle::{cycle_next, CycleState};
use crate::outcome::{Decision, Outcome};

verus! {

/// The events of the cycle machine.
#[derive(Debug, Clone, Copy, PartialEq, Eq, Structural)]
pub enum BasicEvent {
    Next,
}

/// A cycle machine without guards or actions: every event moves to the
/// successor state.
#[derive(Debug)]
pub struct BasicMachine {
    state: CycleState,
}

impl View for BasicMachine {
    type V = CycleState;

    closed spec fn view(&self) -> CycleState {
        self.state
    }
}

impl Default for BasicMachine {
    /// A machine in `A`.
    fn default() -> (m: Self)
        ensures
            m@ == CycleState::A,
    {
        BasicMachine { state: CycleState::A }
    }
}

impl BasicMachine {
    pub fn new(initial: CycleState) -> (m: Self)
        ensures
            m@ == initial,
    {
        BasicMachine { state: initial }
    }

    pub fn current_state(&self) -> (s: CycleState)
        ensures
            s == self@,
    {
        self.state
    }

    /// Handler of state `A`.
    pub fn a(event: &BasicEvent) -> (d: Decision<CycleState>)
        ensures
            d == Decision::Transition(CycleState::B),
    {
        match event {
            BasicEvent::Next => Decision::Transition(CycleState::B),
        }
    }

    /// Handler of state `B`.
    pub fn b(event: &BasicEvent) -> (d: Decision<CycleState>)
        ensures
            d == Decision::Transition(CycleState::C),
    {
        match event {
            BasicEvent::Next => Decision::Transition(CycleState::C),
        }
    }

    /// Handler of state `C`.
    pub fn c(event: &BasicEvent) -> (d: Decision<CycleState>)
        ensures
            d == Decision::Transition(CycleState::A),
    {
        match event {
            BasicEvent::Next => Decision::Transition(CycleState::A),
        }
    }

    /// Delivers one event: the current state's handler picks the next
    /// state, which is committed.
    pub fn dispatch(&mut self, event: &BasicEvent) -> (r: Outcome)
        ensures
            r == Outcome::Transitioned,
            final(self)@ == cycle_next(old(self)@),
    {
        let d = match self.state {
            CycleState::A => Self::a(event),
            CycleState::B => Self::b(event),
            CycleState::C => Self::c(event),
        };
        match d {
            Decision::Transition(next) => {
                self.state = next;
                Outcome::Transitioned
            },
            Decision::Reject => Outcome::Rejected,
        }
    }
}

} // verus!
