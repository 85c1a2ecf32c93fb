use vstd::prelude::*;
use crate::async_event::AsyncEvent;
use crate::cycle::{cycle_next, CycleState};
use crate::outcome::{Decision, Outcome};

verus! {

/// The cycle `A -> B -> C -> A` for asynchronous callers, on the hot path:
/// a transition never suspends, so each dispatch runs start to finish.
#[derive(Debug)]
pub struct AsyncHotMachine {
    state: CycleState,
}

impl View for AsyncHotMachine {
    type V = CycleState;

    closed spec fn view(&self) -> CycleState {
        self.state
    }
}

impl Default for AsyncHotMachine {
    /// A machine in `A`.
    fn default() -> (m: Self)
        ensures
            m@ == CycleState::A,
    {
        AsyncHotMachine { state: CycleState::A }
    }
}

impl AsyncHotMachine {
    pub fn new(initial: CycleState) -> (m: Self)
        ensures
            m@ == initial,
    {
        AsyncHotMachine { state: initial }
    }

    pub fn current_state(&self) -> (s: CycleState)
        ensures
            s == self@,
    {
        self.state
    }

    /// Handler of state `A`.
    pub fn a(event: &AsyncEvent) -> (d: Decision<CycleState>)
        ensures
            d == Decision::Transition(CycleState::B),
    {
        match event {
            AsyncEvent::Next => Decision::Transition(CycleState::B),
        }
    }

    /// Handler of state `B`.
    pub fn b(event: &AsyncEvent) -> (d: Decision<CycleState>)
        ensures
            d == Decision::Transition(CycleState::C),
    {
        match event {
            AsyncEvent::Next => Decision::Transition(CycleState::C),
        }
    }

    /// Handler of state `C`.
    pub fn c(event: &AsyncEvent) -> (d: Decision<CycleState>)
        ensures
            d == Decision::Transition(CycleState::A),
    {
        match event {
            AsyncEvent::Next => Decision::Transition(CycleState::A),
        }
    }

    /// Delivers one event and commits the successor state, with no
    /// suspension point.
    pub fn dispatch(&mut self, event: &AsyncEvent) -> (r: Outcome)
        ensures
            r == Outcome::Transitioned,
            final(self)@ == cycle_next(old(self)@),
    {
        let d = match self.state {
            CycleState::A => Self::a(event),
            CycleState::B => Self::b(event),
            CycleState::C => Self::c(event),
        };
        match d {
            Decision::Transition(next) => {
                self.state = next;
                Outcome::Transitioned
            },
            Decision::Reject => Outcome::Rejected,
        }
    }
}

} // verus!
