use vstd::prelude::*;
use crate::async_event::AsyncEvent;
use crate::cycle::{cycle_next, CycleState};
use crate::outcome::{Decision, Outcome};

verus! {

/// The abstract value of a cold-path machine: the committed state, and the
/// target of the transition in flight, if one is.
pub struct ColdView {
    pub state: CycleState,
    pub pending: Option<CycleState>,
}

/// The machine after the decision phase of a transition, at its suspension
/// point. The committed state is untouched; the decided target waits.
pub open spec fn cold_begin(v: ColdView) -> ColdView {
    ColdView { state: v.state, pending: Some(cycle_next(v.state)) }
}

/// The machine after resuming: the decided target is committed as it was
/// decided, with no new decision.
pub open spec fn cold_resume(v: ColdView) -> ColdView {
    match v.pending {
        Some(t) => ColdView { state: t, pending: None },
        None => v,
    }
}

/// The machine after the transition in flight was abandoned.
pub open spec fn cold_cancel(v: ColdView) -> ColdView {
    ColdView { state: v.state, pending: None }
}

/// No partial commit under suspension: between the suspension point and
/// resumption the committed state is the one from before the transition;
/// abandoning the transition there leaves that state; resuming commits the
/// successor, as a run to completion would.
pub proof fn lemma_no_partial_commit(v: ColdView)
    ensures
        cold_begin(v).state == v.state,
        cold_cancel(cold_begin(v)).state == v.state,
        cold_cancel(cold_begin(v)).pending is None,
        cold_resume(cold_begin(v)) == (ColdView { state: cycle_next(v.state), pending: None }),
{
}

/// The cycle `A -> B -> C -> A` on the cold path: each transition has one
/// suspension point, between deciding the target and committing it. A
/// caller runs `begin`, may yield to its scheduler, and then runs `resume`;
/// at most one transition is in flight at a time.
#[derive(Debug)]
pub struct AsyncColdMachine {
    state: CycleState,
    pending: Option<CycleState>,
}

impl View for AsyncColdMachine {
    type V = ColdView;

    closed spec fn view(&self) -> ColdView {
        ColdView { state: self.state, pending: self.pending }
    }
}

impl Default for AsyncColdMachine {
    /// A machine in `A`, with no transition in flight.
    fn default() -> (m: Self)
        ensures
            m@ == (ColdView { state: CycleState::A, pending: None }),
    {
        AsyncColdMachine { state: CycleState::A, pending: None }
    }
}

impl AsyncColdMachine {
    /// A machine in `initial`, with no transition in flight.
    pub fn new(initial: CycleState) -> (m: Self)
        ensures
            m@ == (ColdView { state: initial, pending: None }),
    {
        AsyncColdMachine { state: initial, pending: None }
    }

    /// The committed state; a transition in flight does not show here.
    pub fn current_state(&self) -> (s: CycleState)
        ensures
            s == self@.state,
    {
        self.state
    }

    /// Whether a transition is waiting at its suspension point.
    pub fn is_suspended(&self) -> (r: bool)
        ensures
            r == self@.pending is Some,
    {
        self.pending.is_some()
    }

    /// Handler of state `A`.
    pub fn a(event: &AsyncEvent) -> (d: Decision<CycleState>)
        ensures
            d == Decision::Transition(CycleState::B),
    {
        match event {
            AsyncEvent::Next => Decision::Transition(CycleState::B),
        }
    }

    /// Handler of state `B`.
    pub fn b(event: &AsyncEvent) -> (d: Decision<CycleState>)
        ensures
            d == Decision::Transition(CycleState::C),
    {
        match event {
            AsyncEvent::Next => Decision::Transition(CycleState::C),
        }
    }

    /// Handler of state `C`.
    pub fn c(event: &AsyncEvent) -> (d: Decision<CycleState>)
        ensures
            d == Decision::Transition(CycleState::A),
    {
        match event {
            AsyncEvent::Next => Decision::Transition(CycleState::A),
        }
    }

    /// The phase before the suspension point: the handler of the committed
    /// state decides the target, which is held until `resume`. A transition
    /// left in flight by an earlier, abandoned dispatch is dropped.
    pub fn begin(&mut self, event: &AsyncEvent)
        ensures
            final(self)@ == cold_begin(old(self)@),
    {
        let d = match self.state {
            CycleState::A => Self::a(event),
            CycleState::B => Self::b(event),
            CycleState::C => Self::c(event),
        };
        self.pending = match d {
            Decision::Transition(next) => Some(next),
            Decision::Reject => None,
        };
    }

    /// The phase after the suspension point: commits the target decided by
    /// `begin`. With nothing in flight the call is rejected and changes
    /// nothing.
    pub fn resume(&mut self) -> (r: Outcome)
        ensures
            final(self)@ == cold_resume(old(self)@),
            r == (if old(self)@.pending is Some {
                Outcome::Transitioned
            } else {
                Outcome::Rejected
            }),
    {
        match self.pending {
            Some(next) => {
                self.state = next;
                self.pending = None;
                Outcome::Transitioned
            },
            None => Outcome::Rejected,
        }
    }

    /// Abandons the transition in flight, if any; the committed state stays.
    pub fn cancel(&mut self)
        ensures
            final(self)@ == cold_cancel(old(self)@),
    {
        self.pending = None;
    }
}

} // verus!
