use vstd::prelude::*;
use crate::outcome::{Decision, Outcome};

verus! {

/// The states of the guarded counter `Idle -> Counting -> Finished -> Idle`.
#[derive(Debug, Clone, Copy, PartialEq, Eq, Structural)]
pub enum GuardState {
    Idle,
    Counting,
    Finished,
}

/// The events of the guarded counter.
#[derive(Debug, Clone, Copy, PartialEq, Eq, Structural)]
pub enum GuardEvent {
    Next,
}

/// What `Counting` does with an event once its guard has failed.
#[derive(Debug, Clone, Copy, PartialEq, Eq, Structural)]
pub enum GuardPolicy {
    /// Leave for `Finished`, running the exit action of `Counting`.
    Leave,
    /// Stay in `Counting` and reject the event.
    Hold,
}

/// The bound of a machine made by `default`: the largest count there is.
pub const DEFAULT_BOUND: usize = usize::MAX;

/// The abstract value of a guarded counter.
pub struct GuardView {
    pub state: GuardState,
    pub counter: usize,
    pub bound: usize,
    pub policy: GuardPolicy,
}

/// The guard of `Counting`: the counter is still below the bound.
pub open spec fn guard_holds(v: GuardView) -> bool {
    v.counter < v.bound
}

/// The exit action of `Counting`: one more on the counter, wrapping at the
/// top of `usize`.
pub open spec fn counter_bumped(c: usize) -> usize {
    if c < usize::MAX {
        (c + 1) as usize
    } else {
        0
    }
}

/// Whether an event in this state is refused.
pub open spec fn guard_rejects(v: GuardView) -> bool {
    v.state == GuardState::Counting && !guard_holds(v) && v.policy == GuardPolicy::Hold
}

/// The machine after one event.
pub open spec fn guard_step(v: GuardView) -> GuardView {
    match v.state {
        GuardState::Idle => GuardView { state: GuardState::Counting, counter: 0, ..v },
        GuardState::Counting => {
            if guard_holds(v) {
                GuardView { counter: (v.counter + 1) as usize, ..v }
            } else if v.policy == GuardPolicy::Leave {
                GuardView { state: GuardState::Finished, counter: counter_bumped(v.counter), ..v }
            } else {
                v
            }
        },
        GuardState::Finished => GuardView { state: GuardState::Idle, counter: 0, ..v },
    }
}

/// The machine after `n` events.
pub open spec fn guard_after(v: GuardView, n: nat) -> GuardView
    decreases n,
{
    if n == 0 {
        v
    } else {
        guard_after(guard_step(v), (n - 1) as nat)
    }
}

/// While the guard holds, each event in `Counting` adds one to the counter
/// and stays in `Counting`: `n` such events from counter `c` give `c + n`.
pub proof fn lemma_counting_steps(v: GuardView, n: nat)
    requires
        v.state == GuardState::Counting,
        v.counter + n <= v.bound,
    ensures
        guard_after(v, n) == (GuardView { counter: (v.counter + n) as usize, ..v }),
    decreases n,
{
    if n > 0 {
        let w = guard_step(v);
        lemma_counting_steps(w, (n - 1) as nat);
    }
}

/// Guard boundary: from `Counting` with a zero counter and bound `N`, each of
/// the first `N` events keeps the machine in `Counting` (counting one each,
/// with no exit action), and event `N + 1` leaves for `Finished`, where the
/// exit action has added one, once.
pub proof fn lemma_guard_boundary(v: GuardView, k: nat)
    requires
        v.state == GuardState::Counting,
        v.counter == 0,
        v.policy == GuardPolicy::Leave,
        k <= v.bound,
    ensures
        guard_after(v, k).state == GuardState::Counting,
        guard_after(v, k).counter == k,
        guard_after(v, (v.bound + 1) as nat).state == GuardState::Finished,
        guard_after(v, (v.bound + 1) as nat).counter == counter_bumped(v.bound),
{
    lemma_counting_steps(v, k);
    lemma_counting_steps(v, v.bound as nat);
    lemma_guard_after_split(v, v.bound as nat, 1);
    reveal_with_fuel(guard_after, 2);
}

/// Walking `m + n` events is walking `m` events and then `n` more.
pub proof fn lemma_guard_after_split(v: GuardView, m: nat, n: nat)
    ensures
        guard_after(v, m + n) == guard_after(guard_after(v, m), n),
    decreases m,
{
    if m > 0 {
        lemma_guard_after_split(guard_step(v), (m - 1) as nat, n);
        assert((m + n - 1) as nat == (m - 1) as nat + n);
    }
}

/// Accumulator reset: whatever the counter held, an event that brings the
/// machine into `Idle` leaves the counter at zero.
pub proof fn lemma_guard_reset(v: GuardView)
    ensures
        guard_step(v).state == GuardState::Idle ==> guard_step(v).counter == 0,
        v.state == GuardState::Finished ==> guard_step(v).state == GuardState::Idle,
{
}

/// A counter that counts events in `Counting` while its guard holds, and
/// leaves `Counting` (or holds there) once the counter reaches the bound.
#[derive(Debug)]
pub struct GuardMachine {
    state: GuardState,
    counter: usize,
    bound: usize,
    policy: GuardPolicy,
}

impl View for GuardMachine {
    type V = GuardView;

    closed spec fn view(&self) -> GuardView {
        GuardView {
            state: self.state,
            counter: self.counter,
            bound: self.bound,
            policy: self.policy,
        }
    }
}

impl Default for GuardMachine {
    /// A machine in `Idle` whose guard fails only at the top of `usize`, and which then leaves `Counting`.
    fn default() -> (m: Self)
        ensures
            m@ == (GuardView { state: GuardState::Idle, counter: 0, bound: DEFAULT_BOUND, policy: GuardPolicy::Leave }),
    {
        GuardMachine { state: GuardState::Idle, counter: 0, bound: DEFAULT_BOUND, policy: GuardPolicy::Leave }
    }
}

impl GuardMachine {
    /// A machine in `initial` with a zero counter.
    pub fn new(initial: GuardState, bound: usize, policy: GuardPolicy) -> (m: Self)
        ensures
            m@ == (GuardView { state: initial, counter: 0, bound, policy }),
    {
        GuardMachine { state: initial, counter: 0, bound, policy }
    }

    pub fn current_state(&self) -> (s: GuardState)
        ensures
            s == self@.state,
    {
        self.state
    }

    pub fn counter(&self) -> (c: usize)
        ensures
            c == self@.counter,
    {
        self.counter
    }

    pub fn bound(&self) -> (b: usize)
        ensures
            b == self@.bound,
    {
        self.bound
    }

    pub fn policy(&self) -> (p: GuardPolicy)
        ensures
            p == self@.policy,
    {
        self.policy
    }

    /// The guard of `Counting`; it reads the counter and changes nothing.
    pub fn below_bound(&self) -> (r: bool)
        ensures
            r == guard_holds(self@),
    {
        self.counter < self.bound
    }

    /// Handler of `Idle`: starts a count from zero.
    pub fn idle(&mut self, event: &GuardEvent) -> (d: Decision<GuardState>)
        ensures
            d == Decision::Transition(GuardState::Counting),
            final(self)@ == (GuardView { counter: 0, ..old(self)@ }),
    {
        match event {
            GuardEvent::Next => {
                self.counter = 0;
                Decision::Transition(GuardState::Counting)
            },
        }
    }

    /// Handler of `Counting`: counts the event while the guard holds;
    /// otherwise leaves or rejects, as the policy says.
    pub fn counting(&mut self, event: &GuardEvent) -> (d: Decision<GuardState>)
        ensures
            guard_holds(old(self)@) ==> d == Decision::Transition(GuardState::Counting)
                && final(self)@ == (GuardView { counter: (old(self)@.counter + 1) as usize, ..old(self)@ }),
            !guard_holds(old(self)@) ==> final(self)@ == old(self)@ && d == (
                if old(self)@.policy == GuardPolicy::Leave {
                    Decision::Transition(GuardState::Finished)
                } else {
                    Decision::Reject
                }),
    {
        match event {
            GuardEvent::Next => {
                if self.below_bound() {
                    self.counter = self.counter + 1;
                    Decision::Transition(GuardState::Counting)
                } else {
                    match self.policy {
                        GuardPolicy::Leave => Decision::Transition(GuardState::Finished),
                        GuardPolicy::Hold => Decision::Reject,
                    }
                }
            },
        }
    }

    /// Handler of `Finished`: back to `Idle`.
    pub fn finished(&mut self, event: &GuardEvent) -> (d: Decision<GuardState>)
        ensures
            d == Decision::Transition(GuardState::Idle),
            final(self)@ == old(self)@,
    {
        match event {
            GuardEvent::Next => Decision::Transition(GuardState::Idle),
        }
    }

    /// Exit action of `Counting`: one more on the counter, wrapping.
    pub fn increment_counter(&mut self)
        ensures
            final(self)@ == (GuardView { counter: counter_bumped(old(self)@.counter), ..old(self)@ }),
    {
        self.counter = self.counter.wrapping_add(1);
    }

    /// Entry action of `Idle`: the counter starts again from zero.
    fn reset_counter(&mut self)
        ensures
            final(self)@ == (GuardView { counter: 0, ..old(self)@ }),
    {
        self.counter = 0;
    }

    /// Delivers one event. The handler of the current state decides (and
    /// evaluates the guard first, in `Counting`); when the state changes,
    /// the exit action of the old state runs, the new state is committed,
    /// and then the entry action of the new state runs. A rejected event
    /// changes nothing.
    pub fn dispatch(&mut self, event: &GuardEvent) -> (r: Outcome)
        ensures
            final(self)@ == guard_step(old(self)@),
            r == (if guard_rejects(old(self)@) {
                Outcome::Rejected
            } else {
                Outcome::Transitioned
            }),
    {
        let from = self.state;
        let d = match from {
            GuardState::Idle => self.idle(event),
            GuardState::Counting => self.counting(event),
            GuardState::Finished => self.finished(event),
        };
        match d {
            Decision::Transition(to) => {
                if to != from && from == GuardState::Counting {
                    self.increment_counter();
                }
                self.state = to;
                if to != from && to == GuardState::Idle {
                    self.reset_counter();
                }
                Outcome::Transitioned
            },
            Decision::Reject => Outcome::Rejected,
        }
    }
}

} // verus!
