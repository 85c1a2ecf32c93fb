use vstd::prelude::*;

verus! {

/// The states of the three-state cycle `A -> B -> C -> A`.
#[derive(Debug, Clone, Copy, PartialEq, Eq, Structural)]
pub enum CycleState {
    A,
    B,
    C,
}

/// The successor of a state on the cycle.
pub open spec fn cycle_next(s: CycleState) -> CycleState {
    match s {
        CycleState::A => CycleState::B,
        CycleState::B => CycleState::C,
        CycleState::C => CycleState::A,
    }
}

/// The state reached from `s` after `n` accepted events.
pub open spec fn cycle_after(s: CycleState, n: nat) -> CycleState
    decreases n,
{
    if n == 0 {
        s
    } else {
        cycle_after(cycle_next(s), (n - 1) as nat)
    }
}

/// Cycle closure: any whole number of laps around the cycle (three events
/// per lap) leads back to the state it started from.
pub proof fn lemma_cycle_closure(s: CycleState, laps: nat)
    ensures
        cycle_after(s, 3) == s,
        cycle_after(s, 3 * laps) == s,
    decreases laps,
{
    assert(cycle_after(s, 3) == s) by {
        reveal_with_fuel(cycle_after, 4);
    }
    if laps > 0 {
        lemma_cycle_closure(s, (laps - 1) as nat);
        lemma_cycle_after_split(s, 3, 3 * (laps - 1) as nat);
        assert(3 * laps == 3 + 3 * (laps - 1) as nat);
    }
}

/// Walking `m + n` steps is walking `m` steps and then `n` more.
pub proof fn lemma_cycle_after_split(s: CycleState, m: nat, n: nat)
    ensures
        cycle_after(s, m + n) == cycle_after(cycle_after(s, m), n),
    decreases m,
{
    if m > 0 {
        lemma_cycle_after_split(cycle_next(s), (m - 1) as nat, n);
        assert((m + n - 1) as nat == (m - 1) as nat + n);
    }
}

} // verus!
