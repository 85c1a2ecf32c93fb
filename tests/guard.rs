use fsm_benchmark::{
    Decision, GuardEvent, GuardMachine, GuardPolicy, GuardState, Outcome, DEFAULT_BOUND,
};

fn counting_machine(bound: usize, policy: GuardPolicy) -> GuardMachine {
    let mut m = GuardMachine::new(GuardState::Idle, bound, policy);
    assert_eq!(m.dispatch(&GuardEvent::Next), Outcome::Transitioned);
    assert_eq!(m.current_state(), GuardState::Counting);
    assert_eq!(m.counter(), 0);
    m
}

#[test]
fn guard_boundary_with_bound_ten() {
    let mut m = counting_machine(10, GuardPolicy::Leave);
    for k in 1..=10usize {
        assert_eq!(m.dispatch(&GuardEvent::Next), Outcome::Transitioned);
        assert_eq!(m.current_state(), GuardState::Counting);
        // no exit action on Counting -> Counting
        assert_eq!(m.counter(), k);
    }
    assert_eq!(m.dispatch(&GuardEvent::Next), Outcome::Transitioned);
    assert_eq!(m.current_state(), GuardState::Finished);
    // the exit action ran once on Counting -> Finished
    assert_eq!(m.counter(), 11);
}

#[test]
fn guard_boundary_with_bound_zero() {
    let mut m = counting_machine(0, GuardPolicy::Leave);
    assert!(!m.below_bound());
    assert_eq!(m.dispatch(&GuardEvent::Next), Outcome::Transitioned);
    assert_eq!(m.current_state(), GuardState::Finished);
    assert_eq!(m.counter(), 1);
}

#[test]
fn guard_hold_policy_rejects_and_changes_nothing() {
    let mut m = counting_machine(2, GuardPolicy::Hold);
    m.dispatch(&GuardEvent::Next);
    m.dispatch(&GuardEvent::Next);
    assert_eq!(m.counter(), 2);
    for _ in 0..3 {
        assert_eq!(m.dispatch(&GuardEvent::Next), Outcome::Rejected);
        assert_eq!(m.current_state(), GuardState::Counting);
        assert_eq!(m.counter(), 2);
    }
}

#[test]
fn guard_reset_on_every_entry_to_idle() {
    let mut m = GuardMachine::new(GuardState::Idle, 3, GuardPolicy::Leave);
    for _ in 0..2 {
        // Idle -> Counting, three counts, Counting -> Finished
        for _ in 0..5 {
            m.dispatch(&GuardEvent::Next);
        }
        assert_eq!(m.current_state(), GuardState::Finished);
        assert_eq!(m.counter(), 4);
        m.dispatch(&GuardEvent::Next);
        assert_eq!(m.current_state(), GuardState::Idle);
        assert_eq!(m.counter(), 0);
    }
}

#[test]
fn guard_default_counts_without_leaving() {
    let mut m = GuardMachine::default();
    assert_eq!(m.current_state(), GuardState::Idle);
    assert_eq!(m.bound(), usize::MAX);
    assert_eq!(DEFAULT_BOUND, usize::MAX);
    assert_eq!(m.policy(), GuardPolicy::Leave);
    m.dispatch(&GuardEvent::Next);
    for _ in 0..1000 {
        m.dispatch(&GuardEvent::Next);
    }
    assert_eq!(m.current_state(), GuardState::Counting);
    assert_eq!(m.counter(), 1000);
    assert!(m.below_bound());
}

#[test]
fn guard_handlers() {
    let mut m = GuardMachine::new(GuardState::Counting, 1, GuardPolicy::Leave);
    assert_eq!(m.counting(&GuardEvent::Next), Decision::Transition(GuardState::Counting));
    assert_eq!(m.counter(), 1);
    assert_eq!(m.counting(&GuardEvent::Next), Decision::Transition(GuardState::Finished));
    assert_eq!(m.counter(), 1);
    assert_eq!(m.finished(&GuardEvent::Next), Decision::Transition(GuardState::Idle));
    assert_eq!(m.idle(&GuardEvent::Next), Decision::Transition(GuardState::Counting));
    assert_eq!(m.counter(), 0);
    let mut h = GuardMachine::new(GuardState::Counting, 0, GuardPolicy::Hold);
    assert_eq!(h.counting(&GuardEvent::Next), Decision::Reject);
}

#[test]
fn guard_increment_counter_adds_one() {
    let mut m = GuardMachine::new(GuardState::Counting, 5, GuardPolicy::Leave);
    m.increment_counter();
    m.increment_counter();
    assert_eq!(m.counter(), 2);
    assert_eq!(m.current_state(), GuardState::Counting);
}
