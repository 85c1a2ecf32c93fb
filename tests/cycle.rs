use fsm_benchmark::{BasicEvent, BasicMachine, CycleState, Decision, Outcome};

#[test]
fn basic_cycle_returns_to_start_after_three_events() {
    for start in [CycleState::A, CycleState::B, CycleState::C] {
        let mut m = BasicMachine::new(start);
        for _ in 0..3 {
            assert_eq!(m.dispatch(&BasicEvent::Next), Outcome::Transitioned);
        }
        assert_eq!(m.current_state(), start);
    }
}

#[test]
fn basic_cycle_visits_states_in_order() {
    let mut m = BasicMachine::default();
    assert_eq!(m.current_state(), CycleState::A);
    m.dispatch(&BasicEvent::Next);
    assert_eq!(m.current_state(), CycleState::B);
    m.dispatch(&BasicEvent::Next);
    assert_eq!(m.current_state(), CycleState::C);
    m.dispatch(&BasicEvent::Next);
    assert_eq!(m.current_state(), CycleState::A);
}

#[test]
fn basic_cycle_many_laps() {
    let mut m = BasicMachine::new(CycleState::B);
    for _ in 0..3 * 1000 {
        m.dispatch(&BasicEvent::Next);
    }
    assert_eq!(m.current_state(), CycleState::B);
    m.dispatch(&BasicEvent::Next);
    assert_eq!(m.current_state(), CycleState::C);
}

#[test]
fn basic_handlers_name_successors() {
    assert_eq!(BasicMachine::a(&BasicEvent::Next), Decision::Transition(CycleState::B));
    assert_eq!(BasicMachine::b(&BasicEvent::Next), Decision::Transition(CycleState::C));
    assert_eq!(BasicMachine::c(&BasicEvent::Next), Decision::Transition(CycleState::A));
}
