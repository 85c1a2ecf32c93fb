use fsm_benchmark::{
    Decision, Outcome, Payload, PayloadEvent, PayloadMachine, PayloadState, PAYLOAD_THRESHOLD,
};

fn ev(value: i32) -> PayloadEvent {
    PayloadEvent::Next(Payload { value })
}

fn accumulating() -> PayloadMachine {
    let mut m = PayloadMachine::default();
    assert_eq!(m.current_state(), PayloadState::Start);
    assert_eq!(m.dispatch(&ev(123)), Outcome::Transitioned);
    assert_eq!(m.current_state(), PayloadState::Accumulate);
    assert_eq!(m.sum(), 0);
    m
}

#[test]
fn payload_threshold_crossed_on_second_event() {
    let mut m = accumulating();
    m.dispatch(&ev(500));
    assert_eq!(m.sum(), 500);
    assert_eq!(m.current_state(), PayloadState::Accumulate);
    m.dispatch(&ev(600));
    assert_eq!(m.sum(), 1100);
    assert_eq!(m.current_state(), PayloadState::Done);
}

#[test]
fn payload_threshold_boundaries() {
    assert_eq!(PAYLOAD_THRESHOLD, 1000);
    let mut m = accumulating();
    m.dispatch(&ev(999));
    assert_eq!(m.current_state(), PayloadState::Accumulate);
    m.dispatch(&ev(1));
    assert_eq!(m.sum(), 1000);
    assert_eq!(m.current_state(), PayloadState::Done);

    let mut n = accumulating();
    n.dispatch(&ev(-999));
    assert_eq!(n.current_state(), PayloadState::Accumulate);
    n.dispatch(&ev(-1));
    assert_eq!(n.sum(), -1000);
    assert_eq!(n.current_state(), PayloadState::Done);
}

#[test]
fn payload_wraps_past_the_top() {
    let mut m = accumulating();
    m.dispatch(&ev(999));
    m.dispatch(&ev(i32::MAX));
    assert_eq!(m.sum(), 999i32.wrapping_add(i32::MAX));
    assert_eq!(m.sum(), -2_147_482_650);
    assert_eq!(m.current_state(), PayloadState::Done);
}

#[test]
fn payload_wraps_past_the_bottom() {
    let mut m = accumulating();
    m.dispatch(&ev(-999));
    m.dispatch(&ev(i32::MIN));
    assert_eq!(m.sum(), 2_147_482_649);
    assert_eq!(m.current_state(), PayloadState::Done);
}

#[test]
fn payload_repeated_large_values_never_fault() {
    let mut m = PayloadMachine::default();
    let mut expected: i32 = 0;
    let mut state = PayloadState::Start;
    for i in 0..300 {
        let v = if i % 2 == 0 { i32::MAX } else { i32::MIN + 7 };
        m.dispatch(&ev(v));
        state = match state {
            PayloadState::Start => {
                expected = 0;
                PayloadState::Accumulate
            }
            PayloadState::Accumulate => {
                expected = expected.wrapping_add(v);
                if expected >= 1000 || expected <= -1000 {
                    PayloadState::Done
                } else {
                    PayloadState::Accumulate
                }
            }
            PayloadState::Done => {
                expected = 0;
                PayloadState::Start
            }
        };
        assert_eq!(m.current_state(), state);
        assert_eq!(m.sum(), expected);
    }
}

#[test]
fn payload_reset_on_every_entry_to_start() {
    let mut m = PayloadMachine::new(PayloadState::Start);
    for _ in 0..2 {
        m.dispatch(&ev(5));
        m.dispatch(&ev(700));
        m.dispatch(&ev(700));
        assert_eq!(m.current_state(), PayloadState::Done);
        assert_eq!(m.sum(), 1400);
        m.dispatch(&ev(5));
        assert_eq!(m.current_state(), PayloadState::Start);
        assert_eq!(m.sum(), 0);
    }
}

#[test]
fn payload_handlers() {
    let mut m = PayloadMachine::new(PayloadState::Accumulate);
    assert_eq!(m.accumulate(&ev(40)), Decision::Transition(PayloadState::Accumulate));
    assert_eq!(m.sum(), 40);
    assert_eq!(m.accumulate(&ev(-1040)), Decision::Transition(PayloadState::Done));
    assert_eq!(m.sum(), -1000);
    assert_eq!(m.done(&ev(1)), Decision::Transition(PayloadState::Start));
    assert_eq!(m.sum(), -1000);
    assert_eq!(m.start(&ev(1)), Decision::Transition(PayloadState::Accumulate));
    assert_eq!(m.sum(), 0);
}
