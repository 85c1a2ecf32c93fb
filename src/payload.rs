use vstd::prelude::*;
use vstd::arithmetic::div_mod::{
    lemma_add_mod_noop, lemma_mod_add_multiples_vanish, lemma_mod_bound,
    lemma_mod_sub_multiples_vanish, lemma_mod_twice, lemma_small_mod,
};
use crate::outcome::{Decision, Outcome};

verus! {

/// The data carried by a payload event.
#[derive(Debug, Clone, Copy, PartialEq, Eq, Structural)]
pub struct Payload {
    pub value: i32,
}

/// The events of the payload accumulator.
#[derive(Debug, Clone, Copy, PartialEq, Eq, Structural)]
pub enum PayloadEvent {
    Next(Payload),
}

/// The states of the payload accumulator `Start -> Accumulate -> Done -> Start`.
#[derive(Debug, Clone, Copy, PartialEq, Eq, Structural)]
pub enum PayloadState {
    Start,
    Accumulate,
    Done,
}

/// The magnitude of the running sum at which `Accumulate` gives way to `Done`.
pub const PAYLOAD_THRESHOLD: i32 = 1000;

/// The number of distinct `i32` values.
pub open spec fn i32_span() -> int {
    0x1_0000_0000
}

/// The `i32` that two's-complement arithmetic gives for the integer `x`:
/// the one that `x` is congruent to modulo 2^32.
pub open spec fn wrap_i32(x: int) -> i32 {
    let m = x % i32_span();
    if m > i32::MAX {
        (m - i32_span()) as i32
    } else {
        m as i32
    }
}

/// The payload carried by an event.
pub open spec fn payload_value(e: PayloadEvent) -> i32 {
    match e {
        PayloadEvent::Next(p) => p.value,
    }
}

/// The threshold condition: the sum has a magnitude of at least the threshold.
pub open spec fn threshold_reached(sum: i32) -> bool {
    sum >= PAYLOAD_THRESHOLD || sum <= -PAYLOAD_THRESHOLD
}

/// The abstract value of a payload accumulator.
pub struct PayloadView {
    pub state: PayloadState,
    pub sum: i32,
}

/// The machine after one event.
pub open spec fn payload_step(v: PayloadView, e: PayloadEvent) -> PayloadView {
    match v.state {
        PayloadState::Start => PayloadView { state: PayloadState::Accumulate, sum: 0 },
        PayloadState::Accumulate => {
            let sum = wrap_i32(v.sum + payload_value(e));
            PayloadView {
                state: if threshold_reached(sum) {
                    PayloadState::Done
                } else {
                    PayloadState::Accumulate
                },
                sum,
            }
        },
        PayloadState::Done => PayloadView { state: PayloadState::Start, sum: 0 },
    }
}

/// The running sum after adding each of `values` in turn, wrapping.
pub open spec fn wrapping_fold(sum: i32, values: Seq<i32>) -> i32
    decreases values.len(),
{
    if values.len() == 0 {
        sum
    } else {
        wrapping_fold(wrap_i32(sum + values[0]), values.drop_first())
    }
}

/// The mathematical sum of `values`.
pub open spec fn seq_sum(values: Seq<i32>) -> int
    decreases values.len(),
{
    if values.len() == 0 {
        0
    } else {
        values[0] + seq_sum(values.drop_first())
    }
}

/// Wrapping is congruence modulo 2^32: wrapping before adding more does not
/// change the wrapped result.
pub proof fn lemma_wrap_absorbs(x: int, y: int)
    ensures
        wrap_i32(wrap_i32(x) + y) == wrap_i32(x + y),
        wrap_i32(x) as int % i32_span() == x % i32_span(),
{
    let n = i32_span();
    let w = wrap_i32(x) as int;
    assert(w % n == x % n) by {
        lemma_mod_bound(x, n);
        if x % n > i32::MAX {
            lemma_mod_sub_multiples_vanish(x % n, n);
        }
        lemma_mod_twice(x, n);
    }
    assert((w + y) % n == (x + y) % n) by {
        lemma_add_mod_noop(w, y, n);
        lemma_add_mod_noop(x, y, n);
    }
}

/// An `i32` is its own wrap.
pub proof fn lemma_wrap_of_i32(x: i32)
    ensures
        wrap_i32(x as int) == x,
{
    let n = i32_span();
    if x >= 0 {
        lemma_small_mod(x as nat, n as nat);
    } else {
        lemma_mod_add_multiples_vanish(x as int, n);
        lemma_small_mod((x + n) as nat, n as nat);
    }
}

/// Wrapping, not panicking: adding any values one by one with wrapping
/// arithmetic leaves the two's-complement wrap of their exact total.
pub proof fn lemma_wrapping_sum(sum: i32, values: Seq<i32>)
    ensures
        wrapping_fold(sum, values) == wrap_i32(sum + seq_sum(values)),
    decreases values.len(),
{
    if values.len() == 0 {
        lemma_wrap_of_i32(sum);
    } else {
        let x = sum + values[0];
        let rest = values.drop_first();
        lemma_wrapping_sum(wrap_i32(x), rest);
        lemma_wrap_absorbs(x, seq_sum(rest));
    }
}

/// Accumulator reset: whatever the sum held, an event that brings the
/// machine into `Start` leaves the sum at zero.
pub proof fn lemma_payload_reset(v: PayloadView, e: PayloadEvent)
    ensures
        payload_step(v, e).state == PayloadState::Start ==> payload_step(v, e).sum == 0,
        v.state == PayloadState::Done ==> payload_step(v, e).state == PayloadState::Start,
{
}

/// `i32::wrapping_add` is the wrap of the exact sum.
proof fn lemma_wrapping_add_is_wrap(x: i32, y: i32)
    ensures
        vstd::wrapping::i32_specs::wrapping_add(x, y) == wrap_i32(x + y),
{
    let n = i32_span();
    let s = x + y;
    if s > i32::MAX {
        lemma_small_mod(s as nat, n as nat);
    } else if s < i32::MIN {
        lemma_mod_add_multiples_vanish(s, n);
        lemma_small_mod((s + n) as nat, n as nat);
    } else {
        lemma_wrap_of_i32(s as i32);
    }
}

/// An accumulator of payload values: `Start` clears the sum, `Accumulate`
/// adds each payload (wrapping) until the sum's magnitude reaches the
/// threshold, and `Done` returns to `Start`.
#[derive(Debug)]
pub struct PayloadMachine {
    state: PayloadState,
    sum: i32,
}

impl View for PayloadMachine {
    type V = PayloadView;

    closed spec fn view(&self) -> PayloadView {
        PayloadView { state: self.state, sum: self.sum }
    }
}

impl Default for PayloadMachine {
    /// A machine in `Start` with a zero sum.
    fn default() -> (m: Self)
        ensures
            m@ == (PayloadView { state: PayloadState::Start, sum: 0 }),
    {
        PayloadMachine { state: PayloadState::Start, sum: 0 }
    }
}

impl PayloadMachine {
    /// A machine in `initial` with a zero sum.
    pub fn new(initial: PayloadState) -> (m: Self)
        ensures
            m@ == (PayloadView { state: initial, sum: 0 }),
    {
        PayloadMachine { state: initial, sum: 0 }
    }

    pub fn current_state(&self) -> (s: PayloadState)
        ensures
            s == self@.state,
    {
        self.state
    }

    pub fn sum(&self) -> (s: i32)
        ensures
            s == self@.sum,
    {
        self.sum
    }

    /// Handler of `Start`: a new accumulation begins from zero.
    pub fn start(&mut self, event: &PayloadEvent) -> (d: Decision<PayloadState>)
        ensures
            d == Decision::Transition(PayloadState::Accumulate),
            final(self)@ == (PayloadView { sum: 0, ..old(self)@ }),
    {
        match event {
            PayloadEvent::Next(_) => {
                self.sum = 0;
                Decision::Transition(PayloadState::Accumulate)
            },
        }
    }

    /// Handler of `Accumulate`: adds the payload to the sum, wrapping, then
    /// moves on to `Done` if the threshold is reached.
    pub fn accumulate(&mut self, event: &PayloadEvent) -> (d: Decision<PayloadState>)
        ensures
            final(self)@ == (PayloadView {
                sum: wrap_i32(old(self)@.sum + payload_value(*event)),
                ..old(self)@
            }),
            d == Decision::Transition(
                if threshold_reached(final(self)@.sum) {
                    PayloadState::Done
                } else {
                    PayloadState::Accumulate
                },
            ),
    {
        match event {
            PayloadEvent::Next(payload) => {
                proof {
                    lemma_wrapping_add_is_wrap(self.sum, payload.value);
                }
                self.sum = self.sum.wrapping_add(payload.value);
                if self.sum >= PAYLOAD_THRESHOLD || self.sum <= -PAYLOAD_THRESHOLD {
                    Decision::Transition(PayloadState::Done)
                } else {
                    Decision::Transition(PayloadState::Accumulate)
                }
            },
        }
    }

    /// Handler of `Done`: back to `Start`.
    pub fn done(&mut self, event: &PayloadEvent) -> (d: Decision<PayloadState>)
        ensures
            d == Decision::Transition(PayloadState::Start),
            final(self)@ == old(self)@,
    {
        match event {
            PayloadEvent::Next(_) => Decision::Transition(PayloadState::Start),
        }
    }

    /// Entry action of `Start`: the sum starts again from zero.
    fn reset_sum(&mut self)
        ensures
            final(self)@ == (PayloadView { sum: 0, ..old(self)@ }),
    {
        self.sum = 0;
    }

    /// Delivers one event. The handler of the current state decides (and
    /// updates the sum, in `Accumulate`); the new state is committed, and
    /// when it differs from the old one its entry action runs. Every event
    /// is accepted.
    pub fn dispatch(&mut self, event: &PayloadEvent) -> (r: Outcome)
        ensures
            final(self)@ == payload_step(old(self)@, *event),
            r == Outcome::Transitioned,
    {
        let from = self.state;
        let d = match from {
            PayloadState::Start => self.start(event),
            PayloadState::Accumulate => self.accumulate(event),
            PayloadState::Done => self.done(event),
        };
        match d {
            Decision::Transition(to) => {
                self.state = to;
                if to != from && to == PayloadState::Start {
                    self.reset_sum();
                }
                Outcome::Transitioned
            },
            Decision::Reject => Outcome::Rejected,
        }
    }
}

} // verus!
