//! Finite-state machines with guards, entry/exit actions and resumable
//! transitions, each proved to follow its state graph.
//!
//! Every machine owns its current state and its accumulators. A dispatch
//! hands one event to the handler of the current state, which decides the
//! next state (evaluating a guard first, where the state has one); the exit
//! action of the state left runs, the new state is committed, and the entry
//! action of the state entered runs. A rejected event changes nothing.

pub mod outcome;
pub mod cycle;
pub mod basic;
pub mod guard;
pub mod payload;
pub mod async_event;
pub mod async_hot;
pub mod async_cold;

pub use outcome::{Decision, Outcome};
pub use cycle::CycleState;
pub use basic::{BasicEvent, BasicMachine};
pub use guard::{GuardEvent, GuardMachine, GuardPolicy, GuardState, DEFAULT_BOUND};
pub use payload::{Payload, PayloadEvent, PayloadMachine, PayloadState, PAYLOAD_THRESHOLD};
pub use async_event::AsyncEvent;
pub use async_hot::AsyncHotMachine;
pub use async_cold::AsyncColdMachine;
