use vstd::prelude::*;

verus! {

/// The events of the asynchronous cycle machines.
#[derive(Debug, Clone, Copy, PartialEq, Eq, Structural)]
pub enum AsyncEvent {
    Next,
}

} // verus!
