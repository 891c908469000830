use vstd::prelude::*;

verus! {

/// Cycle timer. Timing and interrupts are outside this core; the timer
/// consumes the address bus through its read/write contract.
#[derive(Debug, Clone, Copy, PartialEq, Eq)]
pub struct Timer {}

impl Timer {
    pub fn new() -> Self {
        Self {}
    }
}

} // verus!
