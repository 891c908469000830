use vstd::prelude::*;

verus! {

/// Central processing unit. Instruction decoding and execution are outside
/// this core; the CPU consumes the address bus through its read/write contract.
#[derive(Debug, Clone, Copy, PartialEq, Eq)]
pub struct CPU {}

impl CPU {
    pub fn new() -> Self {
        Self {}
    }
}

} // verus!
