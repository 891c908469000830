use vstd::prelude::*;

verus! {

/// Pixel processing unit. Rendering is outside this core; the PPU consumes
/// the address bus through its read/write contract.
#[derive(Debug, Clone, Copy, PartialEq, Eq)]
pub struct PPU {}

impl PPU {
    pub fn new() -> Self {
        Self {}
    }
}

} // verus!
