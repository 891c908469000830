use vstd::prelude::*;
use crate::error::FerrisBoyError;

verus! {

/// Configuration handed to the emulator at construction time.
#[derive(Debug, Clone, Copy, PartialEq, Eq)]
pub struct Config {}

/// The top-level emulator shell.
#[derive(Debug, Clone, Copy, PartialEq, Eq)]
pub struct Emulator {}

impl Emulator {
    /// Construction never fails for any configuration.
    pub fn new(_config: &Config) -> (r: Result<Self, FerrisBoyError>)
        ensures
            r is Ok,
    {
        Ok(Self {})
    }
}

} // verus!
