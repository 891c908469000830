use vstd::prelude::*;

verus! {

/// Coarse run state of the owning application loop.
#[derive(Debug, Clone, Copy, PartialEq, Eq)]
pub enum ApplicationState {
    Stopped,
    Paused,
    Running,
}

/// Shared application context: current run state and the tick counter.
#[derive(Debug, Clone, Copy, PartialEq, Eq)]
pub struct Context {
    pub state: ApplicationState,
    pub ticks: u64,
}

} // verus!
