use vstd::prelude::*;

verus! {

/// Errors surfaced by this crate. Malformed input at load time is a hard
/// failure; a decode miss against a closed code table is never an error
/// (the decoders substitute a designated default variant instead).
#[derive(Debug, Clone, Copy, PartialEq, Eq)]
pub enum FerrisBoyError {
    /// Something went wrong outside the more specific categories.
    GeneralError(&'static str),
    /// The input was shorter (or longer) than the required span.
    InvalidInput { expected: usize, actual: usize },
    /// An internal invariant was violated; indicates a construction bug.
    InternalError(&'static str),
    /// A raw code had no matching variant where one was required.
    InvalidEnumValue(&'static str, u16),
}

} // verus!
