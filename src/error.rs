use vstd::prelude::*;

verus! {

/// The failure kinds reported by every fallible operation.
#[derive(Clone, Copy, Debug, PartialEq, Eq, Structural)]
pub enum CuError {
    /// Malformed arguments, a bad encoding combination or a size mismatch.
    InvalidValue,
    /// A stale or destroyed handle.
    InvalidHandle,
    /// A device ordinal out of range.
    InvalidDevice,
    /// No active context for an operation that needs one.
    InvalidContext,
    /// A recognised but unmapped attribute or feature.
    NotSupported,
    /// A teardown hook reported an error while an entity was destroyed.
    TeardownFailure,
}

} // verus!
