//! The error type the FFI layer reports to its callers.

use vstd::prelude::*;

verus! {

/// Errors reported across the FFI boundary.
#[derive(Debug, Clone, PartialEq, Eq)]
pub enum FfiError {
    /// The configuration was invalid.
    ConfigError { detail: String },
    /// A Rust panic was caught.
    InternalPanic { detail: String },
    /// A caller-supplied argument was invalid.
    InvalidArgument { detail: String },
    /// Spawning or calling a background task failed.
    SpawnError { detail: String },
    /// Internal state was found corrupted.
    StateCorrupted { detail: String },
    /// The operation is not possible in the current state.
    StateError { detail: String },
}

} // verus!
