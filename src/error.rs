//! The engine's error taxonomy.
use vstd::prelude::*;

verus! {

/// Why an engine operation failed.
#[derive(Clone, Copy, Debug, PartialEq, Eq, Structural)]
pub enum EngineError {
    /// A malformed address, action or receiver.
    Input,
    /// No invoice under the given address.
    NotFound,
    /// A chain read, a submission or a key derivation failed.
    Chain,
    /// The store could not be read or written.
    Persistence,
    /// The worst-case gas cost is above the configured ceiling.
    GasLimitExceeded,
    /// What is left after gas is not above the dust threshold.
    InsufficientFunds,
}

} // verus!
