//! The ways a storage operation can fail.

use vstd::prelude::*;

verus! {

/// Why a storage operation did not succeed.
#[derive(Clone, Copy, Debug, PartialEq, Eq, Structural)]
pub enum StoreError {
    /// The identifier names no live record.
    NotFound,
    /// The input was empty where the store insists on text.
    ValidationFailure,
    /// The backend itself failed: a lost connection, a failed statement,
    /// an exhausted identifier sequence.
    BackendFailure,
}

} // verus!
