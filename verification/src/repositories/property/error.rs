//! The property repository's error taxonomy.

use vstd::prelude::*;

verus! {

/// Failure of a property lookup. `NotFound` marks a single-row lookup
/// that matched zero rows and is not a program fault; the others are
/// surfaced to the caller unchanged.
#[derive(Clone, Debug, PartialEq)]
pub enum PropertyRepositoryError {
    /// The address matched no row of `gold.sites`.
    NotFound,
    /// The engine rejected a statement, the connection could not be
    /// acquired, or a remote read failed.
    Database(String),
    /// A returned row could not be converted into the domain struct:
    /// an unexpected NULL in a required field, or a type mismatch.
    RowMapping(String),
}

} // verus!
