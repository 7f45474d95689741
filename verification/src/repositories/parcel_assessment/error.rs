//! The parcel-assessment repository's error taxonomy.

use vstd::prelude::*;

verus! {

/// Failure of a parcel-assessment lookup. An empty result set is not
/// an error; `NotFound` exists for callers that require a row.
#[derive(Clone, Debug, PartialEq)]
pub enum ParcelAssessmentRepositoryError {
    /// A lookup that required a row matched zero rows.
    NotFound,
    /// The engine rejected a statement, the connection could not be
    /// acquired, or a remote read failed.
    Database(String),
    /// A returned row could not be converted into the domain struct.
    RowMapping(String),
}

} // verus!
