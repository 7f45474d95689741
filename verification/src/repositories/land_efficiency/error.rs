//! The land-efficiency repository's error taxonomy.

use vstd::prelude::*;
use vstd::string::StringExecFns;

verus! {

/// Failure of a land-efficiency scan. An empty result set is not an
/// error.
#[derive(Clone, Debug, PartialEq)]
pub enum LandEfficiencyRepositoryError {
    /// The engine rejected a statement, the connection could not be
    /// acquired, or a remote read failed.
    Database(String),
    /// A returned row could not be converted into the domain struct.
    RowMapping(String),
}

impl LandEfficiencyRepositoryError {
    /// The human-readable description of the failure.
    pub fn message(&self) -> (r: String)
        ensures
            self matches LandEfficiencyRepositoryError::Database(d) ==> r@ == "Database error: "@
                + d@,
            self matches LandEfficiencyRepositoryError::RowMapping(d) ==> r@
                == "Row mapping error: "@ + d@,
    {
        match self {
            LandEfficiencyRepositoryError::Database(d) => String::from_str(
                "Database error: ",
            ).concat(d.as_str()),
            LandEfficiencyRepositoryError::RowMapping(d) => String::from_str(
                "Row mapping error: ",
            ).concat(d.as_str()),
        }
    }
}

} // verus!
