//! A single current-year assessment summary per parcel: optional
//! integral current values plus two already-aggregated display
//! metrics.

use vstd::prelude::*;

use crate::approx::ApproxValue;

verus! {

/// One row of `silver.parcels`, projected to its current-year summary
/// columns. Every field may be NULL in the source data.
#[derive(Clone, Copy, Debug, PartialEq)]
pub struct ParcelAssessmentModel {
    pub current_land_value: Option<i64>,
    pub current_improvement_value: Option<i64>,
    pub current_total_value: Option<i64>,
    pub net_taxes: Option<ApproxValue>,
    pub lot_size: Option<ApproxValue>,
}

} // verus!
