//! Derived per-parcel land-efficiency ratios. These are computed
//! upstream and merely passed through; each may be NULL.

use vstd::prelude::*;

use crate::approx::ApproxValue;

verus! {

/// One row of the land-efficiency projection of `silver.parcels`.
#[derive(Clone, Copy, Debug, PartialEq)]
pub struct LandEfficiencyMetrics {
    pub land_value_per_sqft: Option<ApproxValue>,
    pub net_taxes_per_sqft: Option<ApproxValue>,
    pub land_share_of_property: Option<ApproxValue>,
    pub land_value_alignment_index: Option<ApproxValue>,
}

} // verus!
