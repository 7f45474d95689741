//! One year's assessment and tax breakdown for a parcel. Every
//! monetary field is an exact decimal: currency must reproduce its
//! stored value with no floating-point drift.

use vstd::prelude::*;

use crate::money::Money;

verus! {

/// One row of `silver.tax_roll`, keyed by `(parcel_id, tax_year)`.
#[derive(Clone, Copy, Debug, PartialEq)]
pub struct TaxRecord {
    pub tax_year: i32,
    pub assessed_value_land: Money,
    pub assessed_value_improvement: Money,
    pub total_assessed_value: Money,
    pub county_tax: Money,
    pub city_tax: Money,
    pub school_tax: Money,
    pub matc_tax: Money,
    pub gross_tax: Money,
    pub net_tax: Money,
}

} // verus!
