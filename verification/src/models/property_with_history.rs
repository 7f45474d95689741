//! The composite a property lookup returns: the property itself plus
//! its tax history, most recent year first. The history may be empty;
//! the property must exist or the composite is never built.

use vstd::prelude::*;

use crate::models::property::{Property, PropertyView};
use crate::models::tax_record::TaxRecord;

verus! {

/// One property joined with all its tax records by `site_parcel_id`.
#[derive(Clone, Debug, PartialEq)]
pub struct PropertyWithHistory {
    pub property: Property,
    pub tax_records: Vec<TaxRecord>,
}

/// The mathematical image of a `PropertyWithHistory`.
pub struct PropertyWithHistoryView {
    pub property: PropertyView,
    pub tax_records: Seq<TaxRecord>,
}

impl View for PropertyWithHistory {
    type V = PropertyWithHistoryView;

    open spec fn view(&self) -> PropertyWithHistoryView {
        PropertyWithHistoryView {
            property: self.property@,
            tax_records: self.tax_records@,
        }
    }
}

} // verus!
