//! The property aggregate's repository: its capability trait, its
//! concrete implementation, and its error taxonomy.

pub mod duckdb;
pub mod error;

use vstd::prelude::*;

use crate::models::{PropertyWithHistory, TaxRecord};
use crate::sql::{rows_view, SqlValue};

use duckdb::{
    all_tax_rows_wf, mapped_tax_records, site_row_wf, sorted_desc, spec_property_of,
};
use error::PropertyRepositoryError;

verus! {

/// What a property backing store can answer. Only one concrete store
/// exists today; the capability is modelled so another can be
/// substituted without touching callers.
///
/// Each method decides from the rows the engine returned for the
/// corresponding parameterized query; the implementation never
/// recovers internally.
pub trait PropertyRepository {
    /// Composes the property found for an address with its ordered
    /// tax history. Zero property rows is `NotFound`; a malformed row
    /// on either side is `RowMapping`; a property with zero tax rows
    /// succeeds with an empty history.
    fn get_property_with_history(
        &self,
        property_rows: &Vec<Vec<SqlValue>>,
        tax_rows: &Vec<Vec<SqlValue>>,
    ) -> (r: Result<PropertyWithHistory, PropertyRepositoryError>)
        ensures
            r is Ok <==> property_rows@.len() > 0 && site_row_wf(property_rows@[0]@)
                && all_tax_rows_wf(rows_view(tax_rows@)),
            r matches Ok(ph) ==> {
                &&& ph.property@ == spec_property_of(property_rows@[0]@)
                &&& sorted_desc(ph.tax_records@)
                &&& ph.tax_records@.to_multiset() == mapped_tax_records(
                    rows_view(tax_rows@),
                ).to_multiset()
                &&& sorted_desc(mapped_tax_records(rows_view(tax_rows@)))
                    ==> ph.tax_records@ == mapped_tax_records(rows_view(tax_rows@))
                &&& tax_rows@.len() == 0 ==> ph.tax_records@.len() == 0
            },
            property_rows@.len() == 0 ==> (r matches Err(e) && e is NotFound),
            r matches Err(e) ==> e is NotFound || e is RowMapping,
    ;

    /// Converts and orders one parcel's tax rows, most recent year
    /// first; the records themselves are exactly those the rows
    /// denote.
    fn get_tax_records(&self, rows: &Vec<Vec<SqlValue>>) -> (r: Result<
        Vec<TaxRecord>,
        PropertyRepositoryError,
    >)
        ensures
            r is Ok <==> all_tax_rows_wf(rows_view(rows@)),
            r matches Ok(v) ==> {
                &&& sorted_desc(v@)
                &&& v@.to_multiset() == mapped_tax_records(rows_view(rows@)).to_multiset()
                &&& sorted_desc(mapped_tax_records(rows_view(rows@))) ==> v@
                    == mapped_tax_records(rows_view(rows@))
            },
            r matches Err(e) ==> e is RowMapping,
    ;
}

} // verus!
