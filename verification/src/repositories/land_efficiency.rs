//! The land-efficiency repository: the unfiltered scan of the four
//! derived per-parcel ratios. The dataset is bounded — one
//! municipality's parcels — so the full set is returned unpaginated.

pub mod error;

use vstd::prelude::*;
use vstd::string::StringExecFns;

use crate::models::LandEfficiencyMetrics;
use crate::sql::{is_opt_approx, opt_approx_of, read_opt_approx, rows_view, SqlQuery, SqlValue};
use crate::state::ConnectionHandle;

use error::LandEfficiencyRepositoryError;

verus! {

/// Is the row shaped as the land-efficiency projection of
/// `silver.parcels` must be: four nullable doubles?
pub open spec fn metrics_row_wf(row: Seq<SqlValue>) -> bool {
    &&& row.len() == 4
    &&& is_opt_approx(row[0])
    &&& is_opt_approx(row[1])
    &&& is_opt_approx(row[2])
    &&& is_opt_approx(row[3])
}

/// The metrics a well-formed row denotes.
pub open spec fn spec_metrics_of(row: Seq<SqlValue>) -> LandEfficiencyMetrics {
    LandEfficiencyMetrics {
        land_value_per_sqft: opt_approx_of(row[0]),
        net_taxes_per_sqft: opt_approx_of(row[1]),
        land_share_of_property: opt_approx_of(row[2]),
        land_value_alignment_index: opt_approx_of(row[3]),
    }
}

/// Every row of the result set is a well-formed metrics row.
pub open spec fn all_metrics_rows_wf(rs: Seq<Seq<SqlValue>>) -> bool {
    forall|i: int| 0 <= i < rs.len() ==> metrics_row_wf(#[trigger] rs[i])
}

/// The metrics a result set denotes, row by row in result order.
pub open spec fn mapped_metrics(rs: Seq<Seq<SqlValue>>) -> Seq<LandEfficiencyMetrics> {
    rs.map_values(|r: Seq<SqlValue>| spec_metrics_of(r))
}

/// The unfiltered scan of the four derived ratio columns.
pub fn land_efficiency_query() -> (r: SqlQuery)
    ensures
        r.text@
            == "SELECT land_value_per_sqft_lot, net_taxes_per_sqft_lot, land_share_property, land_value_alignment_index FROM silver.parcels"@,
        r.params.deep_view() =~= Seq::<Seq<char>>::empty(),
{
    SqlQuery {
        text: String::from_str(
            "SELECT land_value_per_sqft_lot, net_taxes_per_sqft_lot, land_share_property, land_value_alignment_index FROM silver.parcels",
        ),
        params: Vec::new(),
    }
}

/// The uniform conversion failure for a malformed metrics row.
fn metrics_mapping_error() -> (r: LandEfficiencyRepositoryError)
    ensures
        r is RowMapping,
{
    LandEfficiencyRepositoryError::RowMapping(
        String::from_str("mistyped column in silver.parcels metrics row"),
    )
}

/// Converts one metrics row; fails with `RowMapping` exactly on a
/// malformed row.
pub fn map_metrics_row(row: &Vec<SqlValue>) -> (r: Result<
    LandEfficiencyMetrics,
    LandEfficiencyRepositoryError,
>)
    ensures
        r is Ok <==> metrics_row_wf(row@),
        r matches Ok(m) ==> m == spec_metrics_of(row@),
        r matches Err(e) ==> e is RowMapping,
{
    if row.len() != 4 {
        return Err(metrics_mapping_error());
    }
    let land_value_per_sqft = match read_opt_approx(&row[0]) {
        Some(v) => v,
        None => { return Err(metrics_mapping_error()) },
    };
    let net_taxes_per_sqft = match read_opt_approx(&row[1]) {
        Some(v) => v,
        None => { return Err(metrics_mapping_error()) },
    };
    let land_share_of_property = match read_opt_approx(&row[2]) {
        Some(v) => v,
        None => { return Err(metrics_mapping_error()) },
    };
    let land_value_alignment_index = match read_opt_approx(&row[3]) {
        Some(v) => v,
        None => { return Err(metrics_mapping_error()) },
    };
    Ok(
        LandEfficiencyMetrics {
            land_value_per_sqft,
            net_taxes_per_sqft,
            land_share_of_property,
            land_value_alignment_index,
        },
    )
}

/// The concrete repository over the shared connection handle.
pub struct DuckDbLandEfficiencyRepository {
    pub db: ConnectionHandle,
}

impl DuckDbLandEfficiencyRepository {
    /// Borrows the shared connection handle for land-efficiency
    /// scans.
    pub fn new(db: ConnectionHandle) -> (r: Self)
        ensures
            r.db == db,
    {
        Self { db }
    }

    /// Decides the scan from the rows the engine returned for
    /// `land_efficiency_query`: every row is converted in result
    /// order, zero rows is an empty — not failed — result, and the
    /// first malformed row aborts with `RowMapping`.
    pub fn get_land_efficiency_metrics(&self, rows: &Vec<Vec<SqlValue>>) -> (r: Result<
        Vec<LandEfficiencyMetrics>,
        LandEfficiencyRepositoryError,
    >)
        ensures
            r is Ok <==> all_metrics_rows_wf(rows_view(rows@)),
            r matches Ok(v) ==> v@ == mapped_metrics(rows_view(rows@)),
            r matches Err(e) ==> e is RowMapping,
    {
        let ghost rs = rows_view(rows@);
        let mut out: Vec<LandEfficiencyMetrics> = Vec::new();
        let mut i: usize = 0;
        while i < rows.len()
            invariant
                i <= rows@.len(),
                rs == rows_view(rows@),
                forall|k: int| 0 <= k < i ==> metrics_row_wf(#[trigger] rs[k]),
                out@ == mapped_metrics(rs).take(i as int),
            decreases rows@.len() - i,
        {
            match map_metrics_row(&rows[i]) {
                Ok(m) => {
                    out.push(m);
                    proof {
                        assert(rs[i as int] == rows@[i as int]@);
                        assert(mapped_metrics(rs).take(i as int + 1) =~= mapped_metrics(rs).take(
                            i as int,
                        ).push(spec_metrics_of(rs[i as int])));
                    }
                },
                Err(e) => {
                    proof {
                        assert(rs[i as int] == rows@[i as int]@);
                        assert(!metrics_row_wf(rs[i as int]));
                    }
                    return Err(e);
                },
            }
            i += 1;
        }
        proof {
            assert(mapped_metrics(rs).take(rows@.len() as int) =~= mapped_metrics(rs));
        }
        Ok(out)
    }
}

} // verus!
