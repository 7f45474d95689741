//! The parcel-assessment repository: all current-year summary rows of
//! one parcel. Finding none is not an error; the caller decides how
//! to treat an empty result.

pub mod error;

use vstd::prelude::*;
use vstd::string::StringExecFns;

use crate::models::ParcelAssessmentModel;
use crate::sql::{
    is_opt_approx, is_opt_int, opt_approx_of, opt_int_of, read_opt_approx, read_opt_int,
    rows_view, SqlQuery, SqlValue,
};
use crate::state::ConnectionHandle;

use error::ParcelAssessmentRepositoryError;

verus! {

/// Is the row shaped as the assessment projection of `silver.parcels`
/// must be: five columns, three nullable integers and two nullable
/// doubles?
pub open spec fn assessment_row_wf(row: Seq<SqlValue>) -> bool {
    &&& row.len() == 5
    &&& is_opt_int(row[0])
    &&& is_opt_int(row[1])
    &&& is_opt_int(row[2])
    &&& is_opt_approx(row[3])
    &&& is_opt_approx(row[4])
}

/// The assessment a well-formed row denotes.
pub open spec fn spec_assessment_of(row: Seq<SqlValue>) -> ParcelAssessmentModel {
    ParcelAssessmentModel {
        current_land_value: opt_int_of(row[0]),
        current_improvement_value: opt_int_of(row[1]),
        current_total_value: opt_int_of(row[2]),
        net_taxes: opt_approx_of(row[3]),
        lot_size: opt_approx_of(row[4]),
    }
}

/// Every row of the result set is a well-formed assessment row.
pub open spec fn all_assessment_rows_wf(rs: Seq<Seq<SqlValue>>) -> bool {
    forall|i: int| 0 <= i < rs.len() ==> assessment_row_wf(#[trigger] rs[i])
}

/// The assessments a result set denotes, row by row in result order.
pub open spec fn mapped_assessments(rs: Seq<Seq<SqlValue>>) -> Seq<ParcelAssessmentModel> {
    rs.map_values(|r: Seq<SqlValue>| spec_assessment_of(r))
}

/// The parameterized lookup of all assessment rows of one parcel.
pub fn parcel_assessment_query(parcel_id: &str) -> (r: SqlQuery)
    ensures
        r.text@
            == "SELECT current_land_value, current_improvement_value, current_total_value, net_taxes, lot_size FROM silver.parcels WHERE parcel_id = ?"@,
        r.params.deep_view() =~= seq![parcel_id@],
{
    let mut params: Vec<String> = Vec::new();
    params.push(String::from_str(parcel_id));
    SqlQuery {
        text: String::from_str(
            "SELECT current_land_value, current_improvement_value, current_total_value, net_taxes, lot_size FROM silver.parcels WHERE parcel_id = ?",
        ),
        params,
    }
}

/// The uniform conversion failure for a malformed assessment row.
fn assessment_mapping_error() -> (r: ParcelAssessmentRepositoryError)
    ensures
        r is RowMapping,
{
    ParcelAssessmentRepositoryError::RowMapping(
        String::from_str("mistyped column in silver.parcels assessment row"),
    )
}

/// Converts one assessment row; fails with `RowMapping` exactly on a
/// malformed row.
pub fn map_assessment_row(row: &Vec<SqlValue>) -> (r: Result<
    ParcelAssessmentModel,
    ParcelAssessmentRepositoryError,
>)
    ensures
        r is Ok <==> assessment_row_wf(row@),
        r matches Ok(m) ==> m == spec_assessment_of(row@),
        r matches Err(e) ==> e is RowMapping,
{
    if row.len() != 5 {
        return Err(assessment_mapping_error());
    }
    let current_land_value = match read_opt_int(&row[0]) {
        Some(v) => v,
        None => { return Err(assessment_mapping_error()) },
    };
    let current_improvement_value = match read_opt_int(&row[1]) {
        Some(v) => v,
        None => { return Err(assessment_mapping_error()) },
    };
    let current_total_value = match read_opt_int(&row[2]) {
        Some(v) => v,
        None => { return Err(assessment_mapping_error()) },
    };
    let net_taxes = match read_opt_approx(&row[3]) {
        Some(v) => v,
        None => { return Err(assessment_mapping_error()) },
    };
    let lot_size = match read_opt_approx(&row[4]) {
        Some(v) => v,
        None => { return Err(assessment_mapping_error()) },
    };
    Ok(
        ParcelAssessmentModel {
            current_land_value,
            current_improvement_value,
            current_total_value,
            net_taxes,
            lot_size,
        },
    )
}

/// The concrete repository over the shared connection handle.
pub struct DuckDbParcelAssessmentRepository {
    pub db: ConnectionHandle,
}

impl DuckDbParcelAssessmentRepository {
    /// Borrows the shared connection handle for assessment lookups.
    pub fn new(db: ConnectionHandle) -> (r: Self)
        ensures
            r.db == db,
    {
        Self { db }
    }

    /// Decides an assessment lookup from the rows the engine returned
    /// for `parcel_assessment_query`: every row is converted in result
    /// order, zero rows is an empty — not failed — result, and the
    /// first malformed row aborts with `RowMapping`.
    pub fn get_parcel_assessment(&self, rows: &Vec<Vec<SqlValue>>) -> (r: Result<
        Vec<ParcelAssessmentModel>,
        ParcelAssessmentRepositoryError,
    >)
        ensures
            r is Ok <==> all_assessment_rows_wf(rows_view(rows@)),
            r matches Ok(v) ==> v@ == mapped_assessments(rows_view(rows@)),
            r matches Err(e) ==> e is RowMapping,
    {
        let ghost rs = rows_view(rows@);
        let mut out: Vec<ParcelAssessmentModel> = Vec::new();
        let mut i: usize = 0;
        while i < rows.len()
            invariant
                i <= rows@.len(),
                rs == rows_view(rows@),
                forall|k: int| 0 <= k < i ==> assessment_row_wf(#[trigger] rs[k]),
                out@ == mapped_assessments(rs).take(i as int),
            decreases rows@.len() - i,
        {
            match map_assessment_row(&rows[i]) {
                Ok(m) => {
                    out.push(m);
                    proof {
                        assert(rs[i as int] == rows@[i as int]@);
                        assert(mapped_assessments(rs).take(i as int + 1) =~= mapped_assessments(
                            rs,
                        ).take(i as int).push(spec_assessment_of(rs[i as int])));
                    }
                },
                Err(e) => {
                    proof {
                        assert(rs[i as int] == rows@[i as int]@);
                        assert(!assessment_row_wf(rs[i as int]));
                    }
                    return Err(e);
                },
            }
            i += 1;
        }
        proof {
            assert(mapped_assessments(rs).take(rows@.len() as int) =~= mapped_assessments(rs));
        }
        Ok(out)
    }
}

} // verus!
