//! The concrete property repository: the two parameterized queries it
//! issues, and the verified mapping from result rows to the domain.

use vstd::prelude::*;
use vstd::string::StringExecFns;

use crate::models::property::{Property, PropertyView};
use crate::models::PropertyWithHistory;
use crate::models::TaxRecord;
use crate::sql::{
    approx_of, int_of, is_opt_approx, num_of, opt_approx_of, read_approx, read_num,
    read_opt_approx, read_text, rows_view, text_of, SqlQuery, SqlValue,
};
use crate::state::ConnectionHandle;

use super::error::PropertyRepositoryError;
use super::PropertyRepository;

verus! {

/// Is the row shaped as a `gold.sites` row must be: twelve columns,
/// the six identity and classification columns text and non-NULL, the
/// five structural columns nullable doubles, and the current value a
/// non-NULL double?
pub open spec fn site_row_wf(row: Seq<SqlValue>) -> bool {
    &&& row.len() == 12
    &&& row[0] is Text
    &&& row[1] is Text
    &&& row[2] is Text
    &&& row[3] is Text
    &&& row[4] is Text
    &&& row[5] is Text
    &&& is_opt_approx(row[6])
    &&& is_opt_approx(row[7])
    &&& is_opt_approx(row[8])
    &&& is_opt_approx(row[9])
    &&& is_opt_approx(row[10])
    &&& row[11] is Approx
}

/// The property a well-formed `gold.sites` row denotes.
pub open spec fn spec_property_of(row: Seq<SqlValue>) -> PropertyView {
    PropertyView {
        site_parcel_id: text_of(row[0]),
        parcel_address: text_of(row[1]),
        property_class: text_of(row[2]),
        property_use: text_of(row[3]),
        area_name: text_of(row[4]),
        alder_district_name: text_of(row[5]),
        bedrooms: opt_approx_of(row[6]),
        full_baths: opt_approx_of(row[7]),
        half_baths: opt_approx_of(row[8]),
        total_living_area: opt_approx_of(row[9]),
        lot_size: opt_approx_of(row[10]),
        current_value_2025: approx_of(row[11]),
    }
}

/// Is the row shaped as a `silver.tax_roll` row must be: ten columns,
/// a year that fits the domain type, and nine non-NULL exact
/// decimals?
pub open spec fn tax_row_wf(row: Seq<SqlValue>) -> bool {
    &&& row.len() == 10
    &&& row[0] matches SqlValue::Int(y) && i32::MIN as i64 <= y && y <= i32::MAX as i64
    &&& row[1] is Num
    &&& row[2] is Num
    &&& row[3] is Num
    &&& row[4] is Num
    &&& row[5] is Num
    &&& row[6] is Num
    &&& row[7] is Num
    &&& row[8] is Num
    &&& row[9] is Num
}

/// The tax record a well-formed `silver.tax_roll` row denotes: every
/// monetary cell is carried over exactly as stored.
pub open spec fn spec_tax_record_of(row: Seq<SqlValue>) -> TaxRecord {
    TaxRecord {
        tax_year: int_of(row[0]) as i32,
        assessed_value_land: num_of(row[1]),
        assessed_value_improvement: num_of(row[2]),
        total_assessed_value: num_of(row[3]),
        county_tax: num_of(row[4]),
        city_tax: num_of(row[5]),
        school_tax: num_of(row[6]),
        matc_tax: num_of(row[7]),
        gross_tax: num_of(row[8]),
        net_tax: num_of(row[9]),
    }
}

/// Every row of the result set is a well-formed tax row.
pub open spec fn all_tax_rows_wf(rs: Seq<Seq<SqlValue>>) -> bool {
    forall|i: int| 0 <= i < rs.len() ==> tax_row_wf(#[trigger] rs[i])
}

/// The tax records a result set denotes, row by row in result order.
pub open spec fn mapped_tax_records(rs: Seq<Seq<SqlValue>>) -> Seq<TaxRecord> {
    rs.map_values(|r: Seq<SqlValue>| spec_tax_record_of(r))
}

/// The caller-visible ordering invariant: tax years never increase
/// along the sequence.
pub open spec fn sorted_desc(s: Seq<TaxRecord>) -> bool {
    forall|a: int, b: int|
        0 <= a < b < s.len() ==> #[trigger] s[a].tax_year >= #[trigger] s[b].tax_year
}

/// The years of the records are pairwise distinct.
pub open spec fn distinct_years(s: Seq<TaxRecord>) -> bool {
    forall|a: int, b: int|
        0 <= a < b < s.len() ==> #[trigger] s[a].tax_year != #[trigger] s[b].tax_year
}

/// The years of the records strictly decrease along the sequence.
pub open spec fn strictly_descending(s: Seq<TaxRecord>) -> bool {
    forall|a: int, b: int|
        0 <= a < b < s.len() ==> #[trigger] s[a].tax_year > #[trigger] s[b].tax_year
}

/// For any parcel whose tax rows span pairwise distinct years, the
/// history the repository returns is strictly descending by tax year:
/// an ordered reordering of exactly the records the rows denote.
pub proof fn lemma_history_strictly_descending(source: Seq<TaxRecord>, recs: Seq<TaxRecord>)
    requires
        sorted_desc(recs),
        recs.to_multiset() == source.to_multiset(),
        distinct_years(source),
    ensures
        strictly_descending(recs),
{
    broadcast use vstd::seq_lib::group_to_multiset_ensures;

    assert forall|i: int, j: int|
        0 <= i < source.len() && 0 <= j < source.len() && i != j implies source[i]
        != source[j] by {
        if i < j {
            assert(source[i].tax_year != source[j].tax_year);
        } else {
            assert(source[j].tax_year != source[i].tax_year);
        }
    }
    assert(source.no_duplicates());
    source.lemma_multiset_has_no_duplicates();
    recs.lemma_multiset_has_no_duplicates_conv();
    assert forall|a: int, b: int| 0 <= a < b < recs.len() implies recs[a].tax_year
        > recs[b].tax_year by {
        assert(recs[a].tax_year >= recs[b].tax_year);
        if recs[a].tax_year == recs[b].tax_year {
            assert(recs[a] != recs[b]);
            assert(recs.contains(recs[a]));
            assert(recs.contains(recs[b]));
            assert(source.to_multiset().count(recs[a]) > 0);
            assert(source.to_multiset().count(recs[b]) > 0);
            assert(source.contains(recs[a]));
            assert(source.contains(recs[b]));
            let ia = choose|i: int| 0 <= i < source.len() && source[i] == recs[a];
            let ib = choose|i: int| 0 <= i < source.len() && source[i] == recs[b];
            assert(ia != ib);
            assert(source[ia].tax_year == source[ib].tax_year);
            assert(false);
        }
    }
}

/// Monetary exactness: the record a well-formed tax row denotes holds
/// each monetary cell exactly as stored — retrieval introduces no
/// drift into a currency amount.
pub proof fn lemma_monetary_exactness(row: Seq<SqlValue>)
    requires
        tax_row_wf(row),
    ensures
        spec_tax_record_of(row).assessed_value_land == num_of(row[1]),
        spec_tax_record_of(row).assessed_value_improvement == num_of(row[2]),
        spec_tax_record_of(row).total_assessed_value == num_of(row[3]),
        spec_tax_record_of(row).county_tax == num_of(row[4]),
        spec_tax_record_of(row).city_tax == num_of(row[5]),
        spec_tax_record_of(row).school_tax == num_of(row[6]),
        spec_tax_record_of(row).matc_tax == num_of(row[7]),
        spec_tax_record_of(row).gross_tax == num_of(row[8]),
        spec_tax_record_of(row).net_tax == num_of(row[9]),
{
}

/// The parameterized lookup of one `gold.sites` row by exact address.
pub fn property_query(address: &str) -> (r: SqlQuery)
    ensures
        r.text@
            == "SELECT site_parcel_id, parcel_address, property_class, property_use, area_name, alder_district_name, bedrooms, full_baths, half_baths, total_living_area, lot_size, current_total_value FROM gold.sites WHERE parcel_address = ?"@,
        r.params.deep_view() =~= seq![address@],
{
    let mut params: Vec<String> = Vec::new();
    params.push(String::from_str(address));
    SqlQuery {
        text: String::from_str(
            "SELECT site_parcel_id, parcel_address, property_class, property_use, area_name, alder_district_name, bedrooms, full_baths, half_baths, total_living_area, lot_size, current_total_value FROM gold.sites WHERE parcel_address = ?",
        ),
        params,
    }
}

/// The parameterized lookup of all `silver.tax_roll` rows of one
/// parcel, most recent year first.
pub fn tax_records_query(parcel_id: &str) -> (r: SqlQuery)
    ensures
        r.text@
            == "SELECT tax_year, assessed_value_land, assessed_value_improvement, total_assessed_value, county_tax, city_tax, school_tax, matc_tax, gross_tax, net_tax FROM silver.tax_roll WHERE parcel_id = ? ORDER BY tax_year DESC"@,
        r.params.deep_view() =~= seq![parcel_id@],
{
    let mut params: Vec<String> = Vec::new();
    params.push(String::from_str(parcel_id));
    SqlQuery {
        text: String::from_str(
            "SELECT tax_year, assessed_value_land, assessed_value_improvement, total_assessed_value, county_tax, city_tax, school_tax, matc_tax, gross_tax, net_tax FROM silver.tax_roll WHERE parcel_id = ? ORDER BY tax_year DESC",
        ),
        params,
    }
}

/// The uniform conversion failure for a malformed `gold.sites` row.
fn site_mapping_error() -> (r: PropertyRepositoryError)
    ensures
        r is RowMapping,
{
    PropertyRepositoryError::RowMapping(
        String::from_str("null or mistyped column in gold.sites row"),
    )
}

/// The uniform conversion failure for a malformed `silver.tax_roll`
/// row.
fn tax_mapping_error() -> (r: PropertyRepositoryError)
    ensures
        r is RowMapping,
{
    PropertyRepositoryError::RowMapping(
        String::from_str("null or mistyped column in silver.tax_roll row"),
    )
}

/// Converts one `gold.sites` row; fails with `RowMapping` exactly on a
/// malformed row.
pub fn map_site_row(row: &Vec<SqlValue>) -> (r: Result<Property, PropertyRepositoryError>)
    ensures
        r is Ok <==> site_row_wf(row@),
        r matches Ok(p) ==> p@ == spec_property_of(row@),
        r matches Err(e) ==> e is RowMapping,
{
    if row.len() != 12 {
        return Err(site_mapping_error());
    }
    let site_parcel_id = match read_text(&row[0]) {
        Some(v) => v,
        None => { return Err(site_mapping_error()) },
    };
    let parcel_address = match read_text(&row[1]) {
        Some(v) => v,
        None => { return Err(site_mapping_error()) },
    };
    let property_class = match read_text(&row[2]) {
        Some(v) => v,
        None => { return Err(site_mapping_error()) },
    };
    let property_use = match read_text(&row[3]) {
        Some(v) => v,
        None => { return Err(site_mapping_error()) },
    };
    let area_name = match read_text(&row[4]) {
        Some(v) => v,
        None => { return Err(site_mapping_error()) },
    };
    let alder_district_name = match read_text(&row[5]) {
        Some(v) => v,
        None => { return Err(site_mapping_error()) },
    };
    let bedrooms = match read_opt_approx(&row[6]) {
        Some(v) => v,
        None => { return Err(site_mapping_error()) },
    };
    let full_baths = match read_opt_approx(&row[7]) {
        Some(v) => v,
        None => { return Err(site_mapping_error()) },
    };
    let half_baths = match read_opt_approx(&row[8]) {
        Some(v) => v,
        None => { return Err(site_mapping_error()) },
    };
    let total_living_area = match read_opt_approx(&row[9]) {
        Some(v) => v,
        None => { return Err(site_mapping_error()) },
    };
    let lot_size = match read_opt_approx(&row[10]) {
        Some(v) => v,
        None => { return Err(site_mapping_error()) },
    };
    let current_value_2025 = match read_approx(&row[11]) {
        Some(v) => v,
        None => { return Err(site_mapping_error()) },
    };
    Ok(
        Property {
            site_parcel_id,
            parcel_address,
            property_class,
            property_use,
            area_name,
            alder_district_name,
            bedrooms,
            full_baths,
            half_baths,
            total_living_area,
            lot_size,
            current_value_2025,
        },
    )
}

/// Converts one `silver.tax_roll` row; fails with `RowMapping` exactly
/// on a malformed row.
pub fn map_tax_row(row: &Vec<SqlValue>) -> (r: Result<TaxRecord, PropertyRepositoryError>)
    ensures
        r is Ok <==> tax_row_wf(row@),
        r matches Ok(t) ==> t == spec_tax_record_of(row@),
        r matches Err(e) ==> e is RowMapping,
{
    if row.len() != 10 {
        return Err(tax_mapping_error());
    }
    let tax_year = match &row[0] {
        SqlValue::Int(y) => {
            if i32::MIN as i64 <= *y && *y <= i32::MAX as i64 {
                *y as i32
            } else {
                return Err(tax_mapping_error());
            }
        },
        _ => { return Err(tax_mapping_error()) },
    };
    let assessed_value_land = match read_num(&row[1]) {
        Some(v) => v,
        None => { return Err(tax_mapping_error()) },
    };
    let assessed_value_improvement = match read_num(&row[2]) {
        Some(v) => v,
        None => { return Err(tax_mapping_error()) },
    };
    let total_assessed_value = match read_num(&row[3]) {
        Some(v) => v,
        None => { return Err(tax_mapping_error()) },
    };
    let county_tax = match read_num(&row[4]) {
        Some(v) => v,
        None => { return Err(tax_mapping_error()) },
    };
    let city_tax = match read_num(&row[5]) {
        Some(v) => v,
        None => { return Err(tax_mapping_error()) },
    };
    let school_tax = match read_num(&row[6]) {
        Some(v) => v,
        None => { return Err(tax_mapping_error()) },
    };
    let matc_tax = match read_num(&row[7]) {
        Some(v) => v,
        None => { return Err(tax_mapping_error()) },
    };
    let gross_tax = match read_num(&row[8]) {
        Some(v) => v,
        None => { return Err(tax_mapping_error()) },
    };
    let net_tax = match read_num(&row[9]) {
        Some(v) => v,
        None => { return Err(tax_mapping_error()) },
    };
    Ok(
        TaxRecord {
            tax_year,
            assessed_value_land,
            assessed_value_improvement,
            total_assessed_value,
            county_tax,
            city_tax,
            school_tax,
            matc_tax,
            gross_tax,
            net_tax,
        },
    )
}

/// Converts a whole `silver.tax_roll` result set, in result order;
/// the first malformed row aborts the conversion.
pub fn map_tax_rows(rows: &Vec<Vec<SqlValue>>) -> (r: Result<
    Vec<TaxRecord>,
    PropertyRepositoryError,
>)
    ensures
        r is Ok <==> all_tax_rows_wf(rows_view(rows@)),
        r matches Ok(v) ==> v@ == mapped_tax_records(rows_view(rows@)),
        r matches Err(e) ==> e is RowMapping,
{
    let ghost rs = rows_view(rows@);
    let mut out: Vec<TaxRecord> = Vec::new();
    let mut i: usize = 0;
    while i < rows.len()
        invariant
            i <= rows@.len(),
            rs == rows_view(rows@),
            forall|k: int| 0 <= k < i ==> tax_row_wf(#[trigger] rs[k]),
            out@ == mapped_tax_records(rs).take(i as int),
        decreases rows@.len() - i,
    {
        match map_tax_row(&rows[i]) {
            Ok(t) => {
                out.push(t);
                proof {
                    assert(rs[i as int] == rows@[i as int]@);
                    assert(mapped_tax_records(rs).take(i as int + 1) =~= mapped_tax_records(
                        rs,
                    ).take(i as int).push(spec_tax_record_of(rs[i as int])));
                }
            },
            Err(e) => {
                proof {
                    assert(rs[i as int] == rows@[i as int]@);
                    assert(!tax_row_wf(rs[i as int]));
                }
                return Err(e);
            },
        }
        i += 1;
    }
    proof {
        assert(mapped_tax_records(rs).take(rows@.len() as int) =~= mapped_tax_records(rs));
    }
    Ok(out)
}

/// Orders tax records by year, most recent first, preserving the
/// records themselves; a result set the engine already ordered passes
/// through unchanged.
pub fn sort_tax_records_desc(input: &Vec<TaxRecord>) -> (r: Vec<TaxRecord>)
    ensures
        sorted_desc(r@),
        r@.to_multiset() == input@.to_multiset(),
        sorted_desc(input@) ==> r@ == input@,
{
    let mut out: Vec<TaxRecord> = Vec::new();
    let mut i: usize = 0;
    proof {
        assert(out@ =~= input@.take(0));
    }
    while i < input.len()
        invariant
            i <= input@.len(),
            sorted_desc(out@),
            out@.to_multiset() == input@.take(i as int).to_multiset(),
            sorted_desc(input@) ==> out@ == input@.take(i as int),
        decreases input@.len() - i,
    {
        let rec = input[i];
        let ghost before = out@;
        let mut j: usize = 0;
        while j < out.len() && out[j].tax_year >= rec.tax_year
            invariant
                j <= out@.len(),
                out@ == before,
                forall|k: int| 0 <= k < j ==> #[trigger] out@[k].tax_year >= rec.tax_year,
            decreases out@.len() - j,
        {
            j += 1;
        }
        proof {
            if sorted_desc(input@) {
                if (j as int) < before.len() {
                    assert(before[j as int] == input@[j as int]);
                    assert(input@[j as int].tax_year >= input@[i as int].tax_year);
                    assert(false);
                }
            }
        }
        out.insert(j, rec);
        proof {
            broadcast use vstd::seq_lib::group_to_multiset_ensures;

            let after = before.insert(j as int, rec);
            assert(out@ == after);
            assert forall|a: int, b: int| 0 <= a < b < after.len() implies after[a].tax_year
                >= after[b].tax_year by {
                if b < j {
                    assert(after[a] == before[a] && after[b] == before[b]);
                } else if b == j {
                    assert(after[a] == before[a] && after[b] == rec);
                } else {
                    assert(after[b] == before[b - 1]);
                    if a < j {
                        assert(after[a] == before[a]);
                        if b - 1 >= j && (j as int) < before.len() {
                            assert(before[j as int].tax_year < rec.tax_year);
                        }
                    } else if a == j {
                        assert(after[a] == rec);
                        assert(before[j as int].tax_year < rec.tax_year);
                        assert(before[j as int].tax_year >= before[b - 1].tax_year);
                    } else {
                        assert(after[a] == before[a - 1]);
                    }
                }
            }
            assert(sorted_desc(after));
            assert(input@.take(i as int + 1) =~= input@.take(i as int).push(rec));
            assert(after.to_multiset() == before.to_multiset().insert(rec));
            assert(input@.take(i as int).push(rec).to_multiset() == input@.take(
                i as int,
            ).to_multiset().insert(rec));
            if sorted_desc(input@) {
                assert(j as int == before.len());
                assert(after =~= before.push(rec));
            }
        }
        i += 1;
    }
    proof {
        assert(input@.take(input@.len() as int) =~= input@);
    }
    out
}

/// The concrete repository over the shared connection handle.
pub struct DuckDbPropertyRepository {
    pub db: ConnectionHandle,
}

impl DuckDbPropertyRepository {
    /// Borrows the shared connection handle for property lookups.
    pub fn new(db: ConnectionHandle) -> (r: Self)
        ensures
            r.db == db,
    {
        Self { db }
    }

    /// Decides a property lookup from the rows the engine returned
    /// for `property_query`: zero rows is `NotFound`, a malformed
    /// first row is `RowMapping`, and otherwise the first row is the
    /// property.
    pub fn get_property(&self, rows: &Vec<Vec<SqlValue>>) -> (r: Result<
        Property,
        PropertyRepositoryError,
    >)
        ensures
            r is Ok <==> rows@.len() > 0 && site_row_wf(rows@[0]@),
            r matches Ok(p) ==> p@ == spec_property_of(rows@[0]@),
            rows@.len() == 0 ==> (r matches Err(e) && e is NotFound),
            rows@.len() > 0 && r is Err ==> (r matches Err(e) && e is RowMapping),
    {
        if rows.len() == 0 {
            return Err(PropertyRepositoryError::NotFound);
        }
        map_site_row(&rows[0])
    }
}

impl PropertyRepository for DuckDbPropertyRepository {
    fn get_property_with_history(
        &self,
        property_rows: &Vec<Vec<SqlValue>>,
        tax_rows: &Vec<Vec<SqlValue>>,
    ) -> (r: Result<PropertyWithHistory, PropertyRepositoryError>) {
        let property = match self.get_property(property_rows) {
            Ok(p) => p,
            Err(e) => { return Err(e) },
        };
        let tax_records = match self.get_tax_records(tax_rows) {
            Ok(v) => v,
            Err(e) => { return Err(e) },
        };
        proof {
            broadcast use vstd::seq_lib::group_to_multiset_ensures;

            if tax_rows@.len() == 0 {
                assert(mapped_tax_records(rows_view(tax_rows@)).len() == 0);
            }
        }
        Ok(PropertyWithHistory { property, tax_records })
    }

    fn get_tax_records(&self, rows: &Vec<Vec<SqlValue>>) -> (r: Result<
        Vec<TaxRecord>,
        PropertyRepositoryError,
    >) {
        let unordered = match map_tax_rows(rows) {
            Ok(v) => v,
            Err(e) => { return Err(e) },
        };
        Ok(sort_tax_records_desc(&unordered))
    }
}

} // verus!
