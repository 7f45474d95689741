//! Property lookups: existence, ordering, composition and the error
//! taxonomy, on concrete result rows.

use st_madison_backend::approx::ApproxValue;
use st_madison_backend::money::Money;
use st_madison_backend::repositories::property::duckdb::{
    map_site_row, map_tax_row, property_query, sort_tax_records_desc, tax_records_query,
    DuckDbPropertyRepository,
};
use st_madison_backend::repositories::property::error::PropertyRepositoryError;
use st_madison_backend::repositories::property::PropertyRepository;
use st_madison_backend::sql::SqlValue;
use st_madison_backend::state::{AppState, InitConfig, StorageMode};

fn text(s: &str) -> SqlValue {
    SqlValue::Text(s.to_string())
}

fn approx(x: f64) -> SqlValue {
    SqlValue::Approx(ApproxValue::from_bits(x.to_bits()))
}

fn money(mantissa: u128, scale: u32) -> SqlValue {
    SqlValue::Num(Money::new(false, mantissa, scale).unwrap())
}

fn repository() -> DuckDbPropertyRepository {
    let config = InitConfig {
        mode: StorageMode::InMemory,
        gcs_key_id: Some("key".to_string()),
        gcs_secret: Some("secret".to_string()),
    };
    let (state, _plan) = AppState::new(&config).unwrap();
    DuckDbPropertyRepository::new(state.db)
}

fn site_row(parcel_id: &str, address: &str) -> Vec<SqlValue> {
    vec![
        text(parcel_id),
        text(address),
        text("Residential"),
        text("Single family"),
        text("Downtown"),
        text("District 2"),
        approx(3.0),
        SqlValue::Null,
        approx(1.0),
        approx(1520.0),
        SqlValue::Null,
        approx(351000.0),
    ]
}

fn tax_row(year: i64) -> Vec<SqlValue> {
    vec![
        SqlValue::Int(year),
        money(95_000, 0),
        money(256_000, 0),
        money(351_000, 0),
        money(61_250, 2),
        money(312_404, 2),
        money(401_317, 2),
        money(21_980, 2),
        money(796_951, 2),
        money(123_457, 2),
    ]
}

#[test]
fn lookup_returns_stored_parcel_id() {
    let repo = repository();
    let rows = vec![site_row("P001", "123 Main St")];
    let property = repo.get_property(&rows).unwrap();
    assert_eq!(property.site_parcel_id, "P001");
    assert_eq!(property.parcel_address, "123 Main St");
    assert_eq!(property.property_class, "Residential");
    assert_eq!(property.bedrooms, Some(ApproxValue::from_bits(3.0f64.to_bits())));
    assert_eq!(property.full_baths, None);
    assert_eq!(
        property.current_value_2025,
        ApproxValue::from_bits(351000.0f64.to_bits())
    );
}

#[test]
fn duplicate_address_rows_pick_the_first() {
    let repo = repository();
    let rows = vec![site_row("P001", "123 Main St"), site_row("P999", "123 Main St")];
    let property = repo.get_property(&rows).unwrap();
    assert_eq!(property.site_parcel_id, "P001");
}

#[test]
fn equal_years_keep_every_record() {
    let repo = repository();
    let mut a = tax_row(2024);
    a[9] = money(100, 2);
    let mut b = tax_row(2024);
    b[9] = money(200, 2);
    let rows = vec![a, b, tax_row(2023)];
    let recs = repo.get_tax_records(&rows).unwrap();
    let years: Vec<i32> = recs.iter().map(|t| t.tax_year).collect();
    assert_eq!(years, vec![2024, 2024, 2023]);
    let nets: Vec<u128> = recs.iter().map(|t| t.net_tax.mantissa).collect();
    assert!(nets.contains(&100) && nets.contains(&200));
}

#[test]
fn absent_address_is_not_found() {
    let repo = repository();
    let rows: Vec<Vec<SqlValue>> = vec![];
    let r = repo.get_property(&rows);
    assert!(matches!(r, Err(PropertyRepositoryError::NotFound)));
}

#[test]
fn history_is_ordered_most_recent_first() {
    let repo = repository();
    let property_rows = vec![site_row("P001", "123 Main St")];
    let tax_rows = vec![tax_row(2023), tax_row(2024)];
    let ph = repo.get_property_with_history(&property_rows, &tax_rows).unwrap();
    assert_eq!(ph.tax_records.len(), 2);
    assert_eq!(ph.tax_records[0].tax_year, 2024);
    assert_eq!(ph.tax_records[1].tax_year, 2023);
}

#[test]
fn unordered_rows_come_back_descending() {
    let repo = repository();
    let rows = vec![tax_row(2020), tax_row(2024), tax_row(2022), tax_row(2021)];
    let recs = repo.get_tax_records(&rows).unwrap();
    let years: Vec<i32> = recs.iter().map(|t| t.tax_year).collect();
    assert_eq!(years, vec![2024, 2022, 2021, 2020]);
}

#[test]
fn empty_history_is_success() {
    let repo = repository();
    let property_rows = vec![site_row("P002", "45 Oak Ave")];
    let tax_rows: Vec<Vec<SqlValue>> = vec![];
    let ph = repo.get_property_with_history(&property_rows, &tax_rows).unwrap();
    assert_eq!(ph.property.site_parcel_id, "P002");
    assert!(ph.tax_records.is_empty());
}

#[test]
fn missing_property_beats_tax_rows() {
    let repo = repository();
    let property_rows: Vec<Vec<SqlValue>> = vec![];
    let tax_rows = vec![tax_row(2024)];
    let r = repo.get_property_with_history(&property_rows, &tax_rows);
    assert!(matches!(r, Err(PropertyRepositoryError::NotFound)));
}

#[test]
fn null_in_required_site_column_is_row_mapping() {
    let mut row = site_row("P001", "123 Main St");
    row[0] = SqlValue::Null;
    let r = map_site_row(&row);
    assert!(matches!(r, Err(PropertyRepositoryError::RowMapping(_))));
}

#[test]
fn wrong_site_column_count_is_row_mapping() {
    let mut row = site_row("P001", "123 Main St");
    row.pop();
    let r = map_site_row(&row);
    assert!(matches!(r, Err(PropertyRepositoryError::RowMapping(_))));
}

#[test]
fn mistyped_tax_cell_is_row_mapping() {
    let mut row = tax_row(2024);
    row[9] = approx(1234.57);
    let r = map_tax_row(&row);
    assert!(matches!(r, Err(PropertyRepositoryError::RowMapping(_))));
}

#[test]
fn out_of_range_tax_year_is_row_mapping() {
    let row = tax_row(3_000_000_000);
    let r = map_tax_row(&row);
    assert!(matches!(r, Err(PropertyRepositoryError::RowMapping(_))));
}

#[test]
fn sorting_keeps_already_ordered_input() {
    let rows = vec![tax_row(2024), tax_row(2023), tax_row(2020)];
    let recs: Vec<_> = rows.iter().map(|r| map_tax_row(r).unwrap()).collect();
    let sorted = sort_tax_records_desc(&recs);
    assert_eq!(sorted, recs);
}

#[test]
fn property_query_is_parameterized_by_address() {
    let q = property_query("123 Main St");
    assert_eq!(
        q.text,
        "SELECT site_parcel_id, parcel_address, property_class, property_use, area_name, \
         alder_district_name, bedrooms, full_baths, half_baths, total_living_area, lot_size, \
         current_total_value FROM gold.sites WHERE parcel_address = ?"
    );
    assert_eq!(q.params, vec!["123 Main St".to_string()]);
}

#[test]
fn tax_query_orders_by_year_descending() {
    let q = tax_records_query("P001");
    assert_eq!(
        q.text,
        "SELECT tax_year, assessed_value_land, assessed_value_improvement, total_assessed_value, \
         county_tax, city_tax, school_tax, matc_tax, gross_tax, net_tax FROM silver.tax_roll \
         WHERE parcel_id = ? ORDER BY tax_year DESC"
    );
    assert_eq!(q.params, vec!["P001".to_string()]);
}
