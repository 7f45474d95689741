//! Parcel-assessment and land-efficiency lookups: empty results are
//! success, rows convert in order, and failures carry their kind.

use st_madison_backend::approx::ApproxValue;
use st_madison_backend::repositories::land_efficiency::error::LandEfficiencyRepositoryError;
use st_madison_backend::repositories::land_efficiency::{
    land_efficiency_query, map_metrics_row, DuckDbLandEfficiencyRepository,
};
use st_madison_backend::repositories::parcel_assessment::error::ParcelAssessmentRepositoryError;
use st_madison_backend::repositories::parcel_assessment::{
    map_assessment_row, parcel_assessment_query, DuckDbParcelAssessmentRepository,
};
use st_madison_backend::sql::SqlValue;
use st_madison_backend::state::{AppState, InitConfig, StorageMode};

fn approx(x: f64) -> SqlValue {
    SqlValue::Approx(ApproxValue::from_bits(x.to_bits()))
}

fn state() -> AppState {
    let config = InitConfig {
        mode: StorageMode::InMemory,
        gcs_key_id: Some("key".to_string()),
        gcs_secret: Some("secret".to_string()),
    };
    AppState::new(&config).unwrap().0
}

fn assessment_row() -> Vec<SqlValue> {
    vec![
        SqlValue::Int(95_000),
        SqlValue::Null,
        SqlValue::Int(351_000),
        approx(12_345.67),
        SqlValue::Null,
    ]
}

fn metrics_row() -> Vec<SqlValue> {
    vec![approx(21.5), SqlValue::Null, approx(0.27), approx(1.08)]
}

#[test]
fn empty_parcel_scan_is_empty_success() {
    let repo = DuckDbLandEfficiencyRepository::new(state().db);
    let rows: Vec<Vec<SqlValue>> = vec![];
    let metrics = repo.get_land_efficiency_metrics(&rows).unwrap();
    assert!(metrics.is_empty());
}

#[test]
fn metrics_rows_convert_in_result_order() {
    let repo = DuckDbLandEfficiencyRepository::new(state().db);
    let rows = vec![metrics_row(), vec![SqlValue::Null; 4]];
    let metrics = repo.get_land_efficiency_metrics(&rows).unwrap();
    assert_eq!(metrics.len(), 2);
    assert_eq!(
        metrics[0].land_value_per_sqft,
        Some(ApproxValue::from_bits(21.5f64.to_bits()))
    );
    assert_eq!(metrics[0].net_taxes_per_sqft, None);
    assert_eq!(metrics[1].land_value_per_sqft, None);
}

#[test]
fn mistyped_metrics_cell_is_row_mapping() {
    let mut row = metrics_row();
    row[2] = SqlValue::Text("0.27".to_string());
    let r = map_metrics_row(&row);
    assert!(matches!(r, Err(LandEfficiencyRepositoryError::RowMapping(_))));
}

#[test]
fn land_efficiency_query_scans_unfiltered() {
    let q = land_efficiency_query();
    assert_eq!(
        q.text,
        "SELECT land_value_per_sqft_lot, net_taxes_per_sqft_lot, land_share_property, \
         land_value_alignment_index FROM silver.parcels"
    );
    assert!(q.params.is_empty());
}

#[test]
fn error_messages_name_their_kind() {
    let db = LandEfficiencyRepositoryError::Database("remote read failed".to_string());
    assert_eq!(db.message(), "Database error: remote read failed");
    let rm = LandEfficiencyRepositoryError::RowMapping("bad cell".to_string());
    assert_eq!(rm.message(), "Row mapping error: bad cell");
}

#[test]
fn assessment_of_unknown_parcel_is_empty_success() {
    let repo = DuckDbParcelAssessmentRepository::new(state().db);
    let rows: Vec<Vec<SqlValue>> = vec![];
    let models = repo.get_parcel_assessment(&rows).unwrap();
    assert!(models.is_empty());
}

#[test]
fn assessment_rows_keep_their_nulls() {
    let repo = DuckDbParcelAssessmentRepository::new(state().db);
    let rows = vec![assessment_row()];
    let models = repo.get_parcel_assessment(&rows).unwrap();
    assert_eq!(models.len(), 1);
    assert_eq!(models[0].current_land_value, Some(95_000));
    assert_eq!(models[0].current_improvement_value, None);
    assert_eq!(models[0].current_total_value, Some(351_000));
    assert_eq!(
        models[0].net_taxes,
        Some(ApproxValue::from_bits(12_345.67f64.to_bits()))
    );
    assert_eq!(models[0].lot_size, None);
}

#[test]
fn mistyped_assessment_cell_is_row_mapping() {
    let repo = DuckDbParcelAssessmentRepository::new(state().db);
    let mut row = assessment_row();
    row[0] = SqlValue::Text("95000".to_string());
    let r = repo.get_parcel_assessment(&vec![row.clone()]);
    assert!(matches!(r, Err(ParcelAssessmentRepositoryError::RowMapping(_))));
    let single = map_assessment_row(&row);
    assert!(matches!(single, Err(ParcelAssessmentRepositoryError::RowMapping(_))));
}

#[test]
fn assessment_query_filters_by_parcel() {
    let q = parcel_assessment_query("P001");
    assert_eq!(
        q.text,
        "SELECT current_land_value, current_improvement_value, current_total_value, net_taxes, \
         lot_size FROM silver.parcels WHERE parcel_id = ?"
    );
    assert_eq!(q.params, vec!["P001".to_string()]);
}
