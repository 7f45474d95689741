//! Startup behaviour: fail-fast credential resolution, the mounting
//! plan, its rendering, and its idempotence.

use st_madison_backend::engine::{mount_plan_statements, render_statement, Statement};
use st_madison_backend::state::{
    initialize_database, resolve_credentials, AppState, InitConfig, StateError, StorageMode,
};

fn config(key: Option<&str>, secret: Option<&str>) -> InitConfig {
    InitConfig {
        mode: StorageMode::InMemory,
        gcs_key_id: key.map(|s| s.to_string()),
        gcs_secret: secret.map(|s| s.to_string()),
    }
}

fn rendered_texts(plan: &[Statement]) -> Vec<String> {
    plan.iter().map(|s| render_statement(s).text).collect()
}

#[test]
fn missing_both_credentials_fails_fast() {
    let r = AppState::new(&config(None, None));
    assert!(matches!(r, Err(StateError::MissingCredentials)));
}

#[test]
fn missing_secret_fails_fast() {
    let r = initialize_database(&config(Some("key"), None));
    assert!(matches!(r, Err(StateError::MissingCredentials)));
}

#[test]
fn missing_key_fails_fast() {
    let r = resolve_credentials(None, Some("secret".to_string()));
    assert!(matches!(r, Err(StateError::MissingCredentials)));
}

#[test]
fn present_credentials_resolve_unchanged() {
    let r = resolve_credentials(Some("key".to_string()), Some("secret".to_string())).unwrap();
    assert_eq!(r.0, "key");
    assert_eq!(r.1, "secret");
}

#[test]
fn on_disk_mode_initializes_too() {
    let cfg = InitConfig {
        mode: StorageMode::OnDisk("/tmp/analytics.db".to_string()),
        gcs_key_id: Some("key".to_string()),
        gcs_secret: Some("secret".to_string()),
    };
    assert!(AppState::new(&cfg).is_ok());
}

#[test]
fn mount_plan_runs_extension_secret_schemas_then_views() {
    let plan = mount_plan_statements("key", "secret");
    let texts = rendered_texts(&plan);
    assert_eq!(
        texts,
        vec![
            "INSTALL httpfs;".to_string(),
            "LOAD httpfs;".to_string(),
            "CREATE OR REPLACE PERSISTENT SECRET gcs_credentials (TYPE gcs, KEY_ID ?, SECRET ?);"
                .to_string(),
            "CREATE SCHEMA IF NOT EXISTS gold;".to_string(),
            "CREATE SCHEMA IF NOT EXISTS silver;".to_string(),
            "CREATE OR REPLACE VIEW silver.parcels AS SELECT * FROM 'gs://stmsn-silver/fact_parcels.parquet';"
                .to_string(),
            "CREATE OR REPLACE VIEW silver.streets AS SELECT * FROM 'gs://stmsn-silver/fact_streets.parquet';"
                .to_string(),
            "CREATE OR REPLACE VIEW silver.tax_roll AS SELECT * FROM 'gs://stmsn-silver/fact_tax_roll.parquet';"
                .to_string(),
            "CREATE OR REPLACE VIEW gold.alder_districts AS SELECT * FROM 'gs://stmsn-gold/fact_alder_districts.parquet';"
                .to_string(),
            "CREATE OR REPLACE VIEW gold.area_plans AS SELECT * FROM 'gs://stmsn-gold/fact_area_plans.parquet';"
                .to_string(),
            "CREATE OR REPLACE VIEW gold.sites AS SELECT * FROM 'gs://stmsn-gold/fact_sites.parquet';"
                .to_string(),
        ]
    );
}

#[test]
fn credentials_go_through_placeholders_not_text() {
    let plan = mount_plan_statements("AKIA123", "hunter2");
    let secret_stmt = render_statement(&plan[2]);
    assert!(!secret_stmt.text.contains("AKIA123"));
    assert!(!secret_stmt.text.contains("hunter2"));
    assert_eq!(secret_stmt.params, vec!["AKIA123".to_string(), "hunter2".to_string()]);
}

#[test]
fn repeated_initialization_yields_the_same_plan() {
    let first = rendered_texts(&mount_plan_statements("key", "secret"));
    let second = rendered_texts(&mount_plan_statements("key", "secret"));
    assert_eq!(first, second);
    let again = initialize_database(&config(Some("key"), Some("secret")));
    assert!(again.is_ok());
    let once_more = initialize_database(&config(Some("key"), Some("secret")));
    assert!(once_more.is_ok());
}
