//! Process-wide initialization: credential resolution, the connection
//! handle, and the shared application state.
//!
//! Initialization must fail fast: missing credentials abort startup
//! with `MissingCredentials` before anything else happens, and no
//! partially initialized state is ever returned. The handle returned
//! on success carries, as its ghost catalog, exactly the mounted
//! schema the plan produces. Mutual exclusion around the one shared
//! connection is the unverified shell's duty: the core itself keeps no
//! shared mutable state.

use vstd::prelude::*;

use crate::engine::{
    mount_plan_statements, lemma_mount_plan_mounts, spec_mounted_catalog, CatalogView, Statement,
};

verus! {

/// Where the engine keeps its working file: fully in memory, or at a
/// configured path. Both are valid deployment modes.
#[derive(Clone, Debug, PartialEq)]
pub enum StorageMode {
    InMemory,
    OnDisk(String),
}

/// What process configuration hands to initialization: the storage
/// switch and the two remote-object-store credential strings, either
/// of which may be absent.
#[derive(Clone, Debug)]
pub struct InitConfig {
    pub mode: StorageMode,
    pub gcs_key_id: Option<String>,
    pub gcs_secret: Option<String>,
}

/// Startup-only failures; each is fatal and the process does not
/// start.
#[derive(Clone, Copy, Debug, PartialEq, Eq, Structural)]
pub enum StateError {
    /// One of the two credential strings is absent from configuration.
    MissingCredentials,
    /// The engine could not be opened or refused a statement of the
    /// mounting plan.
    ConnectionInitFailure,
}

/// The handle to the one shared connection. The engine itself lives
/// outside the core; the handle carries the catalog the mounting plan
/// established, as the ghost image every repository contract may rely
/// on.
#[derive(Clone)]
pub struct ConnectionHandle {
    pub catalog: Ghost<CatalogView>,
}

/// The shared application state: the connection handle that every
/// repository borrows.
#[derive(Clone)]
pub struct AppState {
    pub db: ConnectionHandle,
}

/// Resolves the two required credential strings; absence of either is
/// fatal.
pub fn resolve_credentials(key_id: Option<String>, secret: Option<String>) -> (r: Result<
    (String, String),
    StateError,
>)
    ensures
        r is Ok <==> key_id is Some && secret is Some,
        r matches Ok(c) ==> key_id matches Some(k) && c.0@ == k@,
        r matches Ok(c) ==> secret matches Some(s) && c.1@ == s@,
        r matches Err(e) ==> e == StateError::MissingCredentials,
{
    match (key_id, secret) {
        (Some(k), Some(s)) => Ok((k, s)),
        _ => Err(StateError::MissingCredentials),
    }
}

/// Initializes the connection: resolves the credentials, builds the
/// mounting plan, and returns the handle together with the plan the
/// engine must run. Fails fast with `MissingCredentials` when a
/// credential is absent; succeeds exactly otherwise, with the handle
/// carrying the mounted catalog.
pub fn initialize_database(config: &InitConfig) -> (r: Result<
    (ConnectionHandle, Vec<Statement>),
    StateError,
>)
    ensures
        r is Ok <==> config.gcs_key_id is Some && config.gcs_secret is Some,
        r matches Err(e) ==> e == StateError::MissingCredentials,
        r matches Ok(p) ==> {
            &&& config.gcs_key_id matches Some(k) && config.gcs_secret matches Some(s)
                && p.1@.map_values(|st: Statement| st@) =~= crate::engine::spec_mount_plan(k@, s@)
            &&& p.0.catalog@ =~= spec_mounted_catalog()
            &&& (crate::engine::spec_apply_all(
                crate::engine::empty_catalog(),
                p.1@.map_values(|st: Statement| st@),
            ) matches Ok(c) && c =~= p.0.catalog@)
        },
{
    let key_id = match &config.gcs_key_id {
        Some(k) => k.clone(),
        None => { return Err(StateError::MissingCredentials) },
    };
    let secret = match &config.gcs_secret {
        Some(s) => s.clone(),
        None => { return Err(StateError::MissingCredentials) },
    };
    let plan = mount_plan_statements(key_id.as_str(), secret.as_str());
    proof {
        lemma_mount_plan_mounts(key_id@, secret@);
    }
    let handle = ConnectionHandle { catalog: Ghost(spec_mounted_catalog()) };
    Ok((handle, plan))
}

impl AppState {
    /// Builds the shared state by initializing the connection; fails
    /// fast with `MissingCredentials` when a credential is absent.
    pub fn new(config: &InitConfig) -> (r: Result<(AppState, Vec<Statement>), StateError>)
        ensures
            r is Ok <==> config.gcs_key_id is Some && config.gcs_secret is Some,
            r matches Err(e) ==> e == StateError::MissingCredentials,
            r matches Ok(p) ==> p.0.db.catalog@ =~= spec_mounted_catalog(),
            r matches Ok(p) ==> config.gcs_key_id matches Some(k) && config.gcs_secret matches Some(
                s,
            ) && p.1@.map_values(|st: Statement| st@) =~= crate::engine::spec_mount_plan(k@, s@),
    {
        match initialize_database(config) {
            Ok((handle, plan)) => Ok((AppState { db: handle }, plan)),
            Err(e) => Err(e),
        }
    }
}

} // verus!
