//! Read-only query service core for property-tax and land-assessment
//! records held in an embedded analytical engine behind two virtual
//! schemas ("silver" and "gold").
//!
//! The library holds the verified substance: the initialization plan
//! that mounts remote columnar files as views, a model of the engine's
//! catalog against which that plan is interpreted, and the repositories
//! that translate typed lookups into parameterized SQL and map result
//! rows back into domain values with a typed error taxonomy. The
//! unverified shell around it performs the actual engine calls and the
//! HTTP transport.

pub mod approx;
pub mod engine;
pub mod models;
pub mod money;
pub mod repositories;
pub mod sql;
pub mod state;

pub use approx::ApproxValue;
pub use money::Money;
