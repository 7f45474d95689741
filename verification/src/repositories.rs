//! One repository per aggregate. Each translates a typed domain query
//! into parameterized SQL against the virtual views and maps result
//! rows back to domain values, surfacing a typed error on failure;
//! none recovers internally.

pub mod land_efficiency;
pub mod parcel_assessment;
pub mod property;
