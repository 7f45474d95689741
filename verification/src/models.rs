//! The domain model: plain, independently-owned records returned to
//! callers. No value here shares mutable state with the core.

pub mod land_efficiency;
pub mod parcel_assessment;
pub mod property;
pub mod property_with_history;
pub mod tax_record;

pub use land_efficiency::LandEfficiencyMetrics;
pub use parcel_assessment::ParcelAssessmentModel;
pub use property::Property;
pub use property_with_history::PropertyWithHistory;
pub use tax_record::TaxRecord;
