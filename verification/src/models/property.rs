//! A property as exposed by the `gold.sites` view: identity, class,
//! administrative grouping, optional structural facts, and the current
//! assessed value.

use vstd::prelude::*;

use crate::approx::ApproxValue;

verus! {

/// One property row. `site_parcel_id` is the primary key;
/// `parcel_address` is the alternate lookup key, assumed unique in the
/// source data.
#[derive(Clone, Debug, PartialEq)]
pub struct Property {
    pub site_parcel_id: String,
    pub parcel_address: String,
    pub property_class: String,
    pub property_use: String,
    pub area_name: String,
    pub alder_district_name: String,
    pub bedrooms: Option<ApproxValue>,
    pub full_baths: Option<ApproxValue>,
    pub half_baths: Option<ApproxValue>,
    pub total_living_area: Option<ApproxValue>,
    pub lot_size: Option<ApproxValue>,
    pub current_value_2025: ApproxValue,
}

/// The mathematical image of a `Property`.
pub struct PropertyView {
    pub site_parcel_id: Seq<char>,
    pub parcel_address: Seq<char>,
    pub property_class: Seq<char>,
    pub property_use: Seq<char>,
    pub area_name: Seq<char>,
    pub alder_district_name: Seq<char>,
    pub bedrooms: Option<ApproxValue>,
    pub full_baths: Option<ApproxValue>,
    pub half_baths: Option<ApproxValue>,
    pub total_living_area: Option<ApproxValue>,
    pub lot_size: Option<ApproxValue>,
    pub current_value_2025: ApproxValue,
}

impl View for Property {
    type V = PropertyView;

    open spec fn view(&self) -> PropertyView {
        PropertyView {
            site_parcel_id: self.site_parcel_id@,
            parcel_address: self.parcel_address@,
            property_class: self.property_class@,
            property_use: self.property_use@,
            area_name: self.area_name@,
            alder_district_name: self.alder_district_name@,
            bedrooms: self.bedrooms,
            full_baths: self.full_baths,
            half_baths: self.half_baths,
            total_living_area: self.total_living_area,
            lot_size: self.lot_size,
            current_value_2025: self.current_value_2025,
        }
    }
}

} // verus!
