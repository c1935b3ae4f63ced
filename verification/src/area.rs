//! Areas: geographic regions and settlements.

use vstd::prelude::*;
use crate::lookup::Entity;
use crate::mbid::Mbid;

verus! {

/// A geographic region or settlement.
#[derive(Debug, PartialEq, Eq)]
pub struct Area {
    /// The name of the area.
    pub name: String,
    pub sort_name: String,
    pub id: Mbid,
    /// What sort of area this is: a country, a city and so on.
    pub a_type: Option<AreaType>,
    pub type_id: Option<Mbid>,
    /// The ISO 3166-1 alpha-2 codes of the area.
    pub iso_3166_1_codes: Vec<String>,
    pub disambiguation: String,
}

#[derive(Clone, Copy, Debug, PartialEq, Eq)]
pub enum AreaType {
    Country,
    Subdivision,
    County,
    Municipality,
    City,
    District,
    Island,
}

impl Entity for Area {
    open spec fn kind() -> Seq<char> {
        "area"@
    }

    fn name() -> (name: &'static str) {
        "area"
    }
}

} // verus!
