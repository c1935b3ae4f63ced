//! Artists: people, groups and characters that make music.

use vstd::prelude::*;
use crate::lookup::Entity;
use crate::mbid::Mbid;

verus! {

#[derive(Debug, PartialEq, Eq)]
pub struct Artist {
    pub id: Mbid,
    pub name: String,
    pub sort_name: String,
    pub life_span: ArtistLifeSpan,
    pub disambiguation: String,
    pub a_type: Option<ArtistType>,
    pub type_id: Option<Mbid>,
    pub area: Option<ArtistArea>,
}

/// The area that an artist is chiefly associated with.
#[derive(Debug, PartialEq, Eq)]
pub struct ArtistArea {
    pub id: Mbid,
    pub name: String,
    pub iso_3166_1_codes: Vec<String>,
}

#[derive(Clone, Copy, Debug, PartialEq, Eq)]
pub enum ArtistGender {
    Male,
    Female,
    NotApplicable,
}

#[derive(Clone, Copy, Debug, PartialEq, Eq)]
pub enum ArtistType {
    Character,
    Group,
    Person,
    Other,
    Orchestra,
}

/// When an artist began and ended, as far as it is known.
#[derive(Debug, PartialEq, Eq)]
pub struct ArtistLifeSpan {
    pub begin: Option<String>,
    pub ended: bool,
    pub end: Option<String>,
}

impl Entity for Artist {
    open spec fn kind() -> Seq<char> {
        "artist"@
    }

    fn name() -> (name: &'static str) {
        "artist"
    }
}

} // verus!
