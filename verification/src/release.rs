//! Releases: the issues of a recording that can be bought.

use vstd::prelude::*;
use crate::area::Area;
use crate::lookup::Entity;
use crate::mbid::Mbid;

verus! {

#[derive(Debug)]
pub struct Release {
    pub title: String,
    pub release_events: Option<Vec<ReleaseEvent>>,
    pub status: Option<ReleaseStatus>,
    pub cover_art_archive: CoverArtArchive,
    pub packaging: Option<ReleasePackaging>,
    pub asin: Option<String>,
    pub quality: ReleaseQuality,
    pub barcode: Option<String>,
    pub country: Option<String>,
    pub disambiguation: String,
    pub packaging_id: Option<Mbid>,
    pub id: Mbid,
    pub status_id: Option<Mbid>,
    pub text_representation: ReleaseTextRepresentation,
}

/// What the cover art archive holds for a release.
#[derive(Debug)]
pub struct CoverArtArchive {
    pub front: bool,
    pub artwork: bool,
    pub count: u64,
    pub darkened: bool,
    pub back: bool,
}

/// The language and script of the text on a release.
#[derive(Debug)]
pub struct ReleaseTextRepresentation {
    pub language: Option<String>,
    pub script: Option<String>,
}

/// Where and when a release came out.
#[derive(Debug)]
pub struct ReleaseEvent {
    pub area: Option<Area>,
    pub date: String,
}

#[derive(Clone, Copy, Debug)]
pub enum ReleaseStatus {
    Official,
    Promotion,
    Bootleg,
    PseudoRelease,
    Withdrawn,
    Cancelled,
}

#[derive(Clone, Copy, Debug)]
pub enum ReleasePackaging {
    Book,
    Box,
    CardboardPaperSleeve,
    CassetteCase,
    ClamshellCase,
    Digibook,
    Digipak,
    DiscboxSlider,
    Fatbox,
    GatefoldCover,
    JewelCase,
    KeepCase,
    Longbox,
    MetalTin,
    PlasticSleeve,
    Slidepack,
    SlimJewelCase,
    SnapCase,
    SnapPack,
    SuperJewelBox,
    Other,
    /// The release has no packaging at all.
    NoPackaging,
}

#[derive(Clone, Copy, Debug)]
pub enum ReleaseQuality {
    High,
    Normal,
    Low,
}

impl Entity for Release {
    open spec fn kind() -> Seq<char> {
        "release"@
    }

    fn name() -> (name: &'static str) {
        "release"
    }
}

} // verus!
