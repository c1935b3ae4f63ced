//! Release groups: the albums, singles and the like that releases are issues
//! of. Every release belongs to exactly one group.

use vstd::prelude::*;
use crate::lookup::Entity;
use crate::mbid::Mbid;

verus! {

#[derive(Debug, PartialEq, Eq)]
pub struct ReleaseGroup {
    /// The title, most often that of the releases in the group.
    pub title: String,
    pub id: Mbid,
    pub first_release_date: String,
    /// What sort of group this is.
    pub primary_type: Option<ReleaseGroupPrimaryType>,
    pub primary_type_id: Option<Mbid>,
    /// Further, more specific sorts that apply to the group.
    pub secondary_types: Vec<ReleaseGroupSecondaryType>,
    pub secondary_type_ids: Vec<Mbid>,
    pub disambiguation: String,
}

#[derive(Clone, Copy, Debug, PartialEq, Eq)]
pub enum ReleaseGroupPrimaryType {
    /// A long-playing release, mostly of material not released before.
    Album,
    /// A release led by one song, as the market it is made for understands
    /// the word.
    Single,
    /// An extended play: shorter than an album, with material of its own.
    Ep,
    /// An episode first sent out by radio, television or the internet.
    Broadcast,
    /// Whatever fits none of the others.
    Other,
}

#[derive(Clone, Copy, Debug, PartialEq, Eq)]
pub enum ReleaseGroupSecondaryType {
    /// A play performed for listening, by several voices.
    AudioDrama,
    /// A book read aloud, without music.
    Audiobook,
    /// A collection of recordings from earlier sources or by various
    /// artists.
    Compilation,
    Demo,
    /// Recordings blended one into the next by a DJ.
    DjMix,
    /// A conversation, most often with an artist.
    Interview,
    /// Recorded in front of an audience.
    Live,
    /// Promotional releases with a good share of new material.
    MixtapeStreet,
    /// Mostly remixed material.
    Remix,
    /// The music of a film, a show, a game or the like.
    Soundtrack,
    /// Spoken word that is not music.
    Spokenword,
}

impl Entity for ReleaseGroup {
    open spec fn kind() -> Seq<char> {
        "release-group"@
    }

    fn name() -> (name: &'static str) {
        "release-group"
    }
}

} // verus!
