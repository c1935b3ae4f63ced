//! What can go wrong with a lookup.

use vstd::prelude::*;
use crate::mbid::Mbid;

verus! {

/// A body that could not be decoded, with the place in it where decoding
/// failed, as far as the decoder could tell.
#[derive(Debug)]
pub struct DecodeFailure {
    pub context: String,
}

impl View for DecodeFailure {
    type V = Seq<char>;

    open spec fn view(&self) -> Seq<char> {
        self.context@
    }
}

/// How a transport failed.
#[derive(Clone, Copy, Debug, PartialEq, Eq, Structural)]
pub enum TransportFailure {
    /// The attempt ran longer than the time allowed for one attempt.
    Timeout,
    /// The network, or the remote end, failed.
    Network,
}

/// The failures of a lookup.
#[derive(Debug)]
pub enum MusicBrainzError {
    /// The client could not be built.
    ClientCreate(String),
    /// The dispatcher did not become ready.
    ClientReady(String),
    /// The request failed in transport, after all retries.
    ClientGet(TransportFailure),
    /// The lookup URL could not be composed.
    LookupParseUrl(url::ParseError),
    /// The body of a successful response could not be decoded.
    LookupParseResponse(DecodeFailure),
    /// The catalog holds no entity of this kind under this identifier.
    NotFound { kind: String, id: Mbid },
    /// The catalog answered with a status that the lookup does not know.
    UnknownStatus(u16),
}

} // verus!
