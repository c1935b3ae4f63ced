//! The lookup of one entity by its kind and identifier: the request to send
//! and the reading of the response.

use vstd::prelude::*;
use vstd::string::*;
use crate::error::{DecodeFailure, MusicBrainzError};
use crate::mbid::{hyphenated_text, Mbid};
use crate::request::{Method, Request, RequestView, Response};
use crate::web::{parsed_url, url_parse};

verus! {

/// A record of the library that can be looked up, with the name of its kind.
/// A lookup itself takes the name and a decoder as plain values, so a caller
/// can look up kinds that the library has no record for.
pub trait Entity: Sized {
    /// The name of the kind, as it stands in URLs.
    spec fn kind() -> Seq<char>;

    /// The name of the kind, as it stands in URLs.
    fn name() -> (name: &'static str)
        ensures
            name@ == Self::kind(),
    ;
}

/// The text of the lookup URL: the root of the API, the kind and the
/// canonical text of the identifier, joined by slashes.
pub open spec fn lookup_text(kind: Seq<char>, id: u128) -> Seq<char> {
    "https://musicbrainz.org/ws/2/"@ + kind + "/"@ + hyphenated_text(id)
}

/// The request that a lookup sends: a `GET` of the URL, asking for JSON.
pub open spec fn lookup_request_view(url: Seq<char>) -> RequestView {
    RequestView {
        method: Method::Get,
        url,
        headers: seq![("Accept"@, "application/json"@)],
        body: None,
    }
}

/// Writes the text of the lookup URL for an entity of the kind named.
pub fn lookup_address(kind: &str, mbid: &Mbid) -> (text: String)
    ensures
        text@ == lookup_text(kind@, mbid@),
{
    let mut text = String::from_str("https://musicbrainz.org/ws/2/");
    text.append(kind);
    text.append("/");
    text.append(mbid.to_string().as_str());
    text
}

/// Composes the URL of a lookup: the normal form of [`lookup_text`], or
/// `LookupParseUrl` where that text is no URL.
pub fn lookup_url(kind: &str, mbid: &Mbid) -> (url: Result<String, MusicBrainzError>)
    ensures
        match parsed_url(lookup_text(kind@, mbid@)) {
            Some(normal) => url is Ok && url.unwrap()@ == normal,
            None => url matches Err(MusicBrainzError::LookupParseUrl(_)),
        },
{
    match url_parse(lookup_address(kind, mbid).as_str()) {
        Ok(url) => Ok(url),
        Err(error) => Err(MusicBrainzError::LookupParseUrl(error)),
    }
}

/// The request that a lookup sends to a URL: a `GET` that asks for JSON.
pub fn json_request(url: String) -> (request: Request)
    ensures
        request@ == lookup_request_view(url@),
{
    let request = Request::new(Method::Get, url).header(
        String::from_str("Accept"),
        String::from_str("application/json"),
    );
    assert(request@.headers =~= lookup_request_view(url@).headers);
    request
}

/// Builds the request of a lookup: [`json_request`] for the URL of
/// [`lookup_url`], or that function's error.
pub fn lookup_request(kind: &str, mbid: &Mbid) -> (request: Result<Request, MusicBrainzError>)
    ensures
        match parsed_url(lookup_text(kind@, mbid@)) {
            Some(normal) => request is Ok && request.unwrap()@ == lookup_request_view(normal),
            None => request matches Err(MusicBrainzError::LookupParseUrl(_)),
        },
{
    match lookup_url(kind, mbid) {
        Ok(url) => Ok(json_request(url)),
        Err(error) => Err(error),
    }
}

/// What a lookup does with a response of a given status.
#[derive(Clone, Copy, Debug, PartialEq, Eq, Structural)]
pub enum StatusReading {
    /// Status 200: the body holds the record.
    Decode,
    /// Status 404: there is no such entity.
    NotFound,
    /// Any other status, which ends the lookup.
    Unknown(u16),
}

/// How a status is read.
pub open spec fn reading_of(status: u16) -> StatusReading {
    if status == 200 {
        StatusReading::Decode
    } else if status == 404 {
        StatusReading::NotFound
    } else {
        StatusReading::Unknown(status)
    }
}

/// Reads the status of a response.
pub fn read_status(status: u16) -> (reading: StatusReading)
    ensures
        reading == reading_of(status),
{
    if status == 200 {
        StatusReading::Decode
    } else if status == 404 {
        StatusReading::NotFound
    } else {
        StatusReading::Unknown(status)
    }
}

/// The result of a lookup whose body has been through the decoder.
pub open spec fn decoded_record<T>(decoded: Result<T, DecodeFailure>) -> Result<
    T,
    MusicBrainzError,
> {
    match decoded {
        Ok(record) => Ok(record),
        Err(failure) => Err(MusicBrainzError::LookupParseResponse(failure)),
    }
}

/// Turns what the decoder made of a body into the result of the lookup: the
/// record, or `LookupParseResponse` with the decoder's failure.
pub fn decoded<T>(made: Result<T, DecodeFailure>) -> (record: Result<T, MusicBrainzError>)
    ensures
        record == decoded_record(made),
{
    match made {
        Ok(record) => Ok(record),
        Err(failure) => Err(MusicBrainzError::LookupParseResponse(failure)),
    }
}

/// Whether `error` says that no entity of the kind is found under `id`.
pub open spec fn is_not_found(error: MusicBrainzError, kind: Seq<char>, id: Mbid) -> bool {
    match error {
        MusicBrainzError::NotFound { kind: named, id: sought } => named@ == kind && sought == id,
        _ => false,
    }
}

/// Reads the response to a lookup. With status 200 the body goes through the
/// decoder, once, and the result is [`decoded_record`] of what the decoder
/// made of it; with 404 it is `NotFound` with the kind and the identifier;
/// with any other status it is `UnknownStatus` with that status, and the
/// decoder is not called.
pub fn interpret<T, D: FnOnce(&Vec<u8>) -> Result<T, DecodeFailure>>(
    kind: &str,
    mbid: &Mbid,
    response: &Response,
    decoder: D,
) -> (record: Result<T, MusicBrainzError>)
    requires
        response.status == 200 ==> decoder.requires((&response.body,)),
    ensures
        response.status == 200 ==> exists|made: Result<T, DecodeFailure>|
            decoder.ensures((&response.body,), made) && record == decoded_record(made),
        response.status == 404 ==> match record {
            Err(error) => is_not_found(error, kind@, *mbid),
            Ok(_) => false,
        },
        response.status != 200 && response.status != 404 ==> record == Err::<
            T,
            MusicBrainzError,
        >(MusicBrainzError::UnknownStatus(response.status)),
{
    match read_status(response.status) {
        StatusReading::Decode => {
            let made = decoder(&response.body);
            decoded(made)
        },
        StatusReading::NotFound => Err(
            MusicBrainzError::NotFound { kind: String::from_str(kind), id: *mbid },
        ),
        StatusReading::Unknown(code) => Err(MusicBrainzError::UnknownStatus(code)),
    }
}

} // verus!
