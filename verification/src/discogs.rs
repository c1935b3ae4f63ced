//! A plain client core for the Discogs catalog: its records, the requests for
//! releases and master releases, and the reading of the responses.

use vstd::prelude::*;
use vstd::string::*;
use crate::decimal::{decimal, decimal_text};
use crate::error::{DecodeFailure, TransportFailure};
use crate::request::{Method, Request, RequestView, Response};
use crate::web::{joined_url, parsed_url, url_join, url_parse};

verus! {

/// The failures of the Discogs client.
#[derive(Debug)]
#[allow(inconsistent_fields)]
pub enum DiscogsError {
    /// The base URL is no URL.
    InvalidBaseUrl(url::ParseError),
    /// The transport could not be built.
    FaildToCreateClient(String),
    /// The path could not be joined to the base URL.
    CreateRequestUrl(url::ParseError),
    /// The transport refused to build the request.
    BuildGETRequest(String),
    /// The catalog answered with a status that the client does not know.
    UnknownGETResponse(u16),
    /// The transport failed while getting a release.
    GetRelease { id: u64, source: TransportFailure },
    /// The catalog holds no release under this number.
    ReleaseNotFound { id: u64 },
    /// The body of a release could not be decoded.
    ReleaseDeserialization { id: u64, source: DecodeFailure },
    /// The transport failed while getting a master release.
    GetMasterRelease { id: u64, source: TransportFailure },
    /// The catalog holds no master release under this number.
    MasterReleaseNotFound { id: u64 },
    /// The body of a master release could not be decoded.
    MasterReleaseDeserialization { id: u64, source: DecodeFailure },
}

#[derive(Debug)]
pub struct Track {
    pub duration: String,
    pub position: String,
    pub title: String,
    pub type_: String,
}

#[derive(Debug)]
pub struct Identifier {
    pub _type: String,
    pub value: String,
}

#[derive(Debug)]
pub struct User {
    pub resource_url: String,
    pub username: String,
}

#[derive(Debug)]
pub struct Format {
    pub descriptions: Vec<String>,
    pub name: String,
    pub qty: String,
}

#[derive(Debug)]
pub struct Label {
    pub catno: String,
    pub entity_type: String,
    pub entity_type_name: String,
    pub id: u64,
    pub name: String,
    pub resource_url: String,
}

#[derive(Debug)]
pub struct Image {
    pub height: u64,
    pub _type: String,
    pub resource_url: String,
    pub width: u64,
    pub uri: String,
    pub uri150: String,
}

#[derive(Debug)]
pub struct Artist {
    pub anv: String,
    pub id: u64,
    pub join: String,
    pub name: String,
    pub resource_url: String,
    pub role: String,
    pub tracks: String,
}

#[derive(Debug)]
pub struct Video {
    pub uri: String,
    pub title: String,
    pub description: String,
    pub duration: u64,
    pub embed: bool,
}

/// The settings of a Discogs client: where the API is, how the client names
/// itself, and the personal access token, if there is one.
#[derive(Debug)]
pub struct Discogs {
    pub base_url: String,
    user_agent: String,
    token: Option<String>,
}

/// The mathematical content of a [`Discogs`].
pub ghost struct DiscogsView {
    pub base_url: Seq<char>,
    pub user_agent: Seq<char>,
    pub token: Option<Seq<char>>,
}

impl View for Discogs {
    type V = DiscogsView;

    closed spec fn view(&self) -> DiscogsView {
        DiscogsView {
            base_url: self.base_url@,
            user_agent: self.user_agent@,
            token: match self.token {
                Some(token) => Some(token@),
                None => None,
            },
        }
    }
}

/// The headers of a request: the token as `Authorization`, if there is one.
pub open spec fn token_headers(token: Option<Seq<char>>) -> Seq<(Seq<char>, Seq<char>)> {
    match token {
        Some(token) => seq![("Authorization"@, "Discogs token="@ + token)],
        None => Seq::empty(),
    }
}

/// The request for `url` with the given token.
pub open spec fn get_request_view(url: Seq<char>, token: Option<Seq<char>>) -> RequestView {
    RequestView { method: Method::Get, url, headers: token_headers(token), body: None }
}

/// The path of a release.
pub open spec fn release_path_text(id: u64) -> Seq<char> {
    "releases/"@ + decimal_text(id as nat)
}

/// The path of a master release.
pub open spec fn master_release_path_text(id: u64) -> Seq<char> {
    "masters/"@ + decimal_text(id as nat)
}

impl Discogs {
    /// The settings for the public API. The base URL is the normal form of
    /// `https://api.discogs.com`; if that text is no URL the result is
    /// `InvalidBaseUrl`.
    pub fn new(user_agent: String, token: Option<String>) -> (client: Result<Discogs, DiscogsError>)
        ensures
            match parsed_url("https://api.discogs.com"@) {
                Some(base) => client is Ok && client.unwrap()@ == (DiscogsView {
                    base_url: base,
                    user_agent: user_agent@,
                    token: match token {
                        Some(token) => Some(token@),
                        None => None,
                    },
                }),
                None => client matches Err(DiscogsError::InvalidBaseUrl(_)),
            },
    {
        match url_parse("https://api.discogs.com") {
            Ok(base_url) => Ok(Discogs { base_url, user_agent, token }),
            Err(error) => Err(DiscogsError::InvalidBaseUrl(error)),
        }
    }

    /// How the client names itself to the API.
    pub fn user_agent(&self) -> (name: &String)
        ensures
            name@ == self@.user_agent,
    {
        &self.user_agent
    }

    /// The `GET` request for a path below the base URL, with the token as
    /// `Authorization` if there is one; `CreateRequestUrl` where the path
    /// cannot be joined to the base.
    pub fn create_request(&self, append: &str) -> (request: Result<Request, DiscogsError>)
        ensures
            match joined_url(self@.base_url, append@) {
                Some(url) => request is Ok && request.unwrap()@ == get_request_view(
                    url,
                    self@.token,
                ),
                None => request matches Err(DiscogsError::CreateRequestUrl(_)),
            },
    {
        match url_join(self.base_url.as_str(), append) {
            Ok(url) => Ok(authorized_request(url, &self.token)),
            Err(error) => Err(DiscogsError::CreateRequestUrl(error)),
        }
    }

    /// The request for the release with the given number.
    pub fn release_request(&self, id: u64) -> (request: Result<Request, DiscogsError>)
        ensures
            match joined_url(self@.base_url, release_path_text(id)) {
                Some(url) => request is Ok && request.unwrap()@ == get_request_view(
                    url,
                    self@.token,
                ),
                None => request matches Err(DiscogsError::CreateRequestUrl(_)),
            },
    {
        self.create_request(release_path(id).as_str())
    }

    /// The request for the master release with the given number.
    pub fn master_release_request(&self, id: u64) -> (request: Result<Request, DiscogsError>)
        ensures
            match joined_url(self@.base_url, master_release_path_text(id)) {
                Some(url) => request is Ok && request.unwrap()@ == get_request_view(
                    url,
                    self@.token,
                ),
                None => request matches Err(DiscogsError::CreateRequestUrl(_)),
            },
    {
        self.create_request(master_release_path(id).as_str())
    }
}

/// The `GET` request for a URL, with the token as `Authorization` if there is
/// one.
pub fn authorized_request(url: String, token: &Option<String>) -> (request: Request)
    ensures
        request@ == get_request_view(
            url@,
            match *token {
                Some(token) => Some(token@),
                None => None,
            },
        ),
{
    let request = Request::new(Method::Get, url);
    match token {
        Some(token) => {
            let mut value = String::from_str("Discogs token=");
            value.append(token.as_str());
            let request = request.header(String::from_str("Authorization"), value);
            assert(request@.headers =~= token_headers(Some(token@)));
            request
        },
        None => request,
    }
}

/// Writes the path of a release: `releases/` and the number in decimal.
pub fn release_path(id: u64) -> (path: String)
    ensures
        path@ == release_path_text(id),
{
    let mut path = String::from_str("releases/");
    path.append(decimal(id).as_str());
    path
}

/// Writes the path of a master release: `masters/` and the number in
/// decimal.
pub fn master_release_path(id: u64) -> (path: String)
    ensures
        path@ == master_release_path_text(id),
{
    let mut path = String::from_str("masters/");
    path.append(decimal(id).as_str());
    path
}

/// Turns what the decoder made of the body of a release into the result of
/// the call.
pub fn release_from<T>(id: u64, made: Result<T, DecodeFailure>) -> (release: Result<
    T,
    DiscogsError,
>)
    ensures
        release == decoded_release(id, made),
{
    match made {
        Ok(release) => Ok(release),
        Err(source) => Err(DiscogsError::ReleaseDeserialization { id, source }),
    }
}

/// Turns what the decoder made of the body of a master release into the
/// result of the call.
pub fn master_release_from<T>(id: u64, made: Result<T, DecodeFailure>) -> (release: Result<
    T,
    DiscogsError,
>)
    ensures
        release == decoded_master_release(id, made),
{
    match made {
        Ok(release) => Ok(release),
        Err(source) => Err(DiscogsError::MasterReleaseDeserialization { id, source }),
    }
}

/// The release that a decoder made of a body, or the failure to decode it.
pub open spec fn decoded_release<T>(id: u64, made: Result<T, DecodeFailure>) -> Result<T, DiscogsError> {
    match made {
        Ok(release) => Ok(release),
        Err(source) => Err(DiscogsError::ReleaseDeserialization { id, source }),
    }
}

/// The master release that a decoder made of a body, or the failure to decode
/// it.
pub open spec fn decoded_master_release<T>(id: u64, made: Result<T, DecodeFailure>) -> Result<
    T,
    DiscogsError,
> {
    match made {
        Ok(release) => Ok(release),
        Err(source) => Err(DiscogsError::MasterReleaseDeserialization { id, source }),
    }
}

/// Reads what came back for a release. A failure of the transport is
/// `GetRelease`; with status 200 the body goes through the decoder, once;
/// with 404 the result is `ReleaseNotFound`; any other status is
/// `UnknownGETResponse`.
pub fn read_release<T, D: FnOnce(&Vec<u8>) -> Result<T, DecodeFailure>>(
    id: u64,
    result: Result<&Response, &TransportFailure>,
    decoder: D,
) -> (release: Result<T, DiscogsError>)
    requires
        match result {
            Ok(response) => response.status == 200 ==> decoder.requires((&response.body,)),
            Err(_) => true,
        },
    ensures
        match result {
            Err(failure) => release == Err::<T, DiscogsError>(
                DiscogsError::GetRelease { id, source: *failure },
            ),
            Ok(response) => if response.status == 200 {
                exists|made: Result<T, DecodeFailure>|
                    decoder.ensures((&response.body,), made) && release == decoded_release(
                        id,
                        made,
                    )
            } else if response.status == 404 {
                release == Err::<T, DiscogsError>(DiscogsError::ReleaseNotFound { id })
            } else {
                release == Err::<T, DiscogsError>(DiscogsError::UnknownGETResponse(response.status))
            },
        },
{
    match result {
        Err(failure) => Err(DiscogsError::GetRelease { id, source: *failure }),
        Ok(response) => if response.status == 200 {
            let made = decoder(&response.body);
            release_from(id, made)
        } else if response.status == 404 {
            Err(DiscogsError::ReleaseNotFound { id })
        } else {
            Err(DiscogsError::UnknownGETResponse(response.status))
        },
    }
}

/// Reads what came back for a master release, as [`read_release`] does for a
/// release, with the failures of a master release.
pub fn read_master_release<T, D: FnOnce(&Vec<u8>) -> Result<T, DecodeFailure>>(
    id: u64,
    result: Result<&Response, &TransportFailure>,
    decoder: D,
) -> (release: Result<T, DiscogsError>)
    requires
        match result {
            Ok(response) => response.status == 200 ==> decoder.requires((&response.body,)),
            Err(_) => true,
        },
    ensures
        match result {
            Err(failure) => release == Err::<T, DiscogsError>(
                DiscogsError::GetMasterRelease { id, source: *failure },
            ),
            Ok(response) => if response.status == 200 {
                exists|made: Result<T, DecodeFailure>|
                    decoder.ensures((&response.body,), made) && release
                        == decoded_master_release(id, made)
            } else if response.status == 404 {
                release == Err::<T, DiscogsError>(DiscogsError::MasterReleaseNotFound { id })
            } else {
                release == Err::<T, DiscogsError>(DiscogsError::UnknownGETResponse(response.status))
            },
        },
{
    match result {
        Err(failure) => Err(DiscogsError::GetMasterRelease { id, source: *failure }),
        Ok(response) => if response.status == 200 {
            let made = decoder(&response.body);
            master_release_from(id, made)
        } else if response.status == 404 {
            Err(DiscogsError::MasterReleaseNotFound { id })
        } else {
            Err(DiscogsError::UnknownGETResponse(response.status))
        },
    }
}

} // verus!
