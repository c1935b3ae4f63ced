use catalog_lookup::decimal::decimal;
use catalog_lookup::discogs::{
    authorized_request, master_release_from, master_release_path, read_master_release,
    read_release, release_from, release_path, Discogs, DiscogsError,
};
use catalog_lookup::error::{DecodeFailure, TransportFailure};
use catalog_lookup::request::{Method, Response};

fn title(body: &Vec<u8>) -> Result<String, DecodeFailure> {
    let value: serde_json::Value = serde_json::from_slice(body)
        .map_err(|error| DecodeFailure { context: format!("column {}", error.column()) })?;
    match value.get("title").and_then(serde_json::Value::as_str) {
        Some(title) => Ok(String::from(title)),
        None => Err(DecodeFailure { context: String::from("title") }),
    }
}

fn never_called(_: &Vec<u8>) -> Result<String, DecodeFailure> {
    panic!("the decoder is called for status 200 only")
}

fn response(status: u16, body: &str) -> Response {
    Response { status, body: body.as_bytes().to_vec() }
}

#[test]
fn writes_numbers_in_decimal() {
    assert_eq!(decimal(0), "0");
    assert_eq!(decimal(7), "7");
    assert_eq!(decimal(10), "10");
    assert_eq!(decimal(38722), "38722");
    assert_eq!(decimal(11873130), "11873130");
    assert_eq!(decimal(1234567890), "1234567890");
    assert_eq!(decimal(u64::MAX), "18446744073709551615");
}

#[test]
fn new_client_points_at_the_api() {
    let client = Discogs::new(String::from("malt"), None).unwrap();
    assert_eq!(client.base_url, "https://api.discogs.com/");
    assert_eq!(client.user_agent(), "malt");
}

#[test]
fn request_without_token_has_no_headers() {
    let client = Discogs::new(String::from("malt"), None).unwrap();
    let request = client.create_request("releases/1").unwrap();
    assert_eq!(request.method, Method::Get);
    assert_eq!(request.url, "https://api.discogs.com/releases/1");
    assert!(request.headers.is_empty());
    assert!(request.body.is_none());
}

#[test]
fn request_with_token_is_authorized() {
    let client = Discogs::new(String::from("malt"), Some(String::from("abc123"))).unwrap();
    let request = client.release_request(11873130).unwrap();
    assert_eq!(request.url, "https://api.discogs.com/releases/11873130");
    assert_eq!(request.headers.len(), 1);
    assert_eq!(request.headers[0].name, "Authorization");
    assert_eq!(request.headers[0].value, "Discogs token=abc123");
    let request = client.master_release_request(38722).unwrap();
    assert_eq!(request.url, "https://api.discogs.com/masters/38722");
    assert_eq!(request.headers[0].value, "Discogs token=abc123");
}

#[test]
fn path_that_cannot_be_joined_is_refused() {
    let client = Discogs::new(String::from("malt"), None).unwrap();
    match client.create_request("https://[") {
        Err(DiscogsError::CreateRequestUrl(error)) => {
            assert_eq!(error, url::ParseError::InvalidIpv6Address)
        }
        other => panic!("{:?}", other),
    }
    let elsewhere = client.create_request("//example.org/x").unwrap();
    assert_eq!(elsewhere.url, "https://example.org/x");
}

#[test]
fn reads_a_release() {
    let answer = response(200, "{\"title\": \"A Night at the Opera\"}");
    let release = read_release(11873130, Ok(&answer), title).unwrap();
    assert_eq!(release, "A Night at the Opera");
    let answer = response(200, "{\"title\": \"Bohemian Rhapsody\"}");
    let master = read_master_release(38722, Ok(&answer), title).unwrap();
    assert_eq!(master, "Bohemian Rhapsody");
}

#[test]
fn release_failures() {
    match read_release(7, Err(&TransportFailure::Network), never_called) {
        Err(DiscogsError::GetRelease { id: 7, source: TransportFailure::Network }) => {}
        other => panic!("{:?}", other),
    }
    match read_release(7, Ok(&response(404, "")), never_called) {
        Err(DiscogsError::ReleaseNotFound { id: 7 }) => {}
        other => panic!("{:?}", other),
    }
    match read_release(7, Ok(&response(200, "{\"year\": 1975}")), title) {
        Err(DiscogsError::ReleaseDeserialization { id: 7, source }) => {
            assert_eq!(source.context, "title")
        }
        other => panic!("{:?}", other),
    }
    match read_release(7, Ok(&response(200, "{")), title) {
        Err(DiscogsError::ReleaseDeserialization { id: 7, source }) => {
            assert_eq!(source.context, "column 1")
        }
        other => panic!("{:?}", other),
    }
    for status in [201, 401, 429, 500] {
        match read_release(7, Ok(&response(status, "{}")), never_called) {
            Err(DiscogsError::UnknownGETResponse(code)) => assert_eq!(code, status),
            other => panic!("{:?}", other),
        }
    }
}

#[test]
fn master_release_failures() {
    match read_master_release(9, Err(&TransportFailure::Timeout), never_called) {
        Err(DiscogsError::GetMasterRelease { id: 9, source: TransportFailure::Timeout }) => {}
        other => panic!("{:?}", other),
    }
    match read_master_release(9, Ok(&response(404, "")), never_called) {
        Err(DiscogsError::MasterReleaseNotFound { id: 9 }) => {}
        other => panic!("{:?}", other),
    }
    match read_master_release(9, Ok(&response(200, "[]")), title) {
        Err(DiscogsError::MasterReleaseDeserialization { id: 9, source }) => {
            assert_eq!(source.context, "title")
        }
        other => panic!("{:?}", other),
    }
    match read_master_release(9, Ok(&response(503, "")), never_called) {
        Err(DiscogsError::UnknownGETResponse(503)) => {}
        other => panic!("{:?}", other),
    }
}

#[test]
fn paths_are_a_word_and_the_number() {
    assert_eq!(release_path(11873130), "releases/11873130");
    assert_eq!(release_path(0), "releases/0");
    assert_eq!(master_release_path(38722), "masters/38722");
    assert_eq!(master_release_path(u64::MAX), "masters/18446744073709551615");
}

#[test]
fn authorized_request_carries_the_token() {
    let plain = authorized_request(String::from("https://api.discogs.com/releases/1"), &None);
    assert_eq!(plain.method, Method::Get);
    assert_eq!(plain.url, "https://api.discogs.com/releases/1");
    assert!(plain.headers.is_empty());
    assert!(plain.body.is_none());
    let token = Some(String::from("s3cr3t"));
    let authorized = authorized_request(String::from("https://api.discogs.com/masters/2"), &token);
    assert_eq!(authorized.url, "https://api.discogs.com/masters/2");
    assert_eq!(authorized.headers.len(), 1);
    assert_eq!(authorized.headers[0].name, "Authorization");
    assert_eq!(authorized.headers[0].value, "Discogs token=s3cr3t");
}

#[test]
fn decoder_results_become_call_results() {
    assert_eq!(release_from::<u8>(3, Ok(9)).unwrap(), 9);
    assert_eq!(master_release_from::<u8>(3, Ok(8)).unwrap(), 8);
    let failure = || DecodeFailure { context: String::from("year") };
    match release_from::<u8>(3, Err(failure())) {
        Err(DiscogsError::ReleaseDeserialization { id: 3, source }) => {
            assert_eq!(source.context, "year")
        }
        other => panic!("{:?}", other),
    }
    match master_release_from::<u8>(4, Err(failure())) {
        Err(DiscogsError::MasterReleaseDeserialization { id: 4, source }) => {
            assert_eq!(source.context, "year")
        }
        other => panic!("{:?}", other),
    }
}
