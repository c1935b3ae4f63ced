//! URLs as text: parsing and joining are left to the `url` crate.

use vstd::prelude::*;

verus! {

/// `url::ParseError`, carried through as it is.
#[verifier::external_type_specification]
#[verifier::external_body]
pub struct ExUrlParseError(url::ParseError);

/// The normal form that `url::Url::parse` gives a text, or `None` where it
/// rejects the text.
pub uninterp spec fn parsed_url(text: Seq<char>) -> Option<Seq<char>>;

/// The normal form of a reference resolved against a base by
/// `url::Url::join`, or `None` where the base or the reference is rejected.
pub uninterp spec fn joined_url(base: Seq<char>, reference: Seq<char>) -> Option<Seq<char>>;

/// Parses an absolute URL with `url::Url::parse` and hands back its
/// serialization. Trusted: the outcome is a function of the text alone.
#[verifier::external_body]
pub(crate) fn url_parse(text: &str) -> (parsed: Result<String, url::ParseError>)
    ensures
        parsed.is_ok() == parsed_url(text@).is_some(),
        parsed.is_ok() ==> parsed.unwrap()@ == parsed_url(text@).unwrap(),
{
    match url::Url::parse(text) {
        Ok(url) => Ok(String::from(url)),
        Err(error) => Err(error),
    }
}

/// Resolves a reference against a base with `url::Url::parse` and
/// `url::Url::join` and hands back the serialization. Trusted: the outcome is
/// a function of the two texts alone.
#[verifier::external_body]
pub(crate) fn url_join(base: &str, reference: &str) -> (joined: Result<String, url::ParseError>)
    ensures
        joined.is_ok() == joined_url(base@, reference@).is_some(),
        joined.is_ok() ==> joined.unwrap()@ == joined_url(base@, reference@).unwrap(),
{
    match url::Url::parse(base) {
        Ok(url) => match url.join(reference) {
            Ok(target) => Ok(String::from(target)),
            Err(error) => Err(error),
        },
        Err(error) => Err(error),
    }
}

} // verus!
