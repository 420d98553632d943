//! The address of the service: parsing the endpoint and resolving the path
//! of an operation against it.

use vstd::prelude::*;

verus! {

/// The path segment of the API version, which every operation's path is
/// resolved against.
pub const API_PREFIX: &'static str = "api/v2/";

/// The error of the URL parser, carried through unread.
#[verifier::external_type_specification]
#[verifier::external_body]
pub struct ExParseError(url::ParseError);

/// An endpoint that is no URL, with what the parser said of it.
#[derive(Debug)]
pub struct InvalidEndpoint {
    pub cause: url::ParseError,
}

/// The serialization of the URL that `url::Url::parse` reads from a text,
/// or nothing where it reads none.
pub uninterp spec fn url_parsed(text: Seq<char>) -> Option<Seq<char>>;

/// The serialization of the URL that `url::Url::join` resolves `reference`
/// to against the URL written `base`, or nothing where `base` is no URL or
/// the reference cannot be resolved against it.
pub uninterp spec fn url_joined(base: Seq<char>, reference: Seq<char>) -> Option<Seq<char>>;

/// The URL of an operation: the endpoint joined with the API prefix and
/// then with the operation's path.
pub open spec fn api_url(endpoint: Seq<char>, path: Seq<char>) -> Option<Seq<char>> {
    match url_joined(endpoint, API_PREFIX@) {
        Some(base) => url_joined(base, path),
        None => None,
    }
}

/// `url::Url::parse`, from text to text: the result is the serialization
/// of the parsed URL, and it is the same for the same text. Where the text
/// is no URL, the parser's error is handed on as it is.
#[verifier::external_body]
pub(crate) fn parse_url(text: &str) -> (parsed: Result<String, url::ParseError>)
    ensures
        parsed is Ok <==> url_parsed(text@) is Some,
        parsed matches Ok(u) ==> url_parsed(text@) == Some(u@),
{
    match url::Url::parse(text) {
        Ok(u) => Ok(String::from(u)),
        Err(e) => Err(e),
    }
}

/// `url::Url::join`, from text to text: `base` is read as a URL, the
/// reference is resolved against it, and the result is the serialization
/// of the URL that comes out. It is the same for the same two texts.
#[verifier::external_body]
pub(crate) fn join_url(base: &str, reference: &str) -> (joined: Option<String>)
    ensures
        joined is Some <==> url_joined(base@, reference@) is Some,
        joined matches Some(u) ==> url_joined(base@, reference@) == Some(u@),
{
    match url::Url::parse(base) {
        Ok(b) => match b.join(reference) {
            Ok(u) => Some(String::from(u)),
            Err(_) => None,
        },
        Err(_) => None,
    }
}

/// Builds the URL of an operation from the endpoint and the operation's
/// path.
pub fn resolve(endpoint: &str, path: &str) -> (target: Option<String>)
    ensures
        target is Some <==> api_url(endpoint@, path@) is Some,
        target matches Some(u) ==> api_url(endpoint@, path@) == Some(u@),
{
    match join_url(endpoint, API_PREFIX) {
        Some(base) => join_url(base.as_str(), path),
        None => None,
    }
}

} // verus!
