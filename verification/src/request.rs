//! The description of one HTTP GET, ready to be sent by whoever owns the
//! connection.

use vstd::prelude::*;
use std::time::Duration;
use hyper::Uri;
use hyper::http::uri::InvalidUri;
use crate::error::{CredentialsError, ErrorKind};

verus! {

/// `hyper::Uri`, a parsed address. Nothing inside it is read here; it is
/// handed on to whoever sends the request.
#[verifier::external_type_specification]
#[verifier::external_body]
pub struct ExUri(hyper::Uri);

/// `http::uri::InvalidUri`, the reason why a text is no address. Only its
/// message is used.
#[verifier::external_type_specification]
#[verifier::external_body]
pub struct ExInvalidUri(hyper::http::uri::InvalidUri);

/// Whether `hyper`'s URI parser accepts `text`.
pub uninterp spec fn uri_parses(text: Seq<char>) -> bool;

/// The length of `d` in nanoseconds.
pub uninterp spec fn duration_nanos(d: Duration) -> nat;

/// Calls `str::parse::<hyper::Uri>`. The parser looks at nothing but the
/// text, so whether it succeeds is a fixed property of the text; nothing is
/// claimed about which texts it accepts.
#[verifier::external_body]
fn parse_uri(text: &str) -> (r: Result<Uri, InvalidUri>)
    ensures
        r is Ok <==> uri_parses(text@),
{
    text.parse::<Uri>()
}

/// Calls `Duration::from_secs`: the result lasts exactly `secs` seconds.
#[verifier::external_body]
pub(crate) fn duration_from_secs(secs: u64) -> (d: Duration)
    ensures
        duration_nanos(d) == secs * 1_000_000_000,
{
    Duration::from_secs(secs)
}

/// One GET request: where it goes and how long it may take as a whole.
#[derive(Debug)]
pub struct HttpRequest {
    /// The address, as text.
    pub url: String,
    /// The same address, parsed.
    pub uri: Uri,
    /// The limit on the whole request, from connecting to the last byte of
    /// the response.
    pub timeout: Duration,
}

/// Turns the outcome of parsing `url` into a request or a configuration
/// failure.
pub fn request_from_parsed(url: String, parsed: Result<Uri, InvalidUri>, timeout: Duration) -> (r:
    Result<HttpRequest, CredentialsError>)
    ensures
        match parsed {
            Ok(uri) => r is Ok && r.unwrap().url@ == url@ && r.unwrap().uri == uri
                && r.unwrap().timeout == timeout,
            Err(_) => r is Err && r.unwrap_err()@.kind == ErrorKind::Configuration
                && r.unwrap_err()@.causes.len() == 0,
        },
{
    match parsed {
        Ok(uri) => Ok(HttpRequest { url, uri, timeout }),
        Err(e) => {
            let message = e.to_string();
            Err(CredentialsError::new(ErrorKind::Configuration, message.as_str()))
        },
    }
}

/// Builds the request for `url`, or fails if `url` is not a valid address.
pub fn request_to(url: String, timeout: Duration) -> (r: Result<HttpRequest, CredentialsError>)
    ensures
        r is Ok <==> uri_parses(url@),
        r is Ok ==> r.unwrap().url@ == url@ && r.unwrap().timeout == timeout,
        r is Err ==> r.unwrap_err()@.kind == ErrorKind::Configuration
            && r.unwrap_err()@.causes.len() == 0,
{
    let parsed = parse_uri(url.as_str());
    request_from_parsed(url, parsed, timeout)
}

} // verus!
