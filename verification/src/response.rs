//! What the outcome of one GET means: a body to read on, or a typed failure.

use vstd::prelude::*;
use vstd::utf8::{decode_utf8, encode_utf8, valid_utf8};
use crate::error::{failure, CredentialsError, CredentialsErrorView, ErrorKind};

verus! {

/// The number of characters of a response body that a status failure quotes.
pub const SNIPPET_LIMIT: usize = 256;

/// How one GET ended, as reported by whoever sent it.
#[derive(Debug)]
pub enum FetchOutcome {
    /// A complete response arrived in time.
    Response { status: u16, body: Vec<u8> },
    /// The time limit of the request passed first.
    TimedOut,
    /// The connection could not be made or broke.
    Failed { message: String },
}

/// Mathematical value of a [`FetchOutcome`].
pub enum FetchOutcomeView {
    Response { status: u16, body: Seq<u8> },
    TimedOut,
    Failed { message: Seq<char> },
}

impl View for FetchOutcome {
    type V = FetchOutcomeView;

    open spec fn view(&self) -> FetchOutcomeView {
        match *self {
            FetchOutcome::Response { status, body } => FetchOutcomeView::Response {
                status,
                body: body@,
            },
            FetchOutcome::TimedOut => FetchOutcomeView::TimedOut,
            FetchOutcome::Failed { message } => FetchOutcomeView::Failed { message: message@ },
        }
    }
}

/// Whether `status` reports success.
pub open spec fn is_success(status: u16) -> bool {
    200 <= status <= 299
}

/// The first characters of `text`, at most `limit` of them.
pub open spec fn truncated(text: Seq<char>, limit: int) -> Seq<char> {
    if text.len() <= limit {
        text
    } else {
        text.take(limit)
    }
}

/// The part of the body of a failed response that the failure quotes: the
/// start of its text, or nothing if the body is not text.
pub open spec fn snippet_of(body: Seq<u8>) -> Seq<char> {
    if valid_utf8(body) {
        truncated(decode_utf8(body), SNIPPET_LIMIT as int)
    } else {
        Seq::empty()
    }
}

/// The text of a successful response, or the failure that the outcome stands
/// for.
pub open spec fn fetch_result(outcome: FetchOutcomeView) -> Result<
    Seq<char>,
    CredentialsErrorView,
> {
    match outcome {
        FetchOutcomeView::Response { status, body } => if is_success(status) {
            if valid_utf8(body) {
                Ok(decode_utf8(body))
            } else {
                Err(failure(ErrorKind::Parse, "the response body is not UTF-8"@))
            }
        } else {
            Err(failure(ErrorKind::HttpStatus(status), snippet_of(body)))
        },
        FetchOutcomeView::TimedOut => Err(failure(ErrorKind::Timeout, "the request timed out"@)),
        FetchOutcomeView::Failed { message } => Err(failure(ErrorKind::Network, message)),
    }
}

/// The value of a text or a failure.
pub open spec fn text_outcome_view(outcome: Result<String, CredentialsError>) -> Result<
    Seq<char>,
    CredentialsErrorView,
> {
    match outcome {
        Ok(text) => Ok(text@),
        Err(error) => Err(error@),
    }
}

/// Calls `String::from_utf8`: it succeeds exactly on valid UTF-8, and the
/// string it returns is encoded by the very bytes it was given.
#[verifier::external_body]
fn text_from_utf8(bytes: Vec<u8>) -> (r: Option<String>)
    ensures
        r is Some <==> valid_utf8(bytes@),
        r is Some ==> encode_utf8(r.unwrap()@) == bytes@,
{
    match String::from_utf8(bytes) {
        Ok(text) => Some(text),
        Err(_) => None,
    }
}

/// The text of `body`, if it is text.
pub fn decode_body(body: Vec<u8>) -> (r: Option<String>)
    ensures
        r is Some <==> valid_utf8(body@),
        r is Some ==> r.unwrap()@ == decode_utf8(body@),
{
    let r = text_from_utf8(body);
    proof {
        if r is Some {
            vstd::utf8::encode_utf8_decode_utf8(r.unwrap()@);
        }
    }
    r
}

/// The first `limit` characters of `text`, or all of it if it is shorter.
pub fn truncate_text(text: &str, limit: usize) -> (r: String)
    ensures
        r@ == truncated(text@, limit as int),
{
    let n = text.unicode_len();
    if n <= limit {
        text.to_owned()
    } else {
        let r = text.substring_char(0, limit).to_owned();
        assert(text@.subrange(0, limit as int) == text@.take(limit as int));
        r
    }
}

/// Reads the outcome of a GET: the text of the body of a response with a
/// 2xx status, and a typed failure in every other case.
pub fn interpret_fetch(outcome: FetchOutcome) -> (r: Result<String, CredentialsError>)
    ensures
        text_outcome_view(r) == fetch_result(outcome@),
{
    match outcome {
        FetchOutcome::Response { status, body } => {
            let text = decode_body(body);
            if 200 <= status && status <= 299 {
                match text {
                    Some(text) => Ok(text),
                    None => Err(
                        CredentialsError::new(ErrorKind::Parse, "the response body is not UTF-8"),
                    ),
                }
            } else {
                let snippet = match text {
                    Some(text) => truncate_text(text.as_str(), SNIPPET_LIMIT),
                    None => String::new(),
                };
                Err(CredentialsError::new(ErrorKind::HttpStatus(status), snippet.as_str()))
            }
        },
        FetchOutcome::TimedOut => Err(
            CredentialsError::new(ErrorKind::Timeout, "the request timed out"),
        ),
        FetchOutcome::Failed { message } => Err(
            CredentialsError::new(ErrorKind::Network, message.as_str()),
        ),
    }
}

} // verus!
