use rusoto_credential::error::{CredentialsError, ErrorKind};
use rusoto_credential::response::{
    decode_body, interpret_fetch, truncate_text, FetchOutcome, SNIPPET_LIMIT,
};

#[test]
fn body_of_a_success_is_handed_on() {
    let outcome = FetchOutcome::Response { status: 200, body: b"my-role\n".to_vec() };
    assert_eq!(interpret_fetch(outcome), Ok("my-role\n".to_string()));
}

#[test]
fn every_2xx_status_is_a_success() {
    for status in [200u16, 204, 299] {
        let outcome = FetchOutcome::Response { status, body: b"ok".to_vec() };
        assert_eq!(interpret_fetch(outcome), Ok("ok".to_string()));
    }
}

#[test]
fn status_outside_2xx_is_a_status_failure() {
    for status in [199u16, 300, 301, 404, 500] {
        let outcome = FetchOutcome::Response { status, body: b"denied".to_vec() };
        let error = interpret_fetch(outcome).unwrap_err();
        assert_eq!(error.kind, ErrorKind::HttpStatus(status));
        assert_eq!(error.message, "denied");
        assert!(error.causes.is_empty());
    }
}

#[test]
fn status_failure_quotes_the_start_of_a_long_body() {
    let body = "x".repeat(SNIPPET_LIMIT + 44);
    let outcome = FetchOutcome::Response { status: 503, body: body.into_bytes() };
    let error = interpret_fetch(outcome).unwrap_err();
    assert_eq!(error.kind, ErrorKind::HttpStatus(503));
    assert_eq!(error.message, "x".repeat(SNIPPET_LIMIT));
}

#[test]
fn status_failure_with_a_body_that_is_no_text_quotes_nothing() {
    let outcome = FetchOutcome::Response { status: 500, body: vec![0xff, 0xfe] };
    let error = interpret_fetch(outcome).unwrap_err();
    assert_eq!(error.kind, ErrorKind::HttpStatus(500));
    assert_eq!(error.message, "");
}

#[test]
fn success_with_a_body_that_is_no_text_is_a_parse_failure() {
    let outcome = FetchOutcome::Response { status: 200, body: vec![0xc3, 0x28] };
    assert_eq!(
        interpret_fetch(outcome),
        Err(CredentialsError::new(ErrorKind::Parse, "the response body is not UTF-8"))
    );
}

#[test]
fn timeout_has_its_own_kind() {
    assert_eq!(
        interpret_fetch(FetchOutcome::TimedOut),
        Err(CredentialsError::new(ErrorKind::Timeout, "the request timed out"))
    );
}

#[test]
fn connection_failure_is_a_network_failure() {
    let outcome = FetchOutcome::Failed { message: "connection refused".to_string() };
    assert_eq!(
        interpret_fetch(outcome),
        Err(CredentialsError::new(ErrorKind::Network, "connection refused"))
    );
}

#[test]
fn body_is_decoded_as_utf8() {
    assert_eq!(decode_body("grüß".as_bytes().to_vec()), Some("grüß".to_string()));
    assert_eq!(decode_body(Vec::new()), Some(String::new()));
    assert_eq!(decode_body(vec![0x80]), None);
}

#[test]
fn truncation_counts_characters() {
    assert_eq!(truncate_text("grüße", 3), "grü");
    assert_eq!(truncate_text("abc", 3), "abc");
    assert_eq!(truncate_text("abc", 0), "");
    assert_eq!(truncate_text("", 5), "");
    assert_eq!(truncate_text("abc", 10), "abc");
}

#[test]
fn clone_of_a_failure_is_equal() {
    let error = CredentialsError::new(ErrorKind::HttpStatus(404), "not found");
    assert_eq!(error.clone(), error);
    assert_eq!(error.message, "not found");
}
