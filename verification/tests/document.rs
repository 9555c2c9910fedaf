use rusoto_credential::credentials::AwsCredentials;
use rusoto_credential::document::{
    credentials_from_fields, parse_credentials_from_aws_service, CredentialFields,
};
use rusoto_credential::error::ErrorKind;

fn fields(
    key: Option<&str>,
    secret: Option<&str>,
    token: Option<&str>,
    expiration: Option<&str>,
) -> CredentialFields {
    CredentialFields {
        access_key_id: key.map(|s| s.to_string()),
        secret_access_key: secret.map(|s| s.to_string()),
        token: token.map(|s| s.to_string()),
        expiration: expiration.map(|s| s.to_string()),
    }
}

#[test]
fn document_of_the_metadata_service_is_read() {
    let body = "{\n  \"Code\" : \"Success\",\n  \"LastUpdated\" : \"2016-11-18T01:50:39Z\",\n  \
                \"Type\" : \"AWS-HMAC\",\n  \"AccessKeyId\" : \"SECRET-REDACTED\",\n  \
                \"SecretAccessKey\" : \"wJalrXUtnFEMI/K7MDENG/bPxRfiCYEXAMPLEKEY\",\n  \
                \"Token\" : \"AQoDYXdzEJr\",\n  \"Expiration\" : \"2016-11-18T07:50:39Z\"\n}";
    let credentials = parse_credentials_from_aws_service(body).unwrap();
    assert_eq!(credentials.aws_access_key_id(), "SECRET-REDACTED");
    assert_eq!(credentials.aws_secret_access_key(), "wJalrXUtnFEMI/K7MDENG/bPxRfiCYEXAMPLEKEY");
    assert_eq!(credentials.token(), &Some("AQoDYXdzEJr".to_string()));
    assert_eq!(credentials.expires_at(), Some(1479455439));
}

#[test]
fn document_without_token_and_expiration_is_read() {
    let body = "{\"AccessKeyId\":\"key\",\"SecretAccessKey\":\"secret\"}";
    let credentials = parse_credentials_from_aws_service(body).unwrap();
    assert_eq!(
        credentials,
        AwsCredentials::new("key".to_string(), "secret".to_string(), None, None)
    );
}

#[test]
fn malformed_document_is_a_parse_failure() {
    let error = parse_credentials_from_aws_service("{\"AccessKeyId\":").unwrap_err();
    assert_eq!(error.kind, ErrorKind::Parse);
    assert!(error.causes.is_empty());
    let error = parse_credentials_from_aws_service("").unwrap_err();
    assert_eq!(error.kind, ErrorKind::Parse);
}

#[test]
fn document_that_is_no_object_has_no_access_key() {
    let error = parse_credentials_from_aws_service("[1, 2, 3]").unwrap_err();
    assert_eq!(error.kind, ErrorKind::Parse);
    assert_eq!(error.message, "the document has no AccessKeyId");
}

#[test]
fn document_without_access_key_is_a_parse_failure() {
    let error =
        parse_credentials_from_aws_service("{\"SecretAccessKey\":\"secret\"}").unwrap_err();
    assert_eq!(error.kind, ErrorKind::Parse);
    assert_eq!(error.message, "the document has no AccessKeyId");
}

#[test]
fn document_without_secret_is_a_parse_failure() {
    let error = parse_credentials_from_aws_service("{\"AccessKeyId\":\"key\"}").unwrap_err();
    assert_eq!(error.kind, ErrorKind::Parse);
    assert_eq!(error.message, "the document has no SecretAccessKey");
}

#[test]
fn member_that_is_no_string_counts_as_missing() {
    let body = "{\"AccessKeyId\":17,\"SecretAccessKey\":\"secret\"}";
    let error = parse_credentials_from_aws_service(body).unwrap_err();
    assert_eq!(error.message, "the document has no AccessKeyId");
    let body = "{\"AccessKeyId\":\"key\",\"SecretAccessKey\":\"secret\",\"Token\":null}";
    let credentials = parse_credentials_from_aws_service(body).unwrap();
    assert_eq!(credentials.token(), &None);
}

#[test]
fn document_with_bad_expiration_is_a_parse_failure() {
    let body = "{\"AccessKeyId\":\"key\",\"SecretAccessKey\":\"secret\",\"Expiration\":\"soon\"}";
    let error = parse_credentials_from_aws_service(body).unwrap_err();
    assert_eq!(error.kind, ErrorKind::Parse);
    assert_eq!(error.message, "the Expiration of the document is not a valid instant");
}

#[test]
fn member_names_are_case_sensitive() {
    let body = "{\"accesskeyid\":\"key\",\"SecretAccessKey\":\"secret\"}";
    assert!(parse_credentials_from_aws_service(body).is_err());
}

#[test]
fn fields_with_all_members_give_credentials() {
    let credentials = credentials_from_fields(fields(
        Some("key"),
        Some("secret"),
        Some("token"),
        Some("1970-01-01T00:01:00Z"),
    ))
    .unwrap();
    assert_eq!(
        credentials,
        AwsCredentials::new(
            "key".to_string(),
            "secret".to_string(),
            Some("token".to_string()),
            Some(60)
        )
    );
}

#[test]
fn missing_access_key_is_reported_before_missing_secret() {
    let error = credentials_from_fields(fields(None, None, None, None)).unwrap_err();
    assert_eq!(error.message, "the document has no AccessKeyId");
}

#[test]
fn empty_strings_are_present_members() {
    let credentials = credentials_from_fields(fields(Some(""), Some(""), None, None)).unwrap();
    assert_eq!(credentials.aws_access_key_id(), "");
    assert_eq!(credentials.aws_secret_access_key(), "");
}

#[test]
fn credentials_expire_at_their_expiration() {
    let credentials =
        AwsCredentials::new("key".to_string(), "secret".to_string(), None, Some(100));
    assert!(!credentials.credentials_are_expired(99));
    assert!(credentials.credentials_are_expired(100));
    assert!(credentials.credentials_are_expired(101));
    let lasting = AwsCredentials::new("key".to_string(), "secret".to_string(), None, None);
    assert!(!lasting.credentials_are_expired(i64::MAX));
}

#[test]
fn clone_of_credentials_is_equal() {
    let credentials = AwsCredentials::new(
        "key".to_string(),
        "secret".to_string(),
        Some("token".to_string()),
        Some(5),
    );
    assert_eq!(credentials.clone(), credentials);
}
