//! The JSON document in which the metadata service hands out credentials.

use vstd::prelude::*;
use serde_json::Value;
use crate::credentials::{option_text, outcome_view, AwsCredentials, AwsCredentialsView};
use crate::error::{failure, CredentialsError, CredentialsErrorView, ErrorKind};
use crate::timestamp::{parse_timestamp, timestamp_of};

verus! {

/// `serde_json::Value`, a decoded JSON value. It is read only through
/// [`string_members`].
#[verifier::external_type_specification]
#[verifier::external_body]
pub struct ExJsonValue(serde_json::Value);

/// `serde_json::Error`, the reason why a text is not JSON. Only its message
/// is used.
#[verifier::external_type_specification]
#[verifier::external_body]
pub struct ExJsonError(serde_json::Error);

/// The members of the JSON object `doc` whose values are strings, by name.
/// The map is empty if `doc` is not an object.
pub uninterp spec fn string_members(doc: Value) -> Map<Seq<char>, Seq<char>>;

/// The string members of the JSON value that `text` writes, or `None` if
/// `text` is not JSON.
pub uninterp spec fn decoded_members(text: Seq<char>) -> Option<Map<Seq<char>, Seq<char>>>;

/// Calls `serde_json::from_str::<Value>`. The decoder looks at nothing but
/// the text, so its outcome is a fixed property of the text; nothing is
/// claimed about which texts are JSON.
#[verifier::external_body]
fn decode_json(text: &str) -> (r: Result<Value, serde_json::Error>)
    ensures
        match r {
            Ok(doc) => decoded_members(text@) == Some(string_members(doc)),
            Err(_) => decoded_members(text@) is None,
        },
{
    serde_json::from_str::<Value>(text)
}

/// Calls `Value::get` with a name: the member of that name if `doc` is an
/// object that has one, and here only if that member is a string.
#[verifier::external_body]
fn string_member(doc: &Value, name: &str) -> (r: Option<String>)
    ensures
        option_text(r) == member(string_members(*doc), name@),
{
    match doc.get(name) {
        Some(Value::String(text)) => Some(text.clone()),
        _ => None,
    }
}

/// The member `name` of `members`, if there is one.
pub open spec fn member(members: Map<Seq<char>, Seq<char>>, name: Seq<char>) -> Option<
    Seq<char>,
> {
    if members.contains_key(name) {
        Some(members[name])
    } else {
        None
    }
}

/// The four members of a credentials document, each as found.
#[derive(Debug)]
pub struct CredentialFields {
    pub access_key_id: Option<String>,
    pub secret_access_key: Option<String>,
    pub token: Option<String>,
    pub expiration: Option<String>,
}

/// Mathematical value of a [`CredentialFields`].
pub struct CredentialFieldsView {
    pub access_key_id: Option<Seq<char>>,
    pub secret_access_key: Option<Seq<char>>,
    pub token: Option<Seq<char>>,
    pub expiration: Option<Seq<char>>,
}

impl View for CredentialFields {
    type V = CredentialFieldsView;

    open spec fn view(&self) -> CredentialFieldsView {
        CredentialFieldsView {
            access_key_id: option_text(self.access_key_id),
            secret_access_key: option_text(self.secret_access_key),
            token: option_text(self.token),
            expiration: option_text(self.expiration),
        }
    }
}

/// The fields that a document with the given string members holds.
pub open spec fn fields_of(members: Map<Seq<char>, Seq<char>>) -> CredentialFieldsView {
    CredentialFieldsView {
        access_key_id: member(members, "AccessKeyId"@),
        secret_access_key: member(members, "SecretAccessKey"@),
        token: member(members, "Token"@),
        expiration: member(members, "Expiration"@),
    }
}

/// The credentials that the fields stand for. The access key and the secret
/// are required; the token and the expiration are not, but an expiration
/// that is present must be a valid instant.
pub open spec fn credentials_of(fields: CredentialFieldsView) -> Result<
    AwsCredentialsView,
    CredentialsErrorView,
> {
    if fields.access_key_id is None {
        Err(failure(ErrorKind::Parse, "the document has no AccessKeyId"@))
    } else if fields.secret_access_key is None {
        Err(failure(ErrorKind::Parse, "the document has no SecretAccessKey"@))
    } else if fields.expiration is Some && timestamp_of(fields.expiration.unwrap()) is None {
        Err(failure(ErrorKind::Parse, "the Expiration of the document is not a valid instant"@))
    } else {
        Ok(
            AwsCredentialsView {
                key: fields.access_key_id.unwrap(),
                secret: fields.secret_access_key.unwrap(),
                token: fields.token,
                expires_at: match fields.expiration {
                    Some(text) => timestamp_of(text),
                    None => None,
                },
            },
        )
    }
}

/// Builds credentials from the fields of a document.
pub fn credentials_from_fields(fields: CredentialFields) -> (r: Result<
    AwsCredentials,
    CredentialsError,
>)
    ensures
        outcome_view(r) == credentials_of(fields@),
{
    let key = match fields.access_key_id {
        Some(key) => key,
        None => {
            return Err(CredentialsError::new(ErrorKind::Parse, "the document has no AccessKeyId"));
        },
    };
    let secret = match fields.secret_access_key {
        Some(secret) => secret,
        None => {
            return Err(
                CredentialsError::new(ErrorKind::Parse, "the document has no SecretAccessKey"),
            );
        },
    };
    let expires_at = match fields.expiration {
        Some(text) => match parse_timestamp(text.as_str()) {
            Some(instant) => Some(instant),
            None => {
                return Err(
                    CredentialsError::new(
                        ErrorKind::Parse,
                        "the Expiration of the document is not a valid instant",
                    ),
                );
            },
        },
        None => None,
    };
    Ok(AwsCredentials::new(key, secret, fields.token, expires_at))
}

/// Reads the four members out of a decoded document.
pub fn fields_from_document(doc: &Value) -> (r: CredentialFields)
    ensures
        r@ == fields_of(string_members(*doc)),
{
    CredentialFields {
        access_key_id: string_member(doc, "AccessKeyId"),
        secret_access_key: string_member(doc, "SecretAccessKey"),
        token: string_member(doc, "Token"),
        expiration: string_member(doc, "Expiration"),
    }
}

/// Turns the outcome of decoding a response into credentials.
pub fn credentials_from_decoded(decoded: Result<Value, serde_json::Error>) -> (r: Result<
    AwsCredentials,
    CredentialsError,
>)
    ensures
        match decoded {
            Ok(doc) => outcome_view(r) == credentials_of(fields_of(string_members(doc))),
            Err(_) => r is Err && r.unwrap_err()@.kind == ErrorKind::Parse
                && r.unwrap_err()@.causes.len() == 0,
        },
{
    match decoded {
        Ok(doc) => credentials_from_fields(fields_from_document(&doc)),
        Err(e) => {
            let message = e.to_string();
            Err(CredentialsError::new(ErrorKind::Parse, message.as_str()))
        },
    }
}

/// Reads credentials out of the body of the second response of the metadata
/// service.
pub fn parse_credentials_from_aws_service(response: &str) -> (r: Result<
    AwsCredentials,
    CredentialsError,
>)
    ensures
        match decoded_members(response@) {
            Some(members) => outcome_view(r) == credentials_of(fields_of(members)),
            None => r is Err && r.unwrap_err()@.kind == ErrorKind::Parse
                && r.unwrap_err()@.causes.len() == 0,
        },
{
    credentials_from_decoded(decode_json(response))
}

} // verus!
