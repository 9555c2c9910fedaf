//! The credential value that every source produces.

use vstd::prelude::*;
use crate::error::{CredentialsError, CredentialsErrorView};

verus! {

/// The value of the outcome of a fetch.
pub open spec fn outcome_view(outcome: Result<AwsCredentials, CredentialsError>) -> Result<
    AwsCredentialsView,
    CredentialsErrorView,
> {
    match outcome {
        Ok(credentials) => Ok(credentials@),
        Err(error) => Err(error@),
    }
}

/// The characters of an optional string.
pub open spec fn option_text(text: Option<String>) -> Option<Seq<char>> {
    match text {
        Some(t) => Some(t@),
        None => None,
    }
}

/// Mathematical value of an [`AwsCredentials`]. Times are seconds since the
/// Unix epoch.
pub struct AwsCredentialsView {
    pub key: Seq<char>,
    pub secret: Seq<char>,
    pub token: Option<Seq<char>>,
    pub expires_at: Option<int>,
}

/// An access key with its secret, an optional session token and an optional
/// expiration. A value is built whole and never changed afterwards.
#[derive(Debug, PartialEq, Eq)]
pub struct AwsCredentials {
    key: String,
    secret: String,
    token: Option<String>,
    expires_at: Option<i64>,
}

impl View for AwsCredentials {
    type V = AwsCredentialsView;

    closed spec fn view(&self) -> AwsCredentialsView {
        AwsCredentialsView {
            key: self.key@,
            secret: self.secret@,
            token: option_text(self.token),
            expires_at: match self.expires_at {
                Some(t) => Some(t as int),
                None => None,
            },
        }
    }
}

impl Clone for AwsCredentials {
    fn clone(&self) -> (r: Self)
        ensures
            r@ == self@,
    {
        let token = match &self.token {
            Some(t) => Some(t.clone()),
            None => None,
        };
        AwsCredentials {
            key: self.key.clone(),
            secret: self.secret.clone(),
            token,
            expires_at: self.expires_at,
        }
    }
}

impl AwsCredentials {
    /// Builds credentials from their four parts.
    pub fn new(key: String, secret: String, token: Option<String>, expires_at: Option<i64>) -> (r:
        Self)
        ensures
            r@.key == key@,
            r@.secret == secret@,
            r@.token == option_text(token),
            r@.expires_at == match expires_at {
                Some(t) => Some(t as int),
                None => None::<int>,
            },
    {
        AwsCredentials { key, secret, token, expires_at }
    }

    /// The access key id.
    pub fn aws_access_key_id(&self) -> (r: &str)
        ensures
            r@ == self@.key,
    {
        self.key.as_str()
    }

    /// The secret access key.
    pub fn aws_secret_access_key(&self) -> (r: &str)
        ensures
            r@ == self@.secret,
    {
        self.secret.as_str()
    }

    /// The session token, if the credentials are temporary.
    pub fn token(&self) -> (r: &Option<String>)
        ensures
            option_text(*r) == self@.token,
    {
        &self.token
    }

    /// The instant at which the credentials stop being valid, if any.
    pub fn expires_at(&self) -> (r: Option<i64>)
        ensures
            r is Some <==> self@.expires_at is Some,
            r is Some ==> r.unwrap() == self@.expires_at.unwrap(),
    {
        self.expires_at
    }

    /// Whether the expiration has been reached at `now`. Credentials without
    /// an expiration never expire.
    pub fn credentials_are_expired(&self, now: i64) -> (r: bool)
        ensures
            r == (self@.expires_at is Some && self@.expires_at.unwrap() <= now),
    {
        match self.expires_at {
            Some(t) => t <= now,
            None => false,
        }
    }
}

} // verus!
