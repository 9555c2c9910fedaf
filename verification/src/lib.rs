//! Credential provisioning: discovering, fetching, caching and refreshing
//! short-lived access credentials.
//!
//! The library holds the decisions and leaves the waiting to its caller. A
//! fetch from the instance metadata service, a cache in front of a source and
//! a walk along a chain of sources are each a small machine: the caller hands
//! in what has happened (a response has arrived, a fetch has ended) and is
//! told what to do next (send this request, ask that source, use these
//! credentials).
//!
//! - [`instance_metadata`]: the two-step fetch of the credentials of the IAM
//!   role of an instance.
//! - [`cache`]: when a cached value is served, when it is refreshed, and what
//!   a failed refresh means.
//! - [`chain`]: the ordered fallback over several sources.
//! - [`response`], [`request`]: what goes to and comes from the HTTP client.
//! - [`document`], [`timestamp`]: reading the credentials document.
//! - [`credentials`], [`error`]: the values that all of these exchange.

pub mod cache;
pub mod chain;
pub mod credentials;
pub mod document;
pub mod error;
pub mod instance_metadata;
pub mod request;
pub mod response;
pub mod text;
pub mod timestamp;
