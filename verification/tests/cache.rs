use rusoto_credential::cache::{CacheDecision, CachingRefreshProvider};
use rusoto_credential::credentials::AwsCredentials;
use rusoto_credential::error::{CredentialsError, ErrorKind};

const T: i64 = 1_500_000_000;

fn credentials(key: &str, expires_at: Option<i64>) -> AwsCredentials {
    AwsCredentials::new(key.to_string(), "secret".to_string(), None, expires_at)
}

fn refresh_failure() -> CredentialsError {
    CredentialsError::new(ErrorKind::Timeout, "the request timed out")
}

/// A cache that holds credentials that expire at `T + 60`, with a buffer of
/// ten seconds.
fn filled() -> CachingRefreshProvider {
    let mut cache = CachingRefreshProvider::with_refresh_buffer(10);
    assert!(matches!(cache.credentials(T), CacheDecision::Fetch));
    let delivery = cache.complete(Ok(credentials("first", Some(T + 60))), T);
    assert_eq!(delivery.outcome, Ok(credentials("first", Some(T + 60))));
    assert_eq!(delivery.diagnostic, None);
    cache
}

fn served(decision: CacheDecision) -> AwsCredentials {
    match decision {
        CacheDecision::Serve(credentials) => credentials,
        other => panic!("expected cached credentials, got {:?}", other),
    }
}

#[test]
fn new_cache_is_empty_with_the_default_buffer() {
    let cache = CachingRefreshProvider::new();
    assert!(cache.cached().is_none());
    assert_eq!(cache.refresh_buffer(), 300);
    assert!(!cache.is_refreshing());
}

#[test]
fn empty_cache_asks_for_a_fetch() {
    let mut cache = CachingRefreshProvider::new();
    assert!(matches!(cache.credentials(T), CacheDecision::Fetch));
    assert!(cache.is_refreshing());
}

#[test]
fn entry_is_served_from_the_cache_long_before_it_expires() {
    let mut cache = filled();
    assert_eq!(served(cache.credentials(T + 10)), credentials("first", Some(T + 60)));
    assert!(!cache.is_refreshing());
}

#[test]
fn entry_is_refreshed_within_the_buffer() {
    let mut cache = filled();
    assert!(matches!(cache.credentials(T + 55), CacheDecision::Fetch));
    assert!(cache.is_refreshing());
}

#[test]
fn refresh_is_due_from_the_start_of_the_buffer() {
    let mut cache = filled();
    assert!(matches!(cache.credentials(T + 49), CacheDecision::Serve(_)));
    assert!(matches!(cache.credentials(T + 50), CacheDecision::Fetch));
}

#[test]
fn entry_without_expiration_is_always_served() {
    let mut cache = CachingRefreshProvider::with_refresh_buffer(10);
    assert!(matches!(cache.credentials(T), CacheDecision::Fetch));
    cache.complete(Ok(credentials("static", None)), T);
    assert_eq!(served(cache.credentials(i64::MAX)), credentials("static", None));
    assert_eq!(served(cache.credentials(i64::MIN)), credentials("static", None));
}

#[test]
fn buffer_larger_than_the_clock_does_not_overflow() {
    let mut cache = CachingRefreshProvider::with_refresh_buffer(u64::MAX);
    assert!(matches!(cache.credentials(i64::MIN), CacheDecision::Fetch));
    cache.complete(Ok(credentials("first", Some(i64::MAX))), i64::MIN);
    assert!(matches!(cache.credentials(i64::MIN), CacheDecision::Fetch));
}

#[test]
fn concurrent_callers_share_one_fetch() {
    let mut cache = CachingRefreshProvider::new();
    let mut fetches = 0;
    let mut waits = 0;
    for caller in 0..16 {
        match cache.credentials(T + caller) {
            CacheDecision::Fetch => fetches += 1,
            CacheDecision::Wait => waits += 1,
            CacheDecision::Serve(_) => panic!("the cache is empty"),
        }
    }
    assert_eq!(fetches, 1);
    assert_eq!(waits, 15);
    let delivery = cache.complete(Ok(credentials("shared", Some(T + 3600))), T + 20);
    assert_eq!(delivery.outcome, Ok(credentials("shared", Some(T + 3600))));
    assert!(!cache.is_refreshing());
    assert_eq!(served(cache.credentials(T + 21)), credentials("shared", Some(T + 3600)));
}

#[test]
fn callers_during_a_refresh_wait_for_it() {
    let mut cache = filled();
    assert!(matches!(cache.credentials(T + 55), CacheDecision::Fetch));
    assert!(matches!(cache.credentials(T + 56), CacheDecision::Wait));
    assert!(matches!(cache.credentials(T + 70), CacheDecision::Wait));
}

#[test]
fn successful_refresh_replaces_the_entry() {
    let mut cache = filled();
    assert!(matches!(cache.credentials(T + 55), CacheDecision::Fetch));
    let delivery = cache.complete(Ok(credentials("second", Some(T + 600))), T + 56);
    assert_eq!(delivery.outcome, Ok(credentials("second", Some(T + 600))));
    assert_eq!(delivery.diagnostic, None);
    let entry = cache.cached().as_ref().unwrap();
    assert_eq!(entry.credentials(), &credentials("second", Some(T + 600)));
    assert_eq!(entry.fetched_at(), T + 56);
    assert_eq!(entry.expires_at(), Some(T + 600));
    assert_eq!(served(cache.credentials(T + 57)), credentials("second", Some(T + 600)));
}

#[test]
fn failed_refresh_serves_the_entry_while_it_is_valid() {
    let mut cache = filled();
    assert!(matches!(cache.credentials(T + 55), CacheDecision::Fetch));
    let delivery = cache.complete(Err(refresh_failure()), T + 59);
    assert_eq!(delivery.outcome, Ok(credentials("first", Some(T + 60))));
    assert_eq!(delivery.diagnostic, Some(refresh_failure()));
    assert!(!cache.is_refreshing());
    assert_eq!(cache.cached().as_ref().unwrap().credentials(), &credentials("first", Some(T + 60)));
    assert!(matches!(cache.credentials(T + 59), CacheDecision::Fetch));
}

#[test]
fn failed_refresh_of_an_expired_entry_is_a_failure() {
    let mut cache = filled();
    assert!(matches!(cache.credentials(T + 55), CacheDecision::Fetch));
    let delivery = cache.complete(Err(refresh_failure()), T + 60);
    assert_eq!(delivery.outcome, Err(refresh_failure()));
    assert_eq!(delivery.diagnostic, None);
}

#[test]
fn failed_fetch_into_an_empty_cache_is_a_failure() {
    let mut cache = CachingRefreshProvider::new();
    assert!(matches!(cache.credentials(T), CacheDecision::Fetch));
    let delivery = cache.complete(Err(refresh_failure()), T + 1);
    assert_eq!(delivery.outcome, Err(refresh_failure()));
    assert!(cache.cached().is_none());
    assert!(matches!(cache.credentials(T + 2), CacheDecision::Fetch));
}

#[test]
fn abandoned_fetch_leaves_the_cache_as_it_was() {
    let mut cache = filled();
    assert!(matches!(cache.credentials(T + 55), CacheDecision::Fetch));
    cache.abandon();
    assert!(!cache.is_refreshing());
    let entry = cache.cached().as_ref().unwrap();
    assert_eq!(entry.credentials(), &credentials("first", Some(T + 60)));
    assert_eq!(entry.fetched_at(), T);
    assert!(matches!(cache.credentials(T + 56), CacheDecision::Fetch));
}

#[test]
fn fresh_and_valid_entries_are_told_apart() {
    let cache = filled();
    assert!(cache.fresh_entry(T + 49).is_some());
    assert!(cache.fresh_entry(T + 50).is_none());
    assert!(cache.valid_entry(T + 59).is_some());
    assert!(cache.valid_entry(T + 60).is_none());
    let empty = CachingRefreshProvider::new();
    assert!(empty.fresh_entry(T).is_none());
    assert!(empty.valid_entry(T).is_none());
}
