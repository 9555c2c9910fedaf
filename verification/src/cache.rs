//! A cache in front of one source of credentials, with the rules for when a
//! cached value is served, when it is refreshed, and what a failed refresh
//! means.
//!
//! The cache decides; its owner fetches. Instants are seconds since the Unix
//! epoch, all read from one clock.

use vstd::prelude::*;
use crate::credentials::{outcome_view, AwsCredentials, AwsCredentialsView};
use crate::error::{CredentialsError, CredentialsErrorView};

verus! {

/// The number of seconds before the expiration at which a cached value is no
/// longer served without a refresh, unless set otherwise.
pub const DEFAULT_REFRESH_BUFFER_SECS: u64 = 300;

/// Credentials together with the instant at which they were fetched. The
/// entry expires when its credentials do.
#[derive(Debug)]
pub struct CacheEntry {
    credentials: AwsCredentials,
    fetched_at: i64,
}

/// Mathematical value of a [`CacheEntry`].
pub struct CacheEntryView {
    pub credentials: AwsCredentialsView,
    pub fetched_at: int,
}

impl View for CacheEntry {
    type V = CacheEntryView;

    closed spec fn view(&self) -> CacheEntryView {
        CacheEntryView { credentials: self.credentials@, fetched_at: self.fetched_at as int }
    }
}

impl CacheEntry {
    /// The cached credentials.
    pub fn credentials(&self) -> (r: &AwsCredentials)
        ensures
            r@ == self@.credentials,
    {
        &self.credentials
    }

    /// The instant at which the entry expires, if it ever does.
    pub fn expires_at(&self) -> (r: Option<i64>)
        ensures
            r is Some <==> self@.credentials.expires_at is Some,
            r is Some ==> r.unwrap() == self@.credentials.expires_at.unwrap(),
    {
        self.credentials.expires_at()
    }

    /// The instant at which the credentials were fetched.
    pub fn fetched_at(&self) -> (r: i64)
        ensures
            r == self@.fetched_at,
    {
        self.fetched_at
    }
}

/// Whether the entry may be served at `now` without a refresh: it has no
/// expiration, or `now` is earlier than the expiration less the buffer.
pub open spec fn is_fresh(entry: CacheEntryView, buffer: nat, now: int) -> bool {
    match entry.credentials.expires_at {
        Some(expiration) => now < expiration - buffer,
        None => true,
    }
}

/// Whether the entry is still valid at `now`, the buffer left aside.
pub open spec fn is_valid(entry: CacheEntryView, now: int) -> bool {
    match entry.credentials.expires_at {
        Some(expiration) => now < expiration,
        None => true,
    }
}

/// Mathematical value of a [`CachingRefreshProvider`].
pub struct CacheView {
    pub entry: Option<CacheEntryView>,
    pub refresh_buffer: nat,
    pub in_flight: bool,
}

/// What a caller who asked for credentials is to do.
#[derive(Debug)]
pub enum CacheDecision {
    /// Use these credentials; nothing needs to be fetched.
    Serve(AwsCredentials),
    /// Fetch from the source and report the outcome with `complete`.
    Fetch,
    /// A fetch is under way: wait for its outcome and share it.
    Wait,
}

/// Mathematical value of a [`CacheDecision`].
pub enum CacheDecisionView {
    Serve(AwsCredentialsView),
    Fetch,
    Wait,
}

impl View for CacheDecision {
    type V = CacheDecisionView;

    open spec fn view(&self) -> CacheDecisionView {
        match *self {
            CacheDecision::Serve(credentials) => CacheDecisionView::Serve(credentials@),
            CacheDecision::Fetch => CacheDecisionView::Fetch,
            CacheDecision::Wait => CacheDecisionView::Wait,
        }
    }
}

/// What the end of a fetch means for everyone who waits for it.
#[derive(Debug)]
pub struct Delivery {
    /// The outcome that each waiting caller receives.
    pub outcome: Result<AwsCredentials, CredentialsError>,
    /// The failure of the fetch, where the callers are served a cached value
    /// in spite of it.
    pub diagnostic: Option<CredentialsError>,
}

/// Mathematical value of a [`Delivery`].
pub struct DeliveryView {
    pub outcome: Result<AwsCredentialsView, CredentialsErrorView>,
    pub diagnostic: Option<CredentialsErrorView>,
}

impl View for Delivery {
    type V = DeliveryView;

    open spec fn view(&self) -> DeliveryView {
        DeliveryView {
            outcome: outcome_view(self.outcome),
            diagnostic: match self.diagnostic {
                Some(e) => Some(e@),
                None => None,
            },
        }
    }
}

/// The cache after a caller has asked for credentials at `now`, and the
/// decision that the caller gets.
pub open spec fn on_request(pre: CacheView, now: int) -> (CacheView, CacheDecisionView) {
    if pre.entry is Some && is_fresh(pre.entry.unwrap(), pre.refresh_buffer, now) {
        (pre, CacheDecisionView::Serve(pre.entry.unwrap().credentials))
    } else if pre.in_flight {
        (pre, CacheDecisionView::Wait)
    } else {
        (CacheView { in_flight: true, ..pre }, CacheDecisionView::Fetch)
    }
}

/// The cache after a fetch has ended at `now` with `outcome`, and what the
/// waiting callers get. New credentials replace the entry as a whole. After a
/// failure the entry stays as it is, and is served once more if it is still
/// valid.
pub open spec fn on_completion(
    pre: CacheView,
    outcome: Result<AwsCredentialsView, CredentialsErrorView>,
    now: int,
) -> (CacheView, DeliveryView) {
    match outcome {
        Ok(credentials) => (
            CacheView {
                entry: Some(CacheEntryView { credentials, fetched_at: now }),
                in_flight: false,
                ..pre
            },
            DeliveryView { outcome: Ok(credentials), diagnostic: None },
        ),
        Err(error) => (
            CacheView { in_flight: false, ..pre },
            if pre.entry is Some && is_valid(pre.entry.unwrap(), now) {
                DeliveryView {
                    outcome: Ok(pre.entry.unwrap().credentials),
                    diagnostic: Some(error),
                }
            } else {
                DeliveryView { outcome: Err(error), diagnostic: None }
            },
        ),
    }
}

/// A cache in front of one source, with at most one fetch under way at any
/// time.
#[derive(Debug)]
pub struct CachingRefreshProvider {
    entry: Option<CacheEntry>,
    refresh_buffer: u64,
    in_flight: bool,
}

impl View for CachingRefreshProvider {
    type V = CacheView;

    closed spec fn view(&self) -> CacheView {
        CacheView {
            entry: match self.entry {
                Some(entry) => Some(entry@),
                None => None,
            },
            refresh_buffer: self.refresh_buffer as nat,
            in_flight: self.in_flight,
        }
    }
}

impl CachingRefreshProvider {
    /// An empty cache with the default refresh buffer.
    pub fn new() -> (r: Self)
        ensures
            r@ == (CacheView {
                entry: None,
                refresh_buffer: DEFAULT_REFRESH_BUFFER_SECS as nat,
                in_flight: false,
            }),
    {
        CachingRefreshProvider {
            entry: None,
            refresh_buffer: DEFAULT_REFRESH_BUFFER_SECS,
            in_flight: false,
        }
    }

    /// An empty cache that refreshes `refresh_buffer` seconds before the
    /// expiration.
    pub fn with_refresh_buffer(refresh_buffer: u64) -> (r: Self)
        ensures
            r@ == (CacheView {
                entry: None,
                refresh_buffer: refresh_buffer as nat,
                in_flight: false,
            }),
    {
        CachingRefreshProvider { entry: None, refresh_buffer, in_flight: false }
    }

    /// The entry that the cache holds, if any.
    pub fn cached(&self) -> (r: &Option<CacheEntry>)
        ensures
            r is Some <==> self@.entry is Some,
            r is Some ==> r.unwrap()@ == self@.entry.unwrap(),
    {
        &self.entry
    }

    /// The number of seconds before the expiration at which a refresh is due.
    pub fn refresh_buffer(&self) -> (r: u64)
        ensures
            r == self@.refresh_buffer,
    {
        self.refresh_buffer
    }

    /// Whether a fetch is under way.
    pub fn is_refreshing(&self) -> (r: bool)
        ensures
            r == self@.in_flight,
    {
        self.in_flight
    }

    /// The entry, if the cache holds one that may be served at `now` without
    /// a refresh.
    pub fn fresh_entry(&self, now: i64) -> (r: Option<&CacheEntry>)
        ensures
            r is Some <==> self@.entry is Some && is_fresh(
                self@.entry.unwrap(),
                self@.refresh_buffer,
                now as int,
            ),
            r is Some ==> r.unwrap()@ == self@.entry.unwrap(),
    {
        match &self.entry {
            Some(entry) => {
                let fresh = match entry.credentials.expires_at() {
                    Some(expiration) => (now as i128) < (expiration as i128) - (
                    self.refresh_buffer as i128),
                    None => true,
                };
                if fresh {
                    Some(entry)
                } else {
                    None
                }
            },
            None => None,
        }
    }

    /// The entry, if the cache holds one that is still valid at `now`.
    pub fn valid_entry(&self, now: i64) -> (r: Option<&CacheEntry>)
        ensures
            r is Some <==> self@.entry is Some && is_valid(self@.entry.unwrap(), now as int),
            r is Some ==> r.unwrap()@ == self@.entry.unwrap(),
    {
        match &self.entry {
            Some(entry) => {
                if entry.credentials.credentials_are_expired(now) {
                    None
                } else {
                    Some(entry)
                }
            },
            None => None,
        }
    }

    /// Answers a caller who asks for credentials at `now`.
    ///
    /// A fresh entry is served as it is. Otherwise the first caller is told to
    /// fetch, and every caller who arrives before that fetch has ended is told
    /// to wait for it.
    pub fn credentials(&mut self, now: i64) -> (decision: CacheDecision)
        ensures
            (final(self)@, decision@) == on_request(old(self)@, now as int),
    {
        match self.fresh_entry(now) {
            Some(entry) => CacheDecision::Serve(entry.credentials.clone()),
            None => {
                if self.in_flight {
                    CacheDecision::Wait
                } else {
                    self.in_flight = true;
                    CacheDecision::Fetch
                }
            },
        }
    }

    /// Takes in the outcome of the fetch that ended at `now`, and says what
    /// the caller who fetched and all who waited receive: one and the same
    /// outcome.
    pub fn complete(&mut self, outcome: Result<AwsCredentials, CredentialsError>, now: i64) -> (r:
        Delivery)
        ensures
            (final(self)@, r@) == on_completion(old(self)@, outcome_view(outcome), now as int),
    {
        self.in_flight = false;
        match outcome {
            Ok(credentials) => {
                let served = credentials.clone();
                self.entry = Some(CacheEntry { credentials, fetched_at: now });
                Delivery { outcome: Ok(served), diagnostic: None }
            },
            Err(error) => match self.valid_entry(now) {
                Some(entry) => Delivery {
                    outcome: Ok(entry.credentials.clone()),
                    diagnostic: Some(error),
                },
                None => Delivery { outcome: Err(error), diagnostic: None },
            },
        }
    }

    /// Gives up the fetch under way. The entry stays exactly as it was.
    pub fn abandon(&mut self)
        ensures
            final(self)@ == (CacheView { in_flight: false, ..old(self)@ }),
    {
        self.in_flight = false;
    }
}

/// The cache after callers have asked for credentials at each of `times`, in
/// turn, with no fetch ending in between.
pub open spec fn after_requests(pre: CacheView, times: Seq<int>) -> CacheView
    decreases times.len(),
{
    if times.len() == 0 {
        pre
    } else {
        after_requests(on_request(pre, times[0]).0, times.drop_first())
    }
}

/// The number of those callers who were told to fetch.
pub open spec fn fetches_started(pre: CacheView, times: Seq<int>) -> nat
    decreases times.len(),
{
    if times.len() == 0 {
        0
    } else {
        (if on_request(pre, times[0]).1 is Fetch {
            1nat
        } else {
            0
        }) + fetches_started(on_request(pre, times[0]).0, times.drop_first())
    }
}

/// While a fetch is under way, nobody is told to fetch.
pub proof fn lemma_no_fetch_while_in_flight(pre: CacheView, times: Seq<int>)
    requires
        pre.in_flight,
    ensures
        fetches_started(pre, times) == 0,
        after_requests(pre, times) == pre,
    decreases times.len(),
{
    if times.len() > 0 {
        lemma_no_fetch_while_in_flight(pre, times.drop_first());
    }
}

/// Single flight: however many callers ask an empty cache for credentials
/// before a fetch has ended, exactly one of them, the first, is told to
/// fetch. The others wait, and `complete` then has one outcome for all.
pub proof fn lemma_single_flight(pre: CacheView, times: Seq<int>)
    requires
        pre.entry is None,
        !pre.in_flight,
        times.len() >= 1,
    ensures
        on_request(pre, times[0]).1 is Fetch,
        fetches_started(pre, times) == 1,
        after_requests(pre, times) == (CacheView { in_flight: true, ..pre }),
{
    lemma_no_fetch_while_in_flight(CacheView { in_flight: true, ..pre }, times.drop_first());
}

/// Between two fetches that end, at most one fetch starts, whatever the
/// cache holds and whenever the callers ask.
pub proof fn lemma_at_most_one_fetch(pre: CacheView, times: Seq<int>)
    ensures
        fetches_started(pre, times) <= 1,
        after_requests(pre, times).entry == pre.entry,
        after_requests(pre, times).refresh_buffer == pre.refresh_buffer,
    decreases times.len(),
{
    if times.len() > 0 {
        let next = on_request(pre, times[0]).0;
        if next.in_flight {
            lemma_no_fetch_while_in_flight(next, times.drop_first());
        } else {
            lemma_at_most_one_fetch(next, times.drop_first());
        }
    }
}

/// An entry that is fresh is valid.
pub proof fn lemma_fresh_is_valid(entry: CacheEntryView, buffer: nat, now: int)
    requires
        is_fresh(entry, buffer, now),
    ensures
        is_valid(entry, now),
{
}

/// A refresh that fails while the entry is still valid does no harm: the
/// callers get the entry, the failure is only reported beside it, and the
/// entry stays in the cache.
pub proof fn lemma_stale_entry_is_served(pre: CacheView, error: CredentialsErrorView, now: int)
    requires
        pre.entry is Some,
        is_valid(pre.entry.unwrap(), now),
    ensures
        on_completion(pre, Err(error), now).1 == (DeliveryView {
            outcome: Ok(pre.entry.unwrap().credentials),
            diagnostic: Some(error),
        }),
        on_completion(pre, Err(error), now).0.entry == pre.entry,
{
}

/// A refresh that fails when no valid entry is left hands the failure on.
pub proof fn lemma_failure_without_entry(pre: CacheView, error: CredentialsErrorView, now: int)
    requires
        pre.entry is None || !is_valid(pre.entry.unwrap(), now),
    ensures
        on_completion(pre, Err(error), now).1 == (DeliveryView {
            outcome: Err(error),
            diagnostic: None,
        }),
{
}

/// An entry is served without a refresh exactly while the instant of the
/// request plus the buffer is earlier than the expiration.
pub proof fn lemma_refresh_window(pre: CacheView, expiration: int, now: int)
    requires
        pre.entry is Some,
        pre.entry.unwrap().credentials.expires_at == Some(expiration),
    ensures
        on_request(pre, now).1 is Serve <==> now + pre.refresh_buffer < expiration,
{
}

/// A fetch that ends never leaves a mixture in the cache: the entry is the
/// one from before, untouched, or the new credentials as a whole.
pub proof fn lemma_entry_is_replaced_whole(
    pre: CacheView,
    outcome: Result<AwsCredentialsView, CredentialsErrorView>,
    now: int,
)
    ensures
        match outcome {
            Ok(credentials) => on_completion(pre, outcome, now).0.entry == Some(
                CacheEntryView { credentials, fetched_at: now },
            ),
            Err(_) => on_completion(pre, outcome, now).0.entry == pre.entry,
        },
        !on_completion(pre, outcome, now).0.in_flight,
        on_completion(pre, outcome, now).0.refresh_buffer == pre.refresh_buffer,
{
}

} // verus!
