//! Credentials of the IAM role of a compute instance, read from the
//! instance metadata service in two steps: first the name of the role, then
//! the credentials of that role.

use vstd::prelude::*;
use std::time::Duration;
use crate::credentials::{outcome_view, AwsCredentials, AwsCredentialsView};
use crate::document::{credentials_of, decoded_members, fields_of, parse_credentials_from_aws_service};
use crate::error::{failure, CredentialsError, CredentialsErrorView, ErrorKind};
use crate::request::{duration_from_secs, duration_nanos, request_to, uri_parses, HttpRequest};
use crate::response::{fetch_result, interpret_fetch, text_outcome_view, FetchOutcome, FetchOutcomeView};
use crate::text::chars_of;

verus! {

/// The link-local address at which the metadata service listens.
pub const AWS_CREDENTIALS_PROVIDER_IP: &'static str = "169.254.169.254";

/// The path under which the service lists roles and serves their credentials.
pub const AWS_CREDENTIALS_PROVIDER_PATH: &'static str = "latest/meta-data/iam/security-credentials";

/// The number of seconds that a request may take unless set otherwise.
pub const DEFAULT_TIMEOUT_SECS: u64 = 30;

/// The address that lists the role of the instance served at `endpoint`.
pub open spec fn role_name_url(endpoint: Seq<char>) -> Seq<char> {
    "http://"@ + endpoint + "/"@ + AWS_CREDENTIALS_PROVIDER_PATH@ + "/"@
}

/// The address that serves the credentials of `role` at `endpoint`.
pub open spec fn role_credentials_url(endpoint: Seq<char>, role: Seq<char>) -> Seq<char> {
    role_name_url(endpoint) + role
}

/// The endpoint made of a host and a port.
pub open spec fn host_with_port(host: Seq<char>, port: Seq<char>) -> Seq<char> {
    host + ":"@ + port
}

/// Whether `start..end` is the first line of `body` that is not empty,
/// where lines are separated by `\n`.
pub open spec fn is_first_line(body: Seq<char>, start: int, end: int) -> bool {
    &&& 0 <= start < end <= body.len()
    &&& forall|i: int| 0 <= i < start ==> body[i] == '\n'
    &&& forall|i: int| start <= i < end ==> body[i] != '\n'
    &&& (end == body.len() || body[end] == '\n')
}

/// Whether every line of `body` is empty.
pub open spec fn has_no_line(body: Seq<char>) -> bool {
    forall|i: int| 0 <= i < body.len() ==> body[i] == '\n'
}

/// A body has at most one first non-empty line.
pub proof fn lemma_first_line_unique(body: Seq<char>, s1: int, e1: int, s2: int, e2: int)
    requires
        is_first_line(body, s1, e1),
        is_first_line(body, s2, e2),
    ensures
        s1 == s2,
        e1 == e2,
{
    if s1 < s2 {
        assert(body[s1] == '\n');
    }
    if s2 < s1 {
        assert(body[s2] == '\n');
    }
    if e1 < e2 {
        assert(body[e1] != '\n');
    }
    if e2 < e1 {
        assert(body[e2] != '\n');
    }
}

/// The first non-empty line of `body`, where it has one.
pub open spec fn first_line(body: Seq<char>) -> Seq<char> {
    let (start, end) = choose|start: int, end: int| is_first_line(body, start, end);
    body.subrange(start, end)
}

/// A line that is the first non-empty one is the first line, and a body that
/// has one does not consist of empty lines only.
pub proof fn lemma_first_line(body: Seq<char>, start: int, end: int)
    requires
        is_first_line(body, start, end),
    ensures
        first_line(body) == body.subrange(start, end),
        !has_no_line(body),
{
    let (s, e) = choose|s: int, e: int| is_first_line(body, s, e);
    lemma_first_line_unique(body, start, end, s, e);
    assert(body[start] != '\n');
}

/// The message of the failure to find a role name.
pub open spec fn no_role_message() -> Seq<char> {
    "the metadata service listed no role"@
}

/// The role name that the body of the first response gives: its first
/// non-empty line, and a parse failure if it has none.
pub open spec fn role_name_of(body: Seq<char>) -> Result<Seq<char>, CredentialsErrorView> {
    if has_no_line(body) {
        Err(failure(ErrorKind::Parse, no_role_message()))
    } else {
        Ok(first_line(body))
    }
}

/// Picks the role name out of the body of the first response.
pub fn role_name_from_body(body: &str) -> (r: Result<String, CredentialsError>)
    ensures
        text_outcome_view(r) == role_name_of(body@),
{
    let chars = chars_of(body);
    let mut start: usize = 0;
    while start < chars.len() && chars[start] == '\n'
        invariant
            start <= chars.len(),
            forall|i: int| 0 <= i < start ==> chars@[i] == '\n',
        decreases chars.len() - start,
    {
        start += 1;
    }
    if start == chars.len() {
        return Err(CredentialsError::new(ErrorKind::Parse, "the metadata service listed no role"));
    }
    let mut end: usize = start + 1;
    while end < chars.len() && chars[end] != '\n'
        invariant
            start < end <= chars.len(),
            forall|i: int| start <= i < end ==> chars@[i] != '\n',
        decreases chars.len() - end,
    {
        end += 1;
    }
    let name = body.substring_char(start, end).to_owned();
    proof {
        lemma_first_line(body@, start as int, end as int);
    }
    Ok(name)
}

/// Writes the address that lists the role.
fn role_name_address(ip_addr: &str) -> (url: String)
    ensures
        url@ == role_name_url(ip_addr@),
{
    let mut url = "http://".to_owned();
    url.append(ip_addr);
    url.append("/");
    url.append(AWS_CREDENTIALS_PROVIDER_PATH);
    url.append("/");
    url
}

/// The request that asks the service at `ip_addr` for the name of the role.
pub fn get_role_name(timeout: Duration, ip_addr: &str) -> (r: Result<HttpRequest, CredentialsError>)
    ensures
        r is Ok <==> uri_parses(role_name_url(ip_addr@)),
        r is Ok ==> r.unwrap().url@ == role_name_url(ip_addr@) && r.unwrap().timeout == timeout,
        r is Err ==> r.unwrap_err()@.kind == ErrorKind::Configuration
            && r.unwrap_err()@.causes.len() == 0,
{
    request_to(role_name_address(ip_addr), timeout)
}

/// The request that asks the service at `ip_addr` for the credentials of
/// `role_name`.
pub fn get_credentials_from_role(timeout: Duration, role_name: &str, ip_addr: &str) -> (r: Result<
    HttpRequest,
    CredentialsError,
>)
    ensures
        r is Ok <==> uri_parses(role_credentials_url(ip_addr@, role_name@)),
        r is Ok ==> r.unwrap().url@ == role_credentials_url(ip_addr@, role_name@)
            && r.unwrap().timeout == timeout,
        r is Err ==> r.unwrap_err()@.kind == ErrorKind::Configuration
            && r.unwrap_err()@.causes.len() == 0,
{
    let mut url = role_name_address(ip_addr);
    url.append(role_name);
    request_to(url, timeout)
}

/// Provides credentials from the IAM role of the instance.
///
/// A provider starts out with a timeout of 30 seconds for each request and
/// the address `169.254.169.254`; both can be changed.
#[derive(Debug)]
pub struct InstanceMetadataProvider {
    timeout: Duration,
    metadata_ip_addr: String,
}

impl InstanceMetadataProvider {
    /// The endpoint, `host` or `host:port`, that requests go to.
    pub closed spec fn endpoint(&self) -> Seq<char> {
        self.metadata_ip_addr@
    }

    /// The time limit of each request.
    pub closed spec fn request_timeout(&self) -> Duration {
        self.timeout
    }

    /// A provider with the default timeout and address.
    pub fn new() -> (r: Self)
        ensures
            r.endpoint() == AWS_CREDENTIALS_PROVIDER_IP@,
            duration_nanos(r.request_timeout()) == DEFAULT_TIMEOUT_SECS * 1_000_000_000,
    {
        InstanceMetadataProvider {
            timeout: duration_from_secs(DEFAULT_TIMEOUT_SECS),
            metadata_ip_addr: AWS_CREDENTIALS_PROVIDER_IP.to_owned(),
        }
    }

    /// Sets the time limit of each request.
    pub fn set_timeout(&mut self, timeout: Duration)
        ensures
            final(self).request_timeout() == timeout,
            final(self).endpoint() == old(self).endpoint(),
    {
        self.timeout = timeout;
    }

    /// Points the provider at another host and port.
    pub fn set_ip_addr_with_port(&mut self, ip: &str, port: &str)
        ensures
            final(self).endpoint() == host_with_port(ip@, port@),
            final(self).request_timeout() == old(self).request_timeout(),
    {
        let mut addr = ip.to_owned();
        addr.append(":");
        addr.append(port);
        self.metadata_ip_addr = addr;
    }

    /// The time limit of each request.
    pub fn timeout(&self) -> (r: Duration)
        ensures
            r == self.request_timeout(),
    {
        self.timeout
    }

    /// The endpoint that requests go to.
    pub fn metadata_ip_addr(&self) -> (r: &str)
        ensures
            r@ == self.endpoint(),
    {
        self.metadata_ip_addr.as_str()
    }
}

impl Clone for InstanceMetadataProvider {
    fn clone(&self) -> (r: Self)
        ensures
            r.endpoint() == self.endpoint(),
            r.request_timeout() == self.request_timeout(),
    {
        InstanceMetadataProvider {
            timeout: self.timeout,
            metadata_ip_addr: self.metadata_ip_addr.clone(),
        }
    }
}

impl Default for InstanceMetadataProvider {
    fn default() -> (r: Self)
        ensures
            r.endpoint() == AWS_CREDENTIALS_PROVIDER_IP@,
            duration_nanos(r.request_timeout()) == DEFAULT_TIMEOUT_SECS * 1_000_000_000,
    {
        Self::new()
    }
}

/// Where one fetch stands. A fetch only ever moves forward through these.
#[derive(Clone, Copy, Debug, PartialEq, Eq, Structural)]
pub enum InstanceMetadataFutureState {
    /// Nothing has been sent yet.
    Start,
    /// The request for the role name is under way.
    GetRoleName,
    /// The request for the credentials of the role is under way.
    GetCredentialsFromRole,
    /// The outcome has been handed out.
    Done,
}

/// One fetch of credentials from the metadata service.
///
/// The fetch decides; its owner sends the requests. Each call of
/// [`poll`](InstanceMetadataProviderFuture::poll) hands the fetch what has
/// arrived and gets back what to do next.
#[derive(Debug)]
pub struct InstanceMetadataProviderFuture {
    state: InstanceMetadataFutureState,
    timeout: Duration,
    metadata_ip_addr: String,
}

/// Mathematical value of an [`InstanceMetadataProviderFuture`].
pub struct FutureView {
    pub state: InstanceMetadataFutureState,
    pub endpoint: Seq<char>,
    pub timeout: Duration,
}

/// What the owner of a fetch is to do after a call of `poll`.
#[derive(Debug)]
pub enum MetadataPoll {
    /// Send this request and come back with its outcome.
    Send(HttpRequest),
    /// Nothing has arrived; come back when the request under way has ended.
    NotReady,
    /// The fetch has ended with this outcome.
    Ready(Result<AwsCredentials, CredentialsError>),
    /// The fetch had ended before this call.
    Finished,
}

/// Mathematical value of a [`MetadataPoll`].
pub enum MetadataPollView {
    Send { url: Seq<char>, timeout: Duration },
    NotReady,
    Ready(Result<AwsCredentialsView, CredentialsErrorView>),
    Finished,
}

impl View for MetadataPoll {
    type V = MetadataPollView;

    open spec fn view(&self) -> MetadataPollView {
        match *self {
            MetadataPoll::Send(request) => MetadataPollView::Send {
                url: request.url@,
                timeout: request.timeout,
            },
            MetadataPoll::NotReady => MetadataPollView::NotReady,
            MetadataPoll::Ready(outcome) => MetadataPollView::Ready(outcome_view(outcome)),
            MetadataPoll::Finished => MetadataPollView::Finished,
        }
    }
}

/// The value of what has arrived, if anything has.
pub open spec fn arrival_view(arrived: Option<FetchOutcome>) -> Option<FetchOutcomeView> {
    match arrived {
        Some(outcome) => Some(outcome@),
        None => None,
    }
}

/// Whether `action` ends the fetch with a failure of the given kind that has
/// no causes.
pub open spec fn fails_with(action: MetadataPollView, kind: ErrorKind) -> bool {
    action matches MetadataPollView::Ready(Err(e)) && e.kind == kind && e.causes.len() == 0
}

/// The step that is to send a request to `url`: the request goes out and the
/// fetch moves to `next`, unless `url` is no valid address, which ends the
/// fetch with a configuration failure.
pub open spec fn sends_or_fails(
    url: Seq<char>,
    timeout: Duration,
    next: InstanceMetadataFutureState,
    post: InstanceMetadataFutureState,
    action: MetadataPollView,
) -> bool {
    if uri_parses(url) {
        post == next && action == (MetadataPollView::Send { url, timeout })
    } else {
        post == InstanceMetadataFutureState::Done && fails_with(action, ErrorKind::Configuration)
    }
}

/// The step that reads credentials out of `body`.
pub open spec fn ends_with_parsed(body: Seq<char>, action: MetadataPollView) -> bool {
    match decoded_members(body) {
        Some(members) => action == MetadataPollView::Ready(credentials_of(fields_of(members))),
        None => fails_with(action, ErrorKind::Parse),
    }
}

/// The transition relation of a fetch: from `pre`, when `arrived` is handed
/// in, the fetch may move to `post` and answer `action`.
pub open spec fn poll_spec(
    pre: FutureView,
    arrived: Option<FetchOutcomeView>,
    post: FutureView,
    action: MetadataPollView,
) -> bool {
    &&& post.endpoint == pre.endpoint
    &&& post.timeout == pre.timeout
    &&& match pre.state {
        InstanceMetadataFutureState::Start => sends_or_fails(
            role_name_url(pre.endpoint),
            pre.timeout,
            InstanceMetadataFutureState::GetRoleName,
            post.state,
            action,
        ),
        InstanceMetadataFutureState::GetRoleName => match arrived {
            None => post.state == pre.state && action is NotReady,
            Some(outcome) => match fetch_result(outcome) {
                Err(e) => post.state == InstanceMetadataFutureState::Done && action
                    == MetadataPollView::Ready(Err(e)),
                Ok(body) => match role_name_of(body) {
                    Err(e) => post.state == InstanceMetadataFutureState::Done && action
                        == MetadataPollView::Ready(Err(e)),
                    Ok(role) => sends_or_fails(
                        role_credentials_url(pre.endpoint, role),
                        pre.timeout,
                        InstanceMetadataFutureState::GetCredentialsFromRole,
                        post.state,
                        action,
                    ),
                },
            },
        },
        InstanceMetadataFutureState::GetCredentialsFromRole => match arrived {
            None => post.state == pre.state && action is NotReady,
            Some(outcome) => post.state == InstanceMetadataFutureState::Done && match fetch_result(
                outcome,
            ) {
                Err(e) => action == MetadataPollView::Ready(Err(e)),
                Ok(body) => ends_with_parsed(body, action),
            },
        },
        InstanceMetadataFutureState::Done => post.state == pre.state && action is Finished,
    }
}

impl View for InstanceMetadataProviderFuture {
    type V = FutureView;

    closed spec fn view(&self) -> FutureView {
        FutureView {
            state: self.state,
            endpoint: self.metadata_ip_addr@,
            timeout: self.timeout,
        }
    }
}

impl InstanceMetadataProviderFuture {
    /// Where the fetch stands.
    pub fn state(&self) -> (r: InstanceMetadataFutureState)
        ensures
            r == self@.state,
    {
        self.state
    }

    /// Ends the fetch with `error`.
    fn fail(&mut self, error: CredentialsError) -> (action: MetadataPoll)
        ensures
            final(self)@ == (FutureView {
                state: InstanceMetadataFutureState::Done,
                ..old(self)@
            }),
            action@ == MetadataPollView::Ready(Err(error@)),
    {
        self.state = InstanceMetadataFutureState::Done;
        MetadataPoll::Ready(Err(error))
    }

    /// Sends `request` and moves to `next`, or ends the fetch if the request
    /// could not be built.
    fn send(
        &mut self,
        request: Result<HttpRequest, CredentialsError>,
        next: InstanceMetadataFutureState,
    ) -> (action: MetadataPoll)
        ensures
            final(self)@.endpoint == old(self)@.endpoint,
            final(self)@.timeout == old(self)@.timeout,
            match request {
                Ok(req) => final(self)@.state == next && action@ == (MetadataPollView::Send {
                    url: req.url@,
                    timeout: req.timeout,
                }),
                Err(e) => final(self)@.state == InstanceMetadataFutureState::Done && action@
                    == MetadataPollView::Ready(Err(e@)),
            },
    {
        match request {
            Ok(req) => {
                self.state = next;
                MetadataPoll::Send(req)
            },
            Err(e) => self.fail(e),
        }
    }

    /// Moves the fetch on. `arrived` is the outcome of the request that the
    /// last `Send` asked for, once it has ended, and `None` before that.
    ///
    /// The first call sends the request for the role name. When that request
    /// has failed, or its body names no role, the fetch ends there and the
    /// credentials are never asked for. Otherwise the second request goes out,
    /// and its outcome ends the fetch. No step is ever tried twice.
    pub fn poll(&mut self, arrived: Option<FetchOutcome>) -> (action: MetadataPoll)
        ensures
            poll_spec(old(self)@, arrival_view(arrived), final(self)@, action@),
    {
        match self.state {
            InstanceMetadataFutureState::Start => {
                let request = get_role_name(self.timeout, self.metadata_ip_addr.as_str());
                self.send(request, InstanceMetadataFutureState::GetRoleName)
            },
            InstanceMetadataFutureState::GetRoleName => match arrived {
                None => MetadataPoll::NotReady,
                Some(outcome) => match interpret_fetch(outcome) {
                    Err(e) => self.fail(e),
                    Ok(body) => match role_name_from_body(body.as_str()) {
                        Err(e) => self.fail(e),
                        Ok(role) => {
                            let request = get_credentials_from_role(
                                self.timeout,
                                role.as_str(),
                                self.metadata_ip_addr.as_str(),
                            );
                            self.send(request, InstanceMetadataFutureState::GetCredentialsFromRole)
                        },
                    },
                },
            },
            InstanceMetadataFutureState::GetCredentialsFromRole => match arrived {
                None => MetadataPoll::NotReady,
                Some(outcome) => match interpret_fetch(outcome) {
                    Err(e) => self.fail(e),
                    Ok(body) => {
                        self.state = InstanceMetadataFutureState::Done;
                        MetadataPoll::Ready(parse_credentials_from_aws_service(body.as_str()))
                    },
                },
            },
            InstanceMetadataFutureState::Done => MetadataPoll::Finished,
        }
    }
}

impl InstanceMetadataProvider {
    /// Starts a fetch with the timeout and the endpoint of this provider.
    pub fn credentials(&self) -> (r: InstanceMetadataProviderFuture)
        ensures
            r@ == (FutureView {
                state: InstanceMetadataFutureState::Start,
                endpoint: self.endpoint(),
                timeout: self.request_timeout(),
            }),
    {
        InstanceMetadataProviderFuture {
            state: InstanceMetadataFutureState::Start,
            timeout: self.timeout,
            metadata_ip_addr: self.metadata_ip_addr.clone(),
        }
    }
}

/// The number of requests that a fetch in `state` may still send.
pub open spec fn requests_left(state: InstanceMetadataFutureState) -> nat {
    match state {
        InstanceMetadataFutureState::Start => 2,
        InstanceMetadataFutureState::GetRoleName => 1,
        _ => 0,
    }
}

/// The place of a state in the order in which a fetch passes through them.
pub open spec fn state_order(state: InstanceMetadataFutureState) -> nat {
    match state {
        InstanceMetadataFutureState::Start => 0,
        InstanceMetadataFutureState::GetRoleName => 1,
        InstanceMetadataFutureState::GetCredentialsFromRole => 2,
        InstanceMetadataFutureState::Done => 3,
    }
}

/// A fetch never goes back: each step leaves it where it was or moves it
/// forward, and a step that sends a request moves it forward, so that no
/// request is ever sent a second time.
pub proof fn lemma_fetch_moves_forward(
    pre: FutureView,
    arrived: Option<FetchOutcomeView>,
    post: FutureView,
    action: MetadataPollView,
)
    requires
        poll_spec(pre, arrived, post, action),
    ensures
        state_order(pre.state) <= state_order(post.state),
        action is Send ==> state_order(post.state) == state_order(pre.state) + 1,
        action is Ready ==> post.state == InstanceMetadataFutureState::Done,
        action is NotReady ==> post == pre,
{
}

/// The number of requests among `actions`.
pub open spec fn sends(actions: Seq<MetadataPollView>) -> nat
    decreases actions.len(),
{
    if actions.len() == 0 {
        0
    } else {
        sends(actions.drop_first()) + (if actions[0] is Send {
            1nat
        } else {
            0
        })
    }
}

/// Whether the fetch can pass through `states` when it is handed `arrivals`
/// one after the other and answers `actions`.
pub open spec fn is_run(
    states: Seq<FutureView>,
    arrivals: Seq<Option<FetchOutcomeView>>,
    actions: Seq<MetadataPollView>,
) -> bool {
    &&& states.len() == arrivals.len() + 1
    &&& actions.len() == arrivals.len()
    &&& forall|i: int|
        0 <= i < arrivals.len() ==> poll_spec(states[i], arrivals[i], #[trigger] states[i + 1], actions[i])
}

/// A run is a first step followed by a run.
pub proof fn lemma_run_unfolds(
    states: Seq<FutureView>,
    arrivals: Seq<Option<FetchOutcomeView>>,
    actions: Seq<MetadataPollView>,
)
    requires
        is_run(states, arrivals, actions),
        arrivals.len() >= 1,
    ensures
        poll_spec(states[0], arrivals[0], states[1], actions[0]),
        is_run(states.drop_first(), arrivals.drop_first(), actions.drop_first()),
{
    let rest_states = states.drop_first();
    let rest_arrivals = arrivals.drop_first();
    let rest_actions = actions.drop_first();
    assert(poll_spec(states[0], arrivals[0], states[0int + 1], actions[0]));
    assert forall|i: int| 0 <= i < rest_arrivals.len() implies poll_spec(
        rest_states[i],
        rest_arrivals[i],
        #[trigger] rest_states[i + 1],
        rest_actions[i],
    ) by {
        assert(rest_states[i + 1] == states[i + 1 + 1]);
    }
}

/// Every request that a fetch sends uses up one of the requests it has left:
/// over any run, a fetch sends at most two requests, and none once it is done.
pub proof fn lemma_requests_bounded(
    states: Seq<FutureView>,
    arrivals: Seq<Option<FetchOutcomeView>>,
    actions: Seq<MetadataPollView>,
)
    requires
        is_run(states, arrivals, actions),
    ensures
        sends(actions) + requests_left(states.last().state) <= requests_left(states[0].state),
    decreases arrivals.len(),
{
    if arrivals.len() > 0 {
        lemma_run_unfolds(states, arrivals, actions);
        lemma_requests_bounded(states.drop_first(), arrivals.drop_first(), actions.drop_first());
        assert(states.drop_first()[0] == states[1]);
        assert(states.drop_first().last() == states.last());
    }
}

/// Whether the answer to the request for the role name leaves the fetch
/// without a role: the request failed, or its body names none.
pub open spec fn role_step_fails(outcome: FetchOutcomeView) -> bool {
    match fetch_result(outcome) {
        Err(_) => true,
        Ok(body) => role_name_of(body) is Err,
    }
}

/// When the request for the role name fails, the fetch ends with that
/// failure, and whatever it is handed afterwards, it never sends the request
/// for the credentials.
pub proof fn lemma_role_failure_ends_fetch(
    states: Seq<FutureView>,
    arrivals: Seq<Option<FetchOutcomeView>>,
    actions: Seq<MetadataPollView>,
)
    requires
        is_run(states, arrivals, actions),
        arrivals.len() >= 1,
        states[0].state == InstanceMetadataFutureState::GetRoleName,
        arrivals[0] is Some,
        role_step_fails(arrivals[0].unwrap()),
    ensures
        actions[0] matches MetadataPollView::Ready(Err(_)),
        sends(actions) == 0,
        forall|i: int| 0 <= i < actions.len() ==> !(actions[i] is Send),
{
    lemma_run_unfolds(states, arrivals, actions);
    assert(states.drop_first()[0] == states[1]);
    lemma_requests_bounded(states.drop_first(), arrivals.drop_first(), actions.drop_first());
    lemma_no_sends(actions);
}

/// A run without requests holds no `Send`.
pub proof fn lemma_no_sends(actions: Seq<MetadataPollView>)
    requires
        sends(actions) == 0,
    ensures
        forall|i: int| 0 <= i < actions.len() ==> !(actions[i] is Send),
    decreases actions.len(),
{
    if actions.len() > 0 {
        lemma_no_sends(actions.drop_first());
        assert forall|i: int| 0 <= i < actions.len() implies !(actions[i] is Send) by {
            if i > 0 {
                assert(actions[i] == actions.drop_first()[i - 1]);
            }
        }
    }
}

/// Whether `url` is an address of the service at `endpoint`.
pub open spec fn targets(url: Seq<char>, endpoint: Seq<char>) -> bool {
    ("http://"@ + endpoint + "/"@).is_prefix_of(url)
}

/// Both addresses of the protocol are addresses of the endpoint.
pub proof fn lemma_urls_target_endpoint(endpoint: Seq<char>, role: Seq<char>)
    ensures
        targets(role_name_url(endpoint), endpoint),
        targets(role_credentials_url(endpoint, role), endpoint),
{
    let prefix = "http://"@ + endpoint + "/"@;
    let first = role_name_url(endpoint);
    let second = role_credentials_url(endpoint, role);
    assert(first.subrange(0, prefix.len() as int) =~= prefix);
    assert(second.subrange(0, prefix.len() as int) =~= prefix);
}

/// Every request of a fetch goes to the endpoint that the fetch was started
/// with, and has the timeout that it was started with: after the endpoint of
/// a provider is set to a host and a port, both steps go to that host and
/// port.
pub proof fn lemma_requests_target_endpoint(
    states: Seq<FutureView>,
    arrivals: Seq<Option<FetchOutcomeView>>,
    actions: Seq<MetadataPollView>,
)
    requires
        is_run(states, arrivals, actions),
    ensures
        forall|i: int|
            0 <= i < actions.len() ==> (#[trigger] actions[i] matches MetadataPollView::Send {
                url,
                timeout,
            } ==> targets(url, states[0].endpoint) && timeout == states[0].timeout),
    decreases arrivals.len(),
{
    if arrivals.len() > 0 {
        lemma_run_unfolds(states, arrivals, actions);
        let rest = actions.drop_first();
        lemma_requests_target_endpoint(states.drop_first(), arrivals.drop_first(), rest);
        assert(states.drop_first()[0] == states[1]);
        assert forall|i: int| 0 <= i < actions.len() implies (
        #[trigger] actions[i] matches MetadataPollView::Send { url, timeout } ==> targets(
            url,
            states[0].endpoint,
        ) && timeout == states[0].timeout) by {
            if i == 0 {
                if actions[0] matches MetadataPollView::Send { url, timeout } {
                    if states[0].state == InstanceMetadataFutureState::Start {
                        lemma_urls_target_endpoint(states[0].endpoint, Seq::empty());
                    } else {
                        let body = fetch_result(arrivals[0].unwrap())->Ok_0;
                        let role = role_name_of(body)->Ok_0;
                        lemma_urls_target_endpoint(states[0].endpoint, role);
                    }
                }
            } else {
                assert(actions[i] == rest[i - 1]);
            }
        }
    }
}

} // verus!
