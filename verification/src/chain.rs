//! The ordered chain of sources: each is tried in turn, the first that has
//! credentials wins, and if none has, the failures of all are reported
//! together.
//!
//! The chain decides which source is next; its owner asks that source.

use vstd::prelude::*;
use crate::credentials::{outcome_view, AwsCredentials, AwsCredentialsView};
use crate::error::{
    clone_failures,
    failure,
    failure_views,
    CredentialsError,
    CredentialsErrorView,
    ErrorKind,
    SourceFailure,
    SourceFailureView,
    SourceKind,
};

verus! {

/// The place of a kind of source in the order of priority; 0 is tried first.
pub open spec fn rank_of(kind: SourceKind) -> nat {
    match kind {
        SourceKind::Static => 0,
        SourceKind::Environment => 1,
        SourceKind::ProfileFile => 2,
        SourceKind::Container => 3,
        SourceKind::InstanceMetadata => 4,
        SourceKind::AssumeRole => 5,
    }
}

/// Whether each source has a higher priority than all that follow it.
pub open spec fn in_priority_order(sources: Seq<SourceKind>) -> bool {
    forall|i: int, j: int|
        0 <= i < j < sources.len() ==> rank_of(#[trigger] sources[i]) < rank_of(
            #[trigger] sources[j],
        )
}

/// The sources of the default chain.
pub open spec fn default_sources() -> Seq<SourceKind> {
    seq![
        SourceKind::Environment,
        SourceKind::ProfileFile,
        SourceKind::Container,
        SourceKind::InstanceMetadata,
    ]
}

/// The place of `kind` in the order of priority.
pub fn rank(kind: SourceKind) -> (r: u8)
    ensures
        r == rank_of(kind),
{
    match kind {
        SourceKind::Static => 0,
        SourceKind::Environment => 1,
        SourceKind::ProfileFile => 2,
        SourceKind::Container => 3,
        SourceKind::InstanceMetadata => 4,
        SourceKind::AssumeRole => 5,
    }
}

/// The name under which a kind of source is listed.
pub open spec fn name_of(kind: SourceKind) -> Seq<char> {
    match kind {
        SourceKind::Static => "static"@,
        SourceKind::Environment => "environment"@,
        SourceKind::ProfileFile => "profile file"@,
        SourceKind::Container => "container"@,
        SourceKind::InstanceMetadata => "instance metadata"@,
        SourceKind::AssumeRole => "assume role"@,
    }
}

/// The name under which `kind` is listed.
pub fn source_name(kind: SourceKind) -> (r: &'static str)
    ensures
        r@ == name_of(kind),
{
    match kind {
        SourceKind::Static => "static",
        SourceKind::Environment => "environment",
        SourceKind::ProfileFile => "profile file",
        SourceKind::Container => "container",
        SourceKind::InstanceMetadata => "instance metadata",
        SourceKind::AssumeRole => "assume role",
    }
}

/// The record of the failure `error` of `source`.
pub open spec fn recorded(source: SourceKind, error: CredentialsErrorView) -> SourceFailureView {
    SourceFailureView { source, kind: error.kind, message: error.message }
}

/// The failure of a chain whose sources failed with `failures`.
pub open spec fn exhausted(failures: Seq<SourceFailureView>) -> CredentialsErrorView {
    CredentialsErrorView {
        kind: ErrorKind::NoCredentialsAvailable,
        message: "no source of the chain provided credentials"@,
        causes: failures,
    }
}

/// Whether `sources` can make a chain.
pub open spec fn chain_of(sources: Seq<SourceKind>) -> Result<Seq<SourceKind>, CredentialsErrorView> {
    if in_priority_order(sources) {
        Ok(sources)
    } else {
        Err(failure(ErrorKind::Configuration, "the sources are not in order of priority"@))
    }
}

/// An ordered list of sources, fixed when the chain is made.
#[derive(Debug)]
pub struct ChainResolver {
    sources: Vec<SourceKind>,
}

impl View for ChainResolver {
    type V = Seq<SourceKind>;

    closed spec fn view(&self) -> Seq<SourceKind> {
        self.sources@
    }
}

/// Mathematical value of a [`ChainResolution`].
pub struct ResolutionView {
    pub sources: Seq<SourceKind>,
    pub failures: Seq<SourceFailureView>,
    pub finished: bool,
}

/// One walk along a chain: the sources, and the failures of those that have
/// been tried so far.
#[derive(Debug)]
pub struct ChainResolution {
    sources: Vec<SourceKind>,
    failures: Vec<SourceFailure>,
    finished: bool,
}

impl View for ChainResolution {
    type V = ResolutionView;

    closed spec fn view(&self) -> ResolutionView {
        ResolutionView {
            sources: self.sources@,
            failures: failure_views(self.failures@),
            finished: self.finished,
        }
    }
}

/// What the owner of a walk is to do next.
#[derive(Debug)]
pub enum ChainStep {
    /// Ask this source and come back with its outcome.
    Try(SourceKind),
    /// The walk has ended with this outcome.
    Done(Result<AwsCredentials, CredentialsError>),
    /// The walk had ended before this call.
    Finished,
}

/// Mathematical value of a [`ChainStep`].
pub enum ChainStepView {
    Try(SourceKind),
    Done(Result<AwsCredentialsView, CredentialsErrorView>),
    Finished,
}

impl View for ChainStep {
    type V = ChainStepView;

    open spec fn view(&self) -> ChainStepView {
        match *self {
            ChainStep::Try(source) => ChainStepView::Try(source),
            ChainStep::Done(outcome) => ChainStepView::Done(outcome_view(outcome)),
            ChainStep::Finished => ChainStepView::Finished,
        }
    }
}

/// Whether a walk is one that a chain can be in: a walk that goes on has a
/// source left to ask, and the failures are those of the first sources, one
/// each, in order.
pub open spec fn is_walk(walk: ResolutionView) -> bool {
    &&& walk.failures.len() <= walk.sources.len()
    &&& !walk.finished ==> walk.failures.len() < walk.sources.len()
    &&& forall|i: int| 0 <= i < walk.failures.len() ==> (#[trigger] walk.failures[i]).source == walk.sources[i]
}

/// The walk at the start of a chain, and the first step.
pub open spec fn on_start(sources: Seq<SourceKind>) -> (ResolutionView, ChainStepView) {
    if sources.len() == 0 {
        (
            ResolutionView { sources, failures: Seq::empty(), finished: true },
            ChainStepView::Done(Err(exhausted(Seq::empty()))),
        )
    } else {
        (
            ResolutionView { sources, failures: Seq::empty(), finished: false },
            ChainStepView::Try(sources[0]),
        )
    }
}

/// The walk after the source that was asked has answered `outcome`, and the
/// next step. Credentials end the walk at once. A failure is recorded, and
/// the next source is asked if there is one; if there is none, the walk ends
/// with all the failures on record, in the order of the sources.
pub open spec fn on_outcome(
    pre: ResolutionView,
    outcome: Result<AwsCredentialsView, CredentialsErrorView>,
) -> (ResolutionView, ChainStepView) {
    if pre.finished {
        (pre, ChainStepView::Finished)
    } else {
        match outcome {
            Ok(credentials) => (
                ResolutionView { finished: true, ..pre },
                ChainStepView::Done(Ok(credentials)),
            ),
            Err(error) => {
                let failures = pre.failures.push(
                    recorded(pre.sources[pre.failures.len() as int], error),
                );
                if failures.len() < pre.sources.len() {
                    (
                        ResolutionView { failures, ..pre },
                        ChainStepView::Try(pre.sources[failures.len() as int]),
                    )
                } else {
                    (
                        ResolutionView { failures, finished: true, ..pre },
                        ChainStepView::Done(Err(exhausted(failures))),
                    )
                }
            },
        }
    }
}

impl ChainResolver {
    /// The default chain: the environment, then the profile file, then the
    /// container endpoint, then the instance metadata service.
    pub fn new() -> (r: Self)
        ensures
            r@ == default_sources(),
            in_priority_order(r@),
    {
        let mut sources: Vec<SourceKind> = Vec::new();
        sources.push(SourceKind::Environment);
        sources.push(SourceKind::ProfileFile);
        sources.push(SourceKind::Container);
        sources.push(SourceKind::InstanceMetadata);
        assert(sources@ =~= default_sources());
        ChainResolver { sources }
    }

    /// A chain of the given sources, which must be listed from the highest
    /// priority to the lowest, each kind at most once.
    pub fn with_sources(sources: Vec<SourceKind>) -> (r: Result<Self, CredentialsError>)
        ensures
            match r {
                Ok(chain) => chain_of(sources@) == Ok::<Seq<SourceKind>, CredentialsErrorView>(
                    chain@,
                ),
                Err(e) => chain_of(sources@) == Err::<Seq<SourceKind>, CredentialsErrorView>(e@),
            },
    {
        let mut n: usize = 1;
        while n < sources.len()
            invariant
                1 <= n,
                forall|i: int, j: int|
                    0 <= i < j < n && j < sources.len() ==> rank_of(#[trigger] sources@[i])
                        < rank_of(#[trigger] sources@[j]),
            decreases sources.len() - n,
        {
            if rank(sources[n - 1]) >= rank(sources[n]) {
                return Err(
                    CredentialsError::new(
                        ErrorKind::Configuration,
                        "the sources are not in order of priority",
                    ),
                );
            }
            assert forall|i: int, j: int| 0 <= i < j < n + 1 && j < sources.len() implies rank_of(
                #[trigger] sources@[i],
            ) < rank_of(#[trigger] sources@[j]) by {
                if j == n && i < n - 1 {
                    assert(rank_of(sources@[i]) < rank_of(sources@[n - 1]));
                }
            }
            n += 1;
        }
        Ok(ChainResolver { sources })
    }

    /// The sources of the chain, in order.
    pub fn sources(&self) -> (r: &Vec<SourceKind>)
        ensures
            r@ == self@,
    {
        &self.sources
    }

    /// Starts a walk along the chain. Every walk starts at the first source,
    /// whatever became of earlier walks.
    pub fn resolve(&self) -> (r: (ChainResolution, ChainStep))
        ensures
            (r.0@, r.1@) == on_start(self@),
            is_walk(r.0@),
    {
        let sources = self.sources.clone();
        let failures: Vec<SourceFailure> = Vec::new();
        assert(failure_views(failures@) =~= Seq::empty());
        if sources.len() == 0 {
            let error = CredentialsError {
                kind: ErrorKind::NoCredentialsAvailable,
                message: "no source of the chain provided credentials".to_owned(),
                causes: Vec::new(),
            };
            assert(error@.causes =~= Seq::empty());
            (ChainResolution { sources, failures, finished: true }, ChainStep::Done(Err(error)))
        } else {
            let first = sources[0];
            (ChainResolution { sources, failures, finished: false }, ChainStep::Try(first))
        }
    }
}

impl ChainResolution {
    /// Whether the walk has ended.
    pub fn is_finished(&self) -> (r: bool)
        ensures
            r == self@.finished,
    {
        self.finished
    }

    /// Takes in the outcome of the source that was asked last, and says what
    /// comes next.
    pub fn advance(&mut self, outcome: Result<AwsCredentials, CredentialsError>) -> (step:
        ChainStep)
        requires
            is_walk(old(self)@),
        ensures
            (final(self)@, step@) == on_outcome(old(self)@, outcome_view(outcome)),
            is_walk(final(self)@),
    {
        if self.finished {
            return ChainStep::Finished;
        }
        match outcome {
            Ok(credentials) => {
                self.finished = true;
                ChainStep::Done(Ok(credentials))
            },
            Err(error) => {
                let ghost before = failure_views(self.failures@);
                let source = self.sources[self.failures.len()];
                self.failures.push(error.as_failure_of(source));
                assert(failure_views(self.failures@) =~= before.push(recorded(source, error@)));
                if self.failures.len() < self.sources.len() {
                    ChainStep::Try(self.sources[self.failures.len()])
                } else {
                    self.finished = true;
                    ChainStep::Done(
                        Err(
                            CredentialsError {
                                kind: ErrorKind::NoCredentialsAvailable,
                                message: "no source of the chain provided credentials".to_owned(),
                                causes: clone_failures(&self.failures),
                            },
                        ),
                    )
                }
            },
        }
    }
}

/// Whether `i` is the first source that has credentials, where `outcomes`
/// lists what each source of a chain would answer.
pub open spec fn is_first_success(
    outcomes: Seq<Result<AwsCredentialsView, CredentialsErrorView>>,
    i: int,
) -> bool {
    &&& 0 <= i < outcomes.len()
    &&& outcomes[i] is Ok
    &&& forall|j: int| 0 <= j < i ==> outcomes[j] is Err
}

/// The records of the failures of the first `n` sources.
pub open spec fn recorded_failures(
    sources: Seq<SourceKind>,
    outcomes: Seq<Result<AwsCredentialsView, CredentialsErrorView>>,
    n: int,
) -> Seq<SourceFailureView> {
    Seq::new(n as nat, |i: int| recorded(sources[i], outcomes[i]->Err_0))
}

/// What a chain owes its caller, where `outcomes` lists what each of its
/// sources would answer: the credentials of the first source that has any,
/// and if none has, the failures of all, in the order of the sources.
pub open spec fn chain_outcome(
    sources: Seq<SourceKind>,
    outcomes: Seq<Result<AwsCredentialsView, CredentialsErrorView>>,
) -> Result<AwsCredentialsView, CredentialsErrorView> {
    if exists|i: int| is_first_success(outcomes, i) {
        outcomes[choose|i: int| is_first_success(outcomes, i)]
    } else {
        Err(exhausted(recorded_failures(sources, outcomes, sources.len() as int)))
    }
}

/// The step at which a walk ends, when the sources that it asks answer with
/// `outcomes`, one after the other.
pub open spec fn walk_end(
    walk: ResolutionView,
    outcomes: Seq<Result<AwsCredentialsView, CredentialsErrorView>>,
) -> ChainStepView
    decreases outcomes.len(),
{
    if outcomes.len() == 0 {
        ChainStepView::Finished
    } else {
        let (next, step) = on_outcome(walk, outcomes[0]);
        if step is Try {
            walk_end(next, outcomes.drop_first())
        } else {
            step
        }
    }
}

/// The number of sources that a walk asks from here on, when they answer
/// with `outcomes`.
pub open spec fn sources_asked(
    walk: ResolutionView,
    outcomes: Seq<Result<AwsCredentialsView, CredentialsErrorView>>,
) -> nat
    decreases outcomes.len(),
{
    if outcomes.len() == 0 {
        0
    } else {
        let (next, step) = on_outcome(walk, outcomes[0]);
        if step is Try {
            1 + sources_asked(next, outcomes.drop_first())
        } else {
            0
        }
    }
}

/// A walk that has asked the first `k` sources in vain ends as the chain
/// owes, and asks no source beyond the first that has credentials.
proof fn lemma_walk_from(
    sources: Seq<SourceKind>,
    outcomes: Seq<Result<AwsCredentialsView, CredentialsErrorView>>,
    k: int,
)
    requires
        sources.len() == outcomes.len(),
        0 <= k < sources.len(),
        forall|j: int| 0 <= j < k ==> outcomes[j] is Err,
    ensures
        walk_end(
            ResolutionView {
                sources,
                failures: recorded_failures(sources, outcomes, k),
                finished: false,
            },
            outcomes.subrange(k, outcomes.len() as int),
        ) == ChainStepView::Done(chain_outcome(sources, outcomes)),
        is_first_success(outcomes, k + sources_asked(
            ResolutionView {
                sources,
                failures: recorded_failures(sources, outcomes, k),
                finished: false,
            },
            outcomes.subrange(k, outcomes.len() as int),
        )) || (forall|j: int| 0 <= j < outcomes.len() ==> outcomes[j] is Err),
    decreases sources.len() - k,
{
    let walk = ResolutionView {
        sources,
        failures: recorded_failures(sources, outcomes, k),
        finished: false,
    };
    let rest = outcomes.subrange(k, outcomes.len() as int);
    assert(rest[0] == outcomes[k]);
    match outcomes[k] {
        Ok(credentials) => {
            assert(is_first_success(outcomes, k));
            let chosen = choose|i: int| is_first_success(outcomes, i);
            assert(chosen == k) by {
                if chosen < k {
                    assert(outcomes[chosen] is Err);
                }
                if k < chosen {
                    assert(outcomes[k] is Err);
                }
            }
        },
        Err(error) => {
            let failures = walk.failures.push(recorded(sources[k], error));
            assert(failures =~= recorded_failures(sources, outcomes, k + 1));
            if k + 1 < sources.len() {
                assert(rest.drop_first() =~= outcomes.subrange(k + 1, outcomes.len() as int));
                lemma_walk_from(sources, outcomes, k + 1);
            } else {
                assert forall|i: int| !is_first_success(outcomes, i) by {
                    if 0 <= i < outcomes.len() {
                        assert(outcomes[i] is Err);
                    }
                }
            }
        },
    }
}

/// A walk along a chain ends with the credentials of the first source that
/// has any, without asking any source after it; and if no source has any, it
/// ends with a failure that lists the failures of all sources, in order.
pub proof fn lemma_chain_resolves(
    sources: Seq<SourceKind>,
    outcomes: Seq<Result<AwsCredentialsView, CredentialsErrorView>>,
)
    requires
        sources.len() == outcomes.len(),
        sources.len() >= 1,
    ensures
        on_start(sources).1 == ChainStepView::Try(sources[0]),
        walk_end(on_start(sources).0, outcomes) == ChainStepView::Done(
            chain_outcome(sources, outcomes),
        ),
        is_first_success(outcomes, sources_asked(on_start(sources).0, outcomes) as int) || (
        forall|j: int| 0 <= j < outcomes.len() ==> outcomes[j] is Err),
        (forall|j: int| 0 <= j < outcomes.len() ==> outcomes[j] is Err) ==> chain_outcome(
            sources,
            outcomes,
        ) == Err::<AwsCredentialsView, CredentialsErrorView>(
            exhausted(recorded_failures(sources, outcomes, sources.len() as int)),
        ),
{
    assert(recorded_failures(sources, outcomes, 0) =~= Seq::empty());
    assert(outcomes.subrange(0, outcomes.len() as int) =~= outcomes);
    lemma_walk_from(sources, outcomes, 0);
    if forall|j: int| 0 <= j < outcomes.len() ==> outcomes[j] is Err {
        assert forall|i: int| !is_first_success(outcomes, i) by {
            if 0 <= i < outcomes.len() {
                assert(outcomes[i] is Err);
            }
        }
    }
}

/// A walk stays a walk, and never drops or reorders a failure on record.
pub proof fn lemma_walk_preserved(
    pre: ResolutionView,
    outcome: Result<AwsCredentialsView, CredentialsErrorView>,
)
    requires
        is_walk(pre),
    ensures
        is_walk(on_outcome(pre, outcome).0),
        on_outcome(pre, outcome).0.sources == pre.sources,
        pre.failures.is_prefix_of(on_outcome(pre, outcome).0.failures),
{
}

} // verus!
