//! The typed failures that every credential source reports.

use vstd::prelude::*;

verus! {

/// What went wrong, independent of the wording of the message.
#[derive(Clone, Copy, Debug, PartialEq, Eq, Structural)]
pub enum ErrorKind {
    /// The connection could not be made or broke while in use.
    Network,
    /// The request did not complete within its time limit.
    Timeout,
    /// The server answered with the given status, which is not a success.
    HttpStatus(u16),
    /// A response body did not have the expected shape.
    Parse,
    /// Every source of a chain was tried and none had credentials.
    NoCredentialsAvailable,
    /// A request could not be built from the configured endpoint.
    Configuration,
}

/// The source a chain entry draws on. The variants are listed from the
/// highest priority to the lowest.
#[derive(Clone, Copy, Debug, PartialEq, Eq, Structural)]
pub enum SourceKind {
    Static,
    Environment,
    ProfileFile,
    Container,
    InstanceMetadata,
    AssumeRole,
}

/// The failure of one source, as recorded by a chain that went on to the next.
#[derive(Debug, PartialEq, Eq)]
pub struct SourceFailure {
    pub source: SourceKind,
    pub kind: ErrorKind,
    pub message: String,
}

/// Mathematical value of a [`SourceFailure`].
pub struct SourceFailureView {
    pub source: SourceKind,
    pub kind: ErrorKind,
    pub message: Seq<char>,
}

impl View for SourceFailure {
    type V = SourceFailureView;

    open spec fn view(&self) -> SourceFailureView {
        SourceFailureView { source: self.source, kind: self.kind, message: self.message@ }
    }
}

impl Clone for SourceFailure {
    fn clone(&self) -> (r: Self)
        ensures
            r@ == self@,
    {
        SourceFailure { source: self.source, kind: self.kind, message: self.message.clone() }
    }
}

/// A failure to provide credentials. It never carries any part of a credential.
#[derive(Debug, PartialEq, Eq)]
pub struct CredentialsError {
    pub kind: ErrorKind,
    pub message: String,
    /// The failures gathered by a chain, in the order in which the sources
    /// were tried; empty for the failure of a single source.
    pub causes: Vec<SourceFailure>,
}

/// Mathematical value of a [`CredentialsError`].
pub struct CredentialsErrorView {
    pub kind: ErrorKind,
    pub message: Seq<char>,
    pub causes: Seq<SourceFailureView>,
}

/// The values of a list of recorded failures, in order.
pub open spec fn failure_views(failures: Seq<SourceFailure>) -> Seq<SourceFailureView> {
    Seq::new(failures.len(), |i: int| failures[i]@)
}

impl View for CredentialsError {
    type V = CredentialsErrorView;

    open spec fn view(&self) -> CredentialsErrorView {
        CredentialsErrorView {
            kind: self.kind,
            message: self.message@,
            causes: failure_views(self.causes@),
        }
    }
}

/// The failure of a single source with the given kind and message.
pub open spec fn failure(kind: ErrorKind, message: Seq<char>) -> CredentialsErrorView {
    CredentialsErrorView { kind, message, causes: Seq::empty() }
}

/// Copies a list of recorded failures.
pub fn clone_failures(failures: &Vec<SourceFailure>) -> (r: Vec<SourceFailure>)
    ensures
        failure_views(r@) == failure_views(failures@),
{
    let mut r: Vec<SourceFailure> = Vec::new();
    let mut i: usize = 0;
    while i < failures.len()
        invariant
            i <= failures.len(),
            r@.len() == i,
            forall|j: int| 0 <= j < i ==> r@[j]@ == failures@[j]@,
        decreases failures.len() - i,
    {
        r.push(failures[i].clone());
        i += 1;
    }
    assert(failure_views(r@) =~= failure_views(failures@));
    r
}

impl Clone for CredentialsError {
    fn clone(&self) -> (r: Self)
        ensures
            r@ == self@,
    {
        CredentialsError {
            kind: self.kind,
            message: self.message.clone(),
            causes: clone_failures(&self.causes),
        }
    }
}

impl CredentialsError {
    /// A failure of a single source, with the given kind and message.
    pub fn new(kind: ErrorKind, message: &str) -> (r: Self)
        ensures
            r@ == failure(kind, message@),
    {
        let r = CredentialsError { kind, message: message.to_owned(), causes: Vec::new() };
        assert(r@.causes =~= Seq::empty());
        r
    }

    /// The record that a chain keeps of this failure of `source`.
    pub fn as_failure_of(&self, source: SourceKind) -> (r: SourceFailure)
        ensures
            r@ == (SourceFailureView { source, kind: self.kind, message: self.message@ }),
    {
        SourceFailure { source, kind: self.kind, message: self.message.clone() }
    }
}

} // verus!
