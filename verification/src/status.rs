//! Terminal status codes, the closed set of failure kinds, and the rule that
//! collapses a handler's result into the one status the host is given.

use vstd::prelude::*;
use vstd::string::*;

verus! {

/// What an entry point hands back to the host.
#[derive(Clone, Copy, Debug, PartialEq, Eq, Structural)]
pub enum Status {
    Success,
    AuthError,
    UserUnknown,
    Ignore,
    CredentialRecoveryError,
}

/// A status that a failure may be tagged with: every terminal status but
/// `Success`, so that no failure can be turned into a success by its tag.
#[derive(Clone, Copy, Debug, PartialEq, Eq, Structural)]
pub enum Denial {
    AuthError,
    UserUnknown,
    Ignore,
    CredentialRecoveryError,
}

impl Denial {
    /// The terminal status that this tag stands for.
    pub open spec fn status(self) -> Status {
        match self {
            Denial::AuthError => Status::AuthError,
            Denial::UserUnknown => Status::UserUnknown,
            Denial::Ignore => Status::Ignore,
            Denial::CredentialRecoveryError => Status::CredentialRecoveryError,
        }
    }

    pub fn to_status(self) -> (status: Status)
        ensures
            status == self.status(),
            status != Status::Success,
    {
        match self {
            Denial::AuthError => Status::AuthError,
            Denial::UserUnknown => Status::UserUnknown,
            Denial::Ignore => Status::Ignore,
            Denial::CredentialRecoveryError => Status::CredentialRecoveryError,
        }
    }
}

/// Why an operation of a module failed.
#[derive(Clone, Copy, Debug, PartialEq, Eq, Structural)]
pub enum ErrorKind {
    MissingArgument,
    UnknownOrUnreadableIdentity,
    InvalidUsername,
    StoreReadFailure,
    StoreWriteFailure,
    StoreParseFailure,
    CryptoVerifyFailure,
    SandboxSetupFailure,
    WorkerPanicked,
    /// The host's own call failed.
    HostFailure,
    /// The host's secret-entry channel returned nothing.
    SecretUnavailable,
}

impl ErrorKind {
    /// The one-line description of a kind.
    pub open spec fn spec_message(self) -> Seq<char> {
        match self {
            ErrorKind::MissingArgument => "A required module argument is missing"@,
            ErrorKind::UnknownOrUnreadableIdentity => "User not known"@,
            ErrorKind::InvalidUsername => "Username has disallowed characters"@,
            ErrorKind::StoreReadFailure => "Couldn't read the store"@,
            ErrorKind::StoreWriteFailure => "Couldn't write to the store"@,
            ErrorKind::StoreParseFailure => "Couldn't deserialize the store"@,
            ErrorKind::CryptoVerifyFailure => "Couldn't verify password"@,
            ErrorKind::SandboxSetupFailure => "Couldn't build sandbox"@,
            ErrorKind::WorkerPanicked => "A panic happened in the sandboxed thread"@,
            ErrorKind::HostFailure => "Internal PAM error"@,
            ErrorKind::SecretUnavailable => "Couldn't read password"@,
        }
    }

    pub fn message(self) -> (text: String)
        ensures
            text@ == self.spec_message(),
    {
        match self {
            ErrorKind::MissingArgument => String::from_str("A required module argument is missing"),
            ErrorKind::UnknownOrUnreadableIdentity => String::from_str("User not known"),
            ErrorKind::InvalidUsername => String::from_str("Username has disallowed characters"),
            ErrorKind::StoreReadFailure => String::from_str("Couldn't read the store"),
            ErrorKind::StoreWriteFailure => String::from_str("Couldn't write to the store"),
            ErrorKind::StoreParseFailure => String::from_str("Couldn't deserialize the store"),
            ErrorKind::CryptoVerifyFailure => String::from_str("Couldn't verify password"),
            ErrorKind::SandboxSetupFailure => String::from_str("Couldn't build sandbox"),
            ErrorKind::WorkerPanicked => String::from_str(
                "A panic happened in the sandboxed thread",
            ),
            ErrorKind::HostFailure => String::from_str("Internal PAM error"),
            ErrorKind::SecretUnavailable => String::from_str("Couldn't read password"),
        }
    }
}

/// A failure: its kind, the status it must map to if that is not the generic
/// one, and the chain of causes below it, oldest first.
#[derive(Clone, Debug, PartialEq, Eq)]
pub struct Failure {
    pub kind: ErrorKind,
    pub tag: Option<Denial>,
    pub causes: Vec<String>,
}

/// The mathematical value of a [`Failure`].
pub struct FailureView {
    pub kind: ErrorKind,
    pub tag: Option<Denial>,
    pub causes: Seq<Seq<char>>,
}

impl View for Failure {
    type V = FailureView;

    open spec fn view(&self) -> FailureView {
        FailureView { kind: self.kind, tag: self.tag, causes: self.causes.deep_view() }
    }
}

impl FailureView {
    /// A failure of the given kind with no tag and no cause.
    pub open spec fn bare(kind: ErrorKind) -> FailureView {
        FailureView { kind, tag: None, causes: Seq::empty() }
    }

    pub open spec fn tagged(self, tag: Denial) -> FailureView {
        FailureView { tag: Some(tag), ..self }
    }

    pub open spec fn noted(self, note: Seq<char>) -> FailureView {
        FailureView { causes: self.causes.push(note), ..self }
    }

    /// The failure seen from one level up: the old kind's description joins
    /// the causes, the tag stays.
    pub open spec fn lifted(self, kind: ErrorKind) -> FailureView {
        FailureView { kind, tag: self.tag, causes: self.causes.push(self.kind.spec_message()) }
    }

    /// The status a failure maps to: its tag if it has one, else the generic
    /// authentication failure.
    pub open spec fn status(self) -> Status {
        match self.tag {
            Some(tag) => tag.status(),
            None => Status::AuthError,
        }
    }
}

impl Failure {
    pub fn new(kind: ErrorKind) -> (failure: Failure)
        ensures
            failure@ == FailureView::bare(kind),
    {
        let failure = Failure { kind, tag: None, causes: Vec::new() };
        assert(failure.causes.deep_view() =~= Seq::empty());
        failure
    }

    /// Tags the failure with the status it must map to. A later tag replaces
    /// an earlier one.
    pub fn attach(self, tag: Denial) -> (failure: Failure)
        ensures
            failure@ == self@.tagged(tag),
    {
        Failure { kind: self.kind, tag: Some(tag), causes: self.causes }
    }

    /// Adds a line to the cause chain.
    pub fn attach_printable(self, note: &str) -> (failure: Failure)
        ensures
            failure@ == self@.noted(note@),
    {
        let mut causes = self.causes;
        let ghost before = causes.deep_view();
        causes.push(String::from_str(note));
        assert(causes.deep_view() =~= before.push(note@));
        Failure { kind: self.kind, tag: self.tag, causes }
    }

    /// Puts a new kind on top of the failure.
    pub fn change_context(self, kind: ErrorKind) -> (failure: Failure)
        ensures
            failure@ == self@.lifted(kind),
    {
        let mut causes = self.causes;
        let ghost before = causes.deep_view();
        causes.push(self.kind.message());
        assert(causes.deep_view() =~= before.push(self.kind.spec_message()));
        Failure { kind, tag: self.tag, causes }
    }

    pub fn status(&self) -> (status: Status)
        ensures
            status == self@.status(),
            status != Status::Success,
    {
        match self.tag {
            Some(tag) => tag.to_status(),
            None => Status::AuthError,
        }
    }
}

/// The status of a handler's result: `Success` for a success, else the
/// failure's own status.
pub open spec fn spec_outcome(result: Result<(), FailureView>) -> Status {
    match result {
        Ok(_) => Status::Success,
        Err(failure) => failure.status(),
    }
}

/// The view of a handler's result.
pub open spec fn result_view(result: Result<(), Failure>) -> Result<(), FailureView> {
    match result {
        Ok(_) => Ok(()),
        Err(failure) => Err(failure@),
    }
}

/// Collapses a handler's result into the status for the host.
pub fn outcome(result: &Result<(), Failure>) -> (status: Status)
    ensures
        status == spec_outcome(result_view(*result)),
        status == Status::Success <==> result is Ok,
{
    match result {
        Ok(_) => Status::Success,
        Err(failure) => failure.status(),
    }
}

/// No failure maps to `Success`, whatever its kind, tag and causes.
pub proof fn lemma_failure_never_succeeds(failure: FailureView)
    ensures
        failure.status() != Status::Success,
        spec_outcome(Err(failure)) != Status::Success,
{
}

/// A failure without a tag maps to `AuthError`; a tagged one to its tag.
pub proof fn lemma_outcome_follows_tag(failure: FailureView)
    ensures
        failure.tag is None ==> spec_outcome(Err(failure)) == Status::AuthError,
        failure.tag matches Some(tag) ==> spec_outcome(Err(failure)) == tag.status(),
{
}

} // verus!
