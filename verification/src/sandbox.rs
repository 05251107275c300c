//! The isolation layer: which files an operation may still reach once it is
//! locked in, and the order in which a sandbox is built, opened up and locked.
//!
//! The platform's isolation primitive is driven from outside this library.
//! [`Setup`] decides what it is asked to do next, from how the last request
//! ended.

use vstd::prelude::*;
use vstd::string::*;

verus! {

/// How a file may be reached from inside the sandbox.
#[derive(Clone, Copy, Debug, PartialEq, Eq, Structural)]
pub enum AccessMode {
    Read,
    Write,
}

/// One path that stays reachable once the sandbox is locked.
#[derive(Clone, Debug, PartialEq, Eq)]
pub struct Exception {
    pub path: String,
    pub mode: AccessMode,
}

/// The mathematical value of an [`Exception`].
pub struct ExceptionView {
    pub path: Seq<char>,
    pub mode: AccessMode,
}

impl View for Exception {
    type V = ExceptionView;

    open spec fn view(&self) -> ExceptionView {
        ExceptionView { path: self.path@, mode: self.mode }
    }
}

impl DeepView for Exception {
    type V = ExceptionView;

    open spec fn deep_view(&self) -> ExceptionView {
        self@
    }
}

impl Exception {
    pub fn read(path: &str) -> (exception: Exception)
        ensures
            exception@ == (ExceptionView { path: path@, mode: AccessMode::Read }),
    {
        Exception { path: String::from_str(path), mode: AccessMode::Read }
    }

    pub fn write(path: &str) -> (exception: Exception)
        ensures
            exception@ == (ExceptionView { path: path@, mode: AccessMode::Write }),
    {
        Exception { path: String::from_str(path), mode: AccessMode::Write }
    }

    /// A second value for the same exception.
    pub fn duplicate(&self) -> (exception: Exception)
        ensures
            exception@ == self@,
    {
        Exception { path: self.path.clone(), mode: self.mode }
    }
}

/// Whether operations run isolated.
#[derive(Clone, Copy, Debug, PartialEq, Eq, Structural)]
pub enum Isolation {
    Active,
    Disabled,
}

/// Isolation was asked for on a platform that has no isolation primitive.
#[derive(Clone, Copy, Debug, PartialEq, Eq, Structural)]
pub struct Unsupported;

/// Settles whether operations run isolated. Asking for isolation where the
/// platform cannot give it is refused; it never degrades to running without.
pub fn select_isolation(requested: bool, supported: bool) -> (choice: Result<Isolation, Unsupported>)
    ensures
        choice == (if !requested {
            Ok::<Isolation, Unsupported>(Isolation::Disabled)
        } else if supported {
            Ok(Isolation::Active)
        } else {
            Err(Unsupported)
        }),
{
    if !requested {
        Ok(Isolation::Disabled)
    } else if supported {
        Ok(Isolation::Active)
    } else {
        Err(Unsupported)
    }
}

/// The request that failed while a sandbox was set up.
#[derive(Clone, Copy, Debug, PartialEq, Eq, Structural)]
pub enum SetupFault {
    /// The context could not be created.
    Create,
    /// The exception with this index was refused.
    Grant(usize),
    /// The sandbox could not be activated.
    Lock,
}

impl SetupFault {
    pub open spec fn spec_note(self) -> Seq<char> {
        match self {
            SetupFault::Create => "Initialization failed"@,
            SetupFault::Grant(_) => "Couldn't add a sandbox exception"@,
            SetupFault::Lock => "Couldn't activate sandbox"@,
        }
    }

    /// The line that describes the fault in a cause chain.
    pub fn note(self) -> (text: String)
        ensures
            text@ == self.spec_note(),
    {
        match self {
            SetupFault::Create => String::from_str("Initialization failed"),
            SetupFault::Grant(_) => String::from_str("Couldn't add a sandbox exception"),
            SetupFault::Lock => String::from_str("Couldn't activate sandbox"),
        }
    }
}

/// Where a sandbox's setup stands.
#[derive(Clone, Copy, Debug, PartialEq, Eq, Structural)]
pub enum Phase {
    /// The context was asked for.
    Creating,
    /// The exception with this index was asked for; those before it are granted.
    Granting(usize),
    /// Every exception is granted and the lock was asked for.
    Locking,
    /// The sandbox is active, for good.
    Locked,
    Aborted(SetupFault),
}

/// What the isolation primitive is asked to do next.
#[derive(Clone, Debug, PartialEq, Eq)]
pub enum SandboxAction {
    /// Create a fresh context that can reach nothing.
    Create,
    /// Let the context reach one more path.
    Grant(Exception),
    /// Activate the restrictions on the calling thread. Irreversible.
    Lock,
    /// Nothing: the sandbox is locked and the operation may run.
    Ready,
    /// Nothing: setup has failed.
    Abort(SetupFault),
}

/// The mathematical value of a [`SandboxAction`].
pub enum SandboxActionView {
    Create,
    Grant(ExceptionView),
    Lock,
    Ready,
    Abort(SetupFault),
}

impl View for SandboxAction {
    type V = SandboxActionView;

    open spec fn view(&self) -> SandboxActionView {
        match self {
            SandboxAction::Create => SandboxActionView::Create,
            SandboxAction::Grant(exception) => SandboxActionView::Grant(exception@),
            SandboxAction::Lock => SandboxActionView::Lock,
            SandboxAction::Ready => SandboxActionView::Ready,
            SandboxAction::Abort(fault) => SandboxActionView::Abort(*fault),
        }
    }
}

/// The setup of one sandbox: the exceptions it is to grant, and how far it is.
#[derive(Clone, Debug, PartialEq, Eq)]
pub struct Setup {
    pub exceptions: Vec<Exception>,
    pub phase: Phase,
}

/// The mathematical value of a [`Setup`].
pub struct SetupView {
    pub exceptions: Seq<ExceptionView>,
    pub phase: Phase,
}

impl View for Setup {
    type V = SetupView;

    open spec fn view(&self) -> SetupView {
        SetupView { exceptions: self.exceptions.deep_view(), phase: self.phase }
    }
}

impl SetupView {
    /// The request for the exception with index `next`, or for the lock once
    /// none is left.
    pub open spec fn request(self, next: int) -> (SetupView, SandboxActionView) {
        if 0 <= next < self.exceptions.len() {
            (
                SetupView { phase: Phase::Granting(next as usize), ..self },
                SandboxActionView::Grant(self.exceptions[next]),
            )
        } else {
            (SetupView { phase: Phase::Locking, ..self }, SandboxActionView::Lock)
        }
    }

    pub open spec fn abort(self, fault: SetupFault) -> (SetupView, SandboxActionView) {
        (SetupView { phase: Phase::Aborted(fault), ..self }, SandboxActionView::Abort(fault))
    }

    /// The setup after the last request ended well (`granted`) or not.
    pub open spec fn step(self, granted: bool) -> (SetupView, SandboxActionView) {
        match self.phase {
            Phase::Creating => if granted {
                self.request(0)
            } else {
                self.abort(SetupFault::Create)
            },
            Phase::Granting(index) => if !granted {
                self.abort(SetupFault::Grant(index))
            } else if index < self.exceptions.len() {
                self.request(index + 1)
            } else {
                self.request(index as int)
            },
            Phase::Locking => if granted {
                (SetupView { phase: Phase::Locked, ..self }, SandboxActionView::Ready)
            } else {
                self.abort(SetupFault::Lock)
            },
            Phase::Locked => (self, SandboxActionView::Ready),
            Phase::Aborted(fault) => (self, SandboxActionView::Abort(fault)),
        }
    }

    /// The setup after the context was created and the first `granted`
    /// exceptions were granted, with the request that is then open.
    pub open spec fn after_grants(self, granted: nat) -> (SetupView, SandboxActionView)
        decreases granted,
    {
        if granted == 0 {
            (SetupView { phase: Phase::Creating, ..self }).step(true)
        } else {
            self.after_grants((granted - 1) as nat).0.step(true)
        }
    }
}

impl Setup {
    /// Starts the setup of a sandbox that grants exactly `exceptions`. The
    /// first request is for the context.
    pub fn build(exceptions: Vec<Exception>) -> (started: (Setup, SandboxAction))
        ensures
            started.0@ == (SetupView {
                exceptions: exceptions.deep_view(),
                phase: Phase::Creating,
            }),
            started.1@ == SandboxActionView::Create,
    {
        (Setup { exceptions, phase: Phase::Creating }, SandboxAction::Create)
    }

    fn request(self, next: usize) -> (requested: (Setup, SandboxAction))
        ensures
            (requested.0@, requested.1@) == self@.request(next as int),
    {
        if next < self.exceptions.len() {
            let exception = self.exceptions[next].duplicate();
            (
                Setup { exceptions: self.exceptions, phase: Phase::Granting(next) },
                SandboxAction::Grant(exception),
            )
        } else {
            (Setup { exceptions: self.exceptions, phase: Phase::Locking }, SandboxAction::Lock)
        }
    }

    /// Takes how the last request ended and says what to ask for next.
    pub fn step(self, granted: bool) -> (next: (Setup, SandboxAction))
        ensures
            (next.0@, next.1@) == self@.step(granted),
    {
        match self.phase {
            Phase::Creating => {
                if granted {
                    self.request(0)
                } else {
                    let fault = SetupFault::Create;
                    (
                        Setup { exceptions: self.exceptions, phase: Phase::Aborted(fault) },
                        SandboxAction::Abort(fault),
                    )
                }
            },
            Phase::Granting(index) => {
                if !granted {
                    let fault = SetupFault::Grant(index);
                    (
                        Setup { exceptions: self.exceptions, phase: Phase::Aborted(fault) },
                        SandboxAction::Abort(fault),
                    )
                } else if index < self.exceptions.len() {
                    self.request(index + 1)
                } else {
                    self.request(index)
                }
            },
            Phase::Locking => {
                if granted {
                    (
                        Setup { exceptions: self.exceptions, phase: Phase::Locked },
                        SandboxAction::Ready,
                    )
                } else {
                    let fault = SetupFault::Lock;
                    (
                        Setup { exceptions: self.exceptions, phase: Phase::Aborted(fault) },
                        SandboxAction::Abort(fault),
                    )
                }
            },
            Phase::Locked => (self, SandboxAction::Ready),
            Phase::Aborted(fault) => (self, SandboxAction::Abort(fault)),
        }
    }
}

/// While exceptions are left, the open request is for the next one in order;
/// the lock is asked for exactly when all of them are granted.
pub proof fn lemma_lock_follows_every_grant(setup: SetupView, granted: nat)
    requires
        granted <= setup.exceptions.len(),
        setup.exceptions.len() <= usize::MAX,
    ensures
        setup.after_grants(granted).0.exceptions == setup.exceptions,
        granted < setup.exceptions.len() ==> setup.after_grants(granted) == (
            SetupView { phase: Phase::Granting(granted as usize), ..setup },
            SandboxActionView::Grant(setup.exceptions[granted as int]),
        ),
        granted == setup.exceptions.len() ==> setup.after_grants(granted) == (
            SetupView { phase: Phase::Locking, ..setup },
            SandboxActionView::Lock,
        ),
    decreases granted,
{
    if granted > 0 {
        lemma_lock_follows_every_grant(setup, (granted - 1) as nat);
    }
}

/// Once locked, a sandbox stays locked and is never asked to lock again: the
/// lock is taken at most once, and the exceptions no longer change.
pub proof fn lemma_locked_is_final(setup: SetupView, granted: bool)
    requires
        setup.phase == Phase::Locked,
    ensures
        setup.step(granted) == (setup, SandboxActionView::Ready),
{
}

/// A refused request ends the setup: whatever is reported afterwards, the
/// sandbox is not reported ready.
pub proof fn lemma_aborted_is_final(setup: SetupView, fault: SetupFault, granted: bool)
    requires
        setup.phase == Phase::Aborted(fault),
    ensures
        setup.step(granted) == (setup, SandboxActionView::Abort(fault)),
{
}

} // verus!
