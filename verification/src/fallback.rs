//! The fallback factor: a user is let in as long as no marker file of theirs
//! exists, and the first use leaves one behind.
//!
//! The host and the file system are reached from outside this library. A
//! [`Session`] decides, from what came back last, what they are asked next.

use vstd::prelude::*;
use vstd::string::*;
use crate::path::{
    is_single_normal, joined, ratchet_accepts, ratchet_single, PathComponent, PushPathComponent,
};
use crate::sandbox::{AccessMode, Exception, ExceptionView, SetupFault};
use crate::status::{
    spec_outcome, Denial, ErrorKind, Failure, FailureView, Status,
};
use crate::utils::{
    contains_flag, extract_named_value, get_username, has_flag, has_prefix, named_value,
    reply_view, resolved, tokens, HostReply,
};

verus! {

/// The arguments of the module.
#[derive(Clone, Debug, PartialEq, Eq)]
pub struct Args {
    /// The directory that holds the marker files.
    pub user_store: String,
    /// Whether the marker is to be removed rather than left.
    pub reset: bool,
}

/// The failure of an invocation without a `store=` argument.
pub open spec fn missing_store() -> FailureView {
    FailureView::bare(ErrorKind::MissingArgument).noted("There is no `store=/<dir>` given."@)
}

/// The arguments that the tokens hold: the directory after the first
/// `store=`, and whether a bare `reset` is among them.
pub open spec fn spec_args(args: Seq<Seq<char>>) -> Result<(Seq<char>, bool), FailureView> {
    match named_value(args, "store="@) {
        Some(store) => Ok((store, has_flag(args, "reset"@))),
        None => Err(missing_store()),
    }
}

impl Args {
    /// Reads the arguments out of the host's tokens.
    pub fn try_from(value: Vec<String>) -> (parsed: Result<Args, Failure>)
        ensures
            match parsed {
                Ok(args) => spec_args(tokens(value@)) == Ok::<(Seq<char>, bool), FailureView>(
                    (args.user_store@, args.reset),
                ),
                Err(failure) => spec_args(tokens(value@)) == Err::<
                    (Seq<char>, bool),
                    FailureView,
                >(failure@),
            },
    {
        let user_store = match extract_named_value(value.as_slice(), "store=") {
            Some(store) => String::from_str(store),
            None => {
                return Err(
                    Failure::new(ErrorKind::MissingArgument).attach_printable(
                        "There is no `store=/<dir>` given.",
                    ),
                );
            },
        };
        let reset = contains_flag(value.as_slice(), "reset");
        Ok(Args { user_store, reset })
    }
}

/// The marker file of a user: the entry of that name in the store, for a name
/// that is a single normal path component and that `path_ratchet` accepts
/// too. Any other name is refused.
pub open spec fn spec_user_file(dir: Seq<char>, username: Seq<char>) -> Result<
    Seq<char>,
    FailureView,
> {
    if is_single_normal(username) && ratchet_single(username) {
        Ok(joined(dir, username))
    } else {
        Err(FailureView::bare(ErrorKind::InvalidUsername))
    }
}

/// The marker file of a user, given whether `path_ratchet` accepts the name.
pub open spec fn spec_user_file_if(dir: Seq<char>, username: Seq<char>, accepted: bool) -> Result<
    Seq<char>,
    FailureView,
> {
    if is_single_normal(username) && accepted {
        Ok(joined(dir, username))
    } else {
        Err(FailureView::bare(ErrorKind::InvalidUsername))
    }
}

/// The path of the marker file of `username` in the store `dir`, where
/// `accepted` says whether `path_ratchet` takes the name for a single
/// component.
pub fn user_file_if(dir: String, username: String, accepted: bool) -> (file: Result<
    String,
    Failure,
>)
    ensures
        match file {
            Ok(path) => spec_user_file_if(dir@, username@, accepted) == Ok::<
                Seq<char>,
                FailureView,
            >(path@),
            Err(failure) => spec_user_file_if(dir@, username@, accepted) == Err::<
                Seq<char>,
                FailureView,
            >(failure@),
        },
{
    let component = match PathComponent::new(username.as_str()) {
        Some(component) => component,
        None => return Err(Failure::new(ErrorKind::InvalidUsername)),
    };
    if !accepted {
        return Err(Failure::new(ErrorKind::InvalidUsername));
    }
    let mut user_data_file = dir;
    user_data_file.push_component(component);
    Ok(user_data_file)
}

/// The path of the marker file of `username` in the store `dir`.
pub fn user_file(dir: String, username: String) -> (file: Result<String, Failure>)
    ensures
        match file {
            Ok(path) => spec_user_file(dir@, username@) == Ok::<Seq<char>, FailureView>(path@),
            Err(failure) => spec_user_file(dir@, username@) == Err::<Seq<char>, FailureView>(
                failure@,
            ),
        },
        !is_single_normal(username@) ==> file is Err,
{
    let accepted = ratchet_accepts(username.as_str());
    user_file_if(dir, username, accepted)
}

/// How the attempt to create a marker file ended.
#[derive(Clone, Copy, Debug, PartialEq, Eq, Structural)]
pub enum CreateOutcome {
    /// The file was not there and is now.
    Created,
    /// The file was there already.
    AlreadyExists,
    /// The file could not be created.
    Failed,
}

/// How the attempt to remove a marker file ended.
#[derive(Clone, Copy, Debug, PartialEq, Eq, Structural)]
pub enum RemoveOutcome {
    /// The file was there and is gone.
    Removed,
    /// The file was not there.
    Absent,
    /// The file could not be removed.
    Failed,
}

/// What leaving the marker comes to: a success if it was created; a denial
/// if it was there already; a failure if it could not be created.
pub open spec fn spec_set(outcome: CreateOutcome) -> Result<(), FailureView> {
    match outcome {
        CreateOutcome::Created => Ok(()),
        CreateOutcome::AlreadyExists => Err(
            FailureView::bare(ErrorKind::StoreWriteFailure).noted(
                "Couldn't authenticate the user"@,
            ).tagged(Denial::AuthError),
        ),
        CreateOutcome::Failed => Err(
            FailureView::bare(ErrorKind::StoreWriteFailure).noted(
                "Couldn't authenticate the user"@,
            ),
        ),
    }
}

/// What removing the marker comes to: a success if it is gone, whether it
/// was there or not; a failure if it could not be removed.
pub open spec fn spec_reset(outcome: RemoveOutcome) -> Result<(), FailureView> {
    match outcome {
        RemoveOutcome::Removed => Ok(()),
        RemoveOutcome::Absent => Ok(()),
        RemoveOutcome::Failed => Err(
            FailureView::bare(ErrorKind::StoreWriteFailure).noted(
                "Couldn't reset the account authentication state"@,
            ),
        ),
    }
}

/// Settles an authentication from how the creation of the marker ended.
pub fn set(outcome: CreateOutcome) -> (done: Result<(), Failure>)
    ensures
        crate::status::result_view(done) == spec_set(outcome),
{
    match outcome {
        CreateOutcome::Created => Ok(()),
        CreateOutcome::AlreadyExists => Err(
            Failure::new(ErrorKind::StoreWriteFailure).attach_printable(
                "Couldn't authenticate the user",
            ).attach(Denial::AuthError),
        ),
        CreateOutcome::Failed => Err(
            Failure::new(ErrorKind::StoreWriteFailure).attach_printable(
                "Couldn't authenticate the user",
            ),
        ),
    }
}

/// Settles a reset from how the removal of the marker ended.
pub fn reset(outcome: RemoveOutcome) -> (done: Result<(), Failure>)
    ensures
        crate::status::result_view(done) == spec_reset(outcome),
{
    match outcome {
        RemoveOutcome::Removed => Ok(()),
        RemoveOutcome::Absent => Ok(()),
        RemoveOutcome::Failed => Err(
            Failure::new(ErrorKind::StoreWriteFailure).attach_printable(
                "Couldn't reset the account authentication state",
            ),
        ),
    }
}

/// The one exception of the module's sandbox: the store, for writing.
pub open spec fn spec_exceptions(store: Seq<char>) -> Seq<ExceptionView> {
    seq![ExceptionView { path: store, mode: AccessMode::Write }]
}

/// Lists what the module's sandbox lets through.
pub fn setup_sandbox(args: &Args) -> (exceptions: Vec<Exception>)
    ensures
        exceptions.deep_view() == spec_exceptions(args.user_store@),
{
    exceptions_for(args.user_store.as_str())
}

fn exceptions_for(store: &str) -> (exceptions: Vec<Exception>)
    ensures
        exceptions.deep_view() == spec_exceptions(store@),
{
    let mut exceptions: Vec<Exception> = Vec::new();
    exceptions.push(Exception::write(store));
    assert(exceptions.deep_view() =~= spec_exceptions(store@));
    exceptions
}

/// The failure of a sandbox that could not be set up.
pub open spec fn sandbox_failure(fault: SetupFault) -> FailureView {
    FailureView::bare(ErrorKind::SandboxSetupFailure).noted(fault.spec_note())
}

/// Where an invocation stands.
#[derive(Clone, Copy, Debug, PartialEq, Eq, Structural)]
pub enum Stage {
    /// The host was asked for the caller's name.
    AwaitIdentity,
    /// The sandbox was asked for.
    AwaitSandbox,
    /// The marker was asked to be created.
    AwaitCreation,
    /// The marker was asked to be removed.
    AwaitRemoval,
    /// The invocation has ended.
    Finished,
}

/// What is asked for next.
#[derive(Debug, PartialEq, Eq)]
pub enum Action {
    /// Ask the host for the caller's name.
    ResolveIdentity,
    /// Build and lock a sandbox with these exceptions, where isolation is on.
    Isolate(Vec<Exception>),
    /// Create the file at this path, failing if it exists.
    CreateMarker(String),
    /// Remove the file at this path.
    RemoveMarker(String),
    /// Nothing: the operation has ended with this result.
    Complete(Result<(), Failure>),
}

/// The mathematical value of an [`Action`].
pub enum ActionView {
    ResolveIdentity,
    Isolate(Seq<ExceptionView>),
    CreateMarker(Seq<char>),
    RemoveMarker(Seq<char>),
    Complete(Result<(), FailureView>),
}

impl View for Action {
    type V = ActionView;

    open spec fn view(&self) -> ActionView {
        match self {
            Action::ResolveIdentity => ActionView::ResolveIdentity,
            Action::Isolate(exceptions) => ActionView::Isolate(exceptions.deep_view()),
            Action::CreateMarker(path) => ActionView::CreateMarker(path@),
            Action::RemoveMarker(path) => ActionView::RemoveMarker(path@),
            Action::Complete(Ok(_)) => ActionView::Complete(Ok(())),
            Action::Complete(Err(failure)) => ActionView::Complete(Err(failure@)),
        }
    }
}

/// What came back from the last request.
#[derive(Debug, PartialEq, Eq)]
pub enum Event {
    /// The host's reply to the question for the caller's name.
    Identity(HostReply),
    /// The sandbox is locked, or isolation is off; or the request that failed.
    Isolated(Result<(), SetupFault>),
    MarkerCreated(CreateOutcome),
    MarkerRemoved(RemoveOutcome),
}

/// The mathematical value of an [`Event`].
pub enum EventView {
    Identity(Result<Option<Seq<u8>>, Denial>),
    Isolated(Result<(), SetupFault>),
    MarkerCreated(CreateOutcome),
    MarkerRemoved(RemoveOutcome),
}

impl View for Event {
    type V = EventView;

    open spec fn view(&self) -> EventView {
        match self {
            Event::Identity(reply) => EventView::Identity(reply_view(*reply)),
            Event::Isolated(result) => EventView::Isolated(*result),
            Event::MarkerCreated(outcome) => EventView::MarkerCreated(*outcome),
            Event::MarkerRemoved(outcome) => EventView::MarkerRemoved(*outcome),
        }
    }
}

/// One invocation of the module.
#[derive(Clone, Debug, PartialEq, Eq)]
pub struct Session {
    pub store: String,
    pub reset: bool,
    pub username: String,
    pub stage: Stage,
}

/// The mathematical value of a [`Session`].
pub struct SessionView {
    pub store: Seq<char>,
    pub reset: bool,
    pub username: Seq<char>,
    pub stage: Stage,
}

impl View for Session {
    type V = SessionView;

    open spec fn view(&self) -> SessionView {
        SessionView {
            store: self.store@,
            reset: self.reset,
            username: self.username@,
            stage: self.stage,
        }
    }
}

impl SessionView {
    pub open spec fn at(self, stage: Stage) -> SessionView {
        SessionView { stage, ..self }
    }

    pub open spec fn complete(self, result: Result<(), FailureView>) -> (SessionView, ActionView) {
        (self.at(Stage::Finished), ActionView::Complete(result))
    }

    /// The invocation after an event, and what is asked for next. The name
    /// is resolved first, then the sandbox is set up, then the marker file is
    /// found and touched. The first failure ends the invocation, and so does
    /// an event that does not answer what was asked.
    pub open spec fn step(self, event: EventView) -> (SessionView, ActionView) {
        match (self.stage, event) {
            (Stage::AwaitIdentity, EventView::Identity(reply)) => match resolved(
                reply,
                ErrorKind::HostFailure,
                ErrorKind::UnknownOrUnreadableIdentity,
            ) {
                Ok(name) => (
                    SessionView { username: name, stage: Stage::AwaitSandbox, ..self },
                    ActionView::Isolate(spec_exceptions(self.store)),
                ),
                Err(failure) => self.complete(Err(failure)),
            },
            (Stage::AwaitSandbox, EventView::Isolated(Ok(_))) => match spec_user_file(
                self.store,
                self.username,
            ) {
                Ok(path) => if self.reset {
                    (self.at(Stage::AwaitRemoval), ActionView::RemoveMarker(path))
                } else {
                    (self.at(Stage::AwaitCreation), ActionView::CreateMarker(path))
                },
                Err(failure) => self.complete(Err(failure)),
            },
            (Stage::AwaitSandbox, EventView::Isolated(Err(fault))) => self.complete(
                Err(sandbox_failure(fault)),
            ),
            (Stage::AwaitCreation, EventView::MarkerCreated(outcome)) => self.complete(
                spec_set(outcome),
            ),
            (Stage::AwaitRemoval, EventView::MarkerRemoved(outcome)) => self.complete(
                spec_reset(outcome),
            ),
            _ => self.complete(Err(FailureView::bare(ErrorKind::HostFailure))),
        }
    }
}

/// Where an invocation starts: with the question for the caller's name, or,
/// without a `store=` argument, at its end, to be ignored by the host.
/// `always_reset` says that the entry point removes the marker whatever the
/// arguments say.
pub open spec fn spec_begin(args: Seq<Seq<char>>, always_reset: bool) -> (SessionView, ActionView) {
    match spec_args(args) {
        Ok((store, reset)) => (
            SessionView {
                store,
                reset: always_reset || reset,
                username: Seq::empty(),
                stage: Stage::AwaitIdentity,
            },
            ActionView::ResolveIdentity,
        ),
        Err(failure) => (
            SessionView {
                store: Seq::empty(),
                reset: always_reset,
                username: Seq::empty(),
                stage: Stage::Finished,
            },
            ActionView::Complete(Err(failure.tagged(Denial::Ignore))),
        ),
    }
}

fn begin(args: Vec<String>, always_reset: bool) -> (started: (Session, Action))
    ensures
        (started.0@, started.1@) == spec_begin(tokens(args@), always_reset),
{
    match Args::try_from(args) {
        Ok(parsed) => (
            Session {
                store: parsed.user_store,
                reset: always_reset || parsed.reset,
                username: String::new(),
                stage: Stage::AwaitIdentity,
            },
            Action::ResolveIdentity,
        ),
        Err(failure) => (
            Session {
                store: String::new(),
                reset: always_reset,
                username: String::new(),
                stage: Stage::Finished,
            },
            Action::Complete(Err(failure.attach(Denial::Ignore))),
        ),
    }
}

/// Starts the invocation that opens a session: the caller's marker is removed.
pub fn start_session(args: Vec<String>) -> (started: (Session, Action))
    ensures
        (started.0@, started.1@) == spec_begin(tokens(args@), true),
{
    begin(args, true)
}

/// Starts an authentication: the caller's marker is left, or, with the
/// argument `reset`, removed.
pub fn auth(args: Vec<String>) -> (started: (Session, Action))
    ensures
        (started.0@, started.1@) == spec_begin(tokens(args@), false),
{
    begin(args, false)
}

/// Closing a session has nothing to do and succeeds.
pub fn close_session() -> (status: Status)
    ensures
        status == Status::Success,
{
    Status::Success
}

impl Session {
    fn complete(self, result: Result<(), Failure>) -> (next: (Session, Action))
        ensures
            (next.0@, next.1@) == self@.complete(crate::status::result_view(result)),
    {
        (
            Session {
                store: self.store,
                reset: self.reset,
                username: self.username,
                stage: Stage::Finished,
            },
            Action::Complete(result),
        )
    }

    /// Takes what came back from the last request and says what to ask next.
    pub fn step(self, event: Event) -> (next: (Session, Action))
        ensures
            (next.0@, next.1@) == self@.step(event@),
    {
        match (self.stage, event) {
            (Stage::AwaitIdentity, Event::Identity(reply)) => {
                match get_username(
                    reply,
                    ErrorKind::HostFailure,
                    ErrorKind::UnknownOrUnreadableIdentity,
                ) {
                    Ok(name) => {
                        let exceptions = exceptions_for(self.store.as_str());
                        (
                            Session {
                                store: self.store,
                                reset: self.reset,
                                username: name,
                                stage: Stage::AwaitSandbox,
                            },
                            Action::Isolate(exceptions),
                        )
                    },
                    Err(failure) => self.complete(Err(failure)),
                }
            },
            (Stage::AwaitSandbox, Event::Isolated(Ok(_))) => {
                match user_file(self.store.clone(), self.username.clone()) {
                    Ok(path) => {
                        if self.reset {
                            (
                                Session {
                                    store: self.store,
                                    reset: self.reset,
                                    username: self.username,
                                    stage: Stage::AwaitRemoval,
                                },
                                Action::RemoveMarker(path),
                            )
                        } else {
                            (
                                Session {
                                    store: self.store,
                                    reset: self.reset,
                                    username: self.username,
                                    stage: Stage::AwaitCreation,
                                },
                                Action::CreateMarker(path),
                            )
                        }
                    },
                    Err(failure) => self.complete(Err(failure)),
                }
            },
            (Stage::AwaitSandbox, Event::Isolated(Err(fault))) => {
                let note = fault.note();
                let failure = Failure::new(ErrorKind::SandboxSetupFailure).attach_printable(
                    note.as_str(),
                );
                self.complete(Err(failure))
            },
            (Stage::AwaitCreation, Event::MarkerCreated(outcome)) => {
                let result = set(outcome);
                self.complete(result)
            },
            (Stage::AwaitRemoval, Event::MarkerRemoved(outcome)) => {
                let result = reset(outcome);
                self.complete(result)
            },
            _ => self.complete(Err(Failure::new(ErrorKind::HostFailure))),
        }
    }
}

/// Without a `store=` argument the invocation ends at once, and the host is
/// told to ignore the module, not that authentication failed.
pub proof fn lemma_missing_store_is_ignored(args: Seq<Seq<char>>, always_reset: bool)
    requires
        forall|i: int| 0 <= i < args.len() ==> !has_prefix(#[trigger] args[i], "store="@),
    ensures
        spec_begin(args, always_reset).1 matches ActionView::Complete(result) && spec_outcome(
            result,
        ) == Status::Ignore,
{
    crate::utils::lemma_named_value_found(args, "store="@);
}

/// A reset succeeds whether the marker was there or not: doing it again
/// changes nothing.
pub proof fn lemma_reset_is_idempotent(session: SessionView)
    requires
        session.stage == Stage::AwaitRemoval,
    ensures
        session.step(EventView::MarkerRemoved(RemoveOutcome::Removed)).1 == ActionView::Complete(
            Ok(()),
        ),
        session.step(EventView::MarkerRemoved(RemoveOutcome::Absent)).1 == ActionView::Complete(
            Ok(()),
        ),
{
}

/// A marker that exists already denies the authentication.
pub proof fn lemma_existing_marker_denies(session: SessionView)
    requires
        session.stage == Stage::AwaitCreation,
    ensures
        session.step(EventView::MarkerCreated(CreateOutcome::AlreadyExists)).1
            matches ActionView::Complete(result) && spec_outcome(result) == Status::AuthError,
{
}

/// No marker file is touched for a name that is not a single normal path
/// component: the invocation ends with `InvalidUsername` instead.
pub proof fn lemma_no_marker_outside_store(session: SessionView)
    requires
        session.stage == Stage::AwaitSandbox,
        !is_single_normal(session.username),
    ensures
        session.step(EventView::Isolated(Ok(()))).1 == ActionView::Complete(
            Err(FailureView::bare(ErrorKind::InvalidUsername)),
        ),
{
}

/// A marker file that is touched lies in the store, under the caller's name.
pub proof fn lemma_marker_lies_in_store(session: SessionView)
    requires
        session.stage == Stage::AwaitSandbox,
    ensures
        session.step(EventView::Isolated(Ok(()))).1 matches ActionView::CreateMarker(path)
            ==> path == joined(session.store, session.username) && is_single_normal(
            session.username,
        ),
        session.step(EventView::Isolated(Ok(()))).1 matches ActionView::RemoveMarker(path)
            ==> path == joined(session.store, session.username) && is_single_normal(
            session.username,
        ),
{
}

} // verus!
