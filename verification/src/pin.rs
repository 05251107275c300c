//! The PIN factor: the caller is looked up in the credential store, asked for
//! a PIN, and let in if the stored hash accepts it.
//!
//! The host and the file system are reached from outside this library. A
//! [`Session`] decides, from what came back last, what they are asked next.

use vstd::prelude::*;
use vstd::string::*;
use crate::hash::{accepts, verdict, verify_pin, PinHash};
use crate::sandbox::{AccessMode, Exception, ExceptionView, SetupFault};
use crate::status::{
    result_view, spec_outcome, Denial, ErrorKind, Failure, FailureView, Status,
};
use crate::store::{latest, loaded, Data, IoSerdeError, IoSerdeErrorView, UserView};
use crate::utils::{
    extract_named_value, get_username, has_prefix, named_value, reply_view, resolved, tokens,
    HostReply,
};

verus! {

/// The arguments of the module.
#[derive(Clone, Debug, PartialEq, Eq)]
pub struct Args {
    /// The file that holds the credential store.
    pub database_filepath: String,
}

/// The failure of an invocation without a `db=` argument.
pub open spec fn missing_database() -> FailureView {
    FailureView::bare(ErrorKind::MissingArgument).noted("There is no `db=/<file>` given."@)
}

/// The store that the tokens name: the path after the first `db=`.
pub open spec fn spec_args(args: Seq<Seq<char>>) -> Result<Seq<char>, FailureView> {
    match named_value(args, "db="@) {
        Some(database) => Ok(database),
        None => Err(missing_database()),
    }
}

impl Args {
    /// Reads the arguments out of the host's tokens.
    pub fn try_from(value: Vec<String>) -> (parsed: Result<Args, Failure>)
        ensures
            match parsed {
                Ok(args) => spec_args(tokens(value@)) == Ok::<Seq<char>, FailureView>(
                    args.database_filepath@,
                ),
                Err(failure) => spec_args(tokens(value@)) == Err::<Seq<char>, FailureView>(
                    failure@,
                ),
            },
    {
        match extract_named_value(value.as_slice(), "db=") {
            Some(database) => Ok(Args { database_filepath: String::from_str(database) }),
            None => Err(
                Failure::new(ErrorKind::MissingArgument).attach_printable(
                    "There is no `db=/<file>` given.",
                ),
            ),
        }
    }
}

/// The one exception of the module's sandbox: the store, for reading.
pub open spec fn spec_exceptions(database: Seq<char>) -> Seq<ExceptionView> {
    seq![ExceptionView { path: database, mode: AccessMode::Read }]
}

/// Lists what the module's sandbox lets through.
pub fn setup_sandbox(args: &Args) -> (exceptions: Vec<Exception>)
    ensures
        exceptions.deep_view() == spec_exceptions(args.database_filepath@),
{
    exceptions_for(args.database_filepath.as_str())
}

fn exceptions_for(database: &str) -> (exceptions: Vec<Exception>)
    ensures
        exceptions.deep_view() == spec_exceptions(database@),
{
    let mut exceptions: Vec<Exception> = Vec::new();
    exceptions.push(Exception::read(database));
    assert(exceptions.deep_view() =~= spec_exceptions(database@));
    exceptions
}

/// The failure of a sandbox that could not be set up.
pub open spec fn sandbox_failure(fault: SetupFault) -> FailureView {
    FailureView::bare(ErrorKind::SandboxSetupFailure).noted(fault.spec_note())
}

/// The PIN that the caller entered, or why there is none: the host's own
/// failure keeps the host's status; no entry at all is a credential that
/// could not be recovered.
pub open spec fn spec_user_pin(reply: Result<Option<Seq<u8>>, Denial>) -> Result<
    Seq<u8>,
    FailureView,
> {
    match reply {
        Err(code) => Err(FailureView::bare(ErrorKind::HostFailure).tagged(code)),
        Ok(None) => Err(
            FailureView::bare(ErrorKind::SecretUnavailable).tagged(Denial::CredentialRecoveryError),
        ),
        Ok(Some(pin)) => Ok(pin),
    }
}

/// Takes the caller's PIN out of the host's reply to the prompt.
pub fn get_user_pin(reply: HostReply) -> (pin: Result<Vec<u8>, Failure>)
    ensures
        match pin {
            Ok(bytes) => spec_user_pin(reply_view(reply)) == Ok::<Seq<u8>, FailureView>(bytes@),
            Err(failure) => spec_user_pin(reply_view(reply)) == Err::<Seq<u8>, FailureView>(
                failure@,
            ),
        },
{
    match reply {
        Err(code) => Err(Failure::new(ErrorKind::HostFailure).attach(code)),
        Ok(None) => Err(
            Failure::new(ErrorKind::SecretUnavailable).attach(Denial::CredentialRecoveryError),
        ),
        Ok(Some(pin)) => Ok(pin),
    }
}

/// The failure of a store that could not be loaded: a read failure for a
/// file that could not be read, a parse failure for one that holds no user
/// records, each with the store's own description as its cause.
pub open spec fn load_failure(error: IoSerdeErrorView) -> FailureView {
    FailureView::bare(
        match error {
            IoSerdeErrorView::Deserialize => ErrorKind::StoreParseFailure,
            IoSerdeErrorView::Serialize => ErrorKind::StoreParseFailure,
            IoSerdeErrorView::Read(_) => ErrorKind::StoreReadFailure,
            IoSerdeErrorView::Write(_) => ErrorKind::StoreWriteFailure,
        },
    ).noted(error.spec_message())
}

/// The failure of a caller that has no record in the store.
pub open spec fn unknown_user() -> FailureView {
    FailureView::bare(ErrorKind::UnknownOrUnreadableIdentity).tagged(Denial::UserUnknown)
}

/// The hash that a load of the store finds for a user, or why there is none.
pub open spec fn spec_stored_hash(
    database: Seq<char>,
    contents: Option<Seq<char>>,
    username: Seq<char>,
) -> Result<Seq<char>, FailureView> {
    match loaded(database, contents) {
        Err(error) => Err(load_failure(error)),
        Ok(users) => match latest(users, username) {
            Some(user) => Ok(user.pin_hash),
            None => Err(unknown_user()),
        },
    }
}

/// The text of what was read.
pub open spec fn contents_view(contents: Option<String>) -> Option<Seq<char>> {
    match contents {
        Some(text) => Some(text@),
        None => None,
    }
}

/// Loads the store and looks the user up in it. `contents` is the text of the
/// file at `database`, or `None` if it could not be read.
pub fn stored_hash(database: &str, contents: &Option<String>, username: &str) -> (hash: Result<
    PinHash,
    Failure,
>)
    ensures
        match hash {
            Ok(found) => spec_stored_hash(database@, contents_view(*contents), username@) == Ok::<
                Seq<char>,
                FailureView,
            >(found@),
            Err(failure) => spec_stored_hash(database@, contents_view(*contents), username@)
                == Err::<Seq<char>, FailureView>(failure@),
        },
{
    let text: Option<&str> = match contents {
        Some(text) => Some(text.as_str()),
        None => None,
    };
    let data = match Data::from_file(database, text) {
        Ok(data) => data,
        Err(error) => {
            let kind = match error {
                IoSerdeError::Deserialize => ErrorKind::StoreParseFailure,
                IoSerdeError::Serialize => ErrorKind::StoreParseFailure,
                IoSerdeError::Read(_) => ErrorKind::StoreReadFailure,
                IoSerdeError::Write(_) => ErrorKind::StoreWriteFailure,
            };
            let note = error.message();
            return Err(Failure::new(kind).attach_printable(note.as_str()));
        },
    };
    match data.get_by_name(username) {
        Some(user) => Ok(user.pin_hash().duplicate()),
        None => Err(
            Failure::new(ErrorKind::UnknownOrUnreadableIdentity).attach(Denial::UserUnknown),
        ),
    }
}

/// Where an invocation stands.
#[derive(Clone, Copy, Debug, PartialEq, Eq, Structural)]
pub enum Stage {
    /// The host was asked for the caller's name.
    AwaitIdentity,
    /// The sandbox was asked for.
    AwaitSandbox,
    /// The store was asked to be read.
    AwaitStore,
    /// The caller was asked for the PIN.
    AwaitPin,
    /// The invocation has ended.
    Finished,
}

/// What is asked for next.
#[derive(Debug, PartialEq, Eq)]
pub enum Action {
    /// Ask the host for the caller's name.
    ResolveIdentity,
    /// Build and lock a sandbox with these exceptions, where isolation is on.
    Isolate(Vec<Exception>),
    /// Read the whole file at this path as text.
    ReadStore(String),
    /// Ask the caller, with this prompt and without echo, for the PIN.
    PromptPin(String),
    /// Nothing: the operation has ended with this result.
    Complete(Result<(), Failure>),
}

/// The mathematical value of an [`Action`].
pub enum ActionView {
    ResolveIdentity,
    Isolate(Seq<ExceptionView>),
    ReadStore(Seq<char>),
    PromptPin(Seq<char>),
    Complete(Result<(), FailureView>),
}

impl View for Action {
    type V = ActionView;

    open spec fn view(&self) -> ActionView {
        match self {
            Action::ResolveIdentity => ActionView::ResolveIdentity,
            Action::Isolate(exceptions) => ActionView::Isolate(exceptions.deep_view()),
            Action::ReadStore(path) => ActionView::ReadStore(path@),
            Action::PromptPin(prompt) => ActionView::PromptPin(prompt@),
            Action::Complete(Ok(_)) => ActionView::Complete(Ok(())),
            Action::Complete(Err(failure)) => ActionView::Complete(Err(failure@)),
        }
    }
}

/// What came back from the last request.
#[derive(Debug, PartialEq, Eq)]
pub enum Event {
    /// The host's reply to the question for the caller's name.
    Identity(HostReply),
    /// The sandbox is locked, or isolation is off; or the request that failed.
    Isolated(Result<(), SetupFault>),
    /// The text of the store, or `None` if it could not be read.
    StoreRead(Option<String>),
    /// The host's reply to the prompt.
    PinEntered(HostReply),
}

/// The mathematical value of an [`Event`].
pub enum EventView {
    Identity(Result<Option<Seq<u8>>, Denial>),
    Isolated(Result<(), SetupFault>),
    StoreRead(Option<Seq<char>>),
    PinEntered(Result<Option<Seq<u8>>, Denial>),
}

impl View for Event {
    type V = EventView;

    open spec fn view(&self) -> EventView {
        match self {
            Event::Identity(reply) => EventView::Identity(reply_view(*reply)),
            Event::Isolated(result) => EventView::Isolated(*result),
            Event::StoreRead(contents) => EventView::StoreRead(contents_view(*contents)),
            Event::PinEntered(reply) => EventView::PinEntered(reply_view(*reply)),
        }
    }
}

/// One invocation of the module.
#[derive(Clone, Debug, PartialEq, Eq)]
pub struct Session {
    pub database: String,
    pub username: String,
    pub hash: Option<PinHash>,
    pub stage: Stage,
}

/// The mathematical value of a [`Session`].
pub struct SessionView {
    pub database: Seq<char>,
    pub username: Seq<char>,
    pub hash: Option<Seq<char>>,
    pub stage: Stage,
}

impl View for Session {
    type V = SessionView;

    open spec fn view(&self) -> SessionView {
        SessionView {
            database: self.database@,
            username: self.username@,
            hash: match self.hash {
                Some(hash) => Some(hash@),
                None => None,
            },
            stage: self.stage,
        }
    }
}

/// The prompt that the caller is shown.
pub open spec fn prompt() -> Seq<char> {
    "Pin: "@
}

impl SessionView {
    pub open spec fn at(self, stage: Stage) -> SessionView {
        SessionView { stage, ..self }
    }

    pub open spec fn complete(self, result: Result<(), FailureView>) -> (SessionView, ActionView) {
        (self.at(Stage::Finished), ActionView::Complete(result))
    }

    /// The invocation after an event, and what is asked for next. The name
    /// is resolved first, then the sandbox is set up, then the store is read
    /// and the caller looked up, then the PIN is asked for and checked. The
    /// first failure ends the invocation, and so does an event that does not
    /// answer what was asked.
    pub open spec fn step(self, event: EventView) -> (SessionView, ActionView) {
        match (self.stage, event) {
            (Stage::AwaitIdentity, EventView::Identity(reply)) => match resolved(
                reply,
                ErrorKind::HostFailure,
                ErrorKind::UnknownOrUnreadableIdentity,
            ) {
                Ok(name) => (
                    SessionView { username: name, stage: Stage::AwaitSandbox, ..self },
                    ActionView::Isolate(spec_exceptions(self.database)),
                ),
                Err(failure) => self.complete(Err(failure)),
            },
            (Stage::AwaitSandbox, EventView::Isolated(Ok(_))) => (
                self.at(Stage::AwaitStore),
                ActionView::ReadStore(self.database),
            ),
            (Stage::AwaitSandbox, EventView::Isolated(Err(fault))) => self.complete(
                Err(sandbox_failure(fault)),
            ),
            (Stage::AwaitStore, EventView::StoreRead(contents)) => match spec_stored_hash(
                self.database,
                contents,
                self.username,
            ) {
                Ok(hash) => (
                    SessionView { hash: Some(hash), stage: Stage::AwaitPin, ..self },
                    ActionView::PromptPin(prompt()),
                ),
                Err(failure) => self.complete(Err(failure)),
            },
            (Stage::AwaitPin, EventView::PinEntered(reply)) => match self.hash {
                Some(hash) => match spec_user_pin(reply) {
                    Ok(pin) => self.complete(verdict(accepts(hash, pin))),
                    Err(failure) => self.complete(Err(failure)),
                },
                None => self.complete(Err(FailureView::bare(ErrorKind::HostFailure))),
            },
            _ => self.complete(Err(FailureView::bare(ErrorKind::HostFailure))),
        }
    }
}

/// Where an authentication starts: with the question for the caller's name,
/// or, without a `db=` argument, at its end, to be ignored by the host.
pub open spec fn spec_begin(args: Seq<Seq<char>>) -> (SessionView, ActionView) {
    match spec_args(args) {
        Ok(database) => (
            SessionView {
                database,
                username: Seq::empty(),
                hash: None,
                stage: Stage::AwaitIdentity,
            },
            ActionView::ResolveIdentity,
        ),
        Err(failure) => (
            SessionView {
                database: Seq::empty(),
                username: Seq::empty(),
                hash: None,
                stage: Stage::Finished,
            },
            ActionView::Complete(Err(failure.tagged(Denial::Ignore))),
        ),
    }
}

/// Starts an authentication.
pub fn auth(args: Vec<String>) -> (started: (Session, Action))
    ensures
        (started.0@, started.1@) == spec_begin(tokens(args@)),
{
    match Args::try_from(args) {
        Ok(parsed) => (
            Session {
                database: parsed.database_filepath,
                username: String::new(),
                hash: None,
                stage: Stage::AwaitIdentity,
            },
            Action::ResolveIdentity,
        ),
        Err(failure) => (
            Session {
                database: String::new(),
                username: String::new(),
                hash: None,
                stage: Stage::Finished,
            },
            Action::Complete(Err(failure.attach(Denial::Ignore))),
        ),
    }
}

impl Session {
    fn complete(self, result: Result<(), Failure>) -> (next: (Session, Action))
        ensures
            (next.0@, next.1@) == self@.complete(result_view(result)),
    {
        (
            Session {
                database: self.database,
                username: self.username,
                hash: self.hash,
                stage: Stage::Finished,
            },
            Action::Complete(result),
        )
    }

    /// Takes what came back from the last request and says what to ask next.
    pub fn step(self, event: Event) -> (next: (Session, Action))
        ensures
            (next.0@, next.1@) == self@.step(event@),
    {
        match (self.stage, event) {
            (Stage::AwaitIdentity, Event::Identity(reply)) => {
                match get_username(
                    reply,
                    ErrorKind::HostFailure,
                    ErrorKind::UnknownOrUnreadableIdentity,
                ) {
                    Ok(name) => {
                        let exceptions = exceptions_for(self.database.as_str());
                        (
                            Session {
                                database: self.database,
                                username: name,
                                hash: self.hash,
                                stage: Stage::AwaitSandbox,
                            },
                            Action::Isolate(exceptions),
                        )
                    },
                    Err(failure) => self.complete(Err(failure)),
                }
            },
            (Stage::AwaitSandbox, Event::Isolated(Ok(_))) => {
                let path = self.database.clone();
                (
                    Session {
                        database: self.database,
                        username: self.username,
                        hash: self.hash,
                        stage: Stage::AwaitStore,
                    },
                    Action::ReadStore(path),
                )
            },
            (Stage::AwaitSandbox, Event::Isolated(Err(fault))) => {
                let note = fault.note();
                let failure = Failure::new(ErrorKind::SandboxSetupFailure).attach_printable(
                    note.as_str(),
                );
                self.complete(Err(failure))
            },
            (Stage::AwaitStore, Event::StoreRead(contents)) => {
                match stored_hash(self.database.as_str(), &contents, self.username.as_str()) {
                    Ok(hash) => (
                        Session {
                            database: self.database,
                            username: self.username,
                            hash: Some(hash),
                            stage: Stage::AwaitPin,
                        },
                        Action::PromptPin(String::from_str("Pin: ")),
                    ),
                    Err(failure) => self.complete(Err(failure)),
                }
            },
            (Stage::AwaitPin, Event::PinEntered(reply)) => {
                let result = match &self.hash {
                    Some(hash) => match get_user_pin(reply) {
                        Ok(pin) => verify_pin(hash, pin.as_slice()),
                        Err(failure) => Err(failure),
                    },
                    None => Err(Failure::new(ErrorKind::HostFailure)),
                };
                self.complete(result)
            },
            _ => self.complete(Err(Failure::new(ErrorKind::HostFailure))),
        }
    }
}

/// Without a `db=` argument the invocation ends at once, and the host is told
/// to ignore the module, not that authentication failed.
pub proof fn lemma_missing_database_is_ignored(args: Seq<Seq<char>>)
    requires
        forall|i: int| 0 <= i < args.len() ==> !has_prefix(#[trigger] args[i], "db="@),
    ensures
        spec_begin(args).1 matches ActionView::Complete(result) && spec_outcome(result)
            == Status::Ignore,
{
    crate::utils::lemma_named_value_found(args, "db="@);
}

/// A caller without a record in a store that loads is an unknown user.
pub proof fn lemma_unknown_user_is_reported(
    session: SessionView,
    contents: Seq<char>,
    users: Seq<UserView>,
)
    requires
        session.stage == Stage::AwaitStore,
        loaded(session.database, Some(contents)) == Ok::<Seq<UserView>, IoSerdeErrorView>(users),
        latest(users, session.username) is None,
    ensures
        session.step(EventView::StoreRead(Some(contents))).1 matches ActionView::Complete(result)
            && spec_outcome(result) == Status::UserUnknown,
{
}

/// A store file that is empty knows nobody: whoever the caller is, the
/// authentication ends with `UserUnknown`.
pub proof fn lemma_empty_store_knows_nobody(session: SessionView)
    requires
        session.stage == Stage::AwaitStore,
    ensures
        session.step(EventView::StoreRead(Some(Seq::<char>::empty()))).1
            matches ActionView::Complete(result) && spec_outcome(result) == Status::UserUnknown,
{
}

/// The PIN decides: the authentication succeeds if the stored hash accepts
/// what the caller entered, and fails with `AuthError` if it does not.
pub proof fn lemma_pin_decides(session: SessionView, hash: Seq<char>, pin: Seq<u8>)
    requires
        session.stage == Stage::AwaitPin,
        session.hash == Some(hash),
    ensures
        session.step(EventView::PinEntered(Ok(Some(pin)))).1 matches ActionView::Complete(result)
            && spec_outcome(result) == (if accepts(hash, pin) {
            Status::Success
        } else {
            Status::AuthError
        }),
{
}

/// The caller is asked for the PIN only once the store has a record for
/// them, and the store is read only once the sandbox stands.
pub proof fn lemma_order_of_requests(session: SessionView, event: EventView)
    ensures
        session.step(event).1 is PromptPin ==> session.stage == Stage::AwaitStore,
        session.step(event).1 is ReadStore ==> session.stage == Stage::AwaitSandbox,
        session.step(event).1 is Isolate ==> session.stage == Stage::AwaitIdentity,
        session.step(event).1 is ResolveIdentity ==> false,
{
}

} // verus!
