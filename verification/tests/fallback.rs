use pam_modules::fallback::{
    auth, close_session, reset, setup_sandbox, start_session, Action, Args, CreateOutcome,
    Event, RemoveOutcome, Session, Stage,
};
use pam_modules::sandbox::{Exception, SetupFault};
use pam_modules::status::{Denial, ErrorKind, Status};
use pam_modules::utils::do_call_handler;
use std::collections::BTreeSet;

fn args(tokens: &[&str]) -> Vec<String> {
    tokens.iter().map(|token| token.to_string()).collect()
}

fn status_of(action: Action) -> Status {
    match action {
        Action::Complete(result) => {
            do_call_handler(Some(result), false, &[], ErrorKind::WorkerPanicked).status
        }
        other => panic!("not complete: {:?}", other),
    }
}

fn run(start: (Session, Action), user: &[u8], files: &mut BTreeSet<String>) -> Status {
    let (mut session, mut action) = start;
    loop {
        let event = match action {
            Action::ResolveIdentity => Event::Identity(Ok(Some(user.to_vec()))),
            Action::Isolate(_) => Event::Isolated(Ok(())),
            Action::CreateMarker(path) => Event::MarkerCreated(if files.insert(path) {
                CreateOutcome::Created
            } else {
                CreateOutcome::AlreadyExists
            }),
            Action::RemoveMarker(path) => Event::MarkerRemoved(if files.remove(&path) {
                RemoveOutcome::Removed
            } else {
                RemoveOutcome::Absent
            }),
            done => return status_of(done),
        };
        let next = session.step(event);
        session = next.0;
        action = next.1;
    }
}

#[test]
fn fallback_arguments_are_read_from_tokens() {
    assert_eq!(
        Args::try_from(args(&["debug", "store=/tmp/marks"])),
        Ok(Args { user_store: "/tmp/marks".to_string(), reset: false })
    );
    assert_eq!(
        Args::try_from(args(&["reset", "store=/tmp/marks", "store=/other"])),
        Ok(Args { user_store: "/tmp/marks".to_string(), reset: true })
    );
    let failure = Args::try_from(args(&["reset", "db=/tmp/marks"])).unwrap_err();
    assert_eq!(failure.kind, ErrorKind::MissingArgument);
    assert_eq!(failure.tag, None);
    assert_eq!(failure.causes, vec!["There is no `store=/<dir>` given.".to_string()]);
}

#[test]
fn missing_store_is_ignored() {
    for tokens in [args(&[]), args(&["reset"]), args(&["db=/x", "debug", "xstore=/y"])] {
        let (session, action) = auth(tokens.clone());
        assert_eq!(session.stage, Stage::Finished);
        assert_eq!(status_of(action), Status::Ignore);
        let (_, action) = start_session(tokens);
        assert_eq!(status_of(action), Status::Ignore);
    }
}

#[test]
fn sandbox_lets_the_store_be_written() {
    let parsed = Args::try_from(args(&["store=/tmp/marks"])).unwrap();
    assert_eq!(setup_sandbox(&parsed), vec![Exception::write("/tmp/marks")]);
    let (session, _) = auth(args(&["store=/tmp/marks"]));
    let (_, action) = session.step(Event::Identity(Ok(Some(b"alice".to_vec()))));
    assert_eq!(action, Action::Isolate(vec![Exception::write("/tmp/marks")]));
}

#[test]
fn first_authentication_leaves_a_marker_and_succeeds() {
    let mut files = BTreeSet::new();
    let status = run(auth(args(&["store=/tmp/marks"])), b"alice", &mut files);
    assert_eq!(status, Status::Success);
    assert!(files.contains("/tmp/marks/alice"));
    assert_eq!(files.len(), 1);
}

#[test]
fn existing_marker_denies_authentication() {
    let mut files = BTreeSet::new();
    files.insert("/tmp/marks/alice".to_string());
    let status = run(auth(args(&["store=/tmp/marks"])), b"alice", &mut files);
    assert_eq!(status, Status::AuthError);
    assert!(files.contains("/tmp/marks/alice"));
    let status = run(auth(args(&["store=/tmp/marks"])), b"bob", &mut files);
    assert_eq!(status, Status::Success);
}

#[test]
fn reset_removes_the_marker_and_is_idempotent() {
    let mut files = BTreeSet::new();
    files.insert("/tmp/marks/alice".to_string());
    let status = run(auth(args(&["store=/tmp/marks", "reset"])), b"alice", &mut files);
    assert_eq!(status, Status::Success);
    assert!(files.is_empty());
    let status = run(auth(args(&["store=/tmp/marks", "reset"])), b"alice", &mut files);
    assert_eq!(status, Status::Success);
    assert!(files.is_empty());
}

#[test]
fn opening_a_session_resets_whatever_the_arguments_say() {
    let mut files = BTreeSet::new();
    files.insert("/tmp/marks/alice".to_string());
    let status = run(start_session(args(&["store=/tmp/marks"])), b"alice", &mut files);
    assert_eq!(status, Status::Success);
    assert!(files.is_empty());
    let status = run(start_session(args(&["store=/tmp/marks"])), b"alice", &mut files);
    assert_eq!(status, Status::Success);
    assert_eq!(close_session(), Status::Success);
}

#[test]
fn traversal_names_touch_no_file() {
    for name in ["../etc", "a/b", ".", "..", "", "/etc/passwd"] {
        let mut files = BTreeSet::new();
        let status = run(auth(args(&["store=/tmp/marks"])), name.as_bytes(), &mut files);
        assert_eq!(status, Status::AuthError);
        assert!(files.is_empty());
        let status = run(auth(args(&["store=/tmp/marks", "reset"])), name.as_bytes(), &mut files);
        assert_eq!(status, Status::AuthError);
    }
}

#[test]
fn unknown_caller_is_reported_as_such() {
    let (session, _) = auth(args(&["store=/tmp/marks"]));
    let (session, action) = session.step(Event::Identity(Ok(None)));
    assert_eq!(session.stage, Stage::Finished);
    assert_eq!(status_of(action), Status::UserUnknown);
    let (session, _) = auth(args(&["store=/tmp/marks"]));
    let (_, action) = session.step(Event::Identity(Ok(Some(vec![0xff, 0xfe]))));
    assert_eq!(status_of(action), Status::UserUnknown);
    let (session, _) = auth(args(&["store=/tmp/marks"]));
    let (_, action) = session.step(Event::Identity(Err(Denial::Ignore)));
    assert_eq!(status_of(action), Status::Ignore);
}

#[test]
fn sandbox_failure_ends_the_invocation() {
    let (session, _) = auth(args(&["store=/tmp/marks"]));
    let (session, _) = session.step(Event::Identity(Ok(Some(b"alice".to_vec()))));
    let (session, action) = session.step(Event::Isolated(Err(SetupFault::Lock)));
    assert_eq!(session.stage, Stage::Finished);
    match action {
        Action::Complete(Err(failure)) => {
            assert_eq!(failure.kind, ErrorKind::SandboxSetupFailure);
            assert_eq!(failure.causes, vec!["Couldn't activate sandbox".to_string()]);
            assert_eq!(failure.status(), Status::AuthError);
        }
        other => panic!("unexpected {:?}", other),
    }
}

#[test]
fn fallback_session_fails_closed_on_unexpected_events() {
    let (session, _) = auth(args(&["store=/tmp/marks"]));
    let (session, action) = session.step(Event::MarkerCreated(CreateOutcome::Created));
    assert_eq!(status_of(action), Status::AuthError);
    let (_, action) = session.step(Event::MarkerRemoved(RemoveOutcome::Removed));
    assert_eq!(status_of(action), Status::AuthError);
}

#[test]
fn marker_outcomes_map_to_results() {
    assert_eq!(pam_modules::fallback::set(CreateOutcome::Created), Ok(()));
    let exists = pam_modules::fallback::set(CreateOutcome::AlreadyExists).unwrap_err();
    assert_eq!(exists.tag, Some(Denial::AuthError));
    assert_eq!(exists.kind, ErrorKind::StoreWriteFailure);
    let failed = pam_modules::fallback::set(CreateOutcome::Failed).unwrap_err();
    assert_eq!(failed.tag, None);
    assert_eq!(failed.status(), Status::AuthError);
    assert_eq!(reset(RemoveOutcome::Removed), Ok(()));
    assert_eq!(reset(RemoveOutcome::Absent), Ok(()));
    let failed = reset(RemoveOutcome::Failed).unwrap_err();
    assert_eq!(failed.kind, ErrorKind::StoreWriteFailure);
    assert_eq!(
        failed.causes,
        vec!["Couldn't reset the account authentication state".to_string()]
    );
}
