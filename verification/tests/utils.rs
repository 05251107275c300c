use pam_modules::status::{Denial, ErrorKind, Failure, Status};
use pam_modules::utils::{
    contains_flag, do_call_handler, do_threaded_call, extract_named_value, get_username,
    is_debug, print_error,
};

fn args(tokens: &[&str]) -> Vec<String> {
    tokens.iter().map(|token| token.to_string()).collect()
}

#[test]
fn it_works() {}

#[test]
fn named_value_is_taken_from_first_match() {
    let tokens = args(&["debug", "db=/etc/a.toml", "db=/etc/b.toml"]);
    assert_eq!(extract_named_value(&tokens, "db="), Some("/etc/a.toml"));
}

#[test]
fn named_value_is_absent_without_prefix() {
    let tokens = args(&["debug", "store=/tmp/marks", "xdb=1"]);
    assert_eq!(extract_named_value(&tokens, "db="), None);
    assert_eq!(extract_named_value(&[], "db="), None);
}

#[test]
fn named_value_may_be_empty() {
    let tokens = args(&["db="]);
    assert_eq!(extract_named_value(&tokens, "db="), Some(""));
}

#[test]
fn named_value_loses_the_key_once() {
    let tokens = args(&["db=db=db=x"]);
    assert_eq!(extract_named_value(&tokens, "db="), Some("db=db=x"));
    let tokens = args(&["store=store=x"]);
    assert_eq!(extract_named_value(&tokens, "store="), Some("store=x"));
    let tokens = args(&["db=adb=x"]);
    assert_eq!(extract_named_value(&tokens, "db="), Some("adb=x"));
}

#[test]
fn named_value_agrees_with_the_standard_library() {
    let samples = ["db=", "db=x", "db=db=", "xdb=", "d", "", "db=ä/ö", "db=db"];
    for token in samples {
        let tokens = args(&[token]);
        let expected = if token.starts_with("db=") {
            Some(&token["db=".len()..])
        } else {
            None
        };
        assert_eq!(token.strip_prefix("db="), expected);
        assert_eq!(extract_named_value(&tokens, "db="), expected);
    }
}

#[test]
fn empty_key_takes_the_first_token_whole() {
    let tokens = args(&["first", "second"]);
    assert_eq!(extract_named_value(&tokens, ""), Some("first"));
}

#[test]
fn unknown_tokens_are_ignored() {
    let tokens = args(&["nullok", "try_first_pass", "store=/tmp/marks", "reset"]);
    assert_eq!(extract_named_value(&tokens, "store="), Some("/tmp/marks"));
    assert!(contains_flag(&tokens, "reset"));
    assert!(!contains_flag(&tokens, "rese"));
    assert!(!is_debug(&tokens));
}

#[test]
fn debug_is_an_exact_token() {
    assert!(is_debug(&args(&["db=x", "debug"])));
    assert!(!is_debug(&args(&["debug=1", "Debug", "debugx"])));
    assert!(!is_debug(&[]));
}

#[test]
fn username_is_resolved_from_valid_text() {
    let name = get_username(
        Ok(Some(b"alice".to_vec())),
        ErrorKind::HostFailure,
        ErrorKind::UnknownOrUnreadableIdentity,
    );
    assert_eq!(name, Ok("alice".to_string()));
    let name = get_username(
        Ok(Some("zoë".as_bytes().to_vec())),
        ErrorKind::HostFailure,
        ErrorKind::UnknownOrUnreadableIdentity,
    );
    assert_eq!(name, Ok("zoë".to_string()));
}

#[test]
fn absent_username_is_an_unknown_user() {
    let failure = get_username(
        Ok(None),
        ErrorKind::HostFailure,
        ErrorKind::UnknownOrUnreadableIdentity,
    )
    .unwrap_err();
    assert_eq!(failure.kind, ErrorKind::UnknownOrUnreadableIdentity);
    assert_eq!(failure.status(), Status::UserUnknown);
}

#[test]
fn unreadable_username_is_an_unknown_user() {
    let failure = get_username(
        Ok(Some(vec![0x61, 0xff, 0x62])),
        ErrorKind::HostFailure,
        ErrorKind::UnknownOrUnreadableIdentity,
    )
    .unwrap_err();
    assert_eq!(failure.kind, ErrorKind::UnknownOrUnreadableIdentity);
    assert_eq!(failure.status(), Status::UserUnknown);
}

#[test]
fn host_failure_keeps_the_hosts_status() {
    let failure = get_username(
        Err(Denial::CredentialRecoveryError),
        ErrorKind::HostFailure,
        ErrorKind::UnknownOrUnreadableIdentity,
    )
    .unwrap_err();
    assert_eq!(failure.kind, ErrorKind::HostFailure);
    assert_eq!(failure.status(), Status::CredentialRecoveryError);
}

#[test]
fn success_needs_no_diagnostic() {
    let done = do_call_handler(Some(Ok(())), false, &args(&["debug"]), ErrorKind::WorkerPanicked);
    assert_eq!(done.status, Status::Success);
    assert_eq!(done.diagnostic, None);
}

#[test]
fn worker_panic_is_an_auth_error() {
    let done = do_call_handler(None, false, &[], ErrorKind::WorkerPanicked);
    assert_eq!(done.status, Status::AuthError);
    assert_eq!(
        done.diagnostic,
        Some("Error: A panic happened in the sandboxed thread".to_string())
    );
    assert_eq!(
        do_threaded_call(None, ErrorKind::WorkerPanicked),
        Err(Failure::new(ErrorKind::WorkerPanicked))
    );
    assert_eq!(do_threaded_call(Some(Ok(())), ErrorKind::WorkerPanicked), Ok(()));
}

#[test]
fn untagged_failure_is_an_auth_error() {
    let failure = Failure::new(ErrorKind::StoreReadFailure);
    let done = do_call_handler(Some(Err(failure)), false, &[], ErrorKind::WorkerPanicked);
    assert_eq!(done.status, Status::AuthError);
    assert_eq!(done.diagnostic, Some("Error: Couldn't read the store".to_string()));
}

#[test]
fn tagged_failure_maps_to_its_tag() {
    let failure = Failure::new(ErrorKind::MissingArgument).attach(Denial::Ignore);
    let done = do_call_handler(Some(Err(failure)), false, &[], ErrorKind::WorkerPanicked);
    assert_eq!(done.status, Status::Ignore);
}

#[test]
fn silent_flag_suppresses_the_diagnostic() {
    let failure = Failure::new(ErrorKind::CryptoVerifyFailure);
    let done = do_call_handler(
        Some(Err(failure)),
        true,
        &args(&["debug"]),
        ErrorKind::WorkerPanicked,
    );
    assert_eq!(done.status, Status::AuthError);
    assert_eq!(done.diagnostic, None);
}

#[test]
fn debug_flag_shows_the_cause_chain() {
    let failure = Failure::new(ErrorKind::StoreReadFailure)
        .attach_printable("no such file")
        .change_context(ErrorKind::SandboxSetupFailure)
        .attach_printable("last note");
    assert_eq!(
        print_error(&failure, false, true),
        Some(
            "Error: Couldn't build sandbox\n  caused by: last note\n  caused by: Couldn't read the store\n  caused by: no such file"
                .to_string()
        )
    );
    assert_eq!(
        print_error(&failure, false, false),
        Some("Error: Couldn't build sandbox".to_string())
    );
    assert_eq!(print_error(&failure, true, true), None);
    let done = do_call_handler(
        Some(Err(failure)),
        false,
        &args(&["db=x", "debug"]),
        ErrorKind::WorkerPanicked,
    );
    assert!(done.diagnostic.unwrap().contains("caused by: no such file"));
}

#[test]
fn later_tag_replaces_earlier_tag() {
    let failure = Failure::new(ErrorKind::HostFailure)
        .attach(Denial::Ignore)
        .change_context(ErrorKind::StoreReadFailure)
        .attach(Denial::UserUnknown);
    assert_eq!(failure.status(), Status::UserUnknown);
    assert_eq!(failure.kind, ErrorKind::StoreReadFailure);
    assert_eq!(failure.causes, vec!["Internal PAM error".to_string()]);
}

#[test]
fn every_denial_is_a_failure_status() {
    let tags = [
        (Denial::AuthError, Status::AuthError),
        (Denial::UserUnknown, Status::UserUnknown),
        (Denial::Ignore, Status::Ignore),
        (Denial::CredentialRecoveryError, Status::CredentialRecoveryError),
    ];
    for (tag, status) in tags {
        assert_eq!(tag.to_status(), status);
        assert_ne!(tag.to_status(), Status::Success);
        assert_eq!(
            pam_modules::status::outcome(&Err(Failure::new(ErrorKind::HostFailure).attach(tag))),
            status
        );
    }
    assert_eq!(pam_modules::status::outcome(&Ok(())), Status::Success);
}
