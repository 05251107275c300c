use pam_modules::sandbox::{
    select_isolation, AccessMode, Exception, Isolation, Phase, SandboxAction, Setup, SetupFault,
    Unsupported,
};

#[test]
fn isolation_is_refused_where_unsupported() {
    assert_eq!(select_isolation(true, true), Ok(Isolation::Active));
    assert_eq!(select_isolation(true, false), Err(Unsupported));
    assert_eq!(select_isolation(false, true), Ok(Isolation::Disabled));
    assert_eq!(select_isolation(false, false), Ok(Isolation::Disabled));
}

#[test]
fn exceptions_carry_path_and_mode() {
    let read = Exception::read("/etc/security/pins.toml");
    assert_eq!(read.path, "/etc/security/pins.toml");
    assert_eq!(read.mode, AccessMode::Read);
    let write = Exception::write("/tmp/marks");
    assert_eq!(write.mode, AccessMode::Write);
    assert_eq!(write.duplicate(), write);
}

#[test]
fn setup_grants_every_exception_then_locks_once() {
    let exceptions = vec![Exception::read("/dev/tty"), Exception::write("/tmp")];
    let (setup, action) = Setup::build(exceptions.clone());
    assert_eq!(action, SandboxAction::Create);
    assert_eq!(setup.phase, Phase::Creating);
    let (setup, action) = setup.step(true);
    assert_eq!(action, SandboxAction::Grant(exceptions[0].clone()));
    let (setup, action) = setup.step(true);
    assert_eq!(action, SandboxAction::Grant(exceptions[1].clone()));
    let (setup, action) = setup.step(true);
    assert_eq!(action, SandboxAction::Lock);
    assert_eq!(setup.phase, Phase::Locking);
    let (setup, action) = setup.step(true);
    assert_eq!(action, SandboxAction::Ready);
    assert_eq!(setup.phase, Phase::Locked);
    let (setup, action) = setup.step(true);
    assert_eq!(action, SandboxAction::Ready);
    let (setup, action) = setup.step(false);
    assert_eq!(action, SandboxAction::Ready);
    assert_eq!(setup.exceptions, exceptions);
}

#[test]
fn setup_without_exceptions_locks_at_once() {
    let (setup, _) = Setup::build(Vec::new());
    let (_, action) = setup.step(true);
    assert_eq!(action, SandboxAction::Lock);
}

#[test]
fn setup_aborts_at_the_first_refusal() {
    let exceptions = vec![Exception::read("/dev/tty"), Exception::write("/tmp")];

    let (setup, _) = Setup::build(exceptions.clone());
    let (setup, action) = setup.step(false);
    assert_eq!(action, SandboxAction::Abort(SetupFault::Create));
    let (_, action) = setup.step(true);
    assert_eq!(action, SandboxAction::Abort(SetupFault::Create));

    let (setup, _) = Setup::build(exceptions.clone());
    let (setup, _) = setup.step(true);
    let (setup, _) = setup.step(true);
    let (setup, action) = setup.step(false);
    assert_eq!(action, SandboxAction::Abort(SetupFault::Grant(1)));
    assert_eq!(setup.phase, Phase::Aborted(SetupFault::Grant(1)));

    let (setup, _) = Setup::build(Vec::new());
    let (setup, _) = setup.step(true);
    let (_, action) = setup.step(false);
    assert_eq!(action, SandboxAction::Abort(SetupFault::Lock));
}

#[test]
fn setup_faults_describe_themselves() {
    assert_eq!(SetupFault::Create.note(), "Initialization failed");
    assert_eq!(SetupFault::Grant(0).note(), "Couldn't add a sandbox exception");
    assert_eq!(SetupFault::Lock.note(), "Couldn't activate sandbox");
}
