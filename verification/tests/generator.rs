use pam_modules::generator::{
    hash_pin, sandbox_exceptions, setup_sandbox, try_main, CliArgs, GeneratorError, Plan,
};
use pam_modules::hash::{verify_pin, CostParams};
use pam_modules::sandbox::{Exception, Phase, SandboxAction};

fn cli(username: Option<&str>, benchmark: bool) -> CliArgs {
    CliArgs {
        database_filepath: "/etc/security/pins.toml".to_string(),
        username: username.map(|name| name.to_string()),
        benchmark,
        memory_cost: None,
        time_cost: None,
        parallelism: None,
    }
}

#[test]
fn username_is_required_unless_benchmarking() {
    assert_eq!(cli(Some("alice"), false).validate(), Ok(()));
    assert_eq!(cli(None, true).validate(), Ok(()));
    assert_eq!(cli(Some("alice"), true).validate(), Ok(()));
    assert_eq!(cli(None, false).validate(), Err(GeneratorError::NoUsername));
}

#[test]
fn default_costs_are_argon2s() {
    assert_eq!(
        cli(None, true).argon2_params(),
        Ok(CostParams { memory: 19456, time: 2, parallelism: 1 })
    );
    assert_eq!(
        cli(None, true).argon2_params().unwrap(),
        CostParams {
            memory: argon2::Params::DEFAULT_M_COST,
            time: argon2::Params::DEFAULT_T_COST,
            parallelism: argon2::Params::DEFAULT_P_COST,
        }
    );
}

#[test]
fn given_costs_replace_the_defaults() {
    let mut args = cli(None, true);
    args.memory_cost = Some(65536);
    args.time_cost = Some(4);
    args.parallelism = Some(8);
    assert_eq!(
        args.argon2_params(),
        Ok(CostParams { memory: 65536, time: 4, parallelism: 8 })
    );
    let mut args = cli(None, true);
    args.time_cost = Some(1);
    assert_eq!(
        args.argon2_params(),
        Ok(CostParams { memory: 19456, time: 1, parallelism: 1 })
    );
}

#[test]
fn costs_at_the_limits() {
    let mut args = cli(None, true);
    args.memory_cost = Some(8);
    assert!(args.argon2_params().is_ok());
    args.memory_cost = Some(7);
    assert_eq!(args.argon2_params(), Err(GeneratorError::InvalidPhfParameter));

    let mut args = cli(None, true);
    args.parallelism = Some(2432);
    assert!(args.argon2_params().is_ok());
    args.parallelism = Some(2433);
    assert_eq!(args.argon2_params(), Err(GeneratorError::InvalidPhfParameter));

    let mut args = cli(None, true);
    args.time_cost = Some(0);
    assert_eq!(args.argon2_params(), Err(GeneratorError::InvalidPhfParameter));
    args.time_cost = Some(u32::MAX);
    assert!(args.argon2_params().is_ok());

    let mut args = cli(None, true);
    args.parallelism = Some(0);
    assert_eq!(args.argon2_params(), Err(GeneratorError::InvalidPhfParameter));

    let mut args = cli(None, true);
    args.memory_cost = Some(u32::MAX);
    args.parallelism = Some(0xFF_FFFF);
    assert!(args.argon2_params().is_ok());
    args.parallelism = Some(0x100_0000);
    assert_eq!(args.argon2_params(), Err(GeneratorError::InvalidPhfParameter));
    args.parallelism = Some(0x2000_0000);
    assert_eq!(args.argon2_params(), Err(GeneratorError::InvalidPhfParameter));
    args.parallelism = Some(u32::MAX);
    assert_eq!(args.argon2_params(), Err(GeneratorError::InvalidPhfParameter));
}

#[test]
fn benchmark_sandbox_reaches_nothing() {
    assert_eq!(sandbox_exceptions(true, None), Ok(Vec::new()));
    assert_eq!(sandbox_exceptions(true, Some("/etc")), Ok(Vec::new()));
}

#[test]
fn sandbox_reaches_terminal_and_store_directory() {
    assert_eq!(
        sandbox_exceptions(false, Some("/etc/security")),
        Ok(vec![
            Exception::read("/dev/tty"),
            Exception::write("/dev/tty"),
            Exception::write("/etc/security"),
        ])
    );
    assert_eq!(
        sandbox_exceptions(false, Some("")).unwrap()[2],
        Exception::write(".")
    );
    assert_eq!(sandbox_exceptions(false, None), Err(GeneratorError::Sandbox));
}

#[test]
fn sandbox_setup_starts_from_the_store_path() {
    let (setup, action) = setup_sandbox(&cli(Some("alice"), false)).unwrap();
    assert_eq!(action, SandboxAction::Create);
    assert_eq!(setup.phase, Phase::Creating);
    assert_eq!(setup.exceptions.len(), 3);
    assert_eq!(setup.exceptions[2], Exception::write("/etc/security"));

    let mut args = cli(Some("alice"), false);
    args.database_filepath = "pins.toml".to_string();
    let (setup, _) = setup_sandbox(&args).unwrap();
    assert_eq!(setup.exceptions[2], Exception::write("."));

    args.database_filepath = "/".to_string();
    assert_eq!(setup_sandbox(&args), Err(GeneratorError::Sandbox));
    args.database_filepath = String::new();
    assert_eq!(setup_sandbox(&args), Err(GeneratorError::Sandbox));

    args.benchmark = true;
    let (setup, _) = setup_sandbox(&args).unwrap();
    assert!(setup.exceptions.is_empty());
}

#[test]
fn plan_follows_the_command_line() {
    let defaults = CostParams { memory: 19456, time: 2, parallelism: 1 };
    assert_eq!(
        try_main(&cli(Some("alice"), false)),
        Ok(Plan { cost: defaults, fixed_pin: None, username: Some("alice".to_string()) })
    );
    assert_eq!(
        try_main(&cli(Some("alice"), true)),
        Ok(Plan { cost: defaults, fixed_pin: Some("Pin".to_string()), username: None })
    );
    assert_eq!(try_main(&cli(None, false)), Err(GeneratorError::NoUsername));
    let mut args = cli(Some("alice"), false);
    args.memory_cost = Some(1);
    assert_eq!(try_main(&args), Err(GeneratorError::InvalidPhfParameter));
    let mut args = cli(None, false);
    args.memory_cost = Some(1);
    assert_eq!(try_main(&args), Err(GeneratorError::NoUsername));
}

#[test]
fn hashed_pin_verifies() {
    let cost = CostParams { memory: 8, time: 1, parallelism: 1 };
    let hash = hash_pin("1234", &cost).unwrap();
    assert!(hash.as_str().starts_with("$argon2d$v=19$m=8,t=1,p=1$"));
    assert_eq!(verify_pin(&hash, b"1234"), Ok(()));
    assert!(verify_pin(&hash, b"0000").is_err());
    let bad = CostParams { memory: 1, time: 1, parallelism: 1 };
    assert_eq!(hash_pin("1234", &bad), Err(GeneratorError::HashPassword));
}

#[test]
fn generator_errors_describe_themselves() {
    assert_eq!(GeneratorError::Sandbox.message(), "Couldn't build sandbox");
    assert_eq!(GeneratorError::NoUsername.message(), "Username not specified");
    assert_eq!(GeneratorError::InvalidPhfParameter.message(), "Invalid PHF parameter");
    assert_eq!(GeneratorError::ReadPassword.message(), "Couldn't read password");
    assert_eq!(GeneratorError::HashPassword.message(), "Couldn't hash password");
    assert_eq!(GeneratorError::WriteDatabase.message(), "Couldn't write to database");
    assert!(GeneratorError::NoUsername.is_usage());
    assert!(GeneratorError::InvalidPhfParameter.is_usage());
    assert!(!GeneratorError::Sandbox.is_usage());
    assert!(!GeneratorError::WriteDatabase.is_usage());
}
