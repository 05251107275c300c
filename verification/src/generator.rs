//! The credential generator: what the tool that enrols a user decides
//! between reading its command line and appending a record to the store.

use vstd::prelude::*;
use vstd::string::*;
use crate::hash::{
    accepts, argon2_build, argon2_defaults, hash, CostParams, PinHash, MAX_PARALLELISM,
};
use crate::sandbox::{AccessMode, Exception, ExceptionView, SandboxAction, Setup};

verus! {

/// Why the generator gave up.
#[derive(Clone, Copy, Debug, PartialEq, Eq, Structural)]
pub enum GeneratorError {
    Sandbox,
    NoUsername,
    InvalidPhfParameter,
    ReadPassword,
    HashPassword,
    WriteDatabase,
}

impl GeneratorError {
    pub open spec fn spec_message(self) -> Seq<char> {
        match self {
            GeneratorError::Sandbox => "Couldn't build sandbox"@,
            GeneratorError::NoUsername => "Username not specified"@,
            GeneratorError::InvalidPhfParameter => "Invalid PHF parameter"@,
            GeneratorError::ReadPassword => "Couldn't read password"@,
            GeneratorError::HashPassword => "Couldn't hash password"@,
            GeneratorError::WriteDatabase => "Couldn't write to database"@,
        }
    }

    /// The one-line description of the error.
    pub fn message(self) -> (text: String)
        ensures
            text@ == self.spec_message(),
    {
        match self {
            GeneratorError::Sandbox => String::from_str("Couldn't build sandbox"),
            GeneratorError::NoUsername => String::from_str("Username not specified"),
            GeneratorError::InvalidPhfParameter => String::from_str("Invalid PHF parameter"),
            GeneratorError::ReadPassword => String::from_str("Couldn't read password"),
            GeneratorError::HashPassword => String::from_str("Couldn't hash password"),
            GeneratorError::WriteDatabase => String::from_str("Couldn't write to database"),
        }
    }

    /// Whether the error is the user's misuse of the command line.
    pub fn is_usage(self) -> (usage: bool)
        ensures
            usage == (self == GeneratorError::NoUsername || self == GeneratorError::InvalidPhfParameter),
    {
        match self {
            GeneratorError::NoUsername => true,
            GeneratorError::InvalidPhfParameter => true,
            _ => false,
        }
    }
}

/// The command line of the generator, parsed.
#[derive(Clone, Debug, PartialEq, Eq)]
pub struct CliArgs {
    /// The store that the record is appended to.
    pub database_filepath: String,
    /// The user that the record is for.
    pub username: Option<String>,
    /// Only hash, to try the costs out: no user, no PIN, no record.
    pub benchmark: bool,
    /// Memory in KiB.
    pub memory_cost: Option<u32>,
    /// Passes over the memory.
    pub time_cost: Option<u32>,
    /// Lanes.
    pub parallelism: Option<u32>,
}

/// The terminal that a PIN is asked for at.
pub open spec fn tty_path() -> Seq<char> {
    "/dev/tty"@
}

/// The directory that a path lies in, as `std::path::Path::parent` gives it,
/// or `None` where it gives none.
pub uninterp spec fn parent_of(path: Seq<char>) -> Option<Seq<char>>;

/// Calls `std::path::Path::parent`. The result is a function of the path,
/// named [`parent_of`].
#[verifier::external_body]
pub(crate) fn path_parent(path: &str) -> (parent: Option<String>)
    ensures
        match parent {
            Some(directory) => parent_of(path@) == Some(directory@),
            None => parent_of(path@) is None,
        },
{
    std::path::Path::new(path).parent().map(|directory| directory.to_string_lossy().into_owned())
}

/// The costs that the command line asks for: each is the one given, or the
/// default of 19 MiB, 2 passes and 1 lane.
pub open spec fn requested_cost(
    memory_cost: Option<u32>,
    time_cost: Option<u32>,
    parallelism: Option<u32>,
) -> CostParams {
    CostParams {
        memory: match memory_cost {
            Some(memory) => memory,
            None => 19456,
        },
        time: match time_cost {
            Some(time) => time,
            None => 2,
        },
        parallelism: match parallelism {
            Some(lanes) => lanes,
            None => 1,
        },
    }
}

/// The exceptions the generator's sandbox grants: none for a benchmark; else
/// the terminal for reading and writing, and the directory of the store for
/// writing, the current directory standing in for an empty one. A store
/// without a directory is refused.
pub open spec fn spec_sandbox_exceptions(benchmark: bool, database_parent: Option<Seq<char>>)
    -> Result<Seq<ExceptionView>, GeneratorError> {
    if benchmark {
        Ok(Seq::empty())
    } else {
        match database_parent {
            None => Err(GeneratorError::Sandbox),
            Some(parent) => Ok(
                seq![
                    ExceptionView { path: tty_path(), mode: AccessMode::Read },
                    ExceptionView { path: tty_path(), mode: AccessMode::Write },
                    ExceptionView {
                        path: if parent.len() == 0 {
                            "."@
                        } else {
                            parent
                        },
                        mode: AccessMode::Write,
                    },
                ],
            ),
        }
    }
}

/// The text of an optional path.
pub open spec fn path_view(path: Option<&str>) -> Option<Seq<char>> {
    match path {
        Some(text) => Some(text@),
        None => None,
    }
}

/// Lists the exceptions of the generator's sandbox. `database_parent` is the
/// directory of the store, `None` if it has none.
pub fn sandbox_exceptions(benchmark: bool, database_parent: Option<&str>) -> (exceptions: Result<
    Vec<Exception>,
    GeneratorError,
>)
    ensures
        match exceptions {
            Ok(list) => spec_sandbox_exceptions(benchmark, path_view(database_parent)) == Ok::<
                Seq<ExceptionView>,
                GeneratorError,
            >(list.deep_view()),
            Err(error) => spec_sandbox_exceptions(benchmark, path_view(database_parent)) == Err::<
                Seq<ExceptionView>,
                GeneratorError,
            >(error),
        },
{
    let mut list: Vec<Exception> = Vec::new();
    if benchmark {
        assert(list.deep_view() =~= Seq::<ExceptionView>::empty());
        return Ok(list);
    }
    let parent = match database_parent {
        Some(parent) => parent,
        None => return Err(GeneratorError::Sandbox),
    };
    list.push(Exception::read("/dev/tty"));
    list.push(Exception::write("/dev/tty"));
    if parent.unicode_len() == 0 {
        list.push(Exception::write("."));
    } else {
        list.push(Exception::write(parent));
    }
    assert(list.deep_view() =~= spec_sandbox_exceptions(benchmark, path_view(database_parent))->Ok_0);
    Ok(list)
}

/// What the generator does once its command line is accepted.
#[derive(Clone, Debug, PartialEq, Eq)]
pub struct Plan {
    /// The costs to hash with.
    pub cost: CostParams,
    /// The PIN to hash without asking, for a benchmark.
    pub fixed_pin: Option<String>,
    /// The user whose record is appended, unless this is a benchmark.
    pub username: Option<String>,
}

/// The mathematical value of a [`Plan`].
pub struct PlanView {
    pub cost: CostParams,
    pub fixed_pin: Option<Seq<char>>,
    pub username: Option<Seq<char>>,
}

impl View for Plan {
    type V = PlanView;

    open spec fn view(&self) -> PlanView {
        PlanView {
            cost: self.cost,
            fixed_pin: match self.fixed_pin {
                Some(pin) => Some(pin@),
                None => None,
            },
            username: match self.username {
                Some(name) => Some(name@),
                None => None,
            },
        }
    }
}

impl CliArgs {
    /// Whether a user is named, or none is needed.
    pub open spec fn spec_valid(&self) -> bool {
        self.benchmark || self.username is Some
    }

    /// The costs asked for.
    pub open spec fn spec_cost(&self) -> CostParams {
        requested_cost(self.memory_cost, self.time_cost, self.parallelism)
    }

    /// What the command line comes to: a usage error without a user or with
    /// costs that Argon2 refuses, else the plan. A benchmark hashes the fixed
    /// PIN `Pin` and appends nothing.
    pub open spec fn spec_plan(&self) -> Result<PlanView, GeneratorError> {
        if !self.spec_valid() {
            Err(GeneratorError::NoUsername)
        } else if !self.spec_cost().valid() {
            Err(GeneratorError::InvalidPhfParameter)
        } else if self.benchmark {
            Ok(PlanView { cost: self.spec_cost(), fixed_pin: Some("Pin"@), username: None })
        } else {
            Ok(
                PlanView {
                    cost: self.spec_cost(),
                    fixed_pin: None,
                    username: Some(self.username->0@),
                },
            )
        }
    }

    /// Checks that a user is named, unless this is a benchmark.
    pub fn validate(&self) -> (checked: Result<(), GeneratorError>)
        ensures
            checked == (if self.spec_valid() {
                Ok::<(), GeneratorError>(())
            } else {
                Err(GeneratorError::NoUsername)
            }),
    {
        if self.benchmark || self.username.is_some() {
            Ok(())
        } else {
            Err(GeneratorError::NoUsername)
        }
    }

    /// Settles the costs: those given on the command line over Argon2's
    /// defaults, refused unless Argon2 accepts them.
    pub fn argon2_params(&self) -> (params: Result<CostParams, GeneratorError>)
        ensures
            params == (if self.spec_cost().valid() {
                Ok::<CostParams, GeneratorError>(self.spec_cost())
            } else {
                Err(GeneratorError::InvalidPhfParameter)
            }),
    {
        let defaults = argon2_defaults();
        let memory = match self.memory_cost {
            Some(memory) => memory,
            None => defaults.memory,
        };
        let time = match self.time_cost {
            Some(time) => time,
            None => defaults.time,
        };
        let parallelism = match self.parallelism {
            Some(lanes) => lanes,
            None => defaults.parallelism,
        };
        if parallelism > MAX_PARALLELISM {
            return Err(GeneratorError::InvalidPhfParameter);
        }
        match argon2_build(memory, time, parallelism) {
            Ok(cost) => Ok(cost),
            Err(_) => Err(GeneratorError::InvalidPhfParameter),
        }
    }
}

/// Starts the setup of the generator's sandbox. The exceptions depend on the
/// directory of the store, which the standard library picks out of its path.
pub fn setup_sandbox(args: &CliArgs) -> (started: Result<(Setup, SandboxAction), GeneratorError>)
    ensures
        match started {
            Ok(setup) => spec_sandbox_exceptions(
                args.benchmark,
                parent_of(args.database_filepath@),
            ) == Ok::<Seq<ExceptionView>, GeneratorError>(setup.0@.exceptions) && setup.0@.phase
                == crate::sandbox::Phase::Creating && setup.1@
                == crate::sandbox::SandboxActionView::Create,
            Err(error) => spec_sandbox_exceptions(
                args.benchmark,
                parent_of(args.database_filepath@),
            ) == Err::<Seq<ExceptionView>, GeneratorError>(error),
        },
{
    let exceptions = if args.benchmark {
        sandbox_exceptions(true, None)
    } else {
        match path_parent(args.database_filepath.as_str()) {
            Some(parent) => sandbox_exceptions(false, Some(parent.as_str())),
            None => sandbox_exceptions(false, None),
        }
    };
    match exceptions {
        Ok(list) => Ok(Setup::build(list)),
        Err(error) => Err(error),
    }
}

/// Hashes a PIN under a fresh salt. A hash is made whenever the costs are
/// valid and the PIN has at most 2^32 - 1 bytes. What comes back is what
/// [`crate::hash::hash_with_salt`] gives under some salt: a hash that accepts
/// the PIN it was made of, or the failure to hash.
pub fn hash_pin(pin: &str, argon2_params: &CostParams) -> (hashed: Result<PinHash, GeneratorError>)
    ensures
        exists|salt: Seq<char>|
            match hashed {
                Ok(made) => #[trigger] crate::hash::hashed(pin.spec_bytes(), salt, *argon2_params)
                    == Some(made@),
                Err(error) => #[trigger] crate::hash::hashed(
                    pin.spec_bytes(),
                    salt,
                    *argon2_params,
                ) is None && error == GeneratorError::HashPassword,
            },
        hashed matches Ok(made) ==> accepts(made@, pin.spec_bytes()),
        argon2_params.valid() && pin.spec_bytes().len() <= u32::MAX ==> hashed is Ok,
        argon2_params.parallelism > MAX_PARALLELISM ==> hashed is Err,
{
    match hash(pin.as_bytes(), argon2_params) {
        Ok(made) => Ok(made),
        Err(_) => Err(GeneratorError::HashPassword),
    }
}

/// Decides what the generator does with its command line.
pub fn try_main(args: &CliArgs) -> (plan: Result<Plan, GeneratorError>)
    ensures
        match plan {
            Ok(accepted) => args.spec_plan() == Ok::<PlanView, GeneratorError>(accepted@),
            Err(error) => args.spec_plan() == Err::<PlanView, GeneratorError>(error),
        },
{
    match args.validate() {
        Ok(_) => {},
        Err(error) => return Err(error),
    }
    let cost = match args.argon2_params() {
        Ok(cost) => cost,
        Err(error) => return Err(error),
    };
    if args.benchmark {
        Ok(Plan { cost, fixed_pin: Some(String::from_str("Pin")), username: None })
    } else {
        match &args.username {
            Some(name) => Ok(Plan { cost, fixed_pin: None, username: Some(name.clone()) }),
            None => Err(GeneratorError::NoUsername),
        }
    }
}

/// A command line without a user is refused unless it asks for a benchmark,
/// whatever else it holds.
pub proof fn lemma_user_is_required(args: CliArgs)
    requires
        !args.benchmark,
        args.username is None,
    ensures
        args.spec_plan() == Err::<PlanView, GeneratorError>(GeneratorError::NoUsername),
{
}

/// A benchmark never appends a record, and nothing but a benchmark hashes a
/// PIN that was not asked for.
pub proof fn lemma_benchmark_writes_nothing(args: CliArgs)
    ensures
        args.spec_plan() matches Ok(plan) ==> (plan.username is None <==> args.benchmark) && (
        plan.fixed_pin is Some <==> args.benchmark),
{
}

} // verus!
