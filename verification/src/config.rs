//! What a run is told before it starts: the command line and the credential.

use crate::error::{result_view, BackupError, BackupErrorView};
use vstd::prelude::*;
use vstd::string::StringExecFns;

verus! {

/// The settings of a run.
#[derive(Debug, PartialEq, Eq)]
pub struct Cli {
    /// Whether repositories of other accounts are backed up too.
    pub allow_others_repos: bool,
    /// The directory that receives the archives.
    pub output_path: String,
}

/// What a [`Cli`] stands for in contracts.
pub struct CliView {
    pub allow_others_repos: bool,
    pub output_path: Seq<char>,
}

impl View for Cli {
    type V = CliView;

    open spec fn view(&self) -> CliView {
        CliView { allow_others_repos: self.allow_others_repos, output_path: self.output_path@ }
    }
}

impl DeepView for Cli {
    type V = CliView;

    open spec fn deep_view(&self) -> CliView {
        self@
    }
}

/// The settings of a run that is told nothing: archives go to `./backups`
/// and only the account's own repositories are backed up.
pub open spec fn default_cli() -> CliView {
    CliView { allow_others_repos: false, output_path: "./backups"@ }
}

impl Default for Cli {
    fn default() -> (cli: Self)
        ensures
            cli@ == default_cli(),
    {
        Cli { allow_others_repos: false, output_path: String::from_str("./backups") }
    }
}

impl Clone for Cli {
    fn clone(&self) -> (copy: Self)
        ensures
            copy@ == self@,
    {
        Cli { allow_others_repos: self.allow_others_repos, output_path: self.output_path.clone() }
    }
}

/// The settings that the arguments `args` ask for. `args[0]` is the name of
/// the program. The first argument after it, if there is one, is the output
/// directory. Repositories of other accounts are allowed exactly when the
/// second argument is the flag `--allow-others-repos`.
pub open spec fn cli_of(args: Seq<Seq<char>>) -> CliView {
    CliView {
        allow_others_repos: args.len() > 2 && args[2] == "--allow-others-repos"@,
        output_path: if args.len() > 1 {
            args[1]
        } else {
            default_cli().output_path
        },
    }
}

/// Reads the settings of a run from the arguments of the process, the name
/// of the program first.
pub fn get_cli_args(args: &Vec<String>) -> (cli: Cli)
    ensures
        cli@ == cli_of(args.deep_view()),
{
    let mut cli = Cli::default();
    if args.len() > 1 {
        cli.output_path = args[1].clone();
    }
    if args.len() > 2 {
        let flag = String::from_str("--allow-others-repos");
        if args[2] == flag {
            cli.allow_others_repos = true;
        }
    }
    cli
}

/// The name of the environment variable that holds the credential.
pub open spec fn token_variable_name() -> Seq<char> {
    "GITHUB_AUTH_KEY"@
}

/// The name of the environment variable that holds the credential.
pub fn token_variable() -> (name: &'static str)
    ensures
        name@ == token_variable_name(),
{
    "GITHUB_AUTH_KEY"
}

/// What is said when the credential is missing.
pub open spec fn missing_token_text() -> Seq<char> {
    "$GITHUB_AUTH_KEY is not set"@
}

/// The credential that the value of the variable stands for: the value as
/// it is. Without a value the configuration is at fault.
pub open spec fn resolved_token(value: Option<Seq<char>>) -> Result<Seq<char>, BackupErrorView> {
    match value {
        Some(text) => Ok(text),
        None => Err(BackupErrorView::Config { detail: missing_token_text() }),
    }
}

/// Resolves the credential from the value of the variable
/// [`token_variable`], `None` where the environment does not hold it.
pub fn get_api_token(value: Option<String>) -> (token: Result<String, BackupError>)
    ensures
        result_view(token) == resolved_token(value.deep_view()),
{
    match value {
        Some(text) => Ok(text),
        None => Err(BackupError::Config { detail: String::from_str("$GITHUB_AUTH_KEY is not set") }),
    }
}

} // verus!
