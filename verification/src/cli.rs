//! The command line, once it has been parsed.

use vstd::prelude::*;

verus! {

/// What to do with the configuration instead of redeeming codes.
#[derive(Clone, Copy, Debug, PartialEq, Eq, Structural)]
pub enum ConfigCommand {
    /// Print the directory of the configuration.
    Dir,
    /// Remove the configuration file.
    Clean,
    /// Run the setup.
    Setup,
    /// Switch the default strategy.
    ChangeStrategy,
}

/// The arguments of the command line.
#[derive(Clone, Debug, PartialEq, Eq)]
pub struct Args {
    /// The service to fetch codes from.
    pub url: Option<String>,
    /// Prefer to fetch codes.
    pub prefer_remote: bool,
    /// The codes to redeem.
    pub codes: Vec<String>,
    /// What to do with the configuration.
    pub config: Option<ConfigCommand>,
    /// Do not wait for the user.
    pub no_interaction: bool,
    /// Make every wait longer.
    pub slow: bool,
    /// Say what is done.
    pub verbose: bool,
}

/// Why the arguments are refused.
#[derive(Clone, Copy, Debug, PartialEq, Eq, Structural)]
pub enum CliError {
    /// Codes were given together with a service to fetch codes from.
    UrlAndCodes,
}

impl CliError {
    /// The words for the error.
    pub open spec fn text(self) -> Seq<char> {
        "Cannot use both --url and --codes"@
    }

    /// The words for the error.
    pub fn message(&self) -> (words: &'static str)
        ensures
            words@ == self.text(),
    {
        "Cannot use both --url and --codes"
    }
}

/// Whether the arguments name both a service and codes.
pub open spec fn conflicting(args: Args) -> bool {
    args.url is Some && args.codes@.len() > 0
}

/// Hands the arguments back unchanged, unless they name both a service to
/// fetch codes from and codes.
pub fn validate(args: Args) -> (checked: Result<Args, CliError>)
    ensures
        conflicting(args) ==> checked == Err::<Args, CliError>(CliError::UrlAndCodes),
        !conflicting(args) ==> checked == Ok::<Args, CliError>(args),
{
    if args.url.is_some() && args.codes.len() > 0 {
        return Err(CliError::UrlAndCodes);
    }
    Ok(args)
}

} // verus!
