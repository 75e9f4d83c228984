//! From the command line and the configuration to a run.

use crate::batch::{texts, Batch, BatchError, BatchState};
use crate::cli::Args;
use crate::config::{ConfigFile, Instructions, Strategy};
use crate::interaction::Interactor;
use crate::remote::{get_codes, Fetch, FetchState};
use vstd::prelude::*;

verus! {

/// What every run needs to know.
#[derive(Clone, Copy, Debug, PartialEq, Eq, Structural)]
pub struct Settings {
    pub slow: bool,
    pub verbose: bool,
    pub instructions: Instructions,
}

/// A run on codes of the command line.
#[derive(Clone, Debug, PartialEq, Eq)]
pub struct LocalInstructions {
    pub codes: Vec<String>,
    pub settings: Settings,
}

/// A run on codes that are fetched first.
#[derive(Clone, Debug, PartialEq, Eq)]
pub struct RemoteInstructions {
    pub url: Option<String>,
    pub max_retries: u8,
    pub settings: Settings,
}

/// What a run is to do.
#[derive(Clone, Debug, PartialEq, Eq)]
pub enum RunInstructions {
    Local(LocalInstructions),
    Remote(RemoteInstructions),
}

/// Why a run did not succeed.
#[derive(Clone, Copy, Debug, PartialEq, Eq, Structural)]
pub enum RunError {
    /// Codes are needed from the command line, and there are none.
    NoCodes,
    /// At least one code was not redeemed.
    Redemption,
}

impl RunError {
    /// The words for the error.
    pub open spec fn text(self) -> Seq<char> {
        match self {
            RunError::NoCodes => "No codes provided, pass --codes or permit remote retrieval of codes in the setup"@,
            RunError::Redemption => "Failed to redeem at least 1 code"@,
        }
    }

    /// The words for the error.
    pub fn message(&self) -> (words: &'static str)
        ensures
            words@ == self.text(),
    {
        match self {
            RunError::NoCodes => "No codes provided, pass --codes or permit remote retrieval of codes in the setup",
            RunError::Redemption => "Failed to redeem at least 1 code",
        }
    }
}

/// A run that has been started: the machine that its driver steps.
#[derive(Debug)]
pub enum Running {
    /// The batch of the codes of the command line.
    Local(Batch),
    /// The fetch of the codes; `settings` are for the batch that follows.
    Remote { fetch: Fetch, url: Option<String>, settings: Settings },
}

impl Settings {
    /// The settings of a run: the pace and the talkativeness are those of
    /// the command line, the places on the screen those of the configuration.
    pub fn from(matches: &Args, config: &ConfigFile) -> (settings: Settings)
        ensures
            settings == (Settings {
                slow: matches.slow,
                verbose: matches.verbose,
                instructions: config.instructions,
            }),
    {
        Settings {
            slow: matches.slow,
            verbose: matches.verbose,
            instructions: config.instructions,
        }
    }

    /// The interactor of a run with these settings.
    pub fn interactor(&self) -> (interactor: Interactor)
        ensures
            interactor.instructions() == self.instructions,
            interactor.slow() == self.slow,
            interactor.verbose() == self.verbose,
    {
        Interactor::new(self.instructions, self.slow, self.verbose)
    }
}

/// Whether the codes have to come from the command line: no service is
/// configured, and either the command line asks for one or the configuration
/// does not prefer one.
pub open spec fn requires_local_codes(matches: Args, config: ConfigFile) -> bool {
    config.remote is None && (matches.prefer_remote || config.default_strategy
        != Strategy::Remote)
}

/// Whether the run is on codes of the command line.
pub open spec fn runs_locally(matches: Args, config: ConfigFile) -> bool {
    matches.codes@.len() > 0 || requires_local_codes(matches, config)
}

impl RunInstructions {
    /// Decides what a run is to do.
    ///
    /// Codes on the command line are redeemed as they are. Without them the
    /// codes are fetched: from the configured service, as often as the
    /// configuration allows, or else once from the service of the command
    /// line or the default one. Where the codes have to come from the
    /// command line and there are none, there is nothing to run.
    pub fn create(matches: Args, config: ConfigFile) -> (created: Result<RunInstructions, RunError>)
        ensures
            runs_locally(matches, config) && matches.codes@.len() == 0 ==> created == Err::<
                RunInstructions,
                RunError,
            >(RunError::NoCodes),
            runs_locally(matches, config) && matches.codes@.len() > 0 ==> created == Ok::<
                RunInstructions,
                RunError,
            >(
                RunInstructions::Local(
                    LocalInstructions {
                        codes: matches.codes,
                        settings: Settings {
                            slow: matches.slow,
                            verbose: matches.verbose,
                            instructions: config.instructions,
                        },
                    },
                ),
            ),
            !runs_locally(matches, config) ==> created == Ok::<RunInstructions, RunError>(
                RunInstructions::Remote(
                    RemoteInstructions {
                        url: match config.remote {
                            Some(remote) => remote.url,
                            None => matches.url,
                        },
                        max_retries: match config.remote {
                            Some(remote) => remote.max_retries,
                            None => 1,
                        },
                        settings: Settings {
                            slow: matches.slow,
                            verbose: matches.verbose,
                            instructions: config.instructions,
                        },
                    },
                ),
            ),
    {
        let require_local_codes = config.remote.is_none() && (matches.prefer_remote || (
        match config.default_strategy {
            Strategy::Remote => false,
            Strategy::Local => true,
        }));
        let is_codes_empty = matches.codes.len() == 0;
        let settings = Settings::from(&matches, &config);
        if !is_codes_empty || require_local_codes {
            if is_codes_empty {
                return Err(RunError::NoCodes);
            }
            Ok(RunInstructions::Local(LocalInstructions { codes: matches.codes, settings }))
        } else {
            let (url, max_retries) = match config.remote {
                None => (matches.url, 1),
                Some(remote) => (remote.url, remote.max_retries),
            };
            Ok(RunInstructions::Remote(RemoteInstructions { url, max_retries, settings }))
        }
    }
}

/// Starts a run: the batch of the codes of the command line, or the fetch of
/// the codes to redeem.
pub fn run(instructions: RunInstructions) -> (running: Running)
    ensures
        match instructions {
            RunInstructions::Local(local) => running matches Running::Local(batch) && batch@
                == BatchState::begin(
                texts(local.codes@),
                local.settings.instructions.unlock_chest,
                local.settings.slow,
            ),
            RunInstructions::Remote(remote) => running matches Running::Remote {
                fetch,
                url,
                settings,
            } && fetch@ == FetchState::begin(remote.max_retries) && url == remote.url && settings
                == remote.settings,
        },
{
    match instructions {
        RunInstructions::Local(local) => Running::Local(run_local(local)),
        RunInstructions::Remote(remote) => {
            let settings = remote.settings;
            let RemoteInstructions { url, max_retries, settings: _ } = remote;
            Running::Remote { fetch: get_codes(max_retries), url, settings }
        },
    }
}

/// Starts the batch of a run on codes of the command line.
pub fn run_local(instructions: LocalInstructions) -> (batch: Batch)
    ensures
        batch@ == BatchState::begin(
            texts(instructions.codes@),
            instructions.settings.instructions.unlock_chest,
            instructions.settings.slow,
        ),
        batch@.wf(),
{
    let interactor = instructions.settings.interactor();
    interactor.redeem_many(instructions.codes)
}

/// Starts the batch of a run on the codes that were fetched.
pub fn run_remote(settings: Settings, codes: Vec<String>) -> (batch: Batch)
    ensures
        batch@ == BatchState::begin(texts(codes@), settings.instructions.unlock_chest, settings.slow),
        batch@.wf(),
{
    let interactor = settings.interactor();
    interactor.redeem_many(codes)
}

/// What a run makes of how its batch ended: a batch with a code that was
/// not redeemed, or with a pointer that let it down, fails the run.
pub fn conclude(outcome: &Result<(), BatchError>) -> (concluded: Result<(), RunError>)
    ensures
        outcome is Ok ==> concluded == Ok::<(), RunError>(()),
        outcome is Err ==> concluded == Err::<(), RunError>(RunError::Redemption),
{
    match outcome {
        Ok(()) => Ok(()),
        Err(_) => Err(RunError::Redemption),
    }
}

} // verus!
