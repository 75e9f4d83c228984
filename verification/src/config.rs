//! What the user has configured.

use crate::driver::Coordinates;
use vstd::prelude::*;

verus! {

/// Where the codes come from when the command line does not say.
#[derive(Clone, Copy, Debug, PartialEq, Eq, Structural)]
pub enum Strategy {
    Local,
    Remote,
}

impl Strategy {
    /// The other strategy.
    pub open spec fn spec_toggled(self) -> Strategy {
        match self {
            Strategy::Local => Strategy::Remote,
            Strategy::Remote => Strategy::Local,
        }
    }

    /// The other strategy.
    #[verifier::when_used_as_spec(spec_toggled)]
    pub fn toggled(self) -> (other: Strategy)
        ensures
            other == self.spec_toggled(),
    {
        match self {
            Strategy::Local => Strategy::Remote,
            Strategy::Remote => Strategy::Local,
        }
    }
}

/// The named places on the screen that a redemption clicks.
#[derive(Clone, Copy, Debug, PartialEq, Eq, Structural)]
pub struct Instructions {
    /// The button that opens the dialog in which a code is entered.
    pub unlock_chest: Coordinates,
}

/// Where codes are fetched from.
#[derive(Clone, Debug, PartialEq, Eq)]
pub struct Remote {
    pub url: Option<String>,
    pub max_retries: u8,
}

/// The configuration file.
#[derive(Clone, Debug, PartialEq, Eq)]
pub struct ConfigFile {
    pub default_strategy: Strategy,
    pub instructions: Instructions,
    pub remote: Option<Remote>,
    pub slow: bool,
}

/// The configuration with the other default strategy, and nothing else
/// changed.
pub fn change_default_strategy(config: ConfigFile) -> (changed: ConfigFile)
    ensures
        changed == (ConfigFile { default_strategy: config.default_strategy.toggled(), ..config }),
{
    let ConfigFile { default_strategy, instructions, remote, slow } = config;
    ConfigFile { default_strategy: default_strategy.toggled(), instructions, remote, slow }
}

/// Changing the default strategy twice changes nothing.
pub proof fn lemma_toggle_twice(strategy: Strategy)
    ensures
        strategy.toggled().toggled() == strategy,
        strategy.toggled() != strategy,
{
}

} // verus!
