//! The first run: from the place that the user has pointed at to a
//! configuration, and the redemption that shows what a run looks like.

use crate::config::{ConfigFile, Instructions, Strategy};
use crate::driver::Coordinates;
use crate::interaction::{normalized, script, Interactor, RedeemError, ValidationError};
use crate::redemption::{Redemption, RedemptionState};
use vstd::prelude::*;

verus! {

/// The configuration that the setup writes: codes are fetched by default,
/// no service is named, and the pace is the ordinary one.
pub fn setup(unlock_chest: Coordinates) -> (config: ConfigFile)
    ensures
        config.default_strategy == Strategy::Remote,
        config.instructions == (Instructions { unlock_chest }),
        config.remote is None,
        !config.slow,
{
    ConfigFile {
        default_strategy: Strategy::Remote,
        instructions: Instructions { unlock_chest },
        remote: None,
        slow: false,
    }
}

/// The code that the setup redeems for show. It is no code that the
/// application knows, so it runs through every step and earns nothing.
pub open spec fn demo_code() -> Seq<char> {
    "DEMO-REDE-EMER-IDLE"@
}

/// The demo code is one that a redemption accepts.
pub proof fn lemma_demo_code_is_valid()
    ensures
        normalized(demo_code()) == Ok::<Seq<char>, ValidationError>("DEMOREDEEMERIDLE"@),
{
    reveal_strlit("DEMO-REDE-EMER-IDLE");
    reveal_strlit("DEMOREDEEMERIDLE");
    let keep = |c: char| c != '-';
    let raw = demo_code();
    let clean = "DEMOREDEEMERIDLE"@;
    assert(raw =~= seq![
        'D', 'E', 'M', 'O', '-', 'R', 'E', 'D', 'E', '-', 'E', 'M', 'E', 'R', '-', 'I', 'D', 'L',
        'E',
    ]);
    reveal_with_fuel(Seq::filter, 20);
    assert(raw.filter(keep) =~= clean);
}

/// Starts the redemption that the setup shows: that of the demo code, at
/// the ordinary pace and with every step announced.
pub fn demo(instructions: &Instructions) -> (started: Result<Redemption, RedeemError>)
    ensures
        started matches Ok(redemption) && redemption@ == RedemptionState::begin(
            "DEMOREDEEMERIDLE"@,
            script(instructions.unlock_chest, false),
        ),
{
    proof {
        lemma_demo_code_is_valid();
    }
    let interactor = Interactor::new(*instructions, false, true);
    interactor.redeem("DEMO-REDE-EMER-IDLE")
}

} // verus!
