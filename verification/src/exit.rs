//! How the program ends.

use vstd::prelude::*;

verus! {

/// Why the program ends.
#[derive(Clone, Copy, Debug, PartialEq, Eq, Structural)]
pub enum ExitCode {
    Success,
    CliFailed,
    CleanFailed,
    SetupFailed,
    ConfigFailed,
    LocalRunFailed,
    RunFailed,
}

/// The status that the program ends with.
pub open spec fn status(code: ExitCode) -> i32 {
    match code {
        ExitCode::Success => 0,
        ExitCode::CliFailed => 1,
        ExitCode::CleanFailed => 2,
        ExitCode::SetupFailed => 3,
        ExitCode::ConfigFailed => 4,
        ExitCode::LocalRunFailed => 5,
        ExitCode::RunFailed => 7,
    }
}

impl From<ExitCode> for i32 {
    fn from(code: ExitCode) -> (status: i32) {
        match code {
            ExitCode::Success => 0,
            ExitCode::CliFailed => 1,
            ExitCode::CleanFailed => 2,
            ExitCode::SetupFailed => 3,
            ExitCode::ConfigFailed => 4,
            ExitCode::LocalRunFailed => 5,
            ExitCode::RunFailed => 7,
        }
    }
}

impl vstd::std_specs::convert::FromSpecImpl<ExitCode> for i32 {
    open spec fn obeys_from_spec() -> bool {
        true
    }

    open spec fn from_spec(code: ExitCode) -> i32 {
        status(code)
    }
}

/// Only success ends the program with status zero, and no two reasons share
/// a status.
pub proof fn lemma_status_tells(a: ExitCode, b: ExitCode)
    ensures
        status(a) == 0 <==> a == ExitCode::Success,
        status(a) == status(b) <==> a == b,
{
}

} // verus!
