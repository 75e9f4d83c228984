//! The interactor: what a redemption does to the screen, step by step.
//!
//! A code is redeemed blind. Nothing is read back from the screen, so every
//! step is followed by a wait that is long enough for the animation it starts,
//! and the keys sent after the code has been confirmed serve both outcomes:
//! the cards to flip when the code was good, the message to dismiss when it
//! was not. A key that meets nothing to act on does no harm.

use crate::batch::{texts, Batch, BatchState};
use crate::clipboard::ClipboardError;
use crate::config::Instructions;
use crate::driver::{Button, Coordinates, Direction, Input, Key};
use crate::redemption::{Redemption, RedemptionState};
use vstd::prelude::*;
use vstd::std_specs::iter::IteratorSpec;

verus! {

/// The length of a short code, without its dashes.
pub const CHEST_CODE_LENGTH_SHORT: usize = 12;

/// The length of a long code, without its dashes.
pub const CHEST_CODE_LENGTH_LONG: usize = 16;

/// What a slow run adds to every wait, in milliseconds.
pub const SLOW_EXTRA_MILLIS: u64 = 500;

/// The wait between moving the pointer and clicking, in milliseconds.
pub const CLICK_SETTLE_MILLIS: u64 = 10;

/// Why a code was refused before anything was done with it.
#[derive(Clone, Copy, Debug, PartialEq, Eq, Structural)]
pub enum ValidationError {
    /// Without its dashes the code is neither 12 nor 16 characters long.
    InvalidCodeLength,
}

/// The call on the input driver that failed.
#[derive(Clone, Copy, Debug, PartialEq, Eq, Structural)]
pub enum DeviceActionError {
    MoveMouse,
    ClickMouse,
    PressKey,
    ReleaseKey,
}

/// Why a code was not redeemed.
#[derive(Clone, Copy, Debug, PartialEq, Eq, Structural)]
pub enum RedeemError {
    /// The code was refused; nothing was done.
    Validation(ValidationError),
    /// The clipboard could not be isolated.
    Clipboard(ClipboardError),
    /// The click on the screen failed.
    SendClick(DeviceActionError),
    /// Pasting the code failed.
    Paste(DeviceActionError),
    /// A key could not be sent.
    SendKeypress(DeviceActionError),
}

impl ValidationError {
    /// The words for the error.
    pub open spec fn text(self) -> Seq<char> {
        "Code must be 12 or 16 characters long"@
    }

    /// The words for the error.
    pub fn message(&self) -> (words: &'static str)
        ensures
            words@ == self.text(),
    {
        "Code must be 12 or 16 characters long"
    }
}

impl DeviceActionError {
    /// The words for the error.
    pub open spec fn text(self) -> Seq<char> {
        match self {
            DeviceActionError::MoveMouse => "Failed to move mouse"@,
            DeviceActionError::ClickMouse => "Failed to click mouse"@,
            DeviceActionError::PressKey => "Failed to press key"@,
            DeviceActionError::ReleaseKey => "Failed to release key"@,
        }
    }

    /// The words for the error.
    pub fn message(&self) -> (words: &'static str)
        ensures
            words@ == self.text(),
    {
        match self {
            DeviceActionError::MoveMouse => "Failed to move mouse",
            DeviceActionError::ClickMouse => "Failed to click mouse",
            DeviceActionError::PressKey => "Failed to press key",
            DeviceActionError::ReleaseKey => "Failed to release key",
        }
    }
}

impl RedeemError {
    /// The words for the error. A failed click or key is named by what the
    /// redemption was doing, a failed paste by the call that failed.
    pub open spec fn text(self) -> Seq<char> {
        match self {
            RedeemError::Validation(error) => error.text(),
            RedeemError::Clipboard(error) => error.text(),
            RedeemError::SendClick(_) => "Failed to send click"@,
            RedeemError::Paste(error) => error.text(),
            RedeemError::SendKeypress(_) => "Failed to send keypress"@,
        }
    }

    /// The words for the error.
    pub fn message(&self) -> (words: &'static str)
        ensures
            words@ == self.text(),
    {
        match self {
            RedeemError::Validation(error) => error.message(),
            RedeemError::Clipboard(error) => error.message(),
            RedeemError::SendClick(_) => "Failed to send click",
            RedeemError::Paste(error) => error.message(),
            RedeemError::SendKeypress(_) => "Failed to send keypress",
        }
    }
}

/// One step of a redemption: a call on the input driver and the wait that
/// follows it.
#[derive(Clone, Copy, Debug, PartialEq, Eq, Structural)]
pub struct Step {
    /// The call.
    pub input: Input,
    /// The wait after the call, in milliseconds.
    pub dwell: u64,
    /// What the redemption fails with if the call fails.
    pub fault: RedeemError,
}

/// `raw` without its dashes.
pub open spec fn strip_dashes(raw: Seq<char>) -> Seq<char> {
    raw.filter(|c: char| c != '-')
}

/// Whether a code without dashes has one of the two lengths of a code.
pub open spec fn valid_length(code: Seq<char>) -> bool {
    code.len() == CHEST_CODE_LENGTH_SHORT || code.len() == CHEST_CODE_LENGTH_LONG
}

/// The code as it is typed into the dialog, or why it is refused.
pub open spec fn normalized(raw: Seq<char>) -> Result<Seq<char>, ValidationError> {
    if valid_length(strip_dashes(raw)) {
        Ok(strip_dashes(raw))
    } else {
        Err(ValidationError::InvalidCodeLength)
    }
}

/// A wait of `millis` milliseconds as a run waits it: a slow run adds
/// `SLOW_EXTRA_MILLIS`.
pub open spec fn dwell(millis: u64, slow: bool) -> u64 {
    if !slow {
        millis
    } else if millis + SLOW_EXTRA_MILLIS > u64::MAX {
        u64::MAX
    } else {
        (millis + SLOW_EXTRA_MILLIS) as u64
    }
}

/// A click of the left button at `coords`: the pointer moves there, settles,
/// and clicks; `dwell` is the wait after the click.
pub open spec fn click_steps(coords: Coordinates, dwell: u64) -> Seq<Step> {
    seq![
        Step {
            input: Input::MovePointer(coords),
            dwell: CLICK_SETTLE_MILLIS,
            fault: RedeemError::SendClick(DeviceActionError::MoveMouse),
        },
        Step {
            input: Input::Click(Button::Left),
            dwell,
            fault: RedeemError::SendClick(DeviceActionError::ClickMouse),
        },
    ]
}

/// A click of `key`, and the wait after it.
pub open spec fn key_step(key: Key, dwell: u64) -> Step {
    Step {
        input: Input::Key(key, Direction::Click),
        dwell,
        fault: RedeemError::SendKeypress(DeviceActionError::PressKey),
    }
}

/// Pasting the clipboard: the control key goes down, `v` is clicked, the
/// control key comes up. The two waits in between let the application see
/// each key on its own; `dwell` is the wait after the last.
pub open spec fn paste_steps(slow: bool, dwell: u64) -> Seq<Step> {
    seq![
        Step {
            input: Input::Key(Key::Control, Direction::Press),
            dwell: self::dwell(25, slow),
            fault: RedeemError::Paste(DeviceActionError::PressKey),
        },
        Step {
            input: Input::Key(Key::Unicode('v'), Direction::Click),
            dwell: self::dwell(25, slow),
            fault: RedeemError::Paste(DeviceActionError::PressKey),
        },
        Step {
            input: Input::Key(Key::Control, Direction::Release),
            dwell,
            fault: RedeemError::Paste(DeviceActionError::ReleaseKey),
        },
    ]
}

/// The number of times the space key is sent to flip cards.
pub const CARD_FLIPS: usize = 6;

/// The steps that redeem the code in the clipboard, in order:
///
/// - click "unlock chest" and wait for the dialog to open;
/// - paste the code;
/// - confirm with the return key and wait for the chest to open;
/// - flip up to `CARD_FLIPS` cards with the space key;
/// - dismiss the message that a bad code brings up, with the escape key;
/// - close the dialog with the escape key, and acknowledge a last card with
///   the space key.
pub open spec fn script(target: Coordinates, slow: bool) -> Seq<Step> {
    click_steps(target, dwell(2500, slow)) + paste_steps(slow, dwell(1500, slow)) + seq![
        key_step(Key::Return, dwell(5000, slow)),
    ] + Seq::new(CARD_FLIPS as nat, |i: int| key_step(Key::Space, dwell(10, slow))) + seq![
        key_step(Key::Escape, dwell(1000, slow)),
        key_step(Key::Escape, dwell(3000, slow)),
        key_step(Key::Space, dwell(500, slow)),
    ]
}

/// The script has fifteen steps, whatever the target and the pace.
pub proof fn lemma_script_len(target: Coordinates, slow: bool)
    ensures
        script(target, slow).len() == 15,
{
}

/// Redeems codes at the places that `instructions` names.
#[derive(Clone, Copy, Debug)]
pub struct Interactor {
    instructions: Instructions,
    slow: bool,
    verbose: bool,
}

impl Interactor {
    /// The places on the screen.
    pub closed spec fn spec_instructions(&self) -> Instructions {
        self.instructions
    }

    /// Whether every wait is longer.
    pub closed spec fn spec_slow(&self) -> bool {
        self.slow
    }

    /// Whether the driver is to say what it does.
    pub closed spec fn spec_verbose(&self) -> bool {
        self.verbose
    }

    /// An interactor for the given places and pace.
    pub fn new(instructions: Instructions, slow: bool, verbose: bool) -> (interactor: Interactor)
        ensures
            interactor.instructions() == instructions,
            interactor.slow() == slow,
            interactor.verbose() == verbose,
    {
        Interactor { instructions, slow, verbose }
    }

    /// The places on the screen.
    #[verifier::when_used_as_spec(spec_instructions)]
    pub fn instructions(&self) -> (instructions: Instructions)
        ensures
            instructions == self.instructions(),
    {
        self.instructions
    }

    /// Whether every wait is longer.
    #[verifier::when_used_as_spec(spec_slow)]
    pub fn slow(&self) -> (slow: bool)
        ensures
            slow == self.slow(),
    {
        self.slow
    }

    /// Whether the driver is to say what it does.
    #[verifier::when_used_as_spec(spec_verbose)]
    pub fn verbose(&self) -> (verbose: bool)
        ensures
            verbose == self.verbose(),
    {
        self.verbose
    }

    /// Checks that a code without dashes has one of the two lengths of a code.
    pub fn validate(&self, code: &str) -> (checked: Result<(), ValidationError>)
        ensures
            checked is Ok <==> valid_length(code@),
            checked is Err ==> checked == Err::<(), ValidationError>(
                ValidationError::InvalidCodeLength,
            ),
    {
        let length = code.unicode_len();
        if length != CHEST_CODE_LENGTH_SHORT && length != CHEST_CODE_LENGTH_LONG {
            return Err(ValidationError::InvalidCodeLength);
        }
        Ok(())
    }

    /// Removes the dashes from a code and checks its length.
    pub fn normalize(&self, code: &str) -> (result: Result<String, ValidationError>)
        ensures
            match result {
                Ok(clean) => normalized(code@) == Ok::<Seq<char>, ValidationError>(clean@),
                Err(error) => normalized(code@) == Err::<Seq<char>, ValidationError>(error),
            },
    {
        broadcast use vstd::string::group_string_axioms;

        let mut clean = String::new();
        let ghost text = code@;
        let chars = code.chars();
        assert(chars.remaining() == text);
        assert(strip_dashes(text.take(0)) == Seq::<char>::empty()) by {
            reveal(Seq::filter);
        }
        for c in it: chars
            invariant
                it.seq() == text,
                clean@ == strip_dashes(text.take(it.index())),
        {
            proof {
                let k = it.index();
                assert(text.take(k + 1) == text.take(k).push(text[k]));
                text.take(k).lemma_filter_push(text[k], |c: char| c != '-');
            }
            if c != '-' {
                clean.push(c);
            }
        }
        assert(text.take(text.len() as int) == text);
        match self.validate(clean.as_str()) {
            Ok(()) => Ok(clean),
            Err(error) => Err(error),
        }
    }

    /// A wait of `millis` milliseconds at this interactor's pace.
    pub fn dwell(&self, millis: u64) -> (wait: u64)
        ensures
            wait == dwell(millis, self.slow()),
    {
        if self.slow {
            millis.saturating_add(SLOW_EXTRA_MILLIS)
        } else {
            millis
        }
    }

    /// The steps of a click of the left button at `coords`, with `dwell`
    /// milliseconds of wait after it.
    pub fn send_click(&self, coords: &Coordinates, dwell: u64) -> (steps: Vec<Step>)
        ensures
            steps@ == click_steps(*coords, dwell),
    {
        let mut steps: Vec<Step> = Vec::new();
        steps.push(
            Step {
                input: Input::MovePointer(*coords),
                dwell: CLICK_SETTLE_MILLIS,
                fault: RedeemError::SendClick(DeviceActionError::MoveMouse),
            },
        );
        steps.push(
            Step {
                input: Input::Click(Button::Left),
                dwell,
                fault: RedeemError::SendClick(DeviceActionError::ClickMouse),
            },
        );
        assert(steps@ == click_steps(*coords, dwell));
        steps
    }

    /// The step that clicks `key`, with `dwell` milliseconds of wait after it.
    pub fn send_keyclick(&self, key: Key, dwell: u64) -> (step: Step)
        ensures
            step == key_step(key, dwell),
    {
        Step {
            input: Input::Key(key, Direction::Click),
            dwell,
            fault: RedeemError::SendKeypress(DeviceActionError::PressKey),
        }
    }

    /// The steps that paste the clipboard, with `dwell` milliseconds of wait
    /// after the last.
    pub fn paste_clipboard(&self, dwell: u64) -> (steps: Vec<Step>)
        ensures
            steps@ == paste_steps(self.slow(), dwell),
    {
        let between = self.dwell(25);
        let mut steps: Vec<Step> = Vec::new();
        steps.push(
            Step {
                input: Input::Key(Key::Control, Direction::Press),
                dwell: between,
                fault: RedeemError::Paste(DeviceActionError::PressKey),
            },
        );
        steps.push(
            Step {
                input: Input::Key(Key::Unicode('v'), Direction::Click),
                dwell: between,
                fault: RedeemError::Paste(DeviceActionError::PressKey),
            },
        );
        steps.push(
            Step {
                input: Input::Key(Key::Control, Direction::Release),
                dwell,
                fault: RedeemError::Paste(DeviceActionError::ReleaseKey),
            },
        );
        assert(steps@ == paste_steps(self.slow(), dwell));
        steps
    }

    /// The steps that redeem the code in the clipboard.
    pub fn script(&self) -> (steps: Vec<Step>)
        ensures
            steps@ == script(self.instructions().unlock_chest, self.slow()),
    {
        let target = self.instructions.unlock_chest;
        let mut steps = self.send_click(&target, self.dwell(2500));
        let mut paste = self.paste_clipboard(self.dwell(1500));
        steps.append(&mut paste);
        steps.push(self.send_keyclick(Key::Return, self.dwell(5000)));
        let ghost head = steps@;
        let flip = self.send_keyclick(Key::Space, self.dwell(10));
        let mut flips: usize = 0;
        while flips < CARD_FLIPS
            invariant
                flips <= CARD_FLIPS,
                steps@ == head + Seq::new(flips as nat, |i: int| flip),
            decreases CARD_FLIPS - flips,
        {
            steps.push(flip);
            flips += 1;
        }
        steps.push(self.send_keyclick(Key::Escape, self.dwell(1000)));
        steps.push(self.send_keyclick(Key::Escape, self.dwell(3000)));
        steps.push(self.send_keyclick(Key::Space, self.dwell(500)));
        assert(steps@ == script(target, self.slow()));
        steps
    }

    /// Starts a batch of `codes`.
    pub fn redeem_many(&self, codes: Vec<String>) -> (batch: Batch)
        ensures
            batch@ == BatchState::begin(
                texts(codes@),
                self.instructions().unlock_chest,
                self.slow(),
            ),
            batch@.wf(),
    {
        Batch::begin(*self, codes)
    }

    /// Starts the redemption of `code`. A code of the wrong length is refused
    /// at once, before anything is asked of the driver.
    pub fn redeem(&self, code: &str) -> (started: Result<Redemption, RedeemError>)
        ensures
            match started {
                Ok(redemption) => normalized(code@) is Ok && redemption@
                    == RedemptionState::begin(
                    normalized(code@)->Ok_0,
                    script(self.instructions().unlock_chest, self.slow()),
                ),
                Err(error) => normalized(code@) is Err && error == RedeemError::Validation(
                    normalized(code@)->Err_0,
                ),
            },
    {
        match self.normalize(code) {
            Ok(clean) => Ok(Redemption::begin(clean, self.script())),
            Err(error) => Err(RedeemError::Validation(error)),
        }
    }
}

} // verus!
