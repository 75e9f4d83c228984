//! The clipboard isolation guard.
//!
//! While a code is redeemed the clipboard holds that code. The guard remembers
//! what the user had there and gives it back when the redemption is over,
//! however it ended. What the user had copied is never shown.

use crate::driver::{action_view, Action, ActionView, Reply, ReplyView};
use vstd::prelude::*;

verus! {

/// Why the clipboard could not be isolated.
#[derive(Clone, Copy, Debug, PartialEq, Eq, Structural)]
pub enum ClipboardError {
    /// The clipboard could not be reached.
    Init,
    /// The clipboard could not be read.
    Read,
    /// The clipboard could not be written.
    Write,
}

impl ClipboardError {
    /// The words for the error.
    pub open spec fn text(self) -> Seq<char> {
        match self {
            ClipboardError::Init => "Failed to initialize clipboard"@,
            ClipboardError::Read => "Failed to read from clipboard"@,
            ClipboardError::Write => "Failed to write to clipboard"@,
        }
    }

    /// The words for the error.
    pub fn message(&self) -> (words: &'static str)
        ensures
            words@ == self.text(),
    {
        match self {
            ClipboardError::Init => "Failed to initialize clipboard",
            ClipboardError::Read => "Failed to read from clipboard",
            ClipboardError::Write => "Failed to write to clipboard",
        }
    }
}

/// How far a guard has come.
#[derive(Clone, Copy, Debug, PartialEq, Eq, Structural)]
pub enum GuardStage {
    /// The clipboard is being reached.
    Opening,
    /// The user's text is being read.
    Reading,
    /// The new text is being written.
    Writing,
    /// The clipboard holds the new text; the guard waits to be ended.
    Held,
    /// The user's text is being written back.
    Restoring,
    /// The guard is gone.
    Released,
}

/// The mathematical value of a guard.
pub struct Isolation {
    /// The text that the clipboard is to hold meanwhile.
    pub contents: Seq<char>,
    /// The snapshot: what the user had in the clipboard, while it is owed back.
    pub previous: Option<Seq<char>>,
    pub stage: GuardStage,
    /// What went wrong, if anything did.
    pub failure: Option<ClipboardError>,
}

impl Isolation {
    /// A guard that is about to isolate the clipboard around `contents`.
    pub open spec fn begin(contents: Seq<char>) -> Isolation {
        Isolation { contents, previous: None, stage: GuardStage::Opening, failure: None }
    }

    /// The states a guard can be in. A snapshot exists exactly from the
    /// moment it was read until it has been written back.
    pub open spec fn wf(self) -> bool {
        match self.stage {
            GuardStage::Opening | GuardStage::Reading => self.previous is None
                && self.failure is None,
            GuardStage::Writing | GuardStage::Held => self.previous is Some
                && self.failure is None,
            GuardStage::Restoring => self.previous is Some && (self.failure is None
                || self.failure == Some(ClipboardError::Write)),
            GuardStage::Released => self.previous is None,
        }
    }

    /// What the guard asks of the driver, if anything.
    pub open spec fn pending(self) -> Option<ActionView> {
        match self.stage {
            GuardStage::Opening => Some(ActionView::OpenClipboard),
            GuardStage::Reading => Some(ActionView::ReadClipboard),
            GuardStage::Writing => Some(
                ActionView::WriteClipboard { contents: self.contents, show: true },
            ),
            GuardStage::Restoring => match self.previous {
                Some(text) => Some(ActionView::WriteClipboard { contents: text, show: false }),
                None => None,
            },
            GuardStage::Held | GuardStage::Released => None,
        }
    }

    /// The guard after the driver has answered what was pending. A guard that
    /// asked nothing is left as it is.
    pub open spec fn resolved(self, reply: ReplyView) -> Isolation {
        match self.stage {
            GuardStage::Opening => if reply is Done {
                Isolation { stage: GuardStage::Reading, ..self }
            } else {
                Isolation {
                    stage: GuardStage::Released,
                    failure: Some(ClipboardError::Init),
                    ..self
                }
            },
            GuardStage::Reading => match reply {
                ReplyView::Text(text) => Isolation {
                    stage: GuardStage::Writing,
                    previous: Some(text),
                    ..self
                },
                _ => Isolation {
                    stage: GuardStage::Released,
                    failure: Some(ClipboardError::Read),
                    ..self
                },
            },
            GuardStage::Writing => if reply is Done {
                Isolation { stage: GuardStage::Held, ..self }
            } else {
                Isolation {
                    stage: GuardStage::Restoring,
                    failure: Some(ClipboardError::Write),
                    ..self
                }
            },
            GuardStage::Restoring => Isolation {
                stage: GuardStage::Released,
                previous: None,
                ..self
            },
            GuardStage::Held | GuardStage::Released => self,
        }
    }

    /// The guard after its scope has ended: one that held the clipboard starts
    /// to give it back. Any other is left as it is.
    pub open spec fn ended(self) -> Isolation {
        if self.stage == GuardStage::Held {
            Isolation { stage: GuardStage::Restoring, ..self }
        } else {
            self
        }
    }
}

/// The guard around one redemption.
#[derive(Debug)]
pub struct ClipboardIsolation {
    new_clipboard: String,
    previous_clipboard: Option<String>,
    stage: GuardStage,
    failure: Option<ClipboardError>,
}

impl View for ClipboardIsolation {
    type V = Isolation;

    closed spec fn view(&self) -> Isolation {
        Isolation {
            contents: self.new_clipboard@,
            previous: match self.previous_clipboard {
                Some(text) => Some(text@),
                None => None,
            },
            stage: self.stage,
            failure: self.failure,
        }
    }
}

impl ClipboardIsolation {
    #[verifier::type_invariant]
    spec fn valid(&self) -> bool {
        self@.wf()
    }

    /// Starts to isolate the clipboard around `new_clipboard`.
    pub fn isolate(new_clipboard: String) -> (guard: ClipboardIsolation)
        ensures
            guard@ == Isolation::begin(new_clipboard@),
    {
        ClipboardIsolation {
            new_clipboard,
            previous_clipboard: None,
            stage: GuardStage::Opening,
            failure: None,
        }
    }

    /// How far the guard has come.
    pub fn stage(&self) -> (stage: GuardStage)
        ensures
            stage == self@.stage,
            self@.wf(),
    {
        proof {
            use_type_invariant(self);
        }
        self.stage
    }

    /// What went wrong, if anything did.
    pub fn failure(&self) -> (failure: Option<ClipboardError>)
        ensures
            failure == self@.failure,
    {
        self.failure
    }

    /// What the guard asks of the driver, if anything.
    pub fn pending(&self) -> (action: Option<Action>)
        ensures
            action_view(action) == self@.pending(),
    {
        proof {
            use_type_invariant(self);
        }
        match self.stage {
            GuardStage::Opening => Some(Action::OpenClipboard),
            GuardStage::Reading => Some(Action::ReadClipboard),
            GuardStage::Writing => Some(
                Action::WriteClipboard { contents: self.new_clipboard.clone(), show: true },
            ),
            GuardStage::Restoring => match &self.previous_clipboard {
                Some(text) => Some(Action::WriteClipboard { contents: text.clone(), show: false }),
                None => None,
            },
            GuardStage::Held | GuardStage::Released => None,
        }
    }

    /// Takes the driver's answer to what was pending.
    pub fn resolve(self, reply: Reply) -> (next: ClipboardIsolation)
        ensures
            next@ == self@.resolved(reply@),
            next@.wf(),
    {
        proof {
            use_type_invariant(&self);
        }
        let ClipboardIsolation { new_clipboard, previous_clipboard, stage, failure } = self;
        match stage {
            GuardStage::Opening => match reply {
                Reply::Done => ClipboardIsolation {
                    new_clipboard,
                    previous_clipboard,
                    stage: GuardStage::Reading,
                    failure,
                },
                _ => ClipboardIsolation {
                    new_clipboard,
                    previous_clipboard,
                    stage: GuardStage::Released,
                    failure: Some(ClipboardError::Init),
                },
            },
            GuardStage::Reading => match reply {
                Reply::Text(text) => ClipboardIsolation {
                    new_clipboard,
                    previous_clipboard: Some(text),
                    stage: GuardStage::Writing,
                    failure,
                },
                _ => ClipboardIsolation {
                    new_clipboard,
                    previous_clipboard,
                    stage: GuardStage::Released,
                    failure: Some(ClipboardError::Read),
                },
            },
            GuardStage::Writing => match reply {
                Reply::Done => ClipboardIsolation {
                    new_clipboard,
                    previous_clipboard,
                    stage: GuardStage::Held,
                    failure,
                },
                _ => ClipboardIsolation {
                    new_clipboard,
                    previous_clipboard,
                    stage: GuardStage::Restoring,
                    failure: Some(ClipboardError::Write),
                },
            },
            GuardStage::Restoring => ClipboardIsolation {
                new_clipboard,
                previous_clipboard: None,
                stage: GuardStage::Released,
                failure,
            },
            GuardStage::Held | GuardStage::Released => ClipboardIsolation {
                new_clipboard,
                previous_clipboard,
                stage,
                failure,
            },
        }
    }

    /// Ends the guard's scope: a guard that held the clipboard starts to give
    /// it back.
    pub fn end(self) -> (next: ClipboardIsolation)
        ensures
            next@ == self@.ended(),
            next@.wf(),
    {
        proof {
            use_type_invariant(&self);
        }
        let ClipboardIsolation { new_clipboard, previous_clipboard, stage, failure } = self;
        match stage {
            GuardStage::Held => ClipboardIsolation {
                new_clipboard,
                previous_clipboard,
                stage: GuardStage::Restoring,
                failure,
            },
            _ => ClipboardIsolation { new_clipboard, previous_clipboard, stage, failure },
        }
    }
}

} // verus!
