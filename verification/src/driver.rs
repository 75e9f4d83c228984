//! The vocabulary between the redemption engine and whoever drives it.
//!
//! The engine touches neither the pointer, the keyboard, the clipboard nor the
//! clock. It names the next `Action`; the driver performs it and hands back a
//! `Reply`, on which the engine decides what comes next.

use crate::progress::{ProgressEvent, ProgressEventView};
use vstd::prelude::*;

verus! {

/// A screen location, in absolute pixels.
#[derive(Clone, Copy, Debug, PartialEq, Eq, Structural)]
pub struct Coordinates {
    pub x: i32,
    pub y: i32,
}

/// A key of the keyboard.
#[derive(Clone, Copy, Debug, PartialEq, Eq, Structural)]
pub enum Key {
    Return,
    Space,
    Escape,
    Control,
    Unicode(char),
}

/// What is done to a key.
#[derive(Clone, Copy, Debug, PartialEq, Eq, Structural)]
pub enum Direction {
    Press,
    Release,
    Click,
}

/// A button of the pointer.
#[derive(Clone, Copy, Debug, PartialEq, Eq, Structural)]
pub enum Button {
    Left,
    Middle,
    Right,
}

/// One call on the input driver.
#[derive(Clone, Copy, Debug, PartialEq, Eq, Structural)]
pub enum Input {
    /// Move the pointer to a location.
    MovePointer(Coordinates),
    /// Press and release a button where the pointer is.
    Click(Button),
    /// Press, release or click a key.
    Key(Key, Direction),
}

/// What the engine asks of its driver.
#[derive(Clone, Debug, PartialEq, Eq)]
pub enum Action {
    /// Get hold of the clipboard.
    OpenClipboard,
    /// Read the clipboard's text; answered by `Reply::Text`.
    ReadClipboard,
    /// Replace the clipboard's text. `show` says whether the text may be
    /// shown to the user: a code may, what the user had copied may not.
    WriteClipboard { contents: String, show: bool },
    /// Call the input driver.
    Input(Input),
    /// Read the pointer's location; answered by `Reply::Position`.
    LocatePointer,
    /// Wait for so many milliseconds.
    Dwell(u64),
    /// Read the cache's file; answered by `Reply::Text`.
    LoadCache,
    /// Replace the cache's file by this text.
    SaveCache(String),
    /// Start a consumer of progress events that expects so many codes.
    StartProgress(usize),
    /// Send an event to the consumer, if there is one.
    Progress(ProgressEvent),
}

/// The mathematical value of an `Action`.
pub enum ActionView {
    OpenClipboard,
    ReadClipboard,
    WriteClipboard { contents: Seq<char>, show: bool },
    Input(Input),
    LocatePointer,
    Dwell(u64),
    LoadCache,
    SaveCache(Seq<char>),
    StartProgress(usize),
    Progress(ProgressEventView),
}

impl View for Action {
    type V = ActionView;

    open spec fn view(&self) -> ActionView {
        match self {
            Action::OpenClipboard => ActionView::OpenClipboard,
            Action::ReadClipboard => ActionView::ReadClipboard,
            Action::WriteClipboard { contents, show } => ActionView::WriteClipboard {
                contents: contents@,
                show: *show,
            },
            Action::Input(input) => ActionView::Input(*input),
            Action::LocatePointer => ActionView::LocatePointer,
            Action::Dwell(millis) => ActionView::Dwell(*millis),
            Action::LoadCache => ActionView::LoadCache,
            Action::SaveCache(text) => ActionView::SaveCache(text@),
            Action::StartProgress(count) => ActionView::StartProgress(*count),
            Action::Progress(event) => ActionView::Progress(event@),
        }
    }
}

impl ActionView {
    /// Whether a driver that answers `reply` has carried the action out. A
    /// wait or a progress event cannot fail; a read succeeds by handing over
    /// what was read; everything else succeeds by `Reply::Done`.
    pub open spec fn succeeded(self, reply: ReplyView) -> bool {
        match self {
            ActionView::ReadClipboard | ActionView::LoadCache => reply is Text,
            ActionView::LocatePointer => reply is Position,
            ActionView::Dwell(_) | ActionView::StartProgress(_) | ActionView::Progress(_) => true,
            _ => reply is Done,
        }
    }
}

/// What the driver answers.
#[derive(Clone, Debug, PartialEq, Eq)]
pub enum Reply {
    /// The action was carried out.
    Done,
    /// The action could not be carried out.
    Failed,
    /// The text that was read.
    Text(String),
    /// The location that was read.
    Position(Coordinates),
}

/// The mathematical value of a `Reply`.
pub enum ReplyView {
    Done,
    Failed,
    Text(Seq<char>),
    Position(Coordinates),
}

impl View for Reply {
    type V = ReplyView;

    open spec fn view(&self) -> ReplyView {
        match self {
            Reply::Done => ReplyView::Done,
            Reply::Failed => ReplyView::Failed,
            Reply::Text(text) => ReplyView::Text(text@),
            Reply::Position(at) => ReplyView::Position(*at),
        }
    }
}

/// The value of an action that may be absent.
pub open spec fn action_view(action: Option<Action>) -> Option<ActionView> {
    match action {
        Some(action) => Some(action@),
        None => None,
    }
}

} // verus!
