//! The progress channel: what the redemption loop tells its audience, and
//! what the audience makes of it.
//!
//! The loop sends and forgets. Whoever shows the progress polls for events
//! on a thread of its own; whether it is there, behind, or gone makes no
//! difference to the loop.

use vstd::prelude::*;
use vstd::string::StringExecFns;

verus! {

/// How long the consumer rests when it has nothing to show, in milliseconds.
pub const POLL_MILLIS: u64 = 1000;

/// A message from the redemption loop. Nobody acknowledges it, and the loop
/// never waits for it to be read.
#[derive(Clone, Debug, PartialEq, Eq)]
pub enum ProgressEvent {
    /// The redemption of this code begins.
    CodeStarted(String),
    /// One more code has been dealt with, redeemed or not.
    Increment,
    /// The batch is over.
    Finished,
}

/// The mathematical value of a `ProgressEvent`.
pub enum ProgressEventView {
    CodeStarted(Seq<char>),
    Increment,
    Finished,
}

impl View for ProgressEvent {
    type V = ProgressEventView;

    open spec fn view(&self) -> ProgressEventView {
        match self {
            ProgressEvent::CodeStarted(code) => ProgressEventView::CodeStarted(code@),
            ProgressEvent::Increment => ProgressEventView::Increment,
            ProgressEvent::Finished => ProgressEventView::Finished,
        }
    }
}

/// What the consumer does to the bar it shows.
#[derive(Clone, Debug, PartialEq, Eq)]
pub enum BarCommand {
    /// Show this text beside the bar.
    Label(String),
    /// Move the bar on by one.
    Advance,
    /// Fill the bar: the batch is over.
    Finish,
}

/// The mathematical value of a `BarCommand`.
pub enum BarCommandView {
    Label(Seq<char>),
    Advance,
    Finish,
}

impl View for BarCommand {
    type V = BarCommandView;

    open spec fn view(&self) -> BarCommandView {
        match self {
            BarCommand::Label(text) => BarCommandView::Label(text@),
            BarCommand::Advance => BarCommandView::Advance,
            BarCommand::Finish => BarCommandView::Finish,
        }
    }
}

/// What the consumer does after it has looked for an event.
#[derive(Clone, Copy, Debug, PartialEq, Eq, Structural)]
pub enum Pace {
    /// Look for the next event at once.
    Again,
    /// Rest for so many milliseconds, then look again.
    Rest(u64),
    /// Stop: the bar is full.
    Stop,
}

/// What the consumer makes of one look at the channel.
#[derive(Clone, Debug, PartialEq, Eq)]
pub struct Reaction {
    /// What to do to the bar, if anything.
    pub command: Option<BarCommand>,
    /// What to do next.
    pub pace: Pace,
}

/// The text beside the bar while `code` is being redeemed.
pub open spec fn label(code: Seq<char>) -> Seq<char> {
    "Redeeming code "@ + code + ".."@
}

/// What the bar is told on an event, if anything.
pub open spec fn command_for(event: Option<ProgressEventView>) -> Option<BarCommandView> {
    match event {
        Some(ProgressEventView::CodeStarted(code)) => Some(BarCommandView::Label(label(code))),
        Some(ProgressEventView::Increment) => Some(BarCommandView::Advance),
        Some(ProgressEventView::Finished) => Some(BarCommandView::Finish),
        None => None,
    }
}

/// What the consumer does next. After a count or the end of the batch it
/// looks again at once, so as not to fall behind. Otherwise it stops if the
/// bar is full, and rests if it is not.
pub open spec fn pace_for(event: Option<ProgressEventView>, finished: bool) -> Pace {
    match event {
        Some(ProgressEventView::Increment) | Some(ProgressEventView::Finished) => Pace::Again,
        _ => if finished {
            Pace::Stop
        } else {
            Pace::Rest(POLL_MILLIS)
        },
    }
}

/// The value of a command that may be absent.
pub open spec fn command_view(command: Option<BarCommand>) -> Option<BarCommandView> {
    match command {
        Some(command) => Some(command@),
        None => None,
    }
}

/// The value of an event that may be absent.
pub open spec fn event_view(event: Option<ProgressEvent>) -> Option<ProgressEventView> {
    match event {
        Some(event) => Some(event@),
        None => None,
    }
}

/// The consumer of progress events: it remembers whether it has been told
/// that the batch is over.
#[derive(Clone, Copy, Debug, PartialEq, Eq, Structural)]
pub struct Consumer {
    pub finished: bool,
}

impl Consumer {
    /// A consumer that has seen nothing yet.
    pub fn new() -> (consumer: Consumer)
        ensures
            !consumer.finished,
    {
        Consumer { finished: false }
    }

    /// Takes what a look at the channel has brought: an event, or nothing.
    pub fn poll(&mut self, received: Option<ProgressEvent>) -> (reaction: Reaction)
        ensures
            command_view(reaction.command) == command_for(event_view(received)),
            reaction.pace == pace_for(event_view(received), old(self).finished),
            final(self).finished == (old(self).finished || received matches Some(
                ProgressEvent::Finished,
            )),
    {
        match received {
            Some(ProgressEvent::Increment) => Reaction {
                command: Some(BarCommand::Advance),
                pace: Pace::Again,
            },
            Some(ProgressEvent::Finished) => {
                self.finished = true;
                Reaction { command: Some(BarCommand::Finish), pace: Pace::Again }
            },
            Some(ProgressEvent::CodeStarted(code)) => {
                let mut text = "Redeeming code ".to_owned();
                text.append(code.as_str());
                text.append("..");
                Reaction { command: Some(BarCommand::Label(text)), pace: self.rest() }
            },
            None => Reaction { command: None, pace: self.rest() },
        }
    }

    /// What the consumer does when there is nothing more to show right now.
    fn rest(&self) -> (pace: Pace)
        ensures
            pace == if self.finished {
                Pace::Stop
            } else {
                Pace::Rest(POLL_MILLIS)
            },
    {
        if self.finished {
            Pace::Stop
        } else {
            Pace::Rest(POLL_MILLIS)
        }
    }
}

} // verus!
