//! The redemption of one code, as a machine that its driver steps.
//!
//! The machine isolates the clipboard around the code, walks through the
//! script, and gives the clipboard back. A call on the input driver that fails
//! ends the walk at once; the clipboard is given back all the same.

use crate::clipboard::{ClipboardIsolation, GuardStage, Isolation};
use crate::driver::{action_view, Action, ActionView, Reply, ReplyView};
use crate::interaction::{RedeemError, Step};
use vstd::prelude::*;

verus! {

/// The mathematical value of a redemption under way.
pub struct RedemptionState {
    /// The guard around the clipboard.
    pub guard: Isolation,
    /// The steps to take while the clipboard is held.
    pub script: Seq<Step>,
    /// How many steps are over.
    pub cursor: int,
    /// Whether the call of the step at `cursor` is done and its wait is on.
    pub dwelling: bool,
    /// The step that failed, if one did.
    pub fault: Option<RedeemError>,
}

impl RedemptionState {
    /// A redemption of `code` that has not asked anything yet.
    pub open spec fn begin(code: Seq<char>, script: Seq<Step>) -> RedemptionState {
        RedemptionState {
            guard: Isolation::begin(code),
            script,
            cursor: 0,
            dwelling: false,
            fault: None,
        }
    }

    /// The states a redemption can be in.
    pub open spec fn wf(self) -> bool {
        &&& self.guard.wf()
        &&& 0 <= self.cursor <= self.script.len()
        &&& self.dwelling ==> self.cursor < self.script.len()
        &&& self.guard.stage == GuardStage::Held ==> self.cursor < self.script.len()
            && self.fault is None
        &&& (self.guard.stage == GuardStage::Opening || self.guard.stage == GuardStage::Reading
            || self.guard.stage == GuardStage::Writing) ==> self.cursor == 0 && !self.dwelling
            && self.fault is None
        &&& self.fault is Some ==> self.guard.failure is None
    }

    /// Whether the script is at a step: the clipboard is held and steps are left.
    pub open spec fn acting(self) -> bool {
        self.guard.stage == GuardStage::Held && 0 <= self.cursor < self.script.len()
    }

    /// The guard as it is once the script has run out: ended.
    pub open spec fn settled(guard: Isolation, cursor: int, script: Seq<Step>) -> Isolation {
        if cursor >= script.len() {
            guard.ended()
        } else {
            guard
        }
    }

    /// What the redemption asks of the driver; nothing once it is over.
    pub open spec fn pending(self) -> Option<ActionView> {
        if self.guard.pending() is Some {
            self.guard.pending()
        } else if self.acting() {
            if self.dwelling {
                Some(ActionView::Dwell(self.script[self.cursor].dwell))
            } else {
                Some(ActionView::Input(self.script[self.cursor].input))
            }
        } else {
            None
        }
    }

    /// The redemption after the driver has answered what was pending.
    ///
    /// While the guard asks, the answer is the guard's. At a step, a call that
    /// is done is followed by its wait, and a wait by the next step; a call
    /// that is not done ends the guard's scope with the step's fault. The
    /// guard's scope also ends when the last wait is over.
    pub open spec fn resolved(self, reply: ReplyView) -> RedemptionState {
        if self.guard.pending() is Some {
            RedemptionState {
                guard: Self::settled(self.guard.resolved(reply), self.cursor, self.script),
                ..self
            }
        } else if self.acting() {
            if self.dwelling {
                RedemptionState {
                    guard: Self::settled(self.guard, self.cursor + 1, self.script),
                    cursor: self.cursor + 1,
                    dwelling: false,
                    ..self
                }
            } else if reply is Done {
                RedemptionState { dwelling: true, ..self }
            } else {
                RedemptionState {
                    guard: self.guard.ended(),
                    fault: Some(self.script[self.cursor].fault),
                    ..self
                }
            }
        } else {
            self
        }
    }

    /// Whether the redemption is over.
    pub open spec fn finished(self) -> bool {
        self.guard.stage == GuardStage::Released
    }

    /// How the redemption ended, once it is over.
    pub open spec fn outcome(self) -> Option<Result<(), RedeemError>> {
        if !self.finished() {
            None
        } else if self.guard.failure is Some {
            Some(Err(RedeemError::Clipboard(self.guard.failure->0)))
        } else if self.fault is Some {
            Some(Err(self.fault->0))
        } else {
            Some(Ok(()))
        }
    }

    /// The redemption after the driver has answered `replies`, one after the
    /// other.
    pub open spec fn run(self, replies: Seq<ReplyView>) -> RedemptionState
        decreases replies.len(),
    {
        if replies.len() == 0 {
            self
        } else {
            self.resolved(replies[0]).run(replies.drop_first())
        }
    }

    /// The texts that are written back to the clipboard while the driver
    /// answers `replies`, in the order in which they are written.
    pub open spec fn restored(self, replies: Seq<ReplyView>) -> Seq<Seq<char>>
        decreases replies.len(),
    {
        if replies.len() == 0 {
            Seq::empty()
        } else {
            let rest = self.resolved(replies[0]).restored(replies.drop_first());
            match self.pending() {
                Some(ActionView::WriteClipboard { contents, show: false }) => seq![contents] + rest,
                _ => rest,
            }
        }
    }

    /// What the redemption asks while the driver answers `replies`, in order.
    pub open spec fn asked(self, replies: Seq<ReplyView>) -> Seq<ActionView>
        decreases replies.len(),
    {
        if replies.len() == 0 {
            Seq::empty()
        } else {
            let rest = self.resolved(replies[0]).asked(replies.drop_first());
            match self.pending() {
                Some(action) => seq![action] + rest,
                None => rest,
            }
        }
    }

    /// Whether every one of `replies` says that what was asked has been
    /// carried out.
    pub open spec fn willing(self, replies: Seq<ReplyView>) -> bool
        decreases replies.len(),
    {
        if replies.len() == 0 {
            true
        } else {
            &&& self.pending() matches Some(action) ==> action.succeeded(replies[0])
            &&& self.resolved(replies[0]).willing(replies.drop_first())
        }
    }

    /// An upper bound on the number of answers that the redemption still
    /// needs before it is over.
    pub open spec fn steps_left(self) -> nat {
        let walk = (2 * (self.script.len() - self.cursor) + 1) as nat;
        match self.guard.stage {
            GuardStage::Opening => walk + 3,
            GuardStage::Reading => walk + 2,
            GuardStage::Writing => walk + 1,
            GuardStage::Held => if self.dwelling {
                (walk - 1) as nat
            } else {
                walk
            },
            GuardStage::Restoring => 1,
            GuardStage::Released => 0,
        }
    }
}

/// What the steps of `script` ask when none of them fails: every call,
/// followed by its wait.
pub open spec fn walk(script: Seq<Step>) -> Seq<ActionView>
    decreases script.len(),
{
    if script.len() == 0 {
        Seq::empty()
    } else {
        seq![ActionView::Input(script[0].input), ActionView::Dwell(script[0].dwell)] + walk(
            script.drop_first(),
        )
    }
}

/// What a redemption of `code` along `script` asks when nothing fails and
/// the clipboard held `snapshot`: the clipboard is reached and read, the code
/// is put into it, the script is walked, and the snapshot is written back.
pub open spec fn plan(code: Seq<char>, script: Seq<Step>, snapshot: Seq<char>) -> Seq<ActionView> {
    seq![
        ActionView::OpenClipboard,
        ActionView::ReadClipboard,
        ActionView::WriteClipboard { contents: code, show: true },
    ] + walk(script) + seq![ActionView::WriteClipboard { contents: snapshot, show: false }]
}

/// The redemption of one code.
#[derive(Debug)]
pub struct Redemption {
    guard: ClipboardIsolation,
    script: Vec<Step>,
    cursor: usize,
    dwelling: bool,
    fault: Option<RedeemError>,
}

impl View for Redemption {
    type V = RedemptionState;

    closed spec fn view(&self) -> RedemptionState {
        RedemptionState {
            guard: self.guard@,
            script: self.script@,
            cursor: self.cursor as int,
            dwelling: self.dwelling,
            fault: self.fault,
        }
    }
}

impl Redemption {
    #[verifier::type_invariant]
    spec fn valid(&self) -> bool {
        self@.wf()
    }

    /// A redemption of `code`, which is taken as it is, along `script`.
    pub fn begin(code: String, script: Vec<Step>) -> (redemption: Redemption)
        ensures
            redemption@ == RedemptionState::begin(code@, script@),
            redemption@.wf(),
    {
        Redemption {
            guard: ClipboardIsolation::isolate(code),
            script,
            cursor: 0,
            dwelling: false,
            fault: None,
        }
    }

    /// What the redemption asks of the driver; nothing once it is over.
    pub fn pending(&self) -> (action: Option<Action>)
        ensures
            action_view(action) == self@.pending(),
            self@.wf(),
    {
        proof {
            use_type_invariant(self);
        }
        match self.guard.stage() {
            GuardStage::Held => {
                let step = self.script[self.cursor];
                if self.dwelling {
                    Some(Action::Dwell(step.dwell))
                } else {
                    Some(Action::Input(step.input))
                }
            },
            _ => self.guard.pending(),
        }
    }

    /// Takes the driver's answer to what was pending.
    pub fn resolve(self, reply: Reply) -> (next: Redemption)
        ensures
            next@ == self@.resolved(reply@),
            next@.wf(),
    {
        proof {
            use_type_invariant(&self);
        }
        let ghost before = self@;
        let Redemption { guard, script, cursor, dwelling, fault } = self;
        assert(before.guard == guard@ && before.cursor == cursor && before.script == script@);
        match guard.stage() {
            GuardStage::Held => {
                assert(cursor < script.len());
                if dwelling {
                    let guard = if cursor + 1 >= script.len() {
                        guard.end()
                    } else {
                        guard
                    };
                    Redemption { guard, script, cursor: cursor + 1, dwelling: false, fault }
                } else {
                    match reply {
                        Reply::Done => Redemption { guard, script, cursor, dwelling: true, fault },
                        _ => {
                            let fault = Some(script[cursor].fault);
                            Redemption { guard: guard.end(), script, cursor, dwelling, fault }
                        },
                    }
                }
            },
            GuardStage::Released => Redemption { guard, script, cursor, dwelling, fault },
            _ => {
                let guard = guard.resolve(reply);
                let guard = if cursor >= script.len() {
                    guard.end()
                } else {
                    guard
                };
                Redemption { guard, script, cursor, dwelling, fault }
            },
        }
    }

    /// Whether the redemption is over.
    pub fn finished(&self) -> (over: bool)
        ensures
            over == self@.finished(),
    {
        match self.guard.stage() {
            GuardStage::Released => true,
            _ => false,
        }
    }

    /// How the redemption ended, once it is over.
    pub fn outcome(&self) -> (outcome: Option<Result<(), RedeemError>>)
        ensures
            outcome == self@.outcome(),
    {
        if !self.finished() {
            return None;
        }
        match self.guard.failure() {
            Some(error) => Some(Err(RedeemError::Clipboard(error))),
            None => match self.fault {
                Some(fault) => Some(Err(fault)),
                None => Some(Ok(())),
            },
        }
    }
}

/// A redemption stays in the states it can be in.
pub proof fn lemma_redemption_stays_wf(state: RedemptionState, reply: ReplyView)
    requires
        state.wf(),
    ensures
        state.resolved(reply).wf(),
{
}

/// A redemption asks only for the clipboard, for calls on the input driver
/// and for waits.
pub proof fn lemma_redemption_vocabulary(state: RedemptionState)
    ensures
        state.pending() matches Some(action) ==> action is OpenClipboard || action is ReadClipboard
            || action is WriteClipboard || action is Input || action is Dwell,
{
}

/// A redemption asks for something exactly as long as it is not over.
pub proof fn lemma_redemption_asks_until_over(state: RedemptionState)
    requires
        state.wf(),
    ensures
        state.pending() is None <==> state.finished(),
        state.finished() <==> state.outcome() is Some,
{
}

/// Every answer brings a redemption closer to its end, whatever the answer is.
pub proof fn lemma_redemption_advances(state: RedemptionState, reply: ReplyView)
    requires
        state.wf(),
        !state.finished(),
    ensures
        state.resolved(reply).steps_left() < state.steps_left(),
{
}

/// A redemption is over after `steps_left` answers at the latest, whatever
/// they are: after four answers and two for each step of the script.
pub proof fn lemma_redemption_ends(state: RedemptionState, replies: Seq<ReplyView>)
    requires
        state.wf(),
        replies.len() >= state.steps_left(),
    ensures
        state.run(replies).finished(),
        state.run(replies).wf(),
    decreases replies.len(),
{
    if replies.len() == 0 {
    } else {
        let next = state.resolved(replies[0]);
        lemma_redemption_stays_wf(state, replies[0]);
        if !state.finished() {
            lemma_redemption_advances(state, replies[0]);
        }
        lemma_redemption_ends(next, replies.drop_first());
    }
}

/// Once the clipboard's text has been read, it is written back exactly once
/// before the redemption is over, however the redemption goes: whether every
/// step succeeds, a step fails, or the code cannot even be put into the
/// clipboard. Once it has been written back it is not written again.
pub proof fn lemma_snapshot_restored_once(state: RedemptionState, replies: Seq<ReplyView>)
    requires
        state.wf(),
        state.guard.stage != GuardStage::Opening,
        state.guard.stage != GuardStage::Reading,
        state.run(replies).finished(),
    ensures
        state.restored(replies) == match state.guard.previous {
            Some(text) => seq![text],
            None => Seq::<Seq<char>>::empty(),
        },
    decreases replies.len(),
{
    if replies.len() == 0 {
    } else {
        let next = state.resolved(replies[0]);
        lemma_redemption_stays_wf(state, replies[0]);
        lemma_snapshot_restored_once(next, replies.drop_first());
        if state.guard.stage == GuardStage::Restoring {
            assert(seq![state.guard.previous->0] + Seq::<Seq<char>>::empty() == seq![
                state.guard.previous->0,
            ]);
        }
    }
}

/// A redemption that runs to its end writes back to the clipboard exactly
/// what it read from it, once, if it read anything; and nothing if the
/// clipboard could not be reached or read.
pub proof fn lemma_clipboard_restored_once(
    code: Seq<char>,
    script: Seq<Step>,
    replies: Seq<ReplyView>,
)
    requires
        RedemptionState::begin(code, script).run(replies).finished(),
    ensures
        RedemptionState::begin(code, script).restored(replies) == if replies.len() >= 2
            && replies[0] is Done && replies[1] is Text {
            seq![replies[1]->Text_0]
        } else {
            Seq::<Seq<char>>::empty()
        },
{
    let start = RedemptionState::begin(code, script);
    let none = Seq::<Seq<char>>::empty();
    if replies.len() == 0 {
    } else {
        let opened = start.resolved(replies[0]);
        let rest = replies.drop_first();
        assert(start.restored(replies) == opened.restored(rest));
        assert(start.run(replies) == opened.run(rest));
        if replies[0] is Done {
            if rest.len() == 0 {
            } else {
                let read = opened.resolved(rest[0]);
                assert(rest[0] == replies[1]);
                assert(opened.restored(rest) == read.restored(rest.drop_first()));
                assert(opened.run(rest) == read.run(rest.drop_first()));
                lemma_snapshot_restored_once(read, rest.drop_first());
            }
        } else {
            lemma_snapshot_restored_once(opened, rest);
        }
    }
}

/// A call on the input driver that fails ends the script at once: the next
/// thing asked is to write the clipboard's text back, and with the answer to
/// that, whatever it is, the redemption is over and has failed with the
/// fault of the step.
pub proof fn lemma_failed_call_aborts(state: RedemptionState, reply: ReplyView, last: ReplyView)
    requires
        state.wf(),
        state.acting(),
        !state.dwelling,
        !(reply is Done),
    ensures
        state.resolved(reply).pending() == Some(
            ActionView::WriteClipboard { contents: state.guard.previous->0, show: false },
        ),
        state.resolved(reply).resolved(last).outcome() == Some(
            Err::<(), RedeemError>(state.script[state.cursor].fault),
        ),
{
}

/// A redemption that is over asks nothing more and stays as it is.
pub proof fn lemma_redemption_over_is_over(state: RedemptionState, replies: Seq<ReplyView>)
    requires
        state.finished(),
    ensures
        state.run(replies) == state,
        state.asked(replies) == Seq::<ActionView>::empty(),
        state.restored(replies) == Seq::<Seq<char>>::empty(),
    decreases replies.len(),
{
    if replies.len() > 0 {
        lemma_redemption_over_is_over(state, replies.drop_first());
    }
}

/// While the clipboard is held and nothing fails, the rest of the script is
/// walked step by step, then the snapshot is written back, and the
/// redemption ends well.
pub proof fn lemma_walk(state: RedemptionState, replies: Seq<ReplyView>)
    requires
        state.wf(),
        state.guard.stage == GuardStage::Held,
        !state.dwelling,
        state.willing(replies),
        state.run(replies).finished(),
    ensures
        state.asked(replies) == walk(state.script.skip(state.cursor)) + seq![
            ActionView::WriteClipboard { contents: state.guard.previous->0, show: false },
        ],
        state.run(replies).outcome() == Some(Ok::<(), RedeemError>(())),
    decreases state.script.len() - state.cursor,
{
    let step = state.script[state.cursor];
    let left = state.script.skip(state.cursor);
    let restore = ActionView::WriteClipboard { contents: state.guard.previous->0, show: false };
    assert(left[0] == step);
    assert(left.drop_first() == state.script.skip(state.cursor + 1));
    // the call
    assert(replies.len() > 0);
    let called = state.resolved(replies[0]);
    let after_call = replies.drop_first();
    assert(state.pending() == Some(ActionView::Input(step.input)));
    assert(replies[0] is Done);
    assert(called.willing(after_call));
    assert(state.run(replies) == called.run(after_call));
    assert(state.asked(replies) == seq![ActionView::Input(step.input)] + called.asked(after_call));
    // its wait
    assert(after_call.len() > 0);
    let waited = called.resolved(after_call[0]);
    let after_wait = after_call.drop_first();
    assert(called.pending() == Some(ActionView::Dwell(step.dwell)));
    assert(waited.willing(after_wait));
    assert(called.asked(after_call) == seq![ActionView::Dwell(step.dwell)] + waited.asked(
        after_wait,
    ));
    assert(called.run(after_call) == waited.run(after_wait));
    if state.cursor + 1 < state.script.len() {
        lemma_walk(waited, after_wait);
        assert(state.asked(replies) == walk(left) + seq![restore]);
    } else {
        // the last step: the snapshot is written back
        assert(walk(left.drop_first()) == Seq::<ActionView>::empty());
        assert(waited.guard.stage == GuardStage::Restoring);
        assert(after_wait.len() > 0);
        let released = waited.resolved(after_wait[0]);
        lemma_redemption_over_is_over(released, after_wait.drop_first());
        assert(waited.pending() == Some(restore));
        assert(waited.asked(after_wait) == seq![restore] + released.asked(
            after_wait.drop_first(),
        ));
        assert(waited.run(after_wait) == released.run(after_wait.drop_first()));
        assert(state.asked(replies) == walk(left) + seq![restore]);
    }
}

/// A redemption in which nothing fails asks exactly what its plan says, in
/// that order, and ends well.
pub proof fn lemma_willing_driver_follows_plan(
    code: Seq<char>,
    script: Seq<Step>,
    replies: Seq<ReplyView>,
)
    requires
        RedemptionState::begin(code, script).willing(replies),
        RedemptionState::begin(code, script).run(replies).finished(),
    ensures
        replies.len() >= 2,
        replies[1] is Text,
        RedemptionState::begin(code, script).asked(replies) == plan(
            code,
            script,
            replies[1]->Text_0,
        ),
        RedemptionState::begin(code, script).run(replies).outcome() == Some(
            Ok::<(), RedeemError>(()),
        ),
{
    let start = RedemptionState::begin(code, script);
    assert(replies.len() > 0);
    let opened = start.resolved(replies[0]);
    let after_open = replies.drop_first();
    assert(start.pending() == Some(ActionView::OpenClipboard));
    assert(replies[0] is Done);
    assert(opened.willing(after_open));
    assert(start.asked(replies) == seq![ActionView::OpenClipboard] + opened.asked(after_open));
    assert(start.run(replies) == opened.run(after_open));
    assert(opened.guard.stage == GuardStage::Reading);
    assert(after_open.len() > 0);
    let read = opened.resolved(after_open[0]);
    let after_read = after_open.drop_first();
    assert(after_open[0] == replies[1]);
    assert(opened.pending() == Some(ActionView::ReadClipboard));
    assert(replies[1] is Text);
    assert(read.willing(after_read));
    assert(opened.asked(after_open) == seq![ActionView::ReadClipboard] + read.asked(
        after_read,
    ));
    assert(opened.run(after_open) == read.run(after_read));
    let snapshot = replies[1]->Text_0;
    let seed = ActionView::WriteClipboard { contents: code, show: true };
    let restore = ActionView::WriteClipboard { contents: snapshot, show: false };
    assert(read.guard.stage == GuardStage::Writing);
    assert(after_read.len() > 0);
    let seeded = read.resolved(after_read[0]);
    let after_seed = after_read.drop_first();
    assert(read.pending() == Some(seed));
    assert(after_read[0] is Done);
    assert(seeded.willing(after_seed));
    assert(read.asked(after_read) == seq![seed] + seeded.asked(after_seed));
    assert(read.run(after_read) == seeded.run(after_seed));
    assert(seeded.guard.previous == Some(snapshot));
    if script.len() == 0 {
        assert(walk(script) == Seq::<ActionView>::empty());
        assert(seeded.guard.stage == GuardStage::Restoring);
        assert(after_seed.len() > 0);
        let released = seeded.resolved(after_seed[0]);
        lemma_redemption_over_is_over(released, after_seed.drop_first());
        assert(seeded.pending() == Some(restore));
        assert(seeded.asked(after_seed) == seq![restore] + released.asked(
            after_seed.drop_first(),
        ));
        assert(seeded.run(after_seed) == released.run(after_seed.drop_first()));
        assert(start.asked(replies) == plan(code, script, snapshot));
    } else {
        assert(script.skip(0) == script);
        assert(seeded.guard.stage == GuardStage::Held);
        lemma_walk(seeded, after_seed);
        assert(start.asked(replies) == plan(code, script, snapshot));
    }
}

} // verus!
