//! The batch: many codes, one after the other.
//!
//! Codes that the cache holds are left out. The pointer's place is recorded
//! before the first code and given back after the last. A code that fails
//! does not stop the batch: it is recorded and the next one is tried. Only a
//! batch without failures gives the pointer back and saves the cache; after a
//! failure the screen is in an unknown state, and a pointer that jumps would
//! mislead the user who has to look at it.

use crate::cache::{joined, latest, lines, Cache, CACHE_LIMIT};
use crate::driver::{
    action_view, Action, ActionView, Coordinates, Input, Reply, ReplyView,
};
use crate::interaction::{
    dwell, lemma_script_len, normalized, script, strip_dashes, valid_length, Interactor, RedeemError,
};
use crate::progress::{ProgressEvent, ProgressEventView};
use crate::redemption::{
    lemma_redemption_advances, lemma_redemption_asks_until_over, lemma_redemption_stays_wf,
    lemma_redemption_vocabulary, Redemption, RedemptionState,
};
use vstd::prelude::*;

verus! {

/// The wait after a code that was redeemed, in milliseconds: the reward is
/// being handed over.
pub const SUCCESS_DWELL_MILLIS: u64 = 2600;

/// The wait after a code that failed, in milliseconds.
pub const PENALTY_DWELL_MILLIS: u64 = 100;

/// The most answers that one code takes: it is announced, redeemed with four
/// answers for the clipboard and two for each of the fifteen steps, counted
/// and waited for.
pub const ANSWERS_PER_CODE: usize = 37;

/// How far a batch has come.
#[derive(Clone, Copy, Debug, PartialEq, Eq, Structural)]
pub enum BatchStage {
    /// The cache is being loaded.
    Loading,
    /// The pointer's place is being recorded.
    Locating,
    /// The consumer of progress events is being started.
    Starting,
    /// The next code is being announced.
    Announcing,
    /// A code is being redeemed.
    Redeeming,
    /// The code that was just dealt with is being counted.
    Counting,
    /// The wait after a code is on.
    Settling,
    /// The end of the batch is being announced.
    Finishing,
    /// The pointer is being given back.
    Returning,
    /// The cache is being saved.
    Saving,
    /// The batch is over.
    Done,
}

/// What went wrong with the pointer.
#[derive(Clone, Copy, Debug, PartialEq, Eq, Structural)]
pub enum PointerError {
    /// Its place could not be read.
    Locate,
    /// It could not be moved back.
    Restore,
}

impl PointerError {
    /// The words for the error.
    pub open spec fn text(self) -> Seq<char> {
        match self {
            PointerError::Locate => "Failed to get mouse position"@,
            PointerError::Restore => "Failed to move mouse"@,
        }
    }

    /// The words for the error.
    pub fn message(&self) -> (words: &'static str)
        ensures
            words@ == self.text(),
    {
        match self {
            PointerError::Locate => "Failed to get mouse position",
            PointerError::Restore => "Failed to move mouse",
        }
    }
}

/// Why a batch did not succeed.
#[derive(Clone, Debug, PartialEq, Eq)]
pub enum BatchError {
    /// These codes were not redeemed. They are as they were given, dashes
    /// and all, in the order in which they were tried.
    Codes(Vec<String>),
    /// Every code was redeemed or none was tried, but the pointer let us down.
    Pointer(PointerError),
}

/// The mathematical value of a `BatchError`.
pub enum BatchErrorView {
    Codes(Seq<Seq<char>>),
    Pointer(PointerError),
}

impl View for BatchError {
    type V = BatchErrorView;

    open spec fn view(&self) -> BatchErrorView {
        match self {
            BatchError::Codes(codes) => BatchErrorView::Codes(texts(codes@)),
            BatchError::Pointer(error) => BatchErrorView::Pointer(*error),
        }
    }
}

/// The value of how a batch ended, if it has.
pub open spec fn outcome_view(outcome: Option<Result<(), BatchError>>) -> Option<
    Result<(), BatchErrorView>,
> {
    match outcome {
        None => None,
        Some(Ok(())) => Some(Ok(())),
        Some(Err(error)) => Some(Err(error@)),
    }
}

/// The texts of some strings.
pub open spec fn texts(strings: Seq<String>) -> Seq<Seq<char>> {
    strings.map_values(|s: String| s@)
}

/// The codes among `codes` that `cache` does not hold, in their order.
pub open spec fn unredeemed(codes: Seq<Seq<char>>, cache: Seq<Seq<char>>) -> Seq<Seq<char>> {
    codes.filter(|code: Seq<char>| !cache.contains(code))
}

/// The codes among the first `results.len()` of `queue` that were not
/// redeemed, in their order.
pub open spec fn failed(queue: Seq<Seq<char>>, results: Seq<bool>) -> Seq<Seq<char>>
    decreases results.len(),
{
    if results.len() == 0 || results.len() > queue.len() {
        Seq::empty()
    } else if results.last() {
        failed(queue, results.drop_last())
    } else {
        failed(queue, results.drop_last()).push(queue[results.len() - 1])
    }
}

/// The cache that a reply to `Action::LoadCache` stands for: the lines of
/// the text that was read, or nothing where no text could be read.
pub open spec fn loaded(reply: ReplyView) -> Seq<Seq<char>> {
    match reply {
        ReplyView::Text(text) => latest(lines(text)),
        _ => Seq::empty(),
    }
}

/// The mathematical value of a batch under way.
pub struct BatchState {
    /// Where a redemption clicks.
    pub target: Coordinates,
    /// Whether every wait is longer.
    pub slow: bool,
    /// The codes as they were given.
    pub codes: Seq<Seq<char>>,
    /// The codes to redeem: those that the cache did not hold.
    pub queue: Seq<Seq<char>>,
    /// For each code of the queue that has been dealt with, whether it was
    /// redeemed.
    pub results: Seq<bool>,
    /// The cache.
    pub cache: Seq<Seq<char>>,
    /// Where the pointer was before the first code.
    pub origin: Option<Coordinates>,
    pub stage: BatchStage,
    /// The redemption under way.
    pub current: Option<RedemptionState>,
    /// What went wrong with the pointer, if anything did.
    pub fault: Option<PointerError>,
}

impl BatchState {
    /// A batch of `codes` that has not asked anything yet. Without codes
    /// there is nothing to do, and the batch is over before it began.
    pub open spec fn begin(codes: Seq<Seq<char>>, target: Coordinates, slow: bool) -> BatchState {
        BatchState {
            target,
            slow,
            codes,
            queue: Seq::empty(),
            results: Seq::empty(),
            cache: Seq::empty(),
            origin: None,
            stage: if codes.len() == 0 {
                BatchStage::Done
            } else {
                BatchStage::Loading
            },
            current: None,
            fault: None,
        }
    }

    /// The states a batch can be in.
    pub open spec fn wf(self) -> bool {
        &&& self.results.len() <= self.queue.len()
        &&& self.cache.len() <= CACHE_LIMIT
        &&& self.stage == BatchStage::Loading ==> self.codes.len() > 0 && self.queue.len() == 0
        &&& (self.stage == BatchStage::Loading || self.stage == BatchStage::Locating)
            ==> self.results.len() == 0 && self.origin is None
        &&& (self.stage != BatchStage::Loading && self.stage != BatchStage::Done)
            ==> self.queue.len() > 0
        &&& (self.stage != BatchStage::Loading && self.stage != BatchStage::Locating && self.stage
            != BatchStage::Done) ==> self.origin is Some
        &&& self.stage == BatchStage::Starting ==> self.results.len() == 0
        &&& (self.stage == BatchStage::Announcing || self.stage == BatchStage::Redeeming)
            ==> self.results.len() < self.queue.len()
        &&& (self.stage == BatchStage::Counting || self.stage == BatchStage::Settling)
            ==> self.results.len() > 0
        &&& (self.stage == BatchStage::Finishing || self.stage == BatchStage::Returning
            || self.stage == BatchStage::Saving) ==> self.results.len() == self.queue.len()
        &&& (self.stage == BatchStage::Returning || self.stage == BatchStage::Saving)
            ==> !self.results.contains(false)
        &&& self.stage == BatchStage::Redeeming <==> self.current is Some
        &&& self.current matches Some(redemption) ==> redemption.wf() && !redemption.finished()
            && redemption.script == script(self.target, self.slow)
        &&& self.fault is Some ==> self.stage == BatchStage::Done
        &&& (self.stage == BatchStage::Done && self.fault is None && self.queue.len() > 0)
            ==> self.results.len() == self.queue.len()
        &&& self.fault == Some(PointerError::Locate) ==> self.results.len() == 0
        &&& self.fault == Some(PointerError::Restore) ==> self.results.len() == self.queue.len()
            && !self.results.contains(false)
    }

    /// The wait after the code that was dealt with last.
    pub open spec fn settle_millis(self) -> u64 {
        if self.results.len() > 0 && self.results.last() {
            dwell(SUCCESS_DWELL_MILLIS, self.slow)
        } else {
            dwell(PENALTY_DWELL_MILLIS, self.slow)
        }
    }

    /// What the batch asks of the driver; nothing once it is over.
    pub open spec fn pending(self) -> Option<ActionView> {
        match self.stage {
            BatchStage::Loading => Some(ActionView::LoadCache),
            BatchStage::Locating => Some(ActionView::LocatePointer),
            BatchStage::Starting => Some(ActionView::StartProgress(self.queue.len() as usize)),
            BatchStage::Announcing => Some(
                ActionView::Progress(
                    ProgressEventView::CodeStarted(self.queue[self.results.len() as int]),
                ),
            ),
            BatchStage::Redeeming => match self.current {
                Some(redemption) => redemption.pending(),
                None => None,
            },
            BatchStage::Counting => Some(ActionView::Progress(ProgressEventView::Increment)),
            BatchStage::Settling => Some(ActionView::Dwell(self.settle_millis())),
            BatchStage::Finishing => Some(ActionView::Progress(ProgressEventView::Finished)),
            BatchStage::Returning => match self.origin {
                Some(origin) => Some(ActionView::Input(Input::MovePointer(origin))),
                None => None,
            },
            BatchStage::Saving => Some(ActionView::SaveCache(joined(self.cache))),
            BatchStage::Done => None,
        }
    }

    /// The batch once the redemption of the code at hand has ended, redeemed
    /// or not: the result is recorded, a redeemed code goes into the cache as
    /// it was given, and the code is counted next.
    pub open spec fn recorded(self, redeemed: bool) -> BatchState {
        BatchState {
            stage: BatchStage::Counting,
            results: self.results.push(redeemed),
            cache: if redeemed {
                latest(self.cache.push(self.queue[self.results.len() as int]))
            } else {
                self.cache
            },
            current: None,
            ..self
        }
    }

    /// The batch after the driver has answered what was pending.
    pub open spec fn resolved(self, reply: ReplyView) -> BatchState {
        match self.stage {
            BatchStage::Loading => {
                let cache = loaded(reply);
                let queue = unredeemed(self.codes, cache);
                BatchState {
                    cache,
                    queue,
                    stage: if queue.len() == 0 {
                        BatchStage::Done
                    } else {
                        BatchStage::Locating
                    },
                    ..self
                }
            },
            BatchStage::Locating => match reply {
                ReplyView::Position(at) => BatchState {
                    origin: Some(at),
                    stage: BatchStage::Starting,
                    ..self
                },
                _ => BatchState {
                    fault: Some(PointerError::Locate),
                    stage: BatchStage::Done,
                    ..self
                },
            },
            BatchStage::Starting => BatchState { stage: BatchStage::Announcing, ..self },
            BatchStage::Announcing => match normalized(self.queue[self.results.len() as int]) {
                Ok(clean) => BatchState {
                    stage: BatchStage::Redeeming,
                    current: Some(RedemptionState::begin(clean, script(self.target, self.slow))),
                    ..self
                },
                Err(_) => self.recorded(false),
            },
            BatchStage::Redeeming => match self.current {
                Some(redemption) => {
                    let next = redemption.resolved(reply);
                    if next.finished() {
                        self.recorded(next.outcome() == Some(Ok::<(), RedeemError>(())))
                    } else {
                        BatchState { current: Some(next), ..self }
                    }
                },
                None => self,
            },
            BatchStage::Counting => BatchState { stage: BatchStage::Settling, ..self },
            BatchStage::Settling => BatchState {
                stage: if self.results.len() < self.queue.len() {
                    BatchStage::Announcing
                } else {
                    BatchStage::Finishing
                },
                ..self
            },
            BatchStage::Finishing => BatchState {
                stage: if self.results.contains(false) {
                    BatchStage::Done
                } else {
                    BatchStage::Returning
                },
                ..self
            },
            BatchStage::Returning => if reply is Done {
                BatchState { stage: BatchStage::Saving, ..self }
            } else {
                BatchState { fault: Some(PointerError::Restore), stage: BatchStage::Done, ..self }
            },
            BatchStage::Saving => BatchState { stage: BatchStage::Done, ..self },
            BatchStage::Done => self,
        }
    }

    /// Whether the batch is over.
    pub open spec fn finished(self) -> bool {
        self.stage == BatchStage::Done
    }

    /// How the batch ended, once it is over: with the pointer's fault if
    /// there is one, else with the codes that failed if any did, else well.
    pub open spec fn outcome(self) -> Option<Result<(), BatchErrorView>> {
        if !self.finished() {
            None
        } else if self.fault is Some {
            Some(Err(BatchErrorView::Pointer(self.fault->0)))
        } else if self.results.contains(false) {
            Some(Err(BatchErrorView::Codes(failed(self.queue, self.results))))
        } else {
            Some(Ok(()))
        }
    }

    /// An upper bound on the number of answers that the batch still needs
    /// before it is over: `ANSWERS_PER_CODE` for every code that is left, and
    /// six around them.
    pub open spec fn steps_left(self) -> int {
        let left = (self.queue.len() - self.results.len()) * ANSWERS_PER_CODE;
        match self.stage {
            BatchStage::Loading => self.codes.len() * ANSWERS_PER_CODE + 6,
            BatchStage::Locating => left + 5,
            BatchStage::Starting => left + 4,
            BatchStage::Announcing => left + 3,
            BatchStage::Redeeming => match self.current {
                Some(redemption) => left - ANSWERS_PER_CODE + redemption.steps_left() + 5,
                None => left + 3,
            },
            BatchStage::Counting => left + 5,
            BatchStage::Settling => left + 4,
            BatchStage::Finishing => 3,
            BatchStage::Returning => 2,
            BatchStage::Saving => 1,
            BatchStage::Done => 0,
        }
    }

    /// The batch after the driver has answered `replies`, one after the other.
    pub open spec fn run(self, replies: Seq<ReplyView>) -> BatchState
        decreases replies.len(),
    {
        if replies.len() == 0 {
            self
        } else {
            self.resolved(replies[0]).run(replies.drop_first())
        }
    }

    /// What the batch asks while the driver answers `replies`, in order.
    pub open spec fn asked(self, replies: Seq<ReplyView>) -> Seq<ActionView>
        decreases replies.len(),
    {
        if replies.len() == 0 {
            Seq::empty()
        } else {
            let rest = self.resolved(replies[0]).asked(replies.drop_first());
            match self.pending() {
                Some(action) => seq![action] + rest,
                None => rest,
            }
        }
    }

    /// The codes that are announced while the driver answers `replies`, in
    /// order.
    pub open spec fn announced(self, replies: Seq<ReplyView>) -> Seq<Seq<char>>
        decreases replies.len(),
    {
        if replies.len() == 0 {
            Seq::empty()
        } else {
            let rest = self.resolved(replies[0]).announced(replies.drop_first());
            match self.pending() {
                Some(ActionView::Progress(ProgressEventView::CodeStarted(code))) => seq![code]
                    + rest,
                _ => rest,
            }
        }
    }

    /// The codes that are yet to be announced.
    pub open spec fn unannounced(self) -> Seq<Seq<char>> {
        match self.stage {
            BatchStage::Starting => self.queue,
            BatchStage::Announcing | BatchStage::Counting | BatchStage::Settling => self.queue.skip(
                self.results.len() as int,
            ),
            BatchStage::Redeeming => self.queue.skip(self.results.len() as int + 1),
            _ => Seq::empty(),
        }
    }
}

/// A batch of codes.
#[derive(Debug)]
pub struct Batch {
    interactor: Interactor,
    codes: Vec<String>,
    queue: Vec<String>,
    results: Vec<bool>,
    cache: Cache,
    origin: Option<Coordinates>,
    stage: BatchStage,
    current: Option<Redemption>,
    fault: Option<PointerError>,
}

impl View for Batch {
    type V = BatchState;

    closed spec fn view(&self) -> BatchState {
        BatchState {
            target: self.interactor.instructions().unlock_chest,
            slow: self.interactor.slow(),
            codes: texts(self.codes@),
            queue: texts(self.queue@),
            results: self.results@,
            cache: self.cache@,
            origin: self.origin,
            stage: self.stage,
            current: match self.current {
                Some(redemption) => Some(redemption@),
                None => None,
            },
            fault: self.fault,
        }
    }
}

/// The codes among `codes` that `cache` does not hold, in their order.
pub fn skip_cached(codes: &Vec<String>, cache: &Cache) -> (queue: Vec<String>)
    ensures
        texts(queue@) == unredeemed(texts(codes@), cache@),
{
    let ghost all = texts(codes@);
    let ghost wanted = |code: Seq<char>| !cache@.contains(code);
    let mut queue: Vec<String> = Vec::new();
    let mut i: usize = 0;
    assert(all.take(0).filter(wanted) == Seq::<Seq<char>>::empty()) by {
        reveal(Seq::filter);
    }
    while i < codes.len()
        invariant
            i <= codes.len(),
            all == texts(codes@),
            wanted == |code: Seq<char>| !cache@.contains(code),
            texts(queue@) == all.take(i as int).filter(wanted),
        decreases codes.len() - i,
    {
        proof {
            assert(all.take(i + 1) == all.take(i as int).push(all[i as int]));
            all.take(i as int).lemma_filter_push(all[i as int], wanted);
        }
        if !cache.contains(codes[i].as_str()) {
            let ghost before = texts(queue@);
            queue.push(codes[i].clone());
            assert(texts(queue@) == before.push(all[i as int]));
        }
        i += 1;
    }
    assert(all.take(i as int) == all);
    queue
}

/// The codes among the first `results.len()` of `queue` that were not
/// redeemed, in their order; none where there are more results than codes.
pub fn failed_codes(queue: &Vec<String>, results: &Vec<bool>) -> (codes: Vec<String>)
    ensures
        texts(codes@) == failed(texts(queue@), results@),
{
    let mut codes: Vec<String> = Vec::new();
    assert(texts(codes@) == Seq::<Seq<char>>::empty());
    if results.len() > queue.len() {
        return codes;
    }
    let mut i: usize = 0;
    while i < results.len()
        invariant
            i <= results.len() <= queue.len(),
            texts(codes@) == failed(texts(queue@), results@.take(i as int)),
        decreases results.len() - i,
    {
        proof {
            assert(results@.take(i + 1).drop_last() == results@.take(i as int));
        }
        if !results[i] {
            let ghost before = texts(codes@);
            codes.push(queue[i].clone());
            assert(texts(codes@) == before.push(texts(queue@)[i as int]));
        }
        i += 1;
    }
    assert(results@.take(i as int) == results@);
    codes
}

/// Whether some code was not redeemed.
fn any_failed(results: &Vec<bool>) -> (any: bool)
    ensures
        any == results@.contains(false),
{
    let mut i: usize = 0;
    while i < results.len()
        invariant
            i <= results.len(),
            forall|j: int| 0 <= j < i ==> results@[j],
        decreases results.len() - i,
    {
        if !results[i] {
            return true;
        }
        i += 1;
    }
    false
}

impl Batch {
    #[verifier::type_invariant]
    spec fn valid(&self) -> bool {
        self@.wf()
    }

    /// A batch of `codes` for `interactor` to redeem.
    pub fn begin(interactor: Interactor, codes: Vec<String>) -> (batch: Batch)
        ensures
            batch@ == BatchState::begin(
                texts(codes@),
                interactor.instructions().unlock_chest,
                interactor.slow(),
            ),
            batch@.wf(),
    {
        let stage = if codes.len() == 0 {
            BatchStage::Done
        } else {
            BatchStage::Loading
        };
        let queue: Vec<String> = Vec::new();
        assert(texts(queue@) == Seq::<Seq<char>>::empty());
        Batch {
            interactor,
            codes,
            queue,
            results: Vec::new(),
            cache: Cache::new(),
            origin: None,
            stage,
            current: None,
            fault: None,
        }
    }

    /// How far the batch has come.
    pub fn stage(&self) -> (stage: BatchStage)
        ensures
            stage == self@.stage,
            self@.wf(),
    {
        proof {
            use_type_invariant(self);
        }
        self.stage
    }

    /// The codes to redeem: those that the cache did not hold. Before the
    /// cache is loaded there are none.
    pub fn queue(&self) -> (queue: &Vec<String>)
        ensures
            texts(queue@) == self@.queue,
    {
        &self.queue
    }

    /// What the batch asks of the driver; nothing once it is over.
    pub fn pending(&self) -> (action: Option<Action>)
        ensures
            action_view(action) == self@.pending(),
            self@.wf(),
    {
        proof {
            use_type_invariant(self);
        }
        match self.stage {
            BatchStage::Loading => Some(Action::LoadCache),
            BatchStage::Locating => Some(Action::LocatePointer),
            BatchStage::Starting => Some(Action::StartProgress(self.queue.len())),
            BatchStage::Announcing => Some(
                Action::Progress(
                    ProgressEvent::CodeStarted(self.queue[self.results.len()].clone()),
                ),
            ),
            BatchStage::Redeeming => match &self.current {
                Some(redemption) => redemption.pending(),
                None => None,
            },
            BatchStage::Counting => Some(Action::Progress(ProgressEvent::Increment)),
            BatchStage::Settling => {
                let millis = if self.results[self.results.len() - 1] {
                    SUCCESS_DWELL_MILLIS
                } else {
                    PENALTY_DWELL_MILLIS
                };
                Some(Action::Dwell(self.interactor.dwell(millis)))
            },
            BatchStage::Finishing => Some(Action::Progress(ProgressEvent::Finished)),
            BatchStage::Returning => match self.origin {
                Some(origin) => Some(Action::Input(Input::MovePointer(origin))),
                None => None,
            },
            BatchStage::Saving => Some(Action::SaveCache(self.cache.write())),
            BatchStage::Done => None,
        }
    }

    /// Takes the driver's answer to what was pending.
    pub fn resolve(self, reply: Reply) -> (next: Batch)
        ensures
            next@ == self@.resolved(reply@),
            next@.wf(),
    {
        proof {
            use_type_invariant(&self);
        }
        let ghost before = self@;
        let Batch { interactor, codes, queue, results, cache, origin, stage, current, fault } =
            self;
        assert(before.queue == texts(queue@) && before.results == results@ && before.cache
            == cache@ && before.codes == texts(codes@));
        match stage {
            BatchStage::Loading => {
                let cache = match reply {
                    Reply::Text(text) => Cache::from_file(text.as_str()),
                    _ => Cache::new(),
                };
                let queue = skip_cached(&codes, &cache);
                let stage = if queue.len() == 0 {
                    BatchStage::Done
                } else {
                    BatchStage::Locating
                };
                Batch { interactor, codes, queue, results, cache, origin, stage, current, fault }
            },
            BatchStage::Locating => match reply {
                Reply::Position(at) => Batch {
                    interactor,
                    codes,
                    queue,
                    results,
                    cache,
                    origin: Some(at),
                    stage: BatchStage::Starting,
                    current,
                    fault,
                },
                _ => Batch {
                    interactor,
                    codes,
                    queue,
                    results,
                    cache,
                    origin,
                    stage: BatchStage::Done,
                    current,
                    fault: Some(PointerError::Locate),
                },
            },
            BatchStage::Starting => Batch {
                interactor,
                codes,
                queue,
                results,
                cache,
                origin,
                stage: BatchStage::Announcing,
                current,
                fault,
            },
            BatchStage::Announcing => match interactor.redeem(queue[results.len()].as_str()) {
                Ok(redemption) => Batch {
                    interactor,
                    codes,
                    queue,
                    results,
                    cache,
                    origin,
                    stage: BatchStage::Redeeming,
                    current: Some(redemption),
                    fault,
                },
                Err(_) => {
                    let mut results = results;
                    results.push(false);
                    Batch {
                        interactor,
                        codes,
                        queue,
                        results,
                        cache,
                        origin,
                        stage: BatchStage::Counting,
                        current: None,
                        fault,
                    }
                },
            },
            BatchStage::Redeeming => match current {
                Some(redemption) => {
                    let redemption = redemption.resolve(reply);
                    match redemption.outcome() {
                        None => Batch {
                            interactor,
                            codes,
                            queue,
                            results,
                            cache,
                            origin,
                            stage,
                            current: Some(redemption),
                            fault,
                        },
                        Some(outcome) => {
                            let redeemed = outcome.is_ok();
                            let mut cache = cache;
                            if redeemed {
                                cache.push(queue[results.len()].clone());
                            }
                            let mut results = results;
                            results.push(redeemed);
                            Batch {
                                interactor,
                                codes,
                                queue,
                                results,
                                cache,
                                origin,
                                stage: BatchStage::Counting,
                                current: None,
                                fault,
                            }
                        },
                    }
                },
                None => Batch {
                    interactor,
                    codes,
                    queue,
                    results,
                    cache,
                    origin,
                    stage,
                    current: None,
                    fault,
                },
            },
            BatchStage::Counting => Batch {
                interactor,
                codes,
                queue,
                results,
                cache,
                origin,
                stage: BatchStage::Settling,
                current,
                fault,
            },
            BatchStage::Settling => {
                let stage = if results.len() < queue.len() {
                    BatchStage::Announcing
                } else {
                    BatchStage::Finishing
                };
                Batch { interactor, codes, queue, results, cache, origin, stage, current, fault }
            },
            BatchStage::Finishing => {
                let stage = if any_failed(&results) {
                    BatchStage::Done
                } else {
                    BatchStage::Returning
                };
                Batch { interactor, codes, queue, results, cache, origin, stage, current, fault }
            },
            BatchStage::Returning => match reply {
                Reply::Done => Batch {
                    interactor,
                    codes,
                    queue,
                    results,
                    cache,
                    origin,
                    stage: BatchStage::Saving,
                    current,
                    fault,
                },
                _ => Batch {
                    interactor,
                    codes,
                    queue,
                    results,
                    cache,
                    origin,
                    stage: BatchStage::Done,
                    current,
                    fault: Some(PointerError::Restore),
                },
            },
            BatchStage::Saving => Batch {
                interactor,
                codes,
                queue,
                results,
                cache,
                origin,
                stage: BatchStage::Done,
                current,
                fault,
            },
            BatchStage::Done => Batch {
                interactor,
                codes,
                queue,
                results,
                cache,
                origin,
                stage,
                current,
                fault,
            },
        }
    }

    /// Whether the batch is over.
    pub fn finished(&self) -> (over: bool)
        ensures
            over == self@.finished(),
    {
        match self.stage {
            BatchStage::Done => true,
            _ => false,
        }
    }

    /// How the batch ended, once it is over.
    pub fn outcome(&self) -> (outcome: Option<Result<(), BatchError>>)
        ensures
            outcome_view(outcome) == self@.outcome(),
    {
        proof {
            use_type_invariant(self);
        }
        if !self.finished() {
            return None;
        }
        match self.fault {
            Some(error) => Some(Err(BatchError::Pointer(error))),
            None => if any_failed(&self.results) {
                Some(Err(BatchError::Codes(failed_codes(&self.queue, &self.results))))
            } else {
                Some(Ok(()))
            },
        }
    }
}

/// A batch stays in the states it can be in.
pub proof fn lemma_batch_stays_wf(state: BatchState, reply: ReplyView)
    requires
        state.wf(),
    ensures
        state.resolved(reply).wf(),
{
    if state.stage == BatchStage::Redeeming {
        lemma_redemption_stays_wf(state.current->0, reply);
    }
}

/// A batch asks for something exactly as long as it is not over, and when it
/// is over, it says how it ended.
pub proof fn lemma_batch_asks_until_over(state: BatchState)
    requires
        state.wf(),
    ensures
        state.pending() is None <==> state.finished(),
        state.finished() <==> state.outcome() is Some,
{
    if state.stage == BatchStage::Redeeming {
        lemma_redemption_asks_until_over(state.current->0);
    }
}

/// A batch that is over asks nothing more and stays as it is.
pub proof fn lemma_batch_over_is_over(state: BatchState, replies: Seq<ReplyView>)
    requires
        state.finished(),
    ensures
        state.run(replies) == state,
        state.asked(replies) == Seq::<ActionView>::empty(),
        state.announced(replies) == Seq::<Seq<char>>::empty(),
    decreases replies.len(),
{
    if replies.len() > 0 {
        lemma_batch_over_is_over(state, replies.drop_first());
    }
}

/// The queue holds a code exactly if the code was given and the cache does
/// not hold it: no code that has been redeemed before is redeemed again.
pub proof fn lemma_cached_codes_are_skipped(
    codes: Seq<Seq<char>>,
    cache: Seq<Seq<char>>,
    code: Seq<char>,
)
    ensures
        unredeemed(codes, cache).contains(code) <==> codes.contains(code) && !cache.contains(code),
{
    let wanted = |code: Seq<char>| !cache.contains(code);
    let queue = codes.filter(wanted);
    if queue.contains(code) {
        codes.lemma_filter_contains_rev(wanted, code);
        let i = choose|i: int| 0 <= i < queue.len() && queue[i] == code;
        codes.lemma_filter_pred(wanted, i);
    }
    if codes.contains(code) && !cache.contains(code) {
        let i = choose|i: int| 0 <= i < codes.len() && codes[i] == code;
        codes.lemma_filter_contains(wanted, i);
    }
}

/// A batch takes from the cache's file what the cache would read from it,
/// and nothing where the file could not be read; the codes that are left to
/// redeem are those that this cache does not hold. Without such codes the
/// batch is over at once, and well.
pub proof fn lemma_loading(state: BatchState, reply: ReplyView)
    requires
        state.wf(),
        state.stage == BatchStage::Loading,
    ensures
        state.resolved(reply).cache == loaded(reply),
        state.resolved(reply).queue == unredeemed(state.codes, loaded(reply)),
        state.resolved(reply).queue.len() == 0 ==> state.resolved(reply).outcome() == Some(
            Ok::<(), BatchErrorView>(()),
        ),
        state.resolved(reply).queue.len() > 0 ==> state.resolved(reply).pending() == Some(
            ActionView::LocatePointer,
        ),
{
}

/// A code of the wrong length is counted as failed as soon as it has been
/// announced: nothing is asked of the clipboard or of the input driver for it.
pub proof fn lemma_invalid_code_asks_nothing(state: BatchState, reply: ReplyView)
    requires
        state.wf(),
        state.stage == BatchStage::Announcing,
        !valid_length(strip_dashes(state.queue[state.results.len() as int])),
    ensures
        state.resolved(reply).pending() == Some(
            ActionView::Progress(ProgressEventView::Increment),
        ),
        state.resolved(reply).results == state.results.push(false),
        state.resolved(reply).cache == state.cache,
{
}

/// Every code of the queue is announced, once and in the order of the queue,
/// before the batch is over, whatever becomes of the codes before it: a code
/// that fails does not keep the batch from trying the next.
pub proof fn lemma_every_code_is_announced(state: BatchState, replies: Seq<ReplyView>)
    requires
        state.wf(),
        state.stage != BatchStage::Loading,
        state.stage != BatchStage::Locating,
        state.run(replies).finished(),
    ensures
        state.announced(replies) == state.unannounced(),
    decreases replies.len(),
{
    let none = Seq::<Seq<char>>::empty();
    if replies.len() == 0 {
    } else {
        let next = state.resolved(replies[0]);
        let rest = replies.drop_first();
        lemma_batch_stays_wf(state, replies[0]);
        lemma_every_code_is_announced(next, rest);
        let n = state.results.len() as int;
        match state.stage {
            BatchStage::Starting => {
                assert(state.queue.skip(0) == state.queue);
            },
            BatchStage::Announcing => {
                assert(state.queue.skip(n) == seq![state.queue[n]] + state.queue.skip(n + 1));
            },
            BatchStage::Redeeming => {
                lemma_redemption_vocabulary(state.current->0);
            },
            BatchStage::Settling => {
                if n >= state.queue.len() {
                    assert(state.queue.skip(n) == none);
                }
            },
            _ => {},
        }
    }
}

/// Every code of the queue is announced once a batch has found where the
/// pointer is, and when the batch is over every one of them has been dealt
/// with.
pub proof fn lemma_every_code_is_tried(state: BatchState, at: Coordinates, replies: Seq<ReplyView>)
    requires
        state.wf(),
        state.stage == BatchStage::Locating,
        state.resolved(ReplyView::Position(at)).run(replies).finished(),
    ensures
        state.resolved(ReplyView::Position(at)).announced(replies) == state.queue,
        state.resolved(ReplyView::Position(at)).run(replies).queue == state.queue,
        state.resolved(ReplyView::Position(at)).run(replies).results.len() == state.queue.len(),
{
    let located = state.resolved(ReplyView::Position(at));
    lemma_batch_stays_wf(state, ReplyView::Position(at));
    lemma_every_code_is_announced(located, replies);
    lemma_batch_keeps(located, replies);
    let end = located.run(replies);
    assert(located.fault is None);
    assert(end.fault != Some(PointerError::Locate));
    assert(end.fault is None || end.fault == Some(PointerError::Restore));
}

/// What a batch never changes once the cache is loaded: the queue, and where
/// the pointer was once that is known. A batch without fault stays without
/// pointer fault at least until it gives the pointer back.
pub proof fn lemma_batch_keeps(state: BatchState, replies: Seq<ReplyView>)
    requires
        state.wf(),
        state.stage != BatchStage::Loading,
    ensures
        state.run(replies).wf(),
        state.run(replies).queue == state.queue,
        state.run(replies).codes == state.codes,
        state.origin is Some ==> state.run(replies).origin == state.origin,
        state.run(replies).stage != BatchStage::Loading,
        state.run(replies).fault == Some(PointerError::Locate) ==> state.stage
            == BatchStage::Locating || state.fault == Some(PointerError::Locate),
    decreases replies.len(),
{
    if replies.len() > 0 {
        lemma_batch_stays_wf(state, replies[0]);
        lemma_batch_keeps(state.resolved(replies[0]), replies.drop_first());
    }
}

/// The codes that failed are those of the queue whose redemption did not
/// succeed, each as it stands in the queue.
pub proof fn lemma_failed_contains(queue: Seq<Seq<char>>, results: Seq<bool>, code: Seq<char>)
    requires
        results.len() <= queue.len(),
    ensures
        failed(queue, results).contains(code) <==> exists|i: int|
            0 <= i < results.len() && !results[i] && #[trigger] queue[i] == code,
    decreases results.len(),
{
    if results.len() > 0 {
        let front = results.drop_last();
        let last = results.len() - 1;
        lemma_failed_contains(queue, front, code);
        let before = failed(queue, front);
        if failed(queue, results).contains(code) {
            let k = choose|k: int|
                0 <= k < failed(queue, results).len() && failed(queue, results)[k] == code;
            if !results.last() && k == before.len() {
                assert(!results[last] && queue[last] == code);
            } else {
                assert(before[k] == code);
                let i = choose|i: int| 0 <= i < front.len() && !front[i] && queue[i] == code;
                assert(!results[i] && queue[i] == code);
            }
        }
        if exists|i: int| 0 <= i < results.len() && !results[i] && #[trigger] queue[i] == code {
            let i = choose|i: int| 0 <= i < results.len() && !results[i] && queue[i] == code;
            if i == last {
                assert(failed(queue, results).last() == code);
            } else {
                assert(!front[i] && queue[i] == code);
                assert(before.contains(code));
                let k = choose|k: int| 0 <= k < before.len() && before[k] == code;
                assert(failed(queue, results)[k] == code);
            }
        }
    }
}

/// Where exactly one code was not redeemed, the codes that failed are that
/// one code.
pub proof fn lemma_failed_single(queue: Seq<Seq<char>>, results: Seq<bool>, at: int)
    requires
        results.len() <= queue.len(),
        0 <= at < results.len(),
        forall|i: int| 0 <= i < results.len() ==> (results[i] <==> i != at),
    ensures
        failed(queue, results) == seq![queue[at]],
    decreases results.len(),
{
    let front = results.drop_last();
    if at == results.len() - 1 {
        lemma_failed_none(queue, front);
    } else {
        lemma_failed_single(queue, front, at);
    }
}

/// Where every code was redeemed, none failed.
pub proof fn lemma_failed_none(queue: Seq<Seq<char>>, results: Seq<bool>)
    requires
        results.len() <= queue.len(),
        forall|i: int| 0 <= i < results.len() ==> results[i],
    ensures
        failed(queue, results) == Seq::<Seq<char>>::empty(),
    decreases results.len(),
{
    if results.len() > 0 {
        lemma_failed_none(queue, results.drop_last());
    }
}

/// A batch that ends well after it found the pointer at `origin` has, as the
/// last two things it asked, moved the pointer back to `origin` and saved the
/// cache exactly as it stands in memory at the end.
pub proof fn lemma_success_returns_and_saves(state: BatchState, replies: Seq<ReplyView>)
    requires
        state.wf(),
        state.stage != BatchStage::Loading,
        state.stage != BatchStage::Locating,
        state.stage != BatchStage::Done,
        state.run(replies).outcome() == Some(Ok::<(), BatchErrorView>(())),
    ensures
        ({
            let asked = state.asked(replies);
            let save = ActionView::SaveCache(joined(state.run(replies).cache));
            let back = ActionView::Input(Input::MovePointer(state.origin->0));
            if state.stage == BatchStage::Saving {
                asked == seq![save]
            } else {
                asked.len() >= 2 && asked[asked.len() - 2] == back && asked.last() == save
            }
        }),
    decreases replies.len(),
{
    if replies.len() == 0 {
    } else {
        let next = state.resolved(replies[0]);
        let rest = replies.drop_first();
        lemma_batch_stays_wf(state, replies[0]);
        lemma_batch_asks_until_over(state);
        let first = state.pending()->0;
        assert(state.asked(replies) == seq![first] + next.asked(rest));
        if next.finished() {
            lemma_batch_over_is_over(next, rest);
            assert(seq![first] + Seq::<ActionView>::empty() == seq![first]);
        } else {
            lemma_success_returns_and_saves(next, rest);
        }
    }
}

/// A batch that ends well has put the pointer back where it found it, and
/// has saved the cache as it stands in memory at the end.
pub proof fn lemma_pointer_round_trip(state: BatchState, at: Coordinates, replies: Seq<ReplyView>)
    requires
        state.wf(),
        state.stage == BatchStage::Locating,
        state.resolved(ReplyView::Position(at)).run(replies).outcome() == Some(
            Ok::<(), BatchErrorView>(()),
        ),
    ensures
        ({
            let located = state.resolved(ReplyView::Position(at));
            let asked = located.asked(replies);
            &&& asked.len() >= 2
            &&& asked[asked.len() - 2] == ActionView::Input(Input::MovePointer(at))
            &&& asked.last() == ActionView::SaveCache(joined(located.run(replies).cache))
        }),
{
    lemma_batch_stays_wf(state, ReplyView::Position(at));
    lemma_success_returns_and_saves(state.resolved(ReplyView::Position(at)), replies);
}

/// A batch in which a code failed is over as soon as it has announced its
/// end: the pointer is not moved back and the cache is not saved.
pub proof fn lemma_failure_ends_at_once(state: BatchState, replies: Seq<ReplyView>)
    requires
        state.wf(),
        state.stage != BatchStage::Loading,
        state.stage != BatchStage::Locating,
        state.stage != BatchStage::Done,
        state.run(replies).outcome() is Some,
        state.run(replies).outcome()->0 matches Err(BatchErrorView::Codes(_)),
    ensures
        state.asked(replies).len() >= 1,
        state.asked(replies).last() == ActionView::Progress(ProgressEventView::Finished),
    decreases replies.len(),
{
    if replies.len() == 0 {
    } else {
        let next = state.resolved(replies[0]);
        let rest = replies.drop_first();
        lemma_batch_stays_wf(state, replies[0]);
        lemma_batch_asks_until_over(state);
        let first = state.pending()->0;
        assert(state.asked(replies) == seq![first] + next.asked(rest));
        if next.finished() {
            lemma_batch_over_is_over(next, rest);
            assert(seq![first] + Seq::<ActionView>::empty() == seq![first]);
        } else {
            lemma_failure_ends_at_once(next, rest);
        }
    }
}

/// A batch that does not end well never asks to save the cache.
pub proof fn lemma_failure_saves_nothing(state: BatchState, replies: Seq<ReplyView>)
    requires
        state.wf(),
        state.run(replies).finished(),
        state.run(replies).outcome() != Some(Ok::<(), BatchErrorView>(())),
    ensures
        forall|i: int|
            0 <= i < state.asked(replies).len() ==> !(#[trigger] state.asked(replies)[i]
                is SaveCache),
    decreases replies.len(),
{
    if replies.len() == 0 {
    } else {
        let next = state.resolved(replies[0]);
        let rest = replies.drop_first();
        lemma_batch_stays_wf(state, replies[0]);
        if state.finished() {
            lemma_batch_over_is_over(state, replies);
        } else {
            lemma_batch_asks_until_over(state);
            let first = state.pending()->0;
            assert(state.asked(replies) == seq![first] + next.asked(rest));
            if state.stage == BatchStage::Saving {
                lemma_batch_over_is_over(next, rest);
            } else {
                lemma_failure_saves_nothing(next, rest);
                if state.stage == BatchStage::Redeeming {
                    lemma_redemption_vocabulary(state.current->0);
                }
            }
        }
    }
}

/// Every answer brings a batch closer to its end, whatever the answer is.
pub proof fn lemma_batch_advances(state: BatchState, reply: ReplyView)
    requires
        state.wf(),
        !state.finished(),
    ensures
        state.resolved(reply).steps_left() < state.steps_left(),
{
    match state.stage {
        BatchStage::Loading => {
            state.codes.lemma_filter_len(|code: Seq<char>| !loaded(reply).contains(code));
        },
        BatchStage::Announcing => {
            lemma_script_len(state.target, state.slow);
        },
        BatchStage::Redeeming => {
            lemma_redemption_advances(state.current->0, reply);
        },
        _ => {},
    }
}

/// A batch is over after `steps_left` answers at the latest, whatever they
/// are: no answer can keep it going for ever.
pub proof fn lemma_batch_ends(state: BatchState, replies: Seq<ReplyView>)
    requires
        state.wf(),
        replies.len() >= state.steps_left(),
    ensures
        state.run(replies).finished(),
        state.run(replies).outcome() is Some,
    decreases replies.len(),
{
    if replies.len() > 0 {
        lemma_batch_stays_wf(state, replies[0]);
        if !state.finished() {
            lemma_batch_advances(state, replies[0]);
        }
        lemma_batch_ends(state.resolved(replies[0]), replies.drop_first());
    } else if !state.finished() {
        lemma_batch_steps_left_positive(state);
    }
}

/// A batch that is not over still needs an answer.
proof fn lemma_batch_steps_left_positive(state: BatchState)
    requires
        state.wf(),
        !state.finished(),
    ensures
        state.steps_left() > 0,
{
}

} // verus!
