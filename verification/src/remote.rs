//! Fetching codes from a remote service: how often to ask, and how long to
//! wait in between.

use vstd::prelude::*;

verus! {

/// The most requests a fetch ever makes, so as not to flood the service.
pub const RETRY_LIMIT: u8 = 5;

/// The wait after a request that failed grows by so many seconds with every
/// request.
pub const BACKOFF_SECONDS: u64 = 2;

/// Why a request failed.
#[derive(Clone, Copy, Debug, PartialEq, Eq, Structural)]
pub enum ClientError {
    /// The request did not get through.
    Reqwest,
    /// The answer could not be understood.
    Serde,
    /// The service answered with an error.
    ServerError,
}

/// The words for the kind of failure of a request.
pub open spec fn client_error_text(err: ClientError) -> Seq<char> {
    match err {
        ClientError::Reqwest => "Failed to retrieve codes (http)"@,
        ClientError::Serde => "Failed to parse codes (serde)"@,
        ClientError::ServerError => "Failed to retrieve codes (server error)"@,
    }
}

/// The words for the kind of failure of a request. The counts are for those
/// who report the failure; the words do not depend on them.
pub fn handle_client_error(err: ClientError, retry_count: u8, max_count: u8) -> (words:
    &'static str)
    ensures
        words@ == client_error_text(err),
{
    match err {
        ClientError::Reqwest => "Failed to retrieve codes (http)",
        ClientError::Serde => "Failed to parse codes (serde)",
        ClientError::ServerError => "Failed to retrieve codes (server error)",
    }
}

/// Why no codes were fetched: every request that was allowed has failed. The
/// error holds the failure of the last request, if any request was made.
#[derive(Clone, Copy, Debug, PartialEq, Eq, Structural)]
pub enum FetchError {
    Exhausted(Option<ClientError>),
}

impl FetchError {
    /// The words for the error: those of the last failure, if there was one.
    pub open spec fn text(self) -> Seq<char> {
        match self {
            FetchError::Exhausted(Some(err)) => client_error_text(err),
            FetchError::Exhausted(None) => "Could not resolve codes within max retries"@,
        }
    }

    /// The words for the error.
    pub fn message(&self) -> (words: &'static str)
        ensures
            words@ == self.text(),
    {
        match self {
            FetchError::Exhausted(Some(err)) => handle_client_error(*err, 0, 0),
            FetchError::Exhausted(None) => "Could not resolve codes within max retries",
        }
    }
}

/// What a fetch asks of its driver.
#[derive(Clone, Copy, Debug, PartialEq, Eq, Structural)]
pub enum FetchAction {
    /// Ask the service for its codes.
    Request,
    /// Wait for so many seconds.
    Sleep(u64),
}

/// What the driver of a fetch answers.
#[derive(Clone, Copy, Debug, PartialEq, Eq, Structural)]
pub enum FetchReply {
    /// The service has handed over its codes.
    Fetched,
    /// The request failed.
    Failed(ClientError),
    /// The wait is over.
    Slept,
}

/// How far a fetch has come.
#[derive(Clone, Copy, Debug, PartialEq, Eq, Structural)]
pub enum FetchStage {
    Requesting,
    Backing,
    Done,
}

/// The mathematical value of a fetch under way.
pub struct FetchState {
    /// How many requests have failed.
    pub attempt: int,
    /// How many requests may be made.
    pub limit: int,
    pub stage: FetchStage,
    /// The failure of the last request that failed.
    pub last: Option<ClientError>,
    /// Whether the codes have been handed over.
    pub fetched: bool,
}

impl FetchState {
    /// A fetch that may ask `max_retries` times, but never more than
    /// `RETRY_LIMIT` times. One that may not ask at all is over at once.
    pub open spec fn begin(max_retries: u8) -> FetchState {
        let limit = if max_retries < RETRY_LIMIT {
            max_retries as int
        } else {
            RETRY_LIMIT as int
        };
        FetchState {
            attempt: 0,
            limit,
            stage: if limit == 0 {
                FetchStage::Done
            } else {
                FetchStage::Requesting
            },
            last: None,
            fetched: false,
        }
    }

    /// The states a fetch can be in.
    pub open spec fn wf(self) -> bool {
        &&& 0 <= self.attempt <= self.limit <= RETRY_LIMIT
        &&& self.stage != FetchStage::Done ==> self.attempt < self.limit && !self.fetched
        &&& self.stage == FetchStage::Backing ==> self.last is Some
        &&& self.stage == FetchStage::Done && !self.fetched ==> self.attempt == self.limit
        &&& self.attempt > 0 ==> self.last is Some
    }

    /// What the fetch asks of its driver. After the request with index `i`
    /// has failed, counted from zero, the wait is `BACKOFF_SECONDS * i`
    /// seconds.
    pub open spec fn pending(self) -> Option<FetchAction> {
        match self.stage {
            FetchStage::Requesting => Some(FetchAction::Request),
            FetchStage::Backing => Some(
                FetchAction::Sleep((BACKOFF_SECONDS * self.attempt) as u64),
            ),
            FetchStage::Done => None,
        }
    }

    /// The fetch after the driver has answered what was pending. A request
    /// that failed is followed by a wait, and the wait by the next request if
    /// one is left.
    pub open spec fn resolved(self, reply: FetchReply) -> FetchState {
        match self.stage {
            FetchStage::Requesting => match reply {
                FetchReply::Failed(err) => FetchState {
                    stage: FetchStage::Backing,
                    last: Some(err),
                    ..self
                },
                _ => FetchState { stage: FetchStage::Done, fetched: true, ..self },
            },
            FetchStage::Backing => FetchState {
                attempt: self.attempt + 1,
                stage: if self.attempt + 1 >= self.limit {
                    FetchStage::Done
                } else {
                    FetchStage::Requesting
                },
                ..self
            },
            FetchStage::Done => self,
        }
    }

    /// Whether the fetch is over.
    pub open spec fn finished(self) -> bool {
        self.stage == FetchStage::Done
    }

    /// How the fetch ended, once it is over.
    pub open spec fn outcome(self) -> Option<Result<(), FetchError>> {
        if !self.finished() {
            None
        } else if self.fetched {
            Some(Ok(()))
        } else {
            Some(Err(FetchError::Exhausted(self.last)))
        }
    }

    /// How many requests the fetch may still make.
    pub open spec fn requests_left(self) -> int {
        match self.stage {
            FetchStage::Requesting => self.limit - self.attempt,
            FetchStage::Backing => self.limit - self.attempt - 1,
            FetchStage::Done => 0,
        }
    }

    /// An upper bound on the number of answers that the fetch still needs
    /// before it is over: two for each request that it may still make.
    pub open spec fn steps_left(self) -> int {
        match self.stage {
            FetchStage::Requesting => 2 * (self.limit - self.attempt),
            FetchStage::Backing => 2 * (self.limit - self.attempt) - 1,
            FetchStage::Done => 0,
        }
    }

    /// The fetch after the driver has answered `replies`, one after the other.
    pub open spec fn run(self, replies: Seq<FetchReply>) -> FetchState
        decreases replies.len(),
    {
        if replies.len() == 0 {
            self
        } else {
            self.resolved(replies[0]).run(replies.drop_first())
        }
    }

    /// The number of requests that are asked while the driver answers
    /// `replies`.
    pub open spec fn requests(self, replies: Seq<FetchReply>) -> nat
        decreases replies.len(),
    {
        if replies.len() == 0 {
            0
        } else {
            let rest = self.resolved(replies[0]).requests(replies.drop_first());
            if self.stage == FetchStage::Requesting {
                rest + 1
            } else {
                rest
            }
        }
    }
}

/// A fetch of codes.
#[derive(Clone, Copy, Debug)]
pub struct Fetch {
    attempt: u8,
    limit: u8,
    stage: FetchStage,
    last: Option<ClientError>,
    fetched: bool,
}

impl View for Fetch {
    type V = FetchState;

    closed spec fn view(&self) -> FetchState {
        FetchState {
            attempt: self.attempt as int,
            limit: self.limit as int,
            stage: self.stage,
            last: self.last,
            fetched: self.fetched,
        }
    }
}

/// Starts a fetch that may ask `max_retries` times, but never more than
/// `RETRY_LIMIT` times.
pub fn get_codes(max_retries: u8) -> (fetch: Fetch)
    ensures
        fetch@ == FetchState::begin(max_retries),
        fetch@.wf(),
{
    let limit = if max_retries < RETRY_LIMIT {
        max_retries
    } else {
        RETRY_LIMIT
    };
    let stage = if limit == 0 {
        FetchStage::Done
    } else {
        FetchStage::Requesting
    };
    Fetch { attempt: 0, limit, stage, last: None, fetched: false }
}

impl Fetch {
    #[verifier::type_invariant]
    spec fn valid(&self) -> bool {
        self@.wf()
    }

    /// What the fetch asks of its driver; nothing once it is over.
    pub fn pending(&self) -> (action: Option<FetchAction>)
        ensures
            action == self@.pending(),
            self@.wf(),
    {
        proof {
            use_type_invariant(self);
        }
        match self.stage {
            FetchStage::Requesting => Some(FetchAction::Request),
            FetchStage::Backing => {
                let attempt: u64 = self.attempt.into();
                Some(FetchAction::Sleep(BACKOFF_SECONDS * attempt))
            },
            FetchStage::Done => None,
        }
    }

    /// Takes the driver's answer to what was pending.
    pub fn resolve(self, reply: FetchReply) -> (next: Fetch)
        ensures
            next@ == self@.resolved(reply),
            next@.wf(),
    {
        proof {
            use_type_invariant(&self);
        }
        let Fetch { attempt, limit, stage, last, fetched } = self;
        match stage {
            FetchStage::Requesting => match reply {
                FetchReply::Failed(err) => Fetch {
                    attempt,
                    limit,
                    stage: FetchStage::Backing,
                    last: Some(err),
                    fetched,
                },
                _ => Fetch { attempt, limit, stage: FetchStage::Done, last, fetched: true },
            },
            FetchStage::Backing => {
                let stage = if attempt + 1 >= limit {
                    FetchStage::Done
                } else {
                    FetchStage::Requesting
                };
                Fetch { attempt: attempt + 1, limit, stage, last, fetched }
            },
            FetchStage::Done => Fetch { attempt, limit, stage, last, fetched },
        }
    }

    /// How the fetch ended, once it is over.
    pub fn outcome(&self) -> (outcome: Option<Result<(), FetchError>>)
        ensures
            outcome == self@.outcome(),
    {
        match self.stage {
            FetchStage::Done => if self.fetched {
                Some(Ok(()))
            } else {
                Some(Err(FetchError::Exhausted(self.last)))
            },
            _ => None,
        }
    }
}

/// A fetch stays in the states it can be in.
pub proof fn lemma_fetch_stays_wf(state: FetchState, reply: FetchReply)
    requires
        state.wf(),
    ensures
        state.resolved(reply).wf(),
{
}

/// A fetch never asks the service more often than it may, and so never more
/// than `RETRY_LIMIT` times, whatever the answers are.
pub proof fn lemma_requests_are_bounded(state: FetchState, replies: Seq<FetchReply>)
    requires
        state.wf(),
    ensures
        state.requests(replies) <= state.requests_left(),
        state.requests(replies) <= state.limit - state.attempt,
        state.requests(replies) <= RETRY_LIMIT,
    decreases replies.len(),
{
    if replies.len() > 0 {
        lemma_fetch_stays_wf(state, replies[0]);
        lemma_requests_are_bounded(state.resolved(replies[0]), replies.drop_first());
    }
}

/// A fetch that may ask `max_retries` times asks at most so often, and at
/// most `RETRY_LIMIT` times.
pub proof fn lemma_fetch_is_capped(max_retries: u8, replies: Seq<FetchReply>)
    ensures
        FetchState::begin(max_retries).requests(replies) <= max_retries,
        FetchState::begin(max_retries).requests(replies) <= RETRY_LIMIT,
{
    lemma_requests_are_bounded(FetchState::begin(max_retries), replies);
}

/// A fetch is over after two answers for each request it may still make, at
/// the latest. It has then either been handed the codes, or it has asked as
/// often as it may and holds the failure of the last request.
pub proof fn lemma_fetch_ends(state: FetchState, replies: Seq<FetchReply>)
    requires
        state.wf(),
        replies.len() >= state.steps_left(),
    ensures
        state.run(replies).wf(),
        state.run(replies).finished(),
        state.run(replies).outcome() == Some(Ok::<(), FetchError>(())) || (state.run(
            replies,
        ).attempt == state.limit && state.run(replies).outcome() == Some(
            Err::<(), FetchError>(FetchError::Exhausted(state.run(replies).last)),
        )),
        state.limit > 0 && !state.run(replies).fetched ==> state.run(replies).last is Some,
    decreases replies.len(),
{
    if replies.len() > 0 {
        lemma_fetch_stays_wf(state, replies[0]);
        lemma_fetch_ends(state.resolved(replies[0]), replies.drop_first());
    }
}

} // verus!
