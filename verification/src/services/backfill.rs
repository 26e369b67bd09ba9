//! Backfilling one series over one window, as a machine that decides and
//! never acts: it names the next thing to do, and is told how that went.
//!
//! Swap history is fetched page by page. Each answer is inserted and carries
//! the time at which it ends; the next page starts there, after a pause,
//! until that time reaches the end of the window. Every other series is
//! fetched in one answer. Of every answer, the intervals that the store does
//! not hold yet are inserted.

use vstd::prelude::*;
use crate::errors::IngestError;
use crate::models::series::SeriesKind;

verus! {

/// The pause between two page fetches, in seconds.
pub const PAGE_BACKOFF_SECONDS: u64 = 3;

/// The width of the intervals that are asked of the upstream service.
pub const FETCH_INTERVAL: &'static str = "hour";

/// What to ask of the upstream service: intervals of one hour, at most
/// `count` of them, from `from` on and, where `to` is given, up to `to`; for
/// depth history, of the pool named.
#[derive(Debug, Clone, PartialEq, Eq)]
pub struct FetchRequest {
    pub kind: SeriesKind,
    pub pool: Option<String>,
    pub count: i64,
    pub from: i64,
    pub to: Option<i64>,
}

/// The next thing to do for a backfill.
#[derive(Debug, Clone, PartialEq, Eq)]
pub enum Action {
    /// Fetch from the upstream service.
    Fetch(FetchRequest),
    /// Insert those intervals of the answer just fetched that the store does
    /// not hold yet.
    Insert,
    /// Pause for so many seconds.
    Sleep(u64),
    /// Nothing: the backfill is complete.
    Done,
    /// Nothing: the backfill has failed.
    Fail(IngestError),
}

/// How the last action went.
#[derive(Debug, Clone, Copy, PartialEq, Eq, Structural)]
pub enum Outcome {
    /// The fetch was answered, and the answer ends at `end_time`.
    Fetched { end_time: i64 },
    /// The upstream service could not be reached or refused.
    FetchFailed,
    /// The answer could not be read.
    DecodeFailed,
    /// The intervals were inserted.
    Inserted,
    /// The store refused the intervals.
    InsertFailed,
    /// The pause is over.
    Slept,
}

/// The backfill of one series, of one pool where the series has pools, over
/// the window from `cursor` to `to`, and the action that it waits for.
#[derive(Debug, Clone, PartialEq, Eq)]
pub struct Backfill {
    pub kind: SeriesKind,
    pub pool: Option<String>,
    pub cursor: i64,
    pub to: i64,
    pub next: Action,
}

/// The name under which the upstream service offers the series.
pub open spec fn upstream_name(kind: SeriesKind) -> &'static str {
    match kind {
        SeriesKind::Depths => "depths",
        SeriesKind::Swaps => "swaps",
        SeriesKind::Earnings => "earnings",
        SeriesKind::RunepoolUnits => "runepool",
    }
}

/// Whether the series is fetched page by page.
pub open spec fn is_paginated(kind: SeriesKind) -> bool {
    kind == SeriesKind::Swaps
}

/// The most intervals to ask for at once: one for the two series whose
/// answer is a summary, 400 for the others.
pub open spec fn rows_per_fetch(kind: SeriesKind) -> i64 {
    match kind {
        SeriesKind::Depths => 400,
        SeriesKind::Swaps => 400,
        SeriesKind::Earnings => 1,
        SeriesKind::RunepoolUnits => 1,
    }
}

/// The request for the series from `cursor` on. A page names no end.
pub open spec fn request_for(
    kind: SeriesKind,
    pool: Option<String>,
    cursor: i64,
    to: i64,
) -> FetchRequest {
    FetchRequest {
        kind,
        pool,
        count: rows_per_fetch(kind),
        from: cursor,
        to: if is_paginated(kind) {
            None
        } else {
            Some(to)
        },
    }
}

/// How a backfill starts: with a fetch from `from`, unless the window is
/// empty or reversed.
pub open spec fn started(kind: SeriesKind, pool: Option<String>, from: i64, to: i64) -> Result<
    Backfill,
    IngestError,
> {
    if from >= to {
        Err(IngestError::InvalidWindow)
    } else {
        Ok(
            Backfill {
                kind,
                pool,
                cursor: from,
                to,
                next: Action::Fetch(request_for(kind, pool, from, to)),
            },
        )
    }
}

/// The backfill after it was told how its action went. Every answer is
/// inserted; a page moves the cursor to where it ends, and after its insert
/// the backfill is done where the cursor has reached the end of the window,
/// and pauses before the next page where it has not. An outcome that does not
/// answer the action changes nothing.
pub open spec fn advanced(state: Backfill, outcome: Outcome) -> Backfill {
    match (state.next, outcome) {
        (Action::Fetch(_), Outcome::Fetched { end_time }) => if is_paginated(state.kind) {
            Backfill { cursor: end_time, next: Action::Insert, ..state }
        } else {
            Backfill { next: Action::Insert, ..state }
        },
        (Action::Fetch(_), Outcome::FetchFailed) => Backfill {
            next: Action::Fail(IngestError::UpstreamFetch),
            ..state
        },
        (Action::Fetch(_), Outcome::DecodeFailed) => Backfill {
            next: Action::Fail(IngestError::UpstreamDecode),
            ..state
        },
        (Action::Insert, Outcome::Inserted) => if is_paginated(state.kind) && state.cursor
            < state.to {
            Backfill { next: Action::Sleep(PAGE_BACKOFF_SECONDS), ..state }
        } else {
            Backfill { next: Action::Done, ..state }
        },
        (Action::Insert, Outcome::InsertFailed) => Backfill {
            next: Action::Fail(IngestError::Store),
            ..state
        },
        (Action::Sleep(_), Outcome::Slept) => if state.cursor < state.to {
            Backfill {
                next: Action::Fetch(
                    request_for(state.kind, state.pool, state.cursor, state.to),
                ),
                ..state
            }
        } else {
            Backfill { next: Action::Done, ..state }
        },
        _ => state,
    }
}

/// A copy of the name of a pool, where there is one.
pub fn copy_pool(pool: &Option<String>) -> (copy: Option<String>)
    ensures
        copy == *pool,
{
    match pool {
        Some(name) => Some(name.clone()),
        None => None,
    }
}

impl FetchRequest {
    /// The name under which the upstream service offers the series asked for.
    pub fn path(&self) -> (name: &'static str)
        ensures
            name == upstream_name(self.kind),
    {
        match self.kind {
            SeriesKind::Depths => "depths",
            SeriesKind::Swaps => "swaps",
            SeriesKind::Earnings => "earnings",
            SeriesKind::RunepoolUnits => "runepool",
        }
    }
}

impl Backfill {
    /// Whether nothing is left to do.
    pub open spec fn is_over(self) -> bool {
        self.next is Done || self.next is Fail
    }

    /// Starts the backfill of a series over the window `from..to`.
    pub fn start(kind: SeriesKind, pool: Option<String>, from: i64, to: i64) -> (outcome: Result<
        Backfill,
        IngestError,
    >)
        ensures
            outcome == started(kind, pool, from, to),
    {
        if from >= to {
            return Err(IngestError::InvalidWindow);
        }
        let request = Backfill::request(kind, copy_pool(&pool), from, to);
        Ok(Backfill { kind, pool, cursor: from, to, next: Action::Fetch(request) })
    }

    /// The request for the series from `cursor` on.
    pub fn request(kind: SeriesKind, pool: Option<String>, cursor: i64, to: i64) -> (request:
        FetchRequest)
        ensures
            request == request_for(kind, pool, cursor, to),
    {
        match kind {
            SeriesKind::Depths => FetchRequest { kind, pool, count: 400, from: cursor, to: Some(to) },
            SeriesKind::Swaps => FetchRequest { kind, pool, count: 400, from: cursor, to: None },
            SeriesKind::Earnings => FetchRequest { kind, pool, count: 1, from: cursor, to: Some(to) },
            SeriesKind::RunepoolUnits => FetchRequest {
                kind,
                pool,
                count: 1,
                from: cursor,
                to: Some(to),
            },
        }
    }

    /// Tells the backfill how its action went, and gives it back with the
    /// next action.
    pub fn step(self, outcome: Outcome) -> (state: Backfill)
        ensures
            state == advanced(self, outcome),
    {
        let paginated: bool = match self.kind {
            SeriesKind::Swaps => true,
            _ => false,
        };
        let next: Action = match &self.next {
            Action::Fetch(_) => match outcome {
                Outcome::Fetched { end_time } => {
                    let cursor: i64 = if paginated {
                        end_time
                    } else {
                        self.cursor
                    };
                    return Backfill {
                        kind: self.kind,
                        pool: self.pool,
                        cursor,
                        to: self.to,
                        next: Action::Insert,
                    };
                },
                Outcome::FetchFailed => Action::Fail(IngestError::UpstreamFetch),
                Outcome::DecodeFailed => Action::Fail(IngestError::UpstreamDecode),
                _ => {
                    return self;
                },
            },
            Action::Insert => match outcome {
                Outcome::Inserted => if paginated && self.cursor < self.to {
                    Action::Sleep(PAGE_BACKOFF_SECONDS)
                } else {
                    Action::Done
                },
                Outcome::InsertFailed => Action::Fail(IngestError::Store),
                _ => {
                    return self;
                },
            },
            Action::Sleep(_) => match outcome {
                Outcome::Slept => if self.cursor < self.to {
                    Action::Fetch(
                        Backfill::request(self.kind, copy_pool(&self.pool), self.cursor, self.to),
                    )
                } else {
                    Action::Done
                },
                _ => {
                    return self;
                },
            },
            _ => {
                return self;
            },
        };
        Backfill { kind: self.kind, pool: self.pool, cursor: self.cursor, to: self.to, next }
    }

    /// The action that the backfill waits for.
    pub fn action(&self) -> (next: &Action)
        ensures
            *next == self.next,
    {
        &self.next
    }

    /// How the backfill ended: `None` while it goes on, and then whether it
    /// completed or why it failed.
    pub fn result(&self) -> (ended: Option<Result<(), IngestError>>)
        ensures
            ended == match self.next {
                Action::Done => Some(Ok::<(), IngestError>(())),
                Action::Fail(error) => Some(Err::<(), IngestError>(error)),
                _ => None::<Result<(), IngestError>>,
            },
    {
        match &self.next {
            Action::Done => Some(Ok(())),
            Action::Fail(error) => Some(Err(*error)),
            _ => None,
        }
    }
}

/// A backfill over an empty or reversed window never starts: there is no
/// machine, and so nothing to fetch or to insert.
pub proof fn lemma_invalid_window_starts_nothing(
    kind: SeriesKind,
    pool: Option<String>,
    from: i64,
    to: i64,
)
    ensures
        from >= to <==> started(kind, pool, from, to) == Err::<Backfill, IngestError>(
            IngestError::InvalidWindow,
        ),
        from < to <==> started(kind, pool, from, to) is Ok,
{
}

/// A backfill that is over stays as it is, whatever it is told.
pub proof fn lemma_over_is_final(state: Backfill, outcome: Outcome)
    requires
        state.is_over(),
    ensures
        advanced(state, outcome) == state,
{
}

/// A failure ends the backfill at once, with the error of its kind and
/// without another insert: a failed fetch, an unreadable answer and a refused
/// insert are never retried within the cycle.
pub proof fn lemma_failure_ends_backfill(state: Backfill, outcome: Outcome)
    requires
        !state.is_over(),
        advanced(state, outcome) != state,
    ensures
        outcome is FetchFailed ==> advanced(state, outcome).next == Action::Fail(
            IngestError::UpstreamFetch,
        ),
        outcome is DecodeFailed ==> advanced(state, outcome).next == Action::Fail(
            IngestError::UpstreamDecode,
        ),
        outcome is InsertFailed ==> advanced(state, outcome).next == Action::Fail(
            IngestError::Store,
        ),
{
}

/// Every answer is inserted: whatever a fetch is answered with, and wherever
/// the answer ends, the insert comes next. The series, the pool and the end
/// of the window never change, and an insert follows nothing but an answer.
pub proof fn lemma_every_answer_is_inserted(state: Backfill, outcome: Outcome)
    ensures
        advanced(state, outcome).to == state.to,
        advanced(state, outcome).kind == state.kind,
        advanced(state, outcome).pool == state.pool,
        state.next is Fetch && outcome is Fetched ==> advanced(state, outcome).next is Insert,
        advanced(state, outcome).next is Insert && !(state.next is Insert) ==> state.next is Fetch
            && outcome is Fetched,
{
}

/// A series fetched page by page is done after the insert of the page that
/// reaches the end of the window, and not before: until then it pauses and
/// fetches on from where the last page ended.
pub proof fn lemma_pages_until_the_end(state: Backfill)
    requires
        is_paginated(state.kind),
        state.next is Insert,
    ensures
        state.cursor >= state.to ==> advanced(state, Outcome::Inserted).next == Action::Done,
        state.cursor < state.to ==> advanced(state, Outcome::Inserted).next == Action::Sleep(
            PAGE_BACKOFF_SECONDS,
        ),
        state.cursor < state.to ==> advanced(
            advanced(state, Outcome::Inserted),
            Outcome::Slept,
        ).next == Action::Fetch(request_for(state.kind, state.pool, state.cursor, state.to)),
{
}

} // verus!
