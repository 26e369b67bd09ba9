//! The ingestion cycle: once an hour, every series is backfilled over the
//! hour that has just passed.
//!
//! The window is taken from the clock at each cycle and nowhere remembered.
//! The series are backfilled one after the other, each from its own start:
//! what happens to one of them has no part in the start of the next.

use vstd::prelude::*;
use crate::errors::IngestError;
use crate::helpers::time_formatter::current_timestamp;
use crate::models::series::SeriesKind;
use crate::services::backfill::{started, Backfill};

verus! {

/// The time between two cycles, and the length of the window of each, in seconds.
pub const CYCLE_PERIOD_SECONDS: i64 = 3600;

/// A window in time, from `from` up to and without `to`.
#[derive(Debug, Clone, Copy, PartialEq, Eq, Structural)]
pub struct Window {
    pub from: i64,
    pub to: i64,
}

/// The window of the cycle that runs at `now`: the hour before `now`, cut
/// where the machine's integers end.
pub open spec fn window_at(now: i64) -> Window {
    Window {
        from: if now - CYCLE_PERIOD_SECONDS < i64::MIN {
            i64::MIN
        } else {
            (now - CYCLE_PERIOD_SECONDS) as i64
        },
        to: now,
    }
}

/// The pool whose depths a cycle backfills.
pub const CYCLE_DEPTHS_POOL: &'static str = "BTC.BTC";

/// The series in the order in which a cycle backfills them.
pub open spec fn cycle_order() -> Seq<SeriesKind> {
    seq![
        SeriesKind::Depths,
        SeriesKind::Earnings,
        SeriesKind::RunepoolUnits,
        SeriesKind::Swaps,
    ]
}

/// Whether `backfills` are those of the cycle that runs at `now`: one for
/// each series, in order, each over the window of the cycle and each from its
/// own start; that of the depths for the pool [`CYCLE_DEPTHS_POOL`], the
/// others for no pool.
pub open spec fn is_cycle_at(backfills: Seq<Result<Backfill, IngestError>>, now: i64) -> bool {
    &&& backfills.len() == cycle_order().len()
    &&& exists|pool: String|
        pool@ == CYCLE_DEPTHS_POOL@ && backfills[0] == #[trigger] started(
            cycle_order()[0],
            Some(pool),
            window_at(now).from,
            window_at(now).to,
        )
    &&& forall|i: int|
        1 <= i < cycle_order().len() ==> #[trigger] backfills[i] == started(
            cycle_order()[i],
            None,
            window_at(now).from,
            window_at(now).to,
        )
}

/// The windows of two cycles that run a full period apart do not overlap.
pub proof fn lemma_cycles_a_period_apart(earlier: i64, later: i64)
    requires
        later - earlier >= CYCLE_PERIOD_SECONDS,
    ensures
        window_at(earlier).to <= window_at(later).from,
{
}

/// The window of every cycle is in order but for one that runs at the
/// earliest time of all, and so every backfill of a cycle starts.
pub proof fn lemma_cycle_starts_every_series(
    backfills: Seq<Result<Backfill, IngestError>>,
    now: i64,
    i: int,
)
    requires
        now > i64::MIN,
        is_cycle_at(backfills, now),
        0 <= i < cycle_order().len(),
    ensures
        window_at(now).from < window_at(now).to,
        backfills[i] is Ok,
{
}

/// Computes the window of the cycle that runs at `now`.
pub fn cycle_window(now: i64) -> (window: Window)
    ensures
        window == window_at(now),
{
    let from: i64 = if now < i64::MIN + CYCLE_PERIOD_SECONDS {
        i64::MIN
    } else {
        now - CYCLE_PERIOD_SECONDS
    };
    Window { from, to: now }
}

/// Plans the cycle that runs at `now`.
pub fn plan_cycle(now: i64) -> (backfills: Vec<Result<Backfill, IngestError>>)
    ensures
        is_cycle_at(backfills@, now),
{
    let window = cycle_window(now);
    let pool: String = CYCLE_DEPTHS_POOL.to_owned();
    let ghost named = pool;
    let backfills = vec![
        Backfill::start(SeriesKind::Depths, Some(pool), window.from, window.to),
        Backfill::start(SeriesKind::Earnings, None, window.from, window.to),
        Backfill::start(SeriesKind::RunepoolUnits, None, window.from, window.to),
        Backfill::start(SeriesKind::Swaps, None, window.from, window.to),
    ];
    assert(backfills@[0] == started(
        cycle_order()[0],
        Some(named),
        window_at(now).from,
        window_at(now).to,
    ));
    backfills
}

/// Reads the clock and plans the cycle that runs now.
pub fn pull_latest_data() -> (backfills: Vec<Result<Backfill, IngestError>>)
    ensures
        exists|now: i64| is_cycle_at(backfills@, now),
{
    let now = current_timestamp();
    let backfills = plan_cycle(now);
    assert(is_cycle_at(backfills@, now));
    backfills
}

} // verus!
