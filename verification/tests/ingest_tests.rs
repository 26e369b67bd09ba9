use midgard_history::errors::IngestError;
use midgard_history::helpers::cron::{
    cycle_window, plan_cycle, pull_latest_data, Window, CYCLE_DEPTHS_POOL, CYCLE_PERIOD_SECONDS,
};
use midgard_history::models::series::SeriesKind;
use midgard_history::services::backfill::{
    copy_pool, Action, Backfill, FetchRequest, Outcome, FETCH_INTERVAL, PAGE_BACKOFF_SECONDS,
};
use midgard_history::services::depths_service::update_depths_data;
use midgard_history::services::earnings_service::update_earnings_history;
use midgard_history::services::rpmuh_service::update_rpmuh_data;
use midgard_history::services::store::fresh_starts;
use midgard_history::services::swaps_service::update_swaps_history;

/// A store that keeps what it is asked to insert: the series and the start
/// time of each interval, call by call, and what was asked of the upstream.
struct FakeStore {
    inserts: Vec<Vec<(SeriesKind, i64)>>,
    fetches: Vec<FetchRequest>,
    sleeps: Vec<u64>,
}

impl FakeStore {
    fn new() -> Self {
        FakeStore { inserts: Vec::new(), fetches: Vec::new(), sleeps: Vec::new() }
    }

    fn keys(&self) -> Vec<(SeriesKind, i64)> {
        self.inserts.iter().flatten().cloned().collect()
    }

    fn held(&self, kind: SeriesKind) -> Vec<i64> {
        self.keys().into_iter().filter(|key| key.0 == kind).map(|key| key.1).collect()
    }
}

/// An upstream service that answers with the hours that start in the window
/// asked for, at most as many as asked for.
fn hours_within(request: &FetchRequest, to: i64) -> (Vec<i64>, i64) {
    let end = request.to.unwrap_or(to);
    let mut starts = Vec::new();
    let mut hour = (request.from + 3599).div_euclid(3600) * 3600;
    while hour < end && (starts.len() as i64) < request.count {
        starts.push(hour);
        hour += 3600;
    }
    (starts, hour)
}

/// An upstream service that answers with every hour that the window asked
/// for touches, the hour that `from` falls into among them.
fn hours_touched(request: &FetchRequest, to: i64) -> (Vec<i64>, i64) {
    let end = request.to.unwrap_or(to);
    let mut starts = Vec::new();
    let mut hour = request.from.div_euclid(3600) * 3600;
    while hour < end {
        starts.push(hour);
        hour += 3600;
    }
    (starts, hour)
}

fn run_with(
    mut backfill: Backfill,
    store: &mut FakeStore,
    upstream: fn(&FetchRequest, i64) -> (Vec<i64>, i64),
) -> Result<(), IngestError> {
    let mut batch: Vec<i64> = Vec::new();
    let mut steps = 0;
    loop {
        steps += 1;
        assert!(steps < 10_000);
        let outcome = match backfill.action() {
            Action::Fetch(request) => {
                store.fetches.push(request.clone());
                let (starts, end_time) = upstream(request, backfill.to);
                batch = starts;
                Outcome::Fetched { end_time }
            }
            Action::Insert => {
                let kept = fresh_starts(&store.held(backfill.kind), &batch);
                store.inserts.push(kept.iter().map(|place| (backfill.kind, batch[*place])).collect());
                Outcome::Inserted
            }
            Action::Sleep(seconds) => {
                store.sleeps.push(*seconds);
                Outcome::Slept
            }
            Action::Done => return Ok(()),
            Action::Fail(error) => return Err(*error),
        };
        backfill = backfill.step(outcome);
    }
}

fn run(backfill: Backfill, store: &mut FakeStore) -> Result<(), IngestError> {
    run_with(backfill, store, hours_within)
}

fn assert_no_key_twice(keys: &Vec<(SeriesKind, i64)>) {
    for i in 0..keys.len() {
        for j in (i + 1)..keys.len() {
            assert_ne!(keys[i], keys[j]);
        }
    }
}

fn btc() -> String {
    "BTC.BTC".to_string()
}

#[test]
fn a_reversed_window_fails_and_nothing_is_fetched_or_inserted() {
    assert_eq!(update_depths_data(btc(), 1000, 500), Err(IngestError::InvalidWindow));
    assert_eq!(update_swaps_history(1000, 500), Err(IngestError::InvalidWindow));
    assert_eq!(update_earnings_history(1000, 500), Err(IngestError::InvalidWindow));
    assert_eq!(update_rpmuh_data(1000, 500), Err(IngestError::InvalidWindow));
    for kind in [SeriesKind::Depths, SeriesKind::Swaps, SeriesKind::Earnings, SeriesKind::RunepoolUnits] {
        assert_eq!(Backfill::start(kind, None, 1000, 500), Err(IngestError::InvalidWindow));
    }
    let mut store = FakeStore::new();
    let mut failures = 0;
    for started in [update_depths_data(btc(), 1000, 500), update_swaps_history(1000, 500)] {
        match started {
            Ok(backfill) => {
                let _ = run(backfill, &mut store);
            }
            Err(error) => {
                assert_eq!(error, IngestError::InvalidWindow);
                failures += 1;
            }
        }
    }
    assert_eq!(failures, 2);
    assert!(store.fetches.is_empty());
    assert!(store.inserts.is_empty());
}

#[test]
fn an_empty_window_fails_too() {
    assert_eq!(update_depths_data(btc(), 500, 500), Err(IngestError::InvalidWindow));
    assert_eq!(update_swaps_history(500, 500), Err(IngestError::InvalidWindow));
    assert_eq!(
        IngestError::InvalidWindow.message(),
        "Invalid time range: 'from' should be less than 'to'"
    );
}

#[test]
fn a_backfill_starts_with_a_fetch_over_the_window() {
    let depths = update_depths_data("ETH.ETH".to_string(), 3600, 7200).unwrap();
    assert_eq!(
        depths,
        Backfill {
            kind: SeriesKind::Depths,
            pool: Some("ETH.ETH".to_string()),
            cursor: 3600,
            to: 7200,
            next: Action::Fetch(FetchRequest {
                kind: SeriesKind::Depths,
                pool: Some("ETH.ETH".to_string()),
                count: 400,
                from: 3600,
                to: Some(7200),
            }),
        }
    );
    let earnings = update_earnings_history(3600, 7200).unwrap();
    assert_eq!(
        *earnings.action(),
        Action::Fetch(FetchRequest {
            kind: SeriesKind::Earnings,
            pool: None,
            count: 1,
            from: 3600,
            to: Some(7200),
        })
    );
    let runepool = update_rpmuh_data(3600, 7200).unwrap();
    assert_eq!(
        *runepool.action(),
        Action::Fetch(FetchRequest {
            kind: SeriesKind::RunepoolUnits,
            pool: None,
            count: 1,
            from: 3600,
            to: Some(7200),
        })
    );
    let swaps = update_swaps_history(3600, 7200).unwrap();
    assert_eq!(
        *swaps.action(),
        Action::Fetch(FetchRequest {
            kind: SeriesKind::Swaps,
            pool: None,
            count: 400,
            from: 3600,
            to: None,
        })
    );
    assert_eq!(swaps.result(), None);
}

#[test]
fn a_single_fetch_is_inserted_and_the_backfill_is_done() {
    let backfill = update_depths_data(btc(), 0, 7200).unwrap();
    let fetched = backfill.step(Outcome::Fetched { end_time: 999_999 });
    assert_eq!(*fetched.action(), Action::Insert);
    assert_eq!(fetched.cursor, 0);
    assert_eq!(fetched.pool, Some(btc()));
    let inserted = fetched.step(Outcome::Inserted);
    assert_eq!(*inserted.action(), Action::Done);
    assert_eq!(inserted.result(), Some(Ok(())));
    assert_eq!(inserted.clone().step(Outcome::Slept), inserted);
}

#[test]
fn swaps_are_fetched_page_by_page_with_a_pause() {
    let backfill = update_swaps_history(0, 10_000).unwrap();
    let page = backfill.step(Outcome::Fetched { end_time: 4000 });
    assert_eq!(*page.action(), Action::Insert);
    assert_eq!(page.cursor, 4000);
    let inserted = page.step(Outcome::Inserted);
    assert_eq!(*inserted.action(), Action::Sleep(3));
    assert_eq!(PAGE_BACKOFF_SECONDS, 3);
    let rested = inserted.step(Outcome::Slept);
    assert_eq!(
        *rested.action(),
        Action::Fetch(FetchRequest {
            kind: SeriesKind::Swaps,
            pool: None,
            count: 400,
            from: 4000,
            to: None,
        })
    );
    let last = rested.clone().step(Outcome::Fetched { end_time: 10_000 });
    assert_eq!(*last.action(), Action::Insert);
    assert_eq!(last.cursor, 10_000);
    assert_eq!(*last.step(Outcome::Inserted).action(), Action::Done);
    let past = rested.step(Outcome::Fetched { end_time: 12_000 });
    assert_eq!(*past.action(), Action::Insert);
    assert_eq!(past.step(Outcome::Inserted).result(), Some(Ok(())));
}

#[test]
fn the_page_that_reaches_the_end_of_the_window_is_inserted() {
    let mut store = FakeStore::new();
    let backfill = update_swaps_history(0, 1000).unwrap();
    fn one_interval(_: &FetchRequest, _: i64) -> (Vec<i64>, i64) {
        (vec![0], 1000)
    }
    assert_eq!(run_with(backfill, &mut store, one_interval), Ok(()));
    assert_eq!(store.fetches.len(), 1);
    assert_eq!(store.inserts, vec![vec![(SeriesKind::Swaps, 0)]]);
    assert!(store.sleeps.is_empty());
}

#[test]
fn an_hourly_cycle_inserts_the_swaps_of_its_hour() {
    let now = 1_700_002_800;
    let swaps = plan_cycle(now).remove(3).unwrap();
    assert_eq!(swaps.kind, SeriesKind::Swaps);
    let fetched = swaps.step(Outcome::Fetched { end_time: now });
    assert_eq!(*fetched.action(), Action::Insert);
    let done = fetched.step(Outcome::Inserted);
    assert_eq!(done.result(), Some(Ok(())));
}

#[test]
fn failures_end_the_backfill_of_that_series() {
    let backfill = update_swaps_history(0, 10_000).unwrap();
    let unreachable = backfill.clone().step(Outcome::FetchFailed);
    assert_eq!(*unreachable.action(), Action::Fail(IngestError::UpstreamFetch));
    assert_eq!(unreachable.result(), Some(Err(IngestError::UpstreamFetch)));
    let unreadable = backfill.clone().step(Outcome::DecodeFailed);
    assert_eq!(unreadable.result(), Some(Err(IngestError::UpstreamDecode)));
    let refused = backfill.step(Outcome::Fetched { end_time: 5 }).step(Outcome::InsertFailed);
    assert_eq!(refused.result(), Some(Err(IngestError::Store)));
    assert_eq!(refused.clone().step(Outcome::Inserted), refused);
    assert_eq!(refused.clone().step(Outcome::Slept), refused);
    assert_eq!(unreachable.clone().step(Outcome::Fetched { end_time: 5 }), unreachable);
}

#[test]
fn an_outcome_that_answers_nothing_changes_nothing() {
    let backfill = update_depths_data(btc(), 0, 10).unwrap();
    assert_eq!(backfill.clone().step(Outcome::Inserted), backfill);
    assert_eq!(backfill.clone().step(Outcome::InsertFailed), backfill);
    assert_eq!(backfill.clone().step(Outcome::Slept), backfill);
    let waiting = backfill.step(Outcome::Fetched { end_time: 5 });
    assert_eq!(waiting.clone().step(Outcome::Fetched { end_time: 6 }), waiting);
    assert_eq!(waiting.clone().step(Outcome::FetchFailed), waiting);
    assert_eq!(waiting.clone().step(Outcome::Slept), waiting);
}

#[test]
fn the_window_of_a_cycle_is_the_hour_before() {
    assert_eq!(cycle_window(1_700_003_600), Window { from: 1_700_000_000, to: 1_700_003_600 });
    assert_eq!(cycle_window(0), Window { from: -3600, to: 0 });
    assert_eq!(cycle_window(i64::MIN + 5), Window { from: i64::MIN, to: i64::MIN + 5 });
    assert_eq!(cycle_window(i64::MIN), Window { from: i64::MIN, to: i64::MIN });
    assert_eq!(CYCLE_PERIOD_SECONDS, 3600);
}

#[test]
fn a_cycle_backfills_every_series_over_its_window() {
    let backfills = plan_cycle(7200);
    assert_eq!(
        backfills,
        vec![
            Backfill::start(SeriesKind::Depths, Some(btc()), 3600, 7200),
            Backfill::start(SeriesKind::Earnings, None, 3600, 7200),
            Backfill::start(SeriesKind::RunepoolUnits, None, 3600, 7200),
            Backfill::start(SeriesKind::Swaps, None, 3600, 7200),
        ]
    );
    assert_eq!(CYCLE_DEPTHS_POOL, "BTC.BTC");
    assert!(backfills.iter().all(|b| b.is_ok()));
    assert!(plan_cycle(i64::MIN).iter().all(|b| *b == Err(IngestError::InvalidWindow)));
}

#[test]
fn the_cycle_that_runs_now_covers_the_last_hour() {
    let backfills = pull_latest_data();
    assert_eq!(backfills.len(), 4);
    let first = backfills[0].clone().unwrap();
    assert_eq!(first.to - first.cursor, 3600);
    assert!(first.to > 1_700_000_000);
    for backfill in &backfills {
        let backfill = backfill.clone().unwrap();
        assert_eq!((backfill.cursor, backfill.to), (first.cursor, first.to));
    }
}

#[test]
fn one_series_failing_leaves_the_others_to_run() {
    let mut store = FakeStore::new();
    let mut results = Vec::new();
    for (i, started) in plan_cycle(7200).into_iter().enumerate() {
        let backfill = started.unwrap();
        if i == 1 {
            results.push(backfill.step(Outcome::FetchFailed).result().unwrap());
        } else {
            results.push(run(backfill, &mut store));
        }
    }
    assert_eq!(results, vec![Ok(()), Err(IngestError::UpstreamFetch), Ok(()), Ok(())]);
    assert_eq!(store.inserts.len(), 3);
    assert_eq!(store.inserts[0], vec![(SeriesKind::Depths, 3600)]);
    assert_eq!(store.inserts[1], vec![(SeriesKind::RunepoolUnits, 3600)]);
    assert_eq!(store.inserts[2], vec![(SeriesKind::Swaps, 3600)]);
}

#[test]
fn two_cycles_a_period_apart_insert_no_interval_twice() {
    let mut store = FakeStore::new();
    for now in [7200, 10_800, 14_400] {
        for started in plan_cycle(now) {
            let _ = run(started.unwrap(), &mut store);
        }
    }
    let keys = store.keys();
    assert_no_key_twice(&keys);
    for kind in [SeriesKind::Depths, SeriesKind::Swaps, SeriesKind::Earnings, SeriesKind::RunepoolUnits] {
        assert_eq!(store.held(kind), vec![3600, 7200, 10_800]);
    }
}

#[test]
fn two_cycles_with_overlapping_windows_insert_no_interval_twice() {
    let mut store = FakeStore::new();
    for now in [7200, 9000, 9060, 12_000] {
        for started in plan_cycle(now) {
            assert_eq!(run_with(started.unwrap(), &mut store, hours_touched), Ok(()));
        }
    }
    let keys = store.keys();
    assert_no_key_twice(&keys);
    for kind in [SeriesKind::Depths, SeriesKind::Swaps, SeriesKind::Earnings, SeriesKind::RunepoolUnits] {
        assert_eq!(store.held(kind), vec![3600, 7200, 10_800]);
    }
    assert_eq!(store.fetches.len(), 16);
}

#[test]
fn a_depths_backfill_over_a_window_that_was_covered_inserts_nothing_twice() {
    let mut store = FakeStore::new();
    let first = update_depths_data(btc(), 0, 4 * 3600).unwrap();
    assert_eq!(run_with(first, &mut store, hours_touched), Ok(()));
    let second = update_depths_data(btc(), 2 * 3600 + 5, 6 * 3600).unwrap();
    assert_eq!(run_with(second, &mut store, hours_touched), Ok(()));
    assert_eq!(store.inserts[0].len(), 4);
    assert_eq!(store.inserts[1], vec![(SeriesKind::Depths, 4 * 3600), (SeriesKind::Depths, 5 * 3600)]);
    assert_no_key_twice(&store.keys());
}

#[test]
fn fresh_starts_are_those_not_held_and_not_met_before() {
    assert_eq!(fresh_starts(&vec![], &vec![]), Vec::<usize>::new());
    assert_eq!(fresh_starts(&vec![1, 2], &vec![]), Vec::<usize>::new());
    assert_eq!(fresh_starts(&vec![], &vec![5, 6, 7]), vec![0, 1, 2]);
    assert_eq!(fresh_starts(&vec![6], &vec![5, 6, 7]), vec![0, 2]);
    assert_eq!(fresh_starts(&vec![5, 6, 7], &vec![5, 6, 7]), Vec::<usize>::new());
    assert_eq!(fresh_starts(&vec![], &vec![5, 5, 6, 5, 6, 7]), vec![0, 2, 5]);
    assert_eq!(fresh_starts(&vec![7, 7], &vec![9, 7, 9, 8]), vec![0, 3]);
    assert_eq!(fresh_starts(&vec![i64::MIN], &vec![i64::MAX, i64::MIN, 0]), vec![0, 2]);
}

#[test]
fn a_long_swaps_backfill_pauses_between_pages() {
    let mut store = FakeStore::new();
    let backfill = update_swaps_history(0, 1000 * 3600).unwrap();
    assert_eq!(run(backfill, &mut store), Ok(()));
    assert_eq!(store.fetches.len(), 3);
    assert_eq!(store.fetches[1].from, 400 * 3600);
    assert_eq!(store.fetches[2].from, 800 * 3600);
    assert_eq!(store.inserts.len(), 3);
    assert_eq!(store.inserts[0].len(), 400);
    assert_eq!(store.inserts[1].len(), 400);
    assert_eq!(store.inserts[2].len(), 200);
    assert_eq!(store.sleeps, vec![3, 3]);
    assert_no_key_twice(&store.keys());
}

#[test]
fn requests_name_their_series_and_ask_for_hours() {
    assert_eq!(Backfill::request(SeriesKind::Depths, Some(btc()), 1, 2).path(), "depths");
    assert_eq!(Backfill::request(SeriesKind::Depths, Some(btc()), 1, 2).pool, Some(btc()));
    assert_eq!(Backfill::request(SeriesKind::Swaps, None, 1, 2).path(), "swaps");
    assert_eq!(Backfill::request(SeriesKind::Earnings, None, 1, 2).path(), "earnings");
    assert_eq!(Backfill::request(SeriesKind::RunepoolUnits, None, 1, 2).path(), "runepool");
    assert_eq!(FETCH_INTERVAL, "hour");
    assert_eq!(copy_pool(&Some(btc())), Some(btc()));
    assert_eq!(copy_pool(&None), None);
}
