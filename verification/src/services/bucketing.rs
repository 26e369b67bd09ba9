//! Buckets of fixed width in time, and the one row that stands for each.
//!
//! A record belongs to the bucket `floor(start_time / interval)`. Of the
//! records of one bucket, taken in the order in which they arrive, the row
//! keeps the start of the first and everything else of the last. Rows come
//! out in the order in which their buckets were first met.

use std::collections::HashMap;
use vstd::prelude::*;
use vstd::arithmetic::div_mod::lemma_fundamental_div_mod;
use vstd::arithmetic::div_mod::lemma_fundamental_div_mod_converse;

verus! {

/// What bucketing reads of an interval record: its two timestamps in seconds,
/// the value it is ordered by, and the place of the record that supplies
/// every other field.
#[derive(Debug, Clone, Copy, PartialEq, Eq, Structural)]
pub struct Sample {
    pub start_time: i64,
    pub end_time: i64,
    pub key: i64,
    pub source: usize,
}

/// The number of the bucket that a start time falls into: the floor of
/// `start_time / interval`.
pub open spec fn bucket_of(start_time: i64, interval: i64) -> int {
    start_time as int / interval as int
}

/// Where that bucket begins: the start time floored to a multiple of the interval.
pub open spec fn bucket_start(start_time: i64, interval: i64) -> int {
    bucket_of(start_time, interval) * interval
}

/// A bucket begins at or before each start time in it, and less than one
/// interval before.
pub proof fn lemma_bucket_start_bounds(start_time: i64, interval: i64)
    requires
        interval > 0,
    ensures
        bucket_start(start_time, interval) <= start_time < bucket_start(start_time, interval)
            + interval,
        bucket_start(start_time, interval) % interval as int == 0,
{
    lemma_fundamental_div_mod(start_time as int, interval as int);
    let q = start_time as int / interval as int;
    assert(q * interval == interval * q) by (nonlinear_arith);
    lemma_fundamental_div_mod_converse(q * interval, interval as int, q, 0);
}

/// Computes the number of the bucket of a start time.
pub fn bucket_index(start_time: i64, interval_seconds: i64) -> (index: i64)
    requires
        interval_seconds > 0,
    ensures
        index == bucket_of(start_time, interval_seconds),
{
    if start_time >= 0 {
        start_time / interval_seconds
    } else {
        let mirrored: i64 = -(start_time + 1);
        let quotient: i64 = mirrored / interval_seconds;
        proof {
            let d = interval_seconds as int;
            let q = mirrored as int / d;
            let r = mirrored as int % d;
            lemma_fundamental_div_mod(mirrored as int, d);
            assert((-1 - q) * d + (d - 1 - r) == -(d * q + r) - 1) by (nonlinear_arith);
            lemma_fundamental_div_mod_converse(start_time as int, d, -1 - q, d - 1 - r);
            assert(0 <= q <= mirrored) by (nonlinear_arith)
                requires
                    mirrored == d * q + r,
                    0 <= r < d,
                    d >= 1,
                    mirrored >= 0,
            ;
        }
        -1 - quotient
    }
}

/// The place in `rows`, at or after `from`, of the first row of the bucket
/// `bucket`; the length of `rows` where there is none.
pub open spec fn find_row(rows: Seq<Sample>, bucket: int, interval: i64, from: int) -> int
    decreases rows.len() - from,
{
    if from < 0 || from >= rows.len() {
        rows.len() as int
    } else if bucket_of(rows[from].start_time, interval) == bucket {
        from
    } else {
        find_row(rows, bucket, interval, from + 1)
    }
}

/// The rows after one more sample has arrived. If its bucket has a row, that
/// row keeps its start and takes everything else from the sample; if not, the
/// sample becomes a new row at the end.
pub open spec fn absorbed(rows: Seq<Sample>, sample: Sample, interval: i64) -> Seq<Sample> {
    let at = find_row(rows, bucket_of(sample.start_time, interval), interval, 0);
    if at < rows.len() {
        rows.update(at, Sample { start_time: rows[at].start_time, ..sample })
    } else {
        rows.push(sample)
    }
}

/// The rows that stand for the samples, one for each bucket.
pub open spec fn bucketed(samples: Seq<Sample>, interval: i64) -> Seq<Sample>
    decreases samples.len(),
{
    if samples.len() == 0 {
        samples
    } else {
        absorbed(bucketed(samples.drop_last(), interval), samples.last(), interval)
    }
}

/// Whether no two of the samples share a bucket.
pub open spec fn distinct_buckets(samples: Seq<Sample>, interval: i64) -> bool {
    forall|i: int, j: int|
        0 <= i < j < samples.len() ==> bucket_of(#[trigger] samples[i].start_time, interval)
            != bucket_of(#[trigger] samples[j].start_time, interval)
}

/// What `find_row` finds: the first row of the bucket from `from` on, if any.
pub proof fn lemma_find_row(rows: Seq<Sample>, bucket: int, interval: i64, from: int)
    requires
        0 <= from <= rows.len(),
    ensures
        from <= find_row(rows, bucket, interval, from) <= rows.len(),
        find_row(rows, bucket, interval, from) < rows.len() ==> bucket_of(
            rows[find_row(rows, bucket, interval, from)].start_time,
            interval,
        ) == bucket,
        forall|k: int|
            from <= k < find_row(rows, bucket, interval, from) ==> bucket_of(
                #[trigger] rows[k].start_time,
                interval,
            ) != bucket,
    decreases rows.len() - from,
{
    if from < rows.len() && bucket_of(rows[from].start_time, interval) != bucket {
        lemma_find_row(rows, bucket, interval, from + 1);
    }
}

/// The rows stand for different buckets, every one of them.
pub proof fn lemma_bucketed_distinct(samples: Seq<Sample>, interval: i64)
    ensures
        distinct_buckets(bucketed(samples, interval), interval),
    decreases samples.len(),
{
    if samples.len() > 0 {
        let rows = bucketed(samples.drop_last(), interval);
        let sample = samples.last();
        lemma_bucketed_distinct(samples.drop_last(), interval);
        lemma_find_row(rows, bucket_of(sample.start_time, interval), interval, 0);
    }
}

/// Samples that already stand for different buckets are their own rows.
pub proof fn lemma_bucketed_of_distinct(samples: Seq<Sample>, interval: i64)
    requires
        distinct_buckets(samples, interval),
    ensures
        bucketed(samples, interval) == samples,
    decreases samples.len(),
{
    if samples.len() > 0 {
        let rest = samples.drop_last();
        let sample = samples.last();
        assert(distinct_buckets(rest, interval)) by {
            assert forall|i: int, j: int| 0 <= i < j < rest.len() implies bucket_of(
                #[trigger] rest[i].start_time,
                interval,
            ) != bucket_of(#[trigger] rest[j].start_time, interval) by {
                assert(rest[i] == samples[i] && rest[j] == samples[j]);
            }
        }
        lemma_bucketed_of_distinct(rest, interval);
        lemma_find_row(rest, bucket_of(sample.start_time, interval), interval, 0);
        let at = find_row(rest, bucket_of(sample.start_time, interval), interval, 0);
        if at < rest.len() {
            assert(rest[at] == samples[at]);
            assert(samples[samples.len() - 1] == sample);
        }
        assert(rest.push(sample) == samples);
    }
}

/// Bucketing again, with the same interval, changes nothing: rows are their own rows.
pub proof fn lemma_bucketed_idempotent(samples: Seq<Sample>, interval: i64)
    ensures
        bucketed(bucketed(samples, interval), interval) == bucketed(samples, interval),
{
    lemma_bucketed_distinct(samples, interval);
    lemma_bucketed_of_distinct(bucketed(samples, interval), interval);
}

/// The place of the last sample of the bucket `bucket`; -1 where there is none.
pub open spec fn last_in_bucket(samples: Seq<Sample>, bucket: int, interval: i64) -> int
    decreases samples.len(),
{
    if samples.len() == 0 {
        -1
    } else if bucket_of(samples.last().start_time, interval) == bucket {
        samples.len() - 1
    } else {
        last_in_bucket(samples.drop_last(), bucket, interval)
    }
}

/// Finding a row after one more row was added at the end.
pub proof fn lemma_find_row_push(
    rows: Seq<Sample>,
    sample: Sample,
    bucket: int,
    interval: i64,
    from: int,
)
    requires
        0 <= from <= rows.len(),
    ensures
        find_row(rows.push(sample), bucket, interval, from) == (if find_row(
            rows,
            bucket,
            interval,
            from,
        ) < rows.len() {
            find_row(rows, bucket, interval, from)
        } else if bucket_of(sample.start_time, interval) == bucket {
            rows.len() as int
        } else {
            rows.len() as int + 1
        }),
    decreases rows.len() - from,
{
    let longer = rows.push(sample);
    if from < rows.len() {
        assert(longer[from] == rows[from]);
        if bucket_of(rows[from].start_time, interval) != bucket {
            lemma_find_row_push(rows, sample, bucket, interval, from + 1);
        }
    } else {
        assert(longer[from] == sample);
        reveal_with_fuel(find_row, 2);
    }
}

/// Finding a row after one row was replaced by another of the same bucket.
pub proof fn lemma_find_row_update(
    rows: Seq<Sample>,
    at: int,
    row: Sample,
    bucket: int,
    interval: i64,
    from: int,
)
    requires
        0 <= from <= rows.len(),
        0 <= at < rows.len(),
        bucket_of(row.start_time, interval) == bucket_of(rows[at].start_time, interval),
    ensures
        find_row(rows.update(at, row), bucket, interval, from) == find_row(
            rows,
            bucket,
            interval,
            from,
        ),
    decreases rows.len() - from,
{
    if from < rows.len() {
        lemma_find_row_update(rows, at, row, bucket, interval, from + 1);
    }
}

/// The rule of the rows, bucket by bucket. A bucket has a row exactly where
/// it has a sample. The row starts when the first sample of the bucket
/// starts, and holds everything else as the last sample of the bucket does.
pub proof fn lemma_first_start_last_rest(samples: Seq<Sample>, interval: i64, bucket: int)
    ensures
        ({
            let rows = bucketed(samples, interval);
            let row = find_row(rows, bucket, interval, 0);
            let first = find_row(samples, bucket, interval, 0);
            let last = last_in_bucket(samples, bucket, interval);
            &&& 0 <= row <= rows.len()
            &&& 0 <= first <= samples.len()
            &&& row < rows.len() <==> first < samples.len()
            &&& row < rows.len() ==> {
                &&& first <= last < samples.len()
                &&& bucket_of(samples[last].start_time, interval) == bucket
                &&& rows[row] == Sample { start_time: samples[first].start_time, ..samples[last] }
            }
        }),
    decreases samples.len(),
{
    lemma_find_row(bucketed(samples, interval), bucket, interval, 0);
    lemma_find_row(samples, bucket, interval, 0);
    if samples.len() > 0 {
        let rest = samples.drop_last();
        let sample = samples.last();
        let before = bucketed(rest, interval);
        let own = bucket_of(sample.start_time, interval);
        let at = find_row(before, own, interval, 0);
        assert(samples == rest.push(sample));
        lemma_first_start_last_rest(rest, interval, bucket);
        lemma_find_row(before, own, interval, 0);
        lemma_find_row(before, bucket, interval, 0);
        lemma_find_row(rest, bucket, interval, 0);
        lemma_find_row_push(rest, sample, bucket, interval, 0);
        let first_before = find_row(rest, bucket, interval, 0);
        if first_before < rest.len() {
            assert(rest[first_before] == samples[first_before]);
        }
        let last_before = last_in_bucket(rest, bucket, interval);
        if 0 <= last_before < rest.len() {
            assert(rest[last_before] == samples[last_before]);
        }
        if at < before.len() {
            let merged = Sample { start_time: before[at].start_time, ..sample };
            lemma_find_row_update(before, at, merged, bucket, interval, 0);
        } else {
            lemma_find_row_push(before, sample, bucket, interval, 0);
        }
    }
}

/// Every row stands for the bucket of one of the samples.
pub proof fn lemma_rows_have_samples(samples: Seq<Sample>, interval: i64, row: int)
    requires
        0 <= row < bucketed(samples, interval).len(),
    ensures
        find_row(
            samples,
            bucket_of(bucketed(samples, interval)[row].start_time, interval),
            interval,
            0,
        ) < samples.len(),
        find_row(
            bucketed(samples, interval),
            bucket_of(bucketed(samples, interval)[row].start_time, interval),
            interval,
            0,
        ) == row,
{
    let rows = bucketed(samples, interval);
    let bucket = bucket_of(rows[row].start_time, interval);
    lemma_bucketed_distinct(samples, interval);
    lemma_find_row(rows, bucket, interval, 0);
    lemma_first_start_last_rest(samples, interval, bucket);
    let found = find_row(rows, bucket, interval, 0);
    if found != row {
        if found < row {
            assert(bucket_of(rows[found].start_time, interval) != bucket_of(
                rows[row].start_time,
                interval,
            ));
        } else {
            assert(bucket_of(rows[row].start_time, interval) != bucket);
        }
    }
}

/// Whether every sample names a source below `bound`.
pub open spec fn sources_below(samples: Seq<Sample>, bound: int) -> bool {
    forall|i: int| 0 <= i < samples.len() ==> (#[trigger] samples[i]).source < bound
}

/// A row names the source of one of its samples.
pub proof fn lemma_bucketed_sources(samples: Seq<Sample>, interval: i64, bound: int)
    requires
        sources_below(samples, bound),
    ensures
        sources_below(bucketed(samples, interval), bound),
    decreases samples.len(),
{
    if samples.len() > 0 {
        let rest = samples.drop_last();
        assert(sources_below(rest, bound)) by {
            assert forall|i: int| 0 <= i < rest.len() implies (#[trigger] rest[i]).source
                < bound by {
                assert(rest[i] == samples[i]);
            }
        }
        lemma_bucketed_sources(rest, interval, bound);
        lemma_find_row(
            bucketed(rest, interval),
            bucket_of(samples.last().start_time, interval),
            interval,
            0,
        );
        assert(samples[samples.len() - 1].source < bound);
    }
}

/// Whether `index` tells, for every bucket, the place of its row in `rows`.
pub open spec fn indexes(index: Map<i64, usize>, rows: Seq<Sample>, interval: i64) -> bool {
    forall|bucket: i64|
        {
            &&& #[trigger] index.contains_key(bucket) <==> find_row(
                rows,
                bucket as int,
                interval,
                0,
            ) < rows.len()
            &&& index.contains_key(bucket) ==> index[bucket] == find_row(
                rows,
                bucket as int,
                interval,
                0,
            )
        }
}

/// Groups the samples into buckets of `interval_seconds` and gives the row of each.
pub fn bucketize(samples: &Vec<Sample>, interval_seconds: i64) -> (rows: Vec<Sample>)
    requires
        interval_seconds > 0,
    ensures
        rows@ == bucketed(samples@, interval_seconds),
{
    broadcast use vstd::std_specs::hash::group_hash_axioms;

    let mut rows: Vec<Sample> = Vec::new();
    let mut index: HashMap<i64, usize> = HashMap::new();
    let mut i: usize = 0;
    while i < samples.len()
        invariant
            interval_seconds > 0,
            0 <= i <= samples.len(),
            rows@ == bucketed(samples@.subrange(0, i as int), interval_seconds),
            indexes(index@, rows@, interval_seconds),
        decreases samples.len() - i,
    {
        let sample = samples[i];
        let bucket: i64 = bucket_index(sample.start_time, interval_seconds);
        let ghost before = rows@;
        proof {
            assert(samples@.subrange(0, i + 1).drop_last() == samples@.subrange(0, i as int));
            assert(samples@.subrange(0, i + 1).last() == sample);
            lemma_find_row(before, bucket as int, interval_seconds, 0);
            assert(index@.contains_key(bucket) <==> find_row(
                before,
                bucket as int,
                interval_seconds,
                0,
            ) < before.len());
        }
        let found: Option<usize> = match index.get(&bucket) {
            Some(at) => Some(*at),
            None => None,
        };
        match found {
            Some(at) => {
                let merged = Sample {
                    start_time: rows[at].start_time,
                    end_time: sample.end_time,
                    key: sample.key,
                    source: sample.source,
                };
                rows.set(at, merged);
                proof {
                    assert forall|other: i64|
                        find_row(rows@, other as int, interval_seconds, 0) == find_row(
                            before,
                            other as int,
                            interval_seconds,
                            0,
                        ) by {
                        lemma_find_row_update(
                            before,
                            at as int,
                            merged,
                            other as int,
                            interval_seconds,
                            0,
                        );
                    }
                }
            },
            None => {
                rows.push(sample);
                index.insert(bucket, rows.len() - 1);
                proof {
                    assert forall|other: i64|
                        find_row(rows@, other as int, interval_seconds, 0) == (if find_row(
                            before,
                            other as int,
                            interval_seconds,
                            0,
                        ) < before.len() {
                            find_row(before, other as int, interval_seconds, 0)
                        } else if other == bucket {
                            before.len() as int
                        } else {
                            before.len() as int + 1
                        }) by {
                        lemma_find_row_push(before, sample, other as int, interval_seconds, 0);
                    }
                }
            },
        }
        i += 1;
    }
    proof {
        assert(samples@.subrange(0, samples.len() as int) == samples@);
    }
    rows
}

} // verus!
