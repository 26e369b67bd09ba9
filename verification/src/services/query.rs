//! Answering a query over the records of one series: filter, order, bucket, page.

use vstd::prelude::*;
use crate::helpers::query_parser::QueryParser;
use crate::helpers::time_intervals::{interval_seconds, interval_to_seconds};
use crate::models::filter::{condition_holds, passes, Condition};
use crate::models::interval::{find_name, place_of, value_of, Interval};
use crate::services::bucketing::{
    bucketed,
    bucketize,
    lemma_bucketed_sources,
    sources_below,
    Sample,
};
use crate::services::paging::{lemma_page_len, page_of, paginate};
use crate::services::sorting::{
    is_ascending,
    lemma_sorted_sources,
    sort_samples,
    sorted_by_key,
    sources_rise,
};

verus! {

/// What bucketing reads of the record at `source`, ordered by the field
/// `sort_by`. Where the record has no such field the key is 0, so that
/// sorting by an unknown field leaves the records as they came.
pub open spec fn sample_of<R: Interval>(record: R, source: int, sort_by: Seq<char>) -> Sample {
    Sample {
        start_time: record.started(),
        end_time: record.ended(),
        key: match value_of(record, sort_by) {
            Some(value) => value,
            None => 0,
        },
        source: source as usize,
    }
}

/// The samples of the records that pass the filter, in the order of the records.
pub open spec fn samples_of<R: Interval>(
    records: Seq<R>,
    conditions: Seq<Condition>,
    sort_by: Seq<char>,
) -> Seq<Sample>
    decreases records.len(),
{
    if records.len() == 0 {
        Seq::empty()
    } else if passes(records.last(), conditions) {
        samples_of(records.drop_last(), conditions, sort_by).push(
            sample_of(records.last(), records.len() - 1, sort_by),
        )
    } else {
        samples_of(records.drop_last(), conditions, sort_by)
    }
}

/// Whether `rows` are the rows that the samples stand for: one for each
/// sample, each the record at the sample's source with the sample's start in
/// place of the record's own.
pub open spec fn rows_of<R: Interval>(rows: Seq<R>, records: Seq<R>, samples: Seq<Sample>) -> bool {
    &&& rows.len() == samples.len()
    &&& forall|i: int|
        0 <= i < samples.len() ==> (#[trigger] rows[i]).restarts(
            &records[samples[i].source as int],
            samples[i].start_time,
        )
}

/// The samples of the page that answers a query: those of the records that
/// pass the filter, ordered by `sort_by`, bucketed by `interval`, and cut to
/// the page.
pub open spec fn selected<R: Interval>(
    records: Seq<R>,
    conditions: Seq<Condition>,
    parameters: QueryParser,
    interval: Seq<char>,
    sort_by: Seq<char>,
    order: i32,
) -> Seq<Sample> {
    page_of(
        bucketed(
            sorted_by_key(samples_of(records, conditions, sort_by), is_ascending(order)),
            interval_seconds(interval) as i64,
        ),
        parameters,
    )
}

/// Whether `rows` answer a query: they are the rows of the selected samples.
pub open spec fn answers<R: Interval>(
    rows: Seq<R>,
    records: Seq<R>,
    conditions: Seq<Condition>,
    parameters: QueryParser,
    interval: Seq<char>,
    sort_by: Seq<char>,
    order: i32,
) -> bool {
    rows_of(rows, records, selected(records, conditions, parameters, interval, sort_by, order))
}

/// A page holds no more rows than were asked for: its length fits the count.
pub proof fn lemma_selected_len<R: Interval>(
    records: Seq<R>,
    conditions: Seq<Condition>,
    parameters: QueryParser,
    interval: Seq<char>,
    sort_by: Seq<char>,
    order: i32,
)
    ensures
        selected(records, conditions, parameters, interval, sort_by, order).len() > 0
            ==> selected(records, conditions, parameters, interval, sort_by, order).len()
            <= parameters.count,
{
    lemma_page_len(
        bucketed(
            sorted_by_key(samples_of(records, conditions, sort_by), is_ascending(order)),
            interval_seconds(interval) as i64,
        ),
        parameters,
    );
}

/// The samples name records that exist.
pub proof fn lemma_samples_sources<R: Interval>(
    records: Seq<R>,
    conditions: Seq<Condition>,
    sort_by: Seq<char>,
)
    requires
        records.len() <= usize::MAX,
    ensures
        sources_below(samples_of(records, conditions, sort_by), records.len() as int),
        samples_of(records, conditions, sort_by).len() <= records.len(),
    decreases records.len(),
{
    if records.len() > 0 {
        lemma_samples_sources(records.drop_last(), conditions, sort_by);
    }
}

/// The samples come with rising sources, so that sorting them leaves equal
/// keys in store order.
pub proof fn lemma_samples_rise<R: Interval>(
    records: Seq<R>,
    conditions: Seq<Condition>,
    sort_by: Seq<char>,
)
    requires
        records.len() <= usize::MAX,
    ensures
        sources_rise(samples_of(records, conditions, sort_by)),
    decreases records.len(),
{
    if records.len() > 0 {
        lemma_samples_rise(records.drop_last(), conditions, sort_by);
        lemma_samples_sources(records.drop_last(), conditions, sort_by);
    }
}

/// Every sample is taken from a record that passed the filter.
pub proof fn lemma_samples_pass<R: Interval>(
    records: Seq<R>,
    conditions: Seq<Condition>,
    sort_by: Seq<char>,
)
    requires
        records.len() <= usize::MAX,
    ensures
        forall|i: int|
            0 <= i < samples_of(records, conditions, sort_by).len() ==> {
                let sample = #[trigger] samples_of(records, conditions, sort_by)[i];
                &&& sample.source < records.len()
                &&& passes(records[sample.source as int], conditions)
                &&& sample == sample_of(records[sample.source as int], sample.source as int, sort_by)
            },
    decreases records.len(),
{
    if records.len() > 0 {
        lemma_samples_pass(records.drop_last(), conditions, sort_by);
        let rest = samples_of(records.drop_last(), conditions, sort_by);
        assert forall|i: int| 0 <= i < rest.len() implies records.drop_last()[(
        #[trigger] rest[i]).source as int] == records[rest[i].source as int] by {}
    }
}

/// Decides whether the record meets every condition, each field looked up
/// at the place given for it.
fn record_passes<R: Interval>(
    record: &R,
    conditions: &Vec<Condition>,
    places: &Vec<usize>,
    names_len: usize,
) -> (ok: bool)
    requires
        names_len == R::names().len(),
        places.len() == conditions.len(),
        forall|i: int|
            0 <= i < conditions.len() ==> #[trigger] places[i] == find_name(
                R::names(),
                conditions[i].field@,
                0,
            ),
    ensures
        ok == passes(*record, conditions@),
{
    let mut j: usize = 0;
    while j < conditions.len()
        invariant
            0 <= j <= conditions.len(),
            names_len == R::names().len(),
            places.len() == conditions.len(),
            forall|i: int|
                0 <= i < conditions.len() ==> #[trigger] places[i] == find_name(
                    R::names(),
                    conditions[i].field@,
                    0,
                ),
            forall|i: int| 0 <= i < j ==> condition_holds(*record, #[trigger] conditions@[i]),
        decreases conditions.len() - j,
    {
        let place = places[j];
        if place >= names_len {
            assert(!condition_holds(*record, conditions@[j as int]));
            return false;
        }
        let value = record.value_at(place);
        if !conditions[j].comparison.test(value, conditions[j].value) {
            assert(!condition_holds(*record, conditions@[j as int]));
            return false;
        }
        j += 1;
    }
    true
}

/// Takes what bucketing reads from each record that passes the filter.
pub fn collect_samples<R: Interval>(records: &Vec<R>, conditions: &Vec<Condition>, sort_by: &str) -> (samples:
    Vec<Sample>)
    ensures
        samples@ == samples_of(records@, conditions@, sort_by@),
{
    let names = R::fields();
    let sort_place = place_of(&names, sort_by);
    let mut places: Vec<usize> = Vec::new();
    let mut j: usize = 0;
    while j < conditions.len()
        invariant
            0 <= j <= conditions.len(),
            names@ == R::names(),
            places.len() == j,
            forall|i: int|
                0 <= i < j ==> #[trigger] places[i] == find_name(
                    R::names(),
                    conditions[i].field@,
                    0,
                ),
        decreases conditions.len() - j,
    {
        places.push(place_of(&names, conditions[j].field));
        j += 1;
    }
    let mut samples: Vec<Sample> = Vec::new();
    let mut i: usize = 0;
    while i < records.len()
        invariant
            0 <= i <= records.len(),
            names@ == R::names(),
            sort_place == find_name(R::names(), sort_by@, 0),
            places.len() == conditions.len(),
            forall|k: int|
                0 <= k < conditions.len() ==> #[trigger] places[k] == find_name(
                    R::names(),
                    conditions[k].field@,
                    0,
                ),
            samples@ == samples_of(records@.subrange(0, i as int), conditions@, sort_by@),
        decreases records.len() - i,
    {
        proof {
            assert(records@.subrange(0, i + 1).drop_last() == records@.subrange(0, i as int));
            assert(records@.subrange(0, i + 1).last() == records@[i as int]);
        }
        if record_passes(&records[i], conditions, &places, names.len()) {
            let key: i64 = if sort_place < names.len() {
                records[i].value_at(sort_place)
            } else {
                0
            };
            samples.push(
                Sample {
                    start_time: records[i].start(),
                    end_time: records[i].end(),
                    key,
                    source: i,
                },
            );
        }
        i += 1;
    }
    proof {
        assert(records@.subrange(0, records.len() as int) == records@);
    }
    samples
}

/// Builds the row of each sample from the record at its source.
pub fn assemble<R: Interval>(records: &Vec<R>, samples: &Vec<Sample>) -> (rows: Vec<R>)
    requires
        sources_below(samples@, records.len() as int),
    ensures
        rows_of(rows@, records@, samples@),
{
    let mut rows: Vec<R> = Vec::new();
    let mut i: usize = 0;
    while i < samples.len()
        invariant
            0 <= i <= samples.len(),
            sources_below(samples@, records.len() as int),
            rows.len() == i,
            forall|k: int|
                0 <= k < i ==> (#[trigger] rows@[k]).restarts(
                    &records@[samples@[k].source as int],
                    samples@[k].start_time,
                ),
        decreases samples.len() - i,
    {
        let sample = samples[i];
        assert(samples@[i as int].source < records.len());
        rows.push(records[sample.source].with_start_time(sample.start_time));
        i += 1;
    }
    rows
}

/// Answers a query over the records of one series, held in store order:
/// keeps the records that meet the conditions, orders them by `sort_by`
/// (ascending where `order` is 1, descending otherwise, ties in store order),
/// buckets them by the interval named, and cuts out the page.
pub fn query_rows<R: Interval>(
    records: &Vec<R>,
    conditions: &Vec<Condition>,
    parameters: &QueryParser,
    interval_str: &str,
    sort_by: &str,
    order: i32,
) -> (rows: Vec<R>)
    ensures
        answers(rows@, records@, conditions@, *parameters, interval_str@, sort_by@, order),
{
    let interval = interval_to_seconds(interval_str);
    let samples = collect_samples(records, conditions, sort_by);
    let sorted = sort_samples(&samples, order);
    let bucketed_rows = bucketize(&sorted, interval);
    let page = paginate(&bucketed_rows, parameters);
    proof {
        let bound = records.len() as int;
        lemma_samples_sources(records@, conditions@, sort_by@);
        lemma_sorted_sources(samples@, is_ascending(order), bound);
        lemma_bucketed_sources(sorted@, interval, bound);
        assert(sources_below(page@, bound)) by {
            assert forall|i: int| 0 <= i < page@.len() implies (#[trigger] page@[i]).source
                < bound by {
                let start = crate::services::paging::page_start(
                    *parameters,
                    bucketed_rows@.len() as int,
                );
                assert(page@[i] == bucketed_rows@[start + i]);
            }
        }
    }
    assemble(records, &page)
}

} // verus!
