//! Ordering samples by their key, with ties left in the order of arrival.

use vstd::prelude::*;
use crate::services::bucketing::{sources_below, Sample};

verus! {

/// Whether `order`, as a query gives it, asks for ascending keys. `1` does;
/// every other value, `-1` among them, asks for descending keys.
pub open spec fn is_ascending(order: i32) -> bool {
    order == 1
}

/// Whether `a` must come before `b`: its key is smaller when ascending,
/// greater when descending. Equal keys never force an order.
pub open spec fn precedes(a: Sample, b: Sample, ascending: bool) -> bool {
    if ascending {
        a.key < b.key
    } else {
        a.key > b.key
    }
}

/// `sorted` with `sample` put behind every element that it need not precede.
pub open spec fn inserted(sorted: Seq<Sample>, sample: Sample, ascending: bool) -> Seq<Sample>
    decreases sorted.len(),
{
    if sorted.len() > 0 && precedes(sample, sorted.last(), ascending) {
        inserted(sorted.drop_last(), sample, ascending).push(sorted.last())
    } else {
        sorted.push(sample)
    }
}

/// The samples ordered by key. Samples with equal keys keep the order in
/// which they arrived.
pub open spec fn sorted_by_key(samples: Seq<Sample>, ascending: bool) -> Seq<Sample>
    decreases samples.len(),
{
    if samples.len() == 0 {
        samples
    } else {
        inserted(sorted_by_key(samples.drop_last(), ascending), samples.last(), ascending)
    }
}

/// Whether no element must come before one that stands earlier.
pub open spec fn in_order(samples: Seq<Sample>, ascending: bool) -> bool {
    forall|i: int, j: int|
        0 <= i < j < samples.len() ==> !precedes(
            #[trigger] samples[j],
            #[trigger] samples[i],
            ascending,
        )
}

/// Inserting is putting the sample at the place `at`, where everything from
/// `at` on must come after it and the element before `at`, if any, need not.
pub proof fn lemma_inserted_at(sorted: Seq<Sample>, sample: Sample, ascending: bool, at: int)
    requires
        0 <= at <= sorted.len(),
        forall|k: int| at <= k < sorted.len() ==> precedes(sample, #[trigger] sorted[k], ascending),
        at > 0 ==> !precedes(sample, sorted[at - 1], ascending),
    ensures
        inserted(sorted, sample, ascending) == sorted.insert(at, sample),
    decreases sorted.len(),
{
    if at < sorted.len() {
        lemma_inserted_at(sorted.drop_last(), sample, ascending, at);
        assert(sorted.drop_last().insert(at, sample).push(sorted.last()) == sorted.insert(
            at,
            sample,
        ));
    } else {
        assert(sorted.push(sample) == sorted.insert(at, sample));
    }
}

/// Inserting into samples that are in order leaves them in order, and puts
/// the sample behind the equal ones.
pub proof fn lemma_inserted_in_order(sorted: Seq<Sample>, sample: Sample, ascending: bool)
    requires
        in_order(sorted, ascending),
    ensures
        in_order(inserted(sorted, sample, ascending), ascending),
        inserted(sorted, sample, ascending).to_multiset() == sorted.to_multiset().insert(sample),
    decreases sorted.len(),
{
    broadcast use vstd::seq_lib::group_to_multiset_ensures;

    if sorted.len() > 0 && precedes(sample, sorted.last(), ascending) {
        let rest = sorted.drop_last();
        let last = sorted.last();
        assert(in_order(rest, ascending)) by {
            assert forall|i: int, j: int| 0 <= i < j < rest.len() implies !precedes(
                #[trigger] rest[j],
                #[trigger] rest[i],
                ascending,
            ) by {
                assert(rest[i] == sorted[i] && rest[j] == sorted[j]);
            }
        }
        lemma_inserted_in_order(rest, sample, ascending);
        let front = inserted(rest, sample, ascending);
        let out = front.push(last);
        assert(sorted == rest.push(last));
        assert forall|i: int, j: int| 0 <= i < j < out.len() implies !precedes(
            #[trigger] out[j],
            #[trigger] out[i],
            ascending,
        ) by {
            if j < front.len() {
                assert(out[i] == front[i] && out[j] == front[j]);
            } else {
                assert(out[j] == last);
                assert(out[i] == front[i]);
                assert(front.to_multiset().count(front[i]) > 0);
                if front[i] != sample {
                    assert(rest.to_multiset().count(front[i]) > 0);
                    let k = choose|k: int| 0 <= k < rest.len() && rest[k] == front[i];
                    assert(sorted[k] == front[i]);
                    assert(!precedes(sorted[sorted.len() - 1], sorted[k], ascending));
                }
            }
        }
    } else {
        let out = sorted.push(sample);
        assert forall|i: int, j: int| 0 <= i < j < out.len() implies !precedes(
            #[trigger] out[j],
            #[trigger] out[i],
            ascending,
        ) by {
            if j < sorted.len() {
                assert(out[i] == sorted[i] && out[j] == sorted[j]);
            } else {
                assert(out[i] == sorted[i]);
                if sorted.len() > 0 {
                    assert(!precedes(sorted[sorted.len() - 1], sorted[i], ascending)) by {
                        if i < sorted.len() - 1 {
                        }
                    }
                }
            }
        }
    }
}

/// Sorting gives the same samples, each as often as before, in order.
pub proof fn lemma_sorted_by_key(samples: Seq<Sample>, ascending: bool)
    ensures
        in_order(sorted_by_key(samples, ascending), ascending),
        sorted_by_key(samples, ascending).to_multiset() == samples.to_multiset(),
        sorted_by_key(samples, ascending).len() == samples.len(),
    decreases samples.len(),
{
    broadcast use vstd::seq_lib::group_to_multiset_ensures;

    if samples.len() > 0 {
        lemma_sorted_by_key(samples.drop_last(), ascending);
        lemma_inserted_in_order(
            sorted_by_key(samples.drop_last(), ascending),
            samples.last(),
            ascending,
        );
        assert(samples == samples.drop_last().push(samples.last()));
    }
    sorted_by_key(samples, ascending).to_multiset_ensures();
    samples.to_multiset_ensures();
}

/// Sorting invents no source.
pub proof fn lemma_sorted_sources(samples: Seq<Sample>, ascending: bool, bound: int)
    requires
        sources_below(samples, bound),
    ensures
        sources_below(sorted_by_key(samples, ascending), bound),
{
    broadcast use vstd::seq_lib::group_to_multiset_ensures;

    lemma_sorted_by_key(samples, ascending);
    let sorted = sorted_by_key(samples, ascending);
    sorted.to_multiset_ensures();
    samples.to_multiset_ensures();
    assert forall|i: int| 0 <= i < sorted.len() implies (#[trigger] sorted[i]).source < bound by {
        assert(sorted.to_multiset().count(sorted[i]) > 0);
        assert(samples.to_multiset().count(sorted[i]) > 0);
        let k = choose|k: int| 0 <= k < samples.len() && samples[k] == sorted[i];
        assert(samples[k].source < bound);
    }
}

/// Where `inserted` puts the sample: behind the last element that it need
/// not precede.
pub open spec fn insert_place(sorted: Seq<Sample>, sample: Sample, ascending: bool) -> int
    decreases sorted.len(),
{
    if sorted.len() > 0 && precedes(sample, sorted.last(), ascending) {
        insert_place(sorted.drop_last(), sample, ascending)
    } else {
        sorted.len() as int
    }
}

/// Inserting puts the sample at its place and moves nothing else.
pub proof fn lemma_insert_place(sorted: Seq<Sample>, sample: Sample, ascending: bool)
    ensures
        0 <= insert_place(sorted, sample, ascending) <= sorted.len(),
        forall|k: int|
            insert_place(sorted, sample, ascending) <= k < sorted.len() ==> precedes(
                sample,
                #[trigger] sorted[k],
                ascending,
            ),
        insert_place(sorted, sample, ascending) > 0 ==> !precedes(
            sample,
            sorted[insert_place(sorted, sample, ascending) - 1],
            ascending,
        ),
        inserted(sorted, sample, ascending) == sorted.insert(
            insert_place(sorted, sample, ascending),
            sample,
        ),
    decreases sorted.len(),
{
    if sorted.len() > 0 && precedes(sample, sorted.last(), ascending) {
        let rest = sorted.drop_last();
        lemma_insert_place(rest, sample, ascending);
        let place = insert_place(rest, sample, ascending);
        assert forall|k: int| place <= k < sorted.len() implies precedes(
            sample,
            #[trigger] sorted[k],
            ascending,
        ) by {
            if k < rest.len() {
                assert(sorted[k] == rest[k]);
            }
        }
        if place > 0 {
            assert(sorted[place - 1] == rest[place - 1]);
        }
    }
    lemma_inserted_at(sorted, sample, ascending, insert_place(sorted, sample, ascending));
}

/// Whether the samples name their sources in rising order.
pub open spec fn sources_rise(samples: Seq<Sample>) -> bool {
    forall|i: int, j: int|
        0 <= i < j < samples.len() ==> (#[trigger] samples[i]).source < (
        #[trigger] samples[j]).source
}

/// Whether samples with equal keys stand in the order of their sources.
pub open spec fn ties_in_source_order(samples: Seq<Sample>) -> bool {
    forall|i: int, j: int|
        0 <= i < j < samples.len() && (#[trigger] samples[i]).key == (#[trigger] samples[j]).key
            ==> samples[i].source < samples[j].source
}

/// Sorting is stable: of samples that came with rising sources, those with
/// equal keys still stand in the order of their sources.
pub proof fn lemma_sorted_stable(samples: Seq<Sample>, ascending: bool)
    requires
        sources_rise(samples),
    ensures
        ties_in_source_order(sorted_by_key(samples, ascending)),
    decreases samples.len(),
{
    if samples.len() > 0 {
        let rest = samples.drop_last();
        let sample = samples.last();
        assert(sources_rise(rest)) by {
            assert forall|i: int, j: int| 0 <= i < j < rest.len() implies (#[trigger] rest[i]).source
                < (#[trigger] rest[j]).source by {
                assert(rest[i] == samples[i] && rest[j] == samples[j]);
            }
        }
        lemma_sorted_stable(rest, ascending);
        assert(sources_below(rest, sample.source as int)) by {
            assert forall|i: int| 0 <= i < rest.len() implies (#[trigger] rest[i]).source
                < sample.source by {
                assert(rest[i] == samples[i]);
                assert(samples[samples.len() - 1] == sample);
            }
        }
        lemma_sorted_sources(rest, ascending, sample.source as int);
        let sorted = sorted_by_key(rest, ascending);
        lemma_insert_place(sorted, sample, ascending);
        let place = insert_place(sorted, sample, ascending);
        let out = sorted.insert(place, sample);
        assert forall|i: int, j: int|
            0 <= i < j < out.len() && (#[trigger] out[i]).key == (#[trigger] out[j]).key implies out[i].source
            < out[j].source by {
            if j < place {
                assert(out[i] == sorted[i] && out[j] == sorted[j]);
            } else if j == place {
                assert(out[i] == sorted[i]);
            } else if i == place {
                assert(out[j] == sorted[j - 1]);
                assert(precedes(sample, sorted[j - 1], ascending));
            } else if i < place {
                assert(out[i] == sorted[i] && out[j] == sorted[j - 1]);
            } else {
                assert(out[i] == sorted[i - 1] && out[j] == sorted[j - 1]);
            }
        }
    }
}

/// Samples that are in order already are left as they are.
pub proof fn lemma_sorted_of_in_order(samples: Seq<Sample>, ascending: bool)
    requires
        in_order(samples, ascending),
    ensures
        sorted_by_key(samples, ascending) == samples,
    decreases samples.len(),
{
    if samples.len() > 0 {
        let rest = samples.drop_last();
        assert(in_order(rest, ascending)) by {
            assert forall|i: int, j: int| 0 <= i < j < rest.len() implies !precedes(
                #[trigger] rest[j],
                #[trigger] rest[i],
                ascending,
            ) by {
                assert(rest[i] == samples[i] && rest[j] == samples[j]);
            }
        }
        lemma_sorted_of_in_order(rest, ascending);
        if rest.len() > 0 {
            assert(rest.last() == samples[samples.len() - 2]);
            assert(!precedes(samples[samples.len() - 1], samples[samples.len() - 2], ascending));
        }
        assert(rest.push(samples.last()) == samples);
    }
}

/// Decides whether `a` must come before `b`.
pub fn must_precede(a: &Sample, b: &Sample, ascending: bool) -> (before: bool)
    ensures
        before == precedes(*a, *b, ascending),
{
    if ascending {
        a.key < b.key
    } else {
        a.key > b.key
    }
}

/// Two runs woven into one from their ends: the later of the two last
/// elements goes last, and on a tie that of the right run, so that everything
/// of the left run stays before its equals of the right run.
pub open spec fn merged(left: Seq<Sample>, right: Seq<Sample>, ascending: bool) -> Seq<Sample>
    decreases left.len() + right.len(),
{
    if left.len() == 0 {
        right
    } else if right.len() == 0 {
        left
    } else if precedes(right.last(), left.last(), ascending) {
        merged(left.drop_last(), right, ascending).push(left.last())
    } else {
        merged(left, right.drop_last(), ascending).push(right.last())
    }
}

/// Weaving a run with one that had a sample inserted is inserting the sample
/// into what the two runs weave into.
pub proof fn lemma_merged_inserted(
    left: Seq<Sample>,
    right: Seq<Sample>,
    sample: Sample,
    ascending: bool,
)
    ensures
        merged(left, inserted(right, sample, ascending), ascending) == inserted(
            merged(left, right, ascending),
            sample,
            ascending,
        ),
    decreases left.len() + right.len(),
{
    let grown = inserted(right, sample, ascending);
    let woven = merged(left, right, ascending);
    if left.len() == 0 {
    } else if right.len() == 0 {
        assert(grown == Seq::<Sample>::empty().push(sample));
        assert(grown.last() == sample);
        assert(grown.drop_last() == Seq::<Sample>::empty());
        assert(woven == left);
        if precedes(sample, left.last(), ascending) {
            lemma_merged_inserted(left.drop_last(), right, sample, ascending);
            assert(merged(left.drop_last(), right, ascending) == left.drop_last()) by {
                if left.drop_last().len() == 0 {
                    assert(left.drop_last() == right);
                }
            }
        } else {
            assert(merged(left, grown.drop_last(), ascending) == left);
        }
    } else if precedes(sample, right.last(), ascending) {
        let shorter = inserted(right.drop_last(), sample, ascending);
        assert(grown == shorter.push(right.last()));
        assert(grown.last() == right.last());
        assert(grown.drop_last() == shorter);
        if precedes(right.last(), left.last(), ascending) {
            lemma_merged_inserted(left.drop_last(), right, sample, ascending);
            let front = merged(left.drop_last(), right, ascending);
            assert(woven == front.push(left.last()));
            assert(woven.last() == left.last());
            assert(woven.drop_last() == front);
        } else {
            lemma_merged_inserted(left, right.drop_last(), sample, ascending);
            let front = merged(left, right.drop_last(), ascending);
            assert(woven == front.push(right.last()));
            assert(woven.last() == right.last());
            assert(woven.drop_last() == front);
        }
    } else {
        assert(grown == right.push(sample));
        assert(grown.last() == sample);
        assert(grown.drop_last() == right);
        if precedes(sample, left.last(), ascending) {
            lemma_merged_inserted(left.drop_last(), right, sample, ascending);
            assert(precedes(right.last(), left.last(), ascending));
            let front = merged(left.drop_last(), right, ascending);
            assert(woven == front.push(left.last()));
            assert(woven.last() == left.last());
            assert(woven.drop_last() == front);
        } else {
            if precedes(right.last(), left.last(), ascending) {
                let front = merged(left.drop_last(), right, ascending);
                assert(woven == front.push(left.last()));
                assert(woven.last() == left.last());
            } else {
                let front = merged(left, right.drop_last(), ascending);
                assert(woven == front.push(right.last()));
                assert(woven.last() == right.last());
            }
        }
    }
}

/// Sorting two halves and weaving them is sorting the whole.
pub proof fn lemma_merged_sorted(left: Seq<Sample>, right: Seq<Sample>, ascending: bool)
    ensures
        merged(sorted_by_key(left, ascending), sorted_by_key(right, ascending), ascending)
            == sorted_by_key(left + right, ascending),
    decreases right.len(),
{
    if right.len() == 0 {
        assert(left + right == left);
        let sorted = sorted_by_key(left, ascending);
        if sorted.len() == 0 {
            assert(sorted == sorted_by_key(right, ascending));
        }
    } else {
        let rest = right.drop_last();
        let whole = left + right;
        assert(whole.drop_last() == left + rest);
        assert(whole.last() == right.last());
        lemma_merged_sorted(left, rest, ascending);
        lemma_merged_inserted(
            sorted_by_key(left, ascending),
            sorted_by_key(rest, ascending),
            right.last(),
            ascending,
        );
    }
}

/// Weaves two runs into one.
fn merge(left: &Vec<Sample>, right: &Vec<Sample>, ascending: bool) -> (out: Vec<Sample>)
    requires
        left.len() + right.len() <= usize::MAX,
    ensures
        out@ == merged(left@, right@, ascending),
{
    let total: usize = left.len() + right.len();
    let mut out: Vec<Sample> = Vec::new();
    if total == 0 {
        return out;
    }
    let filler: Sample = if left.len() > 0 {
        left[0]
    } else {
        right[0]
    };
    let mut n: usize = 0;
    while n < total
        invariant
            n <= total,
            out.len() == n,
        decreases total - n,
    {
        out.push(filler);
        n += 1;
    }
    let mut i: usize = left.len();
    let mut j: usize = right.len();
    proof {
        assert(left@.subrange(0, i as int) == left@);
        assert(right@.subrange(0, j as int) == right@);
        assert(out@.subrange(total as int, total as int) == Seq::<Sample>::empty());
        assert(merged(left@, right@, ascending) + Seq::<Sample>::empty() == merged(
            left@,
            right@,
            ascending,
        ));
    }
    while i > 0 || j > 0
        invariant
            i <= left.len(),
            j <= right.len(),
            out.len() == total,
            total == left.len() + right.len(),
            merged(left@, right@, ascending) == merged(
                left@.subrange(0, i as int),
                right@.subrange(0, j as int),
                ascending,
            ) + out@.subrange(i + j, total as int),
        decreases i + j,
    {
        let ghost l = left@.subrange(0, i as int);
        let ghost r = right@.subrange(0, j as int);
        let ghost tail = out@.subrange(i + j, total as int);
        let from_left: bool = if i == 0 {
            false
        } else if j == 0 {
            true
        } else {
            must_precede(&right[j - 1], &left[i - 1], ascending)
        };
        if from_left {
            let taken = left[i - 1];
            out.set(i + j - 1, taken);
            proof {
                assert(l.drop_last() == left@.subrange(0, i - 1));
                assert(l.last() == taken);
                assert(merged(l, r, ascending) == merged(l.drop_last(), r, ascending).push(taken))
                    by {
                    if j == 0 {
                        let shorter = l.drop_last();
                        assert(merged(shorter, r, ascending) == shorter) by {
                            if shorter.len() == 0 {
                                assert(shorter == r);
                            }
                        }
                        assert(shorter.push(taken) == l);
                    }
                }
                assert(out@.subrange(i + j - 1, total as int) == seq![taken] + tail);
                assert(merged(l.drop_last(), r, ascending).push(taken) + tail == merged(
                    l.drop_last(),
                    r,
                    ascending,
                ) + (seq![taken] + tail));
            }
            i -= 1;
        } else {
            let taken = right[j - 1];
            out.set(i + j - 1, taken);
            proof {
                assert(r.drop_last() == right@.subrange(0, j - 1));
                assert(r.last() == taken);
                assert(merged(l, r, ascending) == merged(l, r.drop_last(), ascending).push(taken))
                    by {
                    if i == 0 {
                        assert(merged(l, r.drop_last(), ascending) == r.drop_last());
                        assert(r.drop_last().push(taken) == r);
                    }
                }
                assert(out@.subrange(i + j - 1, total as int) == seq![taken] + tail);
                assert(merged(l, r.drop_last(), ascending).push(taken) + tail == merged(
                    l,
                    r.drop_last(),
                    ascending,
                ) + (seq![taken] + tail));
            }
            j -= 1;
        }
    }
    proof {
        assert(left@.subrange(0, 0) == Seq::<Sample>::empty());
        assert(out@.subrange(0, total as int) == out@);
        assert(Seq::<Sample>::empty() + out@ == out@);
    }
    out
}

/// Orders the samples from `low` up to `high` by sorting each half and
/// weaving the two.
fn sort_range(samples: &Vec<Sample>, low: usize, high: usize, ascending: bool) -> (sorted: Vec<
    Sample,
>)
    requires
        low <= high <= samples.len(),
    ensures
        sorted@ == sorted_by_key(samples@.subrange(low as int, high as int), ascending),
        sorted.len() == high - low,
    decreases high - low,
{
    if high - low <= 1 {
        let mut sorted: Vec<Sample> = Vec::new();
        if high - low == 1 {
            sorted.push(samples[low]);
        }
        proof {
            let range = samples@.subrange(low as int, high as int);
            reveal_with_fuel(sorted_by_key, 2);
            reveal_with_fuel(inserted, 2);
            if high - low == 1 {
                assert(range.drop_last() == Seq::<Sample>::empty());
                assert(range.last() == samples@[low as int]);
                assert(sorted@ == Seq::<Sample>::empty().push(samples@[low as int]));
            } else {
                assert(sorted@ == range);
            }
        }
        return sorted;
    }
    let middle: usize = low + (high - low) / 2;
    let left = sort_range(samples, low, middle, ascending);
    let right = sort_range(samples, middle, high, ascending);
    proof {
        assert(samples@.subrange(low as int, high as int) == samples@.subrange(
            low as int,
            middle as int,
        ) + samples@.subrange(middle as int, high as int));
        lemma_sorted_by_key(samples@.subrange(low as int, high as int), ascending);
        lemma_merged_sorted(
            samples@.subrange(low as int, middle as int),
            samples@.subrange(middle as int, high as int),
            ascending,
        );
    }
    merge(&left, &right, ascending)
}

/// Orders the samples by key, ascending where `order` is 1 and descending
/// otherwise, and leaves samples with equal keys in the order they came in.
pub fn sort_samples(samples: &Vec<Sample>, order: i32) -> (sorted: Vec<Sample>)
    ensures
        sorted@ == sorted_by_key(samples@, is_ascending(order)),
{
    proof {
        assert(samples@.subrange(0, samples.len() as int) == samples@);
    }
    sort_range(samples, 0, samples.len(), order == 1)
}

} // verus!
