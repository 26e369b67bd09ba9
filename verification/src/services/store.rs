//! What the store holds of one series, as far as ingestion is concerned: the
//! start times of its records, in the order in which they were inserted.
//! Inserting a batch appends it. The store itself enforces nothing: that no
//! interval is held twice is the work of [`fresh_starts`], which picks from
//! an answer what the store does not hold yet.

use std::collections::HashSet;
use vstd::prelude::*;

verus! {

/// Whether no start time occurs twice: no interval was ingested twice.
pub open spec fn distinct_starts(starts: Seq<i64>) -> bool {
    forall|i: int, j: int| 0 <= i < j < starts.len() ==> starts[i] != starts[j]
}

/// Whether no start time occurs in both.
pub open spec fn disjoint_starts(left: Seq<i64>, right: Seq<i64>) -> bool {
    forall|i: int, j: int| 0 <= i < left.len() && 0 <= j < right.len() ==> left[i] != right[j]
}

/// After an insert no interval is held twice exactly where none was held
/// twice before, none comes twice in the batch, and none of the batch was
/// held already.
pub proof fn lemma_insert_keeps_distinct(store: Seq<i64>, batch: Seq<i64>)
    ensures
        distinct_starts(store + batch) <==> distinct_starts(store) && distinct_starts(batch)
            && disjoint_starts(store, batch),
{
    let all = store + batch;
    if distinct_starts(all) {
        assert forall|i: int, j: int| 0 <= i < j < store.len() implies store[i] != store[j] by {
            assert(all[i] == store[i] && all[j] == store[j]);
        }
        assert forall|i: int, j: int| 0 <= i < j < batch.len() implies batch[i] != batch[j] by {
            assert(all[store.len() + i] == batch[i] && all[store.len() + j] == batch[j]);
        }
        assert forall|i: int, j: int|
            0 <= i < store.len() && 0 <= j < batch.len() implies store[i] != batch[j] by {
            assert(all[i] == store[i] && all[store.len() + j] == batch[j]);
        }
    }
    if distinct_starts(store) && distinct_starts(batch) && disjoint_starts(store, batch) {
        assert forall|i: int, j: int| 0 <= i < j < all.len() implies all[i] != all[j] by {
            if j < store.len() {
            } else if i < store.len() {
                assert(all[j] == batch[j - store.len()]);
            } else {
                assert(all[i] == batch[i - store.len()]);
                assert(all[j] == batch[j - store.len()]);
            }
        }
    }
}

/// Whether the start at `place` of an answer is new: the store does not
/// hold it, and the answer does not bring it at an earlier place.
pub open spec fn is_fresh(held: Seq<i64>, fetched: Seq<i64>, place: int) -> bool {
    &&& 0 <= place < fetched.len()
    &&& forall|h: int| 0 <= h < held.len() ==> held[h] != fetched[place]
    &&& forall|j: int| 0 <= j < place ==> fetched[j] != fetched[place]
}

/// The places of an answer whose starts are new, in rising order.
pub open spec fn fresh_places(held: Seq<i64>, fetched: Seq<i64>) -> Seq<usize>
    decreases fetched.len(),
{
    if fetched.len() == 0 {
        Seq::empty()
    } else if is_fresh(held, fetched, fetched.len() - 1) {
        fresh_places(held, fetched.drop_last()).push((fetched.len() - 1) as usize)
    } else {
        fresh_places(held, fetched.drop_last())
    }
}

/// The starts that an answer has at the given places.
pub open spec fn starts_at(fetched: Seq<i64>, places: Seq<usize>) -> Seq<i64> {
    Seq::new(places.len(), |k: int| fetched[places[k] as int])
}

/// What the store holds after an answer was ingested: what it held, and
/// then the new starts of the answer.
pub open spec fn ingested(held: Seq<i64>, fetched: Seq<i64>) -> Seq<i64> {
    held + starts_at(fetched, fresh_places(held, fetched))
}

/// The fresh places are exactly the places of new starts, each once and in
/// rising order.
pub proof fn lemma_fresh_places(held: Seq<i64>, fetched: Seq<i64>)
    requires
        fetched.len() <= usize::MAX,
    ensures
        fresh_places(held, fetched).len() <= fetched.len(),
        forall|k: int|
            0 <= k < fresh_places(held, fetched).len() ==> is_fresh(
                held,
                fetched,
                #[trigger] fresh_places(held, fetched)[k] as int,
            ),
        forall|a: int, b: int|
            0 <= a < b < fresh_places(held, fetched).len() ==> #[trigger] fresh_places(
                held,
                fetched,
            )[a] < #[trigger] fresh_places(held, fetched)[b],
        forall|i: int|
            is_fresh(held, fetched, i) ==> exists|k: int|
                0 <= k < fresh_places(held, fetched).len() && #[trigger] fresh_places(
                    held,
                    fetched,
                )[k] == i,
    decreases fetched.len(),
{
    if fetched.len() > 0 {
        let rest = fetched.drop_last();
        let last = fetched.len() - 1;
        let before = fresh_places(held, rest);
        let places = fresh_places(held, fetched);
        lemma_fresh_places(held, rest);
        assert forall|i: int| 0 <= i < rest.len() implies is_fresh(held, rest, i) == is_fresh(
            held,
            fetched,
            i,
        ) by {
            assert(rest[i] == fetched[i]);
            if is_fresh(held, rest, i) {
                assert forall|j: int| 0 <= j < i implies fetched[j] != fetched[i] by {
                    assert(rest[j] == fetched[j]);
                }
            }
            if is_fresh(held, fetched, i) {
                assert forall|j: int| 0 <= j < i implies rest[j] != rest[i] by {
                    assert(rest[j] == fetched[j]);
                }
            }
        }
        assert forall|k: int| 0 <= k < places.len() implies is_fresh(
            held,
            fetched,
            #[trigger] places[k] as int,
        ) by {
            if k < before.len() {
                assert(places[k] == before[k]);
                assert(is_fresh(held, rest, before[k] as int));
            }
        }
        assert forall|a: int, b: int| 0 <= a < b < places.len() implies #[trigger] places[a]
            < #[trigger] places[b] by {
            assert(places[a] == before[a]);
            assert(is_fresh(held, rest, before[a] as int));
            if b < before.len() {
                assert(places[b] == before[b]);
            }
        }
        assert forall|i: int| is_fresh(held, fetched, i) implies exists|k: int|
            0 <= k < places.len() && #[trigger] places[k] == i by {
            if i < last {
                assert(is_fresh(held, rest, i));
                let k = choose|k: int| 0 <= k < before.len() && #[trigger] before[k] == i;
                assert(places[k] == i);
            } else {
                assert(places[places.len() - 1] == i);
            }
        }
    }
}

/// Ingesting an answer leaves no interval twice in a store that held none twice.
pub proof fn lemma_ingested_distinct(held: Seq<i64>, fetched: Seq<i64>)
    requires
        fetched.len() <= usize::MAX,
        distinct_starts(held),
    ensures
        distinct_starts(ingested(held, fetched)),
{
    lemma_fresh_places(held, fetched);
    let places = fresh_places(held, fetched);
    let added = starts_at(fetched, places);
    assert forall|a: int, b: int| 0 <= a < b < added.len() implies added[a] != added[b] by {
        assert(places[a] < places[b]);
        assert(is_fresh(held, fetched, places[b] as int));
    }
    assert forall|h: int, k: int| 0 <= h < held.len() && 0 <= k < added.len() implies held[h]
        != added[k] by {
        assert(is_fresh(held, fetched, places[k] as int));
    }
    lemma_insert_keeps_distinct(held, added);
}

/// Ingesting an answer loses nothing: every start of the answer is held afterwards.
pub proof fn lemma_ingested_holds_all(held: Seq<i64>, fetched: Seq<i64>, place: int)
    requires
        fetched.len() <= usize::MAX,
        0 <= place < fetched.len(),
    ensures
        ingested(held, fetched).contains(fetched[place]),
    decreases place,
{
    lemma_fresh_places(held, fetched);
    let places = fresh_places(held, fetched);
    let added = starts_at(fetched, places);
    let all = ingested(held, fetched);
    if is_fresh(held, fetched, place) {
        let k = choose|k: int| 0 <= k < places.len() && #[trigger] places[k] == place;
        assert(all[held.len() + k] == added[k]);
    } else if exists|h: int| 0 <= h < held.len() && held[h] == fetched[place] {
        let h = choose|h: int| 0 <= h < held.len() && held[h] == fetched[place];
        assert(all[h] == held[h]);
    } else {
        let j = choose|j: int| 0 <= j < place && fetched[j] == fetched[place];
        lemma_ingested_holds_all(held, fetched, j);
    }
}

/// Two cycles, whatever their windows and whatever the upstream answers,
/// leave no interval twice in a store that held none twice.
pub proof fn lemma_two_cycles_ingest_once(store: Seq<i64>, first: Seq<i64>, second: Seq<i64>)
    requires
        first.len() <= usize::MAX,
        second.len() <= usize::MAX,
        distinct_starts(store),
    ensures
        distinct_starts(ingested(store, first)),
        distinct_starts(ingested(ingested(store, first), second)),
{
    lemma_ingested_distinct(store, first);
    lemma_ingested_distinct(ingested(store, first), second);
}

/// Picks from an answer the places of the intervals to insert: those whose
/// start the store does not hold and the answer has not brought before.
/// `held` are the starts that the store holds of the series, `fetched` the
/// starts of the answer, in its order.
pub fn fresh_starts(held: &Vec<i64>, fetched: &Vec<i64>) -> (kept: Vec<usize>)
    ensures
        kept@ == fresh_places(held@, fetched@),
        forall|k: int| 0 <= k < kept.len() ==> is_fresh(held@, fetched@, #[trigger] kept[k] as int),
        forall|a: int, b: int|
            0 <= a < b < kept.len() ==> #[trigger] kept[a] < #[trigger] kept[b],
        forall|i: int|
            is_fresh(held@, fetched@, i) ==> exists|k: int|
                0 <= k < kept.len() && #[trigger] kept[k] == i,
        distinct_starts(held@) ==> distinct_starts(held@ + starts_at(fetched@, kept@)),
{
    broadcast use vstd::std_specs::hash::group_hash_axioms;

    let mut seen: HashSet<i64> = HashSet::new();
    let mut h: usize = 0;
    while h < held.len()
        invariant
            0 <= h <= held.len(),
            forall|x: i64|
                #[trigger] seen@.contains(x) <==> exists|g: int| 0 <= g < h && held@[g] == x,
        decreases held.len() - h,
    {
        let start: i64 = held[h];
        seen.insert(start);
        h += 1;
    }
    let mut kept: Vec<usize> = Vec::new();
    let mut i: usize = 0;
    while i < fetched.len()
        invariant
            0 <= i <= fetched.len(),
            forall|x: i64|
                #[trigger] seen@.contains(x) <==> (exists|g: int|
                    0 <= g < held.len() && held@[g] == x) || (exists|j: int|
                    0 <= j < i && fetched@[j] == x),
            kept@ == fresh_places(held@, fetched@.subrange(0, i as int)),
        decreases fetched.len() - i,
    {
        let start: i64 = fetched[i];
        let ghost prefix = fetched@.subrange(0, i + 1);
        proof {
            assert(prefix.drop_last() == fetched@.subrange(0, i as int));
            assert(prefix[i as int] == start);
            if is_fresh(held@, prefix, i as int) {
                if exists|j: int| 0 <= j < i && fetched@[j] == start {
                    let j = choose|j: int| 0 <= j < i && fetched@[j] == start;
                    assert(prefix[j] == fetched@[j]);
                }
            } else {
                if !exists|g: int| 0 <= g < held.len() && held@[g] == start {
                    let j = choose|j: int| 0 <= j < i && prefix[j] == prefix[i as int];
                    assert(prefix[j] == fetched@[j]);
                }
            }
            assert(is_fresh(held@, prefix, i as int) <==> !seen@.contains(start));
        }
        if !seen.contains(&start) {
            kept.push(i);
            seen.insert(start);
        }
        i += 1;
    }
    proof {
        assert(fetched@.subrange(0, fetched.len() as int) == fetched@);
        lemma_fresh_places(held@, fetched@);
        if distinct_starts(held@) {
            lemma_ingested_distinct(held@, fetched@);
        }
    }
    kept
}

} // verus!
