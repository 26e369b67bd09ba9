//! What every kind of interval record offers: two timestamps and a fixed
//! list of named numeric fields.
//!
//! Timestamps are whole seconds since the epoch. A measurement is held as the
//! integer that stands for it: the library copies and orders measurements and
//! never computes with them.

use vstd::prelude::*;
use crate::text::text_eq;

verus! {

/// The record of one interval of one series.
pub trait Interval: Sized {
    /// The names of the fields, as the store and the queries write them.
    spec fn names() -> Seq<&'static str>;

    /// The value of the field whose name stands at `place` in [`Self::names`].
    spec fn at(&self, place: int) -> i64;

    /// When the interval starts.
    spec fn started(&self) -> i64;

    /// When the interval ends.
    spec fn ended(&self) -> i64;

    /// Whether this is `whole` with `start_time` as its start and every
    /// other field as it was.
    spec fn restarts(&self, whole: &Self, start_time: i64) -> bool;

    /// The fields `startTime` and `endTime` hold the two timestamps.
    proof fn lemma_timestamps(record: Self)
        ensures
            find_name(Self::names(), "startTime"@, 0) < Self::names().len(),
            record.at(find_name(Self::names(), "startTime"@, 0)) == record.started(),
            find_name(Self::names(), "endTime"@, 0) < Self::names().len(),
            record.at(find_name(Self::names(), "endTime"@, 0)) == record.ended(),
    ;

    /// The names of the fields.
    fn fields() -> (names: Vec<&'static str>)
        ensures
            names@ == Self::names(),
    ;

    /// The value of the field at `place`.
    fn value_at(&self, place: usize) -> (value: i64)
        requires
            place < Self::names().len(),
        ensures
            value == self.at(place as int),
    ;

    /// When the interval starts.
    fn start(&self) -> (seconds: i64)
        ensures
            seconds == self.started(),
    ;

    /// When the interval ends.
    fn end(&self) -> (seconds: i64)
        ensures
            seconds == self.ended(),
    ;

    /// The same record with another start.
    fn with_start_time(&self, start_time: i64) -> (record: Self)
        ensures
            record.restarts(self, start_time),
    ;
}

/// The first place at or after `from` where `names` holds `field`; the
/// length of `names` where it does not hold it.
pub open spec fn find_name(names: Seq<&'static str>, field: Seq<char>, from: int) -> int
    decreases names.len() - from,
{
    if from < 0 || from >= names.len() {
        names.len() as int
    } else if names[from]@ == field {
        from
    } else {
        find_name(names, field, from + 1)
    }
}

/// Whether `field` is one of `names`.
pub open spec fn is_named(names: Seq<&'static str>, field: Seq<char>) -> bool {
    exists|i: int| 0 <= i < names.len() && (#[trigger] names[i])@ == field
}

/// The value that a record has for `field`; none where the record has no such field.
pub open spec fn value_of<R: Interval>(record: R, field: Seq<char>) -> Option<i64> {
    let place = find_name(R::names(), field, 0);
    if place < R::names().len() {
        Some(record.at(place))
    } else {
        None
    }
}

/// What `find_name` finds: the first place of the name from `from` on, if any.
pub proof fn lemma_find_name(names: Seq<&'static str>, field: Seq<char>, from: int)
    requires
        0 <= from <= names.len(),
    ensures
        from <= find_name(names, field, from) <= names.len(),
        find_name(names, field, from) < names.len() ==> names[find_name(names, field, from)]@
            == field,
        forall|k: int| from <= k < find_name(names, field, from) ==> (#[trigger] names[k])@ != field,
    decreases names.len() - from,
{
    if from < names.len() && names[from]@ != field {
        lemma_find_name(names, field, from + 1);
    }
}

/// A name is found exactly where it is one of the names.
pub proof fn lemma_found_is_named(names: Seq<&'static str>, field: Seq<char>)
    ensures
        find_name(names, field, 0) < names.len() <==> is_named(names, field),
{
    lemma_find_name(names, field, 0);
    let found = find_name(names, field, 0);
    if found < names.len() {
        assert(names[found]@ == field);
    }
}

/// Looks `field` up among `names`: its first place, or the length of `names`.
pub fn place_of(names: &Vec<&'static str>, field: &str) -> (place: usize)
    ensures
        place == find_name(names@, field@, 0),
        place < names.len() <==> is_named(names@, field@),
{
    let mut place: usize = 0;
    while place < names.len() && !text_eq(names[place], field)
        invariant
            0 <= place <= names.len(),
            find_name(names@, field@, 0) == find_name(names@, field@, place as int),
        decreases names.len() - place,
    {
        place += 1;
    }
    proof {
        lemma_found_is_named(names@, field@);
    }
    place
}

} // verus!
