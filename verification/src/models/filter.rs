//! Filters: conditions on named fields that a record must meet, all of them.

use vstd::prelude::*;
use crate::models::interval::{value_of, Interval};

verus! {

/// How a field is held against a bound.
#[derive(Debug, Clone, Copy, PartialEq, Eq, Structural)]
pub enum Comparison {
    /// The field is at least the bound.
    Gte,
    /// The field is at most the bound.
    Lte,
}

impl Comparison {
    /// Whether `value` stands to `bound` as the comparison asks.
    pub open spec fn admits(self, value: i64, bound: i64) -> bool {
        match self {
            Comparison::Gte => value >= bound,
            Comparison::Lte => value <= bound,
        }
    }

    /// Decides whether `value` stands to `bound` as the comparison asks.
    pub fn test(&self, value: i64, bound: i64) -> (admitted: bool)
        ensures
            admitted == self.admits(value, bound),
    {
        match self {
            Comparison::Gte => value >= bound,
            Comparison::Lte => value <= bound,
        }
    }

    /// The operator as the store writes it.
    pub fn operator(&self) -> (name: &'static str)
        ensures
            name == match self {
                Comparison::Gte => "$gte",
                Comparison::Lte => "$lte",
            },
    {
        match self {
            Comparison::Gte => "$gte",
            Comparison::Lte => "$lte",
        }
    }
}

/// One condition of a filter: a field, by its name, held against a bound.
#[derive(Debug, Clone, Copy, PartialEq, Eq)]
pub struct Condition {
    pub field: &'static str,
    pub comparison: Comparison,
    pub value: i64,
}

/// The filter of a date range: the interval starts at or after `from` and
/// ends at or before `to`.
pub open spec fn date_range(from: i64, to: i64) -> Seq<Condition> {
    seq![
        Condition { field: "startTime", comparison: Comparison::Gte, value: from },
        Condition { field: "endTime", comparison: Comparison::Lte, value: to },
    ]
}

/// Whether the record meets the condition. A record without the field does not.
pub open spec fn condition_holds<R: Interval>(record: R, condition: Condition) -> bool {
    match value_of(record, condition.field@) {
        Some(value) => condition.comparison.admits(value, condition.value),
        None => false,
    }
}

/// Whether the record meets every condition of the filter.
pub open spec fn passes<R: Interval>(record: R, conditions: Seq<Condition>) -> bool {
    forall|i: int| 0 <= i < conditions.len() ==> condition_holds(record, #[trigger] conditions[i])
}

/// A record meets the two conditions of a date range exactly where it starts
/// at or after `from` and ends at or before `to`.
pub proof fn lemma_date_range<R: Interval>(record: R, from: i64, to: i64)
    ensures
        passes(record, date_range(from, to)) <==> record.started() >= from && record.ended() <= to,
{
    R::lemma_timestamps(record);
    let conditions = date_range(from, to);
    if record.started() >= from && record.ended() <= to {
        assert forall|i: int| 0 <= i < conditions.len() implies condition_holds(
            record,
            #[trigger] conditions[i],
        ) by {}
    }
    if passes(record, conditions) {
        assert(condition_holds(record, conditions[0]));
        assert(condition_holds(record, conditions[1]));
    }
}

} // verus!
