//! Rune-pool members and units: the record of one interval, and the summary of a range.

use vstd::prelude::*;
use vstd::string::*;
use crate::models::interval::{find_name, is_named, place_of, Interval};

verus! {

/// The members and units of the rune pool over one interval.
#[derive(Debug, Clone, Copy, PartialEq, Eq, Structural)]
pub struct RpmuHistoryInterval {
    pub count: i64,
    pub end_time: i64,
    pub start_time: i64,
    pub units: i64,
}

impl RpmuHistoryInterval {
    /// The names that a query may sort by: every field of the record.
    pub fn field_names() -> (names: Vec<&'static str>)
        ensures
            names@ == <Self as Interval>::names(),
    {
        let names = vec![
            "count",
            "endTime",
            "startTime",
            "units",
        ];
        assert(names@ == <Self as Interval>::names());
        names
    }

    /// Whether the record has a field of that name.
    pub fn has_field(field: String) -> (has: bool)
        ensures
            has == is_named(<Self as Interval>::names(), field@),
    {
        let names = Self::field_names();
        place_of(&names, field.as_str()) < names.len()
    }
}

impl Interval for RpmuHistoryInterval {
    open spec fn names() -> Seq<&'static str> {
        seq![
            "count",
            "endTime",
            "startTime",
            "units",
        ]
    }

    open spec fn at(&self, place: int) -> i64 {
        if place == 0 {
            self.count
        } else if place == 1 {
            self.end_time
        } else if place == 2 {
            self.start_time
        } else if place == 3 {
            self.units
        } else {
            0
        }
    }

    open spec fn started(&self) -> i64 {
        self.start_time
    }

    open spec fn ended(&self) -> i64 {
        self.end_time
    }

    open spec fn restarts(&self, whole: &Self, start_time: i64) -> bool {
        *self == (RpmuHistoryInterval { start_time, ..*whole })
    }

    proof fn lemma_timestamps(record: Self) {
        reveal_strlit("count");
        reveal_strlit("endTime");
        reveal_strlit("startTime");
        let names = Self::names();
        reveal_with_fuel(find_name, 4);
        assert("startTime"@.len() == 9);
        assert("count"@.len() == 5);
        assert(names[0]@ != "startTime"@);
        assert("endTime"@.len() == 7);
        assert(names[1]@ != "startTime"@);
        assert(names[2]@ == "startTime"@);
        assert(find_name(names, "startTime"@, 0) == 2);
        assert("endTime"@.len() == 7);
        assert("count"@.len() == 5);
        assert(names[0]@ != "endTime"@);
        assert(names[1]@ == "endTime"@);
        assert(find_name(names, "endTime"@, 0) == 1);
    }

    fn fields() -> (names: Vec<&'static str>) {
        Self::field_names()
    }

    fn value_at(&self, place: usize) -> (value: i64) {
        if place == 0 {
            self.count
        } else if place == 1 {
            self.end_time
        } else if place == 2 {
            self.start_time
        } else if place == 3 {
            self.units
        } else {
            0
        }
    }

    fn start(&self) -> (seconds: i64) {
        self.start_time
    }

    fn end(&self) -> (seconds: i64) {
        self.end_time
    }

    fn with_start_time(&self, start_time: i64) -> (record: Self) {
        RpmuHistoryInterval { start_time, ..*self }
    }
}

/// The members and units at the start and at the end of a range of intervals.
#[derive(Debug, Clone, Copy, PartialEq, Eq, Structural)]
pub struct RpmuHistoryMeta {
    pub end_count: i64,
    pub end_time: i64,
    pub end_units: i64,
    pub start_count: i64,
    pub start_time: i64,
    pub start_units: i64,
}

/// What the upstream service answers for a window of rune-pool history.
#[derive(Debug)]
pub struct RpmuHistoryResponse {
    pub intervals: Vec<RpmuHistoryInterval>,
    pub meta: RpmuHistoryMeta,
}

} // verus!
