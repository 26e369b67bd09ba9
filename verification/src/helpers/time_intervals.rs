//! Bucket widths by name.

use vstd::prelude::*;
use crate::text::text_eq;

verus! {

/// The width of a bucket in seconds, by the interval's name. A month is a
/// twelfth of a Julian year, a quarter three such months. A name that is not
/// one of the six known ones stands for a day.
pub open spec fn interval_seconds(name: Seq<char>) -> int {
    if name == "hour"@ {
        3600
    } else if name == "day"@ {
        86400
    } else if name == "week"@ {
        604800
    } else if name == "month"@ {
        2629800
    } else if name == "quarter"@ {
        7889400
    } else if name == "year"@ {
        31557600
    } else {
        86400
    }
}

/// Every bucket width is between an hour and a year, whatever the name.
pub proof fn lemma_interval_seconds_bounds(name: Seq<char>)
    ensures
        3600 <= interval_seconds(name) <= 31557600,
{
}

/// Converts the interval's name into seconds; unknown names mean a day.
pub fn interval_to_seconds(interval: &str) -> (seconds: i64)
    ensures
        seconds == interval_seconds(interval@),
{
    if text_eq(interval, "hour") {
        3600
    } else if text_eq(interval, "day") {
        86400
    } else if text_eq(interval, "week") {
        604800
    } else if text_eq(interval, "month") {
        2629800
    } else if text_eq(interval, "quarter") {
        7889400
    } else if text_eq(interval, "year") {
        31557600
    } else {
        86400
    }
}

} // verus!
