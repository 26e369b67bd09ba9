//! The four series, and what differs between them.

use vstd::prelude::*;
use crate::models::depth_history_model::DepthHistoryInterval;
use crate::models::earning_history_model::EarningHistoryInterval;
use crate::models::interval::{is_named, place_of, Interval};
use crate::models::rptmuh_model::RpmuHistoryInterval;
use crate::models::swaps_history::SwapsHistoryInterval;

verus! {

/// One of the upstream feeds, each with its own shape of record.
#[derive(Debug, Clone, Copy, PartialEq, Eq, Structural)]
pub enum SeriesKind {
    Depths,
    Swaps,
    Earnings,
    RunepoolUnits,
}

impl SeriesKind {
    /// The names of the fields of the series' records: what a query may sort by.
    pub open spec fn names(self) -> Seq<&'static str> {
        match self {
            SeriesKind::Depths => DepthHistoryInterval::names(),
            SeriesKind::Swaps => SwapsHistoryInterval::names(),
            SeriesKind::Earnings => EarningHistoryInterval::names(),
            SeriesKind::RunepoolUnits => RpmuHistoryInterval::names(),
        }
    }

    /// The most rows that one page of the series may hold: 100 for earnings,
    /// whose rows are large, and 400 for the others.
    pub open spec fn page_limit(self) -> i64 {
        match self {
            SeriesKind::Earnings => 100,
            _ => 400,
        }
    }

    /// The names of the fields of the series' records.
    pub fn field_names(&self) -> (names: Vec<&'static str>)
        ensures
            names@ == self.names(),
    {
        match self {
            SeriesKind::Depths => DepthHistoryInterval::get_feilds(),
            SeriesKind::Swaps => SwapsHistoryInterval::field_names(),
            SeriesKind::Earnings => EarningHistoryInterval::field_names(),
            SeriesKind::RunepoolUnits => RpmuHistoryInterval::field_names(),
        }
    }

    /// Whether the series' records have a field of that name.
    pub fn has_field(&self, field: &str) -> (has: bool)
        ensures
            has == is_named(self.names(), field@),
    {
        let names = self.field_names();
        place_of(&names, field) < names.len()
    }

    /// The most rows that one page of the series may hold.
    pub fn max_count(&self) -> (limit: i64)
        ensures
            limit == self.page_limit(),
    {
        match self {
            SeriesKind::Earnings => 100,
            _ => 400,
        }
    }
}

} // verus!
