//! The depths endpoint: from a request to the plan of its answer.

use vstd::prelude::*;
use crate::errors::ValidationError;
use crate::helpers::query_parser::time_for;
use crate::models::series::SeriesKind;
use crate::routes::plan::{plan_query, planned, QueryPlan};
use crate::routes::types::DepthHistoryParams;

verus! {

/// Resolves a request to the depths endpoint: the shared parameters, held
/// to at most 400 rows a page, then the sort field, which must be a field
/// of a depths record. Whatever is refused is refused here, before the
/// store is read. The clock is read only where the request names no `to`.
pub fn fetch_depths_history(query: &DepthHistoryParams) -> (outcome: Result<QueryPlan, ValidationError>)
    ensures
        exists|now: i64|
            planned(
                outcome,
                SeriesKind::Depths,
                query.common,
                query.interval,
                query.sort_by,
                query.order,
                now,
            ),
        query.common.to is Some ==> planned(
            outcome,
            SeriesKind::Depths,
            query.common,
            query.interval,
            query.sort_by,
            query.order,
            0,
        ),
{
    let now = time_for(&query.common);
    let outcome = plan_query(
        SeriesKind::Depths,
        &query.common,
        &query.interval,
        &query.sort_by,
        &query.order,
        now,
    );
    assert(planned(
        outcome,
        SeriesKind::Depths,
        query.common,
        query.interval,
        query.sort_by,
        query.order,
        now,
    ));
    outcome
}

} // verus!
