//! The earnings endpoint: from a request to the plan of its answer.

use vstd::prelude::*;
use crate::errors::ValidationError;
use crate::helpers::query_parser::time_for;
use crate::models::series::SeriesKind;
use crate::routes::plan::{plan_query, planned, QueryPlan};
use crate::routes::types::EarningHistoryParams;
use crate::models::earning_history_model::ALL_POOLS;
use crate::routes::plan::{text_or, text_or_default};

verus! {

/// Resolves a request to the earnings endpoint: the shared parameters, held
/// to at most 100 rows a page, then the sort field, which must be a field
/// of an earnings record. Whatever is refused is refused here, before the
/// store is read. The clock is read only where the request names no `to`.
pub fn handle_earnings_history(query: &EarningHistoryParams) -> (outcome: Result<QueryPlan, ValidationError>)
    ensures
        exists|now: i64|
            planned(
                outcome,
                SeriesKind::Earnings,
                query.common,
                query.interval,
                query.sort_by,
                query.order,
                now,
            ),
        query.common.to is Some ==> planned(
            outcome,
            SeriesKind::Earnings,
            query.common,
            query.interval,
            query.sort_by,
            query.order,
            0,
        ),
{
    let now = time_for(&query.common);
    let outcome = plan_query(
        SeriesKind::Earnings,
        &query.common,
        &query.interval,
        &query.sort_by,
        &query.order,
        now,
    );
    assert(planned(
        outcome,
        SeriesKind::Earnings,
        query.common,
        query.interval,
        query.sort_by,
        query.order,
        now,
    ));
    outcome
}

/// The pool selector of a request: the pool it names, or `all`.
pub fn pool_selector(query: &EarningHistoryParams) -> (selector: String)
    ensures
        selector@ == text_or(query.pool, ALL_POOLS@),
{
    text_or_default(&query.pool, ALL_POOLS)
}

} // verus!
