//! Swap history: answering queries.

use vstd::prelude::*;
use crate::errors::{IngestError, QueryError};
use crate::helpers::query_parser::QueryParser;
use crate::models::series::SeriesKind;
use crate::services::backfill::{started, Backfill};
use crate::models::filter::date_range;
use crate::models::swaps_history::SwapsHistoryInterval;
use crate::routes::types::SwapHistoryMeta;
use crate::services::paging::{has_next_page, page_is_full};
use crate::services::query::{answers, lemma_selected_len, query_rows, selected};

verus! {

/// The page information of `returned` swap rows.
pub open spec fn swaps_summary(returned: int, parameters: QueryParser) -> SwapHistoryMeta {
    SwapHistoryMeta {
        current_page: parameters.page,
        count: returned as i64,
        has_next_page: page_is_full(returned, parameters.count),
    }
}

/// Answers a swaps query over the swap records, held in store order. The
/// filter is the date range. A page without rows is an error, not an empty
/// answer.
pub fn fetch_swaps_history(
    records: &Vec<SwapsHistoryInterval>,
    pagination_params: QueryParser,
    interval_str: &str,
    sort_by: String,
    order: i32,
) -> (outcome: Result<(SwapHistoryMeta, Vec<SwapsHistoryInterval>), QueryError>)
    ensures
        match outcome {
            Ok((meta, rows)) => {
                &&& rows@.len() > 0
                &&& answers(
                    rows@,
                    records@,
                    date_range(pagination_params.from, pagination_params.to),
                    pagination_params,
                    interval_str@,
                    sort_by@,
                    order,
                )
                &&& meta == swaps_summary(rows@.len() as int, pagination_params)
            },
            Err(error) => {
                &&& error == QueryError::NoDataFound
                &&& selected(
                    records@,
                    date_range(pagination_params.from, pagination_params.to),
                    pagination_params,
                    interval_str@,
                    sort_by@,
                    order,
                ).len() == 0
            },
        },
{
    let filter = pagination_params.date_filter();
    let rows = query_rows(
        records,
        &filter,
        &pagination_params,
        interval_str,
        sort_by.as_str(),
        order,
    );
    if rows.len() == 0 {
        return Err(QueryError::NoDataFound);
    }
    proof {
        lemma_selected_len(records@, filter@, pagination_params, interval_str@, sort_by@, order);
    }
    let meta = SwapHistoryMeta {
        current_page: pagination_params.page,
        count: rows.len() as i64,
        has_next_page: has_next_page(rows.len(), pagination_params.count),
    };
    Ok((meta, rows))
}

/// Starts the backfill of swap history over the window `from..to`. An empty
/// or reversed window is refused, and nothing is fetched or inserted for it.
pub fn update_swaps_history(from: i64, to: i64) -> (outcome: Result<Backfill, IngestError>)
    ensures
        outcome == started(SeriesKind::Swaps, None, from, to),
        from >= to <==> outcome == Err::<Backfill, IngestError>(IngestError::InvalidWindow),
{
    Backfill::start(SeriesKind::Swaps, None, from, to)
}

} // verus!
