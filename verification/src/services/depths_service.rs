//! Depth history: answering queries.

use vstd::prelude::*;
use crate::errors::{IngestError, QueryError};
use crate::helpers::query_parser::QueryParser;
use crate::models::depth_history_model::{DepthHistoryInterval, DepthHistoryMeta};
use crate::models::series::SeriesKind;
use crate::services::backfill::{started, Backfill};
use crate::models::filter::{date_range, Comparison, Condition};
use crate::routes::types::DepthsHistoryMeta;
use crate::services::paging::{has_next_page, page_is_full};
use crate::services::query::{answers, lemma_selected_len, query_rows, selected};

verus! {

/// The filter of a depths query: the date range, then `assetDepth` at least
/// `min_depth`, `assetDepth` at most `max_depth` and `liquidityUnits` at
/// least `liquidity_gt`, each where it is given.
pub open spec fn depths_filter(
    parameters: QueryParser,
    max_depth: Option<i64>,
    min_depth: Option<i64>,
    liquidity_gt: Option<i64>,
) -> Seq<Condition> {
    date_range(parameters.from, parameters.to) + (match min_depth {
        Some(bound) => seq![
            Condition { field: "assetDepth", comparison: Comparison::Gte, value: bound },
        ],
        None => Seq::empty(),
    }) + (match max_depth {
        Some(bound) => seq![
            Condition { field: "assetDepth", comparison: Comparison::Lte, value: bound },
        ],
        None => Seq::empty(),
    }) + (match liquidity_gt {
        Some(bound) => seq![
            Condition { field: "liquidityUnits", comparison: Comparison::Gte, value: bound },
        ],
        None => Seq::empty(),
    })
}

/// The summary of a page of depth rows: the depths with which its first row
/// starts and its last row ends. The two derived figures are not computed
/// and stand at zero.
pub open spec fn depths_summary(rows: Seq<DepthHistoryInterval>, parameters: QueryParser) -> DepthsHistoryMeta {
    DepthsHistoryMeta {
        meta: DepthHistoryMeta {
            end_asset_depth: rows.last().asset_depth,
            end_lp_units: rows.last().liquidity_units,
            end_member_count: rows.last().members_count,
            end_rune_depth: rows.last().rune_depth,
            end_synth_units: rows.last().synth_units,
            end_time: rows.last().end_time,
            luvi_increase: 0,
            price_shift_loss: 0,
            start_asset_depth: rows.first().asset_depth,
            start_lp_units: rows.first().liquidity_units,
            start_member_count: rows.first().members_count,
            start_rune_depth: rows.first().rune_depth,
            start_synth_units: rows.first().synth_units,
            start_time: rows.first().start_time,
        },
        current_page: parameters.page,
        count: rows.len() as i64,
        has_next_page: page_is_full(rows.len() as int, parameters.count),
    }
}

/// Builds the filter of a depths query.
pub fn build_depths_filter(
    parameters: &QueryParser,
    max_depth: Option<i64>,
    min_depth: Option<i64>,
    liquidity_gt: Option<i64>,
) -> (filter: Vec<Condition>)
    ensures
        filter@ == depths_filter(*parameters, max_depth, min_depth, liquidity_gt),
{
    let mut filter = parameters.date_filter();
    if let Some(bound) = min_depth {
        filter.push(Condition { field: "assetDepth", comparison: Comparison::Gte, value: bound });
    }
    if let Some(bound) = max_depth {
        filter.push(Condition { field: "assetDepth", comparison: Comparison::Lte, value: bound });
    }
    if let Some(bound) = liquidity_gt {
        filter.push(
            Condition { field: "liquidityUnits", comparison: Comparison::Gte, value: bound },
        );
    }
    assert(filter@ == depths_filter(*parameters, max_depth, min_depth, liquidity_gt));
    filter
}

/// Answers a depths query over the depth records, held in store order. The
/// rows are those of the page; a page without rows is an error, not an empty
/// answer.
pub fn fetch_depths_history(
    records: &Vec<DepthHistoryInterval>,
    pagination_params: QueryParser,
    interval_str: &str,
    sort_by: String,
    order: i32,
    max_depth: Option<i64>,
    min_depth: Option<i64>,
    liquidity_gt: Option<i64>,
) -> (outcome: Result<(DepthsHistoryMeta, Vec<DepthHistoryInterval>), QueryError>)
    ensures
        match outcome {
            Ok((meta, rows)) => {
                &&& rows@.len() > 0
                &&& answers(
                    rows@,
                    records@,
                    depths_filter(pagination_params, max_depth, min_depth, liquidity_gt),
                    pagination_params,
                    interval_str@,
                    sort_by@,
                    order,
                )
                &&& meta == depths_summary(rows@, pagination_params)
            },
            Err(error) => {
                &&& error == QueryError::NoDataFound
                &&& selected(
                    records@,
                    depths_filter(pagination_params, max_depth, min_depth, liquidity_gt),
                    pagination_params,
                    interval_str@,
                    sort_by@,
                    order,
                ).len() == 0
            },
        },
{
    let filter = build_depths_filter(&pagination_params, max_depth, min_depth, liquidity_gt);
    let rows = query_rows(
        records,
        &filter,
        &pagination_params,
        interval_str,
        sort_by.as_str(),
        order,
    );
    if rows.len() == 0 {
        return Err(QueryError::NoDataFound);
    }
    proof {
        lemma_selected_len(records@, filter@, pagination_params, interval_str@, sort_by@, order);
    }
    let start = &rows[0];
    let end = &rows[rows.len() - 1];
    let meta = DepthsHistoryMeta {
        meta: DepthHistoryMeta {
            end_asset_depth: end.asset_depth,
            end_lp_units: end.liquidity_units,
            end_member_count: end.members_count,
            end_rune_depth: end.rune_depth,
            end_synth_units: end.synth_units,
            end_time: end.end_time,
            luvi_increase: 0,
            price_shift_loss: 0,
            start_asset_depth: start.asset_depth,
            start_lp_units: start.liquidity_units,
            start_member_count: start.members_count,
            start_rune_depth: start.rune_depth,
            start_synth_units: start.synth_units,
            start_time: start.start_time,
        },
        current_page: pagination_params.page,
        count: rows.len() as i64,
        has_next_page: has_next_page(rows.len(), pagination_params.count),
    };
    Ok((meta, rows))
}

/// Starts the backfill of the depth history of one pool over the window
/// `from..to`. An empty or reversed window is refused, and nothing is fetched
/// or inserted for it.
pub fn update_depths_data(pool_name: String, from: i64, to: i64) -> (outcome: Result<
    Backfill,
    IngestError,
>)
    ensures
        outcome == started(SeriesKind::Depths, Some(pool_name), from, to),
        from >= to <==> outcome == Err::<Backfill, IngestError>(IngestError::InvalidWindow),
{
    Backfill::start(SeriesKind::Depths, Some(pool_name), from, to)
}

} // verus!
