//! Earnings history: answering queries, for all pools or for one.

use vstd::prelude::*;
use crate::errors::{IngestError, QueryError};
use crate::helpers::query_parser::QueryParser;
use crate::models::earning_history_model::EarningHistoryInterval;
use crate::models::series::SeriesKind;
use crate::services::backfill::{started, Backfill};
use crate::models::filter::date_range;
use crate::routes::types::EarningHistoryFlattenMeta;
use crate::services::paging::{has_next_page, page_is_full};
use crate::services::query::{answers, lemma_selected_len, query_rows, selected};

verus! {

/// The page information of `returned` earnings rows.
pub open spec fn earnings_summary(returned: int, parameters: QueryParser) -> EarningHistoryFlattenMeta {
    EarningHistoryFlattenMeta {
        count: returned as i64,
        page: parameters.page,
        has_next_page: page_is_full(returned, parameters.count),
    }
}

/// Whether `rows` are `whole`, row by row, each with only the pools that the
/// selector keeps.
pub open spec fn narrowed_rows(
    rows: Seq<EarningHistoryInterval>,
    whole: Seq<EarningHistoryInterval>,
    selector: Seq<char>,
) -> bool {
    &&& rows.len() == whole.len()
    &&& forall|i: int| 0 <= i < whole.len() ==> (#[trigger] rows[i]).narrows(whole[i], selector)
}

/// Keeps, in every row, only the pools that the selector keeps.
pub fn narrow_rows(whole: Vec<EarningHistoryInterval>, selector: &str) -> (rows: Vec<
    EarningHistoryInterval,
>)
    ensures
        narrowed_rows(rows@, whole@, selector@),
{
    let mut rows: Vec<EarningHistoryInterval> = Vec::new();
    let mut i: usize = 0;
    while i < whole.len()
        invariant
            0 <= i <= whole.len(),
            rows.len() == i,
            forall|k: int| 0 <= k < i ==> (#[trigger] rows@[k]).narrows(whole@[k], selector@),
        decreases whole.len() - i,
    {
        let pools = crate::models::earning_history_model::select_pools(&whole[i].pools, selector);
        rows.push(
            EarningHistoryInterval {
                start_time: whole[i].start_time,
                end_time: whole[i].end_time,
                liquidity_fees: whole[i].liquidity_fees,
                block_rewards: whole[i].block_rewards,
                earnings: whole[i].earnings,
                bonding_earnings: whole[i].bonding_earnings,
                liquidity_earnings: whole[i].liquidity_earnings,
                avg_node_count: whole[i].avg_node_count,
                rune_price_usd: whole[i].rune_price_usd,
                pools,
            },
        );
        i += 1;
    }
    rows
}

/// Answers an earnings query over the earnings records, held in store
/// order. The filter is the date range. Each row holds only the pools named
/// `pool_name`, or all of them where `pool_name` is `all`. A page without rows
/// is an error, not an empty answer.
pub fn fetch_earnings_history(
    records: &Vec<EarningHistoryInterval>,
    pagination_params: QueryParser,
    interval_str: &str,
    sort_by: String,
    order: i32,
    pool_name: &str,
) -> (outcome: Result<(EarningHistoryFlattenMeta, Vec<EarningHistoryInterval>), QueryError>)
    ensures
        match outcome {
            Ok((meta, rows)) => {
                &&& rows@.len() > 0
                &&& exists|whole: Seq<EarningHistoryInterval>|
                    {
                        &&& answers(
                            whole,
                            records@,
                            date_range(pagination_params.from, pagination_params.to),
                            pagination_params,
                            interval_str@,
                            sort_by@,
                            order,
                        )
                        &&& #[trigger] narrowed_rows(rows@, whole, pool_name@)
                    }
                &&& meta == earnings_summary(rows@.len() as int, pagination_params)
            },
            Err(error) => {
                &&& error == QueryError::NoDataFound
                &&& selected(
                    records@,
                    date_range(pagination_params.from, pagination_params.to),
                    pagination_params,
                    interval_str@,
                    sort_by@,
                    order,
                ).len() == 0
            },
        },
{
    let filter = pagination_params.date_filter();
    let whole = query_rows(
        records,
        &filter,
        &pagination_params,
        interval_str,
        sort_by.as_str(),
        order,
    );
    if whole.len() == 0 {
        return Err(QueryError::NoDataFound);
    }
    proof {
        lemma_selected_len(records@, filter@, pagination_params, interval_str@, sort_by@, order);
    }
    let ghost whole_rows = whole@;
    let rows = narrow_rows(whole, pool_name);
    assert(narrowed_rows(rows@, whole_rows, pool_name@));
    let meta = EarningHistoryFlattenMeta {
        count: rows.len() as i64,
        page: pagination_params.page,
        has_next_page: has_next_page(rows.len(), pagination_params.count),
    };
    Ok((meta, rows))
}

/// Starts the backfill of earnings history over the window `from..to`. An empty
/// or reversed window is refused, and nothing is fetched or inserted for it.
pub fn update_earnings_history(from: i64, to: i64) -> (outcome: Result<Backfill, IngestError>)
    ensures
        outcome == started(SeriesKind::Earnings, None, from, to),
        from >= to <==> outcome == Err::<Backfill, IngestError>(IngestError::InvalidWindow),
{
    Backfill::start(SeriesKind::Earnings, None, from, to)
}

} // verus!
