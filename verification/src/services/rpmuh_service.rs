//! Rune-pool members and units: answering queries.

use vstd::prelude::*;
use crate::errors::{IngestError, QueryError};
use crate::helpers::query_parser::QueryParser;
use crate::models::series::SeriesKind;
use crate::services::backfill::{started, Backfill};
use crate::models::filter::date_range;
use crate::models::rptmuh_model::RpmuHistoryInterval;
use crate::routes::types::RpmuHistoryMeta;
use crate::services::paging::{has_next_page, page_is_full};
use crate::services::query::{answers, lemma_selected_len, query_rows, selected};

verus! {

/// The summary of a page of rune-pool rows: members, units and start of its
/// first row, members, units and end of its last.
pub open spec fn rpmuh_summary(rows: Seq<RpmuHistoryInterval>, parameters: QueryParser) -> RpmuHistoryMeta {
    RpmuHistoryMeta {
        end_count: rows.last().count,
        end_time: rows.last().end_time,
        end_units: rows.last().units,
        start_count: rows.first().count,
        start_time: rows.first().start_time,
        start_units: rows.first().units,
        current_page: parameters.page,
        count: rows.len() as i64,
        has_next_page: page_is_full(rows.len() as int, parameters.count),
    }
}

/// Answers a rune-pool query over the records, held in store order. The
/// filter is the date range. A page without rows is an error, not an empty
/// answer.
pub fn fetch_rpmuh_data(
    records: &Vec<RpmuHistoryInterval>,
    pagination_params: QueryParser,
    interval_str: &str,
    sort_by: String,
    order: i32,
) -> (outcome: Result<(RpmuHistoryMeta, Vec<RpmuHistoryInterval>), QueryError>)
    ensures
        match outcome {
            Ok((meta, rows)) => {
                &&& rows@.len() > 0
                &&& answers(
                    rows@,
                    records@,
                    date_range(pagination_params.from, pagination_params.to),
                    pagination_params,
                    interval_str@,
                    sort_by@,
                    order,
                )
                &&& meta == rpmuh_summary(rows@, pagination_params)
            },
            Err(error) => {
                &&& error == QueryError::NoDataFound
                &&& selected(
                    records@,
                    date_range(pagination_params.from, pagination_params.to),
                    pagination_params,
                    interval_str@,
                    sort_by@,
                    order,
                ).len() == 0
            },
        },
{
    let filter = pagination_params.date_filter();
    let rows = query_rows(
        records,
        &filter,
        &pagination_params,
        interval_str,
        sort_by.as_str(),
        order,
    );
    if rows.len() == 0 {
        return Err(QueryError::NoDataFound);
    }
    proof {
        lemma_selected_len(records@, filter@, pagination_params, interval_str@, sort_by@, order);
    }
    let start = &rows[0];
    let end = &rows[rows.len() - 1];
    let meta = RpmuHistoryMeta {
        end_count: end.count,
        end_time: end.end_time,
        end_units: end.units,
        start_count: start.count,
        start_time: start.start_time,
        start_units: start.units,
        current_page: pagination_params.page,
        count: rows.len() as i64,
        has_next_page: has_next_page(rows.len(), pagination_params.count),
    };
    Ok((meta, rows))
}

/// Starts the backfill of rune-pool history over the window `from..to`. An empty
/// or reversed window is refused, and nothing is fetched or inserted for it.
pub fn update_rpmuh_data(from: i64, to: i64) -> (outcome: Result<Backfill, IngestError>)
    ensures
        outcome == started(SeriesKind::RunepoolUnits, None, from, to),
        from >= to <==> outcome == Err::<Backfill, IngestError>(IngestError::InvalidWindow),
{
    Backfill::start(SeriesKind::RunepoolUnits, None, from, to)
}

} // verus!
