//! What every endpoint does with a request before the store is read: it
//! resolves the shared parameters and checks the sort field, and reads the
//! order and the interval.

use vstd::prelude::*;
use crate::errors::ValidationError;
use crate::helpers::query_parser::{resolved_query, QueryParser};
use crate::models::interval::{is_named, place_of};
use crate::models::series::SeriesKind;
use crate::routes::types::CommonQueryParams;
use crate::text::text_eq;

verus! {

/// The field that rows are ordered by where the request names none.
pub const DEFAULT_SORT_FIELD: &'static str = "startTime";

/// The interval that rows are bucketed by where the request names none.
pub const DEFAULT_INTERVAL: &'static str = "hour";

/// A request that passed every check, ready to be answered from the store.
#[derive(Debug)]
pub struct QueryPlan {
    pub parameters: QueryParser,
    pub interval: String,
    pub sort_by: String,
    pub order: i32,
}

/// The text of a parameter, or `fallback` where the request left it out.
pub open spec fn text_or(given: Option<String>, fallback: Seq<char>) -> Seq<char> {
    match given {
        Some(text) => text@,
        None => fallback,
    }
}

/// The direction of the order: 1, ascending, for `asc`; -1, descending, for
/// anything else and for nothing.
pub open spec fn order_of(given: Option<String>) -> i32 {
    match given {
        Some(text) => if text@ == "asc"@ {
            1i32
        } else {
            -1i32
        },
        None => -1i32,
    }
}

/// Why a request is refused, if it is: what the resolver objects to, and
/// after that a sort field that the series does not have.
pub open spec fn refusal(
    kind: SeriesKind,
    common: CommonQueryParams,
    sort_by: Option<String>,
    now: i64,
) -> Option<ValidationError> {
    match resolved_query(common, kind.page_limit(), now) {
        Err(error) => Some(error),
        Ok(_) => if is_named(kind.names(), text_or(sort_by, DEFAULT_SORT_FIELD@)) {
            None
        } else {
            Some(ValidationError::InvalidSortField)
        },
    }
}

/// Whether `plan` is what the request asks for.
pub open spec fn plans(
    plan: QueryPlan,
    kind: SeriesKind,
    common: CommonQueryParams,
    interval: Option<String>,
    sort_by: Option<String>,
    order: Option<String>,
    now: i64,
) -> bool {
    &&& resolved_query(common, kind.page_limit(), now) == Ok::<QueryParser, ValidationError>(
        plan.parameters,
    )
    &&& plan.interval@ == text_or(interval, DEFAULT_INTERVAL@)
    &&& plan.sort_by@ == text_or(sort_by, DEFAULT_SORT_FIELD@)
    &&& is_named(kind.names(), plan.sort_by@)
    &&& plan.order == order_of(order)
}

/// What a request leads to at the time `now`: a plan, or the reason for refusing it.
pub open spec fn planned(
    outcome: Result<QueryPlan, ValidationError>,
    kind: SeriesKind,
    common: CommonQueryParams,
    interval: Option<String>,
    sort_by: Option<String>,
    order: Option<String>,
    now: i64,
) -> bool {
    match outcome {
        Ok(plan) => refusal(kind, common, sort_by, now) is None && plans(
            plan,
            kind,
            common,
            interval,
            sort_by,
            order,
            now,
        ),
        Err(error) => refusal(kind, common, sort_by, now) == Some(error),
    }
}

/// A request that orders by a field that the series does not have is refused
/// before anything is planned, for every series.
pub proof fn lemma_unknown_sort_field_refused(
    kind: SeriesKind,
    common: CommonQueryParams,
    sort_by: Option<String>,
    now: i64,
)
    requires
        !is_named(kind.names(), text_or(sort_by, DEFAULT_SORT_FIELD@)),
    ensures
        refusal(kind, common, sort_by, now) is Some,
        resolved_query(common, kind.page_limit(), now) is Ok ==> refusal(kind, common, sort_by, now)
            == Some(ValidationError::InvalidSortField),
{
}

/// The text of a parameter, or a copy of `fallback`.
pub fn text_or_default(given: &Option<String>, fallback: &str) -> (text: String)
    ensures
        text@ == text_or(*given, fallback@),
{
    match given {
        Some(text) => text.clone(),
        None => fallback.to_owned(),
    }
}

/// Reads the direction of the order.
pub fn read_order(given: &Option<String>) -> (order: i32)
    ensures
        order == order_of(*given),
{
    match given {
        Some(text) => if text_eq(text.as_str(), "asc") {
            1
        } else {
            -1
        },
        None => -1,
    }
}

/// Plans the answer to a request for one series, with `now` standing for
/// the current time.
pub fn plan_query(
    kind: SeriesKind,
    common: &CommonQueryParams,
    interval: &Option<String>,
    sort_by: &Option<String>,
    order: &Option<String>,
    now: i64,
) -> (outcome: Result<QueryPlan, ValidationError>)
    ensures
        planned(outcome, kind, *common, *interval, *sort_by, *order, now),
{
    let parameters = match QueryParser::new_at(common, kind.max_count(), now) {
        Ok(parameters) => parameters,
        Err(error) => {
            return Err(error);
        },
    };
    let sort_by = text_or_default(sort_by, DEFAULT_SORT_FIELD);
    if !kind.has_field(sort_by.as_str()) {
        return Err(ValidationError::InvalidSortField);
    }
    let order = read_order(order);
    let interval = text_or_default(interval, DEFAULT_INTERVAL);
    Ok(QueryPlan { parameters, interval, sort_by, order })
}

} // verus!
