//! Resolving the shared query parameters: paging and the date range.

use vstd::prelude::*;
use crate::errors::ValidationError;
use crate::models::filter::{date_range, Comparison, Condition};
use crate::helpers::time_formatter::{current_timestamp, parse_date, utc_timestamp, DATE_FORMAT};
use crate::routes::types::CommonQueryParams;
use crate::text::{integer_of, parse_integer};

verus! {

/// Where the date range starts when the query names no `from`: 1 April 2022, UTC.
pub const DEFAULT_FROM: i64 = 1648771200;

/// What a query gave for one parameter, once its text has been read.
#[derive(Debug, Clone, Copy, PartialEq, Eq, Structural)]
pub enum Given {
    /// The parameter was left out.
    Absent,
    /// The parameter was there, and its text could not be read.
    Malformed,
    /// The parameter was there, with this value.
    Value(i64),
}

impl Given {
    /// The value, or `fallback` where the parameter was left out or unreadable.
    pub open spec fn or(self, fallback: i64) -> i64 {
        match self {
            Given::Value(value) => value,
            _ => fallback,
        }
    }
}

/// The paging and date range of one query, resolved and checked.
#[derive(Debug, Clone, Copy, PartialEq, Eq, Structural)]
pub struct QueryParser {
    pub page: i64,
    pub count: i64,
    pub from: i64,
    pub to: i64,
}

/// What a query gave for a numeric parameter.
pub open spec fn given_integer(text: Option<String>) -> Given {
    match text {
        None => Given::Absent,
        Some(text) => match integer_of(text@) {
            Some(value) => Given::Value(value),
            None => Given::Malformed,
        },
    }
}

/// What a query gave for a date.
pub open spec fn given_date(text: Option<String>) -> Given {
    match text {
        None => Given::Absent,
        Some(text) => match utc_timestamp(text@, DATE_FORMAT@) {
            Some(seconds) => Given::Value(seconds),
            None => Given::Malformed,
        },
    }
}

/// The resolver's rule. `count` defaults to `max_count` and must lie in
/// `1..=max_count`; `page` defaults to 1 and must be at least 1; `from`
/// defaults to [`DEFAULT_FROM`] and `to` to `now`; `from` must not lie after
/// `to`. The first of these that fails, in this order, names the error.
pub open spec fn resolved(
    count: Given,
    page: Given,
    from: Given,
    to: Given,
    max_count: i64,
    now: i64,
) -> Result<QueryParser, ValidationError> {
    if count is Malformed || count.or(max_count) < 1 || count.or(max_count) > max_count {
        Err(ValidationError::InvalidCount)
    } else if page is Malformed || page.or(1) < 1 {
        Err(ValidationError::InvalidPage)
    } else if from is Malformed || to is Malformed {
        Err(ValidationError::InvalidDateFormat)
    } else if from.or(DEFAULT_FROM) > to.or(now) {
        Err(ValidationError::FromAfterTo)
    } else {
        Ok(
            QueryParser {
                page: page.or(1),
                count: count.or(max_count),
                from: from.or(DEFAULT_FROM),
                to: to.or(now),
            },
        )
    }
}

/// What the resolver gives for a query as it arrived, at the time `now`.
pub open spec fn resolved_query(query: CommonQueryParams, max_count: i64, now: i64) -> Result<
    QueryParser,
    ValidationError,
> {
    resolved(
        given_integer(query.count),
        given_integer(query.page),
        given_date(query.from),
        given_date(query.to),
        max_count,
        now,
    )
}

/// The time to resolve a query at. The clock is read only where the query
/// names no `to`: with a `to`, the time plays no part and 0 stands for it.
pub(crate) fn time_for(query: &CommonQueryParams) -> (now: i64)
    ensures
        query.to is Some ==> now == 0,
{
    match &query.to {
        Some(_) => 0,
        None => current_timestamp(),
    }
}

fn read_integer(text: &Option<String>) -> (given: Given)
    ensures
        given == given_integer(*text),
{
    match text {
        None => Given::Absent,
        Some(text) => match parse_integer(text.as_str()) {
            Some(value) => Given::Value(value),
            None => Given::Malformed,
        },
    }
}

fn read_date(text: &Option<String>) -> (given: Given)
    ensures
        given == given_date(*text),
{
    match text {
        None => Given::Absent,
        Some(text) => match parse_date(text.as_str()) {
            Ok(seconds) => Given::Value(seconds),
            Err(_) => Given::Malformed,
        },
    }
}

impl QueryParser {
    /// Whether the parameters are ones that the resolver can give for `max_count`.
    pub open spec fn valid(self, max_count: i64) -> bool {
        &&& self.page >= 1
        &&& 1 <= self.count <= max_count
        &&& self.from <= self.to
    }

    /// The number of rows that lie before the page: `max(page - 1, 0) * count`.
    pub open spec fn rows_before(self) -> int {
        (if self.page > 1 {
            self.page - 1
        } else {
            0
        }) * self.count
    }

    /// Checks what the query gave, once read, and fills in what it left out.
    pub fn resolve(count: Given, page: Given, from: Given, to: Given, max_count: i64, now: i64) -> (outcome:
        Result<QueryParser, ValidationError>)
        ensures
            outcome == resolved(count, page, from, to, max_count, now),
    {
        let count: i64 = match count {
            Given::Malformed => {
                return Err(ValidationError::InvalidCount);
            },
            Given::Absent => max_count,
            Given::Value(value) => value,
        };
        if count < 1 || count > max_count {
            return Err(ValidationError::InvalidCount);
        }
        let page: i64 = match page {
            Given::Malformed => {
                return Err(ValidationError::InvalidPage);
            },
            Given::Absent => 1,
            Given::Value(value) => value,
        };
        if page < 1 {
            return Err(ValidationError::InvalidPage);
        }
        let from: i64 = match from {
            Given::Malformed => {
                return Err(ValidationError::InvalidDateFormat);
            },
            Given::Absent => DEFAULT_FROM,
            Given::Value(value) => value,
        };
        let to: i64 = match to {
            Given::Malformed => {
                return Err(ValidationError::InvalidDateFormat);
            },
            Given::Absent => now,
            Given::Value(value) => value,
        };
        if from > to {
            return Err(ValidationError::FromAfterTo);
        }
        Ok(QueryParser { page, count, from, to })
    }

    /// Resolves a query as it arrived, with `now` standing for the current time.
    pub fn new_at(query: &CommonQueryParams, max_count: i64, now: i64) -> (outcome: Result<
        QueryParser,
        ValidationError,
    >)
        ensures
            outcome == resolved_query(*query, max_count, now),
    {
        let count = read_integer(&query.count);
        let page = read_integer(&query.page);
        let from = read_date(&query.from);
        let to = read_date(&query.to);
        QueryParser::resolve(count, page, from, to, max_count, now)
    }

    /// Resolves a query as it arrived. The clock is read only where the query
    /// names no `to`; with a `to`, the outcome depends on the query alone.
    pub fn new(query: &CommonQueryParams, max_count: i64) -> (outcome: Result<
        QueryParser,
        ValidationError,
    >)
        ensures
            exists|now: i64| outcome == resolved_query(*query, max_count, now),
            query.to is Some ==> outcome == resolved_query(*query, max_count, 0),
            outcome matches Ok(parameters) ==> parameters.valid(max_count),
    {
        let now: i64 = time_for(query);
        let outcome = QueryParser::new_at(query, max_count, now);
        assert(outcome == resolved_query(*query, max_count, now));
        outcome
    }

    /// The filter of the date range: a record passes where it starts at or
    /// after `from` and ends at or before `to`.
    pub fn date_filter(&self) -> (filter: Vec<Condition>)
        ensures
            filter@ == date_range(self.from, self.to),
    {
        let filter = vec![
            Condition { field: "startTime", comparison: Comparison::Gte, value: self.from },
            Condition { field: "endTime", comparison: Comparison::Lte, value: self.to },
        ];
        assert(filter@ == date_range(self.from, self.to));
        filter
    }

    /// The number of rows to pass over before the page starts.
    pub fn skip(&self) -> (rows: i64)
        requires
            i64::MIN <= self.rows_before() <= i64::MAX,
        ensures
            rows == self.rows_before(),
    {
        if self.page > 1 {
            (self.page - 1) * self.count
        } else {
            0
        }
    }
}

/// A count inside `1..=max_count` is the count of the resolved parameters,
/// and is never the reason for a failure; a count outside fails as an
/// invalid count, whatever else the query holds.
pub proof fn lemma_count_kept_or_refused(
    count: i64,
    page: Given,
    from: Given,
    to: Given,
    max_count: i64,
    now: i64,
)
    ensures
        1 <= count <= max_count ==> match resolved(Given::Value(count), page, from, to, max_count, now) {
            Ok(parameters) => parameters.count == count,
            Err(error) => error != ValidationError::InvalidCount,
        },
        !(1 <= count <= max_count) ==> resolved(Given::Value(count), page, from, to, max_count, now)
            == Err::<QueryParser, ValidationError>(ValidationError::InvalidCount),
{
}

/// A range that starts after it ends is always refused, and as `FromAfterTo`
/// exactly where count and page are in order.
pub proof fn lemma_from_after_to_refused(
    count: Given,
    page: Given,
    from: i64,
    to: i64,
    max_count: i64,
    now: i64,
)
    requires
        from > to,
    ensures
        resolved(count, page, Given::Value(from), Given::Value(to), max_count, now) is Err,
        resolved(count, page, Given::Value(from), Given::Value(to), max_count, now) == Err::<
            QueryParser,
            ValidationError,
        >(ValidationError::FromAfterTo) <==> {
            &&& !(count is Malformed) && 1 <= count.or(max_count) <= max_count
            &&& !(page is Malformed) && page.or(1) >= 1
        },
{
}

/// From the first page on, the rows before a page are `count` for each page
/// before it: `(page - 1) * count`.
pub proof fn lemma_rows_before_page(parameters: QueryParser)
    requires
        parameters.page >= 1,
    ensures
        parameters.rows_before() == (parameters.page - 1) * parameters.count,
{
}

/// Whatever the resolver accepts is valid for the `max_count` it was given.
pub proof fn lemma_resolved_is_valid(
    count: Given,
    page: Given,
    from: Given,
    to: Given,
    max_count: i64,
    now: i64,
)
    ensures
        resolved(count, page, from, to, max_count, now) matches Ok(parameters) ==> parameters.valid(
            max_count,
        ),
{
}

} // verus!
