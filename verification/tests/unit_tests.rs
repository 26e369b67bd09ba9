use midgard_history::errors::ValidationError;
use midgard_history::helpers::query_parser::{Given, QueryParser, DEFAULT_FROM};
use midgard_history::helpers::time_formatter::parse_date;
use midgard_history::helpers::time_intervals::interval_to_seconds;
use midgard_history::models::filter::{Comparison, Condition};
use midgard_history::routes::types::CommonQueryParams;
use midgard_history::text::{parse_integer, text_eq};

fn query(
    count: Option<&str>,
    page: Option<&str>,
    from: Option<&str>,
    to: Option<&str>,
) -> CommonQueryParams {
    CommonQueryParams {
        count: count.map(|s| s.to_string()),
        page: page.map(|s| s.to_string()),
        from: from.map(|s| s.to_string()),
        to: to.map(|s| s.to_string()),
    }
}

#[test]
fn test_valid_query() {
    let query = CommonQueryParams {
        count: Some("10".to_string()),
        page: Some("1".to_string()),
        from: Some("2022-04-01T00:00:00".to_string()),
        to: Some("2023-04-01T00:00:00".to_string()),
    };
    let parser = QueryParser::new(&query, 400).unwrap();
    assert_eq!(parser.count, 10);
    assert_eq!(parser.page, 1);
}

#[test]
fn test_invalid_count() {
    let query = CommonQueryParams {
        count: Some("500".to_string()),
        page: Some("1".to_string()),
        from: None,
        to: None,
    };
    let result = QueryParser::new(&query, 400);
    assert!(result.is_err());
}

#[test]
fn test_date_filter() {
    let parser = QueryParser { page: 1, count: 10, from: 1648771200, to: 1670304000 };
    let filter = parser.date_filter();
    let expected = vec![
        Condition { field: "startTime", comparison: Comparison::Gte, value: 1648771200 },
        Condition { field: "endTime", comparison: Comparison::Lte, value: 1670304000 },
    ];
    assert_eq!(filter, expected);
    assert_eq!(filter[0].comparison.operator(), "$gte");
    assert_eq!(filter[1].comparison.operator(), "$lte");
}

#[test]
fn valid_query_resolves_dates_to_utc_seconds() {
    let q = query(Some("10"), Some("1"), Some("2022-04-01T00:00:00"), Some("2023-04-01T00:00:00"));
    let parser = QueryParser::new(&q, 400).unwrap();
    assert_eq!(parser, QueryParser { page: 1, count: 10, from: 1648771200, to: 1680307200 });
}

#[test]
fn invalid_count_names_its_error() {
    let q = query(Some("500"), Some("1"), None, None);
    assert_eq!(QueryParser::new(&q, 400), Err(ValidationError::InvalidCount));
    let q = query(Some("0"), None, None, None);
    assert_eq!(QueryParser::new(&q, 400), Err(ValidationError::InvalidCount));
    let q = query(Some("ten"), None, None, None);
    assert_eq!(QueryParser::new(&q, 400), Err(ValidationError::InvalidCount));
    let q = query(Some("101"), None, None, None);
    assert_eq!(QueryParser::new(&q, 100), Err(ValidationError::InvalidCount));
}

#[test]
fn every_count_in_range_is_kept() {
    for count in [1i64, 2, 57, 399, 400] {
        let text = count.to_string();
        let q = query(Some(&text), None, None, Some("2023-04-01T00:00:00"));
        assert_eq!(QueryParser::new(&q, 400).unwrap().count, count);
    }
}

#[test]
fn count_defaults_to_the_maximum() {
    let q = query(None, None, None, Some("2023-04-01T00:00:00"));
    assert_eq!(QueryParser::new(&q, 400).unwrap().count, 400);
    assert_eq!(QueryParser::new(&q, 100).unwrap().count, 100);
}

#[test]
fn page_defaults_to_one_and_must_be_positive() {
    let q = query(None, None, None, Some("2023-04-01T00:00:00"));
    assert_eq!(QueryParser::new(&q, 400).unwrap().page, 1);
    let q = query(None, Some("0"), None, None);
    assert_eq!(QueryParser::new(&q, 400), Err(ValidationError::InvalidPage));
    let q = query(None, Some("-3"), None, None);
    assert_eq!(QueryParser::new(&q, 400), Err(ValidationError::InvalidPage));
    let q = query(None, Some("first"), None, None);
    assert_eq!(QueryParser::new(&q, 400), Err(ValidationError::InvalidPage));
}

#[test]
fn from_defaults_to_the_project_start() {
    let q = query(None, None, None, Some("2023-04-01T00:00:00"));
    assert_eq!(QueryParser::new(&q, 400).unwrap().from, 1648771200);
    assert_eq!(DEFAULT_FROM, 1648771200);
}

#[test]
fn to_defaults_to_the_current_time() {
    let q = query(None, None, Some("2022-04-01T00:00:00"), None);
    let parser = QueryParser::new(&q, 400).unwrap();
    assert!(parser.to > 1700000000);
    assert!(parser.from <= parser.to);
}

#[test]
fn unreadable_dates_are_refused() {
    let q = query(None, None, Some("2022-04-01"), None);
    assert_eq!(QueryParser::new(&q, 400), Err(ValidationError::InvalidDateFormat));
    let q = query(None, None, None, Some("2022-04-01T00:00:00+02:00"));
    assert_eq!(QueryParser::new(&q, 400), Err(ValidationError::InvalidDateFormat));
    let q = query(None, None, Some("yesterday"), Some("2022-04-01T00:00:00"));
    assert_eq!(QueryParser::new(&q, 400), Err(ValidationError::InvalidDateFormat));
}

#[test]
fn from_after_to_is_refused() {
    let q = query(None, None, Some("2024-06-01T00:00:00"), Some("2024-01-01T00:00:00"));
    assert_eq!(QueryParser::new(&q, 400), Err(ValidationError::FromAfterTo));
}

#[test]
fn from_equal_to_is_accepted() {
    let q = query(None, None, Some("2024-06-01T00:00:00"), Some("2024-06-01T00:00:00"));
    let parser = QueryParser::new(&q, 400).unwrap();
    assert_eq!(parser.from, parser.to);
}

#[test]
fn the_first_failing_check_names_the_error() {
    let q = query(Some("500"), Some("0"), Some("bad"), Some("bad"));
    assert_eq!(QueryParser::new(&q, 400), Err(ValidationError::InvalidCount));
    let q = query(Some("5"), Some("0"), Some("bad"), Some("bad"));
    assert_eq!(QueryParser::new(&q, 400), Err(ValidationError::InvalidPage));
    let q = query(Some("5"), Some("1"), Some("bad"), Some("bad"));
    assert_eq!(QueryParser::new(&q, 400), Err(ValidationError::InvalidDateFormat));
}

#[test]
fn resolve_works_on_what_was_read() {
    let ok = QueryParser::resolve(Given::Value(10), Given::Value(3), Given::Absent, Given::Absent, 400, 2000000000);
    assert_eq!(ok, Ok(QueryParser { page: 3, count: 10, from: 1648771200, to: 2000000000 }));
    let late = QueryParser::resolve(Given::Absent, Given::Absent, Given::Value(10), Given::Value(9), 400, 0);
    assert_eq!(late, Err(ValidationError::FromAfterTo));
    let now_early = QueryParser::resolve(Given::Absent, Given::Absent, Given::Absent, Given::Absent, 400, 5);
    assert_eq!(now_early, Err(ValidationError::FromAfterTo));
    let bad = QueryParser::resolve(Given::Malformed, Given::Absent, Given::Absent, Given::Absent, 400, 0);
    assert_eq!(bad, Err(ValidationError::InvalidCount));
    let bad = QueryParser::resolve(Given::Absent, Given::Malformed, Given::Absent, Given::Absent, 400, 0);
    assert_eq!(bad, Err(ValidationError::InvalidPage));
    let bad = QueryParser::resolve(Given::Absent, Given::Absent, Given::Absent, Given::Malformed, 400, 0);
    assert_eq!(bad, Err(ValidationError::InvalidDateFormat));
    let none = QueryParser::resolve(Given::Absent, Given::Absent, Given::Absent, Given::Absent, 0, 2000000000);
    assert_eq!(none, Err(ValidationError::InvalidCount));
}

#[test]
fn new_at_takes_the_time_as_given() {
    let q = query(Some("7"), Some("2"), None, None);
    assert_eq!(
        QueryParser::new_at(&q, 400, 1700000000),
        Ok(QueryParser { page: 2, count: 7, from: 1648771200, to: 1700000000 })
    );
}

#[test]
fn skip_is_pages_before_times_count() {
    let parser = QueryParser { page: 3, count: 10, from: 0, to: 1 };
    assert_eq!(parser.skip(), 20);
    let parser = QueryParser { page: 1, count: 400, from: 0, to: 1 };
    assert_eq!(parser.skip(), 0);
    let parser = QueryParser { page: 0, count: 10, from: 0, to: 1 };
    assert_eq!(parser.skip(), 0);
    let parser = QueryParser { page: 26, count: 400, from: 0, to: 1 };
    assert_eq!(parser.skip(), 10000);
}

#[test]
fn parse_date_gives_seconds_since_the_epoch() {
    assert_eq!(parse_date("1970-01-01T00:00:00"), Ok(0));
    assert_eq!(parse_date("2022-04-01T00:00:00"), Ok(1648771200));
    assert_eq!(parse_date("2023-10-23T12:34:56"), Ok(1698064496));
    assert_eq!(parse_date("1969-12-31T23:59:59"), Ok(-1));
}

#[test]
fn parse_date_refuses_other_shapes() {
    assert_eq!(parse_date(""), Err(ValidationError::InvalidDateFormat));
    assert_eq!(parse_date("2022-04-01 00:00:00"), Err(ValidationError::InvalidDateFormat));
    assert_eq!(parse_date("2022-13-01T00:00:00"), Err(ValidationError::InvalidDateFormat));
    assert_eq!(parse_date("2022-04-01T24:00:00"), Err(ValidationError::InvalidDateFormat));
    assert_eq!(parse_date("2022-04-01T00:00:00Z"), Err(ValidationError::InvalidDateFormat));
    assert_eq!(parse_date("1648771200"), Err(ValidationError::InvalidDateFormat));
}

#[test]
fn parse_integer_reads_signed_decimals() {
    assert_eq!(parse_integer("0"), Some(0));
    assert_eq!(parse_integer("10"), Some(10));
    assert_eq!(parse_integer("+5"), Some(5));
    assert_eq!(parse_integer("-17"), Some(-17));
    assert_eq!(parse_integer("007"), Some(7));
    assert_eq!(parse_integer("9223372036854775807"), Some(i64::MAX));
    assert_eq!(parse_integer("-9223372036854775808"), Some(i64::MIN));
    assert_eq!(parse_integer("000000000000000000000000000000000000042"), Some(42));
}

#[test]
fn parse_integer_refuses_what_is_no_integer() {
    assert_eq!(parse_integer(""), None);
    assert_eq!(parse_integer("-"), None);
    assert_eq!(parse_integer("+"), None);
    assert_eq!(parse_integer("1a"), None);
    assert_eq!(parse_integer(" 1"), None);
    assert_eq!(parse_integer("1 "), None);
    assert_eq!(parse_integer("--1"), None);
    assert_eq!(parse_integer("1.0"), None);
    assert_eq!(parse_integer("١٢"), None);
    assert_eq!(parse_integer("9223372036854775808"), None);
    assert_eq!(parse_integer("-9223372036854775809"), None);
    assert_eq!(parse_integer("99999999999999999999999999999999999999999999"), None);
}

#[test]
fn parse_integer_agrees_with_the_standard_parser() {
    for text in ["0", "-0", "+0", "12", "-12", "+12", "", "+", "-", "1_000", "0x10", "4e2", "٣", "18446744073709551616"] {
        assert_eq!(parse_integer(text), text.parse::<i64>().ok(), "{}", text);
    }
}

#[test]
fn text_eq_compares_characters() {
    assert!(text_eq("hour", "hour"));
    assert!(!text_eq("hour", "hours"));
    assert!(!text_eq("", "a"));
    assert!(text_eq("", ""));
}

#[test]
fn interval_names_give_their_seconds() {
    assert_eq!(interval_to_seconds("hour"), 3600);
    assert_eq!(interval_to_seconds("day"), 86400);
    assert_eq!(interval_to_seconds("week"), 604800);
    assert_eq!(interval_to_seconds("month"), 2629800);
    assert_eq!(interval_to_seconds("quarter"), 7889400);
    assert_eq!(interval_to_seconds("year"), 31557600);
}

#[test]
fn unknown_interval_names_mean_a_day() {
    assert_eq!(interval_to_seconds("fortnight"), 86400);
    assert_eq!(interval_to_seconds(""), 86400);
    assert_eq!(interval_to_seconds("Hour"), 86400);
}

#[test]
fn validation_errors_are_bad_requests() {
    for error in [
        ValidationError::InvalidCount,
        ValidationError::InvalidPage,
        ValidationError::InvalidDateFormat,
        ValidationError::FromAfterTo,
        ValidationError::InvalidSortField,
    ] {
        assert_eq!(error.status(), 400);
        assert!(!error.message().is_empty());
    }
    assert_eq!(ValidationError::InvalidSortField.message(), "Invalid sort_by parameter.");
    assert_eq!(ValidationError::FromAfterTo.message(), "'from' cannot be greater than 'to'.");
    assert_eq!(
        ValidationError::InvalidDateFormat.message(),
        "Invalid date format. Use 'YYYY-MM-DDTHH:MM:SS'."
    );
}
