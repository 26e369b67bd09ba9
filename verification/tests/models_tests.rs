use midgard_history::errors::ValidationError;
use midgard_history::models::depth_history_model::DepthHistoryInterval;
use midgard_history::models::earning_history_model::EarningHistoryInterval;
use midgard_history::models::interval::{place_of, Interval};
use midgard_history::models::rptmuh_model::RpmuHistoryInterval;
use midgard_history::models::series::SeriesKind;
use midgard_history::models::swaps_history::SwapsHistoryInterval;
use midgard_history::routes::depths_history::fetch_depths_history;
use midgard_history::routes::earnings_history::{handle_earnings_history, pool_selector};
use midgard_history::routes::plan::{plan_query, read_order, text_or_default};
use midgard_history::routes::rpmuh_history::get_member_data;
use midgard_history::routes::swaps_history::handle_swaps_history;
use midgard_history::routes::types::{
    CommonQueryParams, DepthHistoryParams, EarningHistoryParams, RpmuHistoryQuery,
    SwapHistoryParams,
};

fn common(count: Option<&str>, page: Option<&str>) -> CommonQueryParams {
    CommonQueryParams {
        count: count.map(|s| s.to_string()),
        page: page.map(|s| s.to_string()),
        from: None,
        to: Some("2024-01-01T00:00:00".to_string()),
    }
}

fn text(s: &str) -> Option<String> {
    Some(s.to_string())
}

#[test]
fn depth_fields_are_listed() {
    assert_eq!(
        DepthHistoryInterval::get_feilds(),
        vec![
            "assetDepth",
            "assetPrice",
            "assetPriceUSD",
            "endTime",
            "liquidityUnits",
            "luvi",
            "membersCount",
            "runeDepth",
            "startTime",
            "synthSupply",
            "synthUnits",
            "units",
        ]
    );
    assert!(DepthHistoryInterval::has_field("assetPriceUSD".to_string()));
    assert!(!DepthHistoryInterval::has_field("asset_depth".to_string()));
    assert!(!DepthHistoryInterval::has_field("invalid_field".to_string()));
}

#[test]
fn earnings_fields_are_listed() {
    assert_eq!(
        EarningHistoryInterval::field_names(),
        vec![
            "startTime",
            "endTime",
            "liquidityFees",
            "blockRewards",
            "earnings",
            "bondingEarnings",
            "liquidityEarnings",
            "avgNodeCount",
            "runePriceUSD",
            "pools",
        ]
    );
    assert!(EarningHistoryInterval::has_field("pools".to_string()));
    assert!(!EarningHistoryInterval::has_field("iinvalid".to_string()));
}

#[test]
fn runepool_fields_are_listed() {
    assert_eq!(RpmuHistoryInterval::field_names(), vec!["count", "endTime", "startTime", "units"]);
    assert!(RpmuHistoryInterval::has_field("units".to_string()));
    assert!(!RpmuHistoryInterval::has_field("".to_string()));
}

#[test]
fn swap_fields_are_listed() {
    let names = SwapsHistoryInterval::field_names();
    assert_eq!(names.len(), 38);
    assert_eq!(names[0], "averageSlip");
    assert_eq!(names[6], "fromTradeVolumeUSD");
    assert_eq!(names[8], "startTime");
    assert_eq!(names[37], "totalVolumeUSD");
    assert!(SwapsHistoryInterval::has_field("totalFees".to_string()));
    assert!(!SwapsHistoryInterval::has_field("invalid".to_string()));
}

#[test]
fn every_field_has_its_value_at_its_place() {
    let record = RpmuHistoryInterval { count: 1, end_time: 2, start_time: 3, units: 4 };
    let names = RpmuHistoryInterval::fields();
    assert_eq!(record.value_at(place_of(&names, "count")), 1);
    assert_eq!(record.value_at(place_of(&names, "endTime")), 2);
    assert_eq!(record.value_at(place_of(&names, "startTime")), 3);
    assert_eq!(record.value_at(place_of(&names, "units")), 4);
    assert_eq!(place_of(&names, "members"), 4);
    assert_eq!(record.start(), 3);
    assert_eq!(record.end(), 2);
    assert_eq!(
        record.with_start_time(9),
        RpmuHistoryInterval { count: 1, end_time: 2, start_time: 9, units: 4 }
    );
}

#[test]
fn depth_values_follow_the_names() {
    let record = DepthHistoryInterval {
        asset_depth: 0,
        asset_price: 1,
        asset_price_usd: 2,
        end_time: 3,
        liquidity_units: 4,
        luvi: 5,
        members_count: 6,
        rune_depth: 7,
        start_time: 8,
        synth_supply: 9,
        synth_units: 10,
        units: 11,
    };
    for place in 0..12 {
        assert_eq!(record.value_at(place), place as i64);
    }
    assert_eq!(record.start(), 8);
    assert_eq!(record.end(), 3);
}

#[test]
fn series_know_their_fields_and_limits() {
    assert_eq!(SeriesKind::Depths.field_names(), DepthHistoryInterval::get_feilds());
    assert_eq!(SeriesKind::Swaps.field_names(), SwapsHistoryInterval::field_names());
    assert_eq!(SeriesKind::Earnings.field_names(), EarningHistoryInterval::field_names());
    assert_eq!(SeriesKind::RunepoolUnits.field_names(), RpmuHistoryInterval::field_names());
    assert_eq!(SeriesKind::Depths.max_count(), 400);
    assert_eq!(SeriesKind::Swaps.max_count(), 400);
    assert_eq!(SeriesKind::RunepoolUnits.max_count(), 400);
    assert_eq!(SeriesKind::Earnings.max_count(), 100);
    for kind in [SeriesKind::Depths, SeriesKind::Swaps, SeriesKind::Earnings, SeriesKind::RunepoolUnits] {
        assert!(kind.has_field("startTime"));
        assert!(kind.has_field("endTime"));
        assert!(!kind.has_field("invalid_field"));
    }
    assert!(SeriesKind::Depths.has_field("luvi"));
    assert!(!SeriesKind::Swaps.has_field("luvi"));
}

#[test]
fn an_unknown_sort_field_is_a_bad_request_for_every_series() {
    let depths = DepthHistoryParams {
        common: common(None, None),
        interval: None,
        sort_by: text("invalid_field"),
        order: None,
        min_depth: None,
        max_depth: None,
        liquidity_gt: None,
    };
    let error = fetch_depths_history(&depths).unwrap_err();
    assert_eq!(error, ValidationError::InvalidSortField);
    assert_eq!(error.status(), 400);
    let swaps = SwapHistoryParams {
        common: common(Some("3"), Some("3")),
        interval: None,
        sort_by: text("invalid"),
        order: None,
    };
    let error = handle_swaps_history(&swaps).unwrap_err();
    assert_eq!(error, ValidationError::InvalidSortField);
    assert_eq!(error.status(), 400);
    let runepool = RpmuHistoryQuery {
        common: common(Some("10"), Some("1")),
        interval: None,
        sort_by: text("invalid_field"),
        order: None,
    };
    let error = get_member_data(&runepool).unwrap_err();
    assert_eq!(error, ValidationError::InvalidSortField);
    assert_eq!(error.status(), 400);
    let earnings = EarningHistoryParams {
        common: common(None, None),
        interval: text("day"),
        sort_by: text("iinvalid"),
        order: None,
        pool: None,
    };
    let error = handle_earnings_history(&earnings).unwrap_err();
    assert_eq!(error, ValidationError::InvalidSortField);
    assert_eq!(error.status(), 400);
}

#[test]
fn a_request_is_planned_with_its_defaults() {
    let swaps = SwapHistoryParams {
        common: common(Some("3"), Some("3")),
        interval: None,
        sort_by: text("totalFees"),
        order: None,
    };
    let plan = handle_swaps_history(&swaps).unwrap();
    assert_eq!(plan.parameters.count, 3);
    assert_eq!(plan.parameters.page, 3);
    assert_eq!(plan.parameters.from, 1648771200);
    assert_eq!(plan.parameters.to, 1704067200);
    assert_eq!(plan.interval, "hour");
    assert_eq!(plan.sort_by, "totalFees");
    assert_eq!(plan.order, -1);
    let runepool = RpmuHistoryQuery {
        common: common(Some("10"), Some("1")),
        interval: text("week"),
        sort_by: None,
        order: text("asc"),
    };
    let plan = get_member_data(&runepool).unwrap();
    assert_eq!(plan.interval, "week");
    assert_eq!(plan.sort_by, "startTime");
    assert_eq!(plan.order, 1);
    assert_eq!(plan.parameters.count, 10);
}

#[test]
fn earnings_pages_hold_at_most_a_hundred_rows() {
    let mut earnings = EarningHistoryParams {
        common: common(None, None),
        interval: text("day"),
        sort_by: None,
        order: None,
        pool: None,
    };
    assert_eq!(handle_earnings_history(&earnings).unwrap().parameters.count, 100);
    assert_eq!(pool_selector(&earnings), "all");
    earnings.common.count = text("101");
    assert_eq!(handle_earnings_history(&earnings).unwrap_err(), ValidationError::InvalidCount);
    earnings.common.count = text("100");
    earnings.pool = text("BTC.BTC");
    assert_eq!(handle_earnings_history(&earnings).unwrap().parameters.count, 100);
    assert_eq!(pool_selector(&earnings), "BTC.BTC");
}

#[test]
fn the_resolver_is_asked_before_the_sort_field() {
    let depths = DepthHistoryParams {
        common: common(Some("401"), None),
        interval: None,
        sort_by: text("invalid_field"),
        order: None,
        min_depth: None,
        max_depth: None,
        liquidity_gt: None,
    };
    assert_eq!(fetch_depths_history(&depths).unwrap_err(), ValidationError::InvalidCount);
}

#[test]
fn plan_query_takes_the_time_as_given() {
    let query = CommonQueryParams { count: None, page: None, from: None, to: None };
    let plan = plan_query(SeriesKind::Depths, &query, &None, &None, &text("desc"), 1700000000).unwrap();
    assert_eq!(plan.parameters.to, 1700000000);
    assert_eq!(plan.parameters.count, 400);
    assert_eq!(plan.order, -1);
    let refused = plan_query(SeriesKind::Depths, &query, &None, &None, &None, 5);
    assert_eq!(refused.unwrap_err(), ValidationError::FromAfterTo);
}

#[test]
fn order_is_ascending_only_for_asc() {
    assert_eq!(read_order(&text("asc")), 1);
    assert_eq!(read_order(&text("desc")), -1);
    assert_eq!(read_order(&text("ASC")), -1);
    assert_eq!(read_order(&text("")), -1);
    assert_eq!(read_order(&None), -1);
    assert_eq!(text_or_default(&None, "hour"), "hour");
    assert_eq!(text_or_default(&text("day"), "hour"), "day");
}
