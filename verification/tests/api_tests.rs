use midgard_history::errors::ValidationError;
use midgard_history::models::depth_history_model::DepthHistoryInterval;
use midgard_history::models::earning_history_model::{EarningHistoryInterval, EarningHistoryPool};
use midgard_history::models::rptmuh_model::RpmuHistoryInterval;
use midgard_history::models::swaps_history::SwapsHistoryInterval;
use midgard_history::routes::depths_history;
use midgard_history::routes::earnings_history::{handle_earnings_history, pool_selector};
use midgard_history::routes::rpmuh_history::get_member_data;
use midgard_history::routes::swaps_history::handle_swaps_history;
use midgard_history::routes::types::{
    CommonQueryParams, DepthHistoryParams, EarningHistoryParams, RpmuHistoryQuery,
    SwapHistoryParams,
};
use midgard_history::services::depths_service;
use midgard_history::services::earnings_service::fetch_earnings_history;
use midgard_history::services::rpmuh_service::fetch_rpmuh_data;
use midgard_history::services::swaps_service::fetch_swaps_history;

const OK: u16 = 200;
const BAD_REQUEST: u16 = 400;

fn text(s: &str) -> Option<String> {
    Some(s.to_string())
}

fn common(
    page: Option<&str>,
    count: Option<&str>,
    from: Option<&str>,
    to: Option<&str>,
) -> CommonQueryParams {
    CommonQueryParams {
        page: page.map(|s| s.to_string()),
        count: count.map(|s| s.to_string()),
        from: from.map(|s| s.to_string()),
        to: to.map(|s| s.to_string()),
    }
}

fn hours_from(start: i64, n: i64) -> Vec<i64> {
    (0..n).map(|i| start + i * 3600).collect()
}

fn runepool_status(query: &RpmuHistoryQuery, records: &Vec<RpmuHistoryInterval>) -> u16 {
    match get_member_data(query) {
        Err(error) => error.status(),
        Ok(plan) => {
            match fetch_rpmuh_data(records, plan.parameters, &plan.interval, plan.sort_by, plan.order) {
                Ok(_) => OK,
                Err(error) => error.status(),
            }
        }
    }
}

fn earnings_status(query: &EarningHistoryParams, records: &Vec<EarningHistoryInterval>) -> u16 {
    match handle_earnings_history(query) {
        Err(error) => error.status(),
        Ok(plan) => {
            let pool = pool_selector(query);
            match fetch_earnings_history(
                records,
                plan.parameters,
                &plan.interval,
                plan.sort_by,
                plan.order,
                &pool,
            ) {
                Ok(_) => OK,
                Err(error) => error.status(),
            }
        }
    }
}

fn swaps_status(query: &SwapHistoryParams, records: &Vec<SwapsHistoryInterval>) -> u16 {
    match handle_swaps_history(query) {
        Err(error) => error.status(),
        Ok(plan) => {
            match fetch_swaps_history(records, plan.parameters, &plan.interval, plan.sort_by, plan.order) {
                Ok(_) => OK,
                Err(error) => error.status(),
            }
        }
    }
}

fn depths_status(query: &DepthHistoryParams, records: &Vec<DepthHistoryInterval>) -> u16 {
    match depths_history::fetch_depths_history(query) {
        Err(error) => error.status(),
        Ok(plan) => {
            match depths_service::fetch_depths_history(
                records,
                plan.parameters,
                &plan.interval,
                plan.sort_by,
                plan.order,
                query.max_depth,
                query.min_depth,
                query.liquidity_gt,
            ) {
                Ok(_) => OK,
                Err(error) => error.status(),
            }
        }
    }
}

fn runepool_records() -> Vec<RpmuHistoryInterval> {
    hours_from(1_700_000_000, 30)
        .into_iter()
        .enumerate()
        .map(|(i, start_time)| RpmuHistoryInterval {
            count: 10 + i as i64,
            end_time: start_time + 3600,
            start_time,
            units: 1000 - i as i64,
        })
        .collect()
}

fn earnings_records() -> Vec<EarningHistoryInterval> {
    hours_from(1_698_019_200, 48)
        .into_iter()
        .map(|start_time| EarningHistoryInterval {
            start_time,
            end_time: start_time + 3600,
            liquidity_fees: 1,
            block_rewards: 2,
            earnings: 3,
            bonding_earnings: 4,
            liquidity_earnings: 5,
            avg_node_count: 6,
            rune_price_usd: 7,
            pools: vec![EarningHistoryPool {
                pool: "BTC.BTC".to_string(),
                asset_liquidity_fees: 1,
                rune_liquidity_fees: 2,
                total_liquidity_fees_rune: 3,
                saver_earning: 4,
                rewards: 5,
                earnings: 6,
            }],
        })
        .collect()
}

fn swaps_records() -> Vec<SwapsHistoryInterval> {
    hours_from(1_700_000_000, 9)
        .into_iter()
        .enumerate()
        .map(|(i, start_time)| SwapsHistoryInterval {
            average_slip: 0,
            end_time: start_time + 3600,
            from_trade_average_slip: 0,
            from_trade_count: 0,
            from_trade_fees: 0,
            from_trade_volume: 0,
            from_trade_volume_usd: 0,
            rune_price_usd: 0,
            start_time,
            synth_mint_average_slip: 0,
            synth_mint_count: 0,
            synth_mint_fees: 0,
            synth_mint_volume: 0,
            synth_mint_volume_usd: 0,
            synth_redeem_average_slip: 0,
            synth_redeem_count: 0,
            synth_redeem_fees: 0,
            synth_redeem_volume: 0,
            synth_redeem_volume_usd: 0,
            to_asset_average_slip: 0,
            to_asset_count: 0,
            to_asset_fees: 0,
            to_asset_volume: 0,
            to_asset_volume_usd: 0,
            to_rune_average_slip: 0,
            to_rune_count: 0,
            to_rune_fees: 0,
            to_rune_volume: 0,
            to_rune_volume_usd: 0,
            to_trade_average_slip: 0,
            to_trade_count: 0,
            to_trade_fees: 0,
            to_trade_volume: 0,
            to_trade_volume_usd: 0,
            total_count: 0,
            total_fees: 100 - i as i64,
            total_volume: 0,
            total_volume_usd: 0,
        })
        .collect()
}

fn depths_records() -> Vec<DepthHistoryInterval> {
    hours_from(1_680_000_000, 72)
        .into_iter()
        .map(|start_time| DepthHistoryInterval {
            asset_depth: 1,
            asset_price: 2,
            asset_price_usd: 3,
            end_time: start_time + 3600,
            liquidity_units: 4,
            luvi: 5,
            members_count: 6,
            rune_depth: 7,
            start_time,
            synth_supply: 8,
            synth_units: 9,
            units: 10,
        })
        .collect()
}

#[test]
fn test_get_runepool_history() {
    let query = RpmuHistoryQuery {
        common: common(Some("1"), Some("10"), None, None),
        interval: None,
        sort_by: text("units"),
        order: None,
    };
    assert_eq!(runepool_status(&query, &runepool_records()), OK);
}

#[test]
fn test_get_runepool_history_invalid_sort() {
    let query = RpmuHistoryQuery {
        common: common(Some("1"), Some("10"), None, None),
        interval: None,
        sort_by: text("invalid_field"),
        order: None,
    };
    assert_eq!(runepool_status(&query, &runepool_records()), BAD_REQUEST);
    assert_eq!(get_member_data(&query).unwrap_err(), ValidationError::InvalidSortField);
}

#[test]
fn test_get_earnings_history() {
    let query = EarningHistoryParams {
        common: common(None, None, Some("2023-10-23T00:00:00"), Some("2023-10-30T00:00:00")),
        interval: text("day"),
        sort_by: None,
        order: None,
        pool: None,
    };
    assert_eq!(earnings_status(&query, &earnings_records()), OK);
}

#[test]
fn test_get_earnings_history_invalid_sort() {
    let query = EarningHistoryParams {
        common: common(None, None, Some("2023-10-23T00:00:00"), Some("2023-10-30T00:00:00")),
        interval: text("day"),
        sort_by: text("iinvalid"),
        order: None,
        pool: None,
    };
    assert_eq!(earnings_status(&query, &earnings_records()), BAD_REQUEST);
}

#[test]
fn test_get_swaps_history() {
    let query = SwapHistoryParams {
        common: common(Some("3"), Some("3"), None, None),
        interval: None,
        sort_by: text("totalFees"),
        order: None,
    };
    assert_eq!(swaps_status(&query, &swaps_records()), OK);
}

#[test]
fn test_get_swaps_history_invalid_sort() {
    let query = SwapHistoryParams {
        common: common(Some("3"), Some("3"), None, None),
        interval: None,
        sort_by: text("invalid"),
        order: None,
    };
    assert_eq!(swaps_status(&query, &swaps_records()), BAD_REQUEST);
}

#[test]
fn test_get_depth_data() {
    let query = DepthHistoryParams {
        common: common(None, None, Some("2023-01-01T00:00:00"), Some("2023-12-31T00:00:00")),
        interval: text("day"),
        sort_by: None,
        order: None,
        min_depth: None,
        max_depth: None,
        liquidity_gt: None,
    };
    assert_eq!(depths_status(&query, &depths_records()), OK);
}

#[test]
fn test_get_depth_data_invalid_sort() {
    let query = DepthHistoryParams {
        common: common(None, None, None, None),
        interval: None,
        sort_by: text("invalid_field"),
        order: None,
        min_depth: None,
        max_depth: None,
        liquidity_gt: None,
    };
    assert_eq!(depths_status(&query, &depths_records()), BAD_REQUEST);
}

#[test]
fn a_query_without_data_is_a_server_error() {
    let query = SwapHistoryParams {
        common: common(Some("3"), Some("3"), None, None),
        interval: None,
        sort_by: text("totalFees"),
        order: None,
    };
    assert_eq!(swaps_status(&query, &Vec::new()), 500);
    assert_eq!(swaps_status(&query, &swaps_records()[..6].to_vec()), 500);
}
