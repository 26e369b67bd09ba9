//! The parameters of each query endpoint and the page information of each answer.

use vstd::prelude::*;
use crate::models::depth_history_model::{DepthHistoryInterval, DepthHistoryMeta};
use crate::models::earning_history_model::EarningHistoryInterval;
use crate::models::rptmuh_model::RpmuHistoryInterval;
use crate::models::swaps_history::SwapsHistoryInterval;

verus! {

/// The parameters that every query endpoint shares, as they arrive: text or nothing.
#[derive(Debug)]
pub struct CommonQueryParams {
    pub page: Option<String>,
    pub count: Option<String>,
    pub from: Option<String>,
    pub to: Option<String>,
}

/// The parameters of the swaps endpoint.
#[derive(Debug)]
pub struct SwapHistoryParams {
    pub common: CommonQueryParams,
    pub interval: Option<String>,
    pub sort_by: Option<String>,
    pub order: Option<String>,
}

/// The page information of a swaps answer.
#[derive(Debug, Clone, Copy, PartialEq, Eq, Structural)]
pub struct SwapHistoryMeta {
    pub current_page: i64,
    pub count: i64,
    pub has_next_page: bool,
}

/// A swaps answer.
#[derive(Debug)]
pub struct SwapHistoryResponse {
    pub meta: SwapHistoryMeta,
    pub intervals: Vec<SwapsHistoryInterval>,
}

/// The parameters of the rune-pool endpoint.
#[derive(Debug)]
pub struct RpmuHistoryQuery {
    pub common: CommonQueryParams,
    pub interval: Option<String>,
    pub sort_by: Option<String>,
    pub order: Option<String>,
}

/// The summary of a rune-pool answer: members, units and time at the first
/// and at the last row of the page, and the page information.
#[derive(Debug, Clone, Copy, PartialEq, Eq, Structural)]
pub struct RpmuHistoryMeta {
    pub end_count: i64,
    pub end_time: i64,
    pub end_units: i64,
    pub start_count: i64,
    pub start_time: i64,
    pub start_units: i64,
    pub current_page: i64,
    pub count: i64,
    pub has_next_page: bool,
}

/// A rune-pool answer.
#[derive(Debug)]
pub struct RpmuHistoryResponse {
    pub meta: RpmuHistoryMeta,
    pub intervals: Vec<RpmuHistoryInterval>,
}

/// The parameters of the earnings endpoint.
#[derive(Debug)]
pub struct EarningHistoryParams {
    pub common: CommonQueryParams,
    pub interval: Option<String>,
    pub sort_by: Option<String>,
    pub order: Option<String>,
    pub pool: Option<String>,
}

/// The page information of an earnings answer.
#[derive(Debug, Clone, Copy, PartialEq, Eq, Structural)]
pub struct EarningHistoryFlattenMeta {
    pub count: i64,
    pub page: i64,
    pub has_next_page: bool,
}

/// An earnings answer.
#[derive(Debug)]
pub struct EarningHistoryResponse {
    pub meta: EarningHistoryFlattenMeta,
    pub intervals: Vec<EarningHistoryInterval>,
}

/// The parameters of the depths endpoint. The three bounds are held as the
/// integers that stand for them, like the measurements they are held against.
#[derive(Debug)]
pub struct DepthHistoryParams {
    pub common: CommonQueryParams,
    pub interval: Option<String>,
    pub sort_by: Option<String>,
    pub order: Option<String>,
    pub min_depth: Option<i64>,
    pub max_depth: Option<i64>,
    pub liquidity_gt: Option<i64>,
}

/// The summary of a depths answer: the depths at the first and at the last
/// row of the page, and the page information.
#[derive(Debug, Clone, Copy, PartialEq, Eq, Structural)]
pub struct DepthsHistoryMeta {
    pub meta: DepthHistoryMeta,
    pub current_page: i64,
    pub count: i64,
    pub has_next_page: bool,
}

/// A depths answer.
#[derive(Debug)]
pub struct DepthHistoryResponse {
    pub meta: DepthsHistoryMeta,
    pub intervals: Vec<DepthHistoryInterval>,
}

} // verus!
