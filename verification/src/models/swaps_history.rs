//! Swaps: the record of one interval, and the totals of a range of them.

use vstd::prelude::*;
use vstd::string::*;
use crate::models::interval::{find_name, is_named, place_of, Interval};

verus! {

/// The swaps of one interval: counts, volumes, fees and slips by direction.
#[derive(Debug, Clone, Copy, PartialEq, Eq, Structural)]
pub struct SwapsHistoryInterval {
    pub average_slip: i64,
    pub end_time: i64,
    pub from_trade_average_slip: i64,
    pub from_trade_count: i64,
    pub from_trade_fees: i64,
    pub from_trade_volume: i64,
    pub from_trade_volume_usd: i64,
    pub rune_price_usd: i64,
    pub start_time: i64,
    pub synth_mint_average_slip: i64,
    pub synth_mint_count: i64,
    pub synth_mint_fees: i64,
    pub synth_mint_volume: i64,
    pub synth_mint_volume_usd: i64,
    pub synth_redeem_average_slip: i64,
    pub synth_redeem_count: i64,
    pub synth_redeem_fees: i64,
    pub synth_redeem_volume: i64,
    pub synth_redeem_volume_usd: i64,
    pub to_asset_average_slip: i64,
    pub to_asset_count: i64,
    pub to_asset_fees: i64,
    pub to_asset_volume: i64,
    pub to_asset_volume_usd: i64,
    pub to_rune_average_slip: i64,
    pub to_rune_count: i64,
    pub to_rune_fees: i64,
    pub to_rune_volume: i64,
    pub to_rune_volume_usd: i64,
    pub to_trade_average_slip: i64,
    pub to_trade_count: i64,
    pub to_trade_fees: i64,
    pub to_trade_volume: i64,
    pub to_trade_volume_usd: i64,
    pub total_count: i64,
    pub total_fees: i64,
    pub total_volume: i64,
    pub total_volume_usd: i64,
}

impl SwapsHistoryInterval {
    /// The names that a query may sort by: every field of the record.
    pub fn field_names() -> (names: Vec<&'static str>)
        ensures
            names@ == <Self as Interval>::names(),
    {
        let names = vec![
            "averageSlip",
            "endTime",
            "fromTradeAverageSlip",
            "fromTradeCount",
            "fromTradeFees",
            "fromTradeVolume",
            "fromTradeVolumeUSD",
            "runePriceUSD",
            "startTime",
            "synthMintAverageSlip",
            "synthMintCount",
            "synthMintFees",
            "synthMintVolume",
            "synthMintVolumeUSD",
            "synthRedeemAverageSlip",
            "synthRedeemCount",
            "synthRedeemFees",
            "synthRedeemVolume",
            "synthRedeemVolumeUSD",
            "toAssetAverageSlip",
            "toAssetCount",
            "toAssetFees",
            "toAssetVolume",
            "toAssetVolumeUSD",
            "toRuneAverageSlip",
            "toRuneCount",
            "toRuneFees",
            "toRuneVolume",
            "toRuneVolumeUSD",
            "toTradeAverageSlip",
            "toTradeCount",
            "toTradeFees",
            "toTradeVolume",
            "toTradeVolumeUSD",
            "totalCount",
            "totalFees",
            "totalVolume",
            "totalVolumeUSD",
        ];
        assert(names@ == <Self as Interval>::names());
        names
    }

    /// Whether the record has a field of that name.
    pub fn has_field(field: String) -> (has: bool)
        ensures
            has == is_named(<Self as Interval>::names(), field@),
    {
        let names = Self::field_names();
        place_of(&names, field.as_str()) < names.len()
    }
}

impl Interval for SwapsHistoryInterval {
    open spec fn names() -> Seq<&'static str> {
        seq![
            "averageSlip",
            "endTime",
            "fromTradeAverageSlip",
            "fromTradeCount",
            "fromTradeFees",
            "fromTradeVolume",
            "fromTradeVolumeUSD",
            "runePriceUSD",
            "startTime",
            "synthMintAverageSlip",
            "synthMintCount",
            "synthMintFees",
            "synthMintVolume",
            "synthMintVolumeUSD",
            "synthRedeemAverageSlip",
            "synthRedeemCount",
            "synthRedeemFees",
            "synthRedeemVolume",
            "synthRedeemVolumeUSD",
            "toAssetAverageSlip",
            "toAssetCount",
            "toAssetFees",
            "toAssetVolume",
            "toAssetVolumeUSD",
            "toRuneAverageSlip",
            "toRuneCount",
            "toRuneFees",
            "toRuneVolume",
            "toRuneVolumeUSD",
            "toTradeAverageSlip",
            "toTradeCount",
            "toTradeFees",
            "toTradeVolume",
            "toTradeVolumeUSD",
            "totalCount",
            "totalFees",
            "totalVolume",
            "totalVolumeUSD",
        ]
    }

    open spec fn at(&self, place: int) -> i64 {
        if place == 0 {
            self.average_slip
        } else if place == 1 {
            self.end_time
        } else if place == 2 {
            self.from_trade_average_slip
        } else if place == 3 {
            self.from_trade_count
        } else if place == 4 {
            self.from_trade_fees
        } else if place == 5 {
            self.from_trade_volume
        } else if place == 6 {
            self.from_trade_volume_usd
        } else if place == 7 {
            self.rune_price_usd
        } else if place == 8 {
            self.start_time
        } else if place == 9 {
            self.synth_mint_average_slip
        } else if place == 10 {
            self.synth_mint_count
        } else if place == 11 {
            self.synth_mint_fees
        } else if place == 12 {
            self.synth_mint_volume
        } else if place == 13 {
            self.synth_mint_volume_usd
        } else if place == 14 {
            self.synth_redeem_average_slip
        } else if place == 15 {
            self.synth_redeem_count
        } else if place == 16 {
            self.synth_redeem_fees
        } else if place == 17 {
            self.synth_redeem_volume
        } else if place == 18 {
            self.synth_redeem_volume_usd
        } else if place == 19 {
            self.to_asset_average_slip
        } else if place == 20 {
            self.to_asset_count
        } else if place == 21 {
            self.to_asset_fees
        } else if place == 22 {
            self.to_asset_volume
        } else if place == 23 {
            self.to_asset_volume_usd
        } else if place == 24 {
            self.to_rune_average_slip
        } else if place == 25 {
            self.to_rune_count
        } else if place == 26 {
            self.to_rune_fees
        } else if place == 27 {
            self.to_rune_volume
        } else if place == 28 {
            self.to_rune_volume_usd
        } else if place == 29 {
            self.to_trade_average_slip
        } else if place == 30 {
            self.to_trade_count
        } else if place == 31 {
            self.to_trade_fees
        } else if place == 32 {
            self.to_trade_volume
        } else if place == 33 {
            self.to_trade_volume_usd
        } else if place == 34 {
            self.total_count
        } else if place == 35 {
            self.total_fees
        } else if place == 36 {
            self.total_volume
        } else if place == 37 {
            self.total_volume_usd
        } else {
            0
        }
    }

    open spec fn started(&self) -> i64 {
        self.start_time
    }

    open spec fn ended(&self) -> i64 {
        self.end_time
    }

    open spec fn restarts(&self, whole: &Self, start_time: i64) -> bool {
        *self == (SwapsHistoryInterval { start_time, ..*whole })
    }

    proof fn lemma_timestamps(record: Self) {
        reveal_strlit("averageSlip");
        reveal_strlit("endTime");
        reveal_strlit("fromTradeAverageSlip");
        reveal_strlit("fromTradeCount");
        reveal_strlit("fromTradeFees");
        reveal_strlit("fromTradeVolume");
        reveal_strlit("fromTradeVolumeUSD");
        reveal_strlit("runePriceUSD");
        reveal_strlit("startTime");
        let names = Self::names();
        reveal_with_fuel(find_name, 10);
        assert("startTime"@.len() == 9);
        assert("averageSlip"@.len() == 11);
        assert(names[0]@ != "startTime"@);
        assert("endTime"@.len() == 7);
        assert(names[1]@ != "startTime"@);
        assert("fromTradeAverageSlip"@.len() == 20);
        assert(names[2]@ != "startTime"@);
        assert("fromTradeCount"@.len() == 14);
        assert(names[3]@ != "startTime"@);
        assert("fromTradeFees"@.len() == 13);
        assert(names[4]@ != "startTime"@);
        assert("fromTradeVolume"@.len() == 15);
        assert(names[5]@ != "startTime"@);
        assert("fromTradeVolumeUSD"@.len() == 18);
        assert(names[6]@ != "startTime"@);
        assert("runePriceUSD"@.len() == 12);
        assert(names[7]@ != "startTime"@);
        assert(names[8]@ == "startTime"@);
        assert(find_name(names, "startTime"@, 0) == 8);
        assert("endTime"@.len() == 7);
        assert("averageSlip"@.len() == 11);
        assert(names[0]@ != "endTime"@);
        assert(names[1]@ == "endTime"@);
        assert(find_name(names, "endTime"@, 0) == 1);
    }

    fn fields() -> (names: Vec<&'static str>) {
        Self::field_names()
    }

    fn value_at(&self, place: usize) -> (value: i64) {
        if place == 0 {
            self.average_slip
        } else if place == 1 {
            self.end_time
        } else if place == 2 {
            self.from_trade_average_slip
        } else if place == 3 {
            self.from_trade_count
        } else if place == 4 {
            self.from_trade_fees
        } else if place == 5 {
            self.from_trade_volume
        } else if place == 6 {
            self.from_trade_volume_usd
        } else if place == 7 {
            self.rune_price_usd
        } else if place == 8 {
            self.start_time
        } else if place == 9 {
            self.synth_mint_average_slip
        } else if place == 10 {
            self.synth_mint_count
        } else if place == 11 {
            self.synth_mint_fees
        } else if place == 12 {
            self.synth_mint_volume
        } else if place == 13 {
            self.synth_mint_volume_usd
        } else if place == 14 {
            self.synth_redeem_average_slip
        } else if place == 15 {
            self.synth_redeem_count
        } else if place == 16 {
            self.synth_redeem_fees
        } else if place == 17 {
            self.synth_redeem_volume
        } else if place == 18 {
            self.synth_redeem_volume_usd
        } else if place == 19 {
            self.to_asset_average_slip
        } else if place == 20 {
            self.to_asset_count
        } else if place == 21 {
            self.to_asset_fees
        } else if place == 22 {
            self.to_asset_volume
        } else if place == 23 {
            self.to_asset_volume_usd
        } else if place == 24 {
            self.to_rune_average_slip
        } else if place == 25 {
            self.to_rune_count
        } else if place == 26 {
            self.to_rune_fees
        } else if place == 27 {
            self.to_rune_volume
        } else if place == 28 {
            self.to_rune_volume_usd
        } else if place == 29 {
            self.to_trade_average_slip
        } else if place == 30 {
            self.to_trade_count
        } else if place == 31 {
            self.to_trade_fees
        } else if place == 32 {
            self.to_trade_volume
        } else if place == 33 {
            self.to_trade_volume_usd
        } else if place == 34 {
            self.total_count
        } else if place == 35 {
            self.total_fees
        } else if place == 36 {
            self.total_volume
        } else if place == 37 {
            self.total_volume_usd
        } else {
            0
        }
    }

    fn start(&self) -> (seconds: i64) {
        self.start_time
    }

    fn end(&self) -> (seconds: i64) {
        self.end_time
    }

    fn with_start_time(&self, start_time: i64) -> (record: Self) {
        SwapsHistoryInterval { start_time, ..*self }
    }
}

/// The totals over a range of intervals, field by field as in one interval.
#[derive(Debug, Clone, Copy, PartialEq, Eq, Structural)]
pub struct SwapsHistoryMeta {
    pub average_slip: i64,
    pub end_time: i64,
    pub from_trade_average_slip: i64,
    pub from_trade_count: i64,
    pub from_trade_fees: i64,
    pub from_trade_volume: i64,
    pub from_trade_volume_usd: i64,
    pub rune_price_usd: i64,
    pub start_time: i64,
    pub synth_mint_average_slip: i64,
    pub synth_mint_count: i64,
    pub synth_mint_fees: i64,
    pub synth_mint_volume: i64,
    pub synth_mint_volume_usd: i64,
    pub synth_redeem_average_slip: i64,
    pub synth_redeem_count: i64,
    pub synth_redeem_fees: i64,
    pub synth_redeem_volume: i64,
    pub synth_redeem_volume_usd: i64,
    pub to_asset_average_slip: i64,
    pub to_asset_count: i64,
    pub to_asset_fees: i64,
    pub to_asset_volume: i64,
    pub to_asset_volume_usd: i64,
    pub to_rune_average_slip: i64,
    pub to_rune_count: i64,
    pub to_rune_fees: i64,
    pub to_rune_volume: i64,
    pub to_rune_volume_usd: i64,
    pub to_trade_average_slip: i64,
    pub to_trade_count: i64,
    pub to_trade_fees: i64,
    pub to_trade_volume: i64,
    pub to_trade_volume_usd: i64,
    pub total_count: i64,
    pub total_fees: i64,
    pub total_volume: i64,
    pub total_volume_usd: i64,
}

/// What the upstream service answers for a window of swap history. Its
/// `meta.end_time` says where the next window starts.
#[derive(Debug)]
pub struct SwapsHistoryResponse {
    pub intervals: Vec<SwapsHistoryInterval>,
    pub meta: SwapsHistoryMeta,
}

} // verus!
