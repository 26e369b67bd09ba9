//! Pool depths: the record of one interval, and the summary of a range of them.

use vstd::prelude::*;
use vstd::string::*;
use crate::models::interval::{find_name, is_named, place_of, Interval};

verus! {

/// The depth of one pool over one interval.
#[derive(Debug, Clone, Copy, PartialEq, Eq, Structural)]
pub struct DepthHistoryInterval {
    pub asset_depth: i64,
    pub asset_price: i64,
    pub asset_price_usd: i64,
    pub end_time: i64,
    pub liquidity_units: i64,
    pub luvi: i64,
    pub members_count: i64,
    pub rune_depth: i64,
    pub start_time: i64,
    pub synth_supply: i64,
    pub synth_units: i64,
    pub units: i64,
}

impl DepthHistoryInterval {
    /// The names that a query may sort by: every field of the record.
    pub fn get_feilds() -> (names: Vec<&'static str>)
        ensures
            names@ == <Self as Interval>::names(),
    {
        let names = vec![
            "assetDepth",
            "assetPrice",
            "assetPriceUSD",
            "endTime",
            "liquidityUnits",
            "luvi",
            "membersCount",
            "runeDepth",
            "startTime",
            "synthSupply",
            "synthUnits",
            "units",
        ];
        assert(names@ == <Self as Interval>::names());
        names
    }

    /// Whether the record has a field of that name.
    pub fn has_field(field: String) -> (has: bool)
        ensures
            has == is_named(<Self as Interval>::names(), field@),
    {
        let names = Self::get_feilds();
        place_of(&names, field.as_str()) < names.len()
    }
}

impl Interval for DepthHistoryInterval {
    open spec fn names() -> Seq<&'static str> {
        seq![
            "assetDepth",
            "assetPrice",
            "assetPriceUSD",
            "endTime",
            "liquidityUnits",
            "luvi",
            "membersCount",
            "runeDepth",
            "startTime",
            "synthSupply",
            "synthUnits",
            "units",
        ]
    }

    open spec fn at(&self, place: int) -> i64 {
        if place == 0 {
            self.asset_depth
        } else if place == 1 {
            self.asset_price
        } else if place == 2 {
            self.asset_price_usd
        } else if place == 3 {
            self.end_time
        } else if place == 4 {
            self.liquidity_units
        } else if place == 5 {
            self.luvi
        } else if place == 6 {
            self.members_count
        } else if place == 7 {
            self.rune_depth
        } else if place == 8 {
            self.start_time
        } else if place == 9 {
            self.synth_supply
        } else if place == 10 {
            self.synth_units
        } else if place == 11 {
            self.units
        } else {
            0
        }
    }

    open spec fn started(&self) -> i64 {
        self.start_time
    }

    open spec fn ended(&self) -> i64 {
        self.end_time
    }

    open spec fn restarts(&self, whole: &Self, start_time: i64) -> bool {
        *self == (DepthHistoryInterval { start_time, ..*whole })
    }

    proof fn lemma_timestamps(record: Self) {
        reveal_strlit("assetDepth");
        reveal_strlit("assetPrice");
        reveal_strlit("assetPriceUSD");
        reveal_strlit("endTime");
        reveal_strlit("liquidityUnits");
        reveal_strlit("luvi");
        reveal_strlit("membersCount");
        reveal_strlit("runeDepth");
        reveal_strlit("startTime");
        let names = Self::names();
        reveal_with_fuel(find_name, 10);
        assert("startTime"@.len() == 9);
        assert("assetDepth"@.len() == 10);
        assert(names[0]@ != "startTime"@);
        assert("assetPrice"@.len() == 10);
        assert(names[1]@ != "startTime"@);
        assert("assetPriceUSD"@.len() == 13);
        assert(names[2]@ != "startTime"@);
        assert("endTime"@.len() == 7);
        assert(names[3]@ != "startTime"@);
        assert("liquidityUnits"@.len() == 14);
        assert(names[4]@ != "startTime"@);
        assert("luvi"@.len() == 4);
        assert(names[5]@ != "startTime"@);
        assert("membersCount"@.len() == 12);
        assert(names[6]@ != "startTime"@);
        assert("runeDepth"@[0] != "startTime"@[0]);
        assert(names[7]@ != "startTime"@);
        assert(names[8]@ == "startTime"@);
        assert(find_name(names, "startTime"@, 0) == 8);
        assert("endTime"@.len() == 7);
        assert("assetDepth"@.len() == 10);
        assert(names[0]@ != "endTime"@);
        assert("assetPrice"@.len() == 10);
        assert(names[1]@ != "endTime"@);
        assert("assetPriceUSD"@.len() == 13);
        assert(names[2]@ != "endTime"@);
        assert(names[3]@ == "endTime"@);
        assert(find_name(names, "endTime"@, 0) == 3);
    }

    fn fields() -> (names: Vec<&'static str>) {
        Self::get_feilds()
    }

    fn value_at(&self, place: usize) -> (value: i64) {
        if place == 0 {
            self.asset_depth
        } else if place == 1 {
            self.asset_price
        } else if place == 2 {
            self.asset_price_usd
        } else if place == 3 {
            self.end_time
        } else if place == 4 {
            self.liquidity_units
        } else if place == 5 {
            self.luvi
        } else if place == 6 {
            self.members_count
        } else if place == 7 {
            self.rune_depth
        } else if place == 8 {
            self.start_time
        } else if place == 9 {
            self.synth_supply
        } else if place == 10 {
            self.synth_units
        } else if place == 11 {
            self.units
        } else {
            0
        }
    }

    fn start(&self) -> (seconds: i64) {
        self.start_time
    }

    fn end(&self) -> (seconds: i64) {
        self.end_time
    }

    fn with_start_time(&self, start_time: i64) -> (record: Self) {
        DepthHistoryInterval { start_time, ..*self }
    }
}

/// The depths at the start and at the end of a range of intervals.
#[derive(Debug, Clone, Copy, PartialEq, Eq, Structural)]
pub struct DepthHistoryMeta {
    pub end_asset_depth: i64,
    pub end_lp_units: i64,
    pub end_member_count: i64,
    pub end_rune_depth: i64,
    pub end_synth_units: i64,
    pub end_time: i64,
    pub luvi_increase: i64,
    pub price_shift_loss: i64,
    pub start_asset_depth: i64,
    pub start_lp_units: i64,
    pub start_member_count: i64,
    pub start_rune_depth: i64,
    pub start_synth_units: i64,
    pub start_time: i64,
}

/// What the upstream service answers for a window of depth history.
#[derive(Debug)]
pub struct DepthHistoryResponse {
    pub intervals: Vec<DepthHistoryInterval>,
    pub meta: DepthHistoryMeta,
}

} // verus!
