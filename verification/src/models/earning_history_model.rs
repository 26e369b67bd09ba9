//! Earnings: the record of one interval, with what each pool earned in it.

use vstd::prelude::*;
use vstd::string::*;
use crate::models::interval::{find_name, is_named, place_of, Interval};
use crate::text::text_eq;

verus! {

/// What one pool earned over one interval.
#[derive(Debug, PartialEq, Eq)]
pub struct EarningHistoryPool {
    pub pool: String,
    pub asset_liquidity_fees: i64,
    pub rune_liquidity_fees: i64,
    pub total_liquidity_fees_rune: i64,
    pub saver_earning: i64,
    pub rewards: i64,
    pub earnings: i64,
}

impl EarningHistoryPool {
    /// A copy of the pool's earnings.
    pub fn copy(&self) -> (pool: Self)
        ensures
            pool == *self,
    {
        EarningHistoryPool {
            pool: self.pool.clone(),
            asset_liquidity_fees: self.asset_liquidity_fees,
            rune_liquidity_fees: self.rune_liquidity_fees,
            total_liquidity_fees_rune: self.total_liquidity_fees_rune,
            saver_earning: self.saver_earning,
            rewards: self.rewards,
            earnings: self.earnings,
        }
    }
}

/// The earnings of one interval, in total and pool by pool.
#[derive(Debug, PartialEq, Eq)]
pub struct EarningHistoryInterval {
    pub start_time: i64,
    pub end_time: i64,
    pub liquidity_fees: i64,
    pub block_rewards: i64,
    pub earnings: i64,
    pub bonding_earnings: i64,
    pub liquidity_earnings: i64,
    pub avg_node_count: i64,
    pub rune_price_usd: i64,
    pub pools: Vec<EarningHistoryPool>,
}

/// The totals over a range of intervals, field by field as in one interval.
#[derive(Debug, PartialEq, Eq)]
pub struct EarningHistoryMeta {
    pub start_time: i64,
    pub end_time: i64,
    pub liquidity_fees: i64,
    pub block_rewards: i64,
    pub earnings: i64,
    pub bonding_earnings: i64,
    pub liquidity_earnings: i64,
    pub avg_node_count: i64,
    pub rune_price_usd: i64,
    pub pools: Vec<EarningHistoryPool>,
}

/// What the upstream service answers for a window of earnings history.
#[derive(Debug)]
pub struct EarningHistoryResponse {
    pub meta: EarningHistoryMeta,
    pub intervals: Vec<EarningHistoryInterval>,
}

/// The pool selector that keeps every pool.
pub const ALL_POOLS: &'static str = "all";

/// The pools that a selector keeps: all of them for [`ALL_POOLS`], and
/// otherwise those of that name, in their order.
pub open spec fn pools_selected(pools: Seq<EarningHistoryPool>, selector: Seq<char>) -> Seq<
    EarningHistoryPool,
>
    decreases pools.len(),
{
    if pools.len() == 0 {
        pools
    } else if selector == ALL_POOLS@ || pools.last().pool@ == selector {
        pools_selected(pools.drop_last(), selector).push(pools.last())
    } else {
        pools_selected(pools.drop_last(), selector)
    }
}

/// With the selector `all`, every pool is kept.
pub proof fn lemma_all_pools_selected(pools: Seq<EarningHistoryPool>)
    ensures
        pools_selected(pools, ALL_POOLS@) == pools,
    decreases pools.len(),
{
    if pools.len() > 0 {
        lemma_all_pools_selected(pools.drop_last());
        assert(pools.drop_last().push(pools.last()) == pools);
    }
}

/// Copies the pools that the selector keeps.
pub fn select_pools(pools: &Vec<EarningHistoryPool>, selector: &str) -> (kept: Vec<
    EarningHistoryPool,
>)
    ensures
        kept@ == pools_selected(pools@, selector@),
{
    let all: bool = text_eq(selector, ALL_POOLS);
    let mut kept: Vec<EarningHistoryPool> = Vec::new();
    let mut i: usize = 0;
    while i < pools.len()
        invariant
            0 <= i <= pools.len(),
            all == (selector@ == ALL_POOLS@),
            kept@ == pools_selected(pools@.subrange(0, i as int), selector@),
        decreases pools.len() - i,
    {
        proof {
            assert(pools@.subrange(0, i + 1).drop_last() == pools@.subrange(0, i as int));
            assert(pools@.subrange(0, i + 1).last() == pools@[i as int]);
        }
        if all || text_eq(pools[i].pool.as_str(), selector) {
            kept.push(pools[i].copy());
        }
        i += 1;
    }
    proof {
        assert(pools@.subrange(0, pools.len() as int) == pools@);
    }
    kept
}

impl EarningHistoryInterval {
    /// The names that a query may sort by: every field of the record.
    pub fn field_names() -> (names: Vec<&'static str>)
        ensures
            names@ == <Self as Interval>::names(),
    {
        let names = vec![
            "startTime",
            "endTime",
            "liquidityFees",
            "blockRewards",
            "earnings",
            "bondingEarnings",
            "liquidityEarnings",
            "avgNodeCount",
            "runePriceUSD",
            "pools",
        ];
        assert(names@ == <Self as Interval>::names());
        names
    }

    /// Whether the record has a field of that name.
    pub fn has_field(field: String) -> (has: bool)
        ensures
            has == is_named(<Self as Interval>::names(), field@),
    {
        let names = Self::field_names();
        place_of(&names, field.as_str()) < names.len()
    }

    /// Whether this is `whole` with only the pools that the selector keeps.
    pub open spec fn narrows(self, whole: Self, selector: Seq<char>) -> bool {
        &&& self.start_time == whole.start_time
        &&& self.end_time == whole.end_time
        &&& self.liquidity_fees == whole.liquidity_fees
        &&& self.block_rewards == whole.block_rewards
        &&& self.earnings == whole.earnings
        &&& self.bonding_earnings == whole.bonding_earnings
        &&& self.liquidity_earnings == whole.liquidity_earnings
        &&& self.avg_node_count == whole.avg_node_count
        &&& self.rune_price_usd == whole.rune_price_usd
        &&& self.pools@ == pools_selected(whole.pools@, selector)
    }

    /// Takes the record apart and puts it together with only the pools that
    /// the selector keeps.
    pub fn narrow(self, selector: &str) -> (record: Self)
        ensures
            record.narrows(self, selector@),
    {
        let pools = select_pools(&self.pools, selector);
        EarningHistoryInterval {
            start_time: self.start_time,
            end_time: self.end_time,
            liquidity_fees: self.liquidity_fees,
            block_rewards: self.block_rewards,
            earnings: self.earnings,
            bonding_earnings: self.bonding_earnings,
            liquidity_earnings: self.liquidity_earnings,
            avg_node_count: self.avg_node_count,
            rune_price_usd: self.rune_price_usd,
            pools,
        }
    }
}

impl Interval for EarningHistoryInterval {
    open spec fn names() -> Seq<&'static str> {
        seq![
            "startTime",
            "endTime",
            "liquidityFees",
            "blockRewards",
            "earnings",
            "bondingEarnings",
            "liquidityEarnings",
            "avgNodeCount",
            "runePriceUSD",
            "pools",
        ]
    }

    /// The list of pools is no number: it counts as 0, so that ordering by
    /// `pools` leaves the records as they came.
    open spec fn at(&self, place: int) -> i64 {
        if place == 0 {
            self.start_time
        } else if place == 1 {
            self.end_time
        } else if place == 2 {
            self.liquidity_fees
        } else if place == 3 {
            self.block_rewards
        } else if place == 4 {
            self.earnings
        } else if place == 5 {
            self.bonding_earnings
        } else if place == 6 {
            self.liquidity_earnings
        } else if place == 7 {
            self.avg_node_count
        } else if place == 8 {
            self.rune_price_usd
        } else {
            0
        }
    }

    open spec fn started(&self) -> i64 {
        self.start_time
    }

    open spec fn ended(&self) -> i64 {
        self.end_time
    }

    open spec fn restarts(&self, whole: &Self, start_time: i64) -> bool {
        &&& self.start_time == start_time
        &&& self.end_time == whole.end_time
        &&& self.liquidity_fees == whole.liquidity_fees
        &&& self.block_rewards == whole.block_rewards
        &&& self.earnings == whole.earnings
        &&& self.bonding_earnings == whole.bonding_earnings
        &&& self.liquidity_earnings == whole.liquidity_earnings
        &&& self.avg_node_count == whole.avg_node_count
        &&& self.rune_price_usd == whole.rune_price_usd
        &&& self.pools@ == whole.pools@
    }

    proof fn lemma_timestamps(record: Self) {
        reveal_strlit("startTime");
        reveal_strlit("endTime");
        let names = Self::names();
        reveal_with_fuel(find_name, 3);
        assert("startTime"@.len() == 9);
        assert("endTime"@.len() == 7);
        assert(names[0]@ == "startTime"@);
        assert(find_name(names, "startTime"@, 0) == 0);
        assert(names[0]@ != "endTime"@);
        assert(names[1]@ == "endTime"@);
        assert(find_name(names, "endTime"@, 0) == 1);
    }

    fn fields() -> (names: Vec<&'static str>) {
        Self::field_names()
    }

    fn value_at(&self, place: usize) -> (value: i64) {
        if place == 0 {
            self.start_time
        } else if place == 1 {
            self.end_time
        } else if place == 2 {
            self.liquidity_fees
        } else if place == 3 {
            self.block_rewards
        } else if place == 4 {
            self.earnings
        } else if place == 5 {
            self.bonding_earnings
        } else if place == 6 {
            self.liquidity_earnings
        } else if place == 7 {
            self.avg_node_count
        } else if place == 8 {
            self.rune_price_usd
        } else {
            0
        }
    }

    fn start(&self) -> (seconds: i64) {
        self.start_time
    }

    fn end(&self) -> (seconds: i64) {
        self.end_time
    }

    fn with_start_time(&self, start_time: i64) -> (record: Self) {
        let mut pools: Vec<EarningHistoryPool> = Vec::new();
        let mut i: usize = 0;
        while i < self.pools.len()
            invariant
                0 <= i <= self.pools.len(),
                pools@ == self.pools@.subrange(0, i as int),
            decreases self.pools.len() - i,
        {
            pools.push(self.pools[i].copy());
            assert(self.pools@.subrange(0, i + 1) == self.pools@.subrange(0, i as int).push(
                self.pools@[i as int],
            ));
            i += 1;
        }
        assert(self.pools@.subrange(0, self.pools.len() as int) == self.pools@);
        EarningHistoryInterval {
            start_time,
            end_time: self.end_time,
            liquidity_fees: self.liquidity_fees,
            block_rewards: self.block_rewards,
            earnings: self.earnings,
            bonding_earnings: self.bonding_earnings,
            liquidity_earnings: self.liquidity_earnings,
            avg_node_count: self.avg_node_count,
            rune_price_usd: self.rune_price_usd,
            pools,
        }
    }
}

} // verus!
