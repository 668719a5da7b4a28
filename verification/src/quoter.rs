//! What the pool's quoter is told about a market, and the view of what it quotes.
use vstd::prelude::*;

use crate::constants::{BPS_DENOM, EMPTY_SIDE};
use crate::errors::FlashBookError;
use crate::events::QuoteLadderSnapshotEvent;
use crate::flp::{find_slot, slot_from};
use crate::funding::divide_trunc;
use crate::keys::Pubkey;
use crate::mark::{sat_notional, saturating_notional};
use crate::math::{
    abs_int, clamp_i128_to_i64, clamp_u128_to_u32, div_trunc, min_int, sat_i128, sat_i64, sat_u128,
    sat_u32, saturating_add_i128, saturating_add_i64, saturating_mul_u128,
};
use crate::state::{FlpExposureAccount, FlpMarketExposure, MarketAccount, MarketParams};

verus! {

/// Largest volatility that the quoter is told: one hundred percent.
pub const MAX_VOL_BPS: u32 = 10_000;

/// The relative change from one price to the next, in basis points towards zero.
pub open spec fn return_bps(p0: u64, p1: u64) -> i64 {
    sat_i64(div_trunc((p1 - p0) * 10_000, p0 as int)) as i64
}

/// The changes between the first `n` prices; a change from zero does not count.
pub open spec fn returns_of(prices: Seq<u64>, n: int) -> Seq<i64>
    decreases n,
{
    if n < 2 {
        Seq::empty()
    } else if prices[n - 2] == 0 {
        returns_of(prices, n - 1)
    } else {
        returns_of(prices, n - 1).push(return_bps(prices[n - 2], prices[n - 1]))
    }
}

/// The sum of the first `n` numbers, kept within an `i64` at every step.
pub open spec fn sat_sum(s: Seq<i64>, n: int) -> int
    decreases n,
{
    if n <= 0 {
        0
    } else {
        sat_i64(sat_sum(s, n - 1) + s[n - 1])
    }
}

/// The sum of the squares of the first `n` distances from `mean`, kept within an
/// `i128` at every step.
pub open spec fn square_sum(s: Seq<i64>, mean: int, n: int) -> int
    decreases n,
{
    if n <= 0 {
        0
    } else {
        sat_i128(square_sum(s, mean, n - 1) + (s[n - 1] - mean) * (s[n - 1] - mean))
    }
}

/// The mean of some numbers, towards zero.
pub open spec fn mean_of(s: Seq<i64>) -> int {
    div_trunc(sat_sum(s, s.len() as int), s.len() as int)
}

/// The variance of some numbers, rounded down.
pub open spec fn variance_of(s: Seq<i64>) -> int {
    square_sum(s, mean_of(s), s.len() as int) / (s.len() as int)
}

/// No number is so far from the mean that an `i64` cannot hold the distance.
pub open spec fn deviations_fit(s: Seq<i64>) -> bool {
    forall|i: int|
        0 <= i < s.len() ==> i64::MIN <= (#[trigger] s[i]) - mean_of(s) <= i64::MAX
}

/// A price cannot lose more than all of its worth, and there are fewer changes than
/// prices.
pub proof fn lemma_returns_bounded(prices: Seq<u64>, n: int)
    requires
        1 <= n <= prices.len(),
    ensures
        returns_of(prices, n).len() < n,
        forall|i: int|
            0 <= i < returns_of(prices, n).len() ==> -10_000 <= #[trigger] returns_of(prices, n)[i],
    decreases n,
{
    if n >= 2 {
        lemma_returns_bounded(prices, n - 1);
        let p0 = prices[n - 2] as int;
        let p1 = prices[n - 1] as int;
        if p0 > 0 && p1 < p0 {
            let d = (p0 - p1) * 10_000;
            assert(abs_int((p1 - p0) * 10_000) == d);
            assert(d / p0 <= 10_000) by (nonlinear_arith)
                requires
                    0 <= d <= p0 * 10_000,
                    p0 > 0,
            ;
        }
    }
}

/// The sum of numbers that are not far below zero is not far below any of them.
pub proof fn lemma_sum_near_each(s: Seq<i64>, n: int)
    requires
        0 <= n <= s.len(),
        n <= u8::MAX,
        forall|i: int| 0 <= i < s.len() ==> -10_000 <= #[trigger] s[i],
    ensures
        -10_000 * n <= sat_sum(s, n) <= i64::MAX,
        forall|i: int| 0 <= i < n ==> (#[trigger] s[i]) - 10_000 * n <= sat_sum(s, n),
    decreases n,
{
    if n > 0 {
        lemma_sum_near_each(s, n - 1);
        assert(-10_000 <= s[n - 1]);
    }
}

/// The changes within a window of prices are never too far from their mean.
pub proof fn lemma_deviations_fit(prices: Seq<u64>, n: int)
    requires
        0 <= n <= prices.len(),
        n <= u8::MAX,
    ensures
        deviations_fit(returns_of(prices, n)),
{
    let s = returns_of(prices, n);
    let k = s.len() as int;
    if n >= 2 && k > 0 {
        lemma_returns_bounded(prices, n);
        lemma_sum_near_each(s, k);
        let sum = sat_sum(s, k);
        let mean = mean_of(s);
        let part = abs_int(sum) / k;
        assert(mean == if sum >= 0 {
            part
        } else {
            -part
        });
        assert(0 <= part <= abs_int(sum)) by (nonlinear_arith)
            requires
                k > 0,
                abs_int(sum) >= 0,
                part == abs_int(sum) / k,
        ;
        if k == 1 {
            assert(sat_sum(s, 0) == 0);
            assert(sum == s[0]);
            assert(part == abs_int(sum)) by (nonlinear_arith)
                requires
                    k == 1,
                    part == abs_int(sum) / k,
            ;
        } else {
            assert(2 * part <= abs_int(sum)) by (nonlinear_arith)
                requires
                    k >= 2,
                    abs_int(sum) >= 0,
                    part == abs_int(sum) / k,
            ;
        }
        assert forall|i: int| 0 <= i < s.len() implies i64::MIN <= (#[trigger] s[i]) - mean
            <= i64::MAX by {
            assert(-10_000 <= s[i]);
            assert(s[i] - 10_000 * k <= sum);
        }
    }
}

/// How many prices count.
pub open spec fn window_len(prices: Seq<u64>, count: u8) -> int {
    min_int(count as int, prices.len() as int)
}

/// Computes the relative change from one price to the next.
pub fn compute_return_bps(p0: u64, p1: u64) -> (r: i64)
    requires
        p0 > 0,
    ensures
        r == return_bps(p0, p1),
{
    let diff: i128 = p1 as i128 - p0 as i128;
    clamp_i128_to_i64(divide_trunc(diff * 10_000, p0 as i128))
}

/// Collects the changes between the first `n` prices.
pub fn collect_returns(prices: &Vec<u64>, n: usize) -> (r: Vec<i64>)
    requires
        n <= prices@.len(),
    ensures
        r@ == returns_of(prices@, n as int),
        r@.len() <= n,
{
    let mut out: Vec<i64> = Vec::new();
    if n < 2 {
        return out;
    }
    let mut i: usize = 1;
    while i < n
        invariant
            1 <= i <= n <= prices@.len(),
            out@ == returns_of(prices@, i as int),
            out@.len() < i,
        decreases n - i,
    {
        let p0: u64 = prices[i - 1];
        let p1: u64 = prices[i];
        if p0 > 0 {
            out.push(compute_return_bps(p0, p1));
        }
        i = i + 1;
    }
    out
}

/// Computes the mean of some numbers.
pub fn compute_mean(s: &Vec<i64>) -> (r: i64)
    requires
        0 < s@.len() <= u8::MAX,
    ensures
        r == mean_of(s@),
{
    let mut sum: i64 = 0;
    let mut i: usize = 0;
    while i < s.len()
        invariant
            i <= s@.len(),
            sum == sat_sum(s@, i as int),
        decreases s@.len() - i,
    {
        sum = saturating_add_i64(sum, s[i]);
        i = i + 1;
    }
    let mean: i128 = divide_trunc(sum as i128, s.len() as i128);
    mean as i64
}

/// Computes the variance of some numbers around their mean.
pub fn compute_variance(s: &Vec<i64>, mean: i64) -> (r: u128)
    requires
        0 < s@.len() <= u8::MAX,
        mean == mean_of(s@),
        deviations_fit(s@),
    ensures
        r == variance_of(s@),
{
    let mut total: i128 = 0;
    let mut i: usize = 0;
    while i < s.len()
        invariant
            i <= s@.len(),
            mean == mean_of(s@),
            deviations_fit(s@),
            total == square_sum(s@, mean as int, i as int),
            total >= 0,
        decreases s@.len() - i,
    {
        let d: i128 = (s[i] - mean) as i128;
        proof {
            let x = d as int;
            assert(0 <= x * x <= 0x4000_0000_0000_0000_0000_0000_0000_0000) by (nonlinear_arith)
                requires
                    -0x8000_0000_0000_0000 <= x <= 0x7fff_ffff_ffff_ffff,
            ;
        }
        total = saturating_add_i128(total, d * d);
        i = i + 1;
    }
    (total as u128) / (s.len() as u128)
}

/// Finds the whole square root of a number, at most [`MAX_VOL_BPS`].
pub fn capped_sqrt(x: u128) -> (r: u32)
    ensures
        r <= MAX_VOL_BPS,
        r * r <= x,
        r < MAX_VOL_BPS ==> x < (r + 1) * (r + 1),
{
    let mut lo: u32 = 0;
    let mut hi: u32 = MAX_VOL_BPS;
    while lo < hi
        invariant
            lo <= hi <= MAX_VOL_BPS,
            lo * lo <= x,
            hi < MAX_VOL_BPS ==> x < (hi + 1) * (hi + 1),
        decreases hi - lo,
    {
        let mid: u32 = lo + (hi - lo + 1) / 2;
        assert(mid * mid <= 10_000 * 10_000) by (nonlinear_arith)
            requires
                mid <= 10_000,
        ;
        if (mid as u128) * (mid as u128) <= x {
            lo = mid;
        } else {
            hi = mid - 1;
        }
    }
    lo
}

/// The volatility of the last `count` clearing prices: the deviation of their
/// relative changes, in basis points, rounded down and at most [`MAX_VOL_BPS`]. It is
/// 0 where there are no changes.
pub fn realized_vol_bps_from_window(prices: &Vec<u64>, count: u8) -> (r: u32)
    ensures
        ({
            let s = returns_of(prices@, window_len(prices@, count));
            if s.len() == 0 {
                r == 0
            } else {
                &&& r <= MAX_VOL_BPS
                &&& r * r <= variance_of(s)
                &&& r < MAX_VOL_BPS ==> variance_of(s) < (r + 1) * (r + 1)
            }
        }),
{
    let n: usize = if (count as usize) < prices.len() {
        count as usize
    } else {
        prices.len()
    };
    let s: Vec<i64> = collect_returns(prices, n);
    if s.len() == 0 {
        return 0;
    }
    proof {
        lemma_deviations_fit(prices@, n as int);
    }
    let mean: i64 = compute_mean(&s);
    capped_sqrt(compute_variance(&s, mean))
}

/// The quoter's settings.
#[derive(Clone, Copy, Debug, PartialEq, Eq, Structural)]
pub struct FlpQuoterParams {
    pub base_spread_bps: u32,
    pub alpha_bps: u32,
    pub beta_bps: u32,
    pub gamma_bps: u32,
    pub kappa_bps: u32,
    pub delta_bps: u32,
    pub inventory_lambda_bps: u32,
    pub depth_floor_lots: u64,
    pub max_growth_per_batch_bps: u64,
    pub levels: u8,
    pub tick_size: u64,
}

/// What the quoter is told.
#[derive(Clone, Copy, Debug, PartialEq, Eq, Structural)]
pub struct FlpQuoterInputs {
    pub oracle_ticks: u64,
    pub vpin_bps: u32,
    pub realized_vol_bps: u32,
    pub pool_capital_quote_lots: u64,
    pub pool_net_quote_lots_signed: i64,
    pub pool_gross_utilization_bps: u32,
    pub oi_long_lots: u64,
    pub oi_short_lots: u64,
}

/// Takes the quoter's settings out of a market's parameters.
pub fn quoter_params(p: &MarketParams) -> (r: FlpQuoterParams)
    ensures
        r == (FlpQuoterParams {
            base_spread_bps: p.flp_spread_base_bps,
            alpha_bps: p.flp_spread_alpha_bps,
            beta_bps: p.flp_spread_beta_bps,
            gamma_bps: p.flp_spread_gamma_bps,
            kappa_bps: p.flp_spread_kappa_bps,
            delta_bps: p.flp_spread_delta_bps,
            inventory_lambda_bps: p.flp_inventory_lambda_bps,
            depth_floor_lots: p.flp_depth_floor_lots,
            max_growth_per_batch_bps: p.flp_max_growth_per_batch_bps,
            levels: p.flp_quote_levels,
            tick_size: p.tick_size,
        }),
{
    FlpQuoterParams {
        base_spread_bps: p.flp_spread_base_bps,
        alpha_bps: p.flp_spread_alpha_bps,
        beta_bps: p.flp_spread_beta_bps,
        gamma_bps: p.flp_spread_gamma_bps,
        kappa_bps: p.flp_spread_kappa_bps,
        delta_bps: p.flp_spread_delta_bps,
        inventory_lambda_bps: p.flp_inventory_lambda_bps,
        depth_floor_lots: p.flp_depth_floor_lots,
        max_growth_per_batch_bps: p.flp_max_growth_per_batch_bps,
        levels: p.flp_quote_levels,
        tick_size: p.tick_size,
    }
}

/// The notional of a slot of the pool's table at its entry price.
pub open spec fn slot_notional(e: FlpMarketExposure, tick: u64) -> int {
    sat_notional(e.size_lots as int, e.entry_price_ticks as int, tick as int)
}

/// The pool's signed notional in a market: long is positive.
pub open spec fn net_notional(s: Seq<FlpMarketExposure>, market: Pubkey, tick: u64) -> i64 {
    let k = slot_from(s, market, 0);
    if k >= s.len() {
        0
    } else {
        let n = min_int(slot_notional(s[k], tick), i64::MAX as int);
        (if s[k].side == 0 {
            n
        } else {
            -n
        }) as i64
    }
}

/// The pool's notional in the first `n` slots, both sides together.
pub open spec fn gross_notional(s: Seq<FlpMarketExposure>, tick: u64, n: int) -> int
    decreases n,
{
    if n <= 0 {
        0
    } else if s[n - 1].side == EMPTY_SIDE {
        gross_notional(s, tick, n - 1)
    } else {
        sat_u128(gross_notional(s, tick, n - 1) + slot_notional(s[n - 1], tick))
    }
}

/// How much of the pool's capital is in use, in basis points.
pub open spec fn utilization_bps(gross: int, capital: u64) -> u32 {
    if capital == 0 {
        0
    } else {
        sat_u32(sat_u128(gross * BPS_DENOM) / (capital as int)) as u32
    }
}

/// Computes the pool's signed notional in a market.
pub fn compute_net_notional(s: &Vec<FlpMarketExposure>, market: Pubkey, tick: u64) -> (r: i64)
    ensures
        r == net_notional(s@, market, tick),
{
    let k: usize = find_slot(s, market);
    if k >= s.len() {
        return 0;
    }
    let n: u128 = saturating_notional(s[k].size_lots, s[k].entry_price_ticks, tick);
    let m: i64 = if n > i64::MAX as u128 {
        i64::MAX
    } else {
        n as i64
    };
    if s[k].side == 0 {
        m
    } else {
        -m
    }
}

/// Computes the pool's notional, both sides together.
pub fn compute_gross_notional(s: &Vec<FlpMarketExposure>, tick: u64) -> (r: u128)
    ensures
        r == gross_notional(s@, tick, s@.len() as int),
{
    let mut gross: u128 = 0;
    let mut i: usize = 0;
    while i < s.len()
        invariant
            i <= s@.len(),
            gross == gross_notional(s@, tick, i as int),
        decreases s@.len() - i,
    {
        if s[i].side != EMPTY_SIDE {
            gross = gross.saturating_add(
                saturating_notional(s[i].size_lots, s[i].entry_price_ticks, tick),
            );
        }
        i = i + 1;
    }
    gross
}

/// Computes how much of the pool's capital is in use.
pub fn compute_utilization_bps(gross: u128, capital: u64) -> (r: u32)
    ensures
        r == utilization_bps(gross as int, capital),
{
    if capital == 0 {
        return 0;
    }
    let scaled: u128 = saturating_mul_u128(gross, BPS_DENOM as u128);
    clamp_u128_to_u32(scaled / (capital as u128))
}

/// Collects what the quoter is told about a market. `recent_clearing_prices` holds
/// the market's last clearing prices, oldest first.
pub fn quoter_inputs(
    market_key: Pubkey,
    market: &MarketAccount,
    flp: &FlpExposureAccount,
    recent_clearing_prices: &Vec<u64>,
) -> (r: FlpQuoterInputs)
    ensures
        r == (FlpQuoterInputs {
            oracle_ticks: market.oracle_price_ticks,
            vpin_bps: market.vpin_bps,
            realized_vol_bps: r.realized_vol_bps,
            pool_capital_quote_lots: flp.total_capital_quote_lots,
            pool_net_quote_lots_signed: net_notional(
                flp.per_market@,
                market_key,
                market.params.tick_size,
            ),
            pool_gross_utilization_bps: utilization_bps(
                gross_notional(
                    flp.per_market@,
                    market.params.tick_size,
                    flp.per_market@.len() as int,
                ),
                flp.total_capital_quote_lots,
            ),
            oi_long_lots: market.oi_long_lots,
            oi_short_lots: market.oi_short_lots,
        }),
        ({
            let s = returns_of(
                recent_clearing_prices@,
                window_len(recent_clearing_prices@, market.recent_clearing_count),
            );
            let v = r.realized_vol_bps;
            if s.len() == 0 {
                v == 0
            } else {
                &&& v <= MAX_VOL_BPS
                &&& v * v <= variance_of(s)
                &&& v < MAX_VOL_BPS ==> variance_of(s) < (v + 1) * (v + 1)
            }
        }),
{
    let tick: u64 = market.params.tick_size;
    let gross: u128 = compute_gross_notional(&flp.per_market, tick);
    FlpQuoterInputs {
        oracle_ticks: market.oracle_price_ticks,
        vpin_bps: market.vpin_bps,
        realized_vol_bps: realized_vol_bps_from_window(
            recent_clearing_prices,
            market.recent_clearing_count,
        ),
        pool_capital_quote_lots: flp.total_capital_quote_lots,
        pool_net_quote_lots_signed: compute_net_notional(&flp.per_market, market_key, tick),
        pool_gross_utilization_bps: compute_utilization_bps(gross, flp.total_capital_quote_lots),
        oi_long_lots: market.oi_long_lots,
        oi_short_lots: market.oi_short_lots,
    }
}

/// One level of a quote.
#[derive(Clone, Copy, Debug, PartialEq, Eq, Structural)]
pub struct QuoteLevel {
    pub price_ticks: u64,
    pub size_lots: u64,
}

/// What the quoter quotes, best level first.
#[derive(Debug)]
pub struct QuoteLadder {
    pub fair_value_ticks: u64,
    pub skew_bps: i32,
    pub bids: Vec<QuoteLevel>,
    pub asks: Vec<QuoteLevel>,
}

/// The best level of a side; an empty side has zeros.
pub open spec fn top_level(s: Seq<QuoteLevel>) -> QuoteLevel {
    if s.len() == 0 {
        QuoteLevel { price_ticks: 0, size_lots: 0 }
    } else {
        s[0]
    }
}

/// Finds the best level of a side.
pub fn find_top_level(s: &Vec<QuoteLevel>) -> (r: QuoteLevel)
    ensures
        r == top_level(s@),
{
    if s.len() == 0 {
        QuoteLevel { price_ticks: 0, size_lots: 0 }
    } else {
        s[0]
    }
}

/// Shows the top of what the quoter quotes on [`quoter_params`] and
/// [`quoter_inputs`], unless the quoter failed.
pub fn view_quote_ladder(market_key: Pubkey, ladder: Result<QuoteLadder, FlashBookError>) -> (r: Result<
    QuoteLadderSnapshotEvent,
    FlashBookError,
>)
    ensures
        r == (match ladder {
            Err(e) => Err::<QuoteLadderSnapshotEvent, FlashBookError>(e),
            Ok(l) => Ok(
                QuoteLadderSnapshotEvent {
                    market: market_key,
                    fair_value_ticks: l.fair_value_ticks,
                    skew_bps: l.skew_bps,
                    top_bid_ticks: top_level(l.bids@).price_ticks,
                    top_ask_ticks: top_level(l.asks@).price_ticks,
                    top_bid_size_lots: top_level(l.bids@).size_lots,
                    top_ask_size_lots: top_level(l.asks@).size_lots,
                    level_count: min_int(l.bids@.len() as int, 255) as u8,
                },
            ),
        }),
{
    let l = match ladder {
        Ok(l) => l,
        Err(e) => {
            return Err(e);
        },
    };
    let bid = find_top_level(&l.bids);
    let ask = find_top_level(&l.asks);
    let level_count: u8 = if l.bids.len() > 255 {
        255
    } else {
        l.bids.len() as u8
    };
    Ok(
        QuoteLadderSnapshotEvent {
            market: market_key,
            fair_value_ticks: l.fair_value_ticks,
            skew_bps: l.skew_bps,
            top_bid_ticks: bid.price_ticks,
            top_ask_ticks: ask.price_ticks,
            top_bid_size_lots: bid.size_lots,
            top_ask_size_lots: ask.size_lots,
            level_count,
        },
    )
}

} // verus!
