//! Funding payments between longs and shorts.
use vstd::prelude::*;

use crate::constants::BPS_DENOM;
use crate::errors::FlashBookError;
use crate::events::{FundingSettledEvent, PredictedFundingEvent};
use crate::keys::Pubkey;
use crate::math::{abs_int, clamp_i128_to_i64, div_trunc, min_int, min_u64, sat_i64};
use crate::settlement::{checked_notional, is_isolated, notional_of};
use crate::state::{MarketAccount, MarketHaircutStateAccount, PositionAccount, TraderStateAccount};

verus! {

/// The accounts that settling funding moves.
#[derive(Clone, Copy, Debug, PartialEq, Eq, Structural)]
pub struct SettleFunding {
    pub trader: Pubkey,
    pub market_key: Pubkey,
    pub market: MarketAccount,
    pub trader_state: TraderStateAccount,
    pub position: PositionAccount,
    pub haircut_state: MarketHaircutStateAccount,
}

/// What funding is charged on: the position at the mark price, where it fits.
pub open spec fn funding_notional(a: SettleFunding) -> Result<u64, FlashBookError> {
    match notional_of(
        a.position.size_lots as int,
        a.market.mark_price_ticks as int,
        a.market.params.tick_size as int,
    ) {
        Err(e) => Err(e),
        Ok(n) => if n > u64::MAX {
            Err(FlashBookError::ArithmeticOverflow)
        } else {
            Ok(n as u64)
        },
    }
}

/// Computes what funding is charged on.
pub fn compute_funding_notional(a: &SettleFunding) -> (r: Result<u64, FlashBookError>)
    ensures
        r == funding_notional(*a),
{
    match checked_notional(
        a.position.size_lots,
        a.market.mark_price_ticks,
        a.market.params.tick_size,
    ) {
        Err(e) => Err(e),
        Ok(n) => if n > u64::MAX as u128 {
            Err(FlashBookError::ArithmeticOverflow)
        } else {
            Ok(n as u64)
        },
    }
}

/// The bucket that funding is settled with: the position's own collateral if it is
/// isolated, else the trader's pool.
pub open spec fn funding_bucket(a: SettleFunding) -> u64 {
    if is_isolated(a.position) {
        a.position.collateral_quote_lots
    } else {
        a.trader_state.collateral_quote_lots
    }
}

/// What falls due: what the funding curve charges, as far as an `i64` holds it, and
/// nothing for a position that stands at the market's index.
pub open spec fn funding_due(a: SettleFunding, owed: Result<i128, FlashBookError>) -> Result<
    i64,
    FlashBookError,
> {
    if a.position.cum_funding_index_at_entry == a.market.cum_funding_index {
        Ok(0)
    } else {
        match owed {
            Err(e) => Err(e),
            Ok(o) => Ok(sat_i64(o as int) as i64),
        }
    }
}

/// The change of that bucket when `due` falls due: a debt is paid as far as the
/// bucket goes, a claim is paid in full.
pub open spec fn funding_change(a: SettleFunding, due: i64) -> int {
    if due > 0 {
        -min_int(due as int, funding_bucket(a) as int)
    } else {
        -(due as int)
    }
}

/// The accounts after funding was settled. What the trader pays adds to the
/// market's residual, what the trader receives comes out of it.
pub open spec fn funding_settled(a: SettleFunding, due: i64) -> SettleFunding {
    let d = funding_change(a, due);
    let iso = is_isolated(a.position);
    SettleFunding {
        trader_state: TraderStateAccount {
            collateral_quote_lots: if iso {
                a.trader_state.collateral_quote_lots
            } else {
                (a.trader_state.collateral_quote_lots + d) as u64
            },
            ..a.trader_state
        },
        position: PositionAccount {
            collateral_quote_lots: if iso {
                (a.position.collateral_quote_lots + d) as u64
            } else {
                a.position.collateral_quote_lots
            },
            funding_paid_quote_lots: (a.position.funding_paid_quote_lots + due) as i64,
            cum_funding_index_at_entry: a.market.cum_funding_index,
            ..a.position
        },
        haircut_state: MarketHaircutStateAccount {
            residual_quote_lots: (a.haircut_state.residual_quote_lots - d) as u128,
            ..a.haircut_state
        },
        ..a
    }
}

/// Why funding cannot be settled, if it cannot.
pub open spec fn funding_refusal(a: SettleFunding, owed: Result<i128, FlashBookError>) -> Option<
    FlashBookError,
> {
    if a.trader_state.trader != a.trader {
        Some(FlashBookError::WrongTrader)
    } else if a.haircut_state.market != a.market_key {
        Some(FlashBookError::WrongMarket)
    } else if a.position.size_lots == 0 {
        None
    } else {
        match funding_notional(a) {
            Err(e) => Some(e),
            Ok(_) => match funding_due(a, owed) {
                Err(e) => Some(e),
                Ok(due) => {
                    let d = funding_change(a, due);
                    let residual = a.haircut_state.residual_quote_lots - d;
                    let paid = a.position.funding_paid_quote_lots + due;
                    if funding_bucket(a) + d > u64::MAX {
                        Some(FlashBookError::ArithmeticOverflow)
                    } else if residual > u128::MAX {
                        Some(FlashBookError::ArithmeticOverflow)
                    } else if residual < 0 {
                        Some(FlashBookError::HaircutResidualUnderflow)
                    } else if sat_i64(paid) != paid {
                        Some(FlashBookError::ArithmeticOverflow)
                    } else {
                        None
                    }
                },
            },
        }
    }
}

/// The accounts after an accepted settlement. A flat position is only brought up to
/// date.
pub open spec fn funding_outcome(a: SettleFunding, owed: Result<i128, FlashBookError>) -> SettleFunding {
    if a.position.size_lots == 0 {
        SettleFunding {
            position: PositionAccount {
                cum_funding_index_at_entry: a.market.cum_funding_index,
                ..a.position
            },
            ..a
        }
    } else {
        funding_settled(a, funding_due(a, owed)->Ok_0)
    }
}

/// Settles the funding of one position. `owed` is what the funding curve charges
/// on [`compute_funding_notional`] between the position's index and the market's:
/// positive is a debt. Where the two are the same it is not looked at, and nothing is
/// due. A flat position is only brought up to date, and nothing is reported. On
/// refusal nothing changes.
pub fn settle_funding(ctx: &mut SettleFunding, owed: Result<i128, FlashBookError>) -> (r: Result<
    Option<FundingSettledEvent>,
    FlashBookError,
>)
    ensures
        match funding_refusal(*old(ctx), owed) {
            Some(e) => r == Err::<Option<FundingSettledEvent>, FlashBookError>(e) && *final(ctx)
                == *old(ctx),
            None => {
                &&& *final(ctx) == funding_outcome(*old(ctx), owed)
                &&& r == Ok::<Option<FundingSettledEvent>, FlashBookError>(
                    if old(ctx).position.size_lots == 0 {
                        None
                    } else {
                        Some(
                            FundingSettledEvent {
                                market: old(ctx).market_key,
                                trader: old(ctx).position.trader,
                                owed_quote_lots: funding_due(*old(ctx), owed)->Ok_0,
                                new_collateral: final(ctx).trader_state.collateral_quote_lots,
                            },
                        )
                    },
                )
            },
        },
{
    if ctx.trader_state.trader != ctx.trader {
        return Err(FlashBookError::WrongTrader);
    }
    if ctx.haircut_state.market != ctx.market_key {
        return Err(FlashBookError::WrongMarket);
    }
    if ctx.position.size_lots == 0 {
        ctx.position.cum_funding_index_at_entry = ctx.market.cum_funding_index;
        return Ok(None);
    }
    match compute_funding_notional(ctx) {
        Ok(_) => {},
        Err(e) => {
            return Err(e);
        },
    }
    let owed_i64: i64 = if ctx.position.cum_funding_index_at_entry == ctx.market.cum_funding_index {
        0
    } else {
        match owed {
            Ok(o) => clamp_i128_to_i64(o),
            Err(e) => {
                return Err(e);
            },
        }
    };
    let isolated: bool = ctx.position.collateral_quote_lots > 0;
    let bucket: u64 = if isolated {
        ctx.position.collateral_quote_lots
    } else {
        ctx.trader_state.collateral_quote_lots
    };
    let new_bucket: u64;
    let new_residual: u128;
    if owed_i64 > 0 {
        let paid: u64 = min_u64(owed_i64 as u64, bucket);
        new_bucket = bucket - paid;
        new_residual = match ctx.haircut_state.residual_quote_lots.checked_add(paid as u128) {
            Some(n) => n,
            None => {
                return Err(FlashBookError::ArithmeticOverflow);
            },
        };
    } else {
        let received: u64 = (-(owed_i64 as i128)) as u64;
        new_bucket = match bucket.checked_add(received) {
            Some(n) => n,
            None => {
                return Err(FlashBookError::ArithmeticOverflow);
            },
        };
        new_residual = match ctx.haircut_state.residual_quote_lots.checked_sub(received as u128) {
            Some(n) => n,
            None => {
                return Err(FlashBookError::HaircutResidualUnderflow);
            },
        };
    }
    let paid_total: i64 = match ctx.position.funding_paid_quote_lots.checked_add(owed_i64) {
        Some(n) => n,
        None => {
            return Err(FlashBookError::ArithmeticOverflow);
        },
    };
    if isolated {
        ctx.position.collateral_quote_lots = new_bucket;
    } else {
        ctx.trader_state.collateral_quote_lots = new_bucket;
    }
    ctx.haircut_state.residual_quote_lots = new_residual;
    ctx.position.funding_paid_quote_lots = paid_total;
    ctx.position.cum_funding_index_at_entry = ctx.market.cum_funding_index;
    Ok(
        Some(
            FundingSettledEvent {
                market: ctx.market_key,
                trader: ctx.position.trader,
                owed_quote_lots: owed_i64,
                new_collateral: ctx.trader_state.collateral_quote_lots,
            },
        ),
    )
}

/// Settling funding conserves: what the trader's collateral loses, the market's
/// residual gains, and the other way round.
pub proof fn law_funding_moves_residual_oppositely(
    a: SettleFunding,
    owed: Result<i128, FlashBookError>,
)
    requires
        funding_refusal(a, owed) is None,
    ensures
        ({
            let b = funding_outcome(a, owed);
            b.trader_state.collateral_quote_lots + b.position.collateral_quote_lots
                + b.haircut_state.residual_quote_lots == a.trader_state.collateral_quote_lots
                + a.position.collateral_quote_lots + a.haircut_state.residual_quote_lots
        }),
{
}

/// The funding of an isolated position never touches the trader's pool, and that of
/// a pooled one never the position.
pub proof fn law_funding_stays_in_its_bucket(
    a: SettleFunding,
    owed: Result<i128, FlashBookError>,
)
    ensures
        is_isolated(a.position) ==> funding_outcome(a, owed).trader_state == a.trader_state,
        !is_isolated(a.position) ==> funding_outcome(a, owed).position.collateral_quote_lots
            == a.position.collateral_quote_lots,
{
}

/// After a settlement the position stands at the market's index, and settling again
/// at once is accepted and changes nothing, whatever is said to be owed.
pub proof fn law_funding_settlement_is_idempotent(
    a: SettleFunding,
    owed: Result<i128, FlashBookError>,
    again: Result<i128, FlashBookError>,
)
    requires
        funding_refusal(a, owed) is None,
    ensures
        ({
            let b = funding_outcome(a, owed);
            &&& b.position.cum_funding_index_at_entry == b.market.cum_funding_index
            &&& funding_refusal(b, again) is None
            &&& funding_outcome(b, again) == b
        }),
{
}

/// The premium of the mark over the oracle in basis points, towards zero.
pub open spec fn premium_bps(mark: u64, oracle: u64) -> int {
    if oracle == 0 {
        0
    } else {
        sat_i64(div_trunc((mark - oracle) * BPS_DENOM, oracle as int))
    }
}

/// The funding rate that a premium calls for, within the market's limit.
pub open spec fn funding_rate(k_bps: u32, premium: int, max: u32) -> int {
    let raw = div_trunc(k_bps * premium, BPS_DENOM as int);
    if raw > max {
        max as int
    } else if raw < -(max as int) {
        -(max as int)
    } else {
        raw
    }
}

/// Division towards zero.
pub fn divide_trunc(a: i128, b: i128) -> (r: i128)
    requires
        b > 0,
        a > i128::MIN,
    ensures
        r == div_trunc(a as int, b as int),
        abs_int(r as int) <= abs_int(a as int),
{
    if a >= 0 {
        proof {
            assert(0 <= (a as int) / (b as int) <= a) by (nonlinear_arith)
                requires
                    a >= 0,
                    b > 0,
            ;
        }
        ((a as u128) / (b as u128)) as i128
    } else {
        let m: u128 = (-a) as u128;
        proof {
            assert(0 <= (m as int) / (b as int) <= m) by (nonlinear_arith)
                requires
                    m >= 0,
                    b > 0,
            ;
        }
        -((m / (b as u128)) as i128)
    }
}

/// Shows the funding rate that the current premium calls for.
pub fn view_predicted_funding(market_key: Pubkey, m: &MarketAccount) -> (r: PredictedFundingEvent)
    ensures
        r == ({
            let premium = premium_bps(m.mark_price_ticks, m.oracle_price_ticks);
            PredictedFundingEvent {
                market: market_key,
                mark_price_ticks: m.mark_price_ticks,
                oracle_price_ticks: m.oracle_price_ticks,
                premium_bps: premium as i64,
                rate_bps_per_sec: (if m.oracle_price_ticks == 0 {
                    0
                } else {
                    funding_rate(
                        m.params.funding_rate_k_bps,
                        premium,
                        m.params.funding_rate_max_bps_per_sec,
                    )
                }) as i64,
                current_cum_index: m.cum_funding_index,
            }
        }),
{
    let (rate_bps_per_sec, premium): (i64, i64) = if m.oracle_price_ticks == 0 {
        (0, 0)
    } else {
        let diff: i128 = m.mark_price_ticks as i128 - m.oracle_price_ticks as i128;
        assert(-0x1_0000_0000_0000_0000 < diff < 0x1_0000_0000_0000_0000);
        assert(-0x1_0000_0000_0000_0000 * 10_000 < diff * BPS_DENOM < 0x1_0000_0000_0000_0000
            * 10_000) by (nonlinear_arith)
            requires
                -0x1_0000_0000_0000_0000 < diff < 0x1_0000_0000_0000_0000,
                BPS_DENOM == 10_000,
        ;
        let premium: i64 = clamp_i128_to_i64(
            divide_trunc(diff * (BPS_DENOM as i128), m.oracle_price_ticks as i128),
        );
        let k: u32 = m.params.funding_rate_k_bps;
        assert(-0x1_0000_0000_0000_0000 * 0x1_0000_0000 < k * premium < 0x1_0000_0000_0000_0000
            * 0x1_0000_0000) by (nonlinear_arith)
            requires
                0 <= k < 0x1_0000_0000,
                -0x1_0000_0000_0000_0000 < premium < 0x1_0000_0000_0000_0000,
        ;
        let raw: i128 = divide_trunc((k as i128) * (premium as i128), BPS_DENOM as i128);
        let max: i128 = m.params.funding_rate_max_bps_per_sec as i128;
        let rate: i128 = if raw > max {
            max
        } else if raw < -max {
            -max
        } else {
            raw
        };
        (rate as i64, premium)
    };
    PredictedFundingEvent {
        market: market_key,
        mark_price_ticks: m.mark_price_ticks,
        oracle_price_ticks: m.oracle_price_ticks,
        premium_bps: premium,
        rate_bps_per_sec,
        current_cum_index: m.cum_funding_index,
    }
}

/// The predicted rate never exceeds the market's limit, in either direction.
pub proof fn law_funding_rate_is_capped(k_bps: u32, premium: int, max: u32)
    ensures
        abs_int(funding_rate(k_bps, premium, max)) <= max,
{
}

} // verus!
