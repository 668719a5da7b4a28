//! Closing an underwater position against a profitable one, when the insurance
//! fund is spent.
use vstd::prelude::*;

use crate::errors::FlashBookError;
use crate::events::AutoDeleveragedEvent;
use crate::keys::Pubkey;
use crate::mark::{sat_notional, saturating_notional};
use crate::math::{
    clamp_i128_to_i64, clamp_u128_to_u64, max_int, reinterpret_i64, sat_i64, sat_u64, wrapped_i64,
};
use crate::position::{adl_gain, adl_loss, oi_after, route_adl_gain, route_adl_loss, update_oi};
use crate::risk::{
    Assessment, RiskMarketSnap, RiskPosSnap, market_snap, pos_snap, snap_market, snap_position,
};
use crate::settlement::is_isolated;
use crate::state::{InsuranceFundAccount, MarketAccount, PositionAccount, TraderStateAccount};

verus! {

/// The accounts of one deleveraging.
#[derive(Clone, Copy, Debug, PartialEq, Eq, Structural)]
pub struct AutoDeleverage {
    pub caller: Pubkey,
    pub market_key: Pubkey,
    pub market: MarketAccount,
    pub insurance_fund: InsuranceFundAccount,
    pub underwater_trader_state: TraderStateAccount,
    pub underwater_position: PositionAccount,
    pub counter_trader_state: TraderStateAccount,
    pub counter_position: PositionAccount,
}

/// What backs the underwater position: its own collateral if it is isolated, else
/// the trader's pool.
pub open spec fn underwater_backing(a: AutoDeleverage) -> u64 {
    if is_isolated(a.underwater_position) {
        a.underwater_position.collateral_quote_lots
    } else {
        a.underwater_trader_state.collateral_quote_lots
    }
}

/// The price at which a position has used up its collateral, in whole ticks on the
/// side of the entry price, and at least 1.
pub open spec fn bankruptcy_price(side: u8, entry: u64, collateral: u64, size: u64, tick: u64) -> u64 {
    let per_lot = collateral as int / (size * tick);
    if side == 0 {
        max_int(entry - per_lot, 1) as u64
    } else {
        sat_u64(entry + per_lot) as u64
    }
}

/// Computes the price at which a position has used up its collateral.
pub fn compute_bankruptcy_price(side: u8, entry: u64, collateral: u64, size: u64, tick: u64) -> (r:
    u64)
    requires
        size > 0,
        tick > 0,
    ensures
        r == bankruptcy_price(side, entry, collateral, size, tick),
{
    proof {
        assert(0 < size * tick <= u64::MAX * u64::MAX) by (nonlinear_arith)
            requires
                0 < size <= u64::MAX,
                0 < tick <= u64::MAX,
        ;
    }
    let denom: u128 = (size as u128) * (tick as u128);
    let per_lot: u128 = (collateral as u128) / denom;
    proof {
        assert(0 <= per_lot <= collateral) by (nonlinear_arith)
            requires
                per_lot == collateral as int / denom as int,
                denom > 0,
        ;
    }
    if side == 0 {
        let p: u128 = (entry as u128).saturating_sub(per_lot);
        if p < 1 {
            1
        } else {
            p as u64
        }
    } else {
        clamp_u128_to_u64(entry as u128 + per_lot)
    }
}

/// Up to the bankruptcy price a position loses no more than its collateral, and
/// one tick further it loses more.
pub proof fn law_bankruptcy_exhausts_collateral(
    side: u8,
    entry: u64,
    collateral: u64,
    size: u64,
    tick: u64,
)
    requires
        size > 0,
        tick > 0,
        collateral as int / (size * tick) < entry,
        entry + collateral as int / (size * tick) <= u64::MAX,
    ensures
        ({
            let bp = bankruptcy_price(side, entry, collateral, size, tick);
            let moved = if side == 0 {
                entry - bp
            } else {
                bp - entry
            };
            moved * (size * tick) <= collateral < (moved + 1) * (size * tick)
        }),
{
    let d = size * tick;
    let c = collateral as int;
    assert(d > 0) by (nonlinear_arith)
        requires
            size > 0,
            tick > 0,
            d == size * tick,
    ;
    let q = c / d;
    assert(q * d <= c < (q + 1) * d) by (nonlinear_arith)
        requires
            d > 0,
            q == c / d,
    ;
}

/// The part of the collateral that goes with `close` of `size` lots.
pub open spec fn proportional_loss(collateral: u64, close: u64, size: u64) -> u64 {
    (collateral * close / (size as int)) as u64
}

/// Computes the part of the collateral that goes with `close` of `size` lots.
pub fn compute_proportional_loss(collateral: u64, close: u64, size: u64) -> (r: u64)
    requires
        0 < close <= size,
    ensures
        r == proportional_loss(collateral, close, size),
        r <= collateral,
{
    proof {
        assert(collateral * close <= u64::MAX * u64::MAX) by (nonlinear_arith)
            requires
                collateral <= u64::MAX,
                close <= u64::MAX,
        ;
        assert(0 <= collateral * close / (size as int) <= collateral) by (nonlinear_arith)
            requires
                0 < close <= size,
                collateral >= 0,
        ;
    }
    ((collateral as u128) * (close as u128) / (size as u128)) as u64
}

/// What the counterparty gains on `close` lots at price `bp`.
pub open spec fn counter_gain(a: AutoDeleverage, close: u64, bp: u64) -> u64 {
    let c = a.counter_position;
    let per_lot = if c.side == 0 {
        max_int(bp - c.entry_price_ticks, 0)
    } else {
        max_int(c.entry_price_ticks - bp, 0)
    };
    sat_u64(sat_notional(close as int, per_lot, a.market.params.tick_size as int)) as u64
}

/// Computes what the counterparty gains.
pub fn compute_counter_gain(a: &AutoDeleverage, close: u64, bp: u64) -> (r: u64)
    ensures
        r == counter_gain(*a, close, bp),
{
    let entry: u64 = a.counter_position.entry_price_ticks;
    let per_lot: u64 = if a.counter_position.side == 0 {
        bp.saturating_sub(entry)
    } else {
        entry.saturating_sub(bp)
    };
    clamp_u128_to_u64(saturating_notional(close, per_lot, a.market.params.tick_size))
}

/// The bankruptcy price of the underwater position.
pub open spec fn deleveraging_price(a: AutoDeleverage) -> u64 {
    bankruptcy_price(
        a.underwater_position.side,
        a.underwater_position.entry_price_ticks,
        underwater_backing(a),
        a.underwater_position.size_lots,
        a.market.params.tick_size,
    )
}

/// Why a deleveraging is not admitted, if it is not.
pub open spec fn deleveraging_gate(a: AutoDeleverage, close: u64, assessment: Assessment) -> Option<
    FlashBookError,
> {
    let u = a.underwater_position;
    let c = a.counter_position;
    if close == 0 {
        Some(FlashBookError::ZeroSize)
    } else if u.market != a.market_key || c.market != a.market_key {
        Some(FlashBookError::WrongMarket)
    } else if u.size_lots == 0 || c.size_lots == 0 {
        Some(FlashBookError::LiquidationStale)
    } else if u.side == c.side || close > u.size_lots || close > c.size_lots {
        Some(FlashBookError::OutOfRange)
    } else if a.underwater_trader_state.trader != u.trader || a.counter_trader_state.trader
        != c.trader {
        Some(FlashBookError::WrongTrader)
    } else if u.trader == c.trader {
        Some(FlashBookError::OutOfRange)
    } else if a.insurance_fund.balance_quote_lots >= a.insurance_fund.pause_threshold_quote_lots {
        Some(FlashBookError::AdlNotEligible)
    } else {
        match assessment {
            Err(e) => Some(e),
            Ok(m) => if m.is_healthy {
                Some(FlashBookError::NotLiquidatable)
            } else if a.market.params.tick_size == 0 {
                Some(FlashBookError::ZeroPrice)
            } else if !counter_profits(a) {
                Some(FlashBookError::AdlNotEligible)
            } else {
                None
            },
        }
    }
}

/// The counterparty would close with a profit at the bankruptcy price.
pub open spec fn counter_profits(a: AutoDeleverage) -> bool {
    if a.counter_position.side == 0 {
        deleveraging_price(a) > a.counter_position.entry_price_ticks
    } else {
        deleveraging_price(a) < a.counter_position.entry_price_ticks
    }
}

/// What the margin engine is asked about.
pub fn deleveraging_question(a: &AutoDeleverage) -> (r: (RiskPosSnap, RiskMarketSnap))
    ensures
        r.0 == pos_snap(a.underwater_position, a.underwater_position.collateral_quote_lots),
        r.1 == market_snap(
            a.market_key,
            a.market,
            a.market.mark_price_ticks,
            a.market.params.maintenance_margin_ratio_bps,
        ),
{
    (
        snap_position(&a.underwater_position, a.underwater_position.collateral_quote_lots),
        snap_market(
            a.market_key,
            &a.market,
            a.market.mark_price_ticks,
            a.market.params.maintenance_margin_ratio_bps,
        ),
    )
}

/// Tests whether a deleveraging is admitted, and gives its price.
pub fn check_deleveraging(a: &AutoDeleverage, close: u64, assessment: Assessment) -> (r: Result<
    u64,
    FlashBookError,
>)
    ensures
        r == (match deleveraging_gate(*a, close, assessment) {
            Some(e) => Err::<u64, FlashBookError>(e),
            None => Ok(deleveraging_price(*a)),
        }),
{
    let u = a.underwater_position;
    let c = a.counter_position;
    if close == 0 {
        return Err(FlashBookError::ZeroSize);
    }
    if u.market != a.market_key || c.market != a.market_key {
        return Err(FlashBookError::WrongMarket);
    }
    if u.size_lots == 0 || c.size_lots == 0 {
        return Err(FlashBookError::LiquidationStale);
    }
    if u.side == c.side || close > u.size_lots || close > c.size_lots {
        return Err(FlashBookError::OutOfRange);
    }
    if a.underwater_trader_state.trader != u.trader || a.counter_trader_state.trader != c.trader {
        return Err(FlashBookError::WrongTrader);
    }
    if u.trader == c.trader {
        return Err(FlashBookError::OutOfRange);
    }
    if a.insurance_fund.balance_quote_lots >= a.insurance_fund.pause_threshold_quote_lots {
        return Err(FlashBookError::AdlNotEligible);
    }
    match assessment {
        Ok(m) => {
            if m.is_healthy {
                return Err(FlashBookError::NotLiquidatable);
            }
        },
        Err(e) => {
            return Err(e);
        },
    }
    if a.market.params.tick_size == 0 {
        return Err(FlashBookError::ZeroPrice);
    }
    let backing: u64 = if u.collateral_quote_lots > 0 {
        u.collateral_quote_lots
    } else {
        a.underwater_trader_state.collateral_quote_lots
    };
    let bp: u64 = compute_bankruptcy_price(
        u.side,
        u.entry_price_ticks,
        backing,
        u.size_lots,
        a.market.params.tick_size,
    );
    let profits: bool = if c.side == 0 {
        bp > c.entry_price_ticks
    } else {
        bp < c.entry_price_ticks
    };
    if !profits {
        return Err(FlashBookError::AdlNotEligible);
    }
    Ok(bp)
}

/// A trader account after a position of it was reduced, with new collateral and
/// realized result.
pub open spec fn party_after(s: TraderStateAccount, collateral: u64, pnl: int, closed: bool) -> TraderStateAccount {
    TraderStateAccount {
        collateral_quote_lots: collateral,
        realized_pnl_quote_lots: sat_i64(s.realized_pnl_quote_lots + pnl) as i64,
        open_positions: if closed && s.open_positions > 0 {
            (s.open_positions - 1) as u8
        } else {
            s.open_positions
        },
        ..s
    }
}

/// A position after `close` lots were taken off it.
pub open spec fn position_reduced(p: PositionAccount, collateral: u64, close: u64) -> PositionAccount {
    let size = (p.size_lots - close) as u64;
    PositionAccount {
        collateral_quote_lots: collateral,
        size_lots: size,
        entry_price_ticks: if size == 0 {
            0
        } else {
            p.entry_price_ticks
        },
        ..p
    }
}

/// The accounts after `close` lots were closed on both sides at the bankruptcy
/// price.
pub open spec fn deleveraged(a: AutoDeleverage, close: u64) -> Result<
    AutoDeleverage,
    FlashBookError,
> {
    let u = a.underwater_position;
    let c = a.counter_position;
    let us = a.underwater_trader_state;
    let cs = a.counter_trader_state;
    let loss = proportional_loss(underwater_backing(a), close, u.size_lots);
    let gain = counter_gain(a, close, deleveraging_price(a));
    let lost = adl_loss(
        is_isolated(u),
        loss,
        u.collateral_quote_lots,
        us.collateral_quote_lots,
    );
    match adl_gain(is_isolated(c), gain, c.collateral_quote_lots, cs.collateral_quote_lots) {
        Err(e) => Err(e),
        Ok(won) => {
            let u1 = position_reduced(u, lost.0, close);
            let u2 = if u1.size_lots == 0 {
                PositionAccount { unhealthy_since_slot: 0, last_liquidated_at_slot: 0, ..u1 }
            } else {
                u1
            };
            let c1 = position_reduced(c, won.0, close);
            match oi_after(
                a.market.oi_long_lots,
                a.market.oi_short_lots,
                u.side,
                u.size_lots,
                u.side,
                u1.size_lots,
            ) {
                Err(e) => Err(e),
                Ok((l1, s1)) => match oi_after(l1, s1, c.side, c.size_lots, c.side, c1.size_lots) {
                    Err(e) => Err(e),
                    Ok((l2, s2)) => Ok(
                        AutoDeleverage {
                            market: MarketAccount {
                                oi_long_lots: l2,
                                oi_short_lots: s2,
                                total_liquidations: sat_u64(
                                    a.market.total_liquidations + 1,
                                ) as u64,
                                ..a.market
                            },
                            underwater_position: u2,
                            underwater_trader_state: party_after(
                                us,
                                lost.1,
                                -wrapped_i64(loss as int),
                                u1.size_lots == 0,
                            ),
                            counter_position: c1,
                            counter_trader_state: party_after(
                                cs,
                                won.1,
                                wrapped_i64(gain as int),
                                c1.size_lots == 0,
                            ),
                            ..a
                        },
                    ),
                },
            }
        },
    }
}

/// Reduces a position.
pub fn reduce_position(p: PositionAccount, collateral: u64, close: u64) -> (r: PositionAccount)
    requires
        close <= p.size_lots,
    ensures
        r == position_reduced(p, collateral, close),
{
    let mut q = p;
    q.collateral_quote_lots = collateral;
    q.size_lots = p.size_lots - close;
    if q.size_lots == 0 {
        q.entry_price_ticks = 0;
    }
    q
}

/// Books the result of a reduced position on its trader account.
pub fn settle_party(s: TraderStateAccount, collateral: u64, pnl: i128, closed: bool) -> (r:
    TraderStateAccount)
    requires
        -0x1_0000_0000_0000_0000 < pnl < 0x1_0000_0000_0000_0000,
    ensures
        r == party_after(s, collateral, pnl as int, closed),
{
    let mut t = s;
    t.collateral_quote_lots = collateral;
    t.realized_pnl_quote_lots = clamp_i128_to_i64(s.realized_pnl_quote_lots as i128 + pnl);
    if closed && s.open_positions > 0 {
        t.open_positions = s.open_positions - 1;
    }
    t
}

/// Closes `close` lots on both sides at the given bankruptcy price.
pub fn settle_deleveraging(a: AutoDeleverage, close: u64, bp: u64) -> (r: Result<
    AutoDeleverage,
    FlashBookError,
>)
    requires
        0 < close <= a.underwater_position.size_lots,
        close <= a.counter_position.size_lots,
        bp == deleveraging_price(a),
    ensures
        r == deleveraged(a, close),
{
    let u = a.underwater_position;
    let c = a.counter_position;
    let us = a.underwater_trader_state;
    let cs = a.counter_trader_state;
    let isolated: bool = u.collateral_quote_lots > 0;
    let backing: u64 = if isolated {
        u.collateral_quote_lots
    } else {
        us.collateral_quote_lots
    };
    let loss: u64 = compute_proportional_loss(backing, close, u.size_lots);
    let gain: u64 = compute_counter_gain(&a, close, bp);
    let (u_pos, u_pool): (u64, u64) = route_adl_loss(
        isolated,
        loss,
        u.collateral_quote_lots,
        us.collateral_quote_lots,
    );
    let (c_pos, c_pool): (u64, u64) = match route_adl_gain(
        c.collateral_quote_lots > 0,
        gain,
        c.collateral_quote_lots,
        cs.collateral_quote_lots,
    ) {
        Ok(w) => w,
        Err(e) => {
            return Err(e);
        },
    };
    let mut u1 = reduce_position(u, u_pos, close);
    if u1.size_lots == 0 {
        u1.unhealthy_since_slot = 0;
        u1.last_liquidated_at_slot = 0;
    }
    let c1 = reduce_position(c, c_pos, close);
    let mut market = a.market;
    match update_oi(&mut market, u.side, u.size_lots, u.side, u1.size_lots) {
        Ok(_) => {},
        Err(e) => {
            return Err(e);
        },
    }
    match update_oi(&mut market, c.side, c.size_lots, c.side, c1.size_lots) {
        Ok(_) => {},
        Err(e) => {
            return Err(e);
        },
    }
    market.total_liquidations = market.total_liquidations.saturating_add(1);
    let lost: i64 = reinterpret_i64(loss);
    let won: i64 = reinterpret_i64(gain);
    Ok(
        AutoDeleverage {
            market,
            underwater_position: u1,
            underwater_trader_state: settle_party(us, u_pool, -(lost as i128), u1.size_lots == 0),
            counter_position: c1,
            counter_trader_state: settle_party(cs, c_pool, won as i128, c1.size_lots == 0),
            ..a
        },
    )
}

/// Closes `close_size_lots` of an underwater position against a profitable one of
/// the other side, at the price at which the underwater position is bankrupt. This
/// is admitted only while the insurance fund is below its threshold.
///
/// `assessment` is the margin engine's answer on [`deleveraging_question`], against
/// the underwater trader's pool. On refusal nothing changes.
pub fn auto_deleverage(ctx: &mut AutoDeleverage, close_size_lots: u64, assessment: Assessment) -> (r:
    Result<AutoDeleveragedEvent, FlashBookError>)
    ensures
        match deleveraging_gate(*old(ctx), close_size_lots, assessment) {
            Some(e) => r == Err::<AutoDeleveragedEvent, FlashBookError>(e) && *final(ctx) == *old(
                ctx,
            ),
            None => match deleveraged(*old(ctx), close_size_lots) {
                Err(e) => r == Err::<AutoDeleveragedEvent, FlashBookError>(e) && *final(ctx)
                    == *old(ctx),
                Ok(b) => {
                    let bp = deleveraging_price(*old(ctx));
                    &&& *final(ctx) == b
                    &&& r == Ok::<AutoDeleveragedEvent, FlashBookError>(
                        AutoDeleveragedEvent {
                            market: old(ctx).market_key,
                            underwater_trader: old(ctx).underwater_position.trader,
                            counter_trader: old(ctx).counter_position.trader,
                            close_size_lots,
                            bankruptcy_price_ticks: bp,
                            counter_gain_quote_lots: counter_gain(*old(ctx), close_size_lots, bp),
                            executor: old(ctx).caller,
                        },
                    )
                },
            },
        },
{
    let a = *ctx;
    let bp: u64 = match check_deleveraging(&a, close_size_lots, assessment) {
        Ok(p) => p,
        Err(e) => {
            return Err(e);
        },
    };
    match settle_deleveraging(a, close_size_lots, bp) {
        Ok(b) => {
            *ctx = b;
        },
        Err(e) => {
            return Err(e);
        },
    }
    Ok(
        AutoDeleveragedEvent {
            market: a.market_key,
            underwater_trader: a.underwater_position.trader,
            counter_trader: a.counter_position.trader,
            close_size_lots,
            bankruptcy_price_ticks: bp,
            counter_gain_quote_lots: compute_counter_gain(&a, close_size_lots, bp),
            executor: a.caller,
        },
    )
}

/// Nobody is forced into a loss: the counterparty of an admitted deleveraging gains
/// at least one unit per closed lot, as far as a `u64` can hold it.
pub proof fn law_counterparty_gains(a: AutoDeleverage, close: u64, assessment: Assessment)
    requires
        deleveraging_gate(a, close, assessment) is None,
    ensures
        counter_gain(a, close, deleveraging_price(a)) >= close,
{
    let bp = deleveraging_price(a);
    let c = a.counter_position;
    let per_lot = if c.side == 0 {
        bp - c.entry_price_ticks
    } else {
        c.entry_price_ticks - bp
    };
    let tick = a.market.params.tick_size as int;
    assert(close * per_lot >= close) by (nonlinear_arith)
        requires
            per_lot >= 1,
            close >= 0,
    ;
    assert(close * per_lot * tick >= close) by (nonlinear_arith)
        requires
            close * per_lot >= close,
            tick >= 1,
            close >= 0,
    ;
}

/// Deleveraging takes the same number of lots off both sides, so open interest
/// that was balanced stays balanced.
pub proof fn law_deleveraging_keeps_open_interest_balanced(
    a: AutoDeleverage,
    close: u64,
    assessment: Assessment,
)
    requires
        deleveraging_gate(a, close, assessment) is None,
        deleveraged(a, close) is Ok,
        a.underwater_position.side <= 1,
        a.counter_position.side <= 1,
        a.market.oi_long_lots == a.market.oi_short_lots,
        a.underwater_position.size_lots <= a.market.oi_long_lots,
        a.counter_position.size_lots <= a.market.oi_long_lots,
    ensures
        ({
            let m = deleveraged(a, close)->Ok_0.market;
            m.oi_long_lots == m.oi_short_lots && m.oi_long_lots == a.market.oi_long_lots - close
        }),
{
}

/// An underwater trader never loses more than what backs the position, and never
/// anything that does not back it.
pub proof fn law_deleveraging_loss_stays_in_its_bucket(
    a: AutoDeleverage,
    close: u64,
    assessment: Assessment,
)
    requires
        deleveraging_gate(a, close, assessment) is None,
        deleveraged(a, close) is Ok,
    ensures
        ({
            let b = deleveraged(a, close)->Ok_0;
            let loss = proportional_loss(
                underwater_backing(a),
                close,
                a.underwater_position.size_lots,
            );
            &&& loss <= underwater_backing(a)
            &&& b.underwater_position.collateral_quote_lots
                + b.underwater_trader_state.collateral_quote_lots + loss
                == a.underwater_position.collateral_quote_lots
                + a.underwater_trader_state.collateral_quote_lots
            &&& is_isolated(a.underwater_position)
                ==> b.underwater_trader_state.collateral_quote_lots
                == a.underwater_trader_state.collateral_quote_lots
        }),
{
    let k = underwater_backing(a) as int;
    let n = close as int;
    let s = a.underwater_position.size_lots as int;
    assert(0 <= k * n / s <= k) by (nonlinear_arith)
        requires
            0 < n <= s,
            k >= 0,
    ;
}

} // verus!
