//! How fills, profits and losses move one position and its collateral.
use vstd::prelude::*;

use crate::errors::FlashBookError;
use crate::math::{
    abs_int, clamp_i128_to_i64, clamp_u128_to_u64, max_int, min_int, min_u64, sat_i128, sat_i64,
    sat_u64,
};
use crate::state::{
    MarketAccount, PositionAccount, Side, TraderStateAccount, byte_of_side, side_of_byte,
};

verus! {

/// Profit of closing `size` lots of a position that was entered at `entry` and
/// leaves at `exit`.
pub open spec fn closing_pnl(side: Side, size: int, entry: int, exit: int) -> int {
    match side {
        Side::Long => size * (exit - entry),
        Side::Short => size * (entry - exit),
    }
}

/// The volume-weighted mean of two prices, rounded down.
pub open spec fn mean_price(p0: int, n0: int, p1: int, n1: int) -> int {
    (p0 * n0 + p1 * n1) / (n0 + n1)
}

/// Profit that a fill realizes on `pos`: that of the lots it closes.
pub open spec fn fill_pnl(pos: PositionAccount, side: Side, size: u64, price: u64) -> int {
    if pos.size_lots == 0 || side_of_byte(pos.side) == side {
        0
    } else {
        closing_pnl(
            side_of_byte(pos.side),
            min_int(size as int, pos.size_lots as int),
            pos.entry_price_ticks as int,
            price as int,
        )
    }
}

/// Why a fill cannot be booked on `pos`, if it cannot: a number would not fit.
pub open spec fn fill_refusal(
    pos: PositionAccount,
    side: Side,
    size: u64,
    price: u64,
) -> Option<FlashBookError> {
    if pos.size_lots == 0 {
        None
    } else if side_of_byte(pos.side) == side {
        if pos.size_lots + size > u64::MAX {
            Some(FlashBookError::ArithmeticOverflow)
        } else {
            None
        }
    } else {
        let pnl = fill_pnl(pos, side, size, price);
        let realized = pos.realized_pnl_quote_lots + sat_i64(pnl);
        if sat_i128(pnl) != pnl || sat_i64(realized) != realized {
            Some(FlashBookError::ArithmeticOverflow)
        } else {
            None
        }
    }
}

/// `pos` after a fill of `size` lots at `price`:
/// an empty position opens; a fill on the same side averages the entry price; a
/// smaller fill on the other side reduces, and the last lot to go clears the
/// entry price; a larger one flips the position to the rest of the fill.
pub open spec fn position_after_fill(
    pos: PositionAccount,
    side: Side,
    size: u64,
    price: u64,
    funding_index: i128,
) -> PositionAccount {
    if pos.size_lots == 0 {
        PositionAccount {
            side: byte_of_side(side),
            size_lots: size,
            entry_price_ticks: price,
            cum_funding_index_at_entry: funding_index,
            ..pos
        }
    } else if side_of_byte(pos.side) == side {
        PositionAccount {
            size_lots: (pos.size_lots + size) as u64,
            entry_price_ticks: mean_price(
                pos.entry_price_ticks as int,
                pos.size_lots as int,
                price as int,
                size as int,
            ) as u64,
            ..pos
        }
    } else {
        let realized = (pos.realized_pnl_quote_lots + sat_i64(
            fill_pnl(pos, side, size, price),
        )) as i64;
        if size < pos.size_lots {
            PositionAccount {
                size_lots: (pos.size_lots - size) as u64,
                realized_pnl_quote_lots: realized,
                ..pos
            }
        } else if size == pos.size_lots {
            PositionAccount {
                size_lots: 0,
                entry_price_ticks: 0,
                cum_funding_index_at_entry: funding_index,
                realized_pnl_quote_lots: realized,
                ..pos
            }
        } else {
            PositionAccount {
                side: byte_of_side(side),
                size_lots: (size - pos.size_lots) as u64,
                entry_price_ticks: price,
                cum_funding_index_at_entry: funding_index,
                realized_pnl_quote_lots: realized,
                ..pos
            }
        }
    }
}

/// A weighted mean of two prices lies between them.
pub proof fn lemma_mean_price_between(p0: int, n0: int, p1: int, n1: int)
    requires
        0 <= p0,
        0 <= p1,
        0 <= n0,
        0 <= n1,
        0 < n0 + n1,
    ensures
        min_int(p0, p1) <= mean_price(p0, n0, p1, n1) <= max_int(p0, p1),
{
    let hi = max_int(p0, p1);
    let lo = min_int(p0, p1);
    let total = p0 * n0 + p1 * n1;
    let n = n0 + n1;
    assert(total <= hi * n) by (nonlinear_arith)
        requires
            p0 <= hi,
            p1 <= hi,
            0 <= n0,
            0 <= n1,
            total == p0 * n0 + p1 * n1,
            n == n0 + n1,
    ;
    assert(total >= lo * n) by (nonlinear_arith)
        requires
            p0 >= lo,
            p1 >= lo,
            0 <= n0,
            0 <= n1,
            total == p0 * n0 + p1 * n1,
            n == n0 + n1,
    ;
    assert(lo <= total / n <= hi) by (nonlinear_arith)
        requires
            lo * n <= total <= hi * n,
            n > 0,
    ;
}

/// The weighted mean of two prices, and the proof that nothing overflows on the
/// way as long as the two sizes add up to a `u64`.
pub fn weighted_entry(p0: u64, n0: u64, p1: u64, n1: u64) -> (r: u64)
    requires
        0 < n0 + n1 <= u64::MAX,
    ensures
        r == mean_price(p0 as int, n0 as int, p1 as int, n1 as int),
{
    proof {
        lemma_mean_price_between(p0 as int, n0 as int, p1 as int, n1 as int);
        assert(p0 * n0 + p1 * n1 <= u64::MAX * (n0 + n1)) by (nonlinear_arith)
            requires
                p0 <= u64::MAX,
                p1 <= u64::MAX,
                n0 >= 0,
                n1 >= 0,
        ;
        assert(u64::MAX * (n0 + n1) <= u64::MAX * u64::MAX) by (nonlinear_arith)
            requires
                n0 + n1 <= u64::MAX,
        ;
        assert(0 <= p0 * n0) by (nonlinear_arith);
        assert(0 <= p1 * n1) by (nonlinear_arith);
    }
    let a: u128 = p0 as u128 * n0 as u128;
    let b: u128 = p1 as u128 * n1 as u128;
    let n: u128 = n0 as u128 + n1 as u128;
    ((a + b) / n) as u64
}

/// `closing_pnl`, where it fits.
pub fn checked_closing_pnl(side: Side, size: u64, entry: u64, exit: u64) -> (r: Option<i128>)
    ensures
        match r {
            Some(v) => v == closing_pnl(side, size as int, entry as int, exit as int),
            None => sat_i128(closing_pnl(side, size as int, entry as int, exit as int))
                != closing_pnl(side, size as int, entry as int, exit as int),
        },
{
    let diff: i128 = exit as i128 - entry as i128;
    let signed: i128 = match side {
        Side::Long => size as i128,
        Side::Short => -(size as i128),
    };
    proof {
        assert(-(size as int) * (exit - entry) == size * (entry - exit)) by (nonlinear_arith);
    }
    signed.checked_mul(diff)
}

/// Books one fill on a position. On refusal the position is unchanged.
pub fn apply_fill_to_position(
    pos: &mut PositionAccount,
    fill_side: Side,
    fill_size_lots: u64,
    fill_price_ticks: u64,
    funding_index_now: i128,
) -> (r: Result<(), FlashBookError>)
    ensures
        match fill_refusal(*old(pos), fill_side, fill_size_lots, fill_price_ticks) {
            Some(e) => r == Err::<(), FlashBookError>(e) && *final(pos) == *old(pos),
            None => r == Ok::<(), FlashBookError>(()) && *final(pos) == position_after_fill(
                *old(pos),
                fill_side,
                fill_size_lots,
                fill_price_ticks,
                funding_index_now,
            ),
        },
{
    let cur_side = Side::from_byte(pos.side);
    if pos.size_lots == 0 {
        pos.side = fill_side.to_byte();
        pos.size_lots = fill_size_lots;
        pos.entry_price_ticks = fill_price_ticks;
        pos.cum_funding_index_at_entry = funding_index_now;
        return Ok(());
    }
    if cur_side == fill_side {
        let new_size: u64 = match pos.size_lots.checked_add(fill_size_lots) {
            Some(n) => n,
            None => {
                return Err(FlashBookError::ArithmeticOverflow);
            },
        };
        let entry: u64 = weighted_entry(
            pos.entry_price_ticks,
            pos.size_lots,
            fill_price_ticks,
            fill_size_lots,
        );
        pos.entry_price_ticks = entry;
        pos.size_lots = new_size;
        return Ok(());
    }
    let close_size: u64 = min_u64(fill_size_lots, pos.size_lots);
    let pnl: i128 = match checked_closing_pnl(
        cur_side,
        close_size,
        pos.entry_price_ticks,
        fill_price_ticks,
    ) {
        Some(v) => v,
        None => {
            return Err(FlashBookError::ArithmeticOverflow);
        },
    };
    let realized: i64 = match pos.realized_pnl_quote_lots.checked_add(clamp_i128_to_i64(pnl)) {
        Some(v) => v,
        None => {
            return Err(FlashBookError::ArithmeticOverflow);
        },
    };
    pos.realized_pnl_quote_lots = realized;
    if fill_size_lots <= pos.size_lots {
        pos.size_lots = pos.size_lots - fill_size_lots;
        if pos.size_lots == 0 {
            pos.entry_price_ticks = 0;
            pos.cum_funding_index_at_entry = funding_index_now;
        }
    } else {
        pos.size_lots = fill_size_lots - pos.size_lots;
        pos.side = fill_side.to_byte();
        pos.entry_price_ticks = fill_price_ticks;
        pos.cum_funding_index_at_entry = funding_index_now;
    }
    Ok(())
}

/// The collateral buckets (isolated, pooled) after a realized profit or loss of
/// `delta`. An isolated bucket absorbs a loss down to zero; the pool refuses one
/// that it cannot pay.
pub open spec fn pnl_routing(
    delta: int,
    isolated: bool,
    iso: u64,
    cross: u64,
) -> Result<(u64, u64), FlashBookError> {
    let moved = sat_u64(abs_int(delta));
    if delta > 0 {
        if isolated {
            if iso + moved > u64::MAX {
                Err(FlashBookError::ArithmeticOverflow)
            } else {
                Ok(((iso + moved) as u64, cross))
            }
        } else if cross + moved > u64::MAX {
            Err(FlashBookError::ArithmeticOverflow)
        } else {
            Ok((iso, (cross + moved) as u64))
        }
    } else if delta < 0 {
        if isolated {
            Ok((sat_u64(iso - moved) as u64, cross))
        } else if cross < moved {
            Err(FlashBookError::InsufficientCollateral)
        } else {
            Ok((iso, (cross - moved) as u64))
        }
    } else {
        Ok((iso, cross))
    }
}

/// Computes the two collateral buckets after a realized profit or loss.
pub fn compute_realized_pnl_routing(
    delta: i128,
    isolated: bool,
    iso_collateral: u64,
    cross_collateral: u64,
) -> (r: Result<(u64, u64), FlashBookError>)
    ensures
        r == pnl_routing(delta as int, isolated, iso_collateral, cross_collateral),
{
    if delta > 0 {
        let credit: u64 = clamp_u128_to_u64(delta as u128);
        if isolated {
            match iso_collateral.checked_add(credit) {
                Some(n) => Ok((n, cross_collateral)),
                None => Err(FlashBookError::ArithmeticOverflow),
            }
        } else {
            match cross_collateral.checked_add(credit) {
                Some(n) => Ok((iso_collateral, n)),
                None => Err(FlashBookError::ArithmeticOverflow),
            }
        }
    } else if delta < 0 {
        let debit: u64 = if delta < -(u64::MAX as i128) {
            u64::MAX
        } else {
            (-delta) as u64
        };
        if isolated {
            Ok((iso_collateral.saturating_sub(debit), cross_collateral))
        } else {
            match cross_collateral.checked_sub(debit) {
                Some(n) => Ok((iso_collateral, n)),
                None => Err(FlashBookError::InsufficientCollateral),
            }
        }
    } else {
        Ok((iso_collateral, cross_collateral))
    }
}

/// Moves a realized profit or loss into the position's own collateral or the
/// trader's pool. On refusal both are unchanged.
pub fn apply_realized_pnl_delta(
    delta: i128,
    isolated: bool,
    position: &mut PositionAccount,
    trader_state: &mut TraderStateAccount,
) -> (r: Result<(), FlashBookError>)
    ensures
        match pnl_routing(
            delta as int,
            isolated,
            old(position).collateral_quote_lots,
            old(trader_state).collateral_quote_lots,
        ) {
            Err(e) => r == Err::<(), FlashBookError>(e) && *final(position) == *old(position)
                && *final(trader_state) == *old(trader_state),
            Ok((iso, cross)) => r == Ok::<(), FlashBookError>(()) && *final(position) == (
            PositionAccount { collateral_quote_lots: iso, ..*old(position) })
                && *final(trader_state) == (TraderStateAccount {
                collateral_quote_lots: cross,
                ..*old(trader_state)
            }),
        },
{
    match compute_realized_pnl_routing(
        delta,
        isolated,
        position.collateral_quote_lots,
        trader_state.collateral_quote_lots,
    ) {
        Ok((iso, cross)) => {
            position.collateral_quote_lots = iso;
            trader_state.collateral_quote_lots = cross;
            Ok(())
        },
        Err(e) => Err(e),
    }
}

/// The two buckets after a deleveraging loss: the bucket that backs the position
/// pays, down to zero, and the other is not touched.
pub open spec fn adl_loss(isolated: bool, loss: u64, pos: u64, pool: u64) -> (u64, u64) {
    if isolated {
        (sat_u64(pos - loss) as u64, pool)
    } else {
        (pos, sat_u64(pool - loss) as u64)
    }
}

/// Takes a deleveraging loss from the bucket that backs the position.
pub fn route_adl_loss(
    isolated: bool,
    loss_quote_lots: u64,
    pos_collateral: u64,
    trader_state_collateral: u64,
) -> (r: (u64, u64))
    ensures
        r == adl_loss(isolated, loss_quote_lots, pos_collateral, trader_state_collateral),
{
    if isolated {
        (pos_collateral.saturating_sub(loss_quote_lots), trader_state_collateral)
    } else {
        (pos_collateral, trader_state_collateral.saturating_sub(loss_quote_lots))
    }
}

/// The two buckets after a deleveraging gain: the bucket that backs the position
/// receives it.
pub open spec fn adl_gain(
    isolated: bool,
    gain: u64,
    pos: u64,
    pool: u64,
) -> Result<(u64, u64), FlashBookError> {
    if isolated {
        if pos + gain > u64::MAX {
            Err(FlashBookError::ArithmeticOverflow)
        } else {
            Ok(((pos + gain) as u64, pool))
        }
    } else if pool + gain > u64::MAX {
        Err(FlashBookError::ArithmeticOverflow)
    } else {
        Ok((pos, (pool + gain) as u64))
    }
}

/// Pays a deleveraging gain into the bucket that backs the position.
pub fn route_adl_gain(
    isolated: bool,
    gain_quote_lots: u64,
    pos_collateral: u64,
    trader_state_collateral: u64,
) -> (r: Result<(u64, u64), FlashBookError>)
    ensures
        r == adl_gain(isolated, gain_quote_lots, pos_collateral, trader_state_collateral),
{
    if isolated {
        match pos_collateral.checked_add(gain_quote_lots) {
            Some(n) => Ok((n, trader_state_collateral)),
            None => Err(FlashBookError::ArithmeticOverflow),
        }
    } else {
        match trader_state_collateral.checked_add(gain_quote_lots) {
            Some(n) => Ok((pos_collateral, n)),
            None => Err(FlashBookError::ArithmeticOverflow),
        }
    }
}

/// Open interest (long, short) after one trader's position goes from
/// `(pre_side, pre_size)` to `(post_side, post_size)`.
pub open spec fn oi_after(
    long: u64,
    short: u64,
    pre_side: u8,
    pre_size: u64,
    post_side: u8,
    post_size: u64,
) -> Result<(u64, u64), FlashBookError> {
    let l0 = if pre_side == 0 {
        sat_u64(long - pre_size)
    } else {
        long as int
    };
    let s0 = if pre_side == 0 {
        short as int
    } else {
        sat_u64(short - pre_size)
    };
    let l1 = if post_side == 0 {
        l0 + post_size
    } else {
        l0
    };
    let s1 = if post_side == 0 {
        s0
    } else {
        s0 + post_size
    };
    if l1 > u64::MAX || s1 > u64::MAX {
        Err(FlashBookError::ArithmeticOverflow)
    } else {
        Ok((l1 as u64, s1 as u64))
    }
}

/// Moves the open-interest counters of a market along with one trader's
/// position. On refusal the market is unchanged.
pub fn update_oi(
    market: &mut MarketAccount,
    pre_side: u8,
    pre_size: u64,
    post_side: u8,
    post_size: u64,
) -> (r: Result<(), FlashBookError>)
    ensures
        match oi_after(
            old(market).oi_long_lots,
            old(market).oi_short_lots,
            pre_side,
            pre_size,
            post_side,
            post_size,
        ) {
            Err(e) => r == Err::<(), FlashBookError>(e) && *final(market) == *old(market),
            Ok((l, s)) => r == Ok::<(), FlashBookError>(()) && *final(market) == (MarketAccount {
                oi_long_lots: l,
                oi_short_lots: s,
                ..*old(market)
            }),
        },
{
    let mut long: u64 = market.oi_long_lots;
    let mut short: u64 = market.oi_short_lots;
    if pre_side == 0 {
        long = long.saturating_sub(pre_size);
    } else {
        short = short.saturating_sub(pre_size);
    }
    if post_side == 0 {
        match long.checked_add(post_size) {
            Some(n) => {
                long = n;
            },
            None => {
                return Err(FlashBookError::ArithmeticOverflow);
            },
        }
    } else {
        match short.checked_add(post_size) {
            Some(n) => {
                short = n;
            },
            None => {
                return Err(FlashBookError::ArithmeticOverflow);
            },
        }
    }
    market.oi_long_lots = long;
    market.oi_short_lots = short;
    Ok(())
}

} // verus!
