//! The per-market liquidity pool: its exposure, and shares in its capital.
use vstd::prelude::*;

use crate::constants::EMPTY_SIDE;
use crate::errors::FlashBookError;
use crate::events::{
    FlpDepositedV3Event, FlpFillRecordedV3Event, FlpPerMarketInitV3Event, FlpWithdrawnV3Event,
};
use crate::keys::Pubkey;
use crate::math::{clamp_u128_to_u64, sat_i64, sat_u128, sat_u64, saturating_add_i64};
use crate::state::{FlpExposurePerMarketAccountV3, FlpPositionAccountV3};
use crate::vaults_v3::{
    compute_vault_payout, compute_vault_shares, law_vault_deposit_is_fair, vault_payout,
    vault_shares,
};

verus! {

/// Sets up the pool of one market, without exposure or capital. The signer becomes
/// its authority.
pub fn init_flp_per_market_v3(market: Pubkey, authority: Pubkey, bump: u8) -> (r: (
    FlpExposurePerMarketAccountV3,
    FlpPerMarketInitV3Event,
))
    ensures
        r == (
            FlpExposurePerMarketAccountV3 {
                market,
                authority,
                bump,
                side: EMPTY_SIDE,
                size_lots: 0,
                entry_price_ticks: 0,
                total_capital_quote_lots: 0,
                realized_pnl: 0,
                lp_shares_outstanding: 0,
            },
            FlpPerMarketInitV3Event { market, authority },
        ),
{
    (
        FlpExposurePerMarketAccountV3 {
            market,
            authority,
            bump,
            side: EMPTY_SIDE,
            size_lots: 0,
            entry_price_ticks: 0,
            total_capital_quote_lots: 0,
            realized_pnl: 0,
            lp_shares_outstanding: 0,
        },
        FlpPerMarketInitV3Event { market, authority },
    )
}

/// Why a fill cannot be recorded, if it cannot.
pub open spec fn record_fill_refusal(
    x: FlpExposurePerMarketAccountV3,
    signer: Pubkey,
    size: u64,
    price: u64,
    side: u8,
) -> Option<FlashBookError> {
    if side > 1 {
        Some(FlashBookError::OutOfRange)
    } else if size == 0 {
        Some(FlashBookError::ZeroSize)
    } else if price == 0 {
        Some(FlashBookError::ZeroPrice)
    } else if x.authority != signer {
        Some(FlashBookError::Unauthorized)
    } else {
        None
    }
}

/// The average entry price after adding lots, at most `u64::MAX`.
pub open spec fn blended_entry(x: FlpExposurePerMarketAccountV3, size: u64, price: u64) -> u64 {
    let cost = sat_u128(x.entry_price_ticks * x.size_lots + price * size);
    sat_u64(cost / sat_u64(x.size_lots + size)) as u64
}

/// The exposure after a fill: it opens, grows at the average price, shrinks at its
/// entry price, closes, or turns round at the price of the fill.
pub open spec fn exposure_after(
    x: FlpExposurePerMarketAccountV3,
    size: u64,
    price: u64,
    side: u8,
    pnl: i64,
) -> FlpExposurePerMarketAccountV3 {
    let moved = if x.size_lots == 0 {
        FlpExposurePerMarketAccountV3 { side, size_lots: size, entry_price_ticks: price, ..x }
    } else if x.side == side {
        FlpExposurePerMarketAccountV3 {
            size_lots: sat_u64(x.size_lots + size) as u64,
            entry_price_ticks: blended_entry(x, size, price),
            ..x
        }
    } else if size < x.size_lots {
        FlpExposurePerMarketAccountV3 { size_lots: (x.size_lots - size) as u64, ..x }
    } else if size == x.size_lots {
        FlpExposurePerMarketAccountV3 {
            side: EMPTY_SIDE,
            size_lots: 0,
            entry_price_ticks: 0,
            ..x
        }
    } else {
        FlpExposurePerMarketAccountV3 {
            side,
            size_lots: (size - x.size_lots) as u64,
            entry_price_ticks: price,
            ..x
        }
    };
    FlpExposurePerMarketAccountV3 {
        realized_pnl: sat_i64(x.realized_pnl + pnl) as i64,
        ..moved
    }
}

/// Computes the average entry price after adding lots.
pub fn compute_blended_entry(x: &FlpExposurePerMarketAccountV3, size: u64, price: u64) -> (r: u64)
    requires
        x.size_lots > 0,
    ensures
        r == blended_entry(*x, size, price),
{
    proof {
        assert(0 <= x.entry_price_ticks * x.size_lots <= u64::MAX * u64::MAX) by (nonlinear_arith)
            requires
                0 <= x.entry_price_ticks <= u64::MAX,
                0 <= x.size_lots <= u64::MAX,
        ;
        assert(0 <= price * size <= u64::MAX * u64::MAX) by (nonlinear_arith)
            requires
                0 <= price <= u64::MAX,
                0 <= size <= u64::MAX,
        ;
    }
    let held: u128 = (x.entry_price_ticks as u128) * (x.size_lots as u128);
    let added: u128 = (price as u128) * (size as u128);
    let cost: u128 = held.saturating_add(added);
    let new_size: u64 = x.size_lots.saturating_add(size);
    proof {
        assert(cost as int / new_size as int >= 0) by (nonlinear_arith)
            requires
                cost >= 0,
                new_size > 0,
        ;
    }
    clamp_u128_to_u64(cost / (new_size as u128))
}

/// Records a fill on the pool's exposure to a market. On refusal nothing changes.
pub fn record_flp_fill_v3(
    exposure: &mut FlpExposurePerMarketAccountV3,
    authority: Pubkey,
    size_lots: u64,
    price_ticks: u64,
    side: u8,
    realized_pnl_delta: i64,
) -> (r: Result<FlpFillRecordedV3Event, FlashBookError>)
    ensures
        match record_fill_refusal(*old(exposure), authority, size_lots, price_ticks, side) {
            Some(e) => r == Err::<FlpFillRecordedV3Event, FlashBookError>(e) && *final(exposure)
                == *old(exposure),
            None => {
                let x = exposure_after(
                    *old(exposure),
                    size_lots,
                    price_ticks,
                    side,
                    realized_pnl_delta,
                );
                &&& *final(exposure) == x
                &&& r == Ok::<FlpFillRecordedV3Event, FlashBookError>(
                    FlpFillRecordedV3Event {
                        market: x.market,
                        side,
                        size_lots,
                        price_ticks,
                        realized_pnl_delta,
                        new_side: x.side,
                        new_size_lots: x.size_lots,
                        new_realized_pnl: x.realized_pnl,
                    },
                )
            },
        },
{
    if side > 1 {
        return Err(FlashBookError::OutOfRange);
    }
    if size_lots == 0 {
        return Err(FlashBookError::ZeroSize);
    }
    if price_ticks == 0 {
        return Err(FlashBookError::ZeroPrice);
    }
    if exposure.authority != authority {
        return Err(FlashBookError::Unauthorized);
    }
    if exposure.size_lots == 0 {
        exposure.side = side;
        exposure.size_lots = size_lots;
        exposure.entry_price_ticks = price_ticks;
    } else if exposure.side == side {
        let entry: u64 = compute_blended_entry(exposure, size_lots, price_ticks);
        exposure.size_lots = exposure.size_lots.saturating_add(size_lots);
        exposure.entry_price_ticks = entry;
    } else if size_lots <= exposure.size_lots {
        exposure.size_lots = exposure.size_lots - size_lots;
        if exposure.size_lots == 0 {
            exposure.side = EMPTY_SIDE;
            exposure.entry_price_ticks = 0;
        }
    } else {
        exposure.size_lots = size_lots - exposure.size_lots;
        exposure.side = side;
        exposure.entry_price_ticks = price_ticks;
    }
    exposure.realized_pnl = saturating_add_i64(exposure.realized_pnl, realized_pnl_delta);
    Ok(
        FlpFillRecordedV3Event {
            market: exposure.market,
            side,
            size_lots,
            price_ticks,
            realized_pnl_delta,
            new_side: exposure.side,
            new_size_lots: exposure.size_lots,
            new_realized_pnl: exposure.realized_pnl,
        },
    )
}

/// The exposure as a signed number of lots: long is positive.
pub open spec fn signed_exposure(x: FlpExposurePerMarketAccountV3) -> int {
    if x.side == 0 {
        x.size_lots as int
    } else {
        -(x.size_lots as int)
    }
}

/// A fill changes the signed exposure by its own signed size, as long as the size
/// fits, and an exposure of no lots has no side.
pub proof fn law_recorded_fill_adds_signed_size(
    x: FlpExposurePerMarketAccountV3,
    size: u64,
    price: u64,
    side: u8,
    pnl: i64,
)
    requires
        side <= 1,
        size > 0,
        x.size_lots > 0 ==> x.side <= 1,
        x.size_lots + size <= u64::MAX,
    ensures
        ({
            let y = exposure_after(x, size, price, side, pnl);
            &&& signed_exposure(y) == signed_exposure(x) + if side == 0 {
                size as int
            } else {
                -(size as int)
            }
            &&& y.size_lots == 0 ==> y.side == EMPTY_SIDE
            &&& y.size_lots > 0 ==> y.side <= 1
        }),
{
}

/// The accounts of a deposit or a withdrawal.
#[derive(Clone, Copy, Debug, PartialEq, Eq, Structural)]
pub struct FlpHolding {
    pub lp: Pubkey,
    pub exposure: FlpExposurePerMarketAccountV3,
    pub position: FlpPositionAccountV3,
    /// Bump of the holding, for the case that it is new.
    pub position_bump: u8,
}

/// The shares that a deposit buys, at most `u64::MAX`.
pub open spec fn flp_v3_shares(x: FlpExposurePerMarketAccountV3, amount: u64) -> u64 {
    sat_u64(
        vault_shares(amount, x.lp_shares_outstanding, x.total_capital_quote_lots),
    ) as u64
}

/// Why a deposit is refused, if it is.
pub open spec fn flp_v3_deposit_refusal(a: FlpHolding, amount: u64) -> Option<FlashBookError> {
    let minted = flp_v3_shares(a.exposure, amount);
    if amount == 0 || minted == 0 {
        Some(FlashBookError::ZeroSize)
    } else if a.exposure.total_capital_quote_lots + amount > u64::MAX
        || a.exposure.lp_shares_outstanding + minted > u64::MAX || a.position.shares + minted
        > u64::MAX {
        Some(FlashBookError::ArithmeticOverflow)
    } else {
        None
    }
}

/// The accounts after a deposit.
pub open spec fn flp_v3_deposited(a: FlpHolding, amount: u64) -> FlpHolding {
    let minted = flp_v3_shares(a.exposure, amount);
    let opened = if a.position.shares == 0 {
        FlpPositionAccountV3 {
            market: a.exposure.market,
            lp: a.lp,
            bump: a.position_bump,
            ..a.position
        }
    } else {
        a.position
    };
    FlpHolding {
        exposure: FlpExposurePerMarketAccountV3 {
            total_capital_quote_lots: (a.exposure.total_capital_quote_lots + amount) as u64,
            lp_shares_outstanding: (a.exposure.lp_shares_outstanding + minted) as u64,
            ..a.exposure
        },
        position: FlpPositionAccountV3 { shares: (a.position.shares + minted) as u64, ..opened },
        ..a
    }
}

/// Books a deposit; the tokens are to be collected with it. On refusal nothing
/// changes.
pub fn flp_deposit_v3(ctx: &mut FlpHolding, amount_quote_lots: u64) -> (r: Result<
    FlpDepositedV3Event,
    FlashBookError,
>)
    ensures
        match flp_v3_deposit_refusal(*old(ctx), amount_quote_lots) {
            Some(e) => r == Err::<FlpDepositedV3Event, FlashBookError>(e) && *final(ctx) == *old(
                ctx,
            ),
            None => {
                let b = flp_v3_deposited(*old(ctx), amount_quote_lots);
                &&& *final(ctx) == b
                &&& r == Ok::<FlpDepositedV3Event, FlashBookError>(
                    FlpDepositedV3Event {
                        market: b.exposure.market,
                        lp: b.lp,
                        amount_quote_lots,
                        shares_minted: flp_v3_shares(old(ctx).exposure, amount_quote_lots),
                        new_total_capital: b.exposure.total_capital_quote_lots,
                        new_shares_outstanding: b.exposure.lp_shares_outstanding,
                    },
                )
            },
        },
{
    if amount_quote_lots == 0 {
        return Err(FlashBookError::ZeroSize);
    }
    let minted: u64 = match compute_vault_shares(
        amount_quote_lots,
        ctx.exposure.lp_shares_outstanding,
        ctx.exposure.total_capital_quote_lots,
    ) {
        Some(s) => s,
        None => u64::MAX,
    };
    if minted == 0 {
        return Err(FlashBookError::ZeroSize);
    }
    let capital: Option<u64> = ctx.exposure.total_capital_quote_lots.checked_add(
        amount_quote_lots,
    );
    let outstanding: Option<u64> = ctx.exposure.lp_shares_outstanding.checked_add(minted);
    let held: Option<u64> = ctx.position.shares.checked_add(minted);
    match (capital, outstanding, held) {
        (Some(c), Some(o), Some(h)) => {
            ctx.exposure.total_capital_quote_lots = c;
            ctx.exposure.lp_shares_outstanding = o;
            if ctx.position.shares == 0 {
                ctx.position.market = ctx.exposure.market;
                ctx.position.lp = ctx.lp;
                ctx.position.bump = ctx.position_bump;
            }
            ctx.position.shares = h;
        },
        _ => {
            return Err(FlashBookError::ArithmeticOverflow);
        },
    }
    Ok(
        FlpDepositedV3Event {
            market: ctx.exposure.market,
            lp: ctx.lp,
            amount_quote_lots,
            shares_minted: minted,
            new_total_capital: ctx.exposure.total_capital_quote_lots,
            new_shares_outstanding: ctx.exposure.lp_shares_outstanding,
        },
    )
}

/// What shares are worth: their part of the pool's capital, rounded down, at most
/// `u64::MAX`.
pub open spec fn flp_v3_amount(x: FlpExposurePerMarketAccountV3, burned: u64) -> u64 {
    sat_u64(
        vault_payout(burned, x.lp_shares_outstanding, x.total_capital_quote_lots),
    ) as u64
}

/// Why a withdrawal is refused, if it is.
pub open spec fn flp_v3_withdraw_refusal(a: FlpHolding, burned: u64) -> Option<FlashBookError> {
    let amount = flp_v3_amount(a.exposure, burned);
    if a.position.lp != a.lp {
        Some(FlashBookError::Unauthorized)
    } else if burned == 0 {
        Some(FlashBookError::ZeroSize)
    } else if burned > a.position.shares {
        Some(FlashBookError::InsufficientCollateral)
    } else if a.exposure.lp_shares_outstanding == 0 {
        Some(FlashBookError::OutOfRange)
    } else if amount == 0 {
        Some(FlashBookError::ZeroSize)
    } else if burned > a.exposure.lp_shares_outstanding {
        Some(FlashBookError::ArithmeticUnderflow)
    } else {
        None
    }
}

/// The accounts after a withdrawal.
pub open spec fn flp_v3_withdrawn(a: FlpHolding, burned: u64) -> FlpHolding {
    let amount = flp_v3_amount(a.exposure, burned);
    FlpHolding {
        exposure: FlpExposurePerMarketAccountV3 {
            total_capital_quote_lots: (a.exposure.total_capital_quote_lots - amount) as u64,
            lp_shares_outstanding: (a.exposure.lp_shares_outstanding - burned) as u64,
            ..a.exposure
        },
        position: FlpPositionAccountV3 {
            shares: (a.position.shares - burned) as u64,
            ..a.position
        },
        ..a
    }
}

/// Books a withdrawal; the tokens are then to be paid out. On refusal nothing
/// changes.
pub fn flp_withdraw_v3(ctx: &mut FlpHolding, shares_to_burn: u64) -> (r: Result<
    FlpWithdrawnV3Event,
    FlashBookError,
>)
    ensures
        match flp_v3_withdraw_refusal(*old(ctx), shares_to_burn) {
            Some(e) => r == Err::<FlpWithdrawnV3Event, FlashBookError>(e) && *final(ctx) == *old(
                ctx,
            ),
            None => {
                let b = flp_v3_withdrawn(*old(ctx), shares_to_burn);
                &&& *final(ctx) == b
                &&& r == Ok::<FlpWithdrawnV3Event, FlashBookError>(
                    FlpWithdrawnV3Event {
                        market: b.exposure.market,
                        lp: b.lp,
                        shares_burned: shares_to_burn,
                        amount_quote_lots: flp_v3_amount(old(ctx).exposure, shares_to_burn),
                        new_total_capital: b.exposure.total_capital_quote_lots,
                        new_shares_outstanding: b.exposure.lp_shares_outstanding,
                    },
                )
            },
        },
{
    if ctx.position.lp != ctx.lp {
        return Err(FlashBookError::Unauthorized);
    }
    if shares_to_burn == 0 {
        return Err(FlashBookError::ZeroSize);
    }
    if shares_to_burn > ctx.position.shares {
        return Err(FlashBookError::InsufficientCollateral);
    }
    let capital: u64 = ctx.exposure.total_capital_quote_lots;
    let shares: u64 = ctx.exposure.lp_shares_outstanding;
    if shares == 0 {
        return Err(FlashBookError::OutOfRange);
    }
    if shares_to_burn > shares {
        proof {
            let b = shares_to_burn as int;
            let c = capital as int;
            let s = shares as int;
            assert(b * c / s >= c) by (nonlinear_arith)
                requires
                    b >= s,
                    s > 0,
                    c >= 0,
            ;
        }
        if capital == 0 {
            proof {
                let z = shares_to_burn * capital;
                assert(z / (shares as int) == 0) by (nonlinear_arith)
                    requires
                        z == 0,
                        shares > 0,
                ;
            }
            return Err(FlashBookError::ZeroSize);
        }
        return Err(FlashBookError::ArithmeticUnderflow);
    }
    let amount: u64 = compute_vault_payout(shares_to_burn, shares, capital);
    if amount == 0 {
        return Err(FlashBookError::ZeroSize);
    }
    ctx.exposure.lp_shares_outstanding = shares - shares_to_burn;
    ctx.exposure.total_capital_quote_lots = capital - amount;
    ctx.position.shares = ctx.position.shares - shares_to_burn;
    Ok(
        FlpWithdrawnV3Event {
            market: ctx.exposure.market,
            lp: ctx.lp,
            shares_burned: shares_to_burn,
            amount_quote_lots: amount,
            new_total_capital: ctx.exposure.total_capital_quote_lots,
            new_shares_outstanding: ctx.exposure.lp_shares_outstanding,
        },
    )
}

/// What a provider puts in and at once takes out again is no more than was put in.
pub proof fn law_flp_v3_round_trip_gains_nothing(a: FlpHolding, amount: u64)
    requires
        flp_v3_deposit_refusal(a, amount) is None,
        a.exposure.lp_shares_outstanding > 0,
        a.exposure.total_capital_quote_lots > 0,
    ensures
        flp_v3_amount(
            flp_v3_deposited(a, amount).exposure,
            flp_v3_shares(a.exposure, amount),
        ) <= amount,
{
    let x = a.exposure;
    law_vault_deposit_is_fair(amount, x.lp_shares_outstanding, x.total_capital_quote_lots);
}

} // verus!
