//! Giving a position collateral of its own, and taking it back into the pool.
use vstd::prelude::*;

use crate::collateral::with_collateral;
use crate::errors::FlashBookError;
use crate::events::PositionMarginModeChangedEvent;
use crate::keys::Pubkey;
use crate::risk::{
    Assessment, Binding, Portfolio, PortfolioEntry, RiskMarketSnap, RiskPosSnap,
    collect_bound_portfolio, market_snap, market_snaps, portfolio_refusal, pos_snap, pos_snaps,
    snap_market, snap_position,
};
use crate::state::{MarketAccount, PositionAccount, TraderStateAccount};

verus! {

/// A trader account and the position whose margin mode changes.
#[derive(Clone, Copy, Debug, PartialEq, Eq, Structural)]
pub struct SetPositionMarginMode {
    pub trader: Pubkey,
    pub trader_state: TraderStateAccount,
    pub target_market_key: Pubkey,
    pub target_market: MarketAccount,
    pub target_position: PositionAccount,
}

/// How many other positions have to be shown: all but the target.
pub open spec fn others_expected(s: TraderStateAccount) -> int {
    if s.open_positions == 0 {
        0
    } else {
        s.open_positions - 1
    }
}

/// Why the target is not the trader's position in the market, if it is not.
pub open spec fn target_refusal(a: SetPositionMarginMode) -> Option<FlashBookError> {
    if a.target_position.trader != a.trader_state.trader {
        Some(FlashBookError::WrongTrader)
    } else if a.target_position.market != a.target_market_key {
        Some(FlashBookError::WrongMarket)
    } else {
        None
    }
}

/// What the margin engine is asked about: the other positions, then the target
/// with the given collateral, unless it is flat.
pub open spec fn mode_positions(
    a: SetPositionMarginMode,
    es: Seq<PortfolioEntry>,
    collateral: u64,
) -> Seq<RiskPosSnap> {
    if a.target_position.size_lots > 0 {
        pos_snaps(es).push(pos_snap(a.target_position, collateral))
    } else {
        pos_snaps(es)
    }
}

/// The markets of that question, at maintenance margin.
pub open spec fn mode_markets(a: SetPositionMarginMode, es: Seq<PortfolioEntry>) -> Seq<
    RiskMarketSnap,
> {
    if a.target_position.size_lots > 0 {
        market_snaps(es, false).push(
            market_snap(
                a.target_market_key,
                a.target_market,
                a.target_market.mark_price_ticks,
                a.target_market.params.maintenance_margin_ratio_bps,
            ),
        )
    } else {
        market_snaps(es, false)
    }
}

/// Prepares the question for the margin engine: the trader's other positions, all
/// pooled and bound to the trader account, and the target with `collateral`, unless
/// it is flat.
pub fn margin_mode_question(
    a: &SetPositionMarginMode,
    es: &Vec<PortfolioEntry>,
    b: &Binding,
    collateral: u64,
) -> (r: Result<Portfolio, FlashBookError>)
    ensures
        match portfolio_refusal(
            es@,
            0,
            a.trader_state.trader,
            *b,
            FlashBookError::Unauthorized,
            Some(a.target_market_key),
        ) {
            Some(e) => r is Err && r->Err_0 == e,
            None => r is Ok && r->Ok_0.positions@ == mode_positions(*a, es@, collateral)
                && r->Ok_0.markets@ == mode_markets(*a, es@),
        },
{
    let mut p = match collect_bound_portfolio(
        es,
        a.trader_state.trader,
        b,
        FlashBookError::Unauthorized,
        Some(a.target_market_key),
        false,
    ) {
        Ok(p) => p,
        Err(e) => {
            return Err(e);
        },
    };
    if a.target_position.size_lots > 0 {
        p.positions.push(snap_position(&a.target_position, collateral));
        p.markets.push(
            snap_market(
                a.target_market_key,
                &a.target_market,
                a.target_market.mark_price_ticks,
                a.target_market.params.maintenance_margin_ratio_bps,
            ),
        );
    }
    Ok(p)
}

/// Why a position cannot be isolated, if it cannot. It has to be open and pooled,
/// and with the pool reduced everything has to stay healthy. At most one position
/// of a trader is isolated.
pub open spec fn isolate_refusal(
    a: SetPositionMarginMode,
    es: Seq<PortfolioEntry>,
    b: Binding,
    amount: u64,
    assessment: Assessment,
) -> Option<FlashBookError> {
    if a.trader_state.trader != a.trader {
        Some(FlashBookError::WrongTrader)
    } else if amount == 0 {
        Some(FlashBookError::ZeroSize)
    } else {
        match target_refusal(a) {
            Some(e) => Some(e),
            None => if a.target_position.size_lots == 0 {
                Some(FlashBookError::ZeroSize)
            } else if a.target_position.collateral_quote_lots != 0 {
                Some(FlashBookError::OutOfRange)
            } else if amount > a.trader_state.collateral_quote_lots {
                Some(FlashBookError::InsufficientCollateral)
            } else if es.len() != others_expected(a.trader_state) {
                Some(FlashBookError::OutOfRange)
            } else {
                match portfolio_refusal(
                    es,
                    0,
                    a.trader_state.trader,
                    b,
                    FlashBookError::Unauthorized,
                    Some(a.target_market_key),
                ) {
                    Some(e) => Some(e),
                    None => match assessment {
                        Err(e) => Some(e),
                        Ok(m) => if m.is_healthy {
                            None
                        } else {
                            Some(FlashBookError::InsufficientCollateral)
                        },
                    },
                }
            },
        }
    }
}

/// The accounts after the margin mode changed: the position has `iso`, the pool
/// `cross`.
pub open spec fn mode_changed(a: SetPositionMarginMode, iso: int, cross: int) -> SetPositionMarginMode {
    SetPositionMarginMode {
        trader_state: with_collateral(a.trader_state, cross),
        target_position: PositionAccount {
            collateral_quote_lots: iso as u64,
            ..a.target_position
        },
        ..a
    }
}

/// What a change of margin mode reports.
pub open spec fn mode_event(a: SetPositionMarginMode, mode: u8) -> PositionMarginModeChangedEvent {
    PositionMarginModeChangedEvent {
        trader: a.trader_state.trader,
        market: a.target_market_key,
        new_isolated_collateral_quote_lots: a.target_position.collateral_quote_lots,
        new_cross_collateral_quote_lots: a.trader_state.collateral_quote_lots,
        mode,
    }
}

/// Reserves pooled collateral for one position. `assessment` is the margin
/// engine's answer on [`margin_mode_question`] with `amount_quote_lots` for the
/// target, the pool reduced by as much, and the target held to its own bucket. On
/// refusal nothing changes.
pub fn set_position_isolated(
    ctx: &mut SetPositionMarginMode,
    es: &Vec<PortfolioEntry>,
    b: &Binding,
    amount_quote_lots: u64,
    assessment: Assessment,
) -> (r: Result<PositionMarginModeChangedEvent, FlashBookError>)
    ensures
        match isolate_refusal(*old(ctx), es@, *b, amount_quote_lots, assessment) {
            Some(e) => r == Err::<PositionMarginModeChangedEvent, FlashBookError>(e) && *final(ctx)
                == *old(ctx),
            None => {
                &&& *final(ctx) == mode_changed(
                    *old(ctx),
                    amount_quote_lots as int,
                    old(ctx).trader_state.collateral_quote_lots - amount_quote_lots,
                )
                &&& r == Ok::<PositionMarginModeChangedEvent, FlashBookError>(
                    mode_event(*final(ctx), 1),
                )
            },
        },
{
    if ctx.trader_state.trader != ctx.trader {
        return Err(FlashBookError::WrongTrader);
    }
    if amount_quote_lots == 0 {
        return Err(FlashBookError::ZeroSize);
    }
    if ctx.target_position.trader != ctx.trader_state.trader {
        return Err(FlashBookError::WrongTrader);
    }
    if ctx.target_position.market != ctx.target_market_key {
        return Err(FlashBookError::WrongMarket);
    }
    if ctx.target_position.size_lots == 0 {
        return Err(FlashBookError::ZeroSize);
    }
    if ctx.target_position.collateral_quote_lots != 0 {
        return Err(FlashBookError::OutOfRange);
    }
    if amount_quote_lots > ctx.trader_state.collateral_quote_lots {
        return Err(FlashBookError::InsufficientCollateral);
    }
    if es.len() != ctx.trader_state.open_positions.saturating_sub(1) as usize {
        return Err(FlashBookError::OutOfRange);
    }
    match margin_mode_question(ctx, es, b, amount_quote_lots) {
        Ok(_) => {},
        Err(e) => {
            return Err(e);
        },
    }
    match assessment {
        Ok(m) => {
            if !m.is_healthy {
                return Err(FlashBookError::InsufficientCollateral);
            }
        },
        Err(e) => {
            return Err(e);
        },
    }
    let cross: u64 = ctx.trader_state.collateral_quote_lots - amount_quote_lots;
    ctx.trader_state.collateral_quote_lots = cross;
    ctx.target_position.collateral_quote_lots = amount_quote_lots;
    Ok(
        PositionMarginModeChangedEvent {
            trader: ctx.trader_state.trader,
            market: ctx.target_market_key,
            new_isolated_collateral_quote_lots: amount_quote_lots,
            new_cross_collateral_quote_lots: cross,
            mode: 1,
        },
    )
}

/// Why a position cannot go back to the pool, if it cannot. Without any open
/// position there is nothing to assess.
pub open spec fn cross_refusal(
    a: SetPositionMarginMode,
    es: Seq<PortfolioEntry>,
    b: Binding,
    assessment: Assessment,
) -> Option<FlashBookError> {
    let returned = a.target_position.collateral_quote_lots;
    let assessed = es.len() > 0 || a.target_position.size_lots > 0;
    if a.trader_state.trader != a.trader {
        Some(FlashBookError::WrongTrader)
    } else {
        match target_refusal(a) {
            Some(e) => Some(e),
            None => if returned == 0 {
                Some(FlashBookError::OutOfRange)
            } else if es.len() != others_expected(a.trader_state) {
                Some(FlashBookError::OutOfRange)
            } else {
                match portfolio_refusal(
                    es,
                    0,
                    a.trader_state.trader,
                    b,
                    FlashBookError::Unauthorized,
                    Some(a.target_market_key),
                ) {
                    Some(e) => Some(e),
                    None => if a.trader_state.collateral_quote_lots + returned > u64::MAX {
                        Some(FlashBookError::ArithmeticOverflow)
                    } else if assessed && assessment is Err {
                        Some(assessment->Err_0)
                    } else if assessed && !assessment->Ok_0.is_healthy {
                        Some(FlashBookError::InsufficientCollateral)
                    } else {
                        None
                    },
                }
            },
        }
    }
}

/// Returns a position's own collateral to the pool. `assessment` is the margin
/// engine's answer on [`margin_mode_question`] with nothing for the target, and the
/// pool increased. On refusal nothing changes.
pub fn set_position_cross(
    ctx: &mut SetPositionMarginMode,
    es: &Vec<PortfolioEntry>,
    b: &Binding,
    assessment: Assessment,
) -> (r: Result<PositionMarginModeChangedEvent, FlashBookError>)
    ensures
        match cross_refusal(*old(ctx), es@, *b, assessment) {
            Some(e) => r == Err::<PositionMarginModeChangedEvent, FlashBookError>(e) && *final(ctx)
                == *old(ctx),
            None => {
                &&& *final(ctx) == mode_changed(
                    *old(ctx),
                    0,
                    old(ctx).trader_state.collateral_quote_lots + old(
                        ctx,
                    ).target_position.collateral_quote_lots,
                )
                &&& r == Ok::<PositionMarginModeChangedEvent, FlashBookError>(
                    mode_event(*final(ctx), 0),
                )
            },
        },
{
    if ctx.trader_state.trader != ctx.trader {
        return Err(FlashBookError::WrongTrader);
    }
    if ctx.target_position.trader != ctx.trader_state.trader {
        return Err(FlashBookError::WrongTrader);
    }
    if ctx.target_position.market != ctx.target_market_key {
        return Err(FlashBookError::WrongMarket);
    }
    let returned: u64 = ctx.target_position.collateral_quote_lots;
    if returned == 0 {
        return Err(FlashBookError::OutOfRange);
    }
    if es.len() != ctx.trader_state.open_positions.saturating_sub(1) as usize {
        return Err(FlashBookError::OutOfRange);
    }
    match margin_mode_question(ctx, es, b, 0) {
        Ok(_) => {},
        Err(e) => {
            return Err(e);
        },
    }
    let cross: u64 = match ctx.trader_state.collateral_quote_lots.checked_add(returned) {
        Some(n) => n,
        None => {
            return Err(FlashBookError::ArithmeticOverflow);
        },
    };
    if es.len() > 0 || ctx.target_position.size_lots > 0 {
        match assessment {
            Ok(m) => {
                if !m.is_healthy {
                    return Err(FlashBookError::InsufficientCollateral);
                }
            },
            Err(e) => {
                return Err(e);
            },
        }
    }
    ctx.trader_state.collateral_quote_lots = cross;
    ctx.target_position.collateral_quote_lots = 0;
    Ok(
        PositionMarginModeChangedEvent {
            trader: ctx.trader_state.trader,
            market: ctx.target_market_key,
            new_isolated_collateral_quote_lots: 0,
            new_cross_collateral_quote_lots: cross,
            mode: 0,
        },
    )
}

/// Isolating a position and taking it back restores both buckets, and neither step
/// makes or loses collateral.
pub proof fn law_margin_mode_round_trip(
    a: SetPositionMarginMode,
    es: Seq<PortfolioEntry>,
    b: Binding,
    amount: u64,
    first: Assessment,
    second: Assessment,
)
    requires
        isolate_refusal(a, es, b, amount, first) is None,
        second matches Ok(m) && m.is_healthy,
    ensures
        ({
            let i = mode_changed(
                a,
                amount as int,
                a.trader_state.collateral_quote_lots - amount,
            );
            &&& i.trader_state.collateral_quote_lots + i.target_position.collateral_quote_lots
                == a.trader_state.collateral_quote_lots + a.target_position.collateral_quote_lots
            &&& cross_refusal(i, es, b, second) is None
            &&& mode_changed(
                i,
                0,
                i.trader_state.collateral_quote_lots + i.target_position.collateral_quote_lots,
            ) == a
        }),
{
}

} // verus!
