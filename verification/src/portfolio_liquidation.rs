//! Liquidation of one position because the trader's whole portfolio is unhealthy.
use vstd::prelude::*;

use crate::book::{BookModel, MarketBook, RestingOrderV2, book_after_rest, next_order_refusal};
use crate::constants::Limits;
use crate::errors::FlashBookError;
use crate::events::LiquidationInjectedV2Event;
use crate::keys::Pubkey;
use crate::liquidation::{compute_liquidation_limit, liquidation_limit, liquidation_order};
use crate::math::clamp_u64_to_u32;
use crate::risk::{
    Assessment, Portfolio, PortfolioEntry, RiskMarketSnap, RiskPosSnap, check_owners, market_snap,
    market_snaps, owners_refusal, pos_snap, pos_snaps, snap_market, snap_position,
};
use crate::state::{
    MarketAccount, PositionAccount, Side, TraderStateAccount, byte_of_side, side_of_byte,
};

verus! {

/// The accounts of one portfolio liquidation: the market and position on which it
/// is carried out, and the trader.
#[derive(Clone, Copy, Debug, PartialEq, Eq, Structural)]
pub struct LiquidatePortfolioV2 {
    pub execution_market_key: Pubkey,
    pub execution_market: MarketAccount,
    pub trader_state: TraderStateAccount,
    pub execution_position: PositionAccount,
}

/// The first `n` entries without the flat positions.
pub open spec fn open_entries(es: Seq<PortfolioEntry>, n: int) -> Seq<PortfolioEntry>
    decreases n,
{
    if n <= 0 {
        Seq::empty()
    } else if es[n - 1].position.size_lots > 0 {
        open_entries(es, n - 1).push(es[n - 1])
    } else {
        open_entries(es, n - 1)
    }
}

/// The positions that the margin engine is asked about: the one on which the
/// liquidation is carried out, then the trader's other open ones.
pub open spec fn portfolio_positions(a: LiquidatePortfolioV2, es: Seq<PortfolioEntry>) -> Seq<
    RiskPosSnap,
> {
    seq![pos_snap(a.execution_position, a.execution_position.collateral_quote_lots)] + pos_snaps(
        open_entries(es, es.len() as int),
    )
}

/// The markets of that question, at maintenance margin.
pub open spec fn portfolio_markets(a: LiquidatePortfolioV2, es: Seq<PortfolioEntry>) -> Seq<
    RiskMarketSnap,
> {
    seq![
        market_snap(
            a.execution_market_key,
            a.execution_market,
            a.execution_market.mark_price_ticks,
            a.execution_market.params.maintenance_margin_ratio_bps,
        ),
    ] + market_snaps(open_entries(es, es.len() as int), false)
}

/// Prepares the question for the margin engine.
pub fn portfolio_liquidation_question(a: &LiquidatePortfolioV2, es: &Vec<PortfolioEntry>) -> (r:
    Portfolio)
    ensures
        r.positions@ == portfolio_positions(*a, es@),
        r.markets@ == portfolio_markets(*a, es@),
{
    let mut positions: Vec<RiskPosSnap> = Vec::new();
    let mut markets: Vec<RiskMarketSnap> = Vec::new();
    positions.push(
        snap_position(&a.execution_position, a.execution_position.collateral_quote_lots),
    );
    markets.push(
        snap_market(
            a.execution_market_key,
            &a.execution_market,
            a.execution_market.mark_price_ticks,
            a.execution_market.params.maintenance_margin_ratio_bps,
        ),
    );
    let mut i: usize = 0;
    let ghost p0 = positions@;
    let ghost m0 = markets@;
    assert(p0 + pos_snaps(open_entries(es@, 0)) =~= p0);
    assert(m0 + market_snaps(open_entries(es@, 0), false) =~= m0);
    while i < es.len()
        invariant
            i <= es@.len(),
            positions@ == p0 + pos_snaps(open_entries(es@, i as int)),
            markets@ == m0 + market_snaps(open_entries(es@, i as int), false),
        decreases es@.len() - i,
    {
        let e = es[i];
        if e.position.size_lots > 0 {
            positions.push(snap_position(&e.position, e.position.collateral_quote_lots));
            markets.push(
                snap_market(
                    e.market_key,
                    &e.market,
                    e.market.mark_price_ticks,
                    e.market.params.maintenance_margin_ratio_bps,
                ),
            );
            assert(positions@ =~= p0 + pos_snaps(open_entries(es@, i + 1)));
            assert(markets@ =~= m0 + market_snaps(open_entries(es@, i + 1), false));
        }
        i = i + 1;
    }
    Portfolio { positions, markets }
}

/// Why a portfolio liquidation is refused, if it is.
pub open spec fn portfolio_liquidation_refusal(
    a: LiquidatePortfolioV2,
    es: Seq<PortfolioEntry>,
    b: BookModel,
    assessment: Assessment,
    reserved: u64,
) -> Option<FlashBookError> {
    let p = a.execution_position;
    if p.size_lots == 0 {
        Some(FlashBookError::LiquidationStale)
    } else if p.trader != a.trader_state.trader {
        Some(FlashBookError::WrongTrader)
    } else if p.market != a.execution_market_key {
        Some(FlashBookError::WrongMarket)
    } else {
        match owners_refusal(es, 0, a.trader_state.trader, FlashBookError::Unauthorized) {
            Some(e) => Some(e),
            None => match assessment {
                Err(e) => Some(e),
                Ok(m) => if m.is_healthy {
                    Some(FlashBookError::NotLiquidatable)
                } else if b.market_pubkey != a.execution_market_key {
                    Some(FlashBookError::WrongMarket)
                } else {
                    next_order_refusal(b, reserved)
                },
            },
        }
    }
}

/// Puts an order that closes one whole position into the book, because the
/// trader's portfolio is unhealthy. `assessment` is the margin engine's answer on
/// [`portfolio_liquidation_question`], against the trader's pool; `order_id` the id
/// that belongs to the limit, the side and the next sequence number. On refusal
/// the book does not change.
pub fn liquidate_portfolio_v2(
    ctx: &LiquidatePortfolioV2,
    es: &Vec<PortfolioEntry>,
    book: &mut MarketBook,
    assessment: Assessment,
    order_id: u64,
    limits: &Limits,
    now_slot: u64,
) -> (r: Result<LiquidationInjectedV2Event, FlashBookError>)
    requires
        old(book)@.wf(),
    ensures
        final(book)@.wf(),
        match portfolio_liquidation_refusal(
            *ctx,
            es@,
            old(book)@,
            assessment,
            limits.flp_seq_reserved_offset,
        ) {
            Some(e) => r == Err::<LiquidationInjectedV2Event, FlashBookError>(e) && *final(book)
                == *old(book),
            None => {
                let seq = (old(book)@.order_seq_counter + 1) as u64;
                let p = ctx.execution_position;
                let limit = liquidation_limit(ctx.execution_market, side_of_byte(p.side));
                &&& final(book)@ == book_after_rest(
                    old(book)@,
                    liquidation_order(
                        p,
                        ctx.trader_state.sub_index,
                        seq,
                        order_id,
                        limit,
                        p.size_lots,
                        now_slot,
                    ),
                )
                &&& r == Ok::<LiquidationInjectedV2Event, FlashBookError>(
                    LiquidationInjectedV2Event {
                        market: ctx.execution_market_key,
                        trader: p.trader,
                        side: byte_of_side(side_of_byte(p.side)),
                        size_lots: p.size_lots,
                        limit_ticks: limit,
                        worst_scenario_idx: assessment->Ok_0.worst_scenario_idx,
                        order_seq: seq,
                    },
                )
            },
        },
{
    let p = ctx.execution_position;
    if p.size_lots == 0 {
        return Err(FlashBookError::LiquidationStale);
    }
    if p.trader != ctx.trader_state.trader {
        return Err(FlashBookError::WrongTrader);
    }
    if p.market != ctx.execution_market_key {
        return Err(FlashBookError::WrongMarket);
    }
    match check_owners(es, ctx.trader_state.trader, FlashBookError::Unauthorized) {
        Ok(_) => {},
        Err(e) => {
            return Err(e);
        },
    }
    let answer = match assessment {
        Ok(m) => m,
        Err(e) => {
            return Err(e);
        },
    };
    if answer.is_healthy {
        return Err(FlashBookError::NotLiquidatable);
    }
    if book.market_pubkey != ctx.execution_market_key {
        return Err(FlashBookError::WrongMarket);
    }
    let pos_side = Side::from_byte(p.side);
    let limit: u64 = compute_liquidation_limit(&ctx.execution_market, pos_side);
    let order = RestingOrderV2 {
        order_id,
        seq: 0,
        price_ticks: limit,
        size_lots: p.size_lots,
        expires_at_slot: 0,
        trader: p.trader,
        last_valid_slot: clamp_u64_to_u32(now_slot),
        side: pos_side.opposite().to_byte(),
        order_type: 3,
        flags: 0,
        sub_index: ctx.trader_state.sub_index,
    };
    let seq: u64 = match book.rest_next(order, limits.flp_seq_reserved_offset) {
        Ok(n) => n,
        Err(e) => {
            return Err(e);
        },
    };
    Ok(
        LiquidationInjectedV2Event {
            market: ctx.execution_market_key,
            trader: p.trader,
            side: pos_side.to_byte(),
            size_lots: p.size_lots,
            limit_ticks: limit,
            worst_scenario_idx: answer.worst_scenario_idx,
            order_seq: seq,
        },
    )
}

} // verus!
