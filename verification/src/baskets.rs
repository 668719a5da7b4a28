//! Basket orders: several legs in different markets, taken together or not at all.
use vstd::prelude::*;

use crate::book::{BookModel, MarketBook, RestingOrderV2, book_after_rest};
use crate::constants::Limits;
use crate::errors::FlashBookError;
use crate::events::BasketOrderPlacedV2Event;
use crate::fees::{bps_of, bps_of_u64};
use crate::keys::Pubkey;
use crate::mark::{sat_notional, saturating_notional};
use crate::math::{abs_int, clamp_u64_to_u32, sat_u32, sat_u64};
use crate::orders::takes_resting;
use crate::risk::{Assessment, Portfolio, RiskMarketSnap, RiskPosSnap, market_snap, snap_market};
use crate::state::{
    MarketAccount, PositionAccount, STATUS_ACTIVE, STATUS_POST_ONLY, Side, TraderStateAccount,
    side_of_byte,
};
use crate::twap::slice_refusal;

verus! {

/// One leg of a basket.
#[derive(Clone, Copy, Debug, PartialEq, Eq, Structural)]
pub struct BasketLeg {
    pub side: u8,
    pub size_lots: u64,
    pub limit_ticks: u64,
    pub post_only: bool,
}

/// A leg with its market and the trader's position there, as they come with a
/// request.
#[derive(Clone, Copy, Debug, PartialEq, Eq, Structural)]
pub struct BasketEntry {
    pub market_key: Pubkey,
    pub market: MarketAccount,
    pub position: PositionAccount,
    /// The market, its book and the position belong to this program.
    pub owned: bool,
    pub leg: BasketLeg,
}

/// Why a leg is refused by its market, if it is.
pub open spec fn leg_intake_refusal(m: MarketAccount, leg: BasketLeg, reserved: u64) -> Option<
    FlashBookError,
> {
    if leg.size_lots == 0 {
        Some(FlashBookError::ZeroSize)
    } else if leg.limit_ticks == 0 {
        Some(FlashBookError::ZeroPrice)
    } else if leg.side > 1 || !takes_resting(m) {
        Some(FlashBookError::OutOfRange)
    } else if leg.size_lots < m.params.min_base_lots {
        Some(FlashBookError::SizeBelowMinLot)
    } else if leg.limit_ticks % m.params.tick_size != 0 {
        Some(FlashBookError::PriceNotOnTick)
    } else if leg.size_lots > reserved {
        Some(FlashBookError::OutOfRange)
    } else {
        None
    }
}

/// Tests a leg against its market.
pub fn validate_leg_intake(m: &MarketAccount, leg: &BasketLeg, reserved: u64) -> (r: Result<
    (),
    FlashBookError,
>)
    requires
        m.params.tick_size > 0,
    ensures
        r == (match leg_intake_refusal(*m, *leg, reserved) {
            Some(e) => Err::<(), FlashBookError>(e),
            None => Ok(()),
        }),
{
    if leg.size_lots == 0 {
        return Err(FlashBookError::ZeroSize);
    }
    if leg.limit_ticks == 0 {
        return Err(FlashBookError::ZeroPrice);
    }
    if leg.side > 1 {
        return Err(FlashBookError::OutOfRange);
    }
    if m.status != STATUS_ACTIVE && m.status != STATUS_POST_ONLY {
        return Err(FlashBookError::OutOfRange);
    }
    if leg.size_lots < m.params.min_base_lots {
        return Err(FlashBookError::SizeBelowMinLot);
    }
    if leg.limit_ticks % m.params.tick_size != 0 {
        return Err(FlashBookError::PriceNotOnTick);
    }
    if leg.size_lots > reserved {
        return Err(FlashBookError::OutOfRange);
    }
    Ok(())
}

/// A leg could make the position too large: in lots, or in notional relative to the
/// pool's capital.
pub open spec fn leg_exceeds_caps(
    m: MarketAccount,
    p: PositionAccount,
    flp_capital: u64,
    leg: BasketLeg,
) -> bool {
    let size = sat_u64(p.size_lots + leg.size_lots);
    ||| m.params.max_position_lots_per_trader > 0 && size > m.params.max_position_lots_per_trader
    ||| m.params.max_position_ratio_bps > 0 && flp_capital > 0 && sat_notional(
        size,
        leg.limit_ticks as int,
        m.params.tick_size as int,
    ) > bps_of(flp_capital as int, m.params.max_position_ratio_bps as int)
}

/// Tests a leg against the caps on positions.
pub fn check_caps_for_leg(
    m: &MarketAccount,
    p: &PositionAccount,
    flp_capital: u64,
    leg: &BasketLeg,
) -> (r: Result<(), FlashBookError>)
    ensures
        r == (if leg_exceeds_caps(*m, *p, flp_capital, *leg) {
            Err::<(), FlashBookError>(FlashBookError::PositionSizeCapExceeded)
        } else {
            Ok(())
        }),
{
    let size: u64 = p.size_lots.saturating_add(leg.size_lots);
    let cap: u64 = m.params.max_position_lots_per_trader;
    if cap > 0 && size > cap {
        return Err(FlashBookError::PositionSizeCapExceeded);
    }
    let ratio: u32 = m.params.max_position_ratio_bps;
    if ratio > 0 && flp_capital > 0 {
        let cap_quote_lots: u128 = bps_of_u64(flp_capital, ratio);
        let notional: u128 = saturating_notional(size, leg.limit_ticks, m.params.tick_size);
        if notional > cap_quote_lots {
            return Err(FlashBookError::PositionSizeCapExceeded);
        }
    }
    Ok(())
}

/// The position after a leg has filled in whole, as the margin engine sees it; none
/// if nothing is left of it.
pub open spec fn projected(e: BasketEntry) -> Option<RiskPosSnap> {
    let p = e.position;
    let leg = e.leg;
    if p.size_lots == 0 {
        Some(
            RiskPosSnap {
                market: e.market_key,
                side: side_of_byte(leg.side),
                size_lots: leg.size_lots,
                entry_price_ticks: leg.limit_ticks,
                cum_funding_index_at_entry: e.market.cum_funding_index,
                collateral_quote_lots: p.collateral_quote_lots,
            },
        )
    } else {
        let size = if p.side == leg.side {
            sat_u64(p.size_lots + leg.size_lots)
        } else {
            abs_int(p.size_lots - leg.size_lots)
        };
        let turned = p.side != leg.side && leg.size_lots > p.size_lots;
        if size == 0 {
            None
        } else {
            Some(
                RiskPosSnap {
                    market: e.market_key,
                    side: side_of_byte(
                        if turned {
                            leg.side
                        } else {
                            p.side
                        },
                    ),
                    size_lots: size as u64,
                    entry_price_ticks: p.entry_price_ticks,
                    cum_funding_index_at_entry: p.cum_funding_index_at_entry,
                    collateral_quote_lots: p.collateral_quote_lots,
                },
            )
        }
    }
}

/// Why an open position does not belong to the trader and the market, if it does
/// not.
pub open spec fn leg_binding_refusal(e: BasketEntry, trader: Pubkey) -> Option<FlashBookError> {
    if e.position.size_lots == 0 {
        None
    } else if e.position.trader != trader {
        Some(FlashBookError::WrongTrader)
    } else if e.position.market != e.market_key {
        Some(FlashBookError::WrongMarket)
    } else {
        None
    }
}

/// Projects a position to the state after its leg.
pub fn project_post_leg(e: &BasketEntry, trader: Pubkey) -> (r: Result<
    Option<RiskPosSnap>,
    FlashBookError,
>)
    ensures
        r == (match leg_binding_refusal(*e, trader) {
            Some(x) => Err::<Option<RiskPosSnap>, FlashBookError>(x),
            None => Ok(projected(*e)),
        }),
{
    let p = e.position;
    let leg = e.leg;
    if p.size_lots == 0 {
        return Ok(
            Some(
                RiskPosSnap {
                    market: e.market_key,
                    side: Side::from_byte(leg.side),
                    size_lots: leg.size_lots,
                    entry_price_ticks: leg.limit_ticks,
                    cum_funding_index_at_entry: e.market.cum_funding_index,
                    collateral_quote_lots: p.collateral_quote_lots,
                },
            ),
        );
    }
    if p.trader != trader {
        return Err(FlashBookError::WrongTrader);
    }
    if p.market != e.market_key {
        return Err(FlashBookError::WrongMarket);
    }
    let mut side: u8 = p.side;
    let size: u64 = if p.side == leg.side {
        p.size_lots.saturating_add(leg.size_lots)
    } else if leg.size_lots > p.size_lots {
        side = leg.side;
        leg.size_lots - p.size_lots
    } else {
        p.size_lots - leg.size_lots
    };
    if size == 0 {
        return Ok(None);
    }
    Ok(
        Some(
            RiskPosSnap {
                market: e.market_key,
                side: Side::from_byte(side),
                size_lots: size,
                entry_price_ticks: p.entry_price_ticks,
                cum_funding_index_at_entry: p.cum_funding_index_at_entry,
                collateral_quote_lots: p.collateral_quote_lots,
            },
        ),
    )
}

/// The position after a leg, as a signed number of lots, is the position before it
/// plus the leg, as long as the size fits.
pub proof fn law_projection_adds_the_leg(e: BasketEntry)
    requires
        e.position.side <= 1,
        e.leg.side <= 1,
        e.position.size_lots + e.leg.size_lots <= u64::MAX,
    ensures
        ({
            let before = if e.position.side == 0 {
                e.position.size_lots as int
            } else {
                -(e.position.size_lots as int)
            };
            let leg = if e.leg.side == 0 {
                e.leg.size_lots as int
            } else {
                -(e.leg.size_lots as int)
            };
            match projected(e) {
                None => before + leg == 0,
                Some(s) => before + leg == if s.side == Side::Long {
                    s.size_lots as int
                } else {
                    -(s.size_lots as int)
                },
            }
        }),
{
}

/// The positions of the first `n` legs that the margin engine is asked about.
pub open spec fn basket_positions(es: Seq<BasketEntry>, n: int) -> Seq<RiskPosSnap>
    decreases n,
{
    if n <= 0 {
        Seq::empty()
    } else {
        match projected(es[n - 1]) {
            Some(s) => basket_positions(es, n - 1).push(s),
            None => basket_positions(es, n - 1),
        }
    }
}

/// The markets of a basket, at initial margin.
pub open spec fn basket_markets(es: Seq<BasketEntry>) -> Seq<RiskMarketSnap> {
    es.map_values(
        |e: BasketEntry|
            market_snap(
                e.market_key,
                e.market,
                e.market.mark_price_ticks,
                e.market.params.initial_margin_ratio_bps,
            ),
    )
}

/// Why the positions of a basket do not belong to the trader, if they do not.
pub open spec fn basket_binding_refusal(es: Seq<BasketEntry>, i: int, trader: Pubkey) -> Option<
    FlashBookError,
>
    decreases es.len() - i,
{
    if i >= es.len() {
        None
    } else {
        match leg_binding_refusal(es[i], trader) {
            Some(e) => Some(e),
            None => basket_binding_refusal(es, i + 1, trader),
        }
    }
}

/// Prepares the question for the margin engine.
pub fn basket_question(es: &Vec<BasketEntry>, trader: Pubkey) -> (r: Result<
    Portfolio,
    FlashBookError,
>)
    ensures
        match basket_binding_refusal(es@, 0, trader) {
            Some(e) => r is Err && r->Err_0 == e,
            None => r is Ok && r->Ok_0.positions@ == basket_positions(es@, es@.len() as int)
                && r->Ok_0.markets@ == basket_markets(es@),
        },
{
    let mut positions: Vec<RiskPosSnap> = Vec::new();
    let mut markets: Vec<RiskMarketSnap> = Vec::new();
    let mut i: usize = 0;
    while i < es.len()
        invariant
            i <= es@.len(),
            basket_binding_refusal(es@, 0, trader) == basket_binding_refusal(
                es@,
                i as int,
                trader,
            ),
            positions@ == basket_positions(es@, i as int),
            markets@ == basket_markets(es@).take(i as int),
        decreases es@.len() - i,
    {
        let e = es[i];
        match project_post_leg(&e, trader) {
            Err(x) => {
                return Err(x);
            },
            Ok(None) => {},
            Ok(Some(s)) => {
                positions.push(s);
            },
        }
        markets.push(
            snap_market(
                e.market_key,
                &e.market,
                e.market.mark_price_ticks,
                e.market.params.initial_margin_ratio_bps,
            ),
        );
        assert(markets@ =~= basket_markets(es@).take(i + 1));
        i = i + 1;
    }
    assert(basket_markets(es@).take(i as int) =~= basket_markets(es@));
    Ok(Portfolio { positions, markets })
}

/// The orders that a trader has placed in a batch, counting from zero in a new one.
pub open spec fn orders_in_batch(s: TraderStateAccount, batch: u64) -> u32 {
    if s.last_batch_seen == batch {
        s.orders_this_batch
    } else {
        0
    }
}

/// So many more orders are too many for the trader's batch.
pub open spec fn rate_exceeded(s: TraderStateAccount, batch: u64, more: int, max: u32) -> bool {
    sat_u32(orders_in_batch(s, batch) + more) > max
}

/// A trader account after so many more orders in a batch.
pub open spec fn orders_counted(s: TraderStateAccount, batch: u64, more: int) -> TraderStateAccount {
    TraderStateAccount {
        last_batch_seen: batch,
        orders_this_batch: sat_u32(orders_in_batch(s, batch) + more) as u32,
        ..s
    }
}

/// Counts orders in a trader's batch, unless they are too many.
pub fn count_orders(s: TraderStateAccount, batch: u64, more: u32, max: u32) -> (r: Result<
    TraderStateAccount,
    FlashBookError,
>)
    ensures
        r == (if rate_exceeded(s, batch, more as int, max) {
            Err::<TraderStateAccount, FlashBookError>(FlashBookError::RateLimited)
        } else {
            Ok(orders_counted(s, batch, more as int))
        }),
{
    let mut t = s;
    if t.last_batch_seen != batch {
        t.last_batch_seen = batch;
        t.orders_this_batch = 0;
    }
    let count: u32 = t.orders_this_batch.saturating_add(more);
    if count > max {
        return Err(FlashBookError::RateLimited);
    }
    t.orders_this_batch = count;
    Ok(t)
}

/// The order that a leg becomes.
pub open spec fn leg_order(
    leg: BasketLeg,
    trader: Pubkey,
    sub_index: u8,
    seq: u64,
    order_id: u64,
    slot: u64,
) -> RestingOrderV2 {
    RestingOrderV2 {
        order_id,
        seq,
        price_ticks: leg.limit_ticks,
        size_lots: leg.size_lots,
        expires_at_slot: 0,
        trader,
        last_valid_slot: sat_u32(slot as int) as u32,
        side: leg.side,
        order_type: 0,
        flags: if leg.post_only {
            1
        } else {
            0
        },
        sub_index,
    }
}

/// Rests a leg in its market's book. On refusal the book does not change.
pub fn inject_leg(
    book: &mut MarketBook,
    market_key: Pubkey,
    trader: Pubkey,
    leg: &BasketLeg,
    order_id: u64,
    limits: &Limits,
    now_slot: u64,
    sub_index: u8,
) -> (r: Result<u64, FlashBookError>)
    requires
        old(book)@.wf(),
        leg.size_lots > 0,
        leg.side <= 1,
    ensures
        final(book)@.wf(),
        match slice_refusal(old(book)@, market_key, limits.flp_seq_reserved_offset) {
            Some(e) => r == Err::<u64, FlashBookError>(e) && *final(book) == *old(book),
            None => {
                let seq = (old(book)@.order_seq_counter + 1) as u64;
                &&& r == Ok::<u64, FlashBookError>(seq)
                &&& final(book)@ == book_after_rest(
                    old(book)@,
                    leg_order(*leg, trader, sub_index, seq, order_id, now_slot),
                )
            },
        },
{
    if book.market_pubkey != market_key {
        return Err(FlashBookError::WrongMarket);
    }
    let flags: u8 = if leg.post_only {
        1
    } else {
        0
    };
    let order = RestingOrderV2 {
        order_id,
        seq: 0,
        price_ticks: leg.limit_ticks,
        size_lots: leg.size_lots,
        expires_at_slot: 0,
        trader,
        last_valid_slot: clamp_u64_to_u32(now_slot),
        side: leg.side,
        order_type: 0,
        flags,
        sub_index,
    };
    book.rest_next(order, limits.flp_seq_reserved_offset)
}

/// Tests whether a book takes a leg.
pub fn check_leg_book(book: &MarketBook, market_key: Pubkey, limits: &Limits) -> (r: Result<
    (),
    FlashBookError,
>)
    requires
        book@.wf(),
    ensures
        r == (match slice_refusal(book@, market_key, limits.flp_seq_reserved_offset) {
            Some(e) => Err::<(), FlashBookError>(e),
            None => Ok(()),
        }),
{
    if book.market_pubkey != market_key {
        return Err(FlashBookError::WrongMarket);
    }
    book.check_next(limits.flp_seq_reserved_offset)
}

/// The trader's side of a basket.
#[derive(Clone, Copy, Debug, PartialEq, Eq, Structural)]
pub struct BasketTrader {
    pub trader: Pubkey,
    pub trader_state: TraderStateAccount,
    /// The pool's capital, to which the caps on positions relate.
    pub flp_capital: u64,
}

/// The margin engine does not admit a basket. It is asked only if a position would
/// be left.
pub open spec fn margin_refusal(es: Seq<BasketEntry>, assessment: Assessment) -> Option<
    FlashBookError,
> {
    if basket_positions(es, es.len() as int).len() == 0 {
        None
    } else {
        match assessment {
            Err(e) => Some(e),
            Ok(m) => if m.is_healthy {
                None
            } else {
                Some(FlashBookError::TraderLiquidatable)
            },
        }
    }
}

/// Tests a margin engine's answer on a basket that leaves `open` positions.
pub fn check_margin(open: usize, assessment: Assessment) -> (r: Result<(), FlashBookError>)
    ensures
        r == (if open == 0 {
            Ok::<(), FlashBookError>(())
        } else {
            match assessment {
                Err(e) => Err(e),
                Ok(m) => if m.is_healthy {
                    Ok(())
                } else {
                    Err(FlashBookError::TraderLiquidatable)
                },
            }
        }),
{
    if open == 0 {
        return Ok(());
    }
    match assessment {
        Ok(m) => if m.is_healthy {
            Ok(())
        } else {
            Err(FlashBookError::TraderLiquidatable)
        },
        Err(e) => Err(e),
    }
}

/// Why a basket of two legs is refused, if it is.
pub open spec fn pair_refusal(
    c: BasketTrader,
    a: BasketEntry,
    b: BasketEntry,
    book_a: BookModel,
    book_b: BookModel,
    assessment: Assessment,
    limits: Limits,
) -> Option<FlashBookError> {
    let reserved = limits.flp_seq_reserved_offset;
    if c.trader_state.trader != c.trader {
        Some(FlashBookError::WrongTrader)
    } else if a.market_key == b.market_key {
        Some(FlashBookError::OutOfRange)
    } else if leg_intake_refusal(a.market, a.leg, reserved) is Some {
        leg_intake_refusal(a.market, a.leg, reserved)
    } else if leg_intake_refusal(b.market, b.leg, reserved) is Some {
        leg_intake_refusal(b.market, b.leg, reserved)
    } else if leg_exceeds_caps(a.market, a.position, c.flp_capital, a.leg) || leg_exceeds_caps(
        b.market,
        b.position,
        c.flp_capital,
        b.leg,
    ) {
        Some(FlashBookError::PositionSizeCapExceeded)
    } else if basket_binding_refusal(seq![a, b], 0, c.trader) is Some {
        basket_binding_refusal(seq![a, b], 0, c.trader)
    } else if margin_refusal(seq![a, b], assessment) is Some {
        margin_refusal(seq![a, b], assessment)
    } else if rate_exceeded(
        c.trader_state,
        a.market.current_batch,
        2,
        limits.max_orders_per_trader_per_batch,
    ) {
        Some(FlashBookError::RateLimited)
    } else if slice_refusal(book_a, a.market_key, reserved) is Some {
        slice_refusal(book_a, a.market_key, reserved)
    } else {
        slice_refusal(book_b, b.market_key, reserved)
    }
}

/// Rests two legs in two different markets. `assessment` is the margin engine's
/// answer on [`basket_question`], against the trader's pool; the order ids belong to
/// the legs' limits, sides and next sequence numbers. On refusal nothing changes.
pub fn place_basket_order_v2(
    ctx: &mut BasketTrader,
    a: BasketEntry,
    b: BasketEntry,
    book_a: &mut MarketBook,
    book_b: &mut MarketBook,
    assessment: Assessment,
    order_id_a: u64,
    order_id_b: u64,
    limits: &Limits,
    now_slot: u64,
) -> (r: Result<BasketOrderPlacedV2Event, FlashBookError>)
    requires
        a.market.params.tick_size > 0,
        b.market.params.tick_size > 0,
        old(book_a)@.wf(),
        old(book_b)@.wf(),
    ensures
        final(book_a)@.wf(),
        final(book_b)@.wf(),
        match pair_refusal(*old(ctx), a, b, old(book_a)@, old(book_b)@, assessment, *limits) {
            Some(e) => r == Err::<BasketOrderPlacedV2Event, FlashBookError>(e) && *final(ctx)
                == *old(ctx) && *final(book_a) == *old(book_a) && *final(book_b) == *old(book_b),
            None => {
                let c = *old(ctx);
                let sub = c.trader_state.sub_index;
                let seq_a = (old(book_a)@.order_seq_counter + 1) as u64;
                let seq_b = (old(book_b)@.order_seq_counter + 1) as u64;
                &&& *final(ctx) == (BasketTrader {
                    trader_state: orders_counted(c.trader_state, a.market.current_batch, 2),
                    ..c
                })
                &&& final(book_a)@ == book_after_rest(
                    old(book_a)@,
                    leg_order(a.leg, c.trader, sub, seq_a, order_id_a, now_slot),
                )
                &&& final(book_b)@ == book_after_rest(
                    old(book_b)@,
                    leg_order(b.leg, c.trader, sub, seq_b, order_id_b, now_slot),
                )
                &&& r == Ok::<BasketOrderPlacedV2Event, FlashBookError>(
                    BasketOrderPlacedV2Event {
                        trader: c.trader,
                        market_a: a.market_key,
                        market_b: b.market_key,
                        side_a: a.leg.side,
                        side_b: b.leg.side,
                        size_lots_a: a.leg.size_lots,
                        size_lots_b: b.leg.size_lots,
                        seq_a,
                        seq_b,
                    },
                )
            },
        },
{
    let reserved: u64 = limits.flp_seq_reserved_offset;
    if ctx.trader_state.trader != ctx.trader {
        return Err(FlashBookError::WrongTrader);
    }
    if a.market_key == b.market_key {
        return Err(FlashBookError::OutOfRange);
    }
    match validate_leg_intake(&a.market, &a.leg, reserved) {
        Ok(_) => {},
        Err(e) => {
            return Err(e);
        },
    }
    match validate_leg_intake(&b.market, &b.leg, reserved) {
        Ok(_) => {},
        Err(e) => {
            return Err(e);
        },
    }
    match check_caps_for_leg(&a.market, &a.position, ctx.flp_capital, &a.leg) {
        Ok(_) => {},
        Err(e) => {
            return Err(e);
        },
    }
    match check_caps_for_leg(&b.market, &b.position, ctx.flp_capital, &b.leg) {
        Ok(_) => {},
        Err(e) => {
            return Err(e);
        },
    }
    let es: Vec<BasketEntry> = vec![a, b];
    assert(es@ =~= seq![a, b]);
    let question = match basket_question(&es, ctx.trader) {
        Ok(p) => p,
        Err(e) => {
            return Err(e);
        },
    };
    match check_margin(question.positions.len(), assessment) {
        Ok(_) => {},
        Err(e) => {
            return Err(e);
        },
    }
    let counted = match count_orders(
        ctx.trader_state,
        a.market.current_batch,
        2,
        limits.max_orders_per_trader_per_batch,
    ) {
        Ok(s) => s,
        Err(e) => {
            return Err(e);
        },
    };
    match check_leg_book(book_a, a.market_key, limits) {
        Ok(_) => {},
        Err(e) => {
            return Err(e);
        },
    }
    match check_leg_book(book_b, b.market_key, limits) {
        Ok(_) => {},
        Err(e) => {
            return Err(e);
        },
    }
    let sub_index: u8 = ctx.trader_state.sub_index;
    let seq_a: u64 = match inject_leg(
        book_a,
        a.market_key,
        ctx.trader,
        &a.leg,
        order_id_a,
        limits,
        now_slot,
        sub_index,
    ) {
        Ok(n) => n,
        Err(e) => {
            return Err(e);
        },
    };
    let seq_b: u64 = match inject_leg(
        book_b,
        b.market_key,
        ctx.trader,
        &b.leg,
        order_id_b,
        limits,
        now_slot,
        sub_index,
    ) {
        Ok(n) => n,
        Err(e) => {
            return Err(e);
        },
    };
    ctx.trader_state = counted;
    Ok(
        BasketOrderPlacedV2Event {
            trader: ctx.trader,
            market_a: a.market_key,
            market_b: b.market_key,
            side_a: a.leg.side,
            side_b: b.leg.side,
            size_lots_a: a.leg.size_lots,
            size_lots_b: b.leg.size_lots,
            seq_a,
            seq_b,
        },
    )
}

} // verus!
