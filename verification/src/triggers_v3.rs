//! Trigger orders with a price bound, and bracket orders.
use vstd::prelude::*;

use crate::book::{BookModel, MarketBook, RestingOrderV2, book_after_rest, next_order_refusal};
use crate::constants::Limits;
use crate::errors::FlashBookError;
use crate::events::{
    BracketOrderV3PlacedEvent, TriggerOrderV3CancelledEvent, TriggerOrderV3ExecutedEvent,
    TriggerOrderV3PlacedEvent, TriggerOrderV3SlippageCancelledEvent,
};
use crate::keys::Pubkey;
use crate::math::{low_u32, max_int, truncate_u64_to_u32, unix_seconds};
use crate::state::{MarketAccount, TriggerOrderAccountV3, TriggerTerms};
use crate::triggers::{
    OcoPartner, TriggerCall, cancel_trigger_refusal, check_trigger_gate, partner_after,
    partner_released, partner_unfit, place_triggered_order, release_partner, switched_off,
    trigger_gate, trigger_order_refusal, trigger_reached, triggered_order,
};

verus! {

/// The oracle's price is past the bound that the trader accepts: above it for a
/// buy, below it for a sell. A bound of 0 is none.
pub open spec fn slippage_breached(acceptable: u64, side: u8, oracle: u64) -> bool {
    acceptable > 0 && if side == 0 {
        oracle > acceptable
    } else {
        oracle < acceptable
    }
}

/// Tests whether the oracle's price is past the bound that the trader accepts.
pub fn slippage_cap_breached(acceptable_price_ticks: u64, side: u8, oracle: u64) -> (r: bool)
    ensures
        r == slippage_breached(acceptable_price_ticks, side, oracle),
{
    if acceptable_price_ticks == 0 {
        return false;
    }
    if side == 0 {
        oracle > acceptable_price_ticks
    } else {
        oracle < acceptable_price_ticks
    }
}

/// A bound is off the tick grid.
pub open spec fn bound_off_tick(acceptable: u64, tick: u64) -> bool {
    acceptable > 0 && acceptable % tick != 0
}

/// A bound is on the wrong side of the price from which it is meant to allow some
/// slippage.
pub open spec fn bound_misplaced(acceptable: u64, side: u8, price: u64) -> bool {
    acceptable > 0 && if side == 0 {
        acceptable < price
    } else {
        acceptable > price
    }
}

/// Tests a bound on the price.
pub fn check_bound(acceptable: u64, side: u8, price: u64, tick: u64) -> (r: Result<
    (),
    FlashBookError,
>)
    requires
        tick > 0,
    ensures
        r == (if bound_off_tick(acceptable, tick) {
            Err::<(), FlashBookError>(FlashBookError::PriceNotOnTick)
        } else if bound_misplaced(acceptable, side, price) {
            Err(FlashBookError::OutOfRange)
        } else {
            Ok(())
        }),
{
    if acceptable > 0 {
        if acceptable % tick != 0 {
            return Err(FlashBookError::PriceNotOnTick);
        }
        let misplaced: bool = if side == 0 {
            acceptable < price
        } else {
            acceptable > price
        };
        if misplaced {
            return Err(FlashBookError::OutOfRange);
        }
    }
    Ok(())
}

/// What a trader asks for when placing a trigger.
#[derive(Clone, Copy, Debug, PartialEq, Eq, Structural)]
pub struct TriggerRequest {
    pub trigger_id: u8,
    pub side: u8,
    pub kind: u8,
    pub size_lots: u64,
    pub trigger_price_ticks: u64,
    pub limit_price_ticks: u64,
    pub reduce_only: bool,
    pub expires_at_slot: u64,
    pub sub_index: u8,
    pub acceptable_price_ticks: u64,
}

/// Why a trigger is refused, if it is.
pub open spec fn place_trigger_refusal(m: MarketAccount, q: TriggerRequest, now: u64) -> Option<
    FlashBookError,
> {
    let tick = m.params.tick_size;
    if q.side > 1 || q.kind > 1 {
        Some(FlashBookError::OutOfRange)
    } else if q.size_lots == 0 {
        Some(FlashBookError::ZeroSize)
    } else if q.trigger_price_ticks == 0 || q.limit_price_ticks == 0 {
        Some(FlashBookError::ZeroPrice)
    } else if q.size_lots < m.params.min_base_lots {
        Some(FlashBookError::SizeBelowMinLot)
    } else if q.limit_price_ticks % tick != 0 || q.trigger_price_ticks % tick != 0
        || bound_off_tick(q.acceptable_price_ticks, tick) {
        Some(FlashBookError::PriceNotOnTick)
    } else if bound_misplaced(q.acceptable_price_ticks, q.side, q.trigger_price_ticks) {
        Some(FlashBookError::OutOfRange)
    } else if q.expires_at_slot > 0 && q.expires_at_slot <= now {
        Some(FlashBookError::OutOfRange)
    } else {
        None
    }
}

/// The trigger that a request becomes.
pub open spec fn trigger_of_request(
    market_key: Pubkey,
    trader: Pubkey,
    bump: u8,
    q: TriggerRequest,
    now: u64,
) -> TriggerOrderAccountV3 {
    TriggerOrderAccountV3 {
        terms: TriggerTerms {
            market: market_key,
            trader,
            bump,
            trigger_id: q.trigger_id,
            side: q.side,
            kind: q.kind,
            active: true,
            reduce_only: q.reduce_only,
            size_lots: q.size_lots,
            trigger_price_ticks: q.trigger_price_ticks,
            limit_price_ticks: q.limit_price_ticks,
            expires_at_slot: q.expires_at_slot,
            oco_pair: Pubkey::none(),
            sub_index: q.sub_index,
        },
        created_at_slot: now,
        acceptable_price_ticks: q.acceptable_price_ticks,
    }
}

/// Makes the trigger that a request becomes.
pub fn make_trigger(market_key: Pubkey, trader: Pubkey, bump: u8, q: TriggerRequest, now: u64) -> (r:
    TriggerOrderAccountV3)
    ensures
        r == trigger_of_request(market_key, trader, bump, q, now),
{
    TriggerOrderAccountV3 {
        terms: TriggerTerms {
            market: market_key,
            trader,
            bump,
            trigger_id: q.trigger_id,
            side: q.side,
            kind: q.kind,
            active: true,
            reduce_only: q.reduce_only,
            size_lots: q.size_lots,
            trigger_price_ticks: q.trigger_price_ticks,
            limit_price_ticks: q.limit_price_ticks,
            expires_at_slot: q.expires_at_slot,
            oco_pair: Pubkey::default_key(),
            sub_index: q.sub_index,
        },
        created_at_slot: now,
        acceptable_price_ticks: q.acceptable_price_ticks,
    }
}

/// Places a trigger.
pub fn place_trigger_order_v3(
    market_key: Pubkey,
    market: &MarketAccount,
    trader: Pubkey,
    bump: u8,
    q: TriggerRequest,
    now: u64,
) -> (r: Result<(TriggerOrderAccountV3, TriggerOrderV3PlacedEvent), FlashBookError>)
    requires
        market.params.tick_size > 0,
    ensures
        r == (match place_trigger_refusal(*market, q, now) {
            Some(e) => Err::<(TriggerOrderAccountV3, TriggerOrderV3PlacedEvent), FlashBookError>(e),
            None => Ok(
                (
                    trigger_of_request(market_key, trader, bump, q, now),
                    TriggerOrderV3PlacedEvent {
                        market: market_key,
                        trader,
                        trigger_id: q.trigger_id,
                        side: q.side,
                        kind: q.kind,
                        size_lots: q.size_lots,
                        trigger_price_ticks: q.trigger_price_ticks,
                        limit_price_ticks: q.limit_price_ticks,
                    },
                ),
            ),
        }),
        r matches Ok(p) ==> p.0.terms.wf(),
{
    let tick: u64 = market.params.tick_size;
    if q.side > 1 || q.kind > 1 {
        return Err(FlashBookError::OutOfRange);
    }
    if q.size_lots == 0 {
        return Err(FlashBookError::ZeroSize);
    }
    if q.trigger_price_ticks == 0 || q.limit_price_ticks == 0 {
        return Err(FlashBookError::ZeroPrice);
    }
    if q.size_lots < market.params.min_base_lots {
        return Err(FlashBookError::SizeBelowMinLot);
    }
    if q.limit_price_ticks % tick != 0 || q.trigger_price_ticks % tick != 0 {
        return Err(FlashBookError::PriceNotOnTick);
    }
    match check_bound(q.acceptable_price_ticks, q.side, q.trigger_price_ticks, tick) {
        Ok(_) => {},
        Err(e) => {
            return Err(e);
        },
    }
    if q.expires_at_slot > 0 && q.expires_at_slot <= now {
        return Err(FlashBookError::OutOfRange);
    }
    Ok(
        (
            make_trigger(market_key, trader, bump, q, now),
            TriggerOrderV3PlacedEvent {
                market: market_key,
                trader,
                trigger_id: q.trigger_id,
                side: q.side,
                kind: q.kind,
                size_lots: q.size_lots,
                trigger_price_ticks: q.trigger_price_ticks,
                limit_price_ticks: q.limit_price_ticks,
            },
        ),
    )
}

/// How a trigger can fail to place its order.
#[derive(Clone, Copy, Debug, PartialEq, Eq, Structural)]
pub enum TriggerFailure {
    /// It was not to be fired; nothing changed.
    Refused(FlashBookError),
    /// The price was past the trader's bound; the trigger was switched off.
    SlippageCancelled(TriggerOrderV3SlippageCancelledEvent),
}

impl TriggerFailure {
    /// The error that a failure stands for.
    pub open spec fn code(self) -> FlashBookError {
        match self {
            TriggerFailure::Refused(e) => e,
            TriggerFailure::SlippageCancelled(_) => FlashBookError::TriggerSlippageExceeded,
        }
    }

    /// The error that a failure stands for.
    pub fn error(&self) -> (r: FlashBookError)
        ensures
            r == self.code(),
    {
        match self {
            TriggerFailure::Refused(e) => *e,
            TriggerFailure::SlippageCancelled(_) => FlashBookError::TriggerSlippageExceeded,
        }
    }
}

/// Fires a trigger: anyone may, once the oracle's price has reached it. If the price
/// is past the trader's bound, the trigger is switched off instead, and stays so
/// although a failure is returned. On refusal nothing changes.
pub fn execute_trigger_order_v3(
    ctx: &TriggerCall,
    trigger: &mut TriggerOrderAccountV3,
    partner: &mut Option<OcoPartner>,
    book: &mut MarketBook,
    order_id: u64,
    limits: &Limits,
    now_slot: u64,
    unix_now: i64,
) -> (r: Result<TriggerOrderV3ExecutedEvent, TriggerFailure>)
    requires
        old(trigger).terms.wf(),
        old(book)@.wf(),
    ensures
        final(book)@.wf(),
        ({
            let t = old(trigger).terms;
            let cap = old(trigger).acceptable_price_ticks;
            let oracle = ctx.market.oracle_price_ticks;
            match trigger_gate(*ctx, t, now_slot, max_int(unix_now as int, 0) as u64) {
                Some(e) => r == Err::<TriggerOrderV3ExecutedEvent, TriggerFailure>(
                    TriggerFailure::Refused(e),
                ) && *final(trigger) == *old(trigger) && *final(partner) == *old(partner)
                    && *final(book) == *old(book),
                None => if slippage_breached(cap, t.side, oracle) {
                    &&& r == Err::<TriggerOrderV3ExecutedEvent, TriggerFailure>(
                        TriggerFailure::SlippageCancelled(
                            TriggerOrderV3SlippageCancelledEvent {
                                market: ctx.market_key,
                                trader: t.trader,
                                trigger_id: t.trigger_id,
                                oracle_price_ticks: oracle,
                                acceptable_price_ticks: cap,
                            },
                        ),
                    )
                    &&& *final(trigger) == (TriggerOrderAccountV3 {
                        terms: switched_off(t),
                        ..*old(trigger)
                    })
                    &&& *final(partner) == *old(partner)
                    &&& *final(book) == *old(book)
                } else {
                    match trigger_order_refusal(
                        *ctx,
                        t,
                        *old(partner),
                        old(book)@,
                        limits.flp_seq_reserved_offset,
                    ) {
                        Some(e) => r == Err::<TriggerOrderV3ExecutedEvent, TriggerFailure>(
                            TriggerFailure::Refused(e),
                        ) && *final(trigger) == *old(trigger) && *final(partner) == *old(partner)
                            && *final(book) == *old(book),
                        None => {
                            let seq = (old(book)@.order_seq_counter + 1) as u64;
                            &&& *final(trigger) == (TriggerOrderAccountV3 {
                                terms: switched_off(t),
                                ..*old(trigger)
                            })
                            &&& *final(partner) == partner_after(t, *old(partner))
                            &&& final(book)@ == book_after_rest(
                                old(book)@,
                                triggered_order(t, seq, order_id, now_slot),
                            )
                            &&& r == Ok::<TriggerOrderV3ExecutedEvent, TriggerFailure>(
                                TriggerOrderV3ExecutedEvent {
                                    market: ctx.market_key,
                                    trader: t.trader,
                                    trigger_id: t.trigger_id,
                                    executor: ctx.caller,
                                    oracle_price_ticks: oracle,
                                    order_seq: seq,
                                },
                            )
                        },
                    }
                },
            }
        }),
{
    let now: u64 = unix_seconds(unix_now);
    match check_trigger_gate(ctx, &trigger.terms, now_slot, now) {
        Ok(_) => {},
        Err(e) => {
            return Err(TriggerFailure::Refused(e));
        },
    }
    let oracle: u64 = ctx.market.oracle_price_ticks;
    if slippage_cap_breached(trigger.acceptable_price_ticks, trigger.terms.side, oracle) {
        trigger.terms.active = false;
        return Err(
            TriggerFailure::SlippageCancelled(
                TriggerOrderV3SlippageCancelledEvent {
                    market: ctx.market_key,
                    trader: trigger.terms.trader,
                    trigger_id: trigger.terms.trigger_id,
                    oracle_price_ticks: oracle,
                    acceptable_price_ticks: trigger.acceptable_price_ticks,
                },
            ),
        );
    }
    match place_triggered_order(
        ctx,
        &mut trigger.terms,
        partner,
        book,
        order_id,
        limits,
        now_slot,
    ) {
        Ok(order_seq) => Ok(
            TriggerOrderV3ExecutedEvent {
                market: ctx.market_key,
                trader: trigger.terms.trader,
                trigger_id: trigger.terms.trigger_id,
                executor: ctx.caller,
                oracle_price_ticks: oracle,
                order_seq,
            },
        ),
        Err(e) => Err(TriggerFailure::Refused(e)),
    }
}

/// Cancels a trigger, fired or not; its account is then to be closed. If its
/// partner is shown, that is switched off too. On refusal nothing changes.
pub fn cancel_trigger_order_v3(
    trigger: &TriggerOrderAccountV3,
    trigger_key: Pubkey,
    trader: Pubkey,
    partner: &mut Option<OcoPartner>,
) -> (r: Result<TriggerOrderV3CancelledEvent, FlashBookError>)
    ensures
        match cancel_trigger_refusal(trigger.terms, trigger_key, trader, *old(partner)) {
            Some(e) => r == Err::<TriggerOrderV3CancelledEvent, FlashBookError>(e)
                && *final(partner) == *old(partner),
            None => {
                &&& *final(partner) == partner_released(trigger.terms, *old(partner))
                &&& r == Ok::<TriggerOrderV3CancelledEvent, FlashBookError>(
                    TriggerOrderV3CancelledEvent {
                        market: trigger.terms.market,
                        trader,
                        trigger_id: trigger.terms.trigger_id,
                    },
                )
            },
        },
{
    match release_partner(&trigger.terms, trigger_key, trader, partner) {
        Ok(_) => Ok(
            TriggerOrderV3CancelledEvent {
                market: trigger.terms.market,
                trader,
                trigger_id: trigger.terms.trigger_id,
            },
        ),
        Err(e) => Err(e),
    }
}

/// What a trader asks for when placing a bracket: an order, a target and a stop.
#[derive(Clone, Copy, Debug, PartialEq, Eq, Structural)]
pub struct BracketRequest {
    pub parent_side: u8,
    pub size_lots: u64,
    pub parent_limit_ticks: u64,
    pub tp_trigger_id: u8,
    pub tp_trigger_price_ticks: u64,
    pub tp_limit_ticks: u64,
    pub sl_trigger_id: u8,
    pub sl_trigger_price_ticks: u64,
    pub sl_limit_ticks: u64,
    pub expires_at_slot: u64,
    pub sub_index: u8,
}

/// The accounts of a bracket.
#[derive(Clone, Copy, Debug, PartialEq, Eq, Structural)]
pub struct BracketAccounts {
    pub trader: Pubkey,
    pub market_key: Pubkey,
    pub market: MarketAccount,
    pub tp_trigger_key: Pubkey,
    pub tp_bump: u8,
    pub sl_trigger_key: Pubkey,
    pub sl_bump: u8,
}

/// All prices of a bracket are positive.
pub open spec fn bracket_prices_positive(q: BracketRequest) -> bool {
    q.parent_limit_ticks > 0 && q.tp_trigger_price_ticks > 0 && q.sl_trigger_price_ticks > 0
        && q.tp_limit_ticks > 0 && q.sl_limit_ticks > 0
}

/// All prices of a bracket lie on the tick grid.
pub open spec fn bracket_prices_on_tick(q: BracketRequest, tick: u64) -> bool {
    q.parent_limit_ticks % tick == 0 && q.tp_trigger_price_ticks % tick == 0
        && q.sl_trigger_price_ticks % tick == 0 && q.tp_limit_ticks % tick == 0
        && q.sl_limit_ticks % tick == 0
}

/// The target lies on the winning side of the order's price and the stop on the
/// losing side.
pub open spec fn bracket_ordered(q: BracketRequest) -> bool {
    if q.parent_side == 0 {
        q.sl_trigger_price_ticks < q.parent_limit_ticks < q.tp_trigger_price_ticks
    } else {
        q.tp_trigger_price_ticks < q.parent_limit_ticks < q.sl_trigger_price_ticks
    }
}

/// Why the terms of a bracket are refused, if they are.
pub open spec fn bracket_terms_refusal(m: MarketAccount, q: BracketRequest, now: u64) -> Option<
    FlashBookError,
> {
    if q.parent_side > 1 || q.tp_trigger_id == q.sl_trigger_id {
        Some(FlashBookError::OutOfRange)
    } else if q.size_lots == 0 {
        Some(FlashBookError::ZeroSize)
    } else if !bracket_prices_positive(q) {
        Some(FlashBookError::ZeroPrice)
    } else if q.size_lots < m.params.min_base_lots {
        Some(FlashBookError::SizeBelowMinLot)
    } else if !bracket_prices_on_tick(q, m.params.tick_size) {
        Some(FlashBookError::PriceNotOnTick)
    } else if q.expires_at_slot > 0 && q.expires_at_slot <= now {
        Some(FlashBookError::OutOfRange)
    } else if !bracket_ordered(q) {
        Some(FlashBookError::OutOfRange)
    } else {
        None
    }
}

/// Why a bracket is refused, if it is.
pub open spec fn bracket_refusal(
    a: BracketAccounts,
    b: BookModel,
    q: BracketRequest,
    reserved: u64,
    now: u64,
) -> Option<FlashBookError> {
    match bracket_terms_refusal(a.market, q, now) {
        Some(e) => Some(e),
        None => if b.market_pubkey != a.market_key {
            Some(FlashBookError::WrongMarket)
        } else {
            next_order_refusal(b, reserved)
        },
    }
}

/// One exit of a bracket: a trigger that closes the position and is linked to the
/// other exit.
pub open spec fn bracket_exit(
    a: BracketAccounts,
    q: BracketRequest,
    target: bool,
    now: u64,
) -> TriggerOrderAccountV3 {
    TriggerOrderAccountV3 {
        terms: TriggerTerms {
            market: a.market_key,
            trader: a.trader,
            bump: if target {
                a.tp_bump
            } else {
                a.sl_bump
            },
            trigger_id: if target {
                q.tp_trigger_id
            } else {
                q.sl_trigger_id
            },
            side: (1 - q.parent_side) as u8,
            kind: if target == (q.parent_side == 0) {
                1
            } else {
                0
            },
            active: true,
            reduce_only: true,
            size_lots: q.size_lots,
            trigger_price_ticks: if target {
                q.tp_trigger_price_ticks
            } else {
                q.sl_trigger_price_ticks
            },
            limit_price_ticks: if target {
                q.tp_limit_ticks
            } else {
                q.sl_limit_ticks
            },
            expires_at_slot: q.expires_at_slot,
            oco_pair: if target {
                a.sl_trigger_key
            } else {
                a.tp_trigger_key
            },
            sub_index: q.sub_index,
        },
        created_at_slot: now,
        acceptable_price_ticks: 0,
    }
}

/// Makes one exit of a bracket.
pub fn make_bracket_exit(a: &BracketAccounts, q: &BracketRequest, target: bool, now: u64) -> (r:
    TriggerOrderAccountV3)
    requires
        q.parent_side <= 1,
    ensures
        r == bracket_exit(*a, *q, target, now),
{
    let kind: u8 = if target == (q.parent_side == 0) {
        1
    } else {
        0
    };
    let (bump, trigger_id, trigger_price_ticks, limit_price_ticks, oco_pair): (
        u8,
        u8,
        u64,
        u64,
        Pubkey,
    ) = if target {
        (a.tp_bump, q.tp_trigger_id, q.tp_trigger_price_ticks, q.tp_limit_ticks, a.sl_trigger_key)
    } else {
        (a.sl_bump, q.sl_trigger_id, q.sl_trigger_price_ticks, q.sl_limit_ticks, a.tp_trigger_key)
    };
    TriggerOrderAccountV3 {
        terms: TriggerTerms {
            market: a.market_key,
            trader: a.trader,
            bump,
            trigger_id,
            side: 1 - q.parent_side,
            kind,
            active: true,
            reduce_only: true,
            size_lots: q.size_lots,
            trigger_price_ticks,
            limit_price_ticks,
            expires_at_slot: q.expires_at_slot,
            oco_pair,
            sub_index: q.sub_index,
        },
        created_at_slot: now,
        acceptable_price_ticks: 0,
    }
}

/// The order that opens a bracket.
pub open spec fn bracket_order(
    a: BracketAccounts,
    q: BracketRequest,
    seq: u64,
    order_id: u64,
    now: u64,
) -> RestingOrderV2 {
    RestingOrderV2 {
        order_id,
        seq,
        price_ticks: q.parent_limit_ticks,
        size_lots: q.size_lots,
        expires_at_slot: 0,
        trader: a.trader,
        last_valid_slot: low_u32(now),
        side: q.parent_side,
        order_type: 0,
        flags: 0,
        sub_index: q.sub_index,
    }
}

/// What comes of a bracket.
#[derive(Clone, Copy, Debug, PartialEq, Eq, Structural)]
pub struct Bracket {
    pub tp_trigger: TriggerOrderAccountV3,
    pub sl_trigger: TriggerOrderAccountV3,
    pub event: BracketOrderV3PlacedEvent,
}

/// Tests the terms of a bracket.
pub fn check_bracket(market: &MarketAccount, q: &BracketRequest, now: u64) -> (r: Result<
    (),
    FlashBookError,
>)
    requires
        market.params.tick_size > 0,
    ensures
        r == (match bracket_terms_refusal(*market, *q, now) {
            Some(e) => Err::<(), FlashBookError>(e),
            None => Ok(()),
        }),
{
    if q.parent_side > 1 || q.tp_trigger_id == q.sl_trigger_id {
        return Err(FlashBookError::OutOfRange);
    }
    if q.size_lots == 0 {
        return Err(FlashBookError::ZeroSize);
    }
    if q.parent_limit_ticks == 0 || q.tp_trigger_price_ticks == 0 || q.sl_trigger_price_ticks == 0
        || q.tp_limit_ticks == 0 || q.sl_limit_ticks == 0 {
        return Err(FlashBookError::ZeroPrice);
    }
    if q.size_lots < market.params.min_base_lots {
        return Err(FlashBookError::SizeBelowMinLot);
    }
    let tick: u64 = market.params.tick_size;
    if q.parent_limit_ticks % tick != 0 || q.tp_trigger_price_ticks % tick != 0
        || q.sl_trigger_price_ticks % tick != 0 || q.tp_limit_ticks % tick != 0
        || q.sl_limit_ticks % tick != 0 {
        return Err(FlashBookError::PriceNotOnTick);
    }
    if q.expires_at_slot > 0 && q.expires_at_slot <= now {
        return Err(FlashBookError::OutOfRange);
    }
    let ordered: bool = if q.parent_side == 0 {
        q.tp_trigger_price_ticks > q.parent_limit_ticks && q.sl_trigger_price_ticks
            < q.parent_limit_ticks
    } else {
        q.tp_trigger_price_ticks < q.parent_limit_ticks && q.sl_trigger_price_ticks
            > q.parent_limit_ticks
    };
    if !ordered {
        return Err(FlashBookError::OutOfRange);
    }
    Ok(())
}

/// Places an order together with two linked triggers that close the position it
/// opens: one at a profit, one at a loss. On refusal the book does not change.
pub fn place_bracket_order_v3(
    ctx: &BracketAccounts,
    book: &mut MarketBook,
    q: BracketRequest,
    order_id: u64,
    limits: &Limits,
    now: u64,
) -> (r: Result<Bracket, FlashBookError>)
    requires
        ctx.market.params.tick_size > 0,
        old(book)@.wf(),
    ensures
        final(book)@.wf(),
        match bracket_refusal(*ctx, old(book)@, q, limits.flp_seq_reserved_offset, now) {
            Some(e) => r == Err::<Bracket, FlashBookError>(e) && *final(book) == *old(book),
            None => {
                let seq = (old(book)@.order_seq_counter + 1) as u64;
                &&& final(book)@ == book_after_rest(
                    old(book)@,
                    bracket_order(*ctx, q, seq, order_id, now),
                )
                &&& r == Ok::<Bracket, FlashBookError>(
                    Bracket {
                        tp_trigger: bracket_exit(*ctx, q, true, now),
                        sl_trigger: bracket_exit(*ctx, q, false, now),
                        event: BracketOrderV3PlacedEvent {
                            market: ctx.market_key,
                            trader: ctx.trader,
                            parent_side: q.parent_side,
                            size_lots: q.size_lots,
                            parent_limit_ticks: q.parent_limit_ticks,
                            tp_trigger_id: q.tp_trigger_id,
                            sl_trigger_id: q.sl_trigger_id,
                            tp_trigger_price_ticks: q.tp_trigger_price_ticks,
                            sl_trigger_price_ticks: q.sl_trigger_price_ticks,
                        },
                    },
                )
            },
        },
{
    match check_bracket(&ctx.market, &q, now) {
        Ok(_) => {},
        Err(e) => {
            return Err(e);
        },
    }
    if book.market_pubkey != ctx.market_key {
        return Err(FlashBookError::WrongMarket);
    }
    let order = RestingOrderV2 {
        order_id,
        seq: 0,
        price_ticks: q.parent_limit_ticks,
        size_lots: q.size_lots,
        expires_at_slot: 0,
        trader: ctx.trader,
        last_valid_slot: truncate_u64_to_u32(now),
        side: q.parent_side,
        order_type: 0,
        flags: 0,
        sub_index: q.sub_index,
    };
    match book.rest_next(order, limits.flp_seq_reserved_offset) {
        Ok(_) => {},
        Err(e) => {
            return Err(e);
        },
    }
    Ok(
        Bracket {
            tp_trigger: make_bracket_exit(ctx, &q, true, now),
            sl_trigger: make_bracket_exit(ctx, &q, false, now),
            event: BracketOrderV3PlacedEvent {
                market: ctx.market_key,
                trader: ctx.trader,
                parent_side: q.parent_side,
                size_lots: q.size_lots,
                parent_limit_ticks: q.parent_limit_ticks,
                tp_trigger_id: q.tp_trigger_id,
                sl_trigger_id: q.sl_trigger_id,
                tp_trigger_price_ticks: q.tp_trigger_price_ticks,
                sl_trigger_price_ticks: q.sl_trigger_price_ticks,
            },
        },
    )
}

/// The exits of an accepted bracket close the opened position and nothing more: they
/// are on the other side, of the same size, may only reduce, and cannot both be
/// reached at one price. When one fires, the other is switched off.
pub proof fn law_bracket_exits_exclude_each_other(
    a: BracketAccounts,
    b: BookModel,
    q: BracketRequest,
    reserved: u64,
    now: u64,
    oracle: u64,
)
    requires
        bracket_refusal(a, b, q, reserved, now) is None,
        a.tp_trigger_key != Pubkey::none(),
        a.sl_trigger_key != Pubkey::none(),
    ensures
        ({
            let tp = bracket_exit(a, q, true, now).terms;
            let sl = bracket_exit(a, q, false, now).terms;
            let shown = OcoPartner { terms: sl, writable: true };
            &&& tp.wf() && sl.wf()
            &&& tp.side != q.parent_side && sl.side != q.parent_side
            &&& tp.size_lots == q.size_lots && sl.size_lots == q.size_lots
            &&& tp.reduce_only && sl.reduce_only
            &&& !(trigger_reached(tp, oracle) && trigger_reached(sl, oracle))
            &&& !partner_unfit(tp, a.tp_trigger_key, Some(shown))
            &&& !partner_after(tp, Some(shown))->0.terms.active
        }),
{
}

/// A trigger with a bound never places its order at a price past the bound.
pub proof fn law_bound_is_kept(acceptable: u64, side: u8, oracle: u64)
    requires
        acceptable > 0,
        !slippage_breached(acceptable, side, oracle),
    ensures
        side == 0 ==> oracle <= acceptable,
        side != 0 ==> oracle >= acceptable,
{
}

} // verus!
