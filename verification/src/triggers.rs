//! Trigger orders: stops and targets that wait for the oracle's price.
use vstd::prelude::*;

use crate::book::{BookModel, MarketBook, RestingOrderV2, book_after_rest, next_order_refusal};
use crate::constants::Limits;
use crate::errors::FlashBookError;
use crate::events::{TriggerOrderCancelledEvent, TriggerOrderExecutedV2Event};
use crate::keys::Pubkey;
use crate::math::{low_u32, max_int, truncate_u64_to_u32, unix_seconds};
use crate::state::{MarketAccount, PositionAccount, TriggerOrderAccount, TriggerTerms};

verus! {

/// The trigger that is switched off when its partner fires, as it came with a
/// request.
#[derive(Clone, Copy, Debug, PartialEq, Eq, Structural)]
pub struct OcoPartner {
    pub terms: TriggerTerms,
    pub writable: bool,
}

/// Who fires a trigger, and what the trigger depends on.
#[derive(Clone, Copy, Debug, PartialEq, Eq, Structural)]
pub struct TriggerCall {
    pub caller: Pubkey,
    pub market_key: Pubkey,
    pub market: MarketAccount,
    pub trigger_key: Pubkey,
    /// The trader's position in the market.
    pub position: PositionAccount,
}

/// The oracle's price has reached the trigger.
pub open spec fn trigger_reached(t: TriggerTerms, oracle: u64) -> bool {
    if t.kind == 0 {
        oracle <= t.trigger_price_ticks
    } else {
        oracle >= t.trigger_price_ticks
    }
}

/// A published price is older than the market allows.
pub open spec fn oracle_stale(m: MarketAccount, now: u64) -> bool {
    m.params.oracle_staleness_max_seconds > 0 && m.oracle_published_at_unix_seconds > 0 && now
        - m.oracle_published_at_unix_seconds > m.params.oracle_staleness_max_seconds
}

/// Tests whether a published price is older than the market allows.
pub fn is_oracle_stale(m: &MarketAccount, now: u64) -> (r: bool)
    ensures
        r == oracle_stale(*m, now),
{
    let max_age: u64 = m.params.oracle_staleness_max_seconds as u64;
    max_age > 0 && m.oracle_published_at_unix_seconds > 0 && now.saturating_sub(
        m.oracle_published_at_unix_seconds,
    ) > max_age
}

/// Why a trigger cannot fire now, if it cannot.
pub open spec fn trigger_gate(c: TriggerCall, t: TriggerTerms, slot: u64, now: u64) -> Option<
    FlashBookError,
> {
    if c.position.market != c.market_key {
        Some(FlashBookError::WrongMarket)
    } else if c.position.trader != t.trader {
        Some(FlashBookError::WrongTrader)
    } else if !t.active {
        Some(FlashBookError::OutOfRange)
    } else if t.expires_at_slot > 0 && t.expires_at_slot < slot {
        Some(FlashBookError::OutOfRange)
    } else if oracle_stale(c.market, now) {
        Some(FlashBookError::OracleTooStale)
    } else if !trigger_reached(t, c.market.oracle_price_ticks) {
        Some(FlashBookError::OutOfRange)
    } else {
        None
    }
}

/// Tests whether a trigger can fire now.
pub fn check_trigger_gate(c: &TriggerCall, t: &TriggerTerms, slot: u64, now: u64) -> (r: Result<
    (),
    FlashBookError,
>)
    ensures
        r == (match trigger_gate(*c, *t, slot, now) {
            Some(e) => Err::<(), FlashBookError>(e),
            None => Ok(()),
        }),
{
    if c.position.market != c.market_key {
        return Err(FlashBookError::WrongMarket);
    }
    if c.position.trader != t.trader {
        return Err(FlashBookError::WrongTrader);
    }
    if !t.active {
        return Err(FlashBookError::OutOfRange);
    }
    if t.expires_at_slot > 0 && t.expires_at_slot < slot {
        return Err(FlashBookError::OutOfRange);
    }
    if is_oracle_stale(&c.market, now) {
        return Err(FlashBookError::OracleTooStale);
    }
    let oracle: u64 = c.market.oracle_price_ticks;
    let fired: bool = if t.kind == 0 {
        oracle <= t.trigger_price_ticks
    } else {
        oracle >= t.trigger_price_ticks
    };
    if !fired {
        return Err(FlashBookError::OutOfRange);
    }
    Ok(())
}

/// A trigger that may only reduce would do more: the position is flat, on the same
/// side, or smaller than the order.
pub open spec fn reduces_too_much(t: TriggerTerms, p: PositionAccount) -> bool {
    t.reduce_only && (p.size_lots == 0 || p.side == t.side || t.size_lots > p.size_lots)
}

/// The partner cannot be switched off: it was not shown, cannot be written, or does
/// not name this trigger.
pub open spec fn partner_unfit(t: TriggerTerms, trigger_key: Pubkey, partner: Option<OcoPartner>) -> bool {
    t.oco_pair != Pubkey::none() && !(partner matches Some(p) && p.writable && p.terms.oco_pair
        == trigger_key)
}

/// Why a trigger that has been reached cannot place its order, if it cannot.
pub open spec fn trigger_order_refusal(
    c: TriggerCall,
    t: TriggerTerms,
    partner: Option<OcoPartner>,
    b: BookModel,
    reserved: u64,
) -> Option<FlashBookError> {
    if reduces_too_much(t, c.position) {
        Some(FlashBookError::OutOfRange)
    } else if b.market_pubkey != c.market_key {
        Some(FlashBookError::WrongMarket)
    } else {
        match next_order_refusal(b, reserved) {
            Some(e) => Some(e),
            None => if partner_unfit(t, c.trigger_key, partner) {
                Some(FlashBookError::OcoPairMismatch)
            } else {
                None
            },
        }
    }
}

/// The order that a trigger places.
pub open spec fn triggered_order(t: TriggerTerms, seq: u64, order_id: u64, slot: u64) -> RestingOrderV2 {
    RestingOrderV2 {
        order_id,
        seq,
        price_ticks: t.limit_price_ticks,
        size_lots: t.size_lots,
        expires_at_slot: 0,
        trader: t.trader,
        last_valid_slot: low_u32(slot),
        side: t.side,
        order_type: 0,
        flags: 0,
        sub_index: t.sub_index,
    }
}

/// A trigger that was switched off.
pub open spec fn switched_off(t: TriggerTerms) -> TriggerTerms {
    TriggerTerms { active: false, ..t }
}

/// The partner after this trigger fired: switched off, if there is one.
pub open spec fn partner_after(t: TriggerTerms, partner: Option<OcoPartner>) -> Option<OcoPartner> {
    match partner {
        Some(p) if t.oco_pair != Pubkey::none() => Some(
            OcoPartner { terms: switched_off(p.terms), ..p },
        ),
        _ => partner,
    }
}

/// Places the order of a trigger that has been reached, and switches it and its
/// partner off. On refusal nothing changes.
pub fn place_triggered_order(
    c: &TriggerCall,
    t: &mut TriggerTerms,
    partner: &mut Option<OcoPartner>,
    book: &mut MarketBook,
    order_id: u64,
    limits: &Limits,
    slot: u64,
) -> (r: Result<u64, FlashBookError>)
    requires
        old(t).wf(),
        old(book)@.wf(),
    ensures
        final(book)@.wf(),
        match trigger_order_refusal(
            *c,
            *old(t),
            *old(partner),
            old(book)@,
            limits.flp_seq_reserved_offset,
        ) {
            Some(e) => r == Err::<u64, FlashBookError>(e) && *final(t) == *old(t)
                && *final(partner) == *old(partner) && *final(book) == *old(book),
            None => {
                let seq = (old(book)@.order_seq_counter + 1) as u64;
                &&& r == Ok::<u64, FlashBookError>(seq)
                &&& *final(t) == switched_off(*old(t))
                &&& *final(partner) == partner_after(*old(t), *old(partner))
                &&& final(book)@ == book_after_rest(
                    old(book)@,
                    triggered_order(*old(t), seq, order_id, slot),
                )
            },
        },
{
    if t.reduce_only {
        if c.position.size_lots == 0 || c.position.side == t.side || t.size_lots
            > c.position.size_lots {
            return Err(FlashBookError::OutOfRange);
        }
    }
    if book.market_pubkey != c.market_key {
        return Err(FlashBookError::WrongMarket);
    }
    let linked: bool = !t.oco_pair.is_default();
    let fit: bool = match *partner {
        Some(p) => p.writable && p.terms.oco_pair == c.trigger_key,
        None => false,
    };
    let order = RestingOrderV2 {
        order_id,
        seq: 0,
        price_ticks: t.limit_price_ticks,
        size_lots: t.size_lots,
        expires_at_slot: 0,
        trader: t.trader,
        last_valid_slot: truncate_u64_to_u32(slot),
        side: t.side,
        order_type: 0,
        flags: 0,
        sub_index: t.sub_index,
    };
    if linked && !fit {
        return match book.check_next(limits.flp_seq_reserved_offset) {
            Ok(_) => Err(FlashBookError::OcoPairMismatch),
            Err(e) => Err(e),
        };
    }
    let seq: u64 = match book.rest_next(order, limits.flp_seq_reserved_offset) {
        Ok(n) => n,
        Err(e) => {
            return Err(e);
        },
    };
    t.active = false;
    if linked {
        match *partner {
            Some(p) => {
                *partner = Some(
                    OcoPartner { terms: TriggerTerms { active: false, ..p.terms }, ..p },
                );
            },
            None => {},
        }
    }
    Ok(seq)
}

/// Fires a trigger: anyone may, once the oracle's price has reached it. On refusal
/// nothing changes.
pub fn execute_trigger_order_v2(
    ctx: &TriggerCall,
    trigger: &mut TriggerOrderAccount,
    partner: &mut Option<OcoPartner>,
    book: &mut MarketBook,
    order_id: u64,
    limits: &Limits,
    now_slot: u64,
    unix_now: i64,
) -> (r: Result<TriggerOrderExecutedV2Event, FlashBookError>)
    requires
        old(trigger).terms.wf(),
        old(book)@.wf(),
    ensures
        final(book)@.wf(),
        ({
            let t = old(trigger).terms;
            let refusal = match trigger_gate(
                *ctx,
                t,
                now_slot,
                max_int(unix_now as int, 0) as u64,
            ) {
                Some(e) => Some(e),
                None => trigger_order_refusal(
                    *ctx,
                    t,
                    *old(partner),
                    old(book)@,
                    limits.flp_seq_reserved_offset,
                ),
            };
            match refusal {
                Some(e) => r == Err::<TriggerOrderExecutedV2Event, FlashBookError>(e)
                    && *final(trigger) == *old(trigger) && *final(partner) == *old(partner)
                    && *final(book) == *old(book),
                None => {
                    let seq = (old(book)@.order_seq_counter + 1) as u64;
                    &&& *final(trigger) == (TriggerOrderAccount {
                        terms: switched_off(t),
                        ..*old(trigger)
                    })
                    &&& *final(partner) == partner_after(t, *old(partner))
                    &&& final(book)@ == book_after_rest(
                        old(book)@,
                        triggered_order(t, seq, order_id, now_slot),
                    )
                    &&& r == Ok::<TriggerOrderExecutedV2Event, FlashBookError>(
                        TriggerOrderExecutedV2Event {
                            market: ctx.market_key,
                            trader: t.trader,
                            trigger_id: t.trigger_id,
                            executor: ctx.caller,
                            oracle_price_ticks: ctx.market.oracle_price_ticks,
                            order_seq: seq,
                        },
                    )
                },
            }
        }),
{
    let now: u64 = unix_seconds(unix_now);
    match check_trigger_gate(ctx, &trigger.terms, now_slot, now) {
        Ok(_) => {},
        Err(e) => {
            return Err(e);
        },
    }
    match place_triggered_order(
        ctx,
        &mut trigger.terms,
        partner,
        book,
        order_id,
        limits,
        now_slot,
    ) {
        Ok(order_seq) => Ok(
            TriggerOrderExecutedV2Event {
                market: ctx.market_key,
                trader: trigger.terms.trader,
                trigger_id: trigger.terms.trigger_id,
                executor: ctx.caller,
                oracle_price_ticks: ctx.market.oracle_price_ticks,
                order_seq,
            },
        ),
        Err(e) => Err(e),
    }
}

/// A trigger fires at most once, and of two that are linked to each other only one
/// fires.
pub proof fn law_trigger_fires_once(
    t: TriggerTerms,
    partner: OcoPartner,
    again: TriggerCall,
    slot: u64,
    now: u64,
)
    ensures
        trigger_gate(again, switched_off(t), slot, now) is Some,
        t.oco_pair != Pubkey::none() ==> trigger_gate(
            again,
            partner_after(t, Some(partner))->0.terms,
            slot,
            now,
        ) is Some,
{
}

/// A trigger that may only reduce never opens or turns round a position: its order
/// is on the other side and no larger.
pub proof fn law_reduce_only_reduces(
    c: TriggerCall,
    t: TriggerTerms,
    partner: Option<OcoPartner>,
    b: BookModel,
    reserved: u64,
    seq: u64,
    order_id: u64,
    slot: u64,
)
    requires
        t.reduce_only,
        trigger_order_refusal(c, t, partner, b, reserved) is None,
    ensures
        ({
            let o = triggered_order(t, seq, order_id, slot);
            o.side != c.position.side && o.size_lots <= c.position.size_lots
        }),
{
}

/// Why a trigger cannot be cancelled, if it cannot. A partner that was shown has to
/// be fit to be switched off.
pub open spec fn cancel_trigger_refusal(
    t: TriggerTerms,
    trigger_key: Pubkey,
    trader: Pubkey,
    partner: Option<OcoPartner>,
) -> Option<FlashBookError> {
    if t.trader != trader {
        Some(FlashBookError::WrongTrader)
    } else if partner is Some && partner_unfit(t, trigger_key, partner) {
        Some(FlashBookError::OcoPairMismatch)
    } else {
        None
    }
}

/// The partner after this trigger was cancelled: switched off and no longer linked,
/// if it was shown.
pub open spec fn partner_released(t: TriggerTerms, partner: Option<OcoPartner>) -> Option<
    OcoPartner,
> {
    match partner {
        Some(p) if t.oco_pair != Pubkey::none() => Some(
            OcoPartner {
                terms: TriggerTerms { active: false, oco_pair: Pubkey::none(), ..p.terms },
                ..p
            },
        ),
        _ => partner,
    }
}

/// Releases the partner of a trigger that its trader cancels. On refusal nothing
/// changes.
pub fn release_partner(
    t: &TriggerTerms,
    trigger_key: Pubkey,
    trader: Pubkey,
    partner: &mut Option<OcoPartner>,
) -> (r: Result<(), FlashBookError>)
    ensures
        match cancel_trigger_refusal(*t, trigger_key, trader, *old(partner)) {
            Some(e) => r == Err::<(), FlashBookError>(e) && *final(partner) == *old(partner),
            None => r == Ok::<(), FlashBookError>(()) && *final(partner) == partner_released(
                *t,
                *old(partner),
            ),
        },
{
    if t.trader != trader {
        return Err(FlashBookError::WrongTrader);
    }
    if t.oco_pair.is_default() {
        return Ok(());
    }
    match *partner {
        Some(p) => {
            if !p.writable || p.terms.oco_pair != trigger_key {
                return Err(FlashBookError::OcoPairMismatch);
            }
            *partner = Some(
                OcoPartner {
                    terms: TriggerTerms {
                        active: false,
                        oco_pair: Pubkey::default_key(),
                        ..p.terms
                    },
                    ..p
                },
            );
        },
        None => {},
    }
    Ok(())
}

/// Cancels a trigger, fired or not; its account is then to be closed. If its
/// partner is shown, that is switched off too. On refusal nothing changes.
pub fn cancel_trigger_order(
    trigger: &TriggerOrderAccount,
    trigger_key: Pubkey,
    trader: Pubkey,
    partner: &mut Option<OcoPartner>,
) -> (r: Result<TriggerOrderCancelledEvent, FlashBookError>)
    ensures
        match cancel_trigger_refusal(trigger.terms, trigger_key, trader, *old(partner)) {
            Some(e) => r == Err::<TriggerOrderCancelledEvent, FlashBookError>(e)
                && *final(partner) == *old(partner),
            None => {
                &&& *final(partner) == partner_released(trigger.terms, *old(partner))
                &&& r == Ok::<TriggerOrderCancelledEvent, FlashBookError>(
                    TriggerOrderCancelledEvent {
                        market: trigger.terms.market,
                        trader,
                        trigger_id: trigger.terms.trigger_id,
                    },
                )
            },
        },
{
    match release_partner(&trigger.terms, trigger_key, trader, partner) {
        Ok(_) => Ok(
            TriggerOrderCancelledEvent {
                market: trigger.terms.market,
                trader,
                trigger_id: trigger.terms.trigger_id,
            },
        ),
        Err(e) => Err(e),
    }
}

} // verus!
