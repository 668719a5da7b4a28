//! What orders that wait, trail, come in parts or in baskets come down to, in the
//! fields of the orders and the book.
use vstd::prelude::*;

use crate::baskets::{
    BasketEntry, BasketLeg, BasketTrader, basket_binding_refusal, basket_positions,
    leg_exceeds_caps, leg_order, place_basket_order_v2, projected,
};
use crate::baskets_n::{
    book_with_leg, books_refusal, books_wf, lemma_leg_accepted, place_basket_order_n_v2,
    ticks_positive,
};
use crate::book::{MarketBook, RestingOrderV2, find_from};
use crate::collateral_laws::lemma_worth_of_one;
use crate::constants::Limits;
use crate::errors::FlashBookError;
use crate::events::{
    BasketOrderNPlacedV2Event, BasketOrderPlacedV2Event, IcebergCancelledEvent,
    IcebergOrderV3PlacedEvent, IcebergReplenishedV2Event, IcebergV3ReplenishedEvent,
    TrailingStopRatchetedEvent, TriggerOrderCancelledEvent, TriggerOrderExecutedV2Event,
    TriggerOrderV3CancelledEvent, TriggerOrderV3ExecutedEvent, TriggerOrderV3PlacedEvent,
    TwapOrderCancelledEvent, TwapOrderV3CancelledEvent, TwapOrderV3PlacedEvent,
    TwapSliceExecutedV2Event, TwapSliceV3ExecutedEvent, VaultOrderCancelledV3Event,
    VaultOrderPlacedV3Event,
};
use crate::iceberg::{
    IcebergRequest, cancel_iceberg_v2, child_rests, chunk_order, iceberg_of_request,
    place_iceberg_order_v3, replenish_iceberg_v2, replenish_iceberg_v3,
};
use crate::keys::Pubkey;
use crate::order_laws::{
    asked_for, has_room, joins, leaves, lemma_found_first, lemma_joins, well_put,
};
use crate::orders::{OrderRequest, book_without, order_of_request};
use crate::pool_laws::lemma_product;
use crate::risk::Assessment;
use crate::state::{
    IcebergOrderAccount, MarketAccount, PositionAccount, TraderStateAccount, TriggerOrderAccount,
    TriggerOrderAccountV3, TriggerTerms, TwapOrderAccount, TwapOrderAccountV3, VaultAccountV3,
};
use crate::trailing::{law_stop_rounds_protectively, update_trailing_stop};
use crate::triggers::{
    OcoPartner, TriggerCall, cancel_trigger_order, execute_trigger_order_v2, triggered_order,
};
use crate::triggers_v3::{
    Bracket, BracketAccounts, BracketRequest, TriggerFailure, TriggerRequest, bracket_order,
    cancel_trigger_order_v3, execute_trigger_order_v3, place_bracket_order_v3,
    place_trigger_order_v3,
};
use crate::twap::{
    SliceFailure, TwapRequest, cancel_twap_order, cancel_twap_order_v3, execute_twap_slice_v2,
    execute_twap_slice_v3, place_twap_order_v3, slice_order, slice_refusal,
};
use crate::vaults_v3::{vault_cancel_order_v3, vault_place_order_v3, vault_request};

verus! {

/// The oracle's price is recent enough to act on, where the market has a limit and a
/// price was published.
pub open spec fn fresh(m: MarketAccount, unix_now: i64) -> bool {
    let now = if unix_now < 0 {
        0
    } else {
        unix_now as int
    };
    m.params.oracle_staleness_max_seconds == 0 || m.oracle_published_at_unix_seconds == 0 || now
        <= m.oracle_published_at_unix_seconds + m.params.oracle_staleness_max_seconds
}

/// A trigger may fire: it is on and has not run out, it is the trader's whose position
/// was shown, the oracle is fresh and at or past the trigger price, from above for
/// kind 0 and from below otherwise; and a reduce-only trigger has something to reduce.
pub open spec fn may_fire(c: TriggerCall, t: TriggerTerms, slot: u64, unix_now: i64) -> bool {
    &&& c.position.market == c.market_key && c.position.trader == t.trader
    &&& t.active
    &&& t.expires_at_slot == 0 || t.expires_at_slot >= slot
    &&& fresh(c.market, unix_now)
    &&& t.kind == 0 ==> c.market.oracle_price_ticks <= t.trigger_price_ticks
    &&& t.kind != 0 ==> c.market.oracle_price_ticks >= t.trigger_price_ticks
    &&& t.reduce_only ==> c.position.size_lots > 0 && c.position.side != t.side && t.size_lots
        <= c.position.size_lots
}

/// The order that a trigger places: its terms, no more.
pub open spec fn fires_as(t: TriggerTerms, o: RestingOrderV2, order_id: u64, seq: int) -> bool {
    &&& o.order_id == order_id && o.seq == seq
    &&& o.price_ticks == t.limit_price_ticks && o.size_lots == t.size_lots && o.side == t.side
    &&& o.trader == t.trader && o.sub_index == t.sub_index
    &&& o.expires_at_slot == 0 && o.order_type == 0 && o.flags == 0
}

/// A pair that excludes each other: where the trigger names a partner, the partner that
/// was shown names it back and is off afterwards; where it names none, what was shown
/// stays.
pub open spec fn pair_is_off(
    t: TriggerTerms,
    key: Pubkey,
    before: Option<OcoPartner>,
    after: Option<OcoPartner>,
) -> bool {
    if t.oco_pair == (Pubkey { hi: 0, lo: 0 }) {
        after == before
    } else {
        &&& before is Some && before->0.writable && before->0.terms.oco_pair == key
        &&& after is Some && after->0.terms == (TriggerTerms { active: false, ..before->0.terms })
    }
}

/// A trigger fires only if it may. It then places its order, is off, and switches its
/// partner off.
pub proof fn law_trigger_fires_as_agreed(
    c: &TriggerCall,
    t: &mut TriggerOrderAccount,
    partner: &mut Option<OcoPartner>,
    book: &mut MarketBook,
    order_id: u64,
    limits: &Limits,
    slot: u64,
    unix_now: i64,
    r: Result<TriggerOrderExecutedV2Event, FlashBookError>,
)
    requires
        old(t).terms.wf(),
        old(book)@.wf(),
        call_ensures(
            execute_trigger_order_v2,
            (c, t, partner, book, order_id, limits, slot, unix_now),
            r,
        ),
    ensures
        r is Err ==> *final(t) == *old(t) && *final(partner) == *old(partner) && *final(book)
            == *old(book),
        r is Ok ==> may_fire(*c, old(t).terms, slot, unix_now),
        may_fire(*c, old(t).terms, slot, unix_now) && old(t).terms.oco_pair == (Pubkey {
            hi: 0,
            lo: 0,
        }) && has_room(old(book)@, *limits) && old(book).market_pubkey == c.market_key ==> r is Ok,
        r matches Ok(e) ==> {
            let x = old(t).terms;
            &&& *final(t) == (TriggerOrderAccount {
                terms: TriggerTerms { active: false, ..x },
                ..*old(t)
            })
            &&& pair_is_off(x, c.trigger_key, *old(partner), *final(partner))
            &&& e.market == c.market_key && e.trader == x.trader && e.trigger_id == x.trigger_id
                && e.executor == c.caller && e.order_seq == old(book).order_seq_counter + 1
            &&& exists|o: RestingOrderV2| #[trigger]
                joins(old(book)@, final(book)@, o) && fires_as(
                    x,
                    o,
                    order_id,
                    old(book).order_seq_counter + 1,
                )
        },
{
    if r is Ok {
        let b = old(book)@;
        let o = triggered_order(
            old(t).terms,
            (b.order_seq_counter + 1) as u64,
            order_id,
            slot,
        );
        lemma_joins(b, o);
    }
}

/// The same with a price bound: past the bound nothing is placed and the trigger is
/// off.
pub proof fn law_bounded_trigger_fires_as_agreed(
    c: &TriggerCall,
    t: &mut TriggerOrderAccountV3,
    partner: &mut Option<OcoPartner>,
    book: &mut MarketBook,
    order_id: u64,
    limits: &Limits,
    slot: u64,
    unix_now: i64,
    r: Result<TriggerOrderV3ExecutedEvent, TriggerFailure>,
)
    requires
        old(t).terms.wf(),
        old(book)@.wf(),
        call_ensures(
            execute_trigger_order_v3,
            (c, t, partner, book, order_id, limits, slot, unix_now),
            r,
        ),
    ensures
        ({
            let x = old(t).terms;
            let cap = old(t).acceptable_price_ticks;
            let oracle = c.market.oracle_price_ticks;
            let past = cap > 0 && (if x.side == 0 {
                oracle > cap
            } else {
                oracle < cap
            });
            &&& r is Err ==> *final(partner) == *old(partner) && *final(book) == *old(book)
            &&& r is Ok ==> may_fire(*c, x, slot, unix_now) && !past
            &&& r matches Err(TriggerFailure::Refused(_)) ==> *final(t) == *old(t)
            &&& r matches Err(TriggerFailure::SlippageCancelled(e)) ==> past && *final(t) == (
            TriggerOrderAccountV3 { terms: TriggerTerms { active: false, ..x }, ..*old(t) })
                && e.oracle_price_ticks == oracle && e.acceptable_price_ticks == cap
            &&& may_fire(*c, x, slot, unix_now) && past ==> r is Err && r->Err_0
                is SlippageCancelled
            &&& may_fire(*c, x, slot, unix_now) && !past && x.oco_pair == (Pubkey { hi: 0, lo: 0 })
                && has_room(old(book)@, *limits) && old(book).market_pubkey == c.market_key
                ==> r is Ok
            &&& r matches Ok(e) ==> {
                &&& *final(t) == (TriggerOrderAccountV3 {
                    terms: TriggerTerms { active: false, ..x },
                    ..*old(t)
                })
                &&& pair_is_off(x, c.trigger_key, *old(partner), *final(partner))
                &&& e.market == c.market_key && e.trader == x.trader && e.trigger_id
                    == x.trigger_id && e.order_seq == old(book).order_seq_counter + 1
                &&& exists|o: RestingOrderV2| #[trigger]
                    joins(old(book)@, final(book)@, o) && fires_as(
                        x,
                        o,
                        order_id,
                        old(book).order_seq_counter + 1,
                    )
            }
        }),
{
    if r is Ok {
        let b = old(book)@;
        let o = triggered_order(
            old(t).terms,
            (b.order_seq_counter + 1) as u64,
            order_id,
            slot,
        );
        lemma_joins(b, o);
    }
}

/// A trigger is taken back by its trader only; a partner that was shown has to name it
/// back, and is off and unlinked afterwards.
pub proof fn law_trigger_is_taken_back(
    t: &TriggerOrderAccountV3,
    key: Pubkey,
    trader: Pubkey,
    partner: &mut Option<OcoPartner>,
    r: Result<TriggerOrderV3CancelledEvent, FlashBookError>,
)
    requires
        call_ensures(cancel_trigger_order_v3, (t, key, trader, partner), r),
    ensures
        r is Err ==> *final(partner) == *old(partner),
        r is Ok ==> t.terms.trader == trader,
        t.terms.trader == trader && (*old(partner) is None || t.terms.oco_pair == (Pubkey {
            hi: 0,
            lo: 0,
        })) ==> r is Ok && *final(partner) == *old(partner),
        r is Ok && *old(partner) is Some && t.terms.oco_pair != (Pubkey { hi: 0, lo: 0 }) ==> {
            let p = (*old(partner))->0;
            &&& p.writable && p.terms.oco_pair == key
            &&& *final(partner) is Some && (*final(partner))->0.terms == (TriggerTerms {
                active: false,
                oco_pair: Pubkey { hi: 0, lo: 0 },
                ..p.terms
            })
        },
        r matches Ok(e) ==> e.trader == trader && e.market == t.terms.market && e.trigger_id
            == t.terms.trigger_id,
{
}

/// The same of a trigger without a price bound.
pub proof fn law_plain_trigger_is_taken_back(
    t: &TriggerOrderAccount,
    key: Pubkey,
    trader: Pubkey,
    partner: &mut Option<OcoPartner>,
    r: Result<TriggerOrderCancelledEvent, FlashBookError>,
)
    requires
        call_ensures(cancel_trigger_order, (t, key, trader, partner), r),
    ensures
        r is Err ==> *final(partner) == *old(partner),
        r is Ok ==> t.terms.trader == trader,
        t.terms.trader == trader && (*old(partner) is None || t.terms.oco_pair == (Pubkey {
            hi: 0,
            lo: 0,
        })) ==> r is Ok && *final(partner) == *old(partner),
        r is Ok && *old(partner) is Some && t.terms.oco_pair != (Pubkey { hi: 0, lo: 0 }) ==> {
            let p = (*old(partner))->0;
            &&& p.writable && p.terms.oco_pair == key
            &&& *final(partner) is Some && (*final(partner))->0.terms == (TriggerTerms {
                active: false,
                oco_pair: Pubkey { hi: 0, lo: 0 },
                ..p.terms
            })
        },
{
}

/// A trigger is taken if its sides, sizes and prices are proper, its prices are on the
/// grid and its bound, if it has one, lies where a fill can still reach it. It then
/// waits with the terms that were asked for.
pub proof fn law_trigger_waits_as_asked(
    market_key: Pubkey,
    m: &MarketAccount,
    trader: Pubkey,
    bump: u8,
    q: TriggerRequest,
    now: u64,
    r: Result<(TriggerOrderAccountV3, TriggerOrderV3PlacedEvent), FlashBookError>,
)
    requires
        m.params.tick_size > 0,
        call_ensures(place_trigger_order_v3, (market_key, m, trader, bump, q, now), r),
    ensures
        r is Ok <==> {
            let tick = m.params.tick_size;
            let cap = q.acceptable_price_ticks;
            &&& q.side <= 1 && q.kind <= 1
            &&& q.size_lots > 0 && q.size_lots >= m.params.min_base_lots
            &&& q.trigger_price_ticks > 0 && q.trigger_price_ticks % tick == 0
            &&& q.limit_price_ticks > 0 && q.limit_price_ticks % tick == 0
            &&& cap == 0 || (cap % tick == 0 && (if q.side == 0 {
                cap >= q.trigger_price_ticks
            } else {
                cap <= q.trigger_price_ticks
            }))
            &&& q.expires_at_slot == 0 || q.expires_at_slot > now
        },
        r matches Ok((t, e)) ==> {
            &&& t.terms.market == market_key && t.terms.trader == trader && t.terms.active
            &&& t.terms.side == q.side && t.terms.kind == q.kind && t.terms.size_lots
                == q.size_lots && t.terms.reduce_only == q.reduce_only
            &&& t.terms.trigger_price_ticks == q.trigger_price_ticks && t.terms.limit_price_ticks
                == q.limit_price_ticks && t.terms.expires_at_slot == q.expires_at_slot
            &&& t.terms.sub_index == q.sub_index && t.terms.trigger_id == q.trigger_id
                && t.terms.oco_pair == (Pubkey { hi: 0, lo: 0 }) && t.terms.bump == bump
            &&& t.acceptable_price_ticks == q.acceptable_price_ticks && t.created_at_slot == now
            &&& e.market == market_key && e.trader == trader && e.size_lots == q.size_lots
        },
{
}

/// A trailing stop follows the oracle only in the trader's favour, and never to more
/// than one tick from the offset, on the protective side of it.
pub proof fn law_stop_trails_the_price(
    market_key: Pubkey,
    m: &MarketAccount,
    t: &mut TriggerOrderAccount,
    r: Result<Option<TrailingStopRatchetedEvent>, FlashBookError>,
)
    requires
        call_ensures(update_trailing_stop, (market_key, m, t), r),
        m.params.tick_size <= m.oracle_price_ticks,
        m.oracle_price_ticks + m.oracle_price_ticks * old(t).trailing_offset_bps / 10_000
            + m.params.tick_size <= u64::MAX,
    ensures
        ({
            let x = *old(t);
            let y = *final(t);
            let oracle = m.oracle_price_ticks;
            let tick = m.params.tick_size;
            let offset = oracle * x.trailing_offset_bps / 10_000;
            let better = x.trailing_anchor_ticks == 0 || (if x.terms.kind == 0 {
                oracle > x.trailing_anchor_ticks
            } else {
                oracle < x.trailing_anchor_ticks
            });
            let stop = y.terms.trigger_price_ticks;
            &&& r is Ok <==> x.trailing_offset_bps > 0 && x.terms.active && oracle > 0 && tick > 0
            &&& r is Err || !better ==> y == x
            &&& r is Ok ==> (r->Ok_0 is Some <==> better)
            &&& r is Ok && better ==> {
                &&& y.trailing_anchor_ticks == oracle
                &&& stop % tick == 0
                &&& x.terms.kind == 0 && oracle - offset >= tick ==> oracle - offset <= stop
                    < oracle - offset + tick
                &&& x.terms.kind == 0 && oracle - offset < tick ==> stop == tick
                &&& x.terms.kind != 0 ==> oracle + offset - tick < stop <= oracle + offset
                &&& y == (TriggerOrderAccount {
                    terms: TriggerTerms { trigger_price_ticks: stop, ..x.terms },
                    trailing_anchor_ticks: oracle,
                    ..x
                })
            }
            &&& r matches Ok(Some(e)) ==> e.anchor_ticks == oracle && e.new_trigger_price_ticks
                == stop && e.previous_trigger_price_ticks == x.terms.trigger_price_ticks
                && e.trader == x.terms.trader && e.market == market_key
        }),
{
    let x = *old(t);
    let tick = m.params.tick_size;
    lemma_product(m.oracle_price_ticks as int, x.trailing_offset_bps as int);
    if tick > 0 {
        law_stop_rounds_protectively(
            x.terms.kind,
            m.oracle_price_ticks,
            x.trailing_offset_bps,
            tick,
        );
        let t1 = tick as int;
        assert(t1 % t1 == 0) by (nonlinear_arith)
            requires
                t1 > 0,
        ;
    }
}

/// A slice is due: the schedule is on and not over, its interval has passed, and the
/// slice is as large as the market asks or all that is left.
pub open spec fn slice_due(m: MarketAccount, t: TwapOrderAccount, now: u64) -> bool {
    let left = t.total_size_lots - t.size_executed_lots;
    &&& t.active
    &&& t.end_slot == 0 || now <= t.end_slot
    &&& now >= t.last_slice_at_slot + t.slot_interval || (now == u64::MAX)
    &&& left > 0
    &&& t.slice_size_lots >= m.params.min_base_lots || t.slice_size_lots >= left
}

/// The next slice: the agreed size, or what is left.
pub open spec fn next_slice(t: TwapOrderAccount) -> int {
    if t.slice_size_lots <= t.total_size_lots - t.size_executed_lots {
        t.slice_size_lots as int
    } else {
        t.total_size_lots - t.size_executed_lots
    }
}

/// One slice has been placed: it counts as executed, the interval starts again, and
/// the schedule is off once all is placed.
pub open spec fn one_slice_further(t: TwapOrderAccount, u: TwapOrderAccount, now: u64) -> bool {
    let done = t.size_executed_lots + next_slice(t);
    u == (TwapOrderAccount {
        size_executed_lots: done as u64,
        last_slice_at_slot: now,
        active: done < t.total_size_lots,
        ..t
    })
}

/// The order that a slice is.
pub open spec fn slice_is(t: TwapOrderAccount, o: RestingOrderV2, order_id: u64, seq: int) -> bool {
    &&& o.order_id == order_id && o.seq == seq
    &&& o.price_ticks == t.limit_price_ticks && o.size_lots == next_slice(t) && o.side == t.side
    &&& o.trader == t.trader && o.sub_index == t.sub_index
    &&& o.expires_at_slot == 0 && o.order_type == 0 && o.flags == 0
}

/// An order in slices places one when it is due, and only then.
pub proof fn law_slice_is_placed_when_due(
    market_key: Pubkey,
    m: &MarketAccount,
    caller: Pubkey,
    t: &mut TwapOrderAccount,
    book: &mut MarketBook,
    order_id: u64,
    limits: &Limits,
    now: u64,
    r: Result<TwapSliceExecutedV2Event, FlashBookError>,
)
    requires
        old(t).wf(),
        old(book)@.wf(),
        call_ensures(
            execute_twap_slice_v2,
            (market_key, m, caller, t, book, order_id, limits, now),
            r,
        ),
    ensures
        r is Ok <==> slice_due(*m, *old(t), now) && old(book).market_pubkey == market_key
            && has_room(old(book)@, *limits),
        r is Err ==> *final(t) == *old(t) && *final(book) == *old(book),
        r matches Ok(e) ==> {
            &&& one_slice_further(*old(t), *final(t), now)
            &&& e.slice_size_lots == next_slice(*old(t)) && e.cumulative_executed_lots == final(t).size_executed_lots && e.trader == old(t).trader && e.executor == caller && e.market
                == market_key
            &&& exists|o: RestingOrderV2| #[trigger]
                joins(old(book)@, final(book)@, o) && slice_is(
                    *old(t),
                    o,
                    order_id,
                    old(book).order_seq_counter + 1,
                )
        },
{
    if r is Ok {
        let b = old(book)@;
        let o = slice_order(*old(t), (b.order_seq_counter + 1) as u64, order_id, now);
        lemma_joins(b, o);
    }
}

/// The same with a price bound: while the oracle is stale or past the bound, slices
/// wait.
pub proof fn law_bounded_slice_is_placed_when_due(
    market_key: Pubkey,
    m: &MarketAccount,
    caller: Pubkey,
    t: &mut TwapOrderAccountV3,
    book: &mut MarketBook,
    order_id: u64,
    limits: &Limits,
    now: u64,
    unix_now: i64,
    r: Result<TwapSliceV3ExecutedEvent, SliceFailure>,
)
    requires
        old(t).twap.wf(),
        old(book)@.wf(),
        call_ensures(
            execute_twap_slice_v3,
            (market_key, m, caller, t, book, order_id, limits, now, unix_now),
            r,
        ),
    ensures
        ({
            let x = old(t).twap;
            let cap = old(t).acceptable_price_ticks;
            let past = cap > 0 && (if x.side == 0 {
                m.oracle_price_ticks > cap
            } else {
                m.oracle_price_ticks < cap
            });
            &&& r is Ok <==> slice_due(*m, x, now) && fresh(*m, unix_now) && !past && old(book).market_pubkey == market_key && has_room(old(book)@, *limits)
            &&& r is Err ==> *final(t) == *old(t) && *final(book) == *old(book)
            &&& r matches Err(SliceFailure::SlippageSkipped(e)) ==> past
                && e.acceptable_price_ticks == cap && e.oracle_price_ticks == m.oracle_price_ticks
            &&& r matches Ok(e) ==> {
                &&& one_slice_further(x, final(t).twap, now)
                &&& final(t).acceptable_price_ticks == cap && final(t).start_slot == old(t).start_slot
                &&& e.slice_size_lots == next_slice(x) && e.cumulative_executed_lots == final(t).twap.size_executed_lots
                &&& exists|o: RestingOrderV2| #[trigger]
                    joins(old(book)@, final(book)@, o) && slice_is(
                        x,
                        o,
                        order_id,
                        old(book).order_seq_counter + 1,
                    )
            }
        }),
{
    if r is Ok {
        let b = old(book)@;
        let o = slice_order(old(t).twap, (b.order_seq_counter + 1) as u64, order_id, now);
        lemma_joins(b, o);
    }
}

/// An order in slices is taken if its sizes and prices are proper, and starts with all
/// of it to be placed.
pub proof fn law_schedule_starts_in_full(
    market_key: Pubkey,
    m: &MarketAccount,
    trader: Pubkey,
    bump: u8,
    q: TwapRequest,
    now: u64,
    r: Result<(TwapOrderAccountV3, TwapOrderV3PlacedEvent), FlashBookError>,
)
    requires
        m.params.tick_size > 0,
        call_ensures(place_twap_order_v3, (market_key, m, trader, bump, q, now), r),
    ensures
        r is Ok <==> {
            let tick = m.params.tick_size;
            let cap = q.acceptable_price_ticks;
            &&& q.side <= 1
            &&& 0 < q.slice_size_lots <= q.total_size_lots && q.slice_size_lots
                >= m.params.min_base_lots
            &&& q.limit_price_ticks > 0 && q.limit_price_ticks % tick == 0
            &&& q.slot_interval > 0
            &&& cap == 0 || (cap % tick == 0 && (if q.side == 0 {
                cap >= q.limit_price_ticks
            } else {
                cap <= q.limit_price_ticks
            }))
            &&& q.end_slot == 0 || q.end_slot > now
        },
        r matches Ok((t, e)) ==> {
            let w = t.twap;
            &&& w.trader == trader && w.market == market_key && w.active && w.side == q.side
            &&& w.slice_size_lots == q.slice_size_lots && w.total_size_lots == q.total_size_lots
                && w.size_executed_lots == 0
            &&& w.limit_price_ticks == q.limit_price_ticks && w.slot_interval == q.slot_interval
                && w.end_slot == q.end_slot && w.last_slice_at_slot == 0 && w.sub_index
                == q.sub_index && w.twap_id == q.twap_id
            &&& t.acceptable_price_ticks == q.acceptable_price_ticks && t.start_slot == now
            &&& e.total_size_lots == q.total_size_lots && e.slice_size_lots == q.slice_size_lots
        },
{
}

/// An order in slices is taken back by its trader, who hears what was not placed.
pub proof fn law_schedule_is_taken_back(
    t: &TwapOrderAccountV3,
    trader: Pubkey,
    r: Result<TwapOrderV3CancelledEvent, FlashBookError>,
)
    requires
        call_ensures(cancel_twap_order_v3, (t, trader), r),
        t.twap.size_executed_lots <= t.twap.total_size_lots,
    ensures
        r is Ok <==> t.twap.trader == trader,
        r matches Ok(e) ==> e.unfilled_lots + t.twap.size_executed_lots == t.twap.total_size_lots
            && e.trader == trader && e.market == t.twap.market,
{
}

/// The same of one without a price bound.
pub proof fn law_plain_schedule_is_taken_back(
    t: &TwapOrderAccount,
    trader: Pubkey,
    r: Result<TwapOrderCancelledEvent, FlashBookError>,
)
    requires
        call_ensures(cancel_twap_order, (t, trader), r),
        t.size_executed_lots <= t.total_size_lots,
    ensures
        r is Ok <==> t.trader == trader,
        r matches Ok(e) ==> e.unfilled_lots + t.size_executed_lots == t.total_size_lots && e.trader
            == trader && e.market == t.market,
{
}

/// The next part of an iceberg: the displayed size, or what is left.
pub open spec fn next_part(i: IcebergOrderAccount) -> u64 {
    if i.displayed_size_lots <= i.remaining_lots {
        i.displayed_size_lots
    } else {
        i.remaining_lots
    }
}

/// The order that a part of an iceberg is.
pub open spec fn part_is(i: IcebergOrderAccount, o: RestingOrderV2, order_id: u64, seq: int) -> bool {
    &&& o.order_id == order_id && o.seq == seq
    &&& o.price_ticks == i.limit_ticks && o.size_lots == next_part(i) && o.side == i.side
    &&& o.trader == i.trader && o.sub_index == i.sub_index && o.expires_at_slot
        == i.expires_at_slot
    &&& o.order_type == 0 && o.flags == 0
}

/// One part of an iceberg has been shown.
pub open spec fn one_part_shown(i: IcebergOrderAccount, j: IcebergOrderAccount, seq: int) -> bool {
    j == (IcebergOrderAccount {
        remaining_lots: (i.remaining_lots - next_part(i)) as u64,
        child_order_seq: seq as u64,
        active: next_part(i) < i.remaining_lots,
        ..i
    })
}

/// An iceberg shows its next part while it is on, has not run out and has something
/// left that was not shown.
pub proof fn law_iceberg_shows_its_next_part(
    market_key: Pubkey,
    caller: Pubkey,
    i: &mut IcebergOrderAccount,
    book: &mut MarketBook,
    order_id: u64,
    limits: &Limits,
    now: u64,
    r: Result<IcebergV3ReplenishedEvent, FlashBookError>,
)
    requires
        old(i).wf(),
        old(book)@.wf(),
        call_ensures(
            replenish_iceberg_v3,
            (market_key, caller, i, book, order_id, limits, now),
            r,
        ),
    ensures
        r is Ok <==> old(i).active && (old(i).expires_at_slot == 0 || old(i).expires_at_slot
            >= now) && old(i).remaining_lots > 0 && old(book).market_pubkey == market_key
            && has_room(old(book)@, *limits),
        r is Err ==> *final(i) == *old(i) && *final(book) == *old(book),
        r matches Ok(e) ==> {
            &&& one_part_shown(*old(i), *final(i), old(book).order_seq_counter + 1)
            &&& e.chunk_size_lots == next_part(*old(i)) && e.remaining_lots == final(i).remaining_lots && e.executor == caller
            &&& exists|o: RestingOrderV2| #[trigger]
                joins(old(book)@, final(book)@, o) && part_is(
                    *old(i),
                    o,
                    order_id,
                    old(book).order_seq_counter + 1,
                )
        },
{
    if r is Ok {
        let b = old(book)@;
        let o = chunk_order(*old(i), (b.order_seq_counter + 1) as u64, order_id, now);
        lemma_joins(b, o);
    }
}

/// The part that an iceberg shows is still in the book under its id.
pub open spec fn still_shows(i: IcebergOrderAccount, b: MarketBook, id: u64) -> bool {
    &&& i.child_order_seq != 0
    &&& i.side == 0 ==> exists|k: int| 0 <= k < b.bids@.len() && (#[trigger] b.bids@[k]).order_id == id
    &&& i.side != 0 ==> exists|k: int| 0 <= k < b.asks@.len() && (#[trigger] b.asks@[k]).order_id == id
}

/// The search for the shown part finds it exactly if it is there.
pub proof fn lemma_still_shows(i: IcebergOrderAccount, b: MarketBook, id: u64)
    ensures
        still_shows(i, b, id) == child_rests(i, b@, id),
{
    let s = b@.side(i.side == 0);
    lemma_found_first(s, id, 0);
    let first = find_from(s, id, 0);
    if i.side == 0 {
        assert(s == b.bids@);
        if first < s.len() {
            assert(b.bids@[first].order_id == id);
        }
    } else {
        assert(s == b.asks@);
        if first < s.len() {
            assert(b.asks@[first].order_id == id);
        }
    }
}

/// The earlier kind waits until the part that it shows is gone from the book.
pub proof fn law_iceberg_waits_for_its_part(
    market_key: Pubkey,
    caller: Pubkey,
    i: &mut IcebergOrderAccount,
    book: &mut MarketBook,
    child_id: u64,
    order_id: u64,
    limits: &Limits,
    now: u64,
    r: Result<Option<IcebergReplenishedV2Event>, FlashBookError>,
)
    requires
        old(i).wf(),
        old(book)@.wf(),
        call_ensures(
            replenish_iceberg_v2,
            (market_key, caller, i, book, child_id, order_id, limits, now),
            r,
        ),
    ensures
        r is Ok ==> old(i).active && (old(i).expires_at_slot == 0 || old(i).expires_at_slot >= now)
            && old(i).remaining_lots > 0 && old(book).market_pubkey == market_key,
        r is Err || still_shows(*old(i), *old(book), child_id) ==> *final(i) == *old(i)
            && *final(book) == *old(book),
        r is Ok ==> (r->Ok_0 is None <==> still_shows(*old(i), *old(book), child_id)),
        r is Ok && r->Ok_0 is Some ==> {
            let x = *old(i);
            let e = r->Ok_0->0;
            &&& one_part_shown(x, *final(i), old(book).order_seq_counter + 1)
            &&& e.chunk_size_lots == next_part(x) && e.remaining_lots == final(i).remaining_lots
            &&& exists|o: RestingOrderV2| #[trigger]
                joins(old(book)@, final(book)@, o) && part_is(
                    x,
                    o,
                    order_id,
                    old(book).order_seq_counter + 1,
                )
        },
{
    let b = old(book)@;
    let x = *old(i);
    lemma_still_shows(x, *old(book), child_id);
    if r is Ok && r->Ok_0 is Some {
        let o = chunk_order(x, (b.order_seq_counter + 1) as u64, order_id, now);
        lemma_joins(b, o);
    }
}

/// A new iceberg is taken if its sizes and its price are proper; its first part goes
/// into the book and the rest is kept back.
pub proof fn law_iceberg_starts_with_its_first_part(
    market_key: Pubkey,
    m: &MarketAccount,
    trader: Pubkey,
    bump: u8,
    book: &mut MarketBook,
    q: IcebergRequest,
    order_id: u64,
    limits: &Limits,
    now: u64,
    r: Result<(IcebergOrderAccount, IcebergOrderV3PlacedEvent), FlashBookError>,
)
    requires
        m.params.tick_size > 0,
        old(book)@.wf(),
        call_ensures(
            place_iceberg_order_v3,
            (market_key, m, trader, bump, book, q, order_id, limits, now),
            r,
        ),
    ensures
        r is Ok <==> q.side <= 1 && 0 < q.displayed_size_lots <= q.total_size_lots
            && q.displayed_size_lots >= m.params.min_base_lots && q.limit_ticks > 0 && q.limit_ticks
            % m.params.tick_size == 0 && (q.expires_at_slot == 0 || q.expires_at_slot > now) && old(book).market_pubkey == market_key && has_room(old(book)@, *limits),
        r is Err ==> *final(book) == *old(book),
        r matches Ok((i, e)) ==> {
            &&& i.trader == trader && i.market == market_key && i.side == q.side && i.active
            &&& i.total_size_lots == q.total_size_lots && i.displayed_size_lots
                == q.displayed_size_lots && i.remaining_lots == q.total_size_lots
                - q.displayed_size_lots
            &&& i.limit_ticks == q.limit_ticks && i.expires_at_slot == q.expires_at_slot
                && i.sub_index == q.sub_index && i.iceberg_id == q.iceberg_id
                && i.child_order_seq == old(book).order_seq_counter + 1
            &&& e.first_chunk_size_lots == q.displayed_size_lots && e.total_size_lots
                == q.total_size_lots
            &&& exists|o: RestingOrderV2| #[trigger]
                joins(old(book)@, final(book)@, o) && o.size_lots == q.displayed_size_lots
                    && o.price_ticks == q.limit_ticks && o.side == q.side && o.trader == trader
                    && o.order_id == order_id && o.seq == old(book).order_seq_counter + 1
                    && o.expires_at_slot == q.expires_at_slot && o.sub_index == q.sub_index
        },
{
    if r is Ok {
        let b = old(book)@;
        let i = iceberg_of_request(market_key, trader, bump, q, now);
        let o = chunk_order(i, (b.order_seq_counter + 1) as u64, order_id, now);
        lemma_joins(b, o);
    }
}

/// An iceberg is taken back by its trader; the part that shows is taken out of the
/// book if it is the trader's, and nothing else is.
pub proof fn law_iceberg_is_taken_back(
    i: &IcebergOrderAccount,
    trader: Pubkey,
    book: &mut MarketBook,
    child_id: u64,
    r: Result<IcebergCancelledEvent, FlashBookError>,
)
    requires
        old(book)@.wf(),
        call_ensures(cancel_iceberg_v2, (i, trader, book, child_id), r),
    ensures
        r is Ok <==> i.trader == trader && (i.child_order_seq == 0 || old(book).market_pubkey
            == i.market),
        r is Err ==> *final(book) == *old(book),
        r matches Ok(e) ==> {
            &&& final(book)@ == old(book)@ || exists|k: int| #[trigger]
                leaves(old(book)@, final(book)@, i.side, k) && i.child_order_seq != 0 && ({
                    let o = if i.side == 0 {
                        old(book).bids@[k]
                    } else {
                        old(book).asks@[k]
                    };
                    o.order_id == child_id && o.trader == trader
                })
            &&& i.remaining_lots + i.displayed_size_lots <= i.total_size_lots ==> e.unfilled_lots
                == i.remaining_lots + i.displayed_size_lots
            &&& e.unfilled_lots <= i.total_size_lots
            &&& e.trader == trader && e.market == i.market
        },
{
    let b = old(book)@;
    let s = b.side(i.side == 0);
    lemma_found_first(s, child_id, 0);
    if r is Ok {
        let k = find_from(s, child_id, 0);
        if i.child_order_seq != 0 && k < s.len() && s[k].trader == i.trader {
            assert(final(book)@ == b.with_side(i.side == 0, s.remove(k)));
            assert(leaves(b, final(book)@, i.side, k));
        } else {
            assert(final(book)@ == b);
        }
    }
}

/// A bracket is one order and two exits that exclude each other. It is taken if its
/// numbers are proper and the stop and the target lie on the two sides of the entry.
/// Both exits only reduce, for all that was bought or sold.
pub proof fn law_bracket_is_an_order_with_two_exits(
    a: &BracketAccounts,
    book: &mut MarketBook,
    q: BracketRequest,
    order_id: u64,
    limits: &Limits,
    now: u64,
    r: Result<Bracket, FlashBookError>,
)
    requires
        a.market.params.tick_size > 0,
        old(book)@.wf(),
        call_ensures(place_bracket_order_v3, (a, book, q, order_id, limits, now), r),
    ensures
        r is Ok <==> {
            let tick = a.market.params.tick_size;
            &&& q.parent_side <= 1 && q.tp_trigger_id != q.sl_trigger_id
            &&& q.size_lots > 0 && q.size_lots >= a.market.params.min_base_lots
            &&& q.parent_limit_ticks > 0 && q.parent_limit_ticks % tick == 0
            &&& q.tp_trigger_price_ticks > 0 && q.tp_trigger_price_ticks % tick == 0
            &&& q.sl_trigger_price_ticks > 0 && q.sl_trigger_price_ticks % tick == 0
            &&& q.tp_limit_ticks > 0 && q.tp_limit_ticks % tick == 0
            &&& q.sl_limit_ticks > 0 && q.sl_limit_ticks % tick == 0
            &&& q.expires_at_slot == 0 || q.expires_at_slot > now
            &&& q.parent_side == 0 ==> q.sl_trigger_price_ticks < q.parent_limit_ticks
                < q.tp_trigger_price_ticks
            &&& q.parent_side == 1 ==> q.tp_trigger_price_ticks < q.parent_limit_ticks
                < q.sl_trigger_price_ticks
            &&& old(book).market_pubkey == a.market_key && has_room(old(book)@, *limits)
        },
        r is Err ==> *final(book) == *old(book),
        r matches Ok(b) ==> {
            let tp = b.tp_trigger.terms;
            let sl = b.sl_trigger.terms;
            &&& tp.active && sl.active && tp.reduce_only && sl.reduce_only
            &&& tp.trader == a.trader && sl.trader == a.trader && tp.market == a.market_key
                && sl.market == a.market_key
            &&& tp.size_lots == q.size_lots && sl.size_lots == q.size_lots
            &&& tp.side + q.parent_side == 1 && sl.side == tp.side
            &&& tp.trigger_price_ticks == q.tp_trigger_price_ticks && sl.trigger_price_ticks
                == q.sl_trigger_price_ticks
            &&& tp.limit_price_ticks == q.tp_limit_ticks && sl.limit_price_ticks
                == q.sl_limit_ticks
            // A long takes its profit at or above and stops at or below; a short the other
            // way round.
            &&& q.parent_side == 0 ==> tp.kind == 1 && sl.kind == 0
            &&& q.parent_side == 1 ==> tp.kind == 0 && sl.kind == 1
            &&& tp.oco_pair == a.sl_trigger_key && sl.oco_pair == a.tp_trigger_key
            &&& tp.trigger_id == q.tp_trigger_id && sl.trigger_id == q.sl_trigger_id
            &&& tp.expires_at_slot == q.expires_at_slot && sl.expires_at_slot == q.expires_at_slot
            &&& tp.sub_index == q.sub_index && sl.sub_index == q.sub_index
            &&& exists|o: RestingOrderV2| #[trigger]
                joins(old(book)@, final(book)@, o) && o.size_lots == q.size_lots && o.price_ticks
                    == q.parent_limit_ticks && o.side == q.parent_side && o.trader == a.trader
                    && o.order_id == order_id && o.seq == old(book).order_seq_counter + 1
                    && o.sub_index == q.sub_index && o.flags == 0 && o.expires_at_slot == 0
        },
{
    if r is Ok {
        let b = old(book)@;
        let o = bracket_order(*a, q, (b.order_seq_counter + 1) as u64, order_id, now);
        lemma_joins(b, o);
    }
}

/// A leg that its market may look at.
pub open spec fn leg_well_put(m: MarketAccount, leg: BasketLeg, limits: Limits) -> bool {
    &&& leg.size_lots > 0 && leg.limit_ticks > 0 && leg.side <= 1
    &&& m.status == 1 || m.status == 2
    &&& leg.size_lots >= m.params.min_base_lots
    &&& leg.limit_ticks % m.params.tick_size == 0
    &&& leg.size_lots <= limits.flp_seq_reserved_offset
}

/// A leg keeps a position within its market's caps: in lots, and in worth at the leg's
/// limit as a part of the pool's capital.
pub open spec fn leg_within_caps(m: MarketAccount, p: PositionAccount, capital: u64, leg: BasketLeg) -> bool {
    let size = p.size_lots + leg.size_lots;
    &&& m.params.max_position_lots_per_trader == 0 || size
        <= m.params.max_position_lots_per_trader
    &&& m.params.max_position_ratio_bps == 0 || capital == 0 || size * leg.limit_ticks
        * m.params.tick_size <= capital * m.params.max_position_ratio_bps / 10_000
}

/// The order that a leg is.
pub open spec fn leg_is(
    leg: BasketLeg,
    s: TraderStateAccount,
    trader: Pubkey,
    o: RestingOrderV2,
    order_id: u64,
    seq: int,
) -> bool {
    &&& o.order_id == order_id && o.seq == seq
    &&& o.price_ticks == leg.limit_ticks && o.size_lots == leg.size_lots && o.side == leg.side
    &&& o.trader == trader && o.sub_index == s.sub_index
    &&& o.expires_at_slot == 0 && o.order_type == 0 && o.flags == (if leg.post_only {
        1u8
    } else {
        0u8
    })
}

/// Caps are kept where the size and the worth fit.
pub proof fn lemma_caps(m: MarketAccount, p: PositionAccount, capital: u64, leg: BasketLeg)
    requires
        p.size_lots + leg.size_lots <= u64::MAX,
        !leg_exceeds_caps(m, p, capital, leg),
    ensures
        leg_within_caps(m, p, capital, leg),
{
    lemma_worth_of_one(
        (p.size_lots + leg.size_lots) as u64,
        leg.limit_ticks,
        m.params.tick_size,
    );
    lemma_product(capital as int, m.params.max_position_ratio_bps as int);
    assert(capital * m.params.max_position_ratio_bps <= u64::MAX * u32::MAX) by (nonlinear_arith)
        requires
            0 <= capital <= u64::MAX,
            0 <= m.params.max_position_ratio_bps <= u32::MAX,
    ;
}

/// A basket of two is taken only whole: both legs proper, within the caps, in two
/// markets, and the trader healthy with both. Each leg then rests in its own book.
pub proof fn law_pair_is_placed_whole(
    c: &mut BasketTrader,
    a: BasketEntry,
    b: BasketEntry,
    book_a: &mut MarketBook,
    book_b: &mut MarketBook,
    assessment: Assessment,
    id_a: u64,
    id_b: u64,
    limits: &Limits,
    now: u64,
    r: Result<BasketOrderPlacedV2Event, FlashBookError>,
)
    requires
        a.market.params.tick_size > 0,
        b.market.params.tick_size > 0,
        old(book_a)@.wf(),
        old(book_b)@.wf(),
        a.position.size_lots + a.leg.size_lots <= u64::MAX,
        b.position.size_lots + b.leg.size_lots <= u64::MAX,
        call_ensures(
            place_basket_order_v2,
            (c, a, b, book_a, book_b, assessment, id_a, id_b, limits, now),
            r,
        ),
    ensures
        r is Err ==> *final(c) == *old(c) && *final(book_a) == *old(book_a) && *final(book_b)
            == *old(book_b),
        r is Ok ==> {
            let s = old(c).trader_state;
            let placed = if s.last_batch_seen == a.market.current_batch {
                s.orders_this_batch
            } else {
                0
            };
            &&& s.trader == old(c).trader
            &&& a.market_key != b.market_key
            &&& leg_well_put(a.market, a.leg, *limits) && leg_well_put(b.market, b.leg, *limits)
            &&& leg_within_caps(a.market, a.position, old(c).flp_capital, a.leg)
            &&& leg_within_caps(b.market, b.position, old(c).flp_capital, b.leg)
            &&& a.position.size_lots > 0 ==> a.position.trader == old(c).trader
                && a.position.market == a.market_key
            &&& b.position.size_lots > 0 ==> b.position.trader == old(c).trader
                && b.position.market == b.market_key
            &&& (a.position.size_lots == 0 || a.position.side == a.leg.side || a.position.size_lots
                != a.leg.size_lots) ==> assessment is Ok && assessment->Ok_0.is_healthy
            &&& placed + 2 <= limits.max_orders_per_trader_per_batch || placed + 2 > u32::MAX
            &&& final(c).trader_state == (TraderStateAccount {
                last_batch_seen: a.market.current_batch,
                orders_this_batch: final(c).trader_state.orders_this_batch,
                ..s
            })
            &&& placed + 2 <= u32::MAX ==> final(c).trader_state.orders_this_batch == placed + 2
            &&& exists|o: RestingOrderV2| #[trigger]
                joins(old(book_a)@, final(book_a)@, o) && leg_is(
                    a.leg,
                    s,
                    old(c).trader,
                    o,
                    id_a,
                    old(book_a).order_seq_counter + 1,
                )
            &&& exists|o: RestingOrderV2| #[trigger]
                joins(old(book_b)@, final(book_b)@, o) && leg_is(
                    b.leg,
                    s,
                    old(c).trader,
                    o,
                    id_b,
                    old(book_b).order_seq_counter + 1,
                )
        },
{
    if r is Ok {
        let x = *old(c);
        let es = seq![a, b];
        assert(basket_binding_refusal(es, 0, x.trader) is None);
        assert(es[0] == a && es[1] == b);
        assert(basket_binding_refusal(es, 1, x.trader) is None);
        assert(basket_positions(es, 1).len() >= (if projected(a) is Some {
            1int
        } else {
            0
        })) by {
            assert(basket_positions(es, 0) =~= Seq::empty());
        }
        assert(basket_positions(es, 2).len() >= basket_positions(es, 1).len());
        lemma_caps(a.market, a.position, x.flp_capital, a.leg);
        lemma_caps(b.market, b.position, x.flp_capital, b.leg);
        let ba = old(book_a)@;
        let bb = old(book_b)@;
        let sub = x.trader_state.sub_index;
        let oa = leg_order(a.leg, x.trader, sub, (ba.order_seq_counter + 1) as u64, id_a, now);
        let ob = leg_order(b.leg, x.trader, sub, (bb.order_seq_counter + 1) as u64, id_b, now);
        lemma_joins(ba, oa);
        lemma_joins(bb, ob);
    }
}

/// A basket of any number of legs is taken only whole, and each leg rests in its own
/// book.
pub proof fn law_basket_is_placed_whole(
    c: &mut BasketTrader,
    es: &Vec<BasketEntry>,
    books: &mut Vec<MarketBook>,
    ids: &Vec<u64>,
    assessment: Assessment,
    limits: &Limits,
    now: u64,
    k: int,
    r: Result<BasketOrderNPlacedV2Event, FlashBookError>,
)
    requires
        ticks_positive(es@),
        books_wf(old(books)@),
        limits.max_basket_legs_n <= u8::MAX,
        0 <= k < es@.len(),
        es@[k].position.size_lots + es@[k].leg.size_lots <= u64::MAX,
        call_ensures(
            place_basket_order_n_v2,
            (c, es, books, ids, assessment, limits, now),
            r,
        ),
    ensures
        r is Err ==> *final(c) == *old(c) && final(books)@ == old(books)@,
        r is Ok ==> {
            let e = es@[k];
            let s = old(c).trader_state;
            &&& s.trader == old(c).trader
            &&& es@.len() <= limits.max_basket_legs_n && old(books)@.len() == es@.len()
                && ids@.len() == es@.len()
            &&& e.owned && leg_well_put(e.market, e.leg, *limits)
            &&& leg_within_caps(e.market, e.position, old(c).flp_capital, e.leg)
            &&& e.position.size_lots > 0 ==> e.position.trader == old(c).trader
                && e.position.market == e.market_key
            &&& forall|j: int|
                0 <= j < k ==> (#[trigger] es@[j]).market_key != e.market_key
            &&& old(books)@[k].market_pubkey == e.market_key
            &&& final(books)@.len() == old(books)@.len()
            &&& r->Ok_0.leg_count == es@.len() && r->Ok_0.markets@.len() == es@.len()
                && r->Ok_0.markets@[k] == e.market_key && r->Ok_0.trader == old(c).trader
            &&& final(c).trader_state.last_batch_seen == es@[0].market.current_batch
            &&& s.last_batch_seen == es@[0].market.current_batch && s.orders_this_batch + es@.len()
                <= u32::MAX ==> final(c).trader_state.orders_this_batch == s.orders_this_batch
                + es@.len() && final(c).trader_state.orders_this_batch
                <= limits.max_orders_per_trader_per_batch
            &&& exists|o: RestingOrderV2| #[trigger]
                joins(old(books)@[k]@, final(books)@[k]@, o) && leg_is(
                    e.leg,
                    s,
                    old(c).trader,
                    o,
                    ids@[k],
                    old(books)@[k].order_seq_counter + 1,
                )
        },
{
    if r is Ok {
        let x = *old(c);
        let reserved = limits.flp_seq_reserved_offset;
        lemma_leg_accepted(x, es@, 0, reserved, k);
        lemma_book_accepted(old(books)@, es@, 0, reserved, k);
        let e = es@[k];
        lemma_caps(e.market, e.position, x.flp_capital, e.leg);
        let b = old(books)@[k]@;
        let o = leg_order(
            e.leg,
            x.trader,
            x.trader_state.sub_index,
            (b.order_seq_counter + 1) as u64,
            ids@[k],
            now,
        );
        lemma_joins(b, o);
        assert(final(books)@[k]@ == book_with_leg(b, e, x, ids@[k], now));
    }
}

/// A walk over books that finds no fault finds none at any of them.
pub proof fn lemma_book_accepted(
    books: Seq<MarketBook>,
    es: Seq<BasketEntry>,
    i: int,
    reserved: u64,
    k: int,
)
    requires
        0 <= i <= k < es.len(),
        books_refusal(books, es, i, reserved) is None,
    ensures
        slice_refusal(books[k]@, es[k].market_key, reserved) is None,
    decreases k - i,
{
    if i < k {
        lemma_book_accepted(books, es, i + 1, reserved, k);
    }
}

/// A vault's strategist places orders for the vault: they are the vault's, of its main
/// account, and rest in line.
pub proof fn law_vault_order_is_the_vaults(
    vault_key: Pubkey,
    v: &VaultAccountV3,
    strategist: Pubkey,
    market_key: Pubkey,
    m: &MarketAccount,
    book: &mut MarketBook,
    side: u8,
    size: u64,
    limit: u64,
    flags: u8,
    expires: u64,
    order_id: u64,
    now: u64,
    r: Result<VaultOrderPlacedV3Event, FlashBookError>,
)
    requires
        m.params.tick_size > 0,
        old(book)@.wf(),
        call_ensures(
            vault_place_order_v3,
            (
                vault_key,
                v,
                strategist,
                market_key,
                m,
                book,
                side,
                size,
                limit,
                flags,
                expires,
                order_id,
                now,
            ),
            r,
        ),
    ensures
        ({
            let q = OrderRequest {
                side,
                size_lots: size,
                limit_ticks: limit,
                flags,
                expires_at_slot: expires,
                sub_index: 0,
            };
            &&& r is Ok <==> v.strategist == strategist && well_put(*m, q, now) && (m.status == 1
                || m.status == 2) && old(book).market_pubkey == market_key && old(book).order_seq_counter < u64::MAX && old(book).bids@.len() + old(book).asks@.len() < old(book).capacity
            &&& r is Err ==> *final(book) == *old(book)
            &&& r matches Ok(e) ==> joins(
                old(book)@,
                final(book)@,
                asked_for(
                    q,
                    vault_key,
                    (old(book).order_seq_counter + 1) as u64,
                    order_id,
                    size,
                    now,
                ),
            ) && e.vault == vault_key && e.size_lots == size && e.limit_ticks == limit
        }),
{
    if r is Ok {
        let b = old(book)@;
        let q = vault_request(side, size, limit, flags, expires);
        let o = order_of_request(
            q,
            vault_key,
            (b.order_seq_counter + 1) as u64,
            order_id,
            now,
        );
        lemma_joins(b, o);
        assert(asked_for(
            q,
            vault_key,
            (b.order_seq_counter + 1) as u64,
            order_id,
            size,
            now,
        ) == o);
    }
}

/// A vault's strategist cancels one order of the vault's, and no other.
pub proof fn law_vault_cancel_is_the_vaults(
    vault_key: Pubkey,
    v: &VaultAccountV3,
    strategist: Pubkey,
    market_key: Pubkey,
    book: &mut MarketBook,
    side: u8,
    order_id: u64,
    r: Result<VaultOrderCancelledV3Event, FlashBookError>,
)
    requires
        old(book)@.wf(),
        call_ensures(
            vault_cancel_order_v3,
            (vault_key, v, strategist, market_key, book, side, order_id),
            r,
        ),
    ensures
        r is Err ==> *final(book) == *old(book),
        r matches Ok(e) ==> v.strategist == strategist && side <= 1 && old(book).market_pubkey
            == market_key && exists|k: int| #[trigger]
            leaves(old(book)@, final(book)@, side, k) && ({
                let o = if side == 0 {
                    old(book).bids@[k]
                } else {
                    old(book).asks@[k]
                };
                o.order_id == order_id && o.trader == vault_key && e.order_seq == o.seq
            }),
{
    let b = old(book)@;
    let bid = side == 0;
    let s = b.side(bid);
    lemma_found_first(s, order_id, 0);
    if r is Ok {
        assert(final(book)@ == book_without(b, bid, order_id));
        assert(leaves(b, final(book)@, side, find_from(s, order_id, 0)));
    }
}

} // verus!
