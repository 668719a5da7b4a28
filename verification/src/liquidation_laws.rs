//! What liquidating and deleveraging positions comes down to, in the fields of the
//! accounts, the offers and the book.
use vstd::prelude::*;

use crate::book::{MarketBook, RestingOrderV2, book_after_rest, rank_from};
use crate::collateral_laws::{lemma_owners, lemma_worth_of_one};
use crate::constants::Limits;
use crate::deleveraging::{AutoDeleverage, auto_deleverage, deleveraging_price, underwater_backing};
use crate::errors::FlashBookError;
use crate::events::{
    AutoDeleveragedEvent, JitLiquidationOfferCancelledEvent, JitLiquidationOfferPlacedEvent,
    LiquidationInjectedV2Event,
};
use crate::jit_offers::{JitOfferRequest, cancel_jit_liquidation_offer, place_jit_liquidation_offer};
use crate::keys::Pubkey;
use crate::liquidation::{
    JitQuery, LiquidatePositionV2, LiquidationReport, auction_reward_bps, best_offer, close_limit,
    compute_auction_reward_bps, compute_savings_bps, jit_query, law_auction_reward_grows,
    law_chosen_offer_is_best, liquidate_position_v2, liquidation_limit, liquidation_order,
    liquidation_question, liquidation_reward, offer_serves, reward_paid,
};
use crate::mark::sat_notional;
use crate::math::{max_int, min_int, sat_u128};
use crate::order_laws::{lemma_stands_in_line, stands_in_line};
use crate::pool_laws::{lemma_product, lemma_rounds_down};
use crate::portfolio_liquidation::{LiquidatePortfolioV2, liquidate_portfolio_v2};
use crate::risk::{Assessment, PortfolioEntry, RiskMarketSnap, RiskPosSnap};
use crate::state::{
    JitLiquidationOfferAccount, MarketAccount, MarketParams, PositionAccount, Side, side_of_byte,
};

verus! {

/// The lots that a liquidation closes: those asked for, or all.
pub open spec fn lots_closed(p: PositionAccount, requested: u64) -> u64 {
    if requested == 0 {
        p.size_lots
    } else {
        requested
    }
}

/// The limit of a forced close, where it fits: the oracle price less the penalty for a
/// long position, plus the penalty for a short one.
pub open spec fn penalty_price(m: MarketAccount, long: bool) -> int {
    let penalty = m.oracle_price_ticks * m.params.liq_penalty_bps / 10_000;
    if !long {
        m.oracle_price_ticks + penalty
    } else if penalty >= m.oracle_price_ticks {
        0
    } else {
        m.oracle_price_ticks - penalty
    }
}

/// An offer that may take a liquidated position over: it is for this market, for this
/// trader or for anybody, for this side, neither used up nor run out, and better for
/// the trader than `limit`.
pub open spec fn offer_fits(
    a: LiquidatePositionV2,
    o: JitLiquidationOfferAccount,
    slot: u64,
    limit: int,
) -> bool {
    &&& o.market == a.market_key
    &&& o.target_trader == (Pubkey { hi: 0, lo: 0 }) || o.target_trader == a.trader_state.trader
    &&& o.side == (if a.position.side == 0 {
        0u8
    } else {
        1u8
    })
    &&& o.remaining_size_lots > 0
    &&& o.expires_at_slot == 0 || slot < o.expires_at_slot
    &&& if a.position.side == 0 {
        o.offer_price_ticks > limit
    } else {
        o.offer_price_ticks < limit
    }
}

/// The conditions under which a position may be liquidated: it is an open position of
/// the trader in the market, no more is closed than there is, the last liquidation is
/// at least the cooldown ago, the oracle is fresh, and the margin engine finds it
/// unhealthy.
pub open spec fn may_be_liquidated(
    a: LiquidatePositionV2,
    requested: u64,
    assessment: Assessment,
    slot: u64,
    unix_now: i64,
) -> bool {
    let p = a.position;
    let k = a.market.params;
    let now = if unix_now < 0 {
        0
    } else {
        unix_now as int
    };
    &&& p.size_lots > 0
    &&& p.trader == a.trader_state.trader
    &&& p.market == a.market_key
    &&& requested <= p.size_lots
    &&& k.liquidation_cooldown_slots == 0 || p.last_liquidated_at_slot == 0 || slot
        >= p.last_liquidated_at_slot + k.liquidation_cooldown_slots
    &&& k.oracle_staleness_max_seconds == 0 || a.market.oracle_published_at_unix_seconds == 0 || now
        <= a.market.oracle_published_at_unix_seconds + k.oracle_staleness_max_seconds
    &&& assessment matches Ok(m) && !m.is_healthy
}

/// A position is liquidated only if it may be, and then an order that closes exactly
/// the lots in question goes into the book on the other side; the position remembers
/// when, and neither its size nor its entry price changes before the order trades.
pub proof fn law_liquidation_closes_what_was_asked(
    a: &mut LiquidatePositionV2,
    book: &mut MarketBook,
    offers: &mut Vec<JitLiquidationOfferAccount>,
    requested: u64,
    assessment: Assessment,
    order_id: u64,
    limits: &Limits,
    slot: u64,
    unix_now: i64,
    r: Result<LiquidationReport, FlashBookError>,
)
    requires
        old(book)@.wf(),
        call_ensures(
            liquidate_position_v2,
            (a, book, offers, requested, assessment, order_id, limits, slot, unix_now),
            r,
        ),
    ensures
        r is Ok ==> may_be_liquidated(*old(a), requested, assessment, slot, unix_now),
        may_be_liquidated(*old(a), requested, assessment, slot, unix_now) && (match old(a).caller_trader_state {
            Some(c) => c.collateral_quote_lots + old(a).position.collateral_quote_lots + old(a).trader_state.collateral_quote_lots <= u64::MAX,
            None => old(a).position.collateral_quote_lots + old(a).trader_state.collateral_quote_lots <= u64::MAX,
        }) && old(book).order_seq_counter + 1 < limits.flp_seq_reserved_offset && old(book).bids@.len() + old(book).asks@.len() < old(book).capacity ==> r is Ok,
        r is Err ==> *final(a) == *old(a) && *final(book) == *old(book) && final(offers)@ == old(offers)@,
        r matches Ok(rep) ==> {
            let p = old(a).position;
            let n = lots_closed(p, requested);
            let long = p.side == 0;
            let o = RestingOrderV2 {
                order_id,
                seq: (old(book).order_seq_counter + 1) as u64,
                price_ticks: rep.injected.limit_ticks,
                size_lots: n,
                expires_at_slot: 0,
                trader: p.trader,
                last_valid_slot: slot_stamp(slot),
                side: other_side_byte(long),
                order_type: 3,
                flags: 0,
                sub_index: old(a).trader_state.sub_index,
            };
            &&& rep.injected.size_lots == n && rep.injected.trader == p.trader
                && rep.injected.market == old(a).market_key && rep.injected.side == (if long {
                0u8
            } else {
                1u8
            })
            &&& rep.injected.order_seq == old(book).order_seq_counter + 1
            &&& final(book).order_seq_counter == old(book).order_seq_counter + 1
            &&& long ==> final(book).bids@ == old(book).bids@ && exists|k: int| #[trigger]
                stands_in_line(false, old(book).asks@, k, o) && final(book).asks@ == old(book).asks@.insert(k, o)
            &&& !long ==> final(book).asks@ == old(book).asks@ && exists|k: int| #[trigger]
                stands_in_line(true, old(book).bids@, k, o) && final(book).bids@ == old(book).bids@.insert(k, o)
            &&& final(a).position == (PositionAccount {
                collateral_quote_lots: final(a).position.collateral_quote_lots,
                last_liquidated_at_slot: slot,
                unhealthy_since_slot: if p.unhealthy_since_slot == 0 {
                    slot
                } else {
                    p.unhealthy_since_slot
                },
                ..p
            })
            &&& final(a).market == old(a).market
        },
{
    let b = old(book)@;
    let x = *old(a);
    assert(reward_paid(x, requested, slot) <= x.position.collateral_quote_lots
        + x.trader_state.collateral_quote_lots);
    if r is Ok {
        let rep = r->Ok_0;
        let q = jit_query(x, slot);
        let seq = (b.order_seq_counter + 1) as u64;
        let n = lots_closed(x.position, requested);
        let o = liquidation_order(
            x.position,
            x.trader_state.sub_index,
            seq,
            order_id,
            close_limit(q, old(offers)@),
            n,
            slot,
        );
        let bid = x.position.side != 0;
        lemma_stands_in_line(bid, b.side(bid), o, b.order_seq_counter);
        let after = final(book)@;
        assert(after == book_after_rest(b, o));
        assert(after.side(bid) == b.side(bid).insert(rank_from(bid, b.side(bid), o, 0), o));
        assert(final(book).bids@ == after.bids && final(book).asks@ == after.asks);
    }
}

/// The slot that an order carries.
pub open spec fn slot_stamp(slot: u64) -> u32 {
    if slot <= u32::MAX {
        slot as u32
    } else {
        u32::MAX
    }
}

/// The side of an order that closes a position: a long one is sold.
pub open spec fn other_side_byte(long: bool) -> u8 {
    if long {
        1
    } else {
        0
    }
}

/// The liquidator is paid for the lots that this liquidation closes and for no others:
/// never more than the market's share of what they are worth at the oracle price, nor
/// than the bucket behind the position holds. Outside an auction it is exactly that;
/// in an auction that has not begun it is nothing. What is paid leaves that bucket and
/// reaches the liquidator, and no other collateral moves.
pub proof fn law_reward_is_for_closed_lots(
    a: &mut LiquidatePositionV2,
    book: &mut MarketBook,
    offers: &mut Vec<JitLiquidationOfferAccount>,
    requested: u64,
    assessment: Assessment,
    order_id: u64,
    limits: &Limits,
    slot: u64,
    unix_now: i64,
    r: Result<LiquidationReport, FlashBookError>,
)
    requires
        old(book)@.wf(),
        call_ensures(
            liquidate_position_v2,
            (a, book, offers, requested, assessment, order_id, limits, slot, unix_now),
            r,
        ),
        r is Ok,
    ensures
        ({
            let x = *old(a);
            let y = *final(a);
            let k = x.market.params;
            let worth = r->Ok_0.injected.size_lots * x.market.oracle_price_ticks * k.tick_size;
            let iso = x.position.collateral_quote_lots > 0;
            let bucket = if iso {
                x.position.collateral_quote_lots
            } else {
                x.trader_state.collateral_quote_lots
            };
            let paid = match r->Ok_0.rewarded {
                Some(e) => e.reward_quote_lots,
                None => 0,
            };
            &&& r->Ok_0.injected.size_lots == lots_closed(x.position, requested)
            &&& paid * 10_000 <= worth * k.liquidator_reward_bps
            &&& paid <= bucket
            &&& k.liquidation_auction_duration_slots == 0 && worth * k.liquidator_reward_bps
                / 10_000 <= u64::MAX ==> paid == (if worth * k.liquidator_reward_bps / 10_000
                <= bucket {
                worth * k.liquidator_reward_bps / 10_000
            } else {
                bucket as int
            })
            &&& k.liquidation_auction_duration_slots > 0 && x.position.unhealthy_since_slot == 0
                ==> paid == 0
            &&& r->Ok_0.rewarded matches Some(e) ==> e.liquidator == x.caller && e.liquidatee
                == x.position.trader && e.market == x.market_key && e.reward_quote_lots > 0
            &&& y.position.collateral_quote_lots == x.position.collateral_quote_lots - (if iso {
                paid as int
            } else {
                0
            })
            &&& x.caller_trader_state matches Some(c) ==> {
                &&& y.caller_trader_state is Some
                &&& y.caller_trader_state->0.collateral_quote_lots == c.collateral_quote_lots + paid
                &&& y.trader_state.collateral_quote_lots == x.trader_state.collateral_quote_lots - (
                if iso {
                    0
                } else {
                    paid as int
                })
                &&& y.caller_trader_state->0.trader == (if c.trader == (Pubkey { hi: 0, lo: 0 }) {
                    x.caller
                } else {
                    c.trader
                })
            }
            &&& x.caller_trader_state is None ==> y.trader_state.collateral_quote_lots
                == x.trader_state.collateral_quote_lots + (if iso {
                paid as int
            } else {
                0
            })
        }),
{
    let x = *old(a);
    let k = x.market.params;
    let n = lots_closed(x.position, requested);
    lemma_worth_of_one(n, x.market.oracle_price_ticks, k.tick_size);
    let worth = n * x.market.oracle_price_ticks * k.tick_size;
    law_auction_reward_grows(k, x.position.unhealthy_since_slot, slot, slot);
    let bps = auction_reward_bps(k, x.position.unhealthy_since_slot, slot);
    let base = k.liquidator_reward_bps as int;
    let held = sat_notional(n as int, x.market.oracle_price_ticks as int, k.tick_size as int);
    assert(0 <= held * bps <= worth * base) by (nonlinear_arith)
        requires
            0 <= held <= worth,
            0 <= bps <= base,
    ;
    assert(worth * base >= 0);
    let due = liquidation_reward(x.market, x.position.unhealthy_since_slot, n, slot);
    assert(due * 10_000 <= worth * base) by {
        let y = sat_u128(held * bps);
        assert(y / 10_000 * 10_000 <= y);
    }
    if k.liquidation_auction_duration_slots == 0 && worth * base / 10_000 <= u64::MAX {
        assert(worth * base <= u128::MAX);
        if base > 0 {
            assert(worth <= worth * base) by (nonlinear_arith)
                requires
                    base >= 1,
                    worth >= 0,
            ;
        } else {
            assert(worth * base == 0) by (nonlinear_arith)
                requires
                    base == 0,
            ;
        }
    }
    if k.liquidation_auction_duration_slots > 0 && x.position.unhealthy_since_slot == 0 {
        assert(held * 0 == 0);
    }
}

/// The close is priced at the best fitting offer for the trader, and at the penalty
/// price if none fits. The chosen offer gives the lots that it takes over, the others
/// stay as they are.
pub proof fn law_liquidation_takes_the_best_offer(
    a: &mut LiquidatePositionV2,
    book: &mut MarketBook,
    offers: &mut Vec<JitLiquidationOfferAccount>,
    requested: u64,
    assessment: Assessment,
    order_id: u64,
    limits: &Limits,
    slot: u64,
    unix_now: i64,
    r: Result<LiquidationReport, FlashBookError>,
)
    requires
        old(book)@.wf(),
        call_ensures(
            liquidate_position_v2,
            (a, book, offers, requested, assessment, order_id, limits, slot, unix_now),
            r,
        ),
        r is Ok,
        penalty_price(old(a).market, old(a).position.side == 0) <= u64::MAX,
    ensures
        ({
            let x = *old(a);
            let long = x.position.side == 0;
            let limit = penalty_price(x.market, long);
            let os = old(offers)@;
            let n = lots_closed(x.position, requested);
            let price = r->Ok_0.injected.limit_ticks;
            &&& r->Ok_0.jit is None ==> price == limit && final(offers)@ == os && forall|j: int|
                0 <= j < os.len() ==> !offer_fits(x, #[trigger] os[j], slot, limit)
            &&& r->Ok_0.jit matches Some(e) ==> {
                &&& e.fill_price_ticks == price
                &&& e.synthetic_price_ticks == limit
                &&& exists|i: int|
                    #![trigger os[i]]
                    0 <= i < os.len() && offer_fits(x, os[i], slot, limit)
                        && os[i].offer_price_ticks == price && os[i].maker == e.jit_maker && (
                    forall|j: int|
                        0 <= j < os.len() && offer_fits(x, #[trigger] os[j], slot, limit) ==> (
                        if long {
                            os[j].offer_price_ticks <= price
                        } else {
                            os[j].offer_price_ticks >= price
                        })) && e.fill_size_lots == (if n <= os[i].remaining_size_lots {
                        n
                    } else {
                        os[i].remaining_size_lots
                    }) && final(offers)@ == os.update(
                        i,
                        JitLiquidationOfferAccount {
                            remaining_size_lots: (os[i].remaining_size_lots
                                - e.fill_size_lots) as u64,
                            ..os[i]
                        },
                    )
            }
        }),
{
    let x = *old(a);
    let q = jit_query(x, slot);
    let os = old(offers)@;
    let n = os.len() as int;
    law_chosen_offer_is_best(q, os, n);
    let p = x.market.oracle_price_ticks * x.market.params.liq_penalty_bps;
    assert(p >= 0) by (nonlinear_arith)
        requires
            p == x.market.oracle_price_ticks * x.market.params.liq_penalty_bps,
    ;
    assert(q.synthetic_limit == penalty_price(x.market, x.position.side == 0));
    assert forall|j: int| 0 <= j < n implies offer_serves(q, #[trigger] os[j]) == offer_fits(
        x,
        os[j],
        slot,
        q.synthetic_limit as int,
    ) by {}
    if best_offer(q, os, n) is Some {
        let i = best_offer(q, os, n)->0;
        assert(offer_fits(x, os[i], slot, q.synthetic_limit as int));
    }
}

/// A position is judged at the lower of mark and oracle if it is long, at the higher
/// one if it is short, at maintenance margin, and with its own collateral.
pub proof fn law_liquidation_asks_at_the_worse_price(
    a: &LiquidatePositionV2,
    r: (RiskPosSnap, RiskMarketSnap),
)
    requires
        call_ensures(liquidation_question, (a,), r),
    ensures
        a.position.side == 0 && a.market.oracle_price_ticks > 0 ==> r.1.mark_price_ticks
            <= a.market.mark_price_ticks && r.1.mark_price_ticks <= a.market.oracle_price_ticks,
        a.position.side != 0 ==> r.1.mark_price_ticks >= a.market.mark_price_ticks
            && r.1.mark_price_ticks >= a.market.oracle_price_ticks,
        r.1.mark_price_ticks == a.market.mark_price_ticks || r.1.mark_price_ticks
            == a.market.oracle_price_ticks,
        a.market.oracle_price_ticks == 0 ==> r.1.mark_price_ticks == a.market.mark_price_ticks,
        r.1.margin_bps == a.market.params.maintenance_margin_ratio_bps,
        r.1.market == a.market_key,
        r.1.tick_size == a.market.params.tick_size,
        r.1.cum_funding_index == a.market.cum_funding_index,
        r.1.concentration_threshold_lots == a.market.params.concentration_threshold_lots,
        r.1.concentration_extra_mmr_bps == a.market.params.concentration_extra_mmr_bps,
        r.0.size_lots == a.position.size_lots,
        r.0.entry_price_ticks == a.position.entry_price_ticks,
        r.0.collateral_quote_lots == a.position.collateral_quote_lots,
        r.0.cum_funding_index_at_entry == a.position.cum_funding_index_at_entry,
        r.0.market == a.position.market,
        r.0.side == (if a.position.side == 0 {
            Side::Long
        } else {
            Side::Short
        }),
{
}

/// A portfolio liquidation closes the whole execution position at the penalty price,
/// and only if the trader's portfolio, every entry of which is the trader's, is found
/// unhealthy.
pub proof fn law_portfolio_liquidation_closes_the_position(
    a: &LiquidatePortfolioV2,
    es: &Vec<PortfolioEntry>,
    book: &mut MarketBook,
    assessment: Assessment,
    order_id: u64,
    limits: &Limits,
    slot: u64,
    r: Result<LiquidationInjectedV2Event, FlashBookError>,
)
    requires
        old(book)@.wf(),
        call_ensures(
            liquidate_portfolio_v2,
            (a, es, book, assessment, order_id, limits, slot),
            r,
        ),
        penalty_price(a.execution_market, a.execution_position.side == 0) <= u64::MAX,
    ensures
        r is Ok <==> {
            let p = a.execution_position;
            &&& p.size_lots > 0
            &&& p.trader == a.trader_state.trader
            &&& p.market == a.execution_market_key
            &&& forall|k: int|
                0 <= k < es@.len() ==> (#[trigger] es@[k]).market_owned && es@[k].position_owned
                    && es@[k].position.trader == a.trader_state.trader && es@[k].position.market
                    == es@[k].market_key
            &&& assessment matches Ok(m) && !m.is_healthy
            &&& old(book).market_pubkey == a.execution_market_key
            &&& old(book).order_seq_counter < u64::MAX
            &&& old(book).order_seq_counter + 1 < limits.flp_seq_reserved_offset
            &&& old(book).bids@.len() + old(book).asks@.len() < old(book).capacity
        },
        r is Err ==> *final(book) == *old(book),
        r matches Ok(e) ==> {
            let p = a.execution_position;
            let long = p.side == 0;
            let o = RestingOrderV2 {
                order_id,
                seq: (old(book).order_seq_counter + 1) as u64,
                price_ticks: e.limit_ticks,
                size_lots: p.size_lots,
                expires_at_slot: 0,
                trader: p.trader,
                last_valid_slot: slot_stamp(slot),
                side: other_side_byte(long),
                order_type: 3,
                flags: 0,
                sub_index: a.trader_state.sub_index,
            };
            &&& e.limit_ticks == penalty_price(a.execution_market, long)
            &&& e.size_lots == p.size_lots && e.trader == p.trader && e.market
                == a.execution_market_key
            &&& long ==> final(book).bids@ == old(book).bids@ && exists|k: int| #[trigger]
                stands_in_line(false, old(book).asks@, k, o) && final(book).asks@ == old(book).asks@.insert(k, o)
            &&& !long ==> final(book).asks@ == old(book).asks@ && exists|k: int| #[trigger]
                stands_in_line(true, old(book).bids@, k, o) && final(book).bids@ == old(book).bids@.insert(k, o)
        },
{
    let b = old(book)@;
    lemma_owners(es@, 0, a.trader_state.trader, FlashBookError::Unauthorized);
    let m = a.execution_market;
    let pp = m.oracle_price_ticks * m.params.liq_penalty_bps;
    assert(pp >= 0) by (nonlinear_arith)
        requires
            pp == m.oracle_price_ticks * m.params.liq_penalty_bps,
    ;
    if r is Ok {
        let p = a.execution_position;
        let seq = (b.order_seq_counter + 1) as u64;
        let limit = liquidation_limit(m, side_of_byte(p.side));
        let o = liquidation_order(
            p,
            a.trader_state.sub_index,
            seq,
            order_id,
            limit,
            p.size_lots,
            slot,
        );
        let bid = p.side != 0;
        lemma_stands_in_line(bid, b.side(bid), o, b.order_seq_counter);
        let after = final(book)@;
        assert(after == book_after_rest(b, o));
        assert(after.side(bid) == b.side(bid).insert(rank_from(bid, b.side(bid), o, 0), o));
        assert(final(book).bids@ == after.bids && final(book).asks@ == after.asks);
    }
}

/// Deleveraging happens only while the insurance fund is below its threshold, between
/// opposite positions of two traders in one market, the one unhealthy and the other in
/// profit at the bankruptcy price, for no more lots than either has. Both positions
/// shrink by those lots at that price: the one loses its part of the collateral behind
/// it, the other gains the distance to its entry price.
pub proof fn law_deleveraging_closes_both_sides(
    a: &mut AutoDeleverage,
    close: u64,
    assessment: Assessment,
    r: Result<AutoDeleveragedEvent, FlashBookError>,
)
    requires
        call_ensures(auto_deleverage, (a, close, assessment), r),
    ensures
        r is Err ==> *final(a) == *old(a),
        r matches Ok(e) ==> {
            let x = *old(a);
            let y = *final(a);
            let u = x.underwater_position;
            let c = x.counter_position;
            let tick = x.market.params.tick_size;
            let bp = e.bankruptcy_price_ticks;
            let iso = u.collateral_quote_lots > 0;
            let backing = if iso {
                u.collateral_quote_lots
            } else {
                x.underwater_trader_state.collateral_quote_lots
            };
            let gap = if c.side == 0 {
                bp - c.entry_price_ticks
            } else {
                c.entry_price_ticks - bp
            };
            let loss = backing - (if iso {
                y.underwater_position.collateral_quote_lots
            } else {
                y.underwater_trader_state.collateral_quote_lots
            });
            let gain = e.counter_gain_quote_lots;
            &&& x.insurance_fund.balance_quote_lots < x.insurance_fund.pause_threshold_quote_lots
            &&& 0 < close <= u.size_lots && close <= c.size_lots
            &&& u.market == x.market_key && c.market == x.market_key
            &&& u.side != c.side && u.trader != c.trader
            &&& u.trader == x.underwater_trader_state.trader && c.trader
                == x.counter_trader_state.trader
            &&& assessment matches Ok(m) && !m.is_healthy
            &&& e.close_size_lots == close && e.underwater_trader == u.trader && e.counter_trader
                == c.trader && e.executor == x.caller
            // The collateral behind the position is spent at the bankruptcy price.
            &&& u.side == 0 && bp > 1 ==> (u.entry_price_ticks - bp) * (u.size_lots * tick)
                <= backing < (u.entry_price_ticks - bp + 1) * (u.size_lots * tick)
            &&& u.side != 0 && bp < u64::MAX ==> (bp - u.entry_price_ticks) * (u.size_lots * tick)
                <= backing < (bp - u.entry_price_ticks + 1) * (u.size_lots * tick)
            // The other side gains, by the distance of that price to its entry.
            &&& gap > 0
            &&& close * gap * tick <= u64::MAX ==> gain == close * gap * tick
            &&& loss == backing * close / (u.size_lots as int)
            &&& y.underwater_position.size_lots == u.size_lots - close
            &&& y.counter_position.size_lots == c.size_lots - close
            &&& y.underwater_position.side == u.side && y.counter_position.side == c.side
            &&& close < u.size_lots ==> y.underwater_position.entry_price_ticks
                == u.entry_price_ticks && y.underwater_trader_state.open_positions
                == x.underwater_trader_state.open_positions
            &&& close < c.size_lots ==> y.counter_position.entry_price_ticks == c.entry_price_ticks
                && y.counter_trader_state.open_positions == x.counter_trader_state.open_positions
            &&& close == u.size_lots && x.underwater_trader_state.open_positions > 0
                ==> y.underwater_trader_state.open_positions
                == x.underwater_trader_state.open_positions - 1
            &&& close == c.size_lots && x.counter_trader_state.open_positions > 0
                ==> y.counter_trader_state.open_positions == x.counter_trader_state.open_positions
                - 1
            &&& iso ==> y.underwater_trader_state.collateral_quote_lots
                == x.underwater_trader_state.collateral_quote_lots
            &&& !iso ==> y.underwater_position.collateral_quote_lots == u.collateral_quote_lots
            &&& c.collateral_quote_lots > 0 ==> y.counter_position.collateral_quote_lots
                == c.collateral_quote_lots + gain && y.counter_trader_state.collateral_quote_lots
                == x.counter_trader_state.collateral_quote_lots
            &&& c.collateral_quote_lots == 0 ==> y.counter_position.collateral_quote_lots == 0
                && y.counter_trader_state.collateral_quote_lots
                == x.counter_trader_state.collateral_quote_lots + gain
            &&& y.insurance_fund == x.insurance_fund
            &&& y.market.mark_price_ticks == x.market.mark_price_ticks && y.market.params
                == x.market.params
            &&& u.side == 0 && c.side == 1 && x.market.oi_long_lots >= u.size_lots
                && x.market.oi_short_lots >= c.size_lots ==> y.market.oi_long_lots
                == x.market.oi_long_lots - close && y.market.oi_short_lots
                == x.market.oi_short_lots - close
            &&& u.side == 1 && c.side == 0 && x.market.oi_short_lots >= u.size_lots
                && x.market.oi_long_lots >= c.size_lots ==> y.market.oi_long_lots
                == x.market.oi_long_lots - close && y.market.oi_short_lots
                == x.market.oi_short_lots - close
        },
{
    if r is Ok {
        let x = *old(a);
        let u = x.underwater_position;
        let tick = x.market.params.tick_size;
        let backing = underwater_backing(x);
        let d = u.size_lots * tick;
        assert(d > 0) by (nonlinear_arith)
            requires
                d == u.size_lots * tick,
                u.size_lots > 0,
                tick > 0,
        ;
        let per = backing as int / d;
        assert(per * d <= backing < (per + 1) * d && 0 <= per) by (nonlinear_arith)
            requires
                d > 0,
                backing >= 0,
                per == backing as int / d,
        ;
        let bp = deleveraging_price(x);
        let c = x.counter_position;
        let gap = if c.side == 0 {
            bp - c.entry_price_ticks
        } else {
            c.entry_price_ticks - bp
        };
        let cg = close * gap;
        assert(0 <= cg <= u64::MAX * u64::MAX) by (nonlinear_arith)
            requires
                cg == close * gap,
                0 <= close <= u64::MAX,
                0 <= gap <= u64::MAX,
        ;
        assert(0 <= cg * tick) by (nonlinear_arith)
            requires
                cg >= 0,
                tick >= 0,
        ;
        let l = backing * close;
        assert(l / (u.size_lots as int) <= backing && 0 <= l / (u.size_lots as int))
            by (nonlinear_arith)
            requires
                l == backing * close,
                0 <= close <= u.size_lots,
                u.size_lots > 0,
                backing >= 0,
        ;
    }
}

/// An offer is made for a side, at a price on the market's grid, for no fewer lots than
/// the market trades, and not already run out; all of it is open at first.
pub proof fn law_offer_is_open_in_full(
    market_key: Pubkey,
    m: &MarketAccount,
    maker: Pubkey,
    bump: u8,
    q: JitOfferRequest,
    now: u64,
    r: Result<(JitLiquidationOfferAccount, JitLiquidationOfferPlacedEvent), FlashBookError>,
)
    requires
        m.params.tick_size > 0,
        call_ensures(place_jit_liquidation_offer, (market_key, m, maker, bump, q, now), r),
    ensures
        r is Ok <==> q.side <= 1 && q.offer_price_ticks > 0 && q.offer_price_ticks
            % m.params.tick_size == 0 && q.max_size_lots > 0 && q.max_size_lots
            >= m.params.min_base_lots && (q.expires_at_slot == 0 || q.expires_at_slot > now),
        r matches Ok((o, e)) ==> {
            &&& o.market == market_key && o.maker == maker && o.target_trader == q.target_trader
            &&& o.side == q.side && o.offer_price_ticks == q.offer_price_ticks
            &&& o.max_size_lots == q.max_size_lots && o.remaining_size_lots == q.max_size_lots
            &&& o.expires_at_slot == q.expires_at_slot && o.created_at_slot == now
            &&& o.maker_sub_index == q.maker_sub_index && o.nonce == q.nonce && o.bump == bump
            &&& e.market == market_key && e.maker == maker && e.offer_price_ticks
                == q.offer_price_ticks && e.max_size_lots == q.max_size_lots
        },
{
}

/// Only its maker takes an offer back, and hears what was left of it.
pub proof fn law_offer_is_taken_back_by_its_maker(
    o: &JitLiquidationOfferAccount,
    maker: Pubkey,
    r: Result<JitLiquidationOfferCancelledEvent, FlashBookError>,
)
    requires
        call_ensures(cancel_jit_liquidation_offer, (o, maker), r),
    ensures
        r is Ok <==> o.maker == maker,
        r matches Ok(e) ==> e.unfilled_size_lots == o.remaining_size_lots && e.maker == maker
            && e.market == o.market && e.nonce == o.nonce,
        r matches Err(e) ==> e == FlashBookError::Unauthorized,
{
}

/// The liquidator's share in an auction grows in step with the time since the position
/// turned unhealthy: after a part of the auction it is that part of the market's share,
/// in whole basis points, and after its end all of it.
pub proof fn law_auction_runs_in_step(k: &MarketParams, since: u64, slot: u64, r: u128)
    requires
        call_ensures(compute_auction_reward_bps, (k, since, slot), r),
    ensures
        k.liquidation_auction_duration_slots == 0 ==> r == k.liquidator_reward_bps,
        k.liquidation_auction_duration_slots > 0 && (since == 0 || slot <= since) ==> r == 0,
        k.liquidation_auction_duration_slots > 0 && since > 0 && slot >= since
            + k.liquidation_auction_duration_slots ==> r == k.liquidator_reward_bps,
        k.liquidation_auction_duration_slots > 0 && since > 0 && since <= slot <= since
            + k.liquidation_auction_duration_slots ==> r * k.liquidation_auction_duration_slots
            <= k.liquidator_reward_bps * (slot - since),
        since > 0 && since <= slot <= since + k.liquidation_auction_duration_slots
            ==> k.liquidator_reward_bps * (slot - since) * 10_000 <= (r + 1)
            * k.liquidation_auction_duration_slots * 10_000 + k.liquidator_reward_bps
            * k.liquidation_auction_duration_slots,
{
    let d = k.liquidation_auction_duration_slots as int;
    let base = k.liquidator_reward_bps as int;
    if d > 0 && since > 0 {
        let gone = slot - since;
        let e = min_int(max_int(gone, 0), d);
        lemma_rounds_down(e * 10_000, d);
        let scale = e * 10_000 / d;
        lemma_product(base, scale);
        lemma_rounds_down(base * scale, 10_000);
        let x = r as int;
        if gone >= d {
            assert(d * 10_000 / d == 10_000) by (nonlinear_arith)
                requires
                    d > 0,
            ;
            assert(e == d && scale == 10_000);
        } else if gone <= 0 {
            assert(0int / d == 0) by (nonlinear_arith)
                requires
                    d > 0,
            ;
            assert(base * 0 == 0);
        }
        if 0 <= gone <= d {
            assert(x * d <= base * gone) by (nonlinear_arith)
                requires
                    x * 10_000 <= base * scale,
                    scale * d <= gone * 10_000,
                    base >= 0,
                    d > 0,
            ;
            assert(base * gone * 10_000 <= base * ((scale + 1) * d)) by (nonlinear_arith)
                requires
                    gone * 10_000 < (scale + 1) * d,
                    base >= 0,
            ;
            assert(base * ((scale + 1) * d) == base * scale * d + base * d) by (nonlinear_arith);
            assert(base * scale * d <= (x + 1) * 10_000 * d) by (nonlinear_arith)
                requires
                    base * scale < (x + 1) * 10_000,
                    d > 0,
            ;
            assert((x + 1) * 10_000 * d == (x + 1) * d * 10_000) by (nonlinear_arith);
        }
    }
}

/// How far an offer beats the penalty price is told in basis points of the oracle
/// price, rounded down.
pub proof fn law_savings_are_told(q: &JitQuery, price: u64, oracle: u64, r: u32)
    requires
        call_ensures(compute_savings_bps, (q, price, oracle), r),
        oracle > 0,
    ensures
        ({
            let saved = match q.pos_side {
                Side::Long => price - q.synthetic_limit,
                Side::Short => q.synthetic_limit - price,
            };
            &&& saved <= 0 ==> r == 0
            &&& saved > 0 && r < u32::MAX ==> r * oracle <= saved * 10_000 < (r + 1) * oracle
        }),
{
    let saved = match q.pos_side {
        Side::Long => price - q.synthetic_limit,
        Side::Short => q.synthetic_limit - price,
    };
    if saved >= 0 {
        lemma_rounds_down(saved * 10_000, oracle as int);
        if saved == 0 {
            assert(0int / (oracle as int) == 0) by (nonlinear_arith)
                requires
                    oracle > 0,
            ;
        }
    }
}

} // verus!
