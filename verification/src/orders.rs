//! Placing, changing and cancelling orders.
use vstd::prelude::*;

use crate::book::{
    BookModel, MarketBook, RestingOrderV2, book_after_rest, find_order, law_removal_keeps_priority,
    law_rested_order_is_found, law_resting_keeps_priority, ranks_before, side_proper, side_sorted,
};
use crate::constants::{BOOK_DEPTH_LEVELS, MAX_BATCH_ORDERS_PER_SIDE_V2, MAX_CANCELS_PER_IX_V2};
use crate::errors::FlashBookError;
use crate::events::{
    BookDepthV2Event, BookLevelV2, BulkOrderCancelledV2Event, FillBatchEvent,
    OrderCancelledV2Event, OrderModifiedV2Event, OrderPlacedV2Event, TakerOrderClearedEvent,
};
use crate::keys::Pubkey;
use crate::matching::{
    SelfTradeMode, Taker, WalkModel, crosses, expired, law_walk_accounts_for_every_lot,
    law_walk_keeps_priority, lemma_filled_nonnegative, lemma_left_cons, walk, walk_from, walk_side,
};
use crate::math::{clamp_u64_to_u32, min_int, sat_u32, sat_u64};
use crate::state::{MarketAccount, STATUS_ACTIVE, STATUS_POST_ONLY};

verus! {

/// What a trader asks for.
#[derive(Clone, Copy, Debug, PartialEq, Eq, Structural)]
pub struct OrderRequest {
    /// 0 buys, 1 sells.
    pub side: u8,
    pub size_lots: u64,
    pub limit_ticks: u64,
    /// Bit 0 post-only, 1 reduce-only, 2 immediate-or-cancel, 3 just-in-time,
    /// 4 and 5 self-trade mode, 6 fill-or-kill.
    pub flags: u8,
    /// 0 means never.
    pub expires_at_slot: u64,
    pub sub_index: u8,
}

/// The order must rest: it is refused if it would trade at once.
pub open spec fn flag_post_only(flags: u8) -> bool {
    flags % 2 == 1
}

/// What is not filled at once is dropped.
pub open spec fn flag_ioc(flags: u8) -> bool {
    (flags / 4) % 2 == 1
}

/// The order is filled whole or refused.
pub open spec fn flag_fok(flags: u8) -> bool {
    (flags / 64) % 2 == 1
}

/// What to do about the trader's own resting orders.
pub open spec fn flag_self_trade(flags: u8) -> SelfTradeMode {
    if (flags / 16) % 4 == 1 {
        SelfTradeMode::CancelOldest
    } else if (flags / 16) % 4 == 2 {
        SelfTradeMode::CancelBoth
    } else {
        SelfTradeMode::Skip
    }
}

/// Whether a market takes orders that may rest.
pub open spec fn takes_resting(m: MarketAccount) -> bool {
    m.status == STATUS_ACTIVE || m.status == STATUS_POST_ONLY
}

/// Why an order is not even looked at, if so. `admitted` says whether the
/// market's status admits this kind of order.
pub open spec fn order_intake_refusal(
    m: MarketAccount,
    q: OrderRequest,
    now_slot: u64,
    admitted: bool,
) -> Option<FlashBookError> {
    let oi = if q.side == 0 {
        m.oi_long_lots
    } else {
        m.oi_short_lots
    };
    if q.side > 1 || q.size_lots == 0 || q.limit_ticks == 0 || q.flags >= 128 {
        Some(FlashBookError::OutOfRange)
    } else if q.expires_at_slot != 0 && q.expires_at_slot <= now_slot {
        Some(FlashBookError::OutOfRange)
    } else if !admitted {
        Some(FlashBookError::OutOfRange)
    } else if q.size_lots < m.params.min_base_lots {
        Some(FlashBookError::SizeBelowMinLot)
    } else if q.limit_ticks % m.params.tick_size != 0 {
        Some(FlashBookError::PriceNotOnTick)
    } else if m.params.max_oi_base_lots > 0 && sat_u64(oi + q.size_lots)
        > m.params.max_oi_base_lots {
        Some(FlashBookError::OpenInterestCapExceeded)
    } else {
        None
    }
}

/// Tests an order before the book is looked at.
pub fn check_order_intake(m: &MarketAccount, q: OrderRequest, now_slot: u64, admitted: bool) -> (r:
    Result<(), FlashBookError>)
    requires
        m.params.tick_size > 0,
    ensures
        r == (match order_intake_refusal(*m, q, now_slot, admitted) {
            Some(e) => Err::<(), FlashBookError>(e),
            None => Ok(()),
        }),
{
    if q.side > 1 || q.size_lots == 0 || q.limit_ticks == 0 || q.flags >= 128 {
        return Err(FlashBookError::OutOfRange);
    }
    if q.expires_at_slot != 0 && q.expires_at_slot <= now_slot {
        return Err(FlashBookError::OutOfRange);
    }
    if !admitted {
        return Err(FlashBookError::OutOfRange);
    }
    if q.size_lots < m.params.min_base_lots {
        return Err(FlashBookError::SizeBelowMinLot);
    }
    if q.limit_ticks % m.params.tick_size != 0 {
        return Err(FlashBookError::PriceNotOnTick);
    }
    if m.params.max_oi_base_lots > 0 {
        let oi: u64 = if q.side == 0 {
            m.oi_long_lots
        } else {
            m.oi_short_lots
        };
        if oi.saturating_add(q.size_lots) > m.params.max_oi_base_lots {
            return Err(FlashBookError::OpenInterestCapExceeded);
        }
    }
    Ok(())
}

/// The resting order that a request becomes.
pub open spec fn order_of_request(
    q: OrderRequest,
    trader: Pubkey,
    seq: u64,
    order_id: u64,
    now_slot: u64,
) -> RestingOrderV2 {
    RestingOrderV2 {
        order_id,
        seq,
        price_ticks: q.limit_ticks,
        size_lots: q.size_lots,
        expires_at_slot: q.expires_at_slot,
        trader,
        last_valid_slot: sat_u32(now_slot as int) as u32,
        side: q.side,
        order_type: 0,
        flags: q.flags,
        sub_index: q.sub_index,
    }
}

/// Why a limit order is refused, if it is.
pub open spec fn limit_order_refusal(
    m: MarketAccount,
    market_key: Pubkey,
    b: BookModel,
    q: OrderRequest,
    now_slot: u64,
) -> Option<FlashBookError> {
    match order_intake_refusal(m, q, now_slot, takes_resting(m)) {
        Some(e) => Some(e),
        None => if b.market_pubkey != market_key {
            Some(FlashBookError::WrongMarket)
        } else if b.order_seq_counter == u64::MAX {
            Some(FlashBookError::ArithmeticOverflow)
        } else if b.total() >= b.capacity {
            Some(FlashBookError::BufferFull)
        } else {
            None
        },
    }
}

/// Rests a limit order. `order_id` is the id that belongs to the price, the side
/// and the next sequence number. On refusal the book does not change.
pub fn place_limit_order_v2(
    market_key: Pubkey,
    market: &MarketAccount,
    book: &mut MarketBook,
    trader: Pubkey,
    q: OrderRequest,
    order_id: u64,
    now_slot: u64,
) -> (r: Result<OrderPlacedV2Event, FlashBookError>)
    requires
        market.params.tick_size > 0,
        old(book)@.wf(),
    ensures
        final(book)@.wf(),
        match limit_order_refusal(*market, market_key, old(book)@, q, now_slot) {
            Some(e) => r == Err::<OrderPlacedV2Event, FlashBookError>(e) && *final(book) == *old(
                book,
            ),
            None => {
                let seq = (old(book)@.order_seq_counter + 1) as u64;
                let o = order_of_request(q, trader, seq, order_id, now_slot);
                &&& final(book)@ == book_after_rest(old(book)@, o)
                &&& r == Ok::<OrderPlacedV2Event, FlashBookError>(
                    OrderPlacedV2Event {
                        market: market_key,
                        trader,
                        seq,
                        side: q.side,
                        price_ticks: q.limit_ticks,
                        size_lots: q.size_lots,
                        total_orders_after: sat_u32(old(book)@.total() + 1int) as u32,
                    },
                )
            },
        },
{
    let admitted: bool = market.status == STATUS_ACTIVE || market.status == STATUS_POST_ONLY;
    match check_order_intake(market, q, now_slot, admitted) {
        Ok(_) => {},
        Err(e) => {
            return Err(e);
        },
    }
    if book.market_pubkey != market_key {
        return Err(FlashBookError::WrongMarket);
    }
    let seq: u64 = match book.order_seq_counter.checked_add(1) {
        Some(n) => n,
        None => {
            return Err(FlashBookError::ArithmeticOverflow);
        },
    };
    let o = RestingOrderV2 {
        order_id,
        seq,
        price_ticks: q.limit_ticks,
        size_lots: q.size_lots,
        expires_at_slot: q.expires_at_slot,
        trader,
        last_valid_slot: clamp_u64_to_u32(now_slot),
        side: q.side,
        order_type: 0,
        flags: q.flags,
        sub_index: q.sub_index,
    };
    match book.rest(o) {
        Ok(_) => {},
        Err(e) => {
            return Err(e);
        },
    }
    book.order_seq_counter = seq;
    proof {
        law_resting_keeps_priority(old(book)@, o);
    }
    let total_orders_after: u32 = book.total_orders_active();
    Ok(
        OrderPlacedV2Event {
            market: market_key,
            trader,
            seq,
            side: q.side,
            price_ticks: q.limit_ticks,
            size_lots: q.size_lots,
            total_orders_after,
        },
    )
}

/// The taker that a request becomes.
pub open spec fn taker_of_request(q: OrderRequest, trader: Pubkey, now_slot: u64) -> Taker {
    Taker {
        buys: q.side == 0,
        limit_ticks: q.limit_ticks,
        trader,
        self_trade: flag_self_trade(q.flags),
        now_slot,
    }
}

/// The walk of a taker over the side it trades against.
pub open spec fn taker_walk(b: BookModel, q: OrderRequest, trader: Pubkey, now_slot: u64) -> WalkModel {
    walk(taker_of_request(q, trader, now_slot), b.side(q.side != 0), q.size_lots)
}

/// Whether what is left of a taker rests in the book: it does unless the order is
/// immediate-or-cancel or the rest is below the smallest order.
pub open spec fn taker_rests(m: MarketAccount, q: OrderRequest, remaining: u64) -> bool {
    remaining > 0 && !flag_ioc(q.flags) && remaining >= m.params.min_base_lots
}

/// Why a taker order is refused, if it is. Only an active market takes one.
pub open spec fn taker_order_refusal(
    m: MarketAccount,
    market_key: Pubkey,
    b: BookModel,
    trader: Pubkey,
    q: OrderRequest,
    now_slot: u64,
) -> Option<FlashBookError> {
    let w = taker_walk(b, q, trader, now_slot);
    match order_intake_refusal(m, q, now_slot, m.status == STATUS_ACTIVE) {
        Some(e) => Some(e),
        None => if b.market_pubkey != market_key {
            Some(FlashBookError::WrongMarket)
        } else if b.order_seq_counter == u64::MAX {
            Some(FlashBookError::ArithmeticOverflow)
        } else if w.aborted {
            Some(FlashBookError::SelfTrade)
        } else if flag_post_only(q.flags) && w.fills.len() > 0 {
            Some(FlashBookError::PostOnlyWouldCross)
        } else if flag_fok(q.flags) && w.remaining > 0 {
            Some(FlashBookError::FillOrKillNotFilled)
        } else if taker_rests(m, q, w.remaining) && b.side(q.side == 0).len() + w.left.len()
            >= b.capacity {
            Some(FlashBookError::BufferFull)
        } else {
            None
        },
    }
}

/// The book after a taker order.
pub open spec fn book_after_taker(
    m: MarketAccount,
    b: BookModel,
    trader: Pubkey,
    q: OrderRequest,
    order_id: u64,
    now_slot: u64,
) -> BookModel {
    let w = taker_walk(b, q, trader, now_slot);
    let seq = (b.order_seq_counter + 1) as u64;
    let walked = b.with_side(q.side != 0, w.left);
    if taker_rests(m, q, w.remaining) {
        book_after_rest(
            walked,
            order_of_request(
                OrderRequest { size_lots: w.remaining, ..q },
                trader,
                seq,
                order_id,
                now_slot,
            ),
        )
    } else {
        BookModel { order_seq_counter: seq, ..walked }
    }
}

/// What a taker order reports.
#[derive(Debug)]
pub struct TakerOutcome {
    /// The trades to be settled, if there are any.
    pub batch: Option<FillBatchEvent>,
    pub cleared: TakerOrderClearedEvent,
}

/// Matches a taker order against the book and rests what is left. `order_id` is
/// the id that belongs to the limit price, the side and the next sequence
/// number. On refusal the book does not change.
pub fn place_taker_order_v2(
    market_key: Pubkey,
    market: &MarketAccount,
    book: &mut MarketBook,
    trader: Pubkey,
    q: OrderRequest,
    order_id: u64,
    now_slot: u64,
) -> (r: Result<TakerOutcome, FlashBookError>)
    requires
        market.params.tick_size > 0,
        old(book)@.wf(),
    ensures
        final(book)@.wf(),
        match taker_order_refusal(*market, market_key, old(book)@, trader, q, now_slot) {
            Some(e) => r is Err && r->Err_0 == e && *final(book) == *old(book),
            None => {
                let w = taker_walk(old(book)@, q, trader, now_slot);
                &&& final(book)@ == book_after_taker(
                    *market,
                    old(book)@,
                    trader,
                    q,
                    order_id,
                    now_slot,
                )
                &&& r is Ok
                &&& r->Ok_0.cleared == (TakerOrderClearedEvent {
                    market: market_key,
                    taker: trader,
                    side: q.side,
                    taker_size_lots: q.size_lots,
                    filled_lots: (q.size_lots - w.remaining) as u64,
                    residual_resting_lots: if taker_rests(*market, q, w.remaining) {
                        w.remaining
                    } else {
                        0
                    },
                    match_count: w.fills.len() as u32,
                    taker_order_id: order_id,
                })
                &&& (r->Ok_0.batch is Some <==> w.fills.len() > 0)
                &&& r->Ok_0.batch matches Some(batch) ==> {
                    &&& batch.market == market_key
                    &&& batch.taker == trader
                    &&& batch.taker_side == q.side
                    &&& batch.taker_id == order_id
                    &&& batch.taker_sub_index == q.sub_index
                    &&& batch.fills@ == w.fills
                }
            },
        },
{
    match check_order_intake(market, q, now_slot, market.status == STATUS_ACTIVE) {
        Ok(_) => {},
        Err(e) => {
            return Err(e);
        },
    }
    if book.market_pubkey != market_key {
        return Err(FlashBookError::WrongMarket);
    }
    let seq: u64 = match book.order_seq_counter.checked_add(1) {
        Some(n) => n,
        None => {
            return Err(FlashBookError::ArithmeticOverflow);
        },
    };
    let mode: u8 = (q.flags / 16) % 4;
    let self_trade = if mode == 1 {
        SelfTradeMode::CancelOldest
    } else if mode == 2 {
        SelfTradeMode::CancelBoth
    } else {
        SelfTradeMode::Skip
    };
    let buys: bool = q.side == 0;
    let t = Taker { buys, limit_ticks: q.limit_ticks, trader, self_trade, now_slot };
    let w = if buys {
        walk_side(t, &book.asks, q.size_lots)
    } else {
        walk_side(t, &book.bids, q.size_lots)
    };
    proof {
        law_walk_accounts_for_every_lot(t, old(book)@.side(!buys), q.size_lots);
        lemma_filled_nonnegative(w@.fills);
        law_walk_keeps_priority(
            t,
            old(book)@.side(!buys),
            q.size_lots,
            old(book)@.order_seq_counter,
        );
        lemma_walk_fill_count(t, old(book)@.side(!buys), 0, q.size_lots, 0);
    }
    if w.aborted {
        return Err(FlashBookError::SelfTrade);
    }
    if q.flags % 2 == 1 && w.fills.len() > 0 {
        return Err(FlashBookError::PostOnlyWouldCross);
    }
    if (q.flags / 64) % 2 == 1 && w.remaining > 0 {
        return Err(FlashBookError::FillOrKillNotFilled);
    }
    let remaining: u64 = w.remaining;
    let rests: bool = remaining > 0 && (q.flags / 4) % 2 != 1 && remaining
        >= market.params.min_base_lots;
    let own_len: usize = if buys {
        book.bids.len()
    } else {
        book.asks.len()
    };
    if rests && own_len + w.left.len() >= book.capacity {
        return Err(FlashBookError::BufferFull);
    }
    let match_count: u32 = w.fills.len() as u32;
    if buys {
        book.asks = w.left;
    } else {
        book.bids = w.left;
    }
    let ghost walked = book@;
    assert(walked.wf());
    let mut residual_resting_lots: u64 = 0;
    if rests {
        let o = RestingOrderV2 {
            order_id,
            seq,
            price_ticks: q.limit_ticks,
            size_lots: remaining,
            expires_at_slot: q.expires_at_slot,
            trader,
            last_valid_slot: clamp_u64_to_u32(now_slot),
            side: q.side,
            order_type: 0,
            flags: q.flags,
            sub_index: q.sub_index,
        };
        let rested = book.rest(o);
        assert(rested is Ok);
        proof {
            law_resting_keeps_priority(walked, o);
        }
        residual_resting_lots = remaining;
    }
    book.order_seq_counter = seq;
    let cleared = TakerOrderClearedEvent {
        market: market_key,
        taker: trader,
        side: q.side,
        taker_size_lots: q.size_lots,
        filled_lots: q.size_lots - remaining,
        residual_resting_lots,
        match_count,
        taker_order_id: order_id,
    };
    let batch: Option<FillBatchEvent> = if w.fills.len() > 0 {
        Some(
            FillBatchEvent {
                market: market_key,
                taker: trader,
                taker_side: q.side,
                taker_id: order_id,
                fills: w.fills,
                taker_sub_index: q.sub_index,
            },
        )
    } else {
        None
    };
    Ok(TakerOutcome { batch, cleared })
}

/// A walk makes no more trades than the limit allows.
pub proof fn lemma_walk_fill_count(
    t: Taker,
    s: Seq<RestingOrderV2>,
    i: int,
    remaining: u64,
    done: nat,
)
    requires
        0 <= i,
        done <= MAX_BATCH_ORDERS_PER_SIDE_V2,
    ensures
        done + walk_from(t, s, i, remaining, done).fills.len() <= MAX_BATCH_ORDERS_PER_SIDE_V2,
    decreases s.len() - i,
{
    if i >= s.len() || done >= MAX_BATCH_ORDERS_PER_SIDE_V2 || remaining == 0 || !crosses(t, s[i]) {
    } else if expired(t, s[i]) || s[i].trader == t.trader {
        lemma_walk_fill_count(t, s, i + 1, remaining, done);
    } else {
        let size = min_int(s[i].size_lots as int, remaining as int) as u64;
        lemma_walk_fill_count(t, s, i + 1, (remaining - size) as u64, done + 1);
    }
}

/// Why a cancellation is refused, if it is.
pub open spec fn cancel_refusal(
    market_key: Pubkey,
    b: BookModel,
    trader: Pubkey,
    side: u8,
    order_id: u64,
) -> Option<FlashBookError> {
    if side > 1 {
        Some(FlashBookError::OutOfRange)
    } else if b.market_pubkey != market_key {
        Some(FlashBookError::WrongMarket)
    } else {
        match find_order(b.side(side == 0), order_id) {
            None => Some(FlashBookError::LiquidationStale),
            Some(i) => if b.side(side == 0)[i].trader != trader {
                Some(FlashBookError::WrongTrader)
            } else {
                None
            },
        }
    }
}

/// The book without the order of the given id.
pub open spec fn book_without(b: BookModel, bid: bool, order_id: u64) -> BookModel {
    b.with_side(bid, b.side(bid).remove(find_order(b.side(bid), order_id)->0))
}

/// Cancels one order of the caller.
pub fn cancel_order_v2(
    market_key: Pubkey,
    book: &mut MarketBook,
    trader: Pubkey,
    side: u8,
    order_id: u64,
) -> (r: Result<OrderCancelledV2Event, FlashBookError>)
    requires
        old(book)@.wf(),
    ensures
        final(book)@.wf(),
        match cancel_refusal(market_key, old(book)@, trader, side, order_id) {
            Some(e) => r == Err::<OrderCancelledV2Event, FlashBookError>(e) && *final(book) == *old(
                book,
            ),
            None => {
                let s = old(book)@.side(side == 0);
                &&& final(book)@ == book_without(old(book)@, side == 0, order_id)
                &&& r == Ok::<OrderCancelledV2Event, FlashBookError>(
                    OrderCancelledV2Event {
                        market: market_key,
                        trader,
                        order_seq: s[find_order(s, order_id)->0].seq,
                        side,
                        total_orders_after: sat_u32(old(book)@.total() - 1) as u32,
                    },
                )
            },
        },
{
    if side > 1 {
        return Err(FlashBookError::OutOfRange);
    }
    if book.market_pubkey != market_key {
        return Err(FlashBookError::WrongMarket);
    }
    let bid: bool = side == 0;
    let i: usize = match book.lookup(bid, order_id) {
        Some(i) => i,
        None => {
            return Err(FlashBookError::LiquidationStale);
        },
    };
    let o = book.order_at(bid, i);
    if o.trader != trader {
        return Err(FlashBookError::WrongTrader);
    }
    book.remove_at(bid, i);
    proof {
        law_removal_keeps_priority(old(book)@, bid, i as int);
    }
    let total_orders_after: u32 = book.total_orders_active();
    Ok(
        OrderCancelledV2Event {
            market: market_key,
            trader,
            order_seq: o.seq,
            side,
            total_orders_after,
        },
    )
}

/// What is left of a side from `i` on after the first `budget` orders of `trader`
/// are taken out.
pub open spec fn without_trader(s: Seq<RestingOrderV2>, trader: Pubkey, i: int, budget: nat) -> Seq<
    RestingOrderV2,
>
    decreases s.len() - i,
{
    if i >= s.len() {
        Seq::empty()
    } else if budget > 0 && s[i].trader == trader {
        without_trader(s, trader, i + 1, (budget - 1) as nat)
    } else {
        seq![s[i]] + without_trader(s, trader, i + 1, budget)
    }
}

/// What a bulk cancel leaves is in order, no longer than before, and loses no
/// more than the budget.
pub proof fn lemma_without_trader(
    bid: bool,
    s: Seq<RestingOrderV2>,
    trader: Pubkey,
    i: int,
    budget: nat,
    counter: u64,
)
    requires
        0 <= i <= s.len(),
        side_sorted(bid, s),
        side_proper(bid, s, counter),
    ensures
        ({
            let l = without_trader(s, trader, i, budget);
            &&& side_sorted(bid, l)
            &&& side_proper(bid, l, counter)
            &&& s.len() - i - budget <= l.len() <= s.len() - i
            &&& forall|h: int, k: int|
                0 <= h < i && 0 <= k < l.len() ==> ranks_before(
                    bid,
                    #[trigger] s[h],
                    #[trigger] l[k],
                )
        }),
    decreases s.len() - i,
{
    if i < s.len() {
        if budget > 0 && s[i].trader == trader {
            lemma_without_trader(bid, s, trader, i + 1, (budget - 1) as nat, counter);
        } else {
            lemma_without_trader(bid, s, trader, i + 1, budget, counter);
            lemma_left_cons(bid, s, i, s[i], without_trader(s, trader, i + 1, budget), counter);
        }
    }
}

/// A bulk cancel adds no orders.
pub proof fn lemma_without_trader_len(s: Seq<RestingOrderV2>, trader: Pubkey, i: int, budget: nat)
    requires
        0 <= i <= s.len(),
    ensures
        without_trader(s, trader, i, budget).len() <= s.len() - i,
    decreases s.len() - i,
{
    if i < s.len() {
        if budget > 0 && s[i].trader == trader {
            lemma_without_trader_len(s, trader, i + 1, (budget - 1) as nat);
        } else {
            lemma_without_trader_len(s, trader, i + 1, budget);
        }
    }
}

/// A bulk cancel within its budget leaves none of the trader's orders behind.
pub proof fn law_bulk_cancel_is_complete(s: Seq<RestingOrderV2>, trader: Pubkey, i: int, budget: nat)
    requires
        0 <= i <= s.len(),
        s.len() - i - without_trader(s, trader, i, budget).len() < budget,
    ensures
        forall|k: int|
            0 <= k < without_trader(s, trader, i, budget).len() ==> (
            #[trigger] without_trader(s, trader, i, budget)[k]).trader != trader,
    decreases s.len() - i,
{
    let l = without_trader(s, trader, i, budget);
    lemma_without_trader_len(s, trader, i, budget);
    if i < s.len() {
        if budget > 0 && s[i].trader == trader {
            law_bulk_cancel_is_complete(s, trader, i + 1, (budget - 1) as nat);
            assert(l == without_trader(s, trader, i + 1, (budget - 1) as nat));
        } else {
            law_bulk_cancel_is_complete(s, trader, i + 1, budget);
            let l1 = without_trader(s, trader, i + 1, budget);
            assert forall|k: int| 0 <= k < l.len() implies (#[trigger] l[k]).trader != trader by {
                if k > 0 {
                    assert(l[k] == l1[k - 1]);
                }
            }
        }
    }
}

/// Takes the first `budget` orders of a trader out of one side.
pub fn drop_trader(s: &Vec<RestingOrderV2>, trader: Pubkey, budget: usize) -> (r: Vec<
    RestingOrderV2,
>)
    ensures
        r@ == without_trader(s@, trader, 0, budget as nat),
        r@.len() <= s@.len(),
{
    let mut left: Vec<RestingOrderV2> = Vec::new();
    let mut budget_left: usize = budget;
    let mut i: usize = 0;
    while i < s.len()
        invariant
            i <= s@.len(),
            left@.len() <= i,
            without_trader(s@, trader, 0, budget as nat) == left@ + without_trader(
                s@,
                trader,
                i as int,
                budget_left as nat,
            ),
        decreases s@.len() - i,
    {
        let o: RestingOrderV2 = s[i];
        if budget_left > 0 && o.trader == trader {
            budget_left = budget_left - 1;
        } else {
            proof {
                let tail = without_trader(s@, trader, i + 1, budget_left as nat);
                assert(left@ + (seq![o] + tail) =~= left@.push(o) + tail);
            }
            left.push(o);
        }
        i = i + 1;
    }
    assert(left@ + Seq::<RestingOrderV2>::empty() =~= left@);
    left
}

/// The book after a bulk cancel: at most a fixed number of the trader's orders go,
/// best bids first, then asks.
pub open spec fn book_after_cancel_all(b: BookModel, trader: Pubkey) -> BookModel {
    let bids = without_trader(b.bids, trader, 0, MAX_CANCELS_PER_IX_V2 as nat);
    let gone = b.bids.len() - bids.len();
    BookModel {
        bids,
        asks: without_trader(b.asks, trader, 0, (MAX_CANCELS_PER_IX_V2 - gone) as nat),
        ..b
    }
}

/// Cancels the caller's orders in a market, as many as one call may.
pub fn cancel_all_v2(market_key: Pubkey, book: &mut MarketBook, trader: Pubkey) -> (r: Result<
    BulkOrderCancelledV2Event,
    FlashBookError,
>)
    requires
        old(book)@.wf(),
    ensures
        final(book)@.wf(),
        if old(book)@.market_pubkey != market_key {
            r == Err::<BulkOrderCancelledV2Event, FlashBookError>(FlashBookError::WrongMarket)
                && *final(book) == *old(book)
        } else {
            let after = book_after_cancel_all(old(book)@, trader);
            &&& final(book)@ == after
            &&& r == Ok::<BulkOrderCancelledV2Event, FlashBookError>(
                BulkOrderCancelledV2Event {
                    market: market_key,
                    trader,
                    cancelled_count: (old(book)@.total() - after.total()) as u32,
                    total_orders_after: sat_u32(after.total() as int) as u32,
                },
            )
        },
{
    if book.market_pubkey != market_key {
        return Err(FlashBookError::WrongMarket);
    }
    proof {
        lemma_without_trader(
            true,
            book@.bids,
            trader,
            0,
            MAX_CANCELS_PER_IX_V2 as nat,
            book@.order_seq_counter,
        );
    }
    let bids = drop_trader(&book.bids, trader, MAX_CANCELS_PER_IX_V2);
    let gone_bids: usize = book.bids.len() - bids.len();
    proof {
        lemma_without_trader(
            false,
            book@.asks,
            trader,
            0,
            (MAX_CANCELS_PER_IX_V2 - gone_bids) as nat,
            book@.order_seq_counter,
        );
    }
    let asks = drop_trader(&book.asks, trader, MAX_CANCELS_PER_IX_V2 - gone_bids);
    let gone_asks: usize = book.asks.len() - asks.len();
    book.bids = bids;
    book.asks = asks;
    let total_orders_after: u32 = book.total_orders_active();
    Ok(
        BulkOrderCancelledV2Event {
            market: market_key,
            trader,
            cancelled_count: (gone_bids + gone_asks) as u32,
            total_orders_after,
        },
    )
}

/// Why a change is refused, if it is: as a new order would be, or as a
/// cancellation would be.
pub open spec fn modify_refusal(
    m: MarketAccount,
    market_key: Pubkey,
    b: BookModel,
    trader: Pubkey,
    old_order_id: u64,
    q: OrderRequest,
    now_slot: u64,
) -> Option<FlashBookError> {
    match order_intake_refusal(m, q, now_slot, takes_resting(m)) {
        Some(e) => Some(e),
        None => match cancel_refusal(market_key, b, trader, q.side, old_order_id) {
            Some(e) => Some(e),
            None => if b.order_seq_counter == u64::MAX {
                Some(FlashBookError::ArithmeticOverflow)
            } else {
                None
            },
        },
    }
}

/// Replaces one of the caller's orders by another on the same side, which keeps
/// the sub-account of the old one. On refusal the old order stays.
pub fn modify_order_v2(
    market_key: Pubkey,
    market: &MarketAccount,
    book: &mut MarketBook,
    trader: Pubkey,
    old_order_id: u64,
    q: OrderRequest,
    new_order_id: u64,
    now_slot: u64,
) -> (r: Result<OrderModifiedV2Event, FlashBookError>)
    requires
        market.params.tick_size > 0,
        old(book)@.wf(),
    ensures
        final(book)@.wf(),
        match modify_refusal(
            *market,
            market_key,
            old(book)@,
            trader,
            old_order_id,
            q,
            now_slot,
        ) {
            Some(e) => r == Err::<OrderModifiedV2Event, FlashBookError>(e) && *final(book) == *old(
                book,
            ),
            None => {
                let s = old(book)@.side(q.side == 0);
                let was = s[find_order(s, old_order_id)->0];
                let seq = (old(book)@.order_seq_counter + 1) as u64;
                let o = order_of_request(
                    OrderRequest { sub_index: was.sub_index, ..q },
                    trader,
                    seq,
                    new_order_id,
                    now_slot,
                );
                &&& final(book)@ == book_after_rest(
                    book_without(old(book)@, q.side == 0, old_order_id),
                    o,
                )
                &&& r == Ok::<OrderModifiedV2Event, FlashBookError>(
                    OrderModifiedV2Event {
                        market: market_key,
                        trader,
                        side: q.side,
                        old_seq: was.seq,
                        new_seq: seq,
                        new_price_ticks: q.limit_ticks,
                        new_size_lots: q.size_lots,
                        new_order_id,
                    },
                )
            },
        },
{
    let admitted: bool = market.status == STATUS_ACTIVE || market.status == STATUS_POST_ONLY;
    match check_order_intake(market, q, now_slot, admitted) {
        Ok(_) => {},
        Err(e) => {
            return Err(e);
        },
    }
    if book.market_pubkey != market_key {
        return Err(FlashBookError::WrongMarket);
    }
    let bid: bool = q.side == 0;
    let i: usize = match book.lookup(bid, old_order_id) {
        Some(i) => i,
        None => {
            return Err(FlashBookError::LiquidationStale);
        },
    };
    let was = book.order_at(bid, i);
    if was.trader != trader {
        return Err(FlashBookError::WrongTrader);
    }
    let seq: u64 = match book.order_seq_counter.checked_add(1) {
        Some(n) => n,
        None => {
            return Err(FlashBookError::ArithmeticOverflow);
        },
    };
    book.remove_at(bid, i);
    let ghost removed = book@;
    proof {
        law_removal_keeps_priority(old(book)@, bid, i as int);
    }
    let o = RestingOrderV2 {
        order_id: new_order_id,
        seq,
        price_ticks: q.limit_ticks,
        size_lots: q.size_lots,
        expires_at_slot: q.expires_at_slot,
        trader,
        last_valid_slot: clamp_u64_to_u32(now_slot),
        side: q.side,
        order_type: 0,
        flags: q.flags,
        sub_index: was.sub_index,
    };
    let rested = book.rest(o);
    assert(rested is Ok);
    book.order_seq_counter = seq;
    proof {
        law_resting_keeps_priority(removed, o);
    }
    Ok(
        OrderModifiedV2Event {
            market: market_key,
            trader,
            side: q.side,
            old_seq: was.seq,
            new_seq: seq,
            new_price_ticks: q.limit_ticks,
            new_size_lots: q.size_lots,
            new_order_id,
        },
    )
}

/// An order as the depth view shows it.
pub open spec fn level_of(o: RestingOrderV2) -> BookLevelV2 {
    BookLevelV2 {
        price_ticks: o.price_ticks,
        size_lots: o.size_lots,
        seq: o.seq,
        trader: o.trader,
    }
}

/// The best orders of a side as the depth view shows them.
pub open spec fn top_levels(s: Seq<RestingOrderV2>) -> Seq<BookLevelV2> {
    Seq::new(
        min_int(s.len() as int, BOOK_DEPTH_LEVELS as int) as nat,
        |i: int| level_of(s[i]),
    )
}

/// Copies the best orders of a side.
pub fn collect_levels(s: &Vec<RestingOrderV2>) -> (r: Vec<BookLevelV2>)
    ensures
        r@ == top_levels(s@),
{
    let mut out: Vec<BookLevelV2> = Vec::new();
    let mut i: usize = 0;
    while i < s.len() && i < BOOK_DEPTH_LEVELS
        invariant
            i <= s@.len(),
            i <= BOOK_DEPTH_LEVELS,
            out@.len() == i,
            forall|k: int| 0 <= k < i ==> (#[trigger] out@[k]) == level_of(s@[k]),
        decreases s@.len() - i,
    {
        let o: RestingOrderV2 = s[i];
        out.push(
            BookLevelV2 {
                price_ticks: o.price_ticks,
                size_lots: o.size_lots,
                seq: o.seq,
                trader: o.trader,
            },
        );
        i = i + 1;
    }
    out
}

/// Shows the best orders of both sides.
pub fn view_book_depth_v2(market_key: Pubkey, book: &MarketBook) -> (r: Result<
    BookDepthV2Event,
    FlashBookError,
>)
    requires
        book@.wf(),
    ensures
        match r {
            Err(e) => book@.market_pubkey != market_key && e == FlashBookError::WrongMarket,
            Ok(ev) => {
                &&& book@.market_pubkey == market_key
                &&& ev.market == market_key
                &&& ev.total_orders_active == sat_u32(book@.total() as int)
                &&& ev.bids@ == top_levels(book@.bids)
                &&& ev.asks@ == top_levels(book@.asks)
            },
        },
{
    if book.market_pubkey != market_key {
        return Err(FlashBookError::WrongMarket);
    }
    Ok(
        BookDepthV2Event {
            market: market_key,
            total_orders_active: book.total_orders_active(),
            bids: collect_levels(&book.bids),
            asks: collect_levels(&book.asks),
        },
    )
}

/// An accepted taker order keeps what its flags promise: fill-or-kill leaves nothing
/// unfilled, post-only trades nothing, and of an immediate-or-cancel order nothing
/// rests.
pub proof fn law_flags_are_kept(
    m: MarketAccount,
    market_key: Pubkey,
    b: BookModel,
    trader: Pubkey,
    q: OrderRequest,
    now_slot: u64,
)
    requires
        taker_order_refusal(m, market_key, b, trader, q, now_slot) is None,
    ensures
        ({
            let w = taker_walk(b, q, trader, now_slot);
            &&& flag_fok(q.flags) ==> w.remaining == 0
            &&& flag_post_only(q.flags) ==> w.fills.len() == 0
            &&& flag_ioc(q.flags) ==> !taker_rests(m, q, w.remaining)
        }),
{
}

/// An order that was rested can be cancelled by its trader, if its id is not taken on
/// its side, and the side is then as it was before.
pub proof fn law_cancel_undoes_rest(
    b: BookModel,
    market_key: Pubkey,
    q: OrderRequest,
    trader: Pubkey,
    order_id: u64,
    now_slot: u64,
)
    requires
        b.wf(),
        b.market_pubkey == market_key,
        q.side <= 1,
        q.size_lots > 0,
        b.order_seq_counter < u64::MAX,
        b.total() < b.capacity,
        find_order(b.side(q.side == 0), order_id) is None,
    ensures
        ({
            let o = order_of_request(
                q,
                trader,
                (b.order_seq_counter + 1) as u64,
                order_id,
                now_slot,
            );
            let placed = book_after_rest(b, o);
            &&& cancel_refusal(market_key, placed, trader, q.side, order_id) is None
            &&& book_without(placed, q.side == 0, order_id).side(q.side == 0) == b.side(
                q.side == 0,
            )
        }),
{
    let o = order_of_request(q, trader, (b.order_seq_counter + 1) as u64, order_id, now_slot);
    law_rested_order_is_found(b, o);
}

} // verus!
