//! What placing, matching and cancelling orders comes down to, in the fields of the
//! orders and the book.
use vstd::prelude::*;

use crate::book::{
    BookModel, MarketBook, RestingOrderV2, book_after_rest, find_from, law_removal_keeps_priority,
    lemma_rank_splits, rank_from, ranks_before, side_proper, side_sorted,
};
use crate::constants::{Limits, MAX_BATCH_ORDERS_PER_SIDE_V2, MAX_CANCELS_PER_IX_V2};
use crate::errors::FlashBookError;
use crate::events::{
    BookDepthV2Event, BulkOrderCancelledV2Event, FillEntry, OrderCancelledV2Event,
    OrderModifiedV2Event, OrderPlacedV2Event,
};
use crate::keys::Pubkey;
use crate::matching::{
    SelfTradeMode, Taker, Walk, WalkModel, crosses, expired, fill_against, filled_lots,
    lemma_filled_nonnegative, lemma_walk_accounts, lemma_walk_left, walk, walk_from, walk_side,
};
use crate::math::min_int;
use crate::orders::{
    OrderRequest, TakerOutcome, book_without, cancel_all_v2, cancel_order_v2,
    law_bulk_cancel_is_complete, lemma_walk_fill_count, lemma_without_trader, modify_order_v2,
    order_of_request, place_limit_order_v2, place_taker_order_v2, taker_of_request, taker_rests,
    view_book_depth_v2, without_trader,
};
use crate::state::MarketAccount;

verus! {

/// The taker may trade with the order: its price is within the taker's limit, it has
/// not run out by the taker's slot, and somebody else placed it.
pub open spec fn may_trade(t: Taker, o: RestingOrderV2) -> bool {
    &&& o.trader != t.trader
    &&& o.expires_at_slot == 0 || o.expires_at_slot >= t.now_slot
    &&& t.buys ==> o.price_ticks <= t.limit_ticks
    &&& !t.buys ==> o.price_ticks >= t.limit_ticks
}

/// The order is the taker's own, and the taker would otherwise have traded with it.
pub open spec fn meets_itself(t: Taker, o: RestingOrderV2) -> bool {
    &&& o.trader == t.trader
    &&& o.expires_at_slot == 0 || o.expires_at_slot >= t.now_slot
    &&& t.buys ==> o.price_ticks <= t.limit_ticks
    &&& !t.buys ==> o.price_ticks >= t.limit_ticks
}

/// The trades are with the orders at places `at`, in the order of the book, at their
/// own prices; nobody in between whom the taker may trade with is passed over; and
/// each order is taken whole, but for the last one of a taker that got all it wanted.
pub open spec fn trades_in_turn(
    t: Taker,
    s: Seq<RestingOrderV2>,
    from: int,
    w: WalkModel,
    at: Seq<int>,
) -> bool {
    &&& at.len() == w.fills.len()
    &&& forall|k: int|
        0 <= k < at.len() ==> {
            let o = s[#[trigger] at[k]];
            let f = w.fills[k];
            &&& from <= at[k] < s.len()
            &&& may_trade(t, o)
            &&& f.maker == o.trader
            &&& f.price_ticks == o.price_ticks
            &&& f.maker_id == o.order_id
            &&& f.maker_sub_index == o.sub_index
            &&& f.size_lots <= o.size_lots
            &&& f.size_lots < o.size_lots ==> k == at.len() - 1 && w.remaining == 0
        }
    &&& forall|j: int, k: int| 0 <= j < k < at.len() ==> #[trigger] at[j] < #[trigger] at[k]
    &&& forall|j: int, k: int|
        from <= j < s.len() && 0 <= k < at.len() && j < (#[trigger] at[k]) && may_trade(
            t,
            #[trigger] s[j],
        ) ==> at.contains(j)
}

/// The places of the trades of a walk.
pub proof fn lemma_trades_in_turn(
    t: Taker,
    s: Seq<RestingOrderV2>,
    i: int,
    remaining: u64,
    done: nat,
) -> (at: Seq<int>)
    requires
        0 <= i <= s.len(),
    ensures
        ({
            let w = walk_from(t, s, i, remaining, done);
            &&& trades_in_turn(t, s, i, w, at)
            &&& w.remaining > 0 && !w.aborted && done + w.fills.len()
                < 256 && best_price_first(t, s) ==> forall|j: int|
                i <= j < s.len() && may_trade(t, #[trigger] s[j]) ==> at.contains(j)
        }),
    decreases s.len() - i,
{
    let w = walk_from(t, s, i, remaining, done);
    if i >= s.len() || done >= MAX_BATCH_ORDERS_PER_SIDE_V2 || remaining == 0 || !crosses(t, s[i]) {
        let at = Seq::<int>::empty();
        if w.remaining > 0 && done < 256 && best_price_first(t, s) {
            assert forall|j: int| i <= j < s.len() && may_trade(t, #[trigger] s[j]) implies
                at.contains(j) by {
                assert(i == j || no_better_behind(t, s[i], s[j]));
            }
        }
        at
    } else if expired(t, s[i]) || (s[i].trader == t.trader && t.self_trade
        != SelfTradeMode::CancelBoth) {
        lemma_trades_in_turn(t, s, i + 1, remaining, done)
    } else if s[i].trader == t.trader {
        Seq::<int>::empty()
    } else {
        let size = min_int(s[i].size_lots as int, remaining as int) as u64;
        let rest = lemma_trades_in_turn(t, s, i + 1, (remaining - size) as u64, done + 1);
        let w1 = walk_from(t, s, i + 1, (remaining - size) as u64, done + 1);
        lemma_walk_accounts(t, s, i + 1, (remaining - size) as u64, done + 1);
        lemma_filled_nonnegative(w1.fills);
        let at = seq![i] + rest;
        assert forall|k: int| 0 < k < at.len() implies (#[trigger] at[k]) == rest[k - 1]
            && w.fills[k] == w1.fills[k - 1] by {}
        assert(at[0] == i && w.fills[0] == fill_against(s[i], size));
        assert forall|j: int| rest.contains(j) implies #[trigger] at.contains(j) by {
            let k = choose|k: int| 0 <= k < rest.len() && rest[k] == j;
            assert(at[k + 1] == j);
        }
        assert(at.contains(i));
        if size < s[i].size_lots {
            assert(w1.fills.len() == 0);
        }
        at
    }
}

/// Price `b` is not better for the taker than price `a`.
pub open spec fn no_better_behind(t: Taker, a: RestingOrderV2, b: RestingOrderV2) -> bool {
    &&& t.buys ==> a.price_ticks <= b.price_ticks
    &&& !t.buys ==> a.price_ticks >= b.price_ticks
}

/// The walked side shows its best prices first.
pub open spec fn best_price_first(t: Taker, s: Seq<RestingOrderV2>) -> bool {
    forall|j: int, k: int|
        0 <= j < k < s.len() ==> no_better_behind(t, #[trigger] s[j], #[trigger] s[k])
}

/// A taker trades with live orders of others only, within its limit, in the order of
/// the book and passing nobody over; and as long as it wants more, it has traded with
/// every such order there is, up to the number of trades that one order may make. An
/// order that ran out before the taker's slot is never traded, one that runs until
/// that slot or later is.
pub proof fn law_taker_meets_live_orders_in_turn(
    t: Taker,
    s: &Vec<RestingOrderV2>,
    size: u64,
    w: Walk,
)
    requires
        call_ensures(walk_side, (t, s, size), w),
        best_price_first(t, s@),
    ensures
        exists|at: Seq<int>| #[trigger]
            trades_in_turn(t, s@, 0, w@, at) && (w.remaining > 0 && !w.aborted && w.fills@.len()
                < 256 ==> forall|j: int|
                0 <= j < s@.len() && may_trade(t, #[trigger] s@[j]) ==> at.contains(j)),
        w.fills@.len() <= 256,
        forall|k: int|
            0 <= k < w.fills@.len() ==> exists|j: int|
                0 <= j < s@.len() && (#[trigger] s@[j]).order_id == (
                #[trigger] w.fills@[k]).maker_id && may_trade(t, s@[j]),
        w.remaining <= size,
{
    let at = lemma_trades_in_turn(t, s@, 0, size, 0);
    lemma_walk_fill_count(t, s@, 0, size, 0);
    lemma_walk_accounts(t, s@, 0, size, 0);
    lemma_filled_nonnegative(w@.fills);
    assert(trades_in_turn(t, s@, 0, w@, at));
    assert forall|k: int| 0 <= k < w.fills@.len() implies exists|j: int|
        0 <= j < s@.len() && (#[trigger] s@[j]).order_id == (#[trigger] w.fills@[k]).maker_id
            && may_trade(t, s@[j]) by {
        let o = s@[at[k]];
    }
}

/// What a walk does to the orders on its side: an order that was not traded stays as
/// it is, unless the taker cancels its own on the way. What stays is an order that was
/// there, whole, or cut down by a taker that got all it wanted.
pub open spec fn leaves_the_rest(
    t: Taker,
    s: Seq<RestingOrderV2>,
    from: int,
    w: WalkModel,
    at: Seq<int>,
) -> bool {
    &&& forall|j: int|
        from <= j < s.len() && !at.contains(j) && (t.self_trade != SelfTradeMode::CancelOldest || !(
        meets_itself(t, #[trigger] s[j]))) ==> w.left.contains(s[j])
    &&& forall|k: int|
        0 <= k < w.left.len() ==> exists|j: int|
            from <= j < s.len() && ((#[trigger] w.left[k]) == #[trigger] s[j] || (w.remaining == 0
                && at.contains(j) && 0 < w.left[k].size_lots < s[j].size_lots && w.left[k] == (
            RestingOrderV2 { size_lots: w.left[k].size_lots, ..s[j] })))
}

/// The places of the trades of a walk tell what is left.
pub proof fn lemma_leaves_the_rest(
    t: Taker,
    s: Seq<RestingOrderV2>,
    i: int,
    remaining: u64,
    done: nat,
) -> (at: Seq<int>)
    requires
        0 <= i <= s.len(),
    ensures
        ({
            let w = walk_from(t, s, i, remaining, done);
            &&& trades_in_turn(t, s, i, w, at)
            &&& leaves_the_rest(t, s, i, w, at)
        }),
    decreases s.len() - i,
{
    let w = walk_from(t, s, i, remaining, done);
    if i >= s.len() || done >= MAX_BATCH_ORDERS_PER_SIDE_V2 || remaining == 0 || !crosses(t, s[i])
        || (!expired(t, s[i]) && s[i].trader == t.trader && t.self_trade
        == SelfTradeMode::CancelBoth) {
        assert forall|j: int| i <= j < s.len() implies w.left.contains(#[trigger] s[j]) by {
            assert(w.left[j - i] == s[j]);
        }
        assert forall|k: int| 0 <= k < w.left.len() implies exists|j: int|
            i <= j < s.len() && (#[trigger] w.left[k]) == #[trigger] s[j] by {
            assert(w.left[k] == s[i + k]);
        }
        Seq::<int>::empty()
    } else if expired(t, s[i]) || (s[i].trader == t.trader && t.self_trade == SelfTradeMode::Skip) {
        let at = lemma_leaves_the_rest(t, s, i + 1, remaining, done);
        let w1 = walk_from(t, s, i + 1, remaining, done);
        lemma_in_front(s[i], w1.left);
        assert(w.left == seq![s[i]] + w1.left);
        assert forall|k: int| 0 <= k < w.left.len() implies exists|j: int|
            i <= j < s.len() && ((#[trigger] w.left[k]) == #[trigger] s[j] || (w.remaining == 0
                && at.contains(j) && 0 < w.left[k].size_lots < s[j].size_lots && w.left[k] == (
            RestingOrderV2 { size_lots: w.left[k].size_lots, ..s[j] }))) by {
            if k == 0 {
                assert(w.left[k] == s[i]);
            } else {
                assert(w.left[k] == w1.left[k - 1]);
            }
        }
        at
    } else if s[i].trader == t.trader {
        lemma_leaves_the_rest(t, s, i + 1, remaining, done)
    } else {
        let size = min_int(s[i].size_lots as int, remaining as int) as u64;
        let rest = lemma_leaves_the_rest(t, s, i + 1, (remaining - size) as u64, done + 1);
        let w1 = walk_from(t, s, i + 1, (remaining - size) as u64, done + 1);
        lemma_walk_accounts(t, s, i + 1, (remaining - size) as u64, done + 1);
        lemma_filled_nonnegative(w1.fills);
        let at = seq![i] + rest;
        assert forall|k: int| 0 < k < at.len() implies (#[trigger] at[k]) == rest[k - 1]
            && w.fills[k] == w1.fills[k - 1] by {}
        assert(at[0] == i && w.fills[0] == fill_against(s[i], size));
        assert forall|j: int| rest.contains(j) implies #[trigger] at.contains(j) by {
            let k = choose|k: int| 0 <= k < rest.len() && rest[k] == j;
            assert(at[k + 1] == j);
        }
        assert(at.contains(i));
        if size < s[i].size_lots {
            assert(w1.fills.len() == 0);
            let o = RestingOrderV2 { size_lots: (s[i].size_lots - size) as u64, ..s[i] };
            lemma_in_front(o, w1.left);
            assert(w.left == seq![o] + w1.left);
        }
        assert forall|k: int| 0 <= k < w.left.len() implies exists|j: int|
            i <= j < s.len() && ((#[trigger] w.left[k]) == #[trigger] s[j] || (w.remaining == 0
                && at.contains(j) && 0 < w.left[k].size_lots < s[j].size_lots && w.left[k] == (
            RestingOrderV2 { size_lots: w.left[k].size_lots, ..s[j] }))) by {
            if size < s[i].size_lots {
                if k == 0 {
                    assert(at.contains(i));
                    assert(w.left[0].size_lots < s[i].size_lots);
                } else {
                    assert(w.left[k] == w1.left[k - 1]);
                }
            } else {
                assert(w.left[k] == w1.left[k]);
            }
        }
        at
    }
}

/// An order in front of others is among them, and so are the others.
pub proof fn lemma_in_front(o: RestingOrderV2, s: Seq<RestingOrderV2>)
    ensures
        (seq![o] + s).contains(o),
        forall|x: RestingOrderV2| s.contains(x) ==> #[trigger] (seq![o] + s).contains(x),
{
    let u = seq![o] + s;
    assert(u[0] == o);
    assert forall|x: RestingOrderV2| s.contains(x) implies #[trigger] u.contains(x) by {
        let k = choose|k: int| 0 <= k < s.len() && s[k] == x;
        assert(u[k + 1] == x);
    }
}

/// A walk touches nothing but what it trades and, if so asked, the taker's own orders
/// that it meets.
pub proof fn law_walk_leaves_other_orders_alone(
    t: Taker,
    s: &Vec<RestingOrderV2>,
    size: u64,
    w: Walk,
)
    requires
        call_ensures(walk_side, (t, s, size), w),
    ensures
        exists|at: Seq<int>| #[trigger]
            trades_in_turn(t, s@, 0, w@, at) && leaves_the_rest(t, s@, 0, w@, at),
{
    let at = lemma_leaves_the_rest(t, s@, 0, size, 0);
}

/// A taker gives up only if it asked to and met itself, and if it asked to, it never
/// trades past an order of its own.
pub proof fn law_taker_gives_up_only_on_itself(
    t: Taker,
    s: &Vec<RestingOrderV2>,
    size: u64,
    w: Walk,
)
    requires
        call_ensures(walk_side, (t, s, size), w),
        best_price_first(t, s@),
    ensures
        w.aborted ==> t.self_trade == SelfTradeMode::CancelBoth && exists|j: int|
            0 <= j < s@.len() && meets_itself(t, #[trigger] s@[j]),
        t.self_trade == SelfTradeMode::CancelBoth && !w.aborted && w.remaining > 0
            && w.fills@.len() < 256 ==> forall|j: int|
            0 <= j < s@.len() ==> !meets_itself(t, #[trigger] s@[j]),
        t.self_trade == SelfTradeMode::CancelOldest && w.remaining > 0 && w.fills@.len()
            < 256 ==> forall|k: int|
            0 <= k < w.left@.len() ==> !meets_itself(t, #[trigger] w.left@[k]),
{
    lemma_gives_up(t, s@, 0, size, 0);
    assert(w@ == walk_from(t, s@, 0, size, 0));
    assert(w@.left == w.left@ && w@.fills == w.fills@);
}

/// The same from any position of the walk.
pub proof fn lemma_gives_up(t: Taker, s: Seq<RestingOrderV2>, i: int, remaining: u64, done: nat)
    requires
        0 <= i <= s.len(),
        best_price_first(t, s),
    ensures
        ({
            let w = walk_from(t, s, i, remaining, done);
            &&& w.aborted ==> t.self_trade == SelfTradeMode::CancelBoth && exists|j: int|
                i <= j < s.len() && meets_itself(t, #[trigger] s[j])
            &&& t.self_trade == SelfTradeMode::CancelBoth && !w.aborted && w.remaining > 0 && done
                + w.fills.len() < 256 ==> forall|j: int|
                i <= j < s.len() ==> !meets_itself(t, #[trigger] s[j])
            &&& t.self_trade == SelfTradeMode::CancelOldest && w.remaining > 0 && done
                + w.fills.len() < 256 ==> forall|k: int|
                0 <= k < w.left.len() ==> !meets_itself(t, #[trigger] w.left[k])
        }),
    decreases s.len() - i,
{
    let w = walk_from(t, s, i, remaining, done);
    if i >= s.len() || done >= MAX_BATCH_ORDERS_PER_SIDE_V2 || remaining == 0 || !crosses(t, s[i]) {
        assert forall|j: int| i <= j < s.len() && i < s.len() && !crosses(t, s[i]) implies
            !meets_itself(t, #[trigger] s[j]) by {
            assert(i == j || no_better_behind(t, s[i], s[j]));
        }
        assert forall|k: int| 0 <= k < w.left.len() implies (#[trigger] w.left[k]) == s[i + k] by {}
    } else if expired(t, s[i]) {
        lemma_gives_up(t, s, i + 1, remaining, done);
        let w1 = walk_from(t, s, i + 1, remaining, done);
        assert forall|k: int| 0 < k < w.left.len() implies (#[trigger] w.left[k]) == w1.left[k
            - 1] by {}
    } else if s[i].trader == t.trader {
        assert(meets_itself(t, s[i]));
        if t.self_trade != SelfTradeMode::CancelBoth {
            lemma_gives_up(t, s, i + 1, remaining, done);
        }
    } else {
        let size = min_int(s[i].size_lots as int, remaining as int) as u64;
        lemma_gives_up(t, s, i + 1, (remaining - size) as u64, done + 1);
        let w1 = walk_from(t, s, i + 1, (remaining - size) as u64, done + 1);
        assert(w.fills.len() == 1 + w1.fills.len());
        if size == s[i].size_lots {
            assert(w.left == w1.left);
        } else {
            assert forall|k: int| 0 < k < w.left.len() implies (#[trigger] w.left[k]) == w1.left[k
                - 1] by {}
            assert(w.left[0].trader == s[i].trader);
        }
    }
}

/// A request that its market may look at: a side, a size and a limit, no unknown flag,
/// not run out, no smaller than the market's least order, on its price grid, and
/// within its cap on open interest.
pub open spec fn well_put(m: MarketAccount, q: OrderRequest, now_slot: u64) -> bool {
    &&& q.side <= 1
    &&& q.size_lots > 0
    &&& q.limit_ticks > 0
    &&& q.flags < 128
    &&& q.expires_at_slot == 0 || q.expires_at_slot > now_slot
    &&& q.size_lots >= m.params.min_base_lots
    &&& q.limit_ticks % m.params.tick_size == 0
    &&& m.params.max_oi_base_lots == 0 || m.params.max_oi_base_lots == u64::MAX || q.size_lots + (if q.side == 0 {
        m.oi_long_lots
    } else {
        m.oi_short_lots
    }) <= m.params.max_oi_base_lots
}

/// An order stands where it belongs among others: behind every price that is as good
/// as its own or better, in front of every worse one.
pub open spec fn stands_in_line(bid: bool, s: Seq<RestingOrderV2>, k: int, o: RestingOrderV2) -> bool {
    &&& 0 <= k <= s.len()
    &&& forall|j: int|
        0 <= j < s.len() ==> ({
            let better = if bid {
                (#[trigger] s[j]).price_ticks > o.price_ticks
            } else {
                s[j].price_ticks < o.price_ticks
            };
            (j < k) == (better || s[j].price_ticks == o.price_ticks)
        })
}

/// A new order goes behind all that are as good as it is.
pub proof fn lemma_stands_in_line(
    bid: bool,
    s: Seq<RestingOrderV2>,
    o: RestingOrderV2,
    counter: u64,
)
    requires
        side_sorted(bid, s),
        side_proper(bid, s, counter),
        counter < o.seq,
    ensures
        stands_in_line(bid, s, rank_from(bid, s, o, 0), o),
{
    lemma_rank_splits(bid, s, o, 0);
    let k = rank_from(bid, s, o, 0);
    assert forall|j: int| 0 <= j < s.len() implies ({
        let better = if bid {
            (#[trigger] s[j]).price_ticks > o.price_ticks
        } else {
            s[j].price_ticks < o.price_ticks
        };
        (j < k) == (better || s[j].price_ticks == o.price_ticks)
    }) by {
        assert(s[j].seq <= counter);
        if k < s.len() && j > k {
            assert(ranks_before(bid, s[k], s[j]));
        }
    }
}

/// The order that a request becomes, with `size` lots of it.
pub open spec fn asked_for(
    q: OrderRequest,
    trader: Pubkey,
    seq: u64,
    order_id: u64,
    size: u64,
    now_slot: u64,
) -> RestingOrderV2 {
    RestingOrderV2 {
        order_id,
        seq,
        price_ticks: q.limit_ticks,
        size_lots: size,
        expires_at_slot: q.expires_at_slot,
        trader,
        last_valid_slot: if now_slot <= u32::MAX {
            now_slot as u32
        } else {
            u32::MAX
        },
        side: q.side,
        order_type: 0,
        flags: q.flags,
        sub_index: q.sub_index,
    }
}

/// The taker that a request makes of its trader. Bits 4 and 5 say what it does when it
/// meets itself.
pub open spec fn comes_as(q: OrderRequest, trader: Pubkey, now_slot: u64) -> Taker {
    Taker {
        buys: q.side == 0,
        limit_ticks: q.limit_ticks,
        trader,
        self_trade: if (q.flags / 16) % 4 == 1 {
            SelfTradeMode::CancelOldest
        } else if (q.flags / 16) % 4 == 2 {
            SelfTradeMode::CancelBoth
        } else {
            SelfTradeMode::Skip
        },
        now_slot,
    }
}

/// The side of a book that a request trades against: asks for a buyer.
pub open spec fn other_side(q: OrderRequest, b: MarketBook) -> Seq<RestingOrderV2> {
    if q.side == 0 {
        b.asks@
    } else {
        b.bids@
    }
}

/// The trades that were reported, and what stands on the traded side afterwards.
pub open spec fn came_of_it(q: OrderRequest, out: TakerOutcome, b: MarketBook) -> WalkModel {
    let fills = match out.batch {
        Some(batch) => batch.fills@,
        None => Seq::empty(),
    };
    WalkModel {
        fills,
        left: other_side(q, b),
        remaining: (q.size_lots - filled_lots(fills)) as u64,
        aborted: false,
    }
}

/// A limit order is taken whenever it is well put, the market takes resting orders and
/// the book has room. It then stands in line on its side with all it asked for, under
/// the next number, and the rest of the book is as it was.
pub proof fn law_limit_order_rests_in_line(
    market_key: Pubkey,
    m: &MarketAccount,
    book: &mut MarketBook,
    trader: Pubkey,
    q: OrderRequest,
    order_id: u64,
    now_slot: u64,
    r: Result<OrderPlacedV2Event, FlashBookError>,
)
    requires
        m.params.tick_size > 0,
        old(book)@.wf(),
        call_ensures(
            place_limit_order_v2,
            (market_key, m, book, trader, q, order_id, now_slot),
            r,
        ),
    ensures
        r is Ok <==> well_put(*m, q, now_slot) && (m.status == 1 || m.status == 2) && old(book).market_pubkey == market_key && old(book).order_seq_counter < u64::MAX && old(book).bids@.len() + old(book).asks@.len() < old(book).capacity,
        r is Err ==> *final(book) == *old(book),
        r matches Ok(e) ==> {
            let seq = old(book).order_seq_counter + 1;
            let o = asked_for(q, trader, seq as u64, order_id, q.size_lots, now_slot);
            &&& q.side == 0 ==> final(book).asks@ == old(book).asks@ && exists|k: int| #[trigger]
                stands_in_line(true, old(book).bids@, k, o) && final(book).bids@ == old(book).bids@.insert(k, o)
            &&& q.side == 1 ==> final(book).bids@ == old(book).bids@ && exists|k: int| #[trigger]
                stands_in_line(false, old(book).asks@, k, o) && final(book).asks@ == old(book).asks@.insert(k, o)
            &&& final(book).order_seq_counter == seq
            &&& final(book).market_pubkey == old(book).market_pubkey
            &&& final(book).capacity == old(book).capacity
            &&& e.market == market_key && e.trader == trader && e.seq == seq && e.side == q.side
                && e.price_ticks == q.limit_ticks && e.size_lots == q.size_lots
        },
{
    let b = old(book)@;
    if r is Ok {
        let seq = (b.order_seq_counter + 1) as u64;
        let o = order_of_request(q, trader, seq, order_id, now_slot);
        let bid = q.side == 0;
        let side = b.side(bid);
        let k = rank_from(bid, side, o, 0);
        lemma_stands_in_line(bid, side, o, b.order_seq_counter);
        let after = final(book)@;
        assert(asked_for(q, trader, seq, order_id, q.size_lots, now_slot) == o);
        assert(after == book_after_rest(b, o));
        assert(after.side(bid) == side.insert(k, o));
        assert(after.side(!bid) == b.side(!bid));
        assert(after.capacity == b.capacity);
        assert(final(book).bids@ == after.bids && final(book).asks@ == after.asks);
    }
}

/// A taker order is taken only if it is well put and the market trades; it then keeps
/// to its flags, trades in turn on the other side, and rests what is left of it unless
/// that is too little or was not to rest.
pub proof fn law_taker_order_keeps_its_word(
    market_key: Pubkey,
    m: &MarketAccount,
    book: &mut MarketBook,
    trader: Pubkey,
    q: OrderRequest,
    order_id: u64,
    now_slot: u64,
    r: Result<TakerOutcome, FlashBookError>,
)
    requires
        m.params.tick_size > 0,
        old(book)@.wf(),
        call_ensures(
            place_taker_order_v2,
            (market_key, m, book, trader, q, order_id, now_slot),
            r,
        ),
    ensures
        r is Ok ==> well_put(*m, q, now_slot) && m.status == 1 && old(book).market_pubkey
            == market_key && old(book).order_seq_counter < u64::MAX,
        well_put(*m, q, now_slot) && m.status == 1 && old(book).market_pubkey == market_key && old(book).order_seq_counter < u64::MAX && old(book).bids@.len() + old(book).asks@.len() < old(book).capacity && (q.flags == 0 || q.flags == 4 || q.flags == 16) ==> r is Ok,
        r is Err ==> *final(book) == *old(book),
        r matches Ok(out) ==> {
            let c = out.cleared;
            let filled = match out.batch {
                Some(b) => filled_lots(b.fills@),
                None => 0,
            };
            let rest = q.size_lots - filled;
            &&& c.market == market_key && c.taker == trader && c.side == q.side
                && c.taker_size_lots == q.size_lots && c.taker_order_id == order_id
            &&& 0 <= filled <= q.size_lots && c.filled_lots == filled
            &&& c.match_count == (match out.batch {
                Some(b) => b.fills@.len() as int,
                None => 0,
            })
            &&& out.batch matches Some(b) ==> b.market == market_key && b.taker == trader
                && b.taker_side == q.side && b.taker_id == order_id && b.taker_sub_index
                == q.sub_index && b.fills@.len() > 0
            // Bit 0: rests or is refused. Bit 2: never rests. Bit 6: filled or refused.
            &&& q.flags % 2 == 1 ==> out.batch is None
            &&& (q.flags / 4) % 2 == 1 ==> c.residual_resting_lots == 0
            &&& (q.flags / 64) % 2 == 1 ==> filled == q.size_lots
            &&& c.residual_resting_lots == (if rest > 0 && rest >= m.params.min_base_lots && (q.flags
                / 4) % 2 == 0 {
                rest
            } else {
                0
            })
            &&& final(book).order_seq_counter == old(book).order_seq_counter + 1
            &&& final(book).capacity == old(book).capacity
            &&& c.residual_resting_lots == 0 ==> (if q.side == 0 {
                final(book).bids@ == old(book).bids@
            } else {
                final(book).asks@ == old(book).asks@
            })
            &&& c.residual_resting_lots > 0 ==> {
                let o = asked_for(
                    q,
                    trader,
                    final(book).order_seq_counter,
                    order_id,
                    c.residual_resting_lots,
                    now_slot,
                );
                if q.side == 0 {
                    exists|k: int| #[trigger]
                        stands_in_line(true, old(book).bids@, k, o) && final(book).bids@ == old(book).bids@.insert(k, o)
                } else {
                    exists|k: int| #[trigger]
                        stands_in_line(false, old(book).asks@, k, o) && final(book).asks@ == old(book).asks@.insert(k, o)
                }
            }
        },
{
    let b = old(book)@;
    let bid = q.side == 0;
    let t = taker_of_request(q, trader, now_slot);
    let s = b.side(!bid);
    let w = walk(t, s, q.size_lots);
    let at = lemma_leaves_the_rest(t, s, 0, q.size_lots, 0);
    lemma_walk_accounts(t, s, 0, q.size_lots, 0);
    lemma_filled_nonnegative(w.fills);
    lemma_walk_left(t, s, 0, q.size_lots, 0, b.order_seq_counter);
    lemma_walk_fill_count(t, s, 0, q.size_lots, 0);
    if t.self_trade != SelfTradeMode::CancelBoth {
        lemma_never_gives_up(t, s, 0, q.size_lots, 0);
    }
    if r is Ok {
        let out = r->Ok_0;
        assert(w.fills.len() == 0 ==> w.fills =~= Seq::<FillEntry>::empty());
        let seq = (b.order_seq_counter + 1) as u64;
        let o = order_of_request(
            OrderRequest { size_lots: w.remaining, ..q },
            trader,
            seq,
            order_id,
            now_slot,
        );
        lemma_stands_in_line(bid, b.side(bid), o, b.order_seq_counter);
        let w2 = WalkModel { aborted: false, ..w };
        assert(w2 == w);
        assert(trades_in_turn(t, s, 0, w, at));
        let walked = b.with_side(!bid, w.left);
        let after = final(book)@;
        assert(walked.side(bid) == b.side(bid));
        if taker_rests(*m, q, w.remaining) {
            let k = rank_from(bid, b.side(bid), o, 0);
            assert(after == book_after_rest(walked, o));
            assert(after.side(bid) == b.side(bid).insert(k, o));
        } else {
            assert(after.side(bid) == b.side(bid));
        }
        assert(after.side(!bid) == w.left);
        assert(after.capacity == b.capacity);
        assert(final(book).bids@ == after.bids && final(book).asks@ == after.asks);
        let fills = match out.batch {
            Some(batch) => batch.fills@,
            None => Seq::empty(),
        };
        assert(fills == w.fills);
        assert(q.size_lots - filled_lots(fills) == w.remaining);
        assert(asked_for(q, trader, seq, order_id, w.remaining, now_slot) == o);
    }
}

/// An accepted taker order trades in turn with the live orders of others on the other
/// side, within its limit, and leaves the rest of that side alone.
pub proof fn law_taker_order_trades_in_turn(
    market_key: Pubkey,
    m: &MarketAccount,
    book: &mut MarketBook,
    trader: Pubkey,
    q: OrderRequest,
    order_id: u64,
    now_slot: u64,
    r: Result<TakerOutcome, FlashBookError>,
)
    requires
        m.params.tick_size > 0,
        old(book)@.wf(),
        call_ensures(
            place_taker_order_v2,
            (market_key, m, book, trader, q, order_id, now_slot),
            r,
        ),
        r is Ok,
    ensures
        exists|at: Seq<int>| #[trigger]
            trades_in_turn(
                comes_as(q, trader, now_slot),
                other_side(q, *old(book)),
                0,
                came_of_it(q, r->Ok_0, *final(book)),
                at,
            ) && leaves_the_rest(
                comes_as(q, trader, now_slot),
                other_side(q, *old(book)),
                0,
                came_of_it(q, r->Ok_0, *final(book)),
                at,
            ),
{
    let b = old(book)@;
    let bid = q.side == 0;
    let t = taker_of_request(q, trader, now_slot);
    let s = b.side(!bid);
    let w = walk(t, s, q.size_lots);
    let at = lemma_leaves_the_rest(t, s, 0, q.size_lots, 0);
    lemma_walk_accounts(t, s, 0, q.size_lots, 0);
    lemma_filled_nonnegative(w.fills);
    let out = r->Ok_0;
    assert(w.fills.len() == 0 ==> w.fills =~= Seq::<FillEntry>::empty());
    let after = final(book)@;
    assert(final(book).bids@ == after.bids && final(book).asks@ == after.asks);
    assert(after.side(!bid) == w.left);
    let fills = match out.batch {
        Some(batch) => batch.fills@,
        None => Seq::empty(),
    };
    assert(fills == w.fills);
    assert(came_of_it(q, out, *final(book)) == w);
    assert(comes_as(q, trader, now_slot) == t);
    assert(other_side(q, *old(book)) == s);
    assert(trades_in_turn(t, s, 0, w, at));
}

/// One order joins a book: it stands in line on its side, the other side is as it was,
/// and the book has counted on to its number.
pub open spec fn joins(b: BookModel, c: BookModel, o: RestingOrderV2) -> bool {
    &&& c.market_pubkey == b.market_pubkey
    &&& c.capacity == b.capacity
    &&& c.order_seq_counter == o.seq
    &&& o.side == 0 ==> c.asks == b.asks && exists|k: int| #[trigger]
        stands_in_line(true, b.bids, k, o) && c.bids == b.bids.insert(k, o)
    &&& o.side != 0 ==> c.bids == b.bids && exists|k: int| #[trigger]
        stands_in_line(false, b.asks, k, o) && c.asks == b.asks.insert(k, o)
}

/// A newly numbered order that is rested joins the book.
pub proof fn lemma_joins(b: BookModel, o: RestingOrderV2)
    requires
        b.wf(),
        b.order_seq_counter < o.seq,
        b.bids.len() + b.asks.len() < b.capacity,
    ensures
        joins(b, book_after_rest(b, o), o),
{
    let bid = o.side == 0;
    lemma_stands_in_line(bid, b.side(bid), o, b.order_seq_counter);
    let k = rank_from(bid, b.side(bid), o, 0);
    assert(book_after_rest(b, o).side(bid) == b.side(bid).insert(k, o));
}

/// The book has a number and a place left for an order.
pub open spec fn has_room(b: BookModel, limits: Limits) -> bool {
    b.order_seq_counter < u64::MAX && b.order_seq_counter + 1 < limits.flp_seq_reserved_offset
        && b.bids.len() + b.asks.len() < b.capacity
}

/// The order at place `k` leaves one side of a book; nothing else changes.
pub open spec fn leaves(b: BookModel, c: BookModel, side: u8, k: int) -> bool {
    &&& c.market_pubkey == b.market_pubkey && c.capacity == b.capacity && c.order_seq_counter
        == b.order_seq_counter
    &&& side == 0 ==> 0 <= k < b.bids.len() && c.bids == b.bids.remove(k) && c.asks == b.asks
    &&& side != 0 ==> 0 <= k < b.asks.len() && c.asks == b.asks.remove(k) && c.bids == b.bids
}

/// The place of the first order with an id.
pub proof fn lemma_found_first(s: Seq<RestingOrderV2>, id: u64, i: int)
    requires
        0 <= i <= s.len(),
    ensures
        ({
            let r = find_from(s, id, i);
            &&& i <= r <= s.len()
            &&& r < s.len() ==> s[r].order_id == id
            &&& forall|k: int| i <= k < r ==> (#[trigger] s[k]).order_id != id
        }),
    decreases s.len() - i,
{
    if i < s.len() && s[i].order_id != id {
        lemma_found_first(s, id, i + 1);
    }
}

/// A trader cancels an order of its own by its id, and exactly that order leaves the
/// book. Nobody cancels another's order, and an id that is not there is refused.
pub proof fn law_cancel_removes_one_own_order(
    market_key: Pubkey,
    book: &mut MarketBook,
    trader: Pubkey,
    side: u8,
    order_id: u64,
    r: Result<OrderCancelledV2Event, FlashBookError>,
)
    requires
        old(book)@.wf(),
        call_ensures(cancel_order_v2, (market_key, book, trader, side, order_id), r),
    ensures
        r is Err ==> *final(book) == *old(book),
        r matches Ok(e) ==> side <= 1 && old(book).market_pubkey == market_key && exists|k: int|
            #[trigger] leaves(old(book)@, final(book)@, side, k) && ({
                let o = if side == 0 {
                    old(book).bids@[k]
                } else {
                    old(book).asks@[k]
                };
                o.order_id == order_id && o.trader == trader && e.order_seq == o.seq
            }),
        r matches Ok(e) ==> e.market == market_key && e.trader == trader && e.side == side,
        side <= 1 && old(book).market_pubkey == market_key && r is Err ==> forall|k: int|
            side == 0 && 0 <= k < old(book).bids@.len() ==> (#[trigger] old(book).bids@[k]).order_id
                != order_id || exists|j: int|
                0 <= j <= k && (#[trigger] old(book).bids@[j]).order_id == order_id && old(book).bids@[j].trader != trader,
        side <= 1 && old(book).market_pubkey == market_key && r is Err ==> forall|k: int|
            side == 1 && 0 <= k < old(book).asks@.len() ==> (#[trigger] old(book).asks@[k]).order_id
                != order_id || exists|j: int|
                0 <= j <= k && (#[trigger] old(book).asks@[j]).order_id == order_id && old(book).asks@[j].trader != trader,
{
    let b = old(book)@;
    let bid = side == 0;
    let s = b.side(bid);
    lemma_found_first(s, order_id, 0);
    let k = find_from(s, order_id, 0);
    if r is Ok {
        assert(final(book)@ == book_without(b, bid, order_id));
        assert(leaves(b, final(book)@, side, k));
    }
}

/// Cancelling all takes a trader's orders out of the book, at most two dozen at once,
/// and nobody else's; with fewer than that none of the trader's is left.
pub proof fn law_cancel_all_spares_others(
    market_key: Pubkey,
    book: &mut MarketBook,
    trader: Pubkey,
    r: Result<BulkOrderCancelledV2Event, FlashBookError>,
)
    requires
        old(book)@.wf(),
        call_ensures(cancel_all_v2, (market_key, book, trader), r),
    ensures
        r is Ok <==> old(book).market_pubkey == market_key,
        r is Err ==> *final(book) == *old(book),
        r matches Ok(e) ==> {
            let b = old(book)@;
            let c = final(book)@;
            &&& e.cancelled_count == b.bids.len() + b.asks.len() - c.bids.len() - c.asks.len()
            &&& e.cancelled_count <= 24
            &&& c.order_seq_counter == b.order_seq_counter && c.capacity == b.capacity
            &&& forall|k: int|
                0 <= k < b.bids.len() && (#[trigger] b.bids[k]).trader != trader
                    ==> c.bids.contains(b.bids[k])
            &&& forall|k: int|
                0 <= k < b.asks.len() && (#[trigger] b.asks[k]).trader != trader
                    ==> c.asks.contains(b.asks[k])
            &&& forall|k: int| 0 <= k < c.bids.len() ==> b.bids.contains(#[trigger] c.bids[k])
            &&& forall|k: int| 0 <= k < c.asks.len() ==> b.asks.contains(#[trigger] c.asks[k])
            &&& e.cancelled_count < 24 ==> forall|k: int|
                0 <= k < c.bids.len() ==> (#[trigger] c.bids[k]).trader != trader
            &&& e.cancelled_count < 24 ==> forall|k: int|
                0 <= k < c.asks.len() ==> (#[trigger] c.asks[k]).trader != trader
        },
{
    let b = old(book)@;
    if r is Ok {
        let budget = MAX_CANCELS_PER_IX_V2 as nat;
        let bids = without_trader(b.bids, trader, 0, budget);
        lemma_without_trader(true, b.bids, trader, 0, budget, b.order_seq_counter);
        lemma_kept_orders(b.bids, trader, 0, budget);
        let left = (MAX_CANCELS_PER_IX_V2 - (b.bids.len() - bids.len())) as nat;
        let asks = without_trader(b.asks, trader, 0, left);
        lemma_without_trader(false, b.asks, trader, 0, left, b.order_seq_counter);
        lemma_kept_orders(b.asks, trader, 0, left);
        if r->Ok_0.cancelled_count < 24 {
            law_bulk_cancel_is_complete(b.bids, trader, 0, budget);
            law_bulk_cancel_is_complete(b.asks, trader, 0, left);
        }
    }
}

/// Dropping a trader's orders keeps the others and makes up none.
pub proof fn lemma_kept_orders(s: Seq<RestingOrderV2>, trader: Pubkey, i: int, budget: nat)
    requires
        0 <= i <= s.len(),
    ensures
        ({
            let l = without_trader(s, trader, i, budget);
            &&& forall|k: int|
                i <= k < s.len() && (#[trigger] s[k]).trader != trader ==> l.contains(s[k])
            &&& forall|k: int| 0 <= k < l.len() ==> s.contains(#[trigger] l[k])
        }),
    decreases s.len() - i,
{
    if i < s.len() {
        if budget > 0 && s[i].trader == trader {
            lemma_kept_orders(s, trader, i + 1, (budget - 1) as nat);
            assert(without_trader(s, trader, i, budget) == without_trader(
                s,
                trader,
                i + 1,
                (budget - 1) as nat,
            ));
        } else {
            lemma_kept_orders(s, trader, i + 1, budget);
            let rest = without_trader(s, trader, i + 1, budget);
            lemma_in_front(s[i], rest);
            let l = without_trader(s, trader, i, budget);
            assert(l == seq![s[i]] + rest);
            assert(s.contains(s[i]));
            assert forall|k: int| 0 <= k < l.len() implies s.contains(#[trigger] l[k]) by {
                if k > 0 {
                    assert(l[k] == rest[k - 1]);
                } else {
                    assert(l[k] == s[i]);
                }
            }
            assert forall|k: int| i <= k < s.len() && (#[trigger] s[k]).trader != trader implies
                l.contains(s[k]) by {
                if k > i {
                    assert(rest.contains(s[k]));
                }
            }
        }
    }
}

/// Changing an order replaces a trader's own order by a new one on the same side, with
/// what is asked for now, behind all that are as good, and in the same sub-account.
pub proof fn law_modify_replaces_one_own_order(
    market_key: Pubkey,
    m: &MarketAccount,
    book: &mut MarketBook,
    trader: Pubkey,
    old_order_id: u64,
    q: OrderRequest,
    new_order_id: u64,
    now_slot: u64,
    r: Result<OrderModifiedV2Event, FlashBookError>,
)
    requires
        m.params.tick_size > 0,
        old(book)@.wf(),
        call_ensures(
            modify_order_v2,
            (market_key, m, book, trader, old_order_id, q, new_order_id, now_slot),
            r,
        ),
    ensures
        r is Err ==> *final(book) == *old(book),
        r matches Ok(e) ==> {
            let b = old(book)@;
            &&& well_put(*m, q, now_slot) && (m.status == 1 || m.status == 2) && b.market_pubkey
                == market_key
            &&& e.market == market_key && e.trader == trader && e.side == q.side
                && e.new_price_ticks == q.limit_ticks && e.new_size_lots == q.size_lots && e.new_seq
                == b.order_seq_counter + 1
            &&& exists|k: int, mid: BookModel| #[trigger]
                leaves(b, mid, q.side, k) && ({
                    let was = if q.side == 0 {
                        b.bids[k]
                    } else {
                        b.asks[k]
                    };
                    was.order_id == old_order_id && was.trader == trader && was.seq == e.old_seq
                        && joins(
                        mid,
                        final(book)@,
                        asked_for(
                            OrderRequest { sub_index: was.sub_index, ..q },
                            trader,
                            e.new_seq,
                            new_order_id,
                            q.size_lots,
                            now_slot,
                        ),
                    )
                })
        },
{
    let b = old(book)@;
    let bid = q.side == 0;
    let s = b.side(bid);
    lemma_found_first(s, old_order_id, 0);
    if r is Ok {
        let k = find_from(s, old_order_id, 0);
        let was = s[k];
        let mid = book_without(b, bid, old_order_id);
        law_removal_keeps_priority(b, bid, k);
        let seq = (b.order_seq_counter + 1) as u64;
        let o = order_of_request(
            OrderRequest { sub_index: was.sub_index, ..q },
            trader,
            seq,
            new_order_id,
            now_slot,
        );
        assert(leaves(b, mid, q.side, k));
        assert(s.remove(k).len() == s.len() - 1);
        lemma_joins(mid, o);
        assert(asked_for(
            OrderRequest { sub_index: was.sub_index, ..q },
            trader,
            seq,
            new_order_id,
            q.size_lots,
            now_slot,
        ) == o);
    }
}

/// The view of a book shows the first orders of each side, up to four, as they stand.
pub proof fn law_depth_shows_the_front(
    market_key: Pubkey,
    book: &MarketBook,
    r: Result<BookDepthV2Event, FlashBookError>,
)
    requires
        book@.wf(),
        call_ensures(view_book_depth_v2, (market_key, book), r),
    ensures
        r is Ok <==> book.market_pubkey == market_key,
        r matches Ok(e) ==> {
            &&& e.bids@.len() == (if book.bids@.len() < 4 {
                book.bids@.len() as int
            } else {
                4
            })
            &&& e.asks@.len() == (if book.asks@.len() < 4 {
                book.asks@.len() as int
            } else {
                4
            })
            &&& forall|k: int|
                0 <= k < e.bids@.len() ==> (#[trigger] e.bids@[k]).price_ticks
                    == book.bids@[k].price_ticks && e.bids@[k].size_lots == book.bids@[k].size_lots
                    && e.bids@[k].seq == book.bids@[k].seq && e.bids@[k].trader
                    == book.bids@[k].trader
            &&& forall|k: int|
                0 <= k < e.asks@.len() ==> (#[trigger] e.asks@[k]).price_ticks
                    == book.asks@[k].price_ticks && e.asks@[k].size_lots == book.asks@[k].size_lots
                    && e.asks@[k].seq == book.asks@[k].seq && e.asks@[k].trader
                    == book.asks@[k].trader
            &&& book.bids@.len() + book.asks@.len() <= u32::MAX ==> e.total_orders_active
                == book.bids@.len() + book.asks@.len()
        },
{
}

/// A taker that was not asked to give up does not.
pub proof fn lemma_never_gives_up(
    t: Taker,
    s: Seq<RestingOrderV2>,
    i: int,
    remaining: u64,
    done: nat,
)
    requires
        0 <= i <= s.len(),
        t.self_trade != SelfTradeMode::CancelBoth,
    ensures
        !walk_from(t, s, i, remaining, done).aborted,
    decreases s.len() - i,
{
    if i < s.len() {
        lemma_never_gives_up(t, s, i + 1, remaining, done);
        let size = min_int(s[i].size_lots as int, remaining as int) as u64;
        lemma_never_gives_up(t, s, i + 1, (remaining - size) as u64, done + 1);
    }
}

} // verus!
