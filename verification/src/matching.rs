//! How a taker consumes the other side of the book.
use vstd::prelude::*;

use crate::book::{RestingOrderV2, ranks_before, side_proper, side_sorted};
use crate::constants::MAX_BATCH_ORDERS_PER_SIDE_V2;
use crate::events::FillEntry;
use crate::keys::Pubkey;
use crate::math::{min_int, min_u64};

verus! {

/// What a taker does about its own resting orders.
#[derive(Clone, Copy, Debug, PartialEq, Eq, Structural)]
pub enum SelfTradeMode {
    /// Pass over them.
    Skip,
    /// Cancel them and go on.
    CancelOldest,
    /// Give the whole order up.
    CancelBoth,
}

/// The part of a taker's order that decides what it trades against.
#[derive(Clone, Copy, Debug, PartialEq, Eq, Structural)]
pub struct Taker {
    /// A buyer walks the asks, a seller the bids.
    pub buys: bool,
    pub limit_ticks: u64,
    pub trader: Pubkey,
    pub self_trade: SelfTradeMode,
    pub now_slot: u64,
}

/// What a walk leaves behind.
#[verifier::ext_equal]
pub struct WalkModel {
    /// The trades, best price first.
    pub fills: Seq<FillEntry>,
    /// The walked side afterwards.
    pub left: Seq<RestingOrderV2>,
    /// What the taker still wants.
    pub remaining: u64,
    /// The taker met its own order and gives up.
    pub aborted: bool,
}

/// Whether an order's price is within the taker's limit.
pub open spec fn crosses(t: Taker, o: RestingOrderV2) -> bool {
    if t.buys {
        o.price_ticks <= t.limit_ticks
    } else {
        o.price_ticks >= t.limit_ticks
    }
}

/// Whether an order has run out.
pub open spec fn expired(t: Taker, o: RestingOrderV2) -> bool {
    o.expires_at_slot > 0 && t.now_slot > o.expires_at_slot
}

/// Whether the taker can trade against an order: it crosses, is live, and is
/// somebody else's.
pub open spec fn tradable(t: Taker, o: RestingOrderV2) -> bool {
    crosses(t, o) && !expired(t, o) && o.trader != t.trader
}

/// The trade of `size` lots against an order.
pub open spec fn fill_against(o: RestingOrderV2, size: u64) -> FillEntry {
    FillEntry {
        maker: o.trader,
        size_lots: size,
        price_ticks: o.price_ticks,
        maker_id: o.order_id,
        maker_sub_index: o.sub_index,
    }
}

/// The walk from position `i` with `remaining` lots to go and `done` trades made.
/// It ends at the trade limit, when nothing is left to fill, or at the first
/// order beyond the price limit. Live orders of others are filled in turn; the
/// last one may keep a rest.
pub open spec fn walk_from(
    t: Taker,
    s: Seq<RestingOrderV2>,
    i: int,
    remaining: u64,
    done: nat,
) -> WalkModel
    decreases s.len() - i,
{
    if i >= s.len() || done >= MAX_BATCH_ORDERS_PER_SIDE_V2 || remaining == 0 || !crosses(t, s[i]) {
        WalkModel { fills: Seq::empty(), left: s.skip(i), remaining, aborted: false }
    } else if expired(t, s[i]) {
        let w = walk_from(t, s, i + 1, remaining, done);
        WalkModel { left: seq![s[i]] + w.left, ..w }
    } else if s[i].trader == t.trader {
        match t.self_trade {
            SelfTradeMode::Skip => {
                let w = walk_from(t, s, i + 1, remaining, done);
                WalkModel { left: seq![s[i]] + w.left, ..w }
            },
            SelfTradeMode::CancelOldest => walk_from(t, s, i + 1, remaining, done),
            SelfTradeMode::CancelBoth => WalkModel {
                fills: Seq::empty(),
                left: s.skip(i),
                remaining,
                aborted: true,
            },
        }
    } else {
        let size = min_int(s[i].size_lots as int, remaining as int) as u64;
        let w = walk_from(t, s, i + 1, (remaining - size) as u64, done + 1);
        WalkModel {
            fills: seq![fill_against(s[i], size)] + w.fills,
            left: if size == s[i].size_lots {
                w.left
            } else {
                seq![
                    RestingOrderV2 { size_lots: (s[i].size_lots - size) as u64, ..s[i] },
                ] + w.left
            },
            ..w
        }
    }
}

/// The whole walk.
pub open spec fn walk(t: Taker, s: Seq<RestingOrderV2>, size: u64) -> WalkModel {
    walk_from(t, s, 0, size, 0)
}

/// The outcome of a walk.
#[derive(Debug)]
pub struct Walk {
    pub fills: Vec<FillEntry>,
    pub left: Vec<RestingOrderV2>,
    pub remaining: u64,
    pub aborted: bool,
}

impl View for Walk {
    type V = WalkModel;

    open spec fn view(&self) -> WalkModel {
        WalkModel {
            fills: self.fills@,
            left: self.left@,
            remaining: self.remaining,
            aborted: self.aborted,
        }
    }
}

/// Walks one side of the book for a taker.
pub fn walk_side(t: Taker, s: &Vec<RestingOrderV2>, size: u64) -> (r: Walk)
    ensures
        r@ == walk(t, s@, size),
{
    let mut fills: Vec<FillEntry> = Vec::new();
    let mut left: Vec<RestingOrderV2> = Vec::new();
    let mut remaining: u64 = size;
    let mut i: usize = 0;
    let mut aborted: bool = false;
    let ghost total = walk(t, s@, size);
    loop
        invariant_except_break
            !aborted,
            i <= s@.len(),
            ({
                let w = walk_from(t, s@, i as int, remaining, fills@.len());
                &&& total.fills == fills@ + w.fills
                &&& total.left == left@ + w.left
                &&& total.remaining == w.remaining
                &&& total.aborted == w.aborted
            }),
        ensures
            i <= s@.len(),
            total.fills == fills@,
            total.left == left@ + s@.skip(i as int),
            total.remaining == remaining,
            total.aborted == aborted,
        decreases s@.len() - i,
    {
        if i >= s.len() || fills.len() >= MAX_BATCH_ORDERS_PER_SIDE_V2 || remaining == 0 {
            assert(fills@ + Seq::<FillEntry>::empty() =~= fills@);
            break;
        }
        let o: RestingOrderV2 = s[i];
        let within: bool = if t.buys {
            o.price_ticks <= t.limit_ticks
        } else {
            o.price_ticks >= t.limit_ticks
        };
        if !within {
            assert(fills@ + Seq::<FillEntry>::empty() =~= fills@);
            break;
        }
        let ghost w = walk_from(t, s@, i + 1, remaining, fills@.len());
        if o.expires_at_slot > 0 && t.now_slot > o.expires_at_slot {
            assert(left@ + (seq![o] + w.left) =~= left@.push(o) + w.left);
            left.push(o);
            i = i + 1;
            continue;
        }
        if o.trader == t.trader {
            match t.self_trade {
                SelfTradeMode::Skip => {
                    assert(left@ + (seq![o] + w.left) =~= left@.push(o) + w.left);
                    left.push(o);
                    i = i + 1;
                    continue;
                },
                SelfTradeMode::CancelOldest => {
                    i = i + 1;
                    continue;
                },
                SelfTradeMode::CancelBoth => {
                    assert(fills@ + Seq::<FillEntry>::empty() =~= fills@);
                    aborted = true;
                    break;
                },
            }
        }
        let fill: u64 = min_u64(o.size_lots, remaining);
        let entry = FillEntry {
            maker: o.trader,
            size_lots: fill,
            price_ticks: o.price_ticks,
            maker_id: o.order_id,
            maker_sub_index: o.sub_index,
        };
        let ghost w1 = walk_from(t, s@, i + 1, (remaining - fill) as u64, fills@.len() + 1);
        assert(fills@ + (seq![entry] + w1.fills) =~= fills@.push(entry) + w1.fills);
        if fill < o.size_lots {
            let rest = RestingOrderV2 { size_lots: o.size_lots - fill, ..o };
            assert(left@ + (seq![rest] + w1.left) =~= left@.push(rest) + w1.left);
            left.push(rest);
        }
        fills.push(entry);
        remaining = remaining - fill;
        i = i + 1;
    }
    let ghost stopped = i as int;
    let ghost before = left@;
    while i < s.len()
        invariant
            0 <= stopped <= i <= s@.len(),
            left@ == before + s@.subrange(stopped, i as int),
        decreases s@.len() - i,
    {
        assert(s@.subrange(stopped, i as int).push(s@[i as int]) =~= s@.subrange(stopped, i + 1));
        left.push(s[i]);
        i = i + 1;
    }
    assert(s@.subrange(stopped, s@.len() as int) =~= s@.skip(stopped));
    Walk { fills, left, remaining, aborted }
}

/// All lots of a list of trades.
pub open spec fn filled_lots(fills: Seq<FillEntry>) -> int
    decreases fills.len(),
{
    if fills.len() == 0 {
        0
    } else {
        fills[0].size_lots + filled_lots(fills.skip(1))
    }
}

/// All lots that rest on a side.
pub open spec fn resting_lots(s: Seq<RestingOrderV2>) -> int
    decreases s.len(),
{
    if s.len() == 0 {
        0
    } else {
        s[0].size_lots + resting_lots(s.skip(1))
    }
}

/// Lots of a list with one more entry in front.
pub proof fn lemma_filled_cons(f: FillEntry, fills: Seq<FillEntry>)
    ensures
        filled_lots(seq![f] + fills) == f.size_lots + filled_lots(fills),
{
    assert((seq![f] + fills).skip(1) =~= fills);
}

/// Lots of a side with one more order in front.
pub proof fn lemma_resting_cons(o: RestingOrderV2, s: Seq<RestingOrderV2>)
    ensures
        resting_lots(seq![o] + s) == o.size_lots + resting_lots(s),
{
    assert((seq![o] + s).skip(1) =~= s);
}

/// A taker gets what it trades and keeps the rest: filled and remaining lots add
/// up to what it asked for.
pub proof fn law_walk_accounts_for_every_lot(t: Taker, s: Seq<RestingOrderV2>, size: u64)
    ensures
        filled_lots(walk(t, s, size).fills) + walk(t, s, size).remaining == size,
{
    lemma_walk_accounts(t, s, 0, size, 0);
}

/// The same from any position of the walk.
pub proof fn lemma_walk_accounts(
    t: Taker,
    s: Seq<RestingOrderV2>,
    i: int,
    remaining: u64,
    done: nat,
)
    requires
        0 <= i,
    ensures
        ({
            let w = walk_from(t, s, i, remaining, done);
            filled_lots(w.fills) + w.remaining == remaining
        }),
    decreases s.len() - i,
{
    if i >= s.len() || done >= MAX_BATCH_ORDERS_PER_SIDE_V2 || remaining == 0 || !crosses(t, s[i]) {
    } else if expired(t, s[i]) {
        lemma_walk_accounts(t, s, i + 1, remaining, done);
    } else if s[i].trader == t.trader {
        lemma_walk_accounts(t, s, i + 1, remaining, done);
    } else {
        let size = min_int(s[i].size_lots as int, remaining as int) as u64;
        lemma_walk_accounts(t, s, i + 1, (remaining - size) as u64, done + 1);
        lemma_filled_cons(
            fill_against(s[i], size),
            walk_from(t, s, i + 1, (remaining - size) as u64, done + 1).fills,
        );
    }
}

/// Every trade of a walk is with somebody else, at a price within the limit.
pub proof fn law_fills_respect_limit(t: Taker, s: Seq<RestingOrderV2>, size: u64)
    ensures
        forall|k: int|
            0 <= k < walk(t, s, size).fills.len() ==> fill_admissible(
                t,
                #[trigger] walk(t, s, size).fills[k],
            ),
{
    lemma_fills_admissible(t, s, 0, size, 0);
}

/// A trade that the taker agreed to.
pub open spec fn fill_admissible(t: Taker, f: FillEntry) -> bool {
    f.maker != t.trader && if t.buys {
        f.price_ticks <= t.limit_ticks
    } else {
        f.price_ticks >= t.limit_ticks
    }
}

/// The same from any position of the walk.
pub proof fn lemma_fills_admissible(
    t: Taker,
    s: Seq<RestingOrderV2>,
    i: int,
    remaining: u64,
    done: nat,
)
    requires
        0 <= i,
    ensures
        ({
            let w = walk_from(t, s, i, remaining, done);
            forall|k: int| 0 <= k < w.fills.len() ==> fill_admissible(t, #[trigger] w.fills[k])
        }),
    decreases s.len() - i,
{
    if i >= s.len() || done >= MAX_BATCH_ORDERS_PER_SIDE_V2 || remaining == 0 || !crosses(t, s[i]) {
        assert(walk_from(t, s, i, remaining, done).fills.len() == 0);
    } else if expired(t, s[i]) {
        lemma_fills_admissible(t, s, i + 1, remaining, done);
        assert(walk_from(t, s, i, remaining, done).fills == walk_from(
            t,
            s,
            i + 1,
            remaining,
            done,
        ).fills);
    } else if s[i].trader == t.trader {
        if t.self_trade != SelfTradeMode::CancelBoth {
            lemma_fills_admissible(t, s, i + 1, remaining, done);
            assert(walk_from(t, s, i, remaining, done).fills == walk_from(
                t,
                s,
                i + 1,
                remaining,
                done,
            ).fills);
        }
    } else {
        let size = min_int(s[i].size_lots as int, remaining as int) as u64;
        lemma_fills_admissible(t, s, i + 1, (remaining - size) as u64, done + 1);
        let w1 = walk_from(t, s, i + 1, (remaining - size) as u64, done + 1);
        let f = fill_against(s[i], size);
        let w = walk_from(t, s, i, remaining, done);
        assert(w.fills == seq![f] + w1.fills);
        assert forall|k: int| 0 <= k < w.fills.len() implies fill_admissible(
            t,
            #[trigger] w.fills[k],
        ) by {
            if k > 0 {
                assert(w.fills[k] == w1.fills[k - 1]);
            }
        }
    }
}

/// Price `a` is at least as good for the taker as price `b`.
pub open spec fn no_worse(t: Taker, a: u64, b: u64) -> bool {
    if t.buys {
        a <= b
    } else {
        a >= b
    }
}

/// A taker trades at the best prices first: no trade is at a better price than an
/// earlier one.
pub proof fn law_fills_come_best_price_first(t: Taker, s: Seq<RestingOrderV2>, size: u64)
    requires
        side_sorted(!t.buys, s),
    ensures
        forall|k: int, l: int|
            0 <= k < l < walk(t, s, size).fills.len() ==> no_worse(
                t,
                (#[trigger] walk(t, s, size).fills[k]).price_ticks,
                (#[trigger] walk(t, s, size).fills[l]).price_ticks,
            ),
{
    lemma_fills_ordered(t, s, 0, size, 0);
}

/// The same from any position, and no trade is better than the order there.
pub proof fn lemma_fills_ordered(
    t: Taker,
    s: Seq<RestingOrderV2>,
    i: int,
    remaining: u64,
    done: nat,
)
    requires
        0 <= i,
        side_sorted(!t.buys, s),
    ensures
        ({
            let w = walk_from(t, s, i, remaining, done);
            &&& forall|k: int, l: int|
                0 <= k < l < w.fills.len() ==> no_worse(
                    t,
                    (#[trigger] w.fills[k]).price_ticks,
                    (#[trigger] w.fills[l]).price_ticks,
                )
            &&& forall|h: int, k: int|
                0 <= h <= i && h < s.len() && 0 <= k < w.fills.len() ==> no_worse(
                    t,
                    (#[trigger] s[h]).price_ticks,
                    (#[trigger] w.fills[k]).price_ticks,
                )
        }),
    decreases s.len() - i,
{
    if i >= s.len() || done >= MAX_BATCH_ORDERS_PER_SIDE_V2 || remaining == 0 || !crosses(t, s[i]) {
    } else if expired(t, s[i]) {
        lemma_fills_ordered(t, s, i + 1, remaining, done);
        lemma_front_no_worse(t, s, i, walk_from(t, s, i + 1, remaining, done).fills);
    } else if s[i].trader == t.trader {
        lemma_fills_ordered(t, s, i + 1, remaining, done);
        lemma_front_no_worse(t, s, i, walk_from(t, s, i + 1, remaining, done).fills);
    } else {
        let size = min_int(s[i].size_lots as int, remaining as int) as u64;
        lemma_fills_ordered(t, s, i + 1, (remaining - size) as u64, done + 1);
        let w1 = walk_from(t, s, i + 1, (remaining - size) as u64, done + 1);
        lemma_front_no_worse(t, s, i, w1.fills);
        let f = fill_against(s[i], size);
        let fills = seq![f] + w1.fills;
        assert forall|k: int| 0 < k < fills.len() implies (#[trigger] fills[k]) == w1.fills[k
            - 1] by {}
        assert forall|k: int, l: int| 0 <= k < l < fills.len() implies no_worse(
            t,
            (#[trigger] fills[k]).price_ticks,
            (#[trigger] fills[l]).price_ticks,
        ) by {
            if k == 0 {
                assert(no_worse(t, s[i].price_ticks, w1.fills[l - 1].price_ticks));
            }
        }
        assert forall|h: int, k: int| 0 <= h <= i && 0 <= k < fills.len() implies no_worse(
            t,
            (#[trigger] s[h]).price_ticks,
            (#[trigger] fills[k]).price_ticks,
        ) by {
            if h < i {
                assert(ranks_before(!t.buys, s[h], s[i]));
            }
        }
    }
}

/// What trades behind position `i + 1` is no better than anything up to `i`.
pub proof fn lemma_front_no_worse(
    t: Taker,
    s: Seq<RestingOrderV2>,
    i: int,
    fills: Seq<FillEntry>,
)
    requires
        0 <= i < s.len(),
        side_sorted(!t.buys, s),
        i + 1 < s.len() || fills.len() == 0,
        forall|h: int, k: int|
            0 <= h <= i + 1 && h < s.len() && 0 <= k < fills.len() ==> no_worse(
                t,
                (#[trigger] s[h]).price_ticks,
                (#[trigger] fills[k]).price_ticks,
            ),
    ensures
        forall|h: int, k: int|
            0 <= h <= i && 0 <= k < fills.len() ==> no_worse(
                t,
                (#[trigger] s[h]).price_ticks,
                (#[trigger] fills[k]).price_ticks,
            ),
{
}

/// An order of the walked side is one of the old orders, possibly smaller.
pub open spec fn shrunk_from(a: RestingOrderV2, b: RestingOrderV2) -> bool {
    a == (RestingOrderV2 { size_lots: a.size_lots, ..b }) && 0 < a.size_lots <= b.size_lots
}

/// What a walk leaves is a thinned-out and shrunk copy of what was there, hence
/// still in price-time priority and properly numbered.
pub proof fn law_walk_keeps_priority(t: Taker, s: Seq<RestingOrderV2>, size: u64, counter: u64)
    requires
        side_sorted(!t.buys, s),
        side_proper(!t.buys, s, counter),
    ensures
        side_sorted(!t.buys, walk(t, s, size).left),
        side_proper(!t.buys, walk(t, s, size).left, counter),
        walk(t, s, size).left.len() <= s.len(),
{
    lemma_walk_left(t, s, 0, size, 0, counter);
}

/// The same from any position, and everything left comes from there on.
pub proof fn lemma_walk_left(
    t: Taker,
    s: Seq<RestingOrderV2>,
    i: int,
    remaining: u64,
    done: nat,
    counter: u64,
)
    requires
        0 <= i <= s.len(),
        side_sorted(!t.buys, s),
        side_proper(!t.buys, s, counter),
    ensures
        ({
            let w = walk_from(t, s, i, remaining, done);
            &&& side_sorted(!t.buys, w.left)
            &&& side_proper(!t.buys, w.left, counter)
            &&& w.left.len() <= s.len() - i
            &&& forall|h: int, k: int|
                0 <= h < i && 0 <= k < w.left.len() ==> ranks_before(
                    !t.buys,
                    #[trigger] s[h],
                    #[trigger] w.left[k],
                )
        }),
    decreases s.len() - i,
{
    let bid = !t.buys;
    if i >= s.len() || done >= MAX_BATCH_ORDERS_PER_SIDE_V2 || remaining == 0 || !crosses(t, s[i])
        || (!expired(t, s[i]) && s[i].trader == t.trader && t.self_trade
        == SelfTradeMode::CancelBoth) {
        let left = s.skip(i);
        assert forall|k: int| 0 <= k < left.len() implies (#[trigger] left[k]) == s[i + k] by {}
        assert forall|k: int, l: int| 0 <= k < l < left.len() implies ranks_before(
            bid,
            #[trigger] left[k],
            #[trigger] left[l],
        ) by {}
    } else if expired(t, s[i]) || (s[i].trader == t.trader && t.self_trade == SelfTradeMode::Skip) {
        lemma_walk_left(t, s, i + 1, remaining, done, counter);
        lemma_left_cons(bid, s, i, s[i], walk_from(t, s, i + 1, remaining, done).left, counter);
    } else if s[i].trader == t.trader {
        lemma_walk_left(t, s, i + 1, remaining, done, counter);
    } else {
        let size = min_int(s[i].size_lots as int, remaining as int) as u64;
        lemma_walk_left(t, s, i + 1, (remaining - size) as u64, done + 1, counter);
        let w1 = walk_from(t, s, i + 1, (remaining - size) as u64, done + 1);
        if size != s[i].size_lots {
            let o = RestingOrderV2 { size_lots: (s[i].size_lots - size) as u64, ..s[i] };
            lemma_left_cons(bid, s, i, o, w1.left, counter);
        }
    }
}

/// Putting a possibly smaller copy of an order in front of what is left behind it
/// keeps the side in order.
pub proof fn lemma_left_cons(
    bid: bool,
    s: Seq<RestingOrderV2>,
    i: int,
    o: RestingOrderV2,
    left: Seq<RestingOrderV2>,
    counter: u64,
)
    requires
        0 <= i < s.len(),
        side_sorted(bid, s),
        side_proper(bid, s, counter),
        shrunk_from(o, s[i]),
        side_sorted(bid, left),
        side_proper(bid, left, counter),
        left.len() <= s.len() - (i + 1),
        forall|h: int, k: int|
            0 <= h < i + 1 && 0 <= k < left.len() ==> ranks_before(
                bid,
                #[trigger] s[h],
                #[trigger] left[k],
            ),
    ensures
        ({
            let l2 = seq![o] + left;
            &&& side_sorted(bid, l2)
            &&& side_proper(bid, l2, counter)
            &&& l2.len() <= s.len() - i
            &&& forall|h: int, k: int|
                0 <= h < i && 0 <= k < l2.len() ==> ranks_before(
                    bid,
                    #[trigger] s[h],
                    #[trigger] l2[k],
                )
        }),
{
    let l2 = seq![o] + left;
    assert forall|k: int| 0 <= k < l2.len() implies (#[trigger] l2[k]) == if k == 0 {
        o
    } else {
        left[k - 1]
    } by {}
    assert forall|k: int, l: int| 0 <= k < l < l2.len() implies ranks_before(
        bid,
        #[trigger] l2[k],
        #[trigger] l2[l],
    ) by {
        if k == 0 {
            assert(ranks_before(bid, s[i], left[l - 1]));
        }
    }
    assert forall|h: int, k: int| 0 <= h < i && 0 <= k < l2.len() implies ranks_before(
        bid,
        #[trigger] s[h],
        #[trigger] l2[k],
    ) by {
        assert(ranks_before(bid, s[h], s[i]));
    }
}

/// A taker stops only for a reason: if lots remain and the trade limit was not
/// reached, nothing it could have traded against is left.
pub proof fn law_walk_is_exhaustive(t: Taker, s: Seq<RestingOrderV2>, size: u64)
    requires
        side_sorted(!t.buys, s),
        walk(t, s, size).remaining > 0,
        !walk(t, s, size).aborted,
        walk(t, s, size).fills.len() < MAX_BATCH_ORDERS_PER_SIDE_V2,
    ensures
        forall|k: int|
            0 <= k < walk(t, s, size).left.len() ==> !tradable(
                t,
                #[trigger] walk(t, s, size).left[k],
            ),
{
    lemma_walk_exhaustive(t, s, 0, size, 0);
}

/// The same from any position of the walk.
pub proof fn lemma_walk_exhaustive(
    t: Taker,
    s: Seq<RestingOrderV2>,
    i: int,
    remaining: u64,
    done: nat,
)
    requires
        0 <= i <= s.len(),
        side_sorted(!t.buys, s),
        ({
            let w = walk_from(t, s, i, remaining, done);
            w.remaining > 0 && !w.aborted && done + w.fills.len() < MAX_BATCH_ORDERS_PER_SIDE_V2
        }),
    ensures
        ({
            let w = walk_from(t, s, i, remaining, done);
            forall|k: int| 0 <= k < w.left.len() ==> !tradable(t, #[trigger] w.left[k])
        }),
    decreases s.len() - i,
{
    let w = walk_from(t, s, i, remaining, done);
    if i >= s.len() || !crosses(t, s[i]) {
        assert forall|k: int| 0 <= k < w.left.len() implies !tradable(t, #[trigger] w.left[k]) by {
            assert(w.left[k] == s[i + k]);
            if k > 0 {
                assert(ranks_before(!t.buys, s[i], s[i + k]));
            }
        }
    } else if expired(t, s[i]) || (s[i].trader == t.trader && t.self_trade == SelfTradeMode::Skip) {
        let w1 = walk_from(t, s, i + 1, remaining, done);
        lemma_walk_exhaustive(t, s, i + 1, remaining, done);
        assert forall|k: int| 0 <= k < w.left.len() implies !tradable(t, #[trigger] w.left[k]) by {
            if k > 0 {
                assert(w.left[k] == w1.left[k - 1]);
            }
        }
    } else if s[i].trader == t.trader {
        lemma_walk_exhaustive(t, s, i + 1, remaining, done);
        assert(w == walk_from(t, s, i + 1, remaining, done));
    } else {
        let size = min_int(s[i].size_lots as int, remaining as int) as u64;
        lemma_walk_accounts(t, s, i + 1, (remaining - size) as u64, done + 1);
        let w1 = walk_from(t, s, i + 1, (remaining - size) as u64, done + 1);
        lemma_filled_nonnegative(w1.fills);
        assert(size == s[i].size_lots);
        lemma_walk_exhaustive(t, s, i + 1, (remaining - size) as u64, done + 1);
        assert(w.left == w1.left);
    }
}

/// Trades have no negative size.
pub proof fn lemma_filled_nonnegative(fills: Seq<FillEntry>)
    ensures
        filled_lots(fills) >= 0,
    decreases fills.len(),
{
    if fills.len() > 0 {
        lemma_filled_nonnegative(fills.skip(1));
    }
}

/// Every lot that a taker is filled leaves the walked side, and unless it cancels
/// its own orders nothing else does.
pub proof fn law_walk_conserves_resting_lots(t: Taker, s: Seq<RestingOrderV2>, size: u64)
    ensures
        resting_lots(walk(t, s, size).left) + filled_lots(walk(t, s, size).fills) <= resting_lots(
            s,
        ),
        t.self_trade != SelfTradeMode::CancelOldest ==> resting_lots(walk(t, s, size).left)
            + filled_lots(walk(t, s, size).fills) == resting_lots(s),
{
    assert(s.skip(0) =~= s);
    lemma_walk_conserves(t, s, 0, size, 0);
}

/// The same from any position of the walk.
pub proof fn lemma_walk_conserves(
    t: Taker,
    s: Seq<RestingOrderV2>,
    i: int,
    remaining: u64,
    done: nat,
)
    requires
        0 <= i <= s.len(),
    ensures
        ({
            let w = walk_from(t, s, i, remaining, done);
            &&& resting_lots(w.left) + filled_lots(w.fills) <= resting_lots(s.skip(i))
            &&& t.self_trade != SelfTradeMode::CancelOldest ==> resting_lots(w.left) + filled_lots(
                w.fills,
            ) == resting_lots(s.skip(i))
        }),
    decreases s.len() - i,
{
    if i < s.len() {
        assert(s.skip(i) =~= seq![s[i]] + s.skip(i + 1));
        lemma_resting_cons(s[i], s.skip(i + 1));
    }
    if i >= s.len() || done >= MAX_BATCH_ORDERS_PER_SIDE_V2 || remaining == 0 || !crosses(t, s[i]) {
    } else if expired(t, s[i]) {
        lemma_walk_conserves(t, s, i + 1, remaining, done);
        lemma_resting_cons(s[i], walk_from(t, s, i + 1, remaining, done).left);
    } else if s[i].trader == t.trader {
        lemma_walk_conserves(t, s, i + 1, remaining, done);
        lemma_resting_cons(s[i], walk_from(t, s, i + 1, remaining, done).left);
    } else {
        let size = min_int(s[i].size_lots as int, remaining as int) as u64;
        lemma_walk_conserves(t, s, i + 1, (remaining - size) as u64, done + 1);
        let w1 = walk_from(t, s, i + 1, (remaining - size) as u64, done + 1);
        lemma_filled_cons(fill_against(s[i], size), w1.fills);
        lemma_resting_cons(
            RestingOrderV2 { size_lots: (s[i].size_lots - size) as u64, ..s[i] },
            w1.left,
        );
    }
}

} // verus!
