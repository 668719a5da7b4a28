//! The order book of one market: resting orders in price-time priority.
use vstd::prelude::*;

use crate::errors::FlashBookError;
use crate::keys::Pubkey;
use crate::math::{clamp_u64_to_u32, sat_u32};

verus! {

/// An order that rests in the book.
#[derive(Clone, Copy, Debug, PartialEq, Eq, Structural)]
pub struct RestingOrderV2 {
    pub order_id: u64,
    pub seq: u64,
    pub price_ticks: u64,
    pub size_lots: u64,
    /// 0 means never.
    pub expires_at_slot: u64,
    pub trader: Pubkey,
    pub last_valid_slot: u32,
    /// 0 is a bid, 1 an ask.
    pub side: u8,
    /// 0 limit, 1 taker, 2 pool quote, 3 liquidation, 4 deleveraging.
    pub order_type: u8,
    pub flags: u8,
    pub sub_index: u8,
}

/// What kind of order a type byte stands for.
#[derive(Clone, Copy, Debug, PartialEq, Eq, Structural)]
pub enum OrderType {
    Limit,
    Taker,
    FlpVirtual,
    Liquidation,
    Adl,
}

/// The kind of a type byte; an unknown byte counts as a plain limit order.
pub open spec fn order_type_of_byte(b: u8) -> OrderType {
    if b == 1 {
        OrderType::Taker
    } else if b == 2 {
        OrderType::FlpVirtual
    } else if b == 3 {
        OrderType::Liquidation
    } else if b == 4 {
        OrderType::Adl
    } else {
        OrderType::Limit
    }
}

/// Reads a type byte.
pub fn order_type_byte_to_matcher(b: u8) -> (r: OrderType)
    ensures
        r == order_type_of_byte(b),
{
    match b {
        0 => OrderType::Limit,
        1 => OrderType::Taker,
        2 => OrderType::FlpVirtual,
        3 => OrderType::Liquidation,
        4 => OrderType::Adl,
        _ => OrderType::Limit,
    }
}

/// The book. Each side is kept best order first.
#[derive(Debug)]
pub struct MarketBook {
    pub market_pubkey: Pubkey,
    pub order_seq_counter: u64,
    /// Orders that fit, both sides together.
    pub capacity: usize,
    pub bids: Vec<RestingOrderV2>,
    pub asks: Vec<RestingOrderV2>,
}

/// What a book holds.
#[verifier::ext_equal]
pub struct BookModel {
    pub market_pubkey: Pubkey,
    pub order_seq_counter: u64,
    pub capacity: nat,
    pub bids: Seq<RestingOrderV2>,
    pub asks: Seq<RestingOrderV2>,
}

impl View for MarketBook {
    type V = BookModel;

    open spec fn view(&self) -> BookModel {
        BookModel {
            market_pubkey: self.market_pubkey,
            order_seq_counter: self.order_seq_counter,
            capacity: self.capacity as nat,
            bids: self.bids@,
            asks: self.asks@,
        }
    }
}

/// Whether `a` trades before `b`: the better price first, then the earlier order.
pub open spec fn ranks_before(bid: bool, a: RestingOrderV2, b: RestingOrderV2) -> bool {
    if a.price_ticks == b.price_ticks {
        a.seq < b.seq
    } else if bid {
        a.price_ticks > b.price_ticks
    } else {
        a.price_ticks < b.price_ticks
    }
}

/// One side of a book is in price-time priority.
pub open spec fn side_sorted(bid: bool, s: Seq<RestingOrderV2>) -> bool {
    forall|i: int, j: int|
        0 <= i < j < s.len() ==> ranks_before(bid, #[trigger] s[i], #[trigger] s[j])
}

/// Every order of a side is on that side, has a size, and is numbered no higher
/// than the counter.
pub open spec fn side_proper(bid: bool, s: Seq<RestingOrderV2>, counter: u64) -> bool {
    forall|i: int|
        0 <= i < s.len() ==> (#[trigger] s[i]).seq <= counter && s[i].size_lots > 0 && s[i].side
            == if bid {
            0u8
        } else {
            1u8
        }
}

impl BookModel {
    /// A book that trades in price-time priority and does not exceed its space.
    pub open spec fn wf(self) -> bool {
        &&& side_sorted(true, self.bids)
        &&& side_sorted(false, self.asks)
        &&& side_proper(true, self.bids, self.order_seq_counter)
        &&& side_proper(false, self.asks, self.order_seq_counter)
        &&& self.bids.len() + self.asks.len() <= self.capacity
    }

    /// The orders of one side.
    pub open spec fn side(self, bid: bool) -> Seq<RestingOrderV2> {
        if bid {
            self.bids
        } else {
            self.asks
        }
    }

    /// The book with one side replaced.
    pub open spec fn with_side(self, bid: bool, s: Seq<RestingOrderV2>) -> BookModel {
        if bid {
            BookModel { bids: s, ..self }
        } else {
            BookModel { asks: s, ..self }
        }
    }

    /// How many orders rest in the book.
    pub open spec fn total(self) -> nat {
        self.bids.len() + self.asks.len()
    }
}

/// How many leading orders from `i` on trade before `o`.
pub open spec fn rank_from(bid: bool, s: Seq<RestingOrderV2>, o: RestingOrderV2, i: int) -> int
    decreases s.len() - i,
{
    if i >= s.len() || !ranks_before(bid, s[i], o) {
        i
    } else {
        rank_from(bid, s, o, i + 1)
    }
}

/// A side after an order has taken its place.
pub open spec fn side_inserted(bid: bool, s: Seq<RestingOrderV2>, o: RestingOrderV2) -> Seq<
    RestingOrderV2,
> {
    s.insert(rank_from(bid, s, o, 0), o)
}

/// A book after `o` was added on its side, or the refusal of a full book.
pub open spec fn book_rested(b: BookModel, o: RestingOrderV2) -> Result<BookModel, FlashBookError> {
    if b.total() >= b.capacity {
        Err(FlashBookError::BufferFull)
    } else {
        Ok(b.with_side(o.side == 0, side_inserted(o.side == 0, b.side(o.side == 0), o)))
    }
}

/// The book after a newly numbered order was rested in it.
pub open spec fn book_after_rest(b: BookModel, o: RestingOrderV2) -> BookModel {
    BookModel { order_seq_counter: o.seq, ..book_rested(b, o)->Ok_0 }
}

/// Why a book takes no further order, if it takes none. Sequence numbers from
/// `reserved` on are not given out.
pub open spec fn next_order_refusal(b: BookModel, reserved: u64) -> Option<FlashBookError> {
    if b.order_seq_counter == u64::MAX {
        Some(FlashBookError::ArithmeticOverflow)
    } else if b.order_seq_counter + 1 >= reserved {
        Some(FlashBookError::OutOfRange)
    } else if b.total() >= b.capacity {
        Some(FlashBookError::BufferFull)
    } else {
        None
    }
}

/// Position of the first order from `i` on with the given id, or the length.
pub open spec fn find_from(s: Seq<RestingOrderV2>, id: u64, i: int) -> int
    decreases s.len() - i,
{
    if i >= s.len() || s[i].order_id == id {
        i
    } else {
        find_from(s, id, i + 1)
    }
}

/// Position of the order with the given id, if there is one.
pub open spec fn find_order(s: Seq<RestingOrderV2>, id: u64) -> Option<int> {
    let i = find_from(s, id, 0);
    if i < s.len() {
        Some(i)
    } else {
        None
    }
}

/// Whether `a` trades before `b`.
pub fn trades_before(bid: bool, a: &RestingOrderV2, b: &RestingOrderV2) -> (r: bool)
    ensures
        r == ranks_before(bid, *a, *b),
{
    if a.price_ticks == b.price_ticks {
        a.seq < b.seq
    } else if bid {
        a.price_ticks > b.price_ticks
    } else {
        a.price_ticks < b.price_ticks
    }
}

/// Tests whether one side of a book is in priority and holds proper orders only.
pub fn check_side(bid: bool, s: &Vec<RestingOrderV2>, counter: u64) -> (r: bool)
    ensures
        r == (side_sorted(bid, s@) && side_proper(bid, s@, counter)),
{
    let side: u8 = if bid {
        0
    } else {
        1
    };
    let mut i: usize = 0;
    while i < s.len()
        invariant
            i <= s@.len(),
            side == if bid {
                0u8
            } else {
                1u8
            },
            side_sorted(bid, s@.take(i as int)),
            side_proper(bid, s@.take(i as int), counter),
        decreases s@.len() - i,
    {
        let o = s[i];
        if o.seq > counter || o.size_lots == 0 || o.side != side {
            assert(!side_proper(bid, s@, counter)) by {
                assert(s@[i as int] == o);
            }
            return false;
        }
        if i > 0 && !trades_before(bid, &s[i - 1], &o) {
            assert(!side_sorted(bid, s@)) by {
                assert(!ranks_before(bid, s@[i - 1], s@[i as int]));
            }
            return false;
        }
        proof {
            let t = s@.take(i as int);
            let u = s@.take(i + 1);
            assert forall|j: int, k: int| 0 <= j < k < u.len() implies ranks_before(
                bid,
                #[trigger] u[j],
                #[trigger] u[k],
            ) by {
                if k < i {
                    assert(ranks_before(bid, t[j], t[k]));
                } else if j < i - 1 {
                    assert(ranks_before(bid, t[j], t[i - 1]));
                }
            }
            assert forall|j: int| 0 <= j < u.len() implies (#[trigger] u[j]).seq <= counter
                && u[j].size_lots > 0 && u[j].side == side by {
                if j < i {
                    assert(t[j].seq <= counter);
                }
            }
        }
        i = i + 1;
    }
    assert(s@.take(i as int) =~= s@);
    true
}

/// Puts an order in its place on one side.
pub fn insert_sorted(bid: bool, s: &mut Vec<RestingOrderV2>, o: RestingOrderV2)
    ensures
        final(s)@ == side_inserted(bid, old(s)@, o),
        0 <= rank_from(bid, old(s)@, o, 0) <= old(s)@.len(),
{
    let mut i: usize = 0;
    while i < s.len() && trades_before(bid, &s[i], &o)
        invariant
            i <= s@.len(),
            s@ == old(s)@,
            rank_from(bid, s@, o, 0) == rank_from(bid, s@, o, i as int),
        decreases s@.len() - i,
    {
        i = i + 1;
    }
    s.insert(i, o);
}

/// Finds an order by its id.
pub fn lookup_by_order_id(s: &Vec<RestingOrderV2>, id: u64) -> (r: Option<usize>)
    ensures
        match r {
            Some(i) => find_order(s@, id) == Some(i as int) && i < s@.len() && s@[i as int].order_id
                == id,
            None => find_order(s@, id) is None,
        },
{
    let mut i: usize = 0;
    while i < s.len()
        invariant
            i <= s@.len(),
            find_from(s@, id, 0) == find_from(s@, id, i as int),
        decreases s@.len() - i,
    {
        if s[i].order_id == id {
            return Some(i);
        }
        i = i + 1;
    }
    None
}

impl MarketBook {
    /// An empty book for a market.
    pub fn new(market_pubkey: Pubkey, capacity: usize) -> (r: MarketBook)
        ensures
            r@.wf(),
            r@ == (BookModel {
                market_pubkey,
                order_seq_counter: 0,
                capacity: capacity as nat,
                bids: Seq::empty(),
                asks: Seq::empty(),
            }),
    {
        MarketBook {
            market_pubkey,
            order_seq_counter: 0,
            capacity,
            bids: Vec::new(),
            asks: Vec::new(),
        }
    }

    /// How many orders rest in the book, as far as a `u32` can tell.
    pub fn total_orders_active(&self) -> (r: u32)
        requires
            self@.total() <= usize::MAX,
        ensures
            r == sat_u32(self@.total() as int),
    {
        clamp_u64_to_u32((self.bids.len() + self.asks.len()) as u64)
    }

    /// Tests whether the book trades in price-time priority and does not exceed its
    /// space, as one that was read from outside may not.
    pub fn is_well_formed(&self) -> (r: bool)
        ensures
            r == self@.wf(),
    {
        if self.asks.len() > self.capacity {
            return false;
        }
        self.bids.len() <= self.capacity - self.asks.len() && check_side(
            true,
            &self.bids,
            self.order_seq_counter,
        ) && check_side(false, &self.asks, self.order_seq_counter)
    }

    /// Adds an order on its side. A full book refuses it and stays as it is.
    pub fn rest(&mut self, o: RestingOrderV2) -> (r: Result<(), FlashBookError>)
        requires
            old(self)@.total() <= old(self)@.capacity,
        ensures
            match book_rested(old(self)@, o) {
                Ok(b) => r == Ok::<(), FlashBookError>(()) && final(self)@ == b,
                Err(e) => r == Err::<(), FlashBookError>(e) && *final(self) == *old(self),
            },
    {
        if self.bids.len() + self.asks.len() >= self.capacity {
            return Err(FlashBookError::BufferFull);
        }
        if o.side == 0 {
            insert_sorted(true, &mut self.bids, o);
        } else {
            insert_sorted(false, &mut self.asks, o);
        }
        Ok(())
    }

    /// Tests whether the book takes a further order.
    pub fn check_next(&self, reserved: u64) -> (r: Result<(), FlashBookError>)
        requires
            self@.total() <= usize::MAX,
        ensures
            r == (match next_order_refusal(self@, reserved) {
                Some(e) => Err::<(), FlashBookError>(e),
                None => Ok(()),
            }),
    {
        if self.order_seq_counter == u64::MAX {
            return Err(FlashBookError::ArithmeticOverflow);
        }
        if self.order_seq_counter + 1 >= reserved {
            return Err(FlashBookError::OutOfRange);
        }
        if self.bids.len() + self.asks.len() >= self.capacity {
            return Err(FlashBookError::BufferFull);
        }
        Ok(())
    }

    /// Gives an order the next sequence number and adds it on its side. The numbers
    /// from `reserved` on are not given out. On refusal the book does not change.
    pub fn rest_next(&mut self, o: RestingOrderV2, reserved: u64) -> (r: Result<u64, FlashBookError>)
        requires
            old(self)@.wf(),
            o.size_lots > 0,
            o.side <= 1,
        ensures
            final(self)@.wf(),
            match next_order_refusal(old(self)@, reserved) {
                Some(e) => r == Err::<u64, FlashBookError>(e) && *final(self) == *old(self),
                None => {
                    let seq = (old(self)@.order_seq_counter + 1) as u64;
                    r == Ok::<u64, FlashBookError>(seq) && final(self)@ == book_after_rest(
                        old(self)@,
                        RestingOrderV2 { seq, ..o },
                    )
                },
            },
    {
        let seq: u64 = match self.order_seq_counter.checked_add(1) {
            Some(n) => n,
            None => {
                return Err(FlashBookError::ArithmeticOverflow);
            },
        };
        if seq >= reserved {
            return Err(FlashBookError::OutOfRange);
        }
        let numbered = RestingOrderV2 { seq, ..o };
        match self.rest(numbered) {
            Ok(_) => {},
            Err(e) => {
                return Err(e);
            },
        }
        self.order_seq_counter = seq;
        proof {
            law_resting_keeps_priority(old(self)@, numbered);
        }
        Ok(seq)
    }

    /// Finds an order of one side by its id.
    pub fn lookup(&self, bid: bool, id: u64) -> (r: Option<usize>)
        ensures
            match r {
                Some(i) => find_order(self@.side(bid), id) == Some(i as int) && i < self@.side(
                    bid,
                ).len(),
                None => find_order(self@.side(bid), id) is None,
            },
    {
        if bid {
            lookup_by_order_id(&self.bids, id)
        } else {
            lookup_by_order_id(&self.asks, id)
        }
    }

    /// The order at a position of one side.
    pub fn order_at(&self, bid: bool, i: usize) -> (r: RestingOrderV2)
        requires
            i < self@.side(bid).len(),
        ensures
            r == self@.side(bid)[i as int],
    {
        if bid {
            self.bids[i]
        } else {
            self.asks[i]
        }
    }

    /// Takes the order at a position of one side out of the book.
    pub fn remove_at(&mut self, bid: bool, i: usize)
        requires
            i < old(self)@.side(bid).len(),
        ensures
            final(self)@ == old(self)@.with_side(bid, old(self)@.side(bid).remove(i as int)),
    {
        if bid {
            self.bids.remove(i);
        } else {
            self.asks.remove(i);
        }
    }
}

/// Where an order goes in a sorted side: everything before it trades first, and
/// it trades before everything after it.
pub proof fn lemma_rank_splits(bid: bool, s: Seq<RestingOrderV2>, o: RestingOrderV2, i: int)
    requires
        side_sorted(bid, s),
        0 <= i <= s.len(),
        forall|k: int| 0 <= k < i ==> ranks_before(bid, #[trigger] s[k], o),
        forall|k: int| 0 <= k < s.len() ==> (#[trigger] s[k]).seq != o.seq,
    ensures
        i <= rank_from(bid, s, o, i) <= s.len(),
        forall|k: int| 0 <= k < rank_from(bid, s, o, i) ==> ranks_before(bid, #[trigger] s[k], o),
        forall|k: int|
            rank_from(bid, s, o, i) <= k < s.len() ==> ranks_before(bid, o, #[trigger] s[k]),
    decreases s.len() - i,
{
    if i < s.len() && ranks_before(bid, s[i], o) {
        lemma_rank_splits(bid, s, o, i + 1);
    } else if i < s.len() {
        assert forall|k: int| i <= k < s.len() implies ranks_before(bid, o, #[trigger] s[k]) by {
            if k > i {
                assert(ranks_before(bid, s[i], s[k]));
            }
        }
    }
}

/// Adding a properly numbered order keeps a side in price-time priority.
pub proof fn lemma_insert_keeps_sorted(
    bid: bool,
    s: Seq<RestingOrderV2>,
    o: RestingOrderV2,
    counter: u64,
)
    requires
        side_sorted(bid, s),
        side_proper(bid, s, counter),
        counter < o.seq,
        o.size_lots > 0,
        o.side == if bid {
            0u8
        } else {
            1u8
        },
    ensures
        side_sorted(bid, side_inserted(bid, s, o)),
        side_proper(bid, side_inserted(bid, s, o), o.seq),
        side_inserted(bid, s, o).len() == s.len() + 1,
{
    lemma_rank_splits(bid, s, o, 0);
    let r = rank_from(bid, s, o, 0);
    let t = side_inserted(bid, s, o);
    assert forall|i: int| 0 <= i < t.len() implies (#[trigger] t[i]) == if i < r {
        s[i]
    } else if i == r {
        o
    } else {
        s[i - 1]
    } by {}
    assert forall|i: int, j: int| 0 <= i < j < t.len() implies ranks_before(
        bid,
        #[trigger] t[i],
        #[trigger] t[j],
    ) by {}
}

/// A side stays in price-time priority when an order leaves it.
pub proof fn lemma_remove_keeps_sorted(bid: bool, s: Seq<RestingOrderV2>, i: int, counter: u64)
    requires
        side_sorted(bid, s),
        side_proper(bid, s, counter),
        0 <= i < s.len(),
    ensures
        side_sorted(bid, s.remove(i)),
        side_proper(bid, s.remove(i), counter),
{
    let t = s.remove(i);
    assert forall|k: int| 0 <= k < t.len() implies (#[trigger] t[k]) == if k < i {
        s[k]
    } else {
        s[k + 1]
    } by {}
    assert forall|k: int, j: int| 0 <= k < j < t.len() implies ranks_before(
        bid,
        #[trigger] t[k],
        #[trigger] t[j],
    ) by {}
}

/// Resting a newly numbered order keeps a book well formed.
pub proof fn law_resting_keeps_priority(b: BookModel, o: RestingOrderV2)
    requires
        b.wf(),
        b.order_seq_counter < o.seq,
        o.size_lots > 0,
        o.side <= 1,
        book_rested(b, o) is Ok,
    ensures
        (BookModel { order_seq_counter: o.seq, ..book_rested(b, o)->Ok_0 }).wf(),
        book_rested(b, o)->Ok_0.total() == b.total() + 1,
{
    lemma_insert_keeps_sorted(o.side == 0, b.side(o.side == 0), o, b.order_seq_counter);
}

/// Taking an order out keeps a book well formed.
pub proof fn law_removal_keeps_priority(b: BookModel, bid: bool, i: int)
    requires
        b.wf(),
        0 <= i < b.side(bid).len(),
    ensures
        b.with_side(bid, b.side(bid).remove(i)).wf(),
{
    lemma_remove_keeps_sorted(bid, b.side(bid), i, b.order_seq_counter);
}

/// An order that has just been rested is found under its id, unless an older
/// order carries the same one.
pub proof fn law_rested_order_is_found(b: BookModel, o: RestingOrderV2)
    requires
        b.wf(),
        b.order_seq_counter < o.seq,
        o.size_lots > 0,
        o.side <= 1,
        book_rested(b, o) is Ok,
        find_order(b.side(o.side == 0), o.order_id) is None,
    ensures
        ({
            let s = book_rested(b, o)->Ok_0.side(o.side == 0);
            find_order(s, o.order_id) matches Some(i) && s[i] == o && s.remove(i) =~= b.side(
                o.side == 0,
            )
        }),
{
    let bid = o.side == 0;
    let s0 = b.side(bid);
    lemma_rank_splits(bid, s0, o, 0);
    let r = rank_from(bid, s0, o, 0);
    let s = side_inserted(bid, s0, o);
    lemma_find_none(s0, o.order_id, 0);
    assert forall|k: int| 0 <= k < r implies (#[trigger] s[k]).order_id != o.order_id by {
        assert(s[k] == s0[k]);
    }
    assert(s[r] == o);
    lemma_find_at(s, o.order_id, 0, r);
}

/// A search that finds nothing has seen no such id.
pub proof fn lemma_find_none(s: Seq<RestingOrderV2>, id: u64, i: int)
    requires
        0 <= i <= s.len(),
        find_from(s, id, i) >= s.len(),
    ensures
        forall|k: int| i <= k < s.len() ==> (#[trigger] s[k]).order_id != id,
    decreases s.len() - i,
{
    if i < s.len() {
        lemma_find_none(s, id, i + 1);
    }
}

/// A search stops at the first order that carries the id.
pub proof fn lemma_find_at(s: Seq<RestingOrderV2>, id: u64, i: int, r: int)
    requires
        0 <= i <= r < s.len(),
        s[r].order_id == id,
        forall|k: int| i <= k < r ==> (#[trigger] s[k]).order_id != id,
    ensures
        find_from(s, id, i) == r,
    decreases r - i,
{
    if i < r {
        lemma_find_at(s, id, i + 1, r);
    }
}

} // verus!
