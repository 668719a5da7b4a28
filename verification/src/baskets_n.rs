//! Basket orders of any number of legs.
use vstd::prelude::*;

use crate::baskets::{
    BasketEntry, BasketTrader, basket_binding_refusal, basket_question, check_caps_for_leg,
    check_leg_book, check_margin, count_orders, inject_leg, leg_binding_refusal, leg_exceeds_caps,
    leg_intake_refusal, leg_order, margin_refusal, orders_counted, rate_exceeded,
    validate_leg_intake,
};
use crate::book::{BookModel, MarketBook, book_after_rest};
use crate::constants::Limits;
use crate::errors::FlashBookError;
use crate::events::BasketOrderNPlacedV2Event;
use crate::keys::Pubkey;
use crate::math::sat_u32;
use crate::risk::Assessment;
use crate::twap::slice_refusal;

verus! {

/// A market occurs among the first `n` legs.
pub open spec fn leg_market_among(es: Seq<BasketEntry>, n: int, key: Pubkey) -> bool {
    exists|k: int| 0 <= k < n && (#[trigger] es[k]).market_key == key
}

/// Why leg `i` of a basket is refused, if it is. Every leg is in a market of its
/// own.
pub open spec fn nth_leg_refusal(c: BasketTrader, es: Seq<BasketEntry>, i: int, reserved: u64) -> Option<
    FlashBookError,
> {
    let e = es[i];
    if !e.owned {
        Some(FlashBookError::Unauthorized)
    } else if leg_market_among(es, i, e.market_key) {
        Some(FlashBookError::OutOfRange)
    } else if leg_intake_refusal(e.market, e.leg, reserved) is Some {
        leg_intake_refusal(e.market, e.leg, reserved)
    } else if leg_exceeds_caps(e.market, e.position, c.flp_capital, e.leg) {
        Some(FlashBookError::PositionSizeCapExceeded)
    } else {
        leg_binding_refusal(e, c.trader)
    }
}

/// Why the legs from `i` on are refused, if they are.
pub open spec fn legs_refusal(c: BasketTrader, es: Seq<BasketEntry>, i: int, reserved: u64) -> Option<
    FlashBookError,
>
    decreases es.len() - i,
{
    if i >= es.len() {
        None
    } else {
        match nth_leg_refusal(c, es, i, reserved) {
            Some(e) => Some(e),
            None => legs_refusal(c, es, i + 1, reserved),
        }
    }
}

/// Why the books from `i` on do not take their legs, if they do not.
pub open spec fn books_refusal(
    books: Seq<MarketBook>,
    es: Seq<BasketEntry>,
    i: int,
    reserved: u64,
) -> Option<FlashBookError>
    decreases es.len() - i,
{
    if i >= es.len() {
        None
    } else {
        match slice_refusal(books[i]@, es[i].market_key, reserved) {
            Some(e) => Some(e),
            None => books_refusal(books, es, i + 1, reserved),
        }
    }
}

/// Looks for a market among the first `n` legs.
pub fn has_leg_market(es: &Vec<BasketEntry>, n: usize, key: Pubkey) -> (r: bool)
    requires
        n <= es@.len(),
    ensures
        r == leg_market_among(es@, n as int, key),
{
    let mut k: usize = 0;
    while k < n
        invariant
            k <= n <= es@.len(),
            !leg_market_among(es@, k as int, key),
        decreases n - k,
    {
        if es[k].market_key == key {
            return true;
        }
        k = k + 1;
    }
    false
}

/// All legs can be tested: no market has a tick of zero.
pub open spec fn ticks_positive(es: Seq<BasketEntry>) -> bool {
    forall|i: int| 0 <= i < es.len() ==> (#[trigger] es[i]).market.params.tick_size > 0
}

/// Tests one leg.
pub fn check_nth_leg(c: &BasketTrader, es: &Vec<BasketEntry>, i: usize, reserved: u64) -> (r: Result<
    (),
    FlashBookError,
>)
    requires
        i < es@.len(),
        ticks_positive(es@),
    ensures
        r == (match nth_leg_refusal(*c, es@, i as int, reserved) {
            Some(e) => Err::<(), FlashBookError>(e),
            None => Ok(()),
        }),
{
    let e = es[i];
    if !e.owned {
        return Err(FlashBookError::Unauthorized);
    }
    if has_leg_market(es, i, e.market_key) {
        return Err(FlashBookError::OutOfRange);
    }
    match validate_leg_intake(&e.market, &e.leg, reserved) {
        Ok(_) => {},
        Err(x) => {
            return Err(x);
        },
    }
    match check_caps_for_leg(&e.market, &e.position, c.flp_capital, &e.leg) {
        Ok(_) => {},
        Err(x) => {
            return Err(x);
        },
    }
    if e.position.size_lots > 0 {
        if e.position.trader != c.trader {
            return Err(FlashBookError::WrongTrader);
        }
        if e.position.market != e.market_key {
            return Err(FlashBookError::WrongMarket);
        }
    }
    Ok(())
}

/// Tests all legs.
pub fn check_legs(c: &BasketTrader, es: &Vec<BasketEntry>, reserved: u64) -> (r: Result<
    (),
    FlashBookError,
>)
    requires
        ticks_positive(es@),
    ensures
        r == (match legs_refusal(*c, es@, 0, reserved) {
            Some(e) => Err::<(), FlashBookError>(e),
            None => Ok(()),
        }),
        r is Ok ==> basket_binding_refusal(es@, 0, c.trader) is None,
        r is Ok ==> forall|k: int|
            0 <= k < es@.len() ==> (#[trigger] es@[k]).leg.size_lots > 0 && es@[k].leg.side <= 1,
{
    let mut i: usize = 0;
    while i < es.len()
        invariant
            i <= es@.len(),
            ticks_positive(es@),
            legs_refusal(*c, es@, 0, reserved) == legs_refusal(*c, es@, i as int, reserved),
            forall|k: int|
                0 <= k < i ==> nth_leg_refusal(*c, es@, k, reserved) is None && (
                #[trigger] es@[k]).leg.size_lots > 0 && es@[k].leg.side <= 1,
        decreases es@.len() - i,
    {
        match check_nth_leg(c, es, i, reserved) {
            Ok(_) => {},
            Err(e) => {
                return Err(e);
            },
        }
        i = i + 1;
    }
    proof {
        lemma_legs_are_bound(*c, es@, 0, reserved);
    }
    Ok(())
}

/// Legs that are accepted are bound to the trader and their markets.
pub proof fn lemma_legs_are_bound(c: BasketTrader, es: Seq<BasketEntry>, i: int, reserved: u64)
    requires
        0 <= i <= es.len(),
        legs_refusal(c, es, i, reserved) is None,
    ensures
        basket_binding_refusal(es, i, c.trader) is None,
    decreases es.len() - i,
{
    if i < es.len() {
        lemma_legs_are_bound(c, es, i + 1, reserved);
    }
}

/// Every book of a basket is proper.
pub open spec fn books_wf(books: Seq<MarketBook>) -> bool {
    forall|i: int| 0 <= i < books.len() ==> (#[trigger] books[i])@.wf()
}

/// Tests whether all books take their legs.
pub fn check_books(books: &Vec<MarketBook>, es: &Vec<BasketEntry>, limits: &Limits) -> (r: Result<
    (),
    FlashBookError,
>)
    requires
        books@.len() == es@.len(),
        books_wf(books@),
    ensures
        r == (match books_refusal(books@, es@, 0, limits.flp_seq_reserved_offset) {
            Some(e) => Err::<(), FlashBookError>(e),
            None => Ok(()),
        }),
        r is Ok ==> forall|k: int|
            0 <= k < es@.len() ==> slice_refusal(
                (#[trigger] books@[k])@,
                es@[k].market_key,
                limits.flp_seq_reserved_offset,
            ) is None,
{
    let mut i: usize = 0;
    while i < es.len()
        invariant
            i <= es@.len(),
            books@.len() == es@.len(),
            books_wf(books@),
            books_refusal(books@, es@, 0, limits.flp_seq_reserved_offset) == books_refusal(
                books@,
                es@,
                i as int,
                limits.flp_seq_reserved_offset,
            ),
            forall|k: int|
                0 <= k < i ==> slice_refusal(
                    (#[trigger] books@[k])@,
                    es@[k].market_key,
                    limits.flp_seq_reserved_offset,
                ) is None,
        decreases es@.len() - i,
    {
        match check_leg_book(&books[i], es[i].market_key, limits) {
            Ok(_) => {},
            Err(e) => {
                return Err(e);
            },
        }
        i = i + 1;
    }
    Ok(())
}

/// A book after its leg was rested.
pub open spec fn book_with_leg(
    b: BookModel,
    e: BasketEntry,
    c: BasketTrader,
    order_id: u64,
    slot: u64,
) -> BookModel {
    book_after_rest(
        b,
        leg_order(
            e.leg,
            c.trader,
            c.trader_state.sub_index,
            (b.order_seq_counter + 1) as u64,
            order_id,
            slot,
        ),
    )
}

/// Rests every leg in its book.
pub fn inject_legs(
    books: &mut Vec<MarketBook>,
    es: &Vec<BasketEntry>,
    c: &BasketTrader,
    order_ids: &Vec<u64>,
    limits: &Limits,
    now_slot: u64,
)
    requires
        old(books)@.len() == es@.len(),
        order_ids@.len() == es@.len(),
        books_wf(old(books)@),
        forall|k: int|
            0 <= k < es@.len() ==> (#[trigger] es@[k]).leg.size_lots > 0 && es@[k].leg.side <= 1,
        forall|k: int|
            0 <= k < es@.len() ==> slice_refusal(
                (#[trigger] old(books)@[k])@,
                es@[k].market_key,
                limits.flp_seq_reserved_offset,
            ) is None,
    ensures
        final(books)@.len() == old(books)@.len(),
        books_wf(final(books)@),
        forall|k: int|
            0 <= k < es@.len() ==> (#[trigger] final(books)@[k])@ == book_with_leg(
                old(books)@[k]@,
                es@[k],
                *c,
                order_ids@[k],
                now_slot,
            ),
{
    let ghost before = books@;
    let mut i: usize = 0;
    while i < es.len()
        invariant
            i <= es@.len(),
            books@.len() == es@.len(),
            before.len() == es@.len(),
            order_ids@.len() == es@.len(),
            books_wf(books@),
            forall|k: int|
                0 <= k < es@.len() ==> (#[trigger] es@[k]).leg.size_lots > 0 && es@[k].leg.side
                    <= 1,
            forall|k: int|
                0 <= k < es@.len() ==> slice_refusal(
                    (#[trigger] before[k])@,
                    es@[k].market_key,
                    limits.flp_seq_reserved_offset,
                ) is None,
            forall|k: int| i <= k < es@.len() ==> (#[trigger] books@[k]) == before[k],
            forall|k: int|
                0 <= k < i ==> (#[trigger] books@[k])@ == book_with_leg(
                    before[k]@,
                    es@[k],
                    *c,
                    order_ids@[k],
                    now_slot,
                ),
        decreases es@.len() - i,
    {
        let e = es[i];
        let id: u64 = order_ids[i];
        assert(books@[i as int] == before[i as int]);
        assert(es@[i as int].leg.size_lots > 0);
        let _ = inject_leg(
            &mut books[i],
            e.market_key,
            c.trader,
            &e.leg,
            id,
            limits,
            now_slot,
            c.trader_state.sub_index,
        );
        i = i + 1;
    }
}

/// Why a basket is refused, if it is.
pub open spec fn basket_refusal(
    c: BasketTrader,
    es: Seq<BasketEntry>,
    books: Seq<MarketBook>,
    ids: nat,
    assessment: Assessment,
    limits: Limits,
) -> Option<FlashBookError> {
    let reserved = limits.flp_seq_reserved_offset;
    if c.trader_state.trader != c.trader {
        Some(FlashBookError::WrongTrader)
    } else if es.len() == 0 {
        Some(FlashBookError::ZeroSize)
    } else if es.len() > limits.max_basket_legs_n || books.len() != es.len() || ids != es.len() {
        Some(FlashBookError::OutOfRange)
    } else if legs_refusal(c, es, 0, reserved) is Some {
        legs_refusal(c, es, 0, reserved)
    } else if margin_refusal(es, assessment) is Some {
        margin_refusal(es, assessment)
    } else if rate_exceeded(
        c.trader_state,
        es[0].market.current_batch,
        sat_u32(es.len() as int),
        limits.max_orders_per_trader_per_batch,
    ) {
        Some(FlashBookError::RateLimited)
    } else {
        books_refusal(books, es, 0, reserved)
    }
}

/// Collects the markets of a basket.
pub fn leg_markets(es: &Vec<BasketEntry>) -> (r: Vec<Pubkey>)
    ensures
        r@ == es@.map_values(|e: BasketEntry| e.market_key),
{
    let mut keys: Vec<Pubkey> = Vec::new();
    let mut i: usize = 0;
    let ghost all = es@.map_values(|e: BasketEntry| e.market_key);
    while i < es.len()
        invariant
            i <= es@.len(),
            all == es@.map_values(|e: BasketEntry| e.market_key),
            keys@ == all.take(i as int),
        decreases es@.len() - i,
    {
        keys.push(es[i].market_key);
        assert(keys@ =~= all.take(i + 1));
        i = i + 1;
    }
    assert(all.take(i as int) =~= all);
    keys
}

/// Rests any number of legs, each in a market of its own. `books` and `order_ids`
/// hold for each leg its market's book and the id that belongs to its limit, side
/// and next sequence number. `assessment` is the margin engine's answer on
/// [`basket_question`], against the trader's pool. On refusal nothing changes.
pub fn place_basket_order_n_v2(
    ctx: &mut BasketTrader,
    es: &Vec<BasketEntry>,
    books: &mut Vec<MarketBook>,
    order_ids: &Vec<u64>,
    assessment: Assessment,
    limits: &Limits,
    now_slot: u64,
) -> (r: Result<BasketOrderNPlacedV2Event, FlashBookError>)
    requires
        ticks_positive(es@),
        books_wf(old(books)@),
        limits.max_basket_legs_n <= u8::MAX,
    ensures
        books_wf(final(books)@),
        match basket_refusal(*old(ctx), es@, old(books)@, order_ids@.len(), assessment, *limits) {
            Some(e) => r is Err && r->Err_0 == e && *final(ctx) == *old(ctx) && final(books)@
                == old(books)@,
            None => {
                let c = *old(ctx);
                &&& *final(ctx) == (BasketTrader {
                    trader_state: orders_counted(
                        c.trader_state,
                        es@[0].market.current_batch,
                        es@.len() as int,
                    ),
                    ..c
                })
                &&& final(books)@.len() == old(books)@.len()
                &&& forall|k: int|
                    0 <= k < es@.len() ==> (#[trigger] final(books)@[k])@ == book_with_leg(
                        old(books)@[k]@,
                        es@[k],
                        c,
                        order_ids@[k],
                        now_slot,
                    )
                &&& r is Ok
                &&& r->Ok_0.trader == c.trader
                &&& r->Ok_0.leg_count == es@.len()
                &&& r->Ok_0.markets@ == es@.map_values(|e: BasketEntry| e.market_key)
            },
        },
{
    let reserved: u64 = limits.flp_seq_reserved_offset;
    if ctx.trader_state.trader != ctx.trader {
        return Err(FlashBookError::WrongTrader);
    }
    if es.len() == 0 {
        return Err(FlashBookError::ZeroSize);
    }
    if es.len() > limits.max_basket_legs_n || books.len() != es.len() || order_ids.len()
        != es.len() {
        return Err(FlashBookError::OutOfRange);
    }
    match check_legs(ctx, es, reserved) {
        Ok(_) => {},
        Err(e) => {
            return Err(e);
        },
    }
    let question = match basket_question(es, ctx.trader) {
        Ok(p) => p,
        Err(e) => {
            return Err(e);
        },
    };
    match check_margin(question.positions.len(), assessment) {
        Ok(_) => {},
        Err(e) => {
            return Err(e);
        },
    }
    let count: u32 = es.len() as u32;
    let counted = match count_orders(
        ctx.trader_state,
        es[0].market.current_batch,
        count,
        limits.max_orders_per_trader_per_batch,
    ) {
        Ok(s) => s,
        Err(e) => {
            return Err(e);
        },
    };
    match check_books(books, es, limits) {
        Ok(_) => {},
        Err(e) => {
            return Err(e);
        },
    }
    inject_legs(books, es, ctx, order_ids, limits, now_slot);
    ctx.trader_state = counted;
    Ok(
        BasketOrderNPlacedV2Event {
            trader: ctx.trader,
            leg_count: es.len() as u8,
            markets: leg_markets(es),
        },
    )
}

/// The legs of an accepted basket are in different markets.
pub proof fn law_basket_markets_differ(
    c: BasketTrader,
    es: Seq<BasketEntry>,
    books: Seq<MarketBook>,
    ids: nat,
    assessment: Assessment,
    limits: Limits,
    i: int,
    j: int,
)
    requires
        basket_refusal(c, es, books, ids, assessment, limits) is None,
        0 <= i < j < es.len(),
    ensures
        es[i].market_key != es[j].market_key,
{
    lemma_leg_accepted(c, es, 0, limits.flp_seq_reserved_offset, j);
    assert(!leg_market_among(es, j, es[j].market_key));
}

/// Each leg of an accepted basket is accepted.
pub proof fn lemma_leg_accepted(
    c: BasketTrader,
    es: Seq<BasketEntry>,
    i: int,
    reserved: u64,
    k: int,
)
    requires
        0 <= i <= k < es.len(),
        legs_refusal(c, es, i, reserved) is None,
    ensures
        nth_leg_refusal(c, es, k, reserved) is None,
    decreases k - i,
{
    if i < k {
        lemma_leg_accepted(c, es, i + 1, reserved, k);
    }
}

} // verus!
