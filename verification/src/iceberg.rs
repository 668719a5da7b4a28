//! Orders of which only a part shows in the book at a time.
use vstd::prelude::*;

use crate::book::{
    BookModel, MarketBook, RestingOrderV2, book_after_rest, find_order, law_removal_keeps_priority,
    next_order_refusal,
};
use crate::constants::Limits;
use crate::errors::FlashBookError;
use crate::events::{
    IcebergCancelledEvent, IcebergOrderV3PlacedEvent, IcebergReplenishedV2Event,
    IcebergV3CancelledEvent, IcebergV3ReplenishedEvent,
};
use crate::keys::Pubkey;
use crate::math::{low_u32, min_int, min_u64, sat_u64, truncate_u64_to_u32};
use crate::state::{IcebergOrderAccount, MarketAccount};

verus! {

/// The size of the next part to be shown.
pub open spec fn iceberg_chunk(i: IcebergOrderAccount) -> u64 {
    min_int(i.displayed_size_lots as int, i.remaining_lots as int) as u64
}

/// The order that the next part becomes.
pub open spec fn chunk_order(i: IcebergOrderAccount, seq: u64, order_id: u64, slot: u64) -> RestingOrderV2 {
    RestingOrderV2 {
        order_id,
        seq,
        price_ticks: i.limit_ticks,
        size_lots: iceberg_chunk(i),
        expires_at_slot: i.expires_at_slot,
        trader: i.trader,
        last_valid_slot: low_u32(slot),
        side: i.side,
        order_type: 0,
        flags: 0,
        sub_index: i.sub_index,
    }
}

/// The iceberg after its next part was shown. After the last one it is done.
pub open spec fn iceberg_shown(i: IcebergOrderAccount, seq: u64) -> IcebergOrderAccount {
    IcebergOrderAccount {
        remaining_lots: (i.remaining_lots - iceberg_chunk(i)) as u64,
        child_order_seq: seq,
        active: i.active && iceberg_chunk(i) < i.remaining_lots,
        ..i
    }
}

/// Why the next part cannot be shown now, if it cannot.
pub open spec fn replenish_gate(
    i: IcebergOrderAccount,
    b: BookModel,
    market_key: Pubkey,
    slot: u64,
) -> Option<FlashBookError> {
    if !i.active {
        Some(FlashBookError::OutOfRange)
    } else if i.expires_at_slot > 0 && i.expires_at_slot < slot {
        Some(FlashBookError::OutOfRange)
    } else if i.remaining_lots == 0 {
        Some(FlashBookError::OutOfRange)
    } else if b.market_pubkey != market_key {
        Some(FlashBookError::WrongMarket)
    } else {
        None
    }
}

/// Tests whether the next part can be shown now.
pub fn check_replenish(i: &IcebergOrderAccount, book: &MarketBook, market_key: Pubkey, slot: u64) -> (r:
    Result<(), FlashBookError>)
    ensures
        r == (match replenish_gate(*i, book@, market_key, slot) {
            Some(e) => Err::<(), FlashBookError>(e),
            None => Ok(()),
        }),
{
    if !i.active {
        return Err(FlashBookError::OutOfRange);
    }
    if i.expires_at_slot > 0 && i.expires_at_slot < slot {
        return Err(FlashBookError::OutOfRange);
    }
    if i.remaining_lots == 0 {
        return Err(FlashBookError::OutOfRange);
    }
    if book.market_pubkey != market_key {
        return Err(FlashBookError::WrongMarket);
    }
    Ok(())
}

/// Shows the next part in the book. On refusal nothing changes.
pub fn show_chunk(
    i: &mut IcebergOrderAccount,
    book: &mut MarketBook,
    order_id: u64,
    limits: &Limits,
    slot: u64,
) -> (r: Result<u64, FlashBookError>)
    requires
        old(i).wf(),
        old(i).remaining_lots > 0,
        old(book)@.wf(),
    ensures
        final(book)@.wf(),
        match next_order_refusal(old(book)@, limits.flp_seq_reserved_offset) {
            Some(e) => r == Err::<u64, FlashBookError>(e) && *final(i) == *old(i) && *final(book)
                == *old(book),
            None => {
                let seq = (old(book)@.order_seq_counter + 1) as u64;
                &&& r == Ok::<u64, FlashBookError>(seq)
                &&& *final(i) == iceberg_shown(*old(i), seq)
                &&& final(book)@ == book_after_rest(
                    old(book)@,
                    chunk_order(*old(i), seq, order_id, slot),
                )
            },
        },
{
    let chunk: u64 = min_u64(i.displayed_size_lots, i.remaining_lots);
    let order = RestingOrderV2 {
        order_id,
        seq: 0,
        price_ticks: i.limit_ticks,
        size_lots: chunk,
        expires_at_slot: i.expires_at_slot,
        trader: i.trader,
        last_valid_slot: truncate_u64_to_u32(slot),
        side: i.side,
        order_type: 0,
        flags: 0,
        sub_index: i.sub_index,
    };
    let seq: u64 = match book.rest_next(order, limits.flp_seq_reserved_offset) {
        Ok(n) => n,
        Err(e) => {
            return Err(e);
        },
    };
    i.remaining_lots = i.remaining_lots - chunk;
    i.child_order_seq = seq;
    if i.remaining_lots == 0 {
        i.active = false;
    }
    Ok(seq)
}

/// The part that was shown last still rests in the book. `child_id` is its id.
pub open spec fn child_rests(i: IcebergOrderAccount, b: BookModel, child_id: u64) -> bool {
    i.child_order_seq != 0 && find_order(b.side(i.side == 0), child_id) is Some
}

/// Shows the next part of an iceberg, once the last one is used up: anyone may.
/// While the last one rests, nothing changes and nothing is reported. `child_id` is
/// the id that belongs to the limit, the side and the number of the last part,
/// `order_id` the one for the next sequence number. On refusal nothing changes.
pub fn replenish_iceberg_v2(
    market_key: Pubkey,
    caller: Pubkey,
    iceberg: &mut IcebergOrderAccount,
    book: &mut MarketBook,
    child_id: u64,
    order_id: u64,
    limits: &Limits,
    now: u64,
) -> (r: Result<Option<IcebergReplenishedV2Event>, FlashBookError>)
    requires
        old(iceberg).wf(),
        old(book)@.wf(),
    ensures
        final(book)@.wf(),
        ({
            let i = *old(iceberg);
            let b = old(book)@;
            match replenish_gate(i, b, market_key, now) {
                Some(e) => r == Err::<Option<IcebergReplenishedV2Event>, FlashBookError>(e)
                    && *final(iceberg) == i && *final(book) == *old(book),
                None => if child_rests(i, b, child_id) {
                    r == Ok::<Option<IcebergReplenishedV2Event>, FlashBookError>(None)
                        && *final(iceberg) == i && *final(book) == *old(book)
                } else {
                    match next_order_refusal(b, limits.flp_seq_reserved_offset) {
                        Some(e) => r == Err::<Option<IcebergReplenishedV2Event>, FlashBookError>(e)
                            && *final(iceberg) == i && *final(book) == *old(book),
                        None => {
                            let seq = (b.order_seq_counter + 1) as u64;
                            &&& *final(iceberg) == iceberg_shown(i, seq)
                            &&& final(book)@ == book_after_rest(
                                b,
                                chunk_order(i, seq, order_id, now),
                            )
                            &&& r == Ok::<Option<IcebergReplenishedV2Event>, FlashBookError>(
                                Some(
                                    IcebergReplenishedV2Event {
                                        market: market_key,
                                        trader: i.trader,
                                        iceberg_id: i.iceberg_id,
                                        executor: caller,
                                        chunk_size_lots: iceberg_chunk(i),
                                        remaining_lots: iceberg_shown(i, seq).remaining_lots,
                                        new_child_seq: seq,
                                    },
                                ),
                            )
                        },
                    }
                },
            }
        }),
{
    match check_replenish(iceberg, book, market_key, now) {
        Ok(_) => {},
        Err(e) => {
            return Err(e);
        },
    }
    if iceberg.child_order_seq != 0 {
        match book.lookup(iceberg.side == 0, child_id) {
            Some(_) => {
                return Ok(None);
            },
            None => {},
        }
    }
    let chunk: u64 = min_u64(iceberg.displayed_size_lots, iceberg.remaining_lots);
    match show_chunk(iceberg, book, order_id, limits, now) {
        Ok(new_child_seq) => Ok(
            Some(
                IcebergReplenishedV2Event {
                    market: market_key,
                    trader: iceberg.trader,
                    iceberg_id: iceberg.iceberg_id,
                    executor: caller,
                    chunk_size_lots: chunk,
                    remaining_lots: iceberg.remaining_lots,
                    new_child_seq,
                },
            ),
        ),
        Err(e) => Err(e),
    }
}

/// What was not filled of an iceberg, at most: what was not shown, and one part.
pub open spec fn iceberg_unfilled(i: IcebergOrderAccount) -> u64 {
    min_int(
        sat_u64(i.remaining_lots + i.displayed_size_lots),
        i.total_size_lots as int,
    ) as u64
}

/// Computes what was not filled of an iceberg, at most.
pub fn compute_iceberg_unfilled(i: &IcebergOrderAccount) -> (r: u64)
    ensures
        r == iceberg_unfilled(*i),
{
    min_u64(i.remaining_lots.saturating_add(i.displayed_size_lots), i.total_size_lots)
}

/// Why an iceberg cannot be cancelled, if it cannot.
pub open spec fn cancel_iceberg_refusal(i: IcebergOrderAccount, trader: Pubkey, b: BookModel) -> Option<
    FlashBookError,
> {
    if i.trader != trader {
        Some(FlashBookError::WrongTrader)
    } else if i.child_order_seq != 0 && b.market_pubkey != i.market {
        Some(FlashBookError::WrongMarket)
    } else {
        None
    }
}

/// The book after an iceberg was cancelled: the part that rests in it, if it does
/// and is the trader's, is taken out.
pub open spec fn book_without_child(i: IcebergOrderAccount, b: BookModel, child_id: u64) -> BookModel {
    let s = b.side(i.side == 0);
    match find_order(s, child_id) {
        Some(k) if i.child_order_seq != 0 && s[k].trader == i.trader => b.with_side(
            i.side == 0,
            s.remove(k),
        ),
        _ => b,
    }
}

/// Cancels an iceberg and takes its resting part out of the book; its account is
/// then to be closed. `child_id` is the id that belongs to the limit, the side and
/// the number of the last part. On refusal the book does not change.
pub fn cancel_iceberg_v2(
    iceberg: &IcebergOrderAccount,
    trader: Pubkey,
    book: &mut MarketBook,
    child_id: u64,
) -> (r: Result<IcebergCancelledEvent, FlashBookError>)
    requires
        old(book)@.wf(),
    ensures
        final(book)@.wf(),
        match cancel_iceberg_refusal(*iceberg, trader, old(book)@) {
            Some(e) => r == Err::<IcebergCancelledEvent, FlashBookError>(e) && *final(book) == *old(
                book,
            ),
            None => {
                &&& final(book)@ == book_without_child(*iceberg, old(book)@, child_id)
                &&& r == Ok::<IcebergCancelledEvent, FlashBookError>(
                    IcebergCancelledEvent {
                        market: iceberg.market,
                        trader,
                        iceberg_id: iceberg.iceberg_id,
                        unfilled_lots: iceberg_unfilled(*iceberg),
                    },
                )
            },
        },
{
    if iceberg.trader != trader {
        return Err(FlashBookError::WrongTrader);
    }
    if iceberg.child_order_seq != 0 {
        if book.market_pubkey != iceberg.market {
            return Err(FlashBookError::WrongMarket);
        }
        let bid: bool = iceberg.side == 0;
        match book.lookup(bid, child_id) {
            Some(k) => {
                let resting = book.order_at(bid, k);
                if resting.trader == trader {
                    book.remove_at(bid, k);
                    proof {
                        law_removal_keeps_priority(old(book)@, bid, k as int);
                    }
                }
            },
            None => {},
        }
    }
    Ok(
        IcebergCancelledEvent {
            market: iceberg.market,
            trader,
            iceberg_id: iceberg.iceberg_id,
            unfilled_lots: compute_iceberg_unfilled(iceberg),
        },
    )
}

/// What a trader asks for when placing an iceberg.
#[derive(Clone, Copy, Debug, PartialEq, Eq, Structural)]
pub struct IcebergRequest {
    pub iceberg_id: u8,
    pub side: u8,
    pub total_size_lots: u64,
    pub displayed_size_lots: u64,
    pub limit_ticks: u64,
    pub expires_at_slot: u64,
    pub sub_index: u8,
}

/// Why an iceberg is refused, if it is.
pub open spec fn place_iceberg_refusal(
    m: MarketAccount,
    market_key: Pubkey,
    b: BookModel,
    q: IcebergRequest,
    reserved: u64,
    now: u64,
) -> Option<FlashBookError> {
    if q.side > 1 {
        Some(FlashBookError::OutOfRange)
    } else if q.total_size_lots == 0 || q.displayed_size_lots == 0 {
        Some(FlashBookError::ZeroSize)
    } else if q.displayed_size_lots > q.total_size_lots {
        Some(FlashBookError::OutOfRange)
    } else if q.limit_ticks == 0 {
        Some(FlashBookError::ZeroPrice)
    } else if q.displayed_size_lots < m.params.min_base_lots {
        Some(FlashBookError::SizeBelowMinLot)
    } else if q.limit_ticks % m.params.tick_size != 0 {
        Some(FlashBookError::PriceNotOnTick)
    } else if q.expires_at_slot > 0 && q.expires_at_slot <= now {
        Some(FlashBookError::OutOfRange)
    } else if b.market_pubkey != market_key {
        Some(FlashBookError::WrongMarket)
    } else {
        next_order_refusal(b, reserved)
    }
}

/// A new iceberg of which nothing has been shown.
pub open spec fn iceberg_of_request(
    market_key: Pubkey,
    trader: Pubkey,
    bump: u8,
    q: IcebergRequest,
    now: u64,
) -> IcebergOrderAccount {
    IcebergOrderAccount {
        trader,
        market: market_key,
        bump,
        iceberg_id: q.iceberg_id,
        side: q.side,
        active: true,
        sub_index: q.sub_index,
        limit_ticks: q.limit_ticks,
        total_size_lots: q.total_size_lots,
        remaining_lots: q.total_size_lots,
        displayed_size_lots: q.displayed_size_lots,
        child_order_seq: 0,
        created_at_slot: now,
        expires_at_slot: q.expires_at_slot,
    }
}

/// Places an iceberg and shows its first part. It stays active even if that part is
/// all of it. On refusal the book does not change.
pub fn place_iceberg_order_v3(
    market_key: Pubkey,
    market: &MarketAccount,
    trader: Pubkey,
    bump: u8,
    book: &mut MarketBook,
    q: IcebergRequest,
    order_id: u64,
    limits: &Limits,
    now: u64,
) -> (r: Result<(IcebergOrderAccount, IcebergOrderV3PlacedEvent), FlashBookError>)
    requires
        market.params.tick_size > 0,
        old(book)@.wf(),
    ensures
        final(book)@.wf(),
        match place_iceberg_refusal(
            *market,
            market_key,
            old(book)@,
            q,
            limits.flp_seq_reserved_offset,
            now,
        ) {
            Some(e) => r == Err::<(IcebergOrderAccount, IcebergOrderV3PlacedEvent), FlashBookError>(
                e,
            ) && *final(book) == *old(book),
            None => {
                let i = iceberg_of_request(market_key, trader, bump, q, now);
                let seq = (old(book)@.order_seq_counter + 1) as u64;
                &&& final(book)@ == book_after_rest(
                    old(book)@,
                    chunk_order(i, seq, order_id, now),
                )
                &&& r == Ok::<(IcebergOrderAccount, IcebergOrderV3PlacedEvent), FlashBookError>(
                    (
                        IcebergOrderAccount { active: true, ..iceberg_shown(i, seq) },
                        IcebergOrderV3PlacedEvent {
                            market: market_key,
                            trader,
                            iceberg_id: q.iceberg_id,
                            side: q.side,
                            total_size_lots: q.total_size_lots,
                            displayed_size_lots: q.displayed_size_lots,
                            limit_ticks: q.limit_ticks,
                            first_chunk_size_lots: q.displayed_size_lots,
                        },
                    ),
                )
            },
        },
{
    if q.side > 1 {
        return Err(FlashBookError::OutOfRange);
    }
    if q.total_size_lots == 0 || q.displayed_size_lots == 0 {
        return Err(FlashBookError::ZeroSize);
    }
    if q.displayed_size_lots > q.total_size_lots {
        return Err(FlashBookError::OutOfRange);
    }
    if q.limit_ticks == 0 {
        return Err(FlashBookError::ZeroPrice);
    }
    if q.displayed_size_lots < market.params.min_base_lots {
        return Err(FlashBookError::SizeBelowMinLot);
    }
    if q.limit_ticks % market.params.tick_size != 0 {
        return Err(FlashBookError::PriceNotOnTick);
    }
    if q.expires_at_slot > 0 && q.expires_at_slot <= now {
        return Err(FlashBookError::OutOfRange);
    }
    if book.market_pubkey != market_key {
        return Err(FlashBookError::WrongMarket);
    }
    let mut i = IcebergOrderAccount {
        trader,
        market: market_key,
        bump,
        iceberg_id: q.iceberg_id,
        side: q.side,
        active: true,
        sub_index: q.sub_index,
        limit_ticks: q.limit_ticks,
        total_size_lots: q.total_size_lots,
        remaining_lots: q.total_size_lots,
        displayed_size_lots: q.displayed_size_lots,
        child_order_seq: 0,
        created_at_slot: now,
        expires_at_slot: q.expires_at_slot,
    };
    match show_chunk(&mut i, book, order_id, limits, now) {
        Ok(_) => {},
        Err(e) => {
            return Err(e);
        },
    }
    i.active = true;
    Ok(
        (
            i,
            IcebergOrderV3PlacedEvent {
                market: market_key,
                trader,
                iceberg_id: q.iceberg_id,
                side: q.side,
                total_size_lots: q.total_size_lots,
                displayed_size_lots: q.displayed_size_lots,
                limit_ticks: q.limit_ticks,
                first_chunk_size_lots: q.displayed_size_lots,
            },
        ),
    )
}

/// Shows the next part of an iceberg: anyone may. On refusal nothing changes.
pub fn replenish_iceberg_v3(
    market_key: Pubkey,
    caller: Pubkey,
    iceberg: &mut IcebergOrderAccount,
    book: &mut MarketBook,
    order_id: u64,
    limits: &Limits,
    now: u64,
) -> (r: Result<IcebergV3ReplenishedEvent, FlashBookError>)
    requires
        old(iceberg).wf(),
        old(book)@.wf(),
    ensures
        final(book)@.wf(),
        ({
            let i = *old(iceberg);
            let b = old(book)@;
            let refusal = match replenish_gate(i, b, market_key, now) {
                Some(e) => Some(e),
                None => next_order_refusal(b, limits.flp_seq_reserved_offset),
            };
            match refusal {
                Some(e) => r == Err::<IcebergV3ReplenishedEvent, FlashBookError>(e)
                    && *final(iceberg) == i && *final(book) == *old(book),
                None => {
                    let seq = (b.order_seq_counter + 1) as u64;
                    &&& *final(iceberg) == iceberg_shown(i, seq)
                    &&& final(book)@ == book_after_rest(b, chunk_order(i, seq, order_id, now))
                    &&& r == Ok::<IcebergV3ReplenishedEvent, FlashBookError>(
                        IcebergV3ReplenishedEvent {
                            market: market_key,
                            trader: i.trader,
                            iceberg_id: i.iceberg_id,
                            executor: caller,
                            chunk_size_lots: iceberg_chunk(i),
                            remaining_lots: iceberg_shown(i, seq).remaining_lots,
                        },
                    )
                },
            }
        }),
{
    match check_replenish(iceberg, book, market_key, now) {
        Ok(_) => {},
        Err(e) => {
            return Err(e);
        },
    }
    let chunk: u64 = min_u64(iceberg.displayed_size_lots, iceberg.remaining_lots);
    match show_chunk(iceberg, book, order_id, limits, now) {
        Ok(_) => Ok(
            IcebergV3ReplenishedEvent {
                market: market_key,
                trader: iceberg.trader,
                iceberg_id: iceberg.iceberg_id,
                executor: caller,
                chunk_size_lots: chunk,
                remaining_lots: iceberg.remaining_lots,
            },
        ),
        Err(e) => Err(e),
    }
}

/// Cancels an iceberg; its account is then to be closed.
pub fn cancel_iceberg_v3(iceberg: &IcebergOrderAccount, trader: Pubkey) -> (r: Result<
    IcebergV3CancelledEvent,
    FlashBookError,
>)
    ensures
        r == (if iceberg.trader != trader {
            Err::<IcebergV3CancelledEvent, FlashBookError>(FlashBookError::WrongTrader)
        } else {
            Ok(
                IcebergV3CancelledEvent {
                    market: iceberg.market,
                    trader,
                    iceberg_id: iceberg.iceberg_id,
                    unfilled_lots: iceberg_unfilled(*iceberg),
                },
            )
        }),
{
    if iceberg.trader != trader {
        return Err(FlashBookError::WrongTrader);
    }
    Ok(
        IcebergV3CancelledEvent {
            market: iceberg.market,
            trader,
            iceberg_id: iceberg.iceberg_id,
            unfilled_lots: compute_iceberg_unfilled(iceberg),
        },
    )
}

/// Every part that is shown comes out of what was not shown yet, and no part is
/// larger than the displayed size. An iceberg that has shown everything shows no
/// more.
pub proof fn law_iceberg_shows_what_it_has(
    i: IcebergOrderAccount,
    b: BookModel,
    market_key: Pubkey,
    slot: u64,
    seq: u64,
    order_id: u64,
    later: BookModel,
    later_slot: u64,
)
    requires
        i.wf(),
        replenish_gate(i, b, market_key, slot) is None,
    ensures
        ({
            let j = iceberg_shown(i, seq);
            let o = chunk_order(i, seq, order_id, slot);
            &&& 0 < o.size_lots <= i.displayed_size_lots
            &&& j.remaining_lots + o.size_lots == i.remaining_lots
            &&& j.remaining_lots == 0 ==> replenish_gate(j, later, market_key, later_slot) is Some
        }),
{
}

} // verus!
