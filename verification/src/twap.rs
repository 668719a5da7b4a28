//! Orders that are placed in slices over time.
use vstd::prelude::*;

use crate::book::{BookModel, MarketBook, RestingOrderV2, book_after_rest, next_order_refusal};
use crate::constants::Limits;
use crate::errors::FlashBookError;
use crate::events::{
    TwapOrderCancelledEvent, TwapOrderV3CancelledEvent, TwapOrderV3PlacedEvent,
    TwapSliceExecutedV2Event, TwapSliceV3ExecutedEvent, TwapSliceV3SlippageSkippedEvent,
};
use crate::keys::Pubkey;
use crate::math::{low_u32, max_int, min_int, min_u64, sat_u64, truncate_u64_to_u32, unix_seconds};
use crate::state::{MarketAccount, TwapOrderAccount, TwapOrderAccountV3};
use crate::triggers::{is_oracle_stale, oracle_stale};
use crate::triggers_v3::{
    bound_misplaced, bound_off_tick, check_bound, slippage_breached, slippage_cap_breached,
};

verus! {

/// What is still to be placed of an order in slices.
pub open spec fn twap_remaining(t: TwapOrderAccount) -> int {
    t.total_size_lots - t.size_executed_lots
}

/// The size of the next slice.
pub open spec fn twap_slice(t: TwapOrderAccount) -> u64 {
    min_int(t.slice_size_lots as int, twap_remaining(t)) as u64
}

/// Why no slice can be placed now, if none can. `overrun` is the refusal for an
/// order of which more than the total was placed.
pub open spec fn twap_gate(
    m: MarketAccount,
    t: TwapOrderAccount,
    slot: u64,
    overrun: FlashBookError,
) -> Option<FlashBookError> {
    if !t.active {
        Some(FlashBookError::OutOfRange)
    } else if t.end_slot > 0 && t.end_slot < slot {
        Some(FlashBookError::OutOfRange)
    } else if slot < sat_u64(t.last_slice_at_slot + t.slot_interval) {
        Some(FlashBookError::OutOfRange)
    } else if twap_remaining(t) < 0 {
        Some(overrun)
    } else if twap_remaining(t) == 0 {
        Some(FlashBookError::OutOfRange)
    } else if twap_slice(t) < m.params.min_base_lots && twap_slice(t) != twap_remaining(t) {
        Some(FlashBookError::SizeBelowMinLot)
    } else {
        None
    }
}

/// Tests whether a slice can be placed now, and gives its size.
pub fn check_twap_gate(
    m: &MarketAccount,
    t: &TwapOrderAccount,
    slot: u64,
    overrun: FlashBookError,
) -> (r: Result<u64, FlashBookError>)
    ensures
        r == (match twap_gate(*m, *t, slot, overrun) {
            Some(e) => Err::<u64, FlashBookError>(e),
            None => Ok(twap_slice(*t)),
        }),
{
    if !t.active {
        return Err(FlashBookError::OutOfRange);
    }
    if t.end_slot > 0 && t.end_slot < slot {
        return Err(FlashBookError::OutOfRange);
    }
    if slot < t.last_slice_at_slot.saturating_add(t.slot_interval) {
        return Err(FlashBookError::OutOfRange);
    }
    let remaining: u64 = match t.total_size_lots.checked_sub(t.size_executed_lots) {
        Some(n) => n,
        None => {
            return Err(overrun);
        },
    };
    if remaining == 0 {
        return Err(FlashBookError::OutOfRange);
    }
    let slice: u64 = min_u64(t.slice_size_lots, remaining);
    if slice < m.params.min_base_lots && slice != remaining {
        return Err(FlashBookError::SizeBelowMinLot);
    }
    Ok(slice)
}

/// The order that a slice becomes.
pub open spec fn slice_order(t: TwapOrderAccount, seq: u64, order_id: u64, slot: u64) -> RestingOrderV2 {
    RestingOrderV2 {
        order_id,
        seq,
        price_ticks: t.limit_price_ticks,
        size_lots: twap_slice(t),
        expires_at_slot: 0,
        trader: t.trader,
        last_valid_slot: low_u32(slot),
        side: t.side,
        order_type: 0,
        flags: 0,
        sub_index: t.sub_index,
    }
}

/// The order in slices after one more was placed. After the last one it is done.
pub open spec fn sliced(t: TwapOrderAccount, slot: u64) -> TwapOrderAccount {
    TwapOrderAccount {
        size_executed_lots: (t.size_executed_lots + twap_slice(t)) as u64,
        last_slice_at_slot: slot,
        active: t.active && twap_slice(t) < twap_remaining(t),
        ..t
    }
}

/// Why the book does not take a slice, if it does not.
pub open spec fn slice_refusal(b: BookModel, market_key: Pubkey, reserved: u64) -> Option<
    FlashBookError,
> {
    if b.market_pubkey != market_key {
        Some(FlashBookError::WrongMarket)
    } else {
        next_order_refusal(b, reserved)
    }
}

/// Places a slice of the given size. On refusal nothing changes.
pub fn place_slice(
    market_key: Pubkey,
    t: &mut TwapOrderAccount,
    book: &mut MarketBook,
    slice: u64,
    order_id: u64,
    limits: &Limits,
    slot: u64,
) -> (r: Result<u64, FlashBookError>)
    requires
        old(book)@.wf(),
        old(t).side <= 1,
        0 < slice,
        slice == twap_slice(*old(t)),
        slice <= twap_remaining(*old(t)),
    ensures
        final(book)@.wf(),
        match slice_refusal(old(book)@, market_key, limits.flp_seq_reserved_offset) {
            Some(e) => r == Err::<u64, FlashBookError>(e) && *final(t) == *old(t) && *final(book)
                == *old(book),
            None => {
                let seq = (old(book)@.order_seq_counter + 1) as u64;
                &&& r == Ok::<u64, FlashBookError>(seq)
                &&& *final(t) == sliced(*old(t), slot)
                &&& final(book)@ == book_after_rest(
                    old(book)@,
                    slice_order(*old(t), seq, order_id, slot),
                )
            },
        },
{
    if book.market_pubkey != market_key {
        return Err(FlashBookError::WrongMarket);
    }
    let order = RestingOrderV2 {
        order_id,
        seq: 0,
        price_ticks: t.limit_price_ticks,
        size_lots: slice,
        expires_at_slot: 0,
        trader: t.trader,
        last_valid_slot: truncate_u64_to_u32(slot),
        side: t.side,
        order_type: 0,
        flags: 0,
        sub_index: t.sub_index,
    };
    let seq: u64 = match book.rest_next(order, limits.flp_seq_reserved_offset) {
        Ok(n) => n,
        Err(e) => {
            return Err(e);
        },
    };
    t.size_executed_lots = t.size_executed_lots + slice;
    t.last_slice_at_slot = slot;
    if t.size_executed_lots >= t.total_size_lots {
        t.active = false;
    }
    Ok(seq)
}

/// Places the next slice of an order: anyone may, once it is time. On refusal
/// nothing changes.
pub fn execute_twap_slice_v2(
    market_key: Pubkey,
    market: &MarketAccount,
    caller: Pubkey,
    twap: &mut TwapOrderAccount,
    book: &mut MarketBook,
    order_id: u64,
    limits: &Limits,
    now: u64,
) -> (r: Result<TwapSliceExecutedV2Event, FlashBookError>)
    requires
        old(twap).wf(),
        old(book)@.wf(),
    ensures
        final(book)@.wf(),
        ({
            let t = *old(twap);
            let refusal = match twap_gate(*market, t, now, FlashBookError::ArithmeticOverflow) {
                Some(e) => Some(e),
                None => slice_refusal(old(book)@, market_key, limits.flp_seq_reserved_offset),
            };
            match refusal {
                Some(e) => r == Err::<TwapSliceExecutedV2Event, FlashBookError>(e)
                    && *final(twap) == t && *final(book) == *old(book),
                None => {
                    let seq = (old(book)@.order_seq_counter + 1) as u64;
                    &&& *final(twap) == sliced(t, now)
                    &&& final(book)@ == book_after_rest(
                        old(book)@,
                        slice_order(t, seq, order_id, now),
                    )
                    &&& r == Ok::<TwapSliceExecutedV2Event, FlashBookError>(
                        TwapSliceExecutedV2Event {
                            market: market_key,
                            trader: t.trader,
                            twap_id: t.twap_id,
                            executor: caller,
                            slice_size_lots: twap_slice(t),
                            cumulative_executed_lots: sliced(t, now).size_executed_lots,
                            order_seq: seq,
                        },
                    )
                },
            }
        }),
{
    let slice: u64 = match check_twap_gate(market, twap, now, FlashBookError::ArithmeticOverflow) {
        Ok(n) => n,
        Err(e) => {
            return Err(e);
        },
    };
    match place_slice(market_key, twap, book, slice, order_id, limits, now) {
        Ok(order_seq) => Ok(
            TwapSliceExecutedV2Event {
                market: market_key,
                trader: twap.trader,
                twap_id: twap.twap_id,
                executor: caller,
                slice_size_lots: slice,
                cumulative_executed_lots: twap.size_executed_lots,
                order_seq,
            },
        ),
        Err(e) => Err(e),
    }
}

/// What was not placed of an order in slices.
pub open spec fn twap_unfilled(t: TwapOrderAccount) -> u64 {
    max_int(twap_remaining(t), 0) as u64
}

/// Cancels an order in slices; its account is then to be closed.
pub fn cancel_twap_order(twap: &TwapOrderAccount, trader: Pubkey) -> (r: Result<
    TwapOrderCancelledEvent,
    FlashBookError,
>)
    ensures
        r == (if twap.trader != trader {
            Err::<TwapOrderCancelledEvent, FlashBookError>(FlashBookError::WrongTrader)
        } else {
            Ok(
                TwapOrderCancelledEvent {
                    market: twap.market,
                    trader,
                    twap_id: twap.twap_id,
                    unfilled_lots: twap_unfilled(*twap),
                },
            )
        }),
{
    if twap.trader != trader {
        return Err(FlashBookError::WrongTrader);
    }
    Ok(
        TwapOrderCancelledEvent {
            market: twap.market,
            trader,
            twap_id: twap.twap_id,
            unfilled_lots: twap.total_size_lots.saturating_sub(twap.size_executed_lots),
        },
    )
}

/// What a trader asks for when placing an order in slices.
#[derive(Clone, Copy, Debug, PartialEq, Eq, Structural)]
pub struct TwapRequest {
    pub twap_id: u8,
    pub side: u8,
    pub slice_size_lots: u64,
    pub total_size_lots: u64,
    pub limit_price_ticks: u64,
    pub slot_interval: u64,
    pub end_slot: u64,
    pub sub_index: u8,
    pub acceptable_price_ticks: u64,
}

/// Why an order in slices is refused, if it is.
pub open spec fn place_twap_refusal(m: MarketAccount, q: TwapRequest, now: u64) -> Option<
    FlashBookError,
> {
    let tick = m.params.tick_size;
    if q.side > 1 {
        Some(FlashBookError::OutOfRange)
    } else if q.slice_size_lots == 0 {
        Some(FlashBookError::ZeroSize)
    } else if q.total_size_lots < q.slice_size_lots {
        Some(FlashBookError::OutOfRange)
    } else if q.limit_price_ticks == 0 {
        Some(FlashBookError::ZeroPrice)
    } else if q.slot_interval == 0 {
        Some(FlashBookError::OutOfRange)
    } else if q.limit_price_ticks % tick != 0 {
        Some(FlashBookError::PriceNotOnTick)
    } else if q.slice_size_lots < m.params.min_base_lots {
        Some(FlashBookError::SizeBelowMinLot)
    } else if bound_off_tick(q.acceptable_price_ticks, tick) {
        Some(FlashBookError::PriceNotOnTick)
    } else if bound_misplaced(q.acceptable_price_ticks, q.side, q.limit_price_ticks) {
        Some(FlashBookError::OutOfRange)
    } else if q.end_slot > 0 && q.end_slot <= now {
        Some(FlashBookError::OutOfRange)
    } else {
        None
    }
}

/// Places an order in slices. Its first slice is due at once.
pub fn place_twap_order_v3(
    market_key: Pubkey,
    market: &MarketAccount,
    trader: Pubkey,
    bump: u8,
    q: TwapRequest,
    now: u64,
) -> (r: Result<(TwapOrderAccountV3, TwapOrderV3PlacedEvent), FlashBookError>)
    requires
        market.params.tick_size > 0,
    ensures
        r == (match place_twap_refusal(*market, q, now) {
            Some(e) => Err::<(TwapOrderAccountV3, TwapOrderV3PlacedEvent), FlashBookError>(e),
            None => Ok(
                (
                    TwapOrderAccountV3 {
                        twap: TwapOrderAccount {
                            trader,
                            market: market_key,
                            bump,
                            twap_id: q.twap_id,
                            side: q.side,
                            active: true,
                            slice_size_lots: q.slice_size_lots,
                            total_size_lots: q.total_size_lots,
                            size_executed_lots: 0,
                            limit_price_ticks: q.limit_price_ticks,
                            slot_interval: q.slot_interval,
                            end_slot: q.end_slot,
                            last_slice_at_slot: 0,
                            sub_index: q.sub_index,
                        },
                        start_slot: now,
                        acceptable_price_ticks: q.acceptable_price_ticks,
                    },
                    TwapOrderV3PlacedEvent {
                        market: market_key,
                        trader,
                        twap_id: q.twap_id,
                        side: q.side,
                        total_size_lots: q.total_size_lots,
                        slice_size_lots: q.slice_size_lots,
                        limit_price_ticks: q.limit_price_ticks,
                        slot_interval: q.slot_interval,
                    },
                ),
            ),
        }),
        r matches Ok(p) ==> p.0.twap.wf(),
{
    let tick: u64 = market.params.tick_size;
    if q.side > 1 {
        return Err(FlashBookError::OutOfRange);
    }
    if q.slice_size_lots == 0 {
        return Err(FlashBookError::ZeroSize);
    }
    if q.total_size_lots < q.slice_size_lots {
        return Err(FlashBookError::OutOfRange);
    }
    if q.limit_price_ticks == 0 {
        return Err(FlashBookError::ZeroPrice);
    }
    if q.slot_interval == 0 {
        return Err(FlashBookError::OutOfRange);
    }
    if q.limit_price_ticks % tick != 0 {
        return Err(FlashBookError::PriceNotOnTick);
    }
    if q.slice_size_lots < market.params.min_base_lots {
        return Err(FlashBookError::SizeBelowMinLot);
    }
    match check_bound(q.acceptable_price_ticks, q.side, q.limit_price_ticks, tick) {
        Ok(_) => {},
        Err(e) => {
            return Err(e);
        },
    }
    if q.end_slot > 0 && q.end_slot <= now {
        return Err(FlashBookError::OutOfRange);
    }
    Ok(
        (
            TwapOrderAccountV3 {
                twap: TwapOrderAccount {
                    trader,
                    market: market_key,
                    bump,
                    twap_id: q.twap_id,
                    side: q.side,
                    active: true,
                    slice_size_lots: q.slice_size_lots,
                    total_size_lots: q.total_size_lots,
                    size_executed_lots: 0,
                    limit_price_ticks: q.limit_price_ticks,
                    slot_interval: q.slot_interval,
                    end_slot: q.end_slot,
                    last_slice_at_slot: 0,
                    sub_index: q.sub_index,
                },
                start_slot: now,
                acceptable_price_ticks: q.acceptable_price_ticks,
            },
            TwapOrderV3PlacedEvent {
                market: market_key,
                trader,
                twap_id: q.twap_id,
                side: q.side,
                total_size_lots: q.total_size_lots,
                slice_size_lots: q.slice_size_lots,
                limit_price_ticks: q.limit_price_ticks,
                slot_interval: q.slot_interval,
            },
        ),
    )
}

/// How a slice can fail to be placed. Either way nothing changes.
#[derive(Clone, Copy, Debug, PartialEq, Eq, Structural)]
pub enum SliceFailure {
    /// It was not to be placed.
    Refused(FlashBookError),
    /// The price was past the trader's bound; the slice is due again.
    SlippageSkipped(TwapSliceV3SlippageSkippedEvent),
}

impl SliceFailure {
    /// The error that a failure stands for.
    pub open spec fn code(self) -> FlashBookError {
        match self {
            SliceFailure::Refused(e) => e,
            SliceFailure::SlippageSkipped(_) => FlashBookError::TriggerSlippageExceeded,
        }
    }

    /// The error that a failure stands for.
    pub fn error(&self) -> (r: FlashBookError)
        ensures
            r == self.code(),
    {
        match self {
            SliceFailure::Refused(e) => *e,
            SliceFailure::SlippageSkipped(_) => FlashBookError::TriggerSlippageExceeded,
        }
    }
}

/// Why a slice with a price bound cannot be placed now, if it cannot, apart from the
/// bound itself.
pub open spec fn twap_v3_gate(m: MarketAccount, t: TwapOrderAccount, slot: u64, now: u64) -> Option<
    FlashBookError,
> {
    match twap_gate(m, t, slot, FlashBookError::OutOfRange) {
        Some(e) => Some(e),
        None => if oracle_stale(m, now) {
            Some(FlashBookError::OracleTooStale)
        } else {
            None
        },
    }
}

/// Places the next slice of an order: anyone may, once it is time. A slice is
/// skipped while the oracle's price is past the trader's bound. On failure nothing
/// changes.
pub fn execute_twap_slice_v3(
    market_key: Pubkey,
    market: &MarketAccount,
    caller: Pubkey,
    order: &mut TwapOrderAccountV3,
    book: &mut MarketBook,
    order_id: u64,
    limits: &Limits,
    now_slot: u64,
    unix_now: i64,
) -> (r: Result<TwapSliceV3ExecutedEvent, SliceFailure>)
    requires
        old(order).twap.wf(),
        old(book)@.wf(),
    ensures
        final(book)@.wf(),
        r is Err ==> *final(order) == *old(order) && *final(book) == *old(book),
        ({
            let t = old(order).twap;
            let cap = old(order).acceptable_price_ticks;
            match twap_v3_gate(*market, t, now_slot, max_int(unix_now as int, 0) as u64) {
                Some(e) => r == Err::<TwapSliceV3ExecutedEvent, SliceFailure>(
                    SliceFailure::Refused(e),
                ),
                None => if slippage_breached(cap, t.side, market.oracle_price_ticks) {
                    r == Err::<TwapSliceV3ExecutedEvent, SliceFailure>(
                        SliceFailure::SlippageSkipped(
                            TwapSliceV3SlippageSkippedEvent {
                                market: market_key,
                                trader: t.trader,
                                twap_id: t.twap_id,
                                oracle_price_ticks: market.oracle_price_ticks,
                                acceptable_price_ticks: cap,
                            },
                        ),
                    )
                } else {
                    match slice_refusal(old(book)@, market_key, limits.flp_seq_reserved_offset) {
                        Some(e) => r == Err::<TwapSliceV3ExecutedEvent, SliceFailure>(
                            SliceFailure::Refused(e),
                        ),
                        None => {
                            let seq = (old(book)@.order_seq_counter + 1) as u64;
                            &&& *final(order) == (TwapOrderAccountV3 {
                                twap: sliced(t, now_slot),
                                ..*old(order)
                            })
                            &&& final(book)@ == book_after_rest(
                                old(book)@,
                                slice_order(t, seq, order_id, now_slot),
                            )
                            &&& r == Ok::<TwapSliceV3ExecutedEvent, SliceFailure>(
                                TwapSliceV3ExecutedEvent {
                                    market: market_key,
                                    trader: t.trader,
                                    twap_id: t.twap_id,
                                    executor: caller,
                                    slice_size_lots: twap_slice(t),
                                    cumulative_executed_lots: sliced(
                                        t,
                                        now_slot,
                                    ).size_executed_lots,
                                    order_seq: seq,
                                },
                            )
                        },
                    }
                },
            }
        }),
{
    let slice: u64 = match check_twap_gate(
        market,
        &order.twap,
        now_slot,
        FlashBookError::OutOfRange,
    ) {
        Ok(n) => n,
        Err(e) => {
            return Err(SliceFailure::Refused(e));
        },
    };
    let now: u64 = unix_seconds(unix_now);
    if is_oracle_stale(market, now) {
        return Err(SliceFailure::Refused(FlashBookError::OracleTooStale));
    }
    let oracle: u64 = market.oracle_price_ticks;
    if slippage_cap_breached(order.acceptable_price_ticks, order.twap.side, oracle) {
        return Err(
            SliceFailure::SlippageSkipped(
                TwapSliceV3SlippageSkippedEvent {
                    market: market_key,
                    trader: order.twap.trader,
                    twap_id: order.twap.twap_id,
                    oracle_price_ticks: oracle,
                    acceptable_price_ticks: order.acceptable_price_ticks,
                },
            ),
        );
    }
    match place_slice(market_key, &mut order.twap, book, slice, order_id, limits, now_slot) {
        Ok(order_seq) => Ok(
            TwapSliceV3ExecutedEvent {
                market: market_key,
                trader: order.twap.trader,
                twap_id: order.twap.twap_id,
                executor: caller,
                slice_size_lots: slice,
                cumulative_executed_lots: order.twap.size_executed_lots,
                order_seq,
            },
        ),
        Err(e) => Err(SliceFailure::Refused(e)),
    }
}

/// Cancels an order in slices; its account is then to be closed.
pub fn cancel_twap_order_v3(order: &TwapOrderAccountV3, trader: Pubkey) -> (r: Result<
    TwapOrderV3CancelledEvent,
    FlashBookError,
>)
    ensures
        r == (if order.twap.trader != trader {
            Err::<TwapOrderV3CancelledEvent, FlashBookError>(FlashBookError::WrongTrader)
        } else {
            Ok(
                TwapOrderV3CancelledEvent {
                    market: order.twap.market,
                    trader,
                    twap_id: order.twap.twap_id,
                    unfilled_lots: twap_unfilled(order.twap),
                },
            )
        }),
{
    if order.twap.trader != trader {
        return Err(FlashBookError::WrongTrader);
    }
    Ok(
        TwapOrderV3CancelledEvent {
            market: order.twap.market,
            trader,
            twap_id: order.twap.twap_id,
            unfilled_lots: order.twap.total_size_lots.saturating_sub(
                order.twap.size_executed_lots,
            ),
        },
    )
}

/// Slices never add up to more than the order, two of them are at least the interval
/// apart, and an order that is done places no more.
pub proof fn law_slices_keep_to_the_schedule(
    m: MarketAccount,
    t: TwapOrderAccount,
    slot: u64,
    later: u64,
    overrun: FlashBookError,
)
    requires
        t.wf(),
        twap_gate(m, t, slot, overrun) is None,
    ensures
        ({
            let u = sliced(t, slot);
            &&& t.size_executed_lots < u.size_executed_lots <= u.total_size_lots
            &&& u.total_size_lots == t.total_size_lots
            &&& u.active <==> u.size_executed_lots < u.total_size_lots
            &&& twap_gate(m, u, later, overrun) is None ==> u.active && later >= sat_u64(
                slot + t.slot_interval,
            )
        }),
{
}

} // verus!
