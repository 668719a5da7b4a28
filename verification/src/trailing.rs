//! Stops that follow the price in the trader's favour.
use vstd::prelude::*;

use crate::constants::BPS_DENOM;
use crate::errors::FlashBookError;
use crate::events::TrailingStopRatchetedEvent;
use crate::fees::{bps_of, bps_of_u64};
use crate::keys::Pubkey;
use crate::math::{clamp_u128_to_u64, max_int, sat_u64};
use crate::state::{MarketAccount, TriggerOrderAccount, TriggerTerms};

verus! {

/// The smallest multiple of `tick` that is at least `x`.
pub open spec fn tick_ceil(x: int, tick: int) -> int {
    if x % tick == 0 {
        x
    } else {
        x / tick * tick + tick
    }
}

/// The largest multiple of `tick` that is at most `x`.
pub open spec fn tick_floor(x: int, tick: int) -> int {
    x / tick * tick
}

/// The trigger price without regard to ticks: the oracle's price less the offset
/// for a long's stop, plus the offset for a short's, and at least one tick.
pub open spec fn raw_stop(kind: u8, oracle: u64, offset_bps: u32, tick: u64) -> int {
    let offset = bps_of(oracle as int, offset_bps as int);
    max_int(
        if kind == 0 {
            oracle - offset
        } else {
            oracle + offset
        },
        tick as int,
    )
}

/// The trigger price: rounded to a tick so that the stop protects no less, up for a
/// long's stop and down for a short's.
pub open spec fn stop_price(kind: u8, oracle: u64, offset_bps: u32, tick: u64) -> u64 {
    let raw = raw_stop(kind, oracle, offset_bps, tick);
    sat_u64(
        if kind == 0 {
            tick_ceil(raw, tick as int)
        } else {
            tick_floor(raw, tick as int)
        },
    ) as u64
}

/// Computes the trigger price.
pub fn compute_stop_price(kind: u8, oracle: u64, offset_bps: u32, tick: u64) -> (r: u64)
    requires
        tick > 0,
    ensures
        r == stop_price(kind, oracle, offset_bps, tick),
{
    let offset: u128 = bps_of_u64(oracle, offset_bps);
    proof {
        let p = oracle * offset_bps;
        assert(0 <= p <= u64::MAX * u32::MAX) by (nonlinear_arith)
            requires
                p == oracle * offset_bps,
                oracle >= 0,
                offset_bps >= 0,
        ;
    }
    let moved: u128 = if kind == 0 {
        (oracle as u128).saturating_sub(offset)
    } else {
        oracle as u128 + offset
    };
    let raw: u128 = if moved < tick as u128 {
        tick as u128
    } else {
        moved
    };
    let t: u128 = tick as u128;
    proof {
        let x = raw as int;
        let d = t as int;
        assert(0 <= x / d * d <= x && x == x / d * d + x % d) by (nonlinear_arith)
            requires
                x >= 0,
                d > 0,
        ;
    }
    let floored: u128 = raw / t * t;
    if kind == 0 {
        let up: u128 = if raw % t != 0 {
            t
        } else {
            0
        };
        clamp_u128_to_u64(floored + up)
    } else {
        clamp_u128_to_u64(floored)
    }
}

/// The stop price lies on a tick, never on the less protective side of the price
/// that the offset gives, and within one tick of it.
pub proof fn law_stop_rounds_protectively(kind: u8, oracle: u64, offset_bps: u32, tick: u64)
    requires
        tick > 0,
        raw_stop(kind, oracle, offset_bps, tick) + tick <= u64::MAX,
    ensures
        ({
            let raw = raw_stop(kind, oracle, offset_bps, tick);
            let stop = stop_price(kind, oracle, offset_bps, tick);
            &&& stop % tick == 0
            &&& kind == 0 ==> raw <= stop < raw + tick
            &&& kind != 0 ==> raw - tick < stop <= raw
        }),
{
    let x = raw_stop(kind, oracle, offset_bps, tick);
    let d = tick as int;
    let q = x / d;
    assert(0 <= x % d < d && x == q * d + x % d && (q * d) % d == 0 && (q * d + d) % d == 0)
        by (nonlinear_arith)
        requires
            d > 0,
            q == x / d,
    ;
}

/// Whether the oracle's price has moved further in the trader's favour than before.
pub open spec fn trail_progresses(t: TriggerOrderAccount, oracle: u64) -> bool {
    ||| t.trailing_anchor_ticks == 0
    ||| t.terms.kind == 0 && oracle > t.trailing_anchor_ticks
    ||| t.terms.kind != 0 && oracle < t.trailing_anchor_ticks
}

/// Why a trigger cannot be trailed, if it cannot.
pub open spec fn trailing_refusal(m: MarketAccount, t: TriggerOrderAccount) -> Option<
    FlashBookError,
> {
    if t.trailing_offset_bps == 0 || !t.terms.active {
        Some(FlashBookError::OutOfRange)
    } else if m.oracle_price_ticks == 0 || m.params.tick_size == 0 {
        Some(FlashBookError::ZeroPrice)
    } else {
        None
    }
}

/// A trigger that has followed the oracle's price.
pub open spec fn trailed(m: MarketAccount, t: TriggerOrderAccount) -> TriggerOrderAccount {
    TriggerOrderAccount {
        terms: TriggerTerms {
            trigger_price_ticks: stop_price(
                t.terms.kind,
                m.oracle_price_ticks,
                t.trailing_offset_bps,
                m.params.tick_size,
            ),
            ..t.terms
        },
        trailing_anchor_ticks: m.oracle_price_ticks,
        ..t
    }
}

/// Lets a trigger follow the oracle's price: anyone may. If the price has not moved
/// in the trader's favour, nothing changes and nothing is reported.
pub fn update_trailing_stop(
    market_key: Pubkey,
    market: &MarketAccount,
    trigger: &mut TriggerOrderAccount,
) -> (r: Result<Option<TrailingStopRatchetedEvent>, FlashBookError>)
    ensures
        match trailing_refusal(*market, *old(trigger)) {
            Some(e) => r == Err::<Option<TrailingStopRatchetedEvent>, FlashBookError>(e)
                && *final(trigger) == *old(trigger),
            None => if !trail_progresses(*old(trigger), market.oracle_price_ticks) {
                r == Ok::<Option<TrailingStopRatchetedEvent>, FlashBookError>(None)
                    && *final(trigger) == *old(trigger)
            } else {
                &&& *final(trigger) == trailed(*market, *old(trigger))
                &&& r == Ok::<Option<TrailingStopRatchetedEvent>, FlashBookError>(
                    Some(
                        TrailingStopRatchetedEvent {
                            market: market_key,
                            trader: old(trigger).terms.trader,
                            trigger_id: old(trigger).terms.trigger_id,
                            previous_trigger_price_ticks: old(
                                trigger,
                            ).terms.trigger_price_ticks,
                            new_trigger_price_ticks: final(trigger).terms.trigger_price_ticks,
                            anchor_ticks: market.oracle_price_ticks,
                        },
                    ),
                )
            },
        },
{
    if trigger.trailing_offset_bps == 0 || !trigger.terms.active {
        return Err(FlashBookError::OutOfRange);
    }
    let oracle: u64 = market.oracle_price_ticks;
    if oracle == 0 || market.params.tick_size == 0 {
        return Err(FlashBookError::ZeroPrice);
    }
    let anchor: u64 = trigger.trailing_anchor_ticks;
    if anchor != 0 {
        if trigger.terms.kind == 0 && oracle <= anchor {
            return Ok(None);
        }
        if trigger.terms.kind != 0 && oracle >= anchor {
            return Ok(None);
        }
    }
    let aligned: u64 = compute_stop_price(
        trigger.terms.kind,
        oracle,
        trigger.trailing_offset_bps,
        market.params.tick_size,
    );
    let previous: u64 = trigger.terms.trigger_price_ticks;
    trigger.trailing_anchor_ticks = oracle;
    trigger.terms.trigger_price_ticks = aligned;
    Ok(
        Some(
            TrailingStopRatchetedEvent {
                market: market_key,
                trader: trigger.terms.trader,
                trigger_id: trigger.terms.trigger_id,
                previous_trigger_price_ticks: previous,
                new_trigger_price_ticks: aligned,
                anchor_ticks: oracle,
            },
        ),
    )
}

/// Stop prices move with the oracle's price in the same direction, for an offset of
/// at most one hundred percent.
pub proof fn lemma_stop_is_monotone(kind: u8, low: u64, high: u64, offset_bps: u32, tick: u64)
    requires
        low <= high,
        offset_bps <= BPS_DENOM,
        tick > 0,
    ensures
        stop_price(kind, low, offset_bps, tick) <= stop_price(kind, high, offset_bps, tick),
{
    let b = offset_bps as int;
    let x = low * b;
    let y = high * b;
    let d = high - low;
    assert(0 <= x <= y && y <= x + d * 10_000) by (nonlinear_arith)
        requires
            x == low * b,
            y == high * b,
            d == high - low,
            d >= 0,
            low >= 0,
            0 <= b <= 10_000,
    ;
    let p = raw_stop(kind, low, offset_bps, tick);
    let q = raw_stop(kind, high, offset_bps, tick);
    assert(p <= q);
    let t = tick as int;
    let m = p / t;
    let n = q / t;
    assert(m <= n) by (nonlinear_arith)
        requires
            p <= q,
            t > 0,
            m == p / t,
            n == q / t,
    ;
    assert(m * t <= n * t && (m < n ==> m * t + t <= n * t)) by (nonlinear_arith)
        requires
            m <= n,
            t > 0,
    ;
    assert(p == m * t + p % t && q == n * t + q % t && 0 <= p % t < t && 0 <= q % t < t)
        by (nonlinear_arith)
        requires
            t > 0,
            m == p / t,
            n == q / t,
    ;
}

/// A trailing stop only ever moves towards more protection: a long's stop never
/// falls and a short's never rises, as long as its price was set by trailing.
pub proof fn law_trailing_stop_ratchets_one_way(
    before: MarketAccount,
    after: MarketAccount,
    t: TriggerOrderAccount,
)
    requires
        t.trailing_offset_bps <= BPS_DENOM,
        before.oracle_price_ticks > 0,
        before.params.tick_size > 0,
        after.params.tick_size == before.params.tick_size,
        trail_progresses(trailed(before, t), after.oracle_price_ticks),
    ensures
        ({
            let first = trailed(before, t).terms.trigger_price_ticks;
            let second = trailed(after, trailed(before, t)).terms.trigger_price_ticks;
            if t.terms.kind == 0 {
                first <= second
            } else {
                second <= first
            }
        }),
{
    let a = before.oracle_price_ticks;
    let b = after.oracle_price_ticks;
    if t.terms.kind == 0 {
        lemma_stop_is_monotone(t.terms.kind, a, b, t.trailing_offset_bps, before.params.tick_size);
    } else {
        lemma_stop_is_monotone(t.terms.kind, b, a, t.trailing_offset_bps, before.params.tick_size);
    }
}

/// Trailing again at the same price changes nothing.
pub proof fn law_trailing_is_idempotent(m: MarketAccount, t: TriggerOrderAccount)
    requires
        m.oracle_price_ticks > 0,
    ensures
        !trail_progresses(trailed(m, t), m.oracle_price_ticks),
{
}

} // verus!
