//! The mark price: how fills move it, how it is reset, and the alerts it raises.
use vstd::prelude::*;

use crate::constants::BPS_DENOM;
use crate::errors::FlashBookError;
use crate::events::{MarginThresholdCrossedEvent, MarkPriceDriftEvent, MarkPriceUpdatedEvent};
use crate::keys::Pubkey;
use crate::math::{
    abs_int, clamp_u128_to_u32, clamp_u128_to_u64, max_int, max_u64, min_int, min_u64, sat_i128,
    sat_u128, sat_u32, sat_u64, saturating_add_i128, saturating_mul_i128, saturating_mul_u128,
    unix_seconds,
};
use crate::position::{closing_pnl, lemma_mean_price_between};
use crate::state::{MarketAccount, PositionAccount, side_of_byte};

verus! {

/// A fill price blended into the mark with weight `alpha_bps`.
pub open spec fn blended_mark(mark: int, price: int, alpha_bps: int) -> int {
    let a = min_int(alpha_bps, BPS_DENOM as int);
    (price * a + mark * (BPS_DENOM - a)) / (BPS_DENOM as int)
}

/// The furthest that one fill may move the mark.
pub open spec fn max_mark_move(mark: int, max_change_bps: int) -> int {
    sat_u64(mark * max_change_bps / (BPS_DENOM as int))
}

/// `blended` held within the allowed move around `mark`; no limit when
/// `max_change_bps` is zero.
pub open spec fn capped_mark(mark: int, blended: int, max_change_bps: int) -> int {
    let step = max_mark_move(mark, max_change_bps);
    if max_change_bps == 0 {
        blended
    } else if blended > sat_u64(mark + step) {
        sat_u64(mark + step)
    } else if blended < sat_u64(mark - step) {
        max_int(sat_u64(mark - step), 1)
    } else {
        blended
    }
}

/// The mark after a fill at `price`. A weight of zero, and a mark that was never
/// set, leave it alone.
pub open spec fn mark_after_fill(m: MarketAccount, price: u64) -> u64 {
    let alpha = m.params.mark_ema_alpha_bps;
    let mark = m.mark_price_ticks;
    if alpha == 0 || mark == 0 {
        mark
    } else {
        let next = capped_mark(
            mark as int,
            blended_mark(mark as int, price as int, alpha as int),
            m.params.mark_max_change_bps as int,
        );
        if next > 0 {
            next as u64
        } else {
            mark
        }
    }
}

/// The distance of the mark from the oracle in basis points of the oracle.
pub open spec fn drift_bps(mark: int, oracle: int) -> int {
    abs_int(mark - oracle) * BPS_DENOM / oracle
}

/// The alert that a fill raises when it leaves the mark too far from the oracle.
pub open spec fn drift_alert(
    market_key: Pubkey,
    m: MarketAccount,
    mark: u64,
) -> Option<MarkPriceDriftEvent> {
    let drift = drift_bps(mark as int, m.oracle_price_ticks as int);
    if m.params.drift_alert_bps > 0 && m.oracle_price_ticks > 0 && drift
        >= m.params.drift_alert_bps {
        Some(
            MarkPriceDriftEvent {
                market: market_key,
                mark_ticks: mark,
                oracle_ticks: m.oracle_price_ticks,
                drift_bps: sat_u32(drift) as u32,
            },
        )
    } else {
        None
    }
}

/// The market, and what is reported, after a fill at `price` moved the mark.
pub open spec fn mark_outcome(market_key: Pubkey, m: MarketAccount, price: u64) -> (
    MarketAccount,
    Option<MarkPriceUpdatedEvent>,
    Option<MarkPriceDriftEvent>,
) {
    let next = mark_after_fill(m, price);
    if next == m.mark_price_ticks {
        (m, None, None)
    } else {
        (
            MarketAccount { mark_price_ticks: next, ..m },
            Some(
                MarkPriceUpdatedEvent {
                    market: market_key,
                    old_mark_ticks: m.mark_price_ticks,
                    new_mark_ticks: next,
                    oracle_ticks: m.oracle_price_ticks,
                    source: 0,
                },
            ),
            drift_alert(market_key, m, next),
        )
    }
}

/// The blend of two prices is a weighted mean, hence lies between them.
pub proof fn lemma_blended_mark_between(mark: int, price: int, alpha_bps: int)
    requires
        0 <= mark,
        0 <= price,
        0 <= alpha_bps,
    ensures
        min_int(mark, price) <= blended_mark(mark, price, alpha_bps) <= max_int(mark, price),
{
    let a = min_int(alpha_bps, BPS_DENOM as int);
    lemma_mean_price_between(price, a, mark, BPS_DENOM - a);
}

/// Computes the drift alert.
pub fn check_drift(market_key: Pubkey, market: &MarketAccount, mark: u64) -> (r: Option<
    MarkPriceDriftEvent,
>)
    ensures
        r == drift_alert(market_key, *market, mark),
{
    if market.params.drift_alert_bps == 0 || market.oracle_price_ticks == 0 {
        return None;
    }
    let oracle: u64 = market.oracle_price_ticks;
    let diff: u64 = if mark > oracle {
        mark - oracle
    } else {
        oracle - mark
    };
    let drift: u128 = (diff as u128) * (BPS_DENOM as u128) / (oracle as u128);
    if drift >= market.params.drift_alert_bps as u128 {
        Some(
            MarkPriceDriftEvent {
                market: market_key,
                mark_ticks: mark,
                oracle_ticks: oracle,
                drift_bps: clamp_u128_to_u32(drift),
            },
        )
    } else {
        None
    }
}

/// Blends the price of a fill into the mark and reports what changed.
pub fn update_mark_from_fill(market: &mut MarketAccount, market_key: Pubkey, price: u64) -> (r: (
    Option<MarkPriceUpdatedEvent>,
    Option<MarkPriceDriftEvent>,
))
    ensures
        (*final(market), r.0, r.1) == mark_outcome(market_key, *old(market), price),
{
    let old_mark: u64 = market.mark_price_ticks;
    let alpha: u64 = min_u64(market.params.mark_ema_alpha_bps as u64, BPS_DENOM);
    if alpha == 0 || old_mark == 0 {
        return (None, None);
    }
    proof {
        lemma_blended_mark_between(
            old_mark as int,
            price as int,
            market.params.mark_ema_alpha_bps as int,
        );
        assert(price * alpha <= u64::MAX * 10_000) by (nonlinear_arith)
            requires
                price <= u64::MAX,
                alpha <= 10_000,
        ;
        assert(old_mark * (10_000 - alpha) <= u64::MAX * 10_000) by (nonlinear_arith)
            requires
                old_mark <= u64::MAX,
                0 <= alpha <= 10_000,
        ;
        assert(0 <= price * alpha) by (nonlinear_arith)
            requires
                0 <= price,
                0 <= alpha,
        ;
        assert(0 <= old_mark * (10_000 - alpha)) by (nonlinear_arith)
            requires
                0 <= old_mark,
                alpha <= 10_000,
        ;
    }
    let blended: u64 = (((price as u128) * (alpha as u128) + (old_mark as u128) * ((BPS_DENOM
        - alpha) as u128)) / (BPS_DENOM as u128)) as u64;
    let mut new_mark: u64 = blended;
    let max_change_bps: u32 = market.params.mark_max_change_bps;
    if max_change_bps > 0 {
        proof {
            assert(0 <= old_mark * max_change_bps <= u64::MAX * u32::MAX) by (nonlinear_arith)
                requires
                    0 <= old_mark <= u64::MAX,
                    0 <= max_change_bps <= u32::MAX,
            ;
        }
        let step: u64 = clamp_u128_to_u64(
            (old_mark as u128) * (max_change_bps as u128) / (BPS_DENOM as u128),
        );
        let upper: u64 = old_mark.saturating_add(step);
        let lower: u64 = old_mark.saturating_sub(step);
        if new_mark > upper {
            new_mark = upper;
        } else if new_mark < lower {
            new_mark = max_u64(lower, 1);
        }
    }
    if new_mark == old_mark || new_mark == 0 {
        return (None, None);
    }
    let drift = check_drift(market_key, market, new_mark);
    market.mark_price_ticks = new_mark;
    (
        Some(
            MarkPriceUpdatedEvent {
                market: market_key,
                old_mark_ticks: old_mark,
                new_mark_ticks: new_mark,
                oracle_ticks: market.oracle_price_ticks,
                source: 0,
            },
        ),
        drift,
    )
}

/// A fill moves the mark towards its own price and never past it.
pub proof fn law_mark_moves_towards_fill(m: MarketAccount, price: u64)
    ensures
        min_int(m.mark_price_ticks as int, price as int) <= mark_after_fill(m, price) <= max_int(
            m.mark_price_ticks as int,
            price as int,
        ),
{
    let mark = m.mark_price_ticks as int;
    lemma_blended_mark_between(mark, price as int, m.params.mark_ema_alpha_bps as int);
    assert(0 <= mark * m.params.mark_max_change_bps) by (nonlinear_arith)
        requires
            0 <= mark,
            0 <= m.params.mark_max_change_bps,
    ;
}

/// One fill moves the mark by no more than `mark_max_change_bps` of it, when that
/// limit is set.
pub proof fn law_mark_move_is_capped(m: MarketAccount, price: u64)
    requires
        m.params.mark_max_change_bps > 0,
    ensures
        abs_int(mark_after_fill(m, price) - m.mark_price_ticks) * BPS_DENOM <= m.mark_price_ticks
            * m.params.mark_max_change_bps,
{
    let mark = m.mark_price_ticks as int;
    let mc = m.params.mark_max_change_bps as int;
    lemma_blended_mark_between(mark, price as int, m.params.mark_ema_alpha_bps as int);
    let p = mark * mc;
    assert(0 <= p) by (nonlinear_arith)
        requires
            0 <= mark,
            0 <= mc,
            p == mark * mc,
    ;
    assert(max_mark_move(mark, mc) * BPS_DENOM <= p);
    let step = max_mark_move(mark, mc);
    let d = abs_int(mark_after_fill(m, price) - mark);
    assert(d <= step);
    assert(d * 10_000 <= step * 10_000) by (nonlinear_arith)
        requires
            d <= step,
    ;
}

/// Whether the oracle's price is too old or too uncertain to be used. A limit of
/// zero switches the respective test off.
pub open spec fn oracle_refusal(
    price: u64,
    confidence: u64,
    published_at: u64,
    now: u64,
    max_age: u64,
    max_conf_bps: u32,
) -> Option<FlashBookError> {
    if max_age > 0 && now - published_at > max_age {
        Some(FlashBookError::OracleTooStale)
    } else if max_conf_bps > 0 && price == 0 {
        Some(FlashBookError::DivisionByZero)
    } else if max_conf_bps > 0 && confidence * BPS_DENOM / (price as int) > max_conf_bps {
        Some(FlashBookError::OracleConfidenceTooWide)
    } else {
        None
    }
}

/// The age test alone.
pub fn check_oracle_age(published_at: u64, now: u64, max_age: u64) -> (r: Result<
    (),
    FlashBookError,
>)
    ensures
        r == (if max_age > 0 && now - published_at > max_age {
            Err::<(), FlashBookError>(FlashBookError::OracleTooStale)
        } else {
            Ok(())
        }),
{
    if max_age > 0 && now.saturating_sub(published_at) > max_age {
        Err(FlashBookError::OracleTooStale)
    } else {
        Ok(())
    }
}

/// The confidence test alone.
pub fn check_oracle_confidence(price: u64, confidence: u64, max_conf_bps: u32) -> (r: Result<
    (),
    FlashBookError,
>)
    ensures
        r == (if max_conf_bps > 0 && price == 0 {
            Err::<(), FlashBookError>(FlashBookError::DivisionByZero)
        } else if max_conf_bps > 0 && confidence * BPS_DENOM / (price as int) > max_conf_bps {
            Err(FlashBookError::OracleConfidenceTooWide)
        } else {
            Ok(())
        }),
{
    if max_conf_bps == 0 {
        return Ok(());
    }
    if price == 0 {
        return Err(FlashBookError::DivisionByZero);
    }
    assert(confidence * BPS_DENOM <= u64::MAX * 10_000) by (nonlinear_arith)
        requires
            confidence <= u64::MAX,
            BPS_DENOM == 10_000,
    ;
    let conf_bps: u128 = (confidence as u128) * (BPS_DENOM as u128) / (price as u128);
    if conf_bps > max_conf_bps as u128 {
        Err(FlashBookError::OracleConfidenceTooWide)
    } else {
        Ok(())
    }
}

/// Tests one price of the oracle.
pub fn check_oracle(
    price: u64,
    confidence: u64,
    published_at: u64,
    now: u64,
    max_age: u64,
    max_conf_bps: u32,
) -> (r: Result<(), FlashBookError>)
    ensures
        r == (match oracle_refusal(price, confidence, published_at, now, max_age, max_conf_bps) {
            Some(e) => Err::<(), FlashBookError>(e),
            None => Ok(()),
        }),
{
    match check_oracle_age(published_at, now, max_age) {
        Ok(_) => check_oracle_confidence(price, confidence, max_conf_bps),
        Err(e) => Err(e),
    }
}

/// Why the mark cannot be reset at `slot`, if it cannot.
pub open spec fn settle_mark_refusal(m: MarketAccount, slot: u64, now: u64) -> Option<
    FlashBookError,
> {
    if m.params.mark_settle_min_slots > 0 && m.last_mark_settle_slot > 0 && sat_u64(
        slot - m.last_mark_settle_slot,
    ) < m.params.mark_settle_min_slots {
        Some(FlashBookError::RateLimited)
    } else if m.oracle_price_ticks == 0 {
        Some(FlashBookError::ZeroPrice)
    } else {
        oracle_refusal(
            m.oracle_price_ticks,
            m.oracle_confidence,
            m.oracle_published_at_unix_seconds,
            now,
            m.params.oracle_staleness_max_seconds as u64,
            m.params.oracle_confidence_max_bps,
        )
    }
}

/// Resets the mark to the oracle price. Anyone may ask, but not more often than
/// the market allows, and only while the oracle's price is fresh and certain.
pub fn settle_mark(market: &mut MarketAccount, market_key: Pubkey, current_slot: u64, unix_now: i64)
    -> (r: Result<MarkPriceUpdatedEvent, FlashBookError>)
    ensures
        match settle_mark_refusal(*old(market), current_slot, max_int(unix_now as int, 0) as u64) {
            Some(e) => r == Err::<MarkPriceUpdatedEvent, FlashBookError>(e) && *final(market)
                == *old(market),
            None => {
                &&& *final(market) == (MarketAccount {
                    mark_price_ticks: old(market).oracle_price_ticks,
                    last_mark_settle_slot: current_slot,
                    ..*old(market)
                })
                &&& r == Ok::<MarkPriceUpdatedEvent, FlashBookError>(
                    MarkPriceUpdatedEvent {
                        market: market_key,
                        old_mark_ticks: old(market).mark_price_ticks,
                        new_mark_ticks: old(market).oracle_price_ticks,
                        oracle_ticks: old(market).oracle_price_ticks,
                        source: 1,
                    },
                )
            },
        },
{
    let min_slots: u64 = market.params.mark_settle_min_slots as u64;
    if min_slots > 0 && market.last_mark_settle_slot > 0 {
        let elapsed: u64 = current_slot.saturating_sub(market.last_mark_settle_slot);
        if elapsed < min_slots {
            return Err(FlashBookError::RateLimited);
        }
    }
    let oracle: u64 = market.oracle_price_ticks;
    if oracle == 0 {
        return Err(FlashBookError::ZeroPrice);
    }
    match check_oracle(
        oracle,
        market.oracle_confidence,
        market.oracle_published_at_unix_seconds,
        unix_seconds(unix_now),
        market.params.oracle_staleness_max_seconds as u64,
        market.params.oracle_confidence_max_bps,
    ) {
        Ok(_) => {},
        Err(e) => {
            return Err(e);
        },
    }
    let old_mark: u64 = market.mark_price_ticks;
    market.mark_price_ticks = oracle;
    market.last_mark_settle_slot = current_slot;
    Ok(
        MarkPriceUpdatedEvent {
            market: market_key,
            old_mark_ticks: old_mark,
            new_mark_ticks: oracle,
            oracle_ticks: oracle,
            source: 1,
        },
    )
}

/// Notional of `size` lots at `price`, at most `u128::MAX`.
pub open spec fn sat_notional(size: int, price: int, tick: int) -> int {
    sat_u128(sat_u128(size * price) * tick)
}

/// Computes the notional of `size` lots at `price`.
pub fn saturating_notional(size: u64, price: u64, tick: u64) -> (r: u128)
    ensures
        r == sat_notional(size as int, price as int, tick as int),
{
    saturating_mul_u128(saturating_mul_u128(size as u128, price as u128), tick as u128)
}

/// Profit or loss of a position if it were closed at `price`, kept in the range
/// of `i128`.
pub open spec fn sat_unrealized(pos: PositionAccount, price: int, tick: int) -> int {
    sat_i128(
        sat_i128(
            closing_pnl(
                side_of_byte(pos.side),
                pos.size_lots as int,
                pos.entry_price_ticks as int,
                price,
            ),
        ) * tick,
    )
}

/// Computes what closing a position at `price` would bring.
pub fn saturating_unrealized(pos: &PositionAccount, price: u64, tick: u64) -> (r: i128)
    ensures
        r == sat_unrealized(*pos, price as int, tick as int),
{
    let diff: i128 = price as i128 - pos.entry_price_ticks as i128;
    let signed: i128 = if pos.side == 0 {
        pos.size_lots as i128
    } else {
        -(pos.size_lots as i128)
    };
    proof {
        assert(-(pos.size_lots as int) * (price - pos.entry_price_ticks) == pos.size_lots * (
        pos.entry_price_ticks - price)) by (nonlinear_arith);
    }
    saturating_mul_i128(saturating_mul_i128(signed, diff), tick as i128)
}

/// Equity of a position in basis points of its maintenance margin; zero when
/// nothing is left, none when there is nothing to compare with.
pub open spec fn equity_to_mmr_bps(
    pos: PositionAccount,
    mark: u64,
    tick: u64,
    mmr_bps: u32,
    collateral: u64,
) -> Option<u32> {
    let required = sat_u128(
        sat_notional(pos.size_lots as int, mark as int, tick as int) * mmr_bps,
    ) / (BPS_DENOM as int);
    let equity = sat_i128(collateral + sat_unrealized(pos, mark as int, tick as int));
    if pos.size_lots == 0 || mark == 0 || mmr_bps == 0 || required == 0 {
        None
    } else if equity <= 0 {
        Some(0)
    } else {
        Some(sat_u32(sat_u128(equity * BPS_DENOM) / required) as u32)
    }
}

/// The alert level of a ratio: 2 below 125%, 1 below 200%, 0 below 250%.
pub open spec fn margin_alert_level(ratio_bps: u32) -> Option<u8> {
    if ratio_bps < 12_500 {
        Some(2u8)
    } else if ratio_bps < 20_000 {
        Some(1u8)
    } else if ratio_bps < 25_000 {
        Some(0u8)
    } else {
        None
    }
}

/// The alert that a position raises when its equity comes close to its
/// maintenance margin.
pub open spec fn margin_alert(
    trader: Pubkey,
    market: Pubkey,
    pos: PositionAccount,
    mark: u64,
    tick: u64,
    mmr_bps: u32,
    collateral: u64,
) -> Option<MarginThresholdCrossedEvent> {
    match equity_to_mmr_bps(pos, mark, tick, mmr_bps, collateral) {
        None => None,
        Some(ratio) => match margin_alert_level(ratio) {
            None => None,
            Some(level) => Some(
                MarginThresholdCrossedEvent { trader, market, level, equity_to_mmr_bps: ratio },
            ),
        },
    }
}

/// Computes the margin alert of a position.
pub fn emit_margin_threshold_if_crossed(
    trader: Pubkey,
    market: Pubkey,
    pos: &PositionAccount,
    mark_ticks: u64,
    tick_size: u64,
    mmr_bps: u32,
    collateral_quote_lots: u64,
) -> (r: Option<MarginThresholdCrossedEvent>)
    ensures
        r == margin_alert(
            trader,
            market,
            *pos,
            mark_ticks,
            tick_size,
            mmr_bps,
            collateral_quote_lots,
        ),
{
    if pos.size_lots == 0 || mark_ticks == 0 || mmr_bps == 0 {
        return None;
    }
    let required: u128 = saturating_mul_u128(
        saturating_notional(pos.size_lots, mark_ticks, tick_size),
        mmr_bps as u128,
    ) / (BPS_DENOM as u128);
    if required == 0 {
        return None;
    }
    let equity: i128 = saturating_add_i128(
        collateral_quote_lots as i128,
        saturating_unrealized(pos, mark_ticks, tick_size),
    );
    if equity <= 0 {
        return Some(
            MarginThresholdCrossedEvent { trader, market, level: 2, equity_to_mmr_bps: 0 },
        );
    }
    let ratio: u32 = clamp_u128_to_u32(
        saturating_mul_u128(equity as u128, BPS_DENOM as u128) / required,
    );
    let level: u8 = if ratio < 12_500 {
        2
    } else if ratio < 20_000 {
        1
    } else if ratio < 25_000 {
        0
    } else {
        return None;
    };
    Some(MarginThresholdCrossedEvent { trader, market, level, equity_to_mmr_bps: ratio })
}

/// After a reset the mark cannot be reset again before the market's interval is over.
pub proof fn law_mark_reset_is_rate_limited(m: MarketAccount, slot: u64, later: u64, now: u64)
    requires
        0 < slot <= later < slot + m.params.mark_settle_min_slots,
    ensures
        settle_mark_refusal(
            MarketAccount {
                mark_price_ticks: m.oracle_price_ticks,
                last_mark_settle_slot: slot,
                ..m
            },
            later,
            now,
        ) == Some(FlashBookError::RateLimited),
{
}

} // verus!
