//! Prices from outside: who may report them, and what they have to pass.
use vstd::prelude::*;

use crate::constants::BPS_DENOM;
use crate::errors::{EnvelopeError, FlashBookError, envelope_refusal, map_envelope_error};
use crate::keys::Pubkey;
use crate::mark::{check_oracle, check_oracle_age, check_oracle_confidence, oracle_refusal};
use crate::math::{max_int, max_u64, min_int, min_u64, sat_u64, unix_seconds};
use crate::state::{MarketAccount, MarketEnvelopeConfigAccount};

verus! {

/// One market's price bounds and a proposed price: the bounds afterwards, and why
/// the price is refused, if it is.
///
/// The first price is taken as it is. Within one slot the price may be repeated,
/// not moved. Otherwise `verdict` decides: the move since the last observation,
/// held against the market's largest move per slot. A price that was moved to is
/// the next one to be compared with.
pub open spec fn gate_outcome(
    c: MarketEnvelopeConfigAccount,
    price: u64,
    slot: u64,
    verdict: Result<(), EnvelopeError>,
) -> (MarketEnvelopeConfigAccount, Option<FlashBookError>) {
    let passed = MarketEnvelopeConfigAccount {
        last_observed_slot: slot,
        last_observed_price_ticks: price,
        gate_passes: sat_u64(c.gate_passes + 1) as u64,
        ..c
    };
    let rejected = MarketEnvelopeConfigAccount {
        gate_rejects: sat_u64(c.gate_rejects + 1) as u64,
        ..c
    };
    if c.last_observed_slot == 0 {
        (passed, None)
    } else if slot <= c.last_observed_slot {
        if price == c.last_observed_price_ticks {
            (c, None)
        } else {
            (rejected, Some(FlashBookError::EnvelopeSameSlotMove))
        }
    } else {
        match verdict {
            Ok(_) => (passed, None),
            Err(e) => (rejected, Some(envelope_refusal(e))),
        }
    }
}

/// [`gate_outcome`] for a market that may have no bounds, and then takes any price.
pub open spec fn optional_gate_outcome(
    c: Option<MarketEnvelopeConfigAccount>,
    price: u64,
    slot: u64,
    verdict: Result<(), EnvelopeError>,
) -> (Option<MarketEnvelopeConfigAccount>, Option<FlashBookError>) {
    match c {
        None => (None, None),
        Some(k) => {
            let g = gate_outcome(k, price, slot, verdict);
            (Some(g.0), g.1)
        },
    }
}

/// Holds a price against the bounds of its market. A refused price is only
/// counted.
pub fn gate_oracle_update(
    envelope_config: &mut Option<MarketEnvelopeConfigAccount>,
    new_price_ticks: u64,
    now_slot: u64,
    verdict: Result<(), EnvelopeError>,
) -> (r: Result<(), FlashBookError>)
    ensures
        ({
            let g = optional_gate_outcome(*old(envelope_config), new_price_ticks, now_slot, verdict);
            &&& *final(envelope_config) == g.0
            &&& r == (match g.1 {
                Some(e) => Err::<(), FlashBookError>(e),
                None => Ok(()),
            })
        }),
{
    let mut cfg = match *envelope_config {
        Some(c) => c,
        None => {
            return Ok(());
        },
    };
    if cfg.last_observed_slot != 0 {
        let dt: u64 = now_slot.saturating_sub(cfg.last_observed_slot);
        if dt == 0 {
            if new_price_ticks == cfg.last_observed_price_ticks {
                return Ok(());
            }
            cfg.gate_rejects = cfg.gate_rejects.saturating_add(1);
            *envelope_config = Some(cfg);
            return Err(FlashBookError::EnvelopeSameSlotMove);
        }
        match verdict {
            Ok(_) => {},
            Err(e) => {
                cfg.gate_rejects = cfg.gate_rejects.saturating_add(1);
                *envelope_config = Some(cfg);
                return Err(map_envelope_error(e));
            },
        }
    }
    cfg.last_observed_slot = now_slot;
    cfg.last_observed_price_ticks = new_price_ticks;
    cfg.gate_passes = cfg.gate_passes.saturating_add(1);
    *envelope_config = Some(cfg);
    Ok(())
}

/// A refused price leaves the last observation as it was, and within one slot no
/// second price is ever accepted.
pub proof fn law_gate_keeps_one_price_per_slot(
    c: MarketEnvelopeConfigAccount,
    price: u64,
    slot: u64,
    verdict: Result<(), EnvelopeError>,
)
    requires
        c.last_observed_slot > 0,
    ensures
        ({
            let g = gate_outcome(c, price, slot, verdict);
            &&& g.1 is Some ==> g.0.last_observed_slot == c.last_observed_slot
                && g.0.last_observed_price_ticks == c.last_observed_price_ticks
            &&& slot <= c.last_observed_slot && g.1 is None ==> price
                == c.last_observed_price_ticks && g.0 == c
            &&& g.1 is None ==> g.0.last_observed_price_ticks == price
        }),
{
}

/// The accounts of an oracle update.
#[derive(Clone, Copy, Debug, PartialEq, Eq, Structural)]
pub struct UpdateOracle {
    pub authority: Pubkey,
    pub market_key: Pubkey,
    pub market: MarketAccount,
    pub envelope_config: Option<MarketEnvelopeConfigAccount>,
}

/// The bounds that were shown belong to another market.
pub open spec fn foreign_envelope(a: UpdateOracle) -> bool {
    a.envelope_config matches Some(c) && c.market != a.market_key
}

/// Tests whether the bounds belong to another market.
pub fn has_foreign_envelope(a: &UpdateOracle) -> (r: bool)
    ensures
        r == foreign_envelope(*a),
{
    match a.envelope_config {
        Some(c) => c.market != a.market_key,
        None => false,
    }
}

/// The accounts after a price went through the bounds, written down where it
/// passed.
pub open spec fn oracle_written(
    a: UpdateOracle,
    price: u64,
    confidence: u64,
    published_at: u64,
    slot: u64,
    verdict: Result<(), EnvelopeError>,
) -> (UpdateOracle, Option<FlashBookError>) {
    let g = optional_gate_outcome(a.envelope_config, price, slot, verdict);
    (
        UpdateOracle {
            envelope_config: g.0,
            market: if g.1 is None {
                MarketAccount {
                    oracle_price_ticks: price,
                    oracle_confidence: confidence,
                    oracle_published_at_unix_seconds: published_at,
                    ..a.market
                }
            } else {
                a.market
            },
            ..a
        },
        g.1,
    )
}

/// Sends a price through the bounds and writes it down where it passes.
pub fn write_oracle(
    ctx: &mut UpdateOracle,
    price_ticks: u64,
    confidence: u64,
    published_at: u64,
    now_slot: u64,
    verdict: Result<(), EnvelopeError>,
) -> (r: Result<(), FlashBookError>)
    ensures
        ({
            let w = oracle_written(
                *old(ctx),
                price_ticks,
                confidence,
                published_at,
                now_slot,
                verdict,
            );
            &&& *final(ctx) == w.0
            &&& r == (match w.1 {
                Some(e) => Err::<(), FlashBookError>(e),
                None => Ok(()),
            })
        }),
{
    match gate_oracle_update(&mut ctx.envelope_config, price_ticks, now_slot, verdict) {
        Ok(_) => {},
        Err(e) => {
            return Err(e);
        },
    }
    ctx.market.oracle_price_ticks = price_ticks;
    ctx.market.oracle_confidence = confidence;
    ctx.market.oracle_published_at_unix_seconds = published_at;
    Ok(())
}

/// Why a reported price is refused before the bounds are asked, if it is.
pub open spec fn update_oracle_refusal(
    a: UpdateOracle,
    price: u64,
    confidence: u64,
    published_at: u64,
    now: u64,
) -> Option<FlashBookError> {
    if foreign_envelope(a) {
        Some(FlashBookError::EnvelopePriceCapInvalid)
    } else if price == 0 {
        Some(FlashBookError::ZeroPrice)
    } else if a.market.authority != a.authority {
        Some(FlashBookError::Unauthorized)
    } else {
        oracle_refusal(
            price,
            confidence,
            published_at,
            now,
            a.market.params.oracle_staleness_max_seconds as u64,
            a.market.params.oracle_confidence_max_bps,
        )
    }
}

/// Takes a price that the market's authority reports, unless it is too old, too
/// uncertain or out of bounds. A price that the bounds refuse is counted there;
/// otherwise a refusal changes nothing.
pub fn update_oracle(
    ctx: &mut UpdateOracle,
    price_ticks: u64,
    confidence: u64,
    published_at_unix_seconds: u64,
    unix_now: i64,
    now_slot: u64,
    verdict: Result<(), EnvelopeError>,
) -> (r: Result<(), FlashBookError>)
    ensures
        match update_oracle_refusal(
            *old(ctx),
            price_ticks,
            confidence,
            published_at_unix_seconds,
            max_int(unix_now as int, 0) as u64,
        ) {
            Some(e) => r == Err::<(), FlashBookError>(e) && *final(ctx) == *old(ctx),
            None => {
                let w = oracle_written(
                    *old(ctx),
                    price_ticks,
                    confidence,
                    published_at_unix_seconds,
                    now_slot,
                    verdict,
                );
                &&& *final(ctx) == w.0
                &&& r == (match w.1 {
                    Some(e) => Err::<(), FlashBookError>(e),
                    None => Ok(()),
                })
            },
        },
{
    if has_foreign_envelope(ctx) {
        return Err(FlashBookError::EnvelopePriceCapInvalid);
    }
    if price_ticks == 0 {
        return Err(FlashBookError::ZeroPrice);
    }
    if ctx.market.authority != ctx.authority {
        return Err(FlashBookError::Unauthorized);
    }
    let now: u64 = unix_seconds(unix_now);
    match check_oracle(
        price_ticks,
        confidence,
        published_at_unix_seconds,
        now,
        ctx.market.params.oracle_staleness_max_seconds as u64,
        ctx.market.params.oracle_confidence_max_bps,
    ) {
        Ok(_) => {},
        Err(e) => {
            return Err(e);
        },
    }
    write_oracle(ctx, price_ticks, confidence, published_at_unix_seconds, now_slot, verdict)
}

/// The smallest of three.
pub open spec fn min3(a: u64, b: u64, c: u64) -> u64 {
    min_int(a as int, min_int(b as int, c as int)) as u64
}

/// The largest of three.
pub open spec fn max3(a: u64, b: u64, c: u64) -> u64 {
    max_int(a as int, max_int(b as int, c as int)) as u64
}

/// The middle one of three.
pub open spec fn median3(a: u64, b: u64, c: u64) -> u64 {
    max_int(
        min_int(a as int, b as int),
        min_int(max_int(a as int, b as int), c as int),
    ) as u64
}

/// Computes the smallest, the middle and the largest of three.
pub fn sort3(v: [u64; 3]) -> (r: (u64, u64, u64))
    ensures
        r == (min3(v[0], v[1], v[2]), median3(v[0], v[1], v[2]), max3(v[0], v[1], v[2])),
        r.0 <= r.1 <= r.2,
{
    let a: u64 = v[0];
    let b: u64 = v[1];
    let c: u64 = v[2];
    let lo: u64 = min_u64(a, b);
    let hi: u64 = max_u64(a, b);
    (min_u64(lo, c), max_u64(lo, min_u64(hi, c)), max_u64(hi, c))
}

/// One source alone cannot move the accepted price outside the range of the two
/// others.
pub proof fn law_median_needs_a_majority(honest: u64, other: u64, outlier: u64)
    ensures
        ({
            let lo = min_int(honest as int, other as int);
            let hi = max_int(honest as int, other as int);
            &&& lo <= median3(honest, other, outlier) <= hi
            &&& lo <= median3(honest, outlier, other) <= hi
            &&& lo <= median3(outlier, honest, other) <= hi
        }),
{
}

/// A price is too uncertain for the market's limit, if it has one.
pub open spec fn too_wide(price: u64, confidence: u64, max_conf: u32) -> bool {
    max_conf > 0 && confidence * BPS_DENOM / (price as int) > max_conf
}

/// Tests the confidence of three prices.
pub fn check_confidences(p: [u64; 3], c: [u64; 3], max_conf: u32) -> (r: Result<
    (),
    FlashBookError,
>)
    requires
        p[0] > 0,
        p[1] > 0,
        p[2] > 0,
    ensures
        r == (if too_wide(p[0], c[0], max_conf) || too_wide(p[1], c[1], max_conf) || too_wide(
            p[2],
            c[2],
            max_conf,
        ) {
            Err::<(), FlashBookError>(FlashBookError::OracleConfidenceTooWide)
        } else {
            Ok(())
        }),
{
    match check_oracle_confidence(p[0], c[0], max_conf) {
        Ok(_) => {},
        Err(e) => {
            return Err(e);
        },
    }
    match check_oracle_confidence(p[1], c[1], max_conf) {
        Ok(_) => {},
        Err(e) => {
            return Err(e);
        },
    }
    check_oracle_confidence(p[2], c[2], max_conf)
}

/// Why three reported prices are refused before the bounds are asked, if they are.
pub open spec fn quorum_refusal(
    a: UpdateOracle,
    p: [u64; 3],
    c: [u64; 3],
    t: [u64; 3],
    now: u64,
) -> Option<FlashBookError> {
    let max_age = a.market.params.oracle_staleness_max_seconds as int;
    let max_conf = a.market.params.oracle_confidence_max_bps;
    let max_disp = a.market.params.oracle_quorum_max_dispersion_bps as int;
    if foreign_envelope(a) {
        Some(FlashBookError::EnvelopePriceCapInvalid)
    } else if min3(p[0], p[1], p[2]) == 0 {
        Some(FlashBookError::ZeroPrice)
    } else if a.market.authority != a.authority {
        Some(FlashBookError::Unauthorized)
    } else if max_age > 0 && now - min3(t[0], t[1], t[2]) > max_age {
        Some(FlashBookError::OracleTooStale)
    } else if too_wide(p[0], c[0], max_conf) || too_wide(p[1], c[1], max_conf) || too_wide(
        p[2],
        c[2],
        max_conf,
    ) {
        Some(FlashBookError::OracleConfidenceTooWide)
    } else if max_disp > 0 && (max3(p[0], p[1], p[2]) - min3(p[0], p[1], p[2])) * BPS_DENOM / (
    median3(p[0], p[1], p[2]) as int) > max_disp {
        Some(FlashBookError::OracleQuorumDispersionTooWide)
    } else {
        None
    }
}

/// Takes the median of three reported prices, unless one of them is too old or too
/// uncertain, they lie too far apart, or the median is out of bounds. The widest
/// confidence and the oldest time are written down with it.
pub fn update_oracle_quorum(
    ctx: &mut UpdateOracle,
    prices_ticks: [u64; 3],
    confidences: [u64; 3],
    published_at_unix_seconds: [u64; 3],
    unix_now: i64,
    now_slot: u64,
    verdict: Result<(), EnvelopeError>,
) -> (r: Result<(), FlashBookError>)
    ensures
        match quorum_refusal(
            *old(ctx),
            prices_ticks,
            confidences,
            published_at_unix_seconds,
            max_int(unix_now as int, 0) as u64,
        ) {
            Some(e) => r == Err::<(), FlashBookError>(e) && *final(ctx) == *old(ctx),
            None => {
                let w = oracle_written(
                    *old(ctx),
                    median3(prices_ticks[0], prices_ticks[1], prices_ticks[2]),
                    max3(confidences[0], confidences[1], confidences[2]),
                    min3(
                        published_at_unix_seconds[0],
                        published_at_unix_seconds[1],
                        published_at_unix_seconds[2],
                    ),
                    now_slot,
                    verdict,
                );
                &&& *final(ctx) == w.0
                &&& r == (match w.1 {
                    Some(e) => Err::<(), FlashBookError>(e),
                    None => Ok(()),
                })
            },
        },
{
    if has_foreign_envelope(ctx) {
        return Err(FlashBookError::EnvelopePriceCapInvalid);
    }
    let (min_p, median, max_p): (u64, u64, u64) = sort3(prices_ticks);
    if min_p == 0 {
        return Err(FlashBookError::ZeroPrice);
    }
    if ctx.market.authority != ctx.authority {
        return Err(FlashBookError::Unauthorized);
    }
    let now: u64 = unix_seconds(unix_now);
    let (oldest, _, _): (u64, u64, u64) = sort3(published_at_unix_seconds);
    match check_oracle_age(
        oldest,
        now,
        ctx.market.params.oracle_staleness_max_seconds as u64,
    ) {
        Ok(_) => {},
        Err(e) => {
            return Err(e);
        },
    }
    match check_confidences(
        prices_ticks,
        confidences,
        ctx.market.params.oracle_confidence_max_bps,
    ) {
        Ok(_) => {},
        Err(e) => {
            return Err(e);
        },
    }
    let max_disp: u32 = ctx.market.params.oracle_quorum_max_dispersion_bps;
    if max_disp > 0 {
        let spread: u64 = max_p - min_p;
        assert(spread * BPS_DENOM <= u64::MAX * 10_000) by (nonlinear_arith)
            requires
                spread <= u64::MAX,
                BPS_DENOM == 10_000,
        ;
        let dispersion_bps: u128 = (spread as u128) * (BPS_DENOM as u128) / (median as u128);
        if dispersion_bps > max_disp as u128 {
            return Err(FlashBookError::OracleQuorumDispersionTooWide);
        }
    }
    let (_, _, widest): (u64, u64, u64) = sort3(confidences);
    write_oracle(ctx, median, widest, oldest, now_slot, verdict)
}

} // verus!
