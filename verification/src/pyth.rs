//! Prices of the Pyth network.
use anchor_lang::prelude::Clock;
use pyth_solana_receiver_sdk::price_update::{PriceFeedMessage, PriceUpdateV2, VerificationLevel};
use vstd::prelude::*;

use crate::constants::BPS_DENOM;
use crate::errors::{EnvelopeError, FlashBookError};
use crate::events::{MarketOracleConfigInitializedEvent, OracleUpdatedFromPythEvent};
use crate::fees::low_u64;
use crate::keys::Pubkey;
use crate::math::{abs_int, clamp_u128_to_u32, sat_i64, sat_u32};
use crate::oracle::{
    UpdateOracle, foreign_envelope, has_foreign_envelope, oracle_written, write_oracle,
};
use crate::state::{FeedId, MarketAccount, MarketOracleConfigAccount, OracleSource};

verus! {

/// Why the receiver's client refuses a price update.
#[verifier::external_type_specification]
#[verifier::external_body]
pub struct ExGetPriceError(pyth_solana_receiver_sdk::error::GetPriceError);

/// A price update as the receiver program stores it.
#[derive(Clone, Copy, Debug)]
pub struct PythUpdate {
    /// The number of signatures that were checked, if not all were.
    pub partial_signatures: Option<u8>,
    pub feed_id: FeedId,
    pub price: i64,
    pub conf: u64,
    pub exponent: i32,
    pub publish_time: i64,
}

/// A price: `price` plus or minus `conf`, times ten to the power of `exponent`.
#[derive(Clone, Copy, Debug, PartialEq, Eq, Structural)]
pub struct PythPrice {
    pub price: i64,
    pub conf: u64,
    pub exponent: i32,
    pub publish_time: i64,
}

/// The price that an update carries.
pub open spec fn carried_price(u: PythUpdate) -> PythPrice {
    PythPrice {
        price: u.price,
        conf: u.conf,
        exponent: u.exponent,
        publish_time: u.publish_time,
    }
}

/// An update may be used: it was fully verified, is for the given feed and not
/// older than `max_age` seconds.
pub open spec fn usable(u: PythUpdate, now: i64, max_age: u64, feed_id: FeedId) -> bool {
    &&& u.partial_signatures is None
    &&& u.feed_id.bytes@ == feed_id.bytes@
    &&& sat_i64(u.publish_time + max_age) >= now
}

/// Calls `PriceUpdateV2::get_price_no_older_than` of `pyth_solana_receiver_sdk` on
/// an update with these contents. It yields the price of the update if the update
/// has full verification, names the given feed, and its publish time plus the
/// allowed age, at most `i64::MAX`, reaches the clock's time; otherwise an error.
/// An age beyond `i64::MAX` makes it panic. Which error comes is not stated.
#[verifier::external_body]
fn get_price_no_older_than(u: &PythUpdate, now: i64, max_age: u64, feed_id: &FeedId) -> (r: Result<
    PythPrice,
    pyth_solana_receiver_sdk::error::GetPriceError,
>)
    requires
        max_age <= i64::MAX,
    ensures
        r is Ok <==> usable(*u, now, max_age, *feed_id),
        r is Ok ==> r->Ok_0 == carried_price(*u),
{
    let verification_level = match u.partial_signatures {
        Some(num_signatures) => VerificationLevel::Partial { num_signatures },
        None => VerificationLevel::Full,
    };
    let PythUpdate { price, conf, exponent, publish_time, .. } = *u;
    let (feed, prev_publish_time, ema_price, ema_conf) = (u.feed_id.bytes, publish_time, price, conf);
    let price_message = PriceFeedMessage {
        feed_id: feed, price, conf, exponent, publish_time, prev_publish_time, ema_price, ema_conf,
    };
    let (write_authority, posted_slot) = Default::default();
    let update = PriceUpdateV2 { write_authority, verification_level, price_message, posted_slot };
    let clock = Clock { unix_timestamp: now, ..Default::default() };
    update.get_price_no_older_than(&clock, max_age, &feed_id.bytes).map(
        |p| PythPrice { price: p.price, conf: p.conf, exponent: p.exponent, publish_time: p.publish_time })
}

/// Ten to the power of `n`.
pub open spec fn pow10(n: int) -> int
    decreases n,
{
    if n <= 0 {
        1
    } else {
        10 * pow10(n - 1)
    }
}

/// Powers of ten grow with the exponent.
pub proof fn lemma_pow10_grows(m: int, n: int)
    requires
        m <= n,
    ensures
        1 <= pow10(m) <= pow10(n),
    decreases n - m, n,
{
    if n > m && n > 0 {
        lemma_pow10_grows(m, n - 1);
    } else if n > 0 {
        lemma_pow10_grows(n - 1, n - 1);
    }
}

/// Computes a power of ten, if an `i64` holds it.
pub fn checked_pow10(n: u32) -> (r: Option<i64>)
    ensures
        match r {
            Some(p) => p == pow10(n as int),
            None => pow10(n as int) > i64::MAX,
        },
{
    if n > 18 {
        proof {
            lemma_pow10_grows(19, n as int);
            reveal_with_fuel(pow10, 20);
        }
        return None;
    }
    let mut p: i64 = 1;
    let mut i: u32 = 0;
    while i < n
        invariant
            i <= n <= 18,
            p == pow10(i as int),
        decreases n - i,
    {
        proof {
            lemma_pow10_grows(i + 1, 18);
            reveal_with_fuel(pow10, 19);
        }
        p = p * 10;
        i = i + 1;
    }
    Some(p)
}

/// The price in ticks, rounded down, or why there is none. `decimals` is the
/// exponent of the price plus the market's tick decimals.
pub open spec fn scaled_price(price: i64, decimals: int) -> Result<u64, FlashBookError> {
    let factor = pow10(abs_int(decimals));
    if factor > i64::MAX || (decimals >= 0 && price * factor > i64::MAX) {
        Err(FlashBookError::ArithmeticOverflow)
    } else {
        let ticks = if decimals >= 0 {
            price * factor
        } else {
            price as int / factor
        };
        if ticks == 0 {
            Err(FlashBookError::ZeroPrice)
        } else {
            Ok(ticks as u64)
        }
    }
}

/// Computes the price in ticks.
pub fn scale_price(price: i64, decimals: i32) -> (r: Result<u64, FlashBookError>)
    requires
        price > 0,
        decimals > i32::MIN,
    ensures
        r == scaled_price(price, decimals as int),
{
    let ticks: i64 = if decimals >= 0 {
        let factor: i64 = match checked_pow10(decimals as u32) {
            Some(p) => p,
            None => {
                return Err(FlashBookError::ArithmeticOverflow);
            },
        };
        proof {
            lemma_pow10_grows(0, decimals as int);
            assert(price * factor > 0) by (nonlinear_arith)
                requires
                    price > 0,
                    factor > 0,
            ;
        }
        match price.checked_mul(factor) {
            Some(t) => t,
            None => {
                return Err(FlashBookError::ArithmeticOverflow);
            },
        }
    } else {
        let factor: i64 = match checked_pow10((-decimals) as u32) {
            Some(p) => p,
            None => {
                return Err(FlashBookError::ArithmeticOverflow);
            },
        };
        proof {
            lemma_pow10_grows(0, -decimals as int);
            assert(0 <= price as int / factor as int <= price) by (nonlinear_arith)
                requires
                    price > 0,
                    factor > 0,
            ;
        }
        ((price as u64) / (factor as u64)) as i64
    };
    if ticks == 0 {
        return Err(FlashBookError::ZeroPrice);
    }
    Ok(ticks as u64)
}

/// The accounts of an update from the Pyth network.
#[derive(Clone, Copy, Debug)]
pub struct UpdateOracleFromPyth {
    /// The market and its bounds. The caller needs no authority.
    pub target: UpdateOracle,
    pub oracle_config: MarketOracleConfigAccount,
}

/// The confidence of a price, in basis points of it.
pub open spec fn pyth_conf_bps(p: PythPrice) -> int {
    p.conf * BPS_DENOM / (p.price as int)
}

/// Why a price that the network delivered is refused before the bounds are asked,
/// if it is.
pub open spec fn pyth_price_refusal(cfg: MarketOracleConfigAccount, p: PythPrice) -> Option<
    FlashBookError,
> {
    if p.price <= 0 {
        Some(FlashBookError::ZeroPrice)
    } else {
        match scaled_price(p.price, p.exponent + cfg.tick_decimals) {
            Err(e) => Some(e),
            Ok(_) => if pyth_conf_bps(p) > cfg.max_confidence_bps {
                Some(FlashBookError::OracleConfidenceTooWide)
            } else {
                None
            },
        }
    }
}

/// Why an update is refused before its price is looked at, if it is.
pub open spec fn pyth_update_refusal(a: UpdateOracleFromPyth, u: PythUpdate, now: i64) -> Option<
    FlashBookError,
> {
    let cfg = a.oracle_config;
    if cfg.market != a.target.market_key {
        Some(FlashBookError::WrongMarket)
    } else if foreign_envelope(a.target) {
        Some(FlashBookError::EnvelopePriceCapInvalid)
    } else if cfg.source != OracleSource::Pyth {
        Some(FlashBookError::OutOfRange)
    } else if !usable(u, now, cfg.max_staleness_seconds as u64, cfg.pyth_price_feed_id) {
        Some(FlashBookError::OracleTooStale)
    } else {
        None
    }
}

/// Seconds since the epoch, read as an unsigned number.
pub open spec fn unsigned_time(t: i64) -> u64 {
    low_u64(t as int) as u64
}

/// Reads a time as an unsigned number.
pub fn to_unsigned_time(t: i64) -> (r: u64)
    ensures
        r == unsigned_time(t),
{
    if t >= 0 {
        t as u64
    } else {
        (t as i128 + 0x1_0000_0000_0000_0000i128) as u64
    }
}

/// What an accepted price reports.
pub open spec fn pyth_event(a: UpdateOracleFromPyth, p: PythPrice) -> OracleUpdatedFromPythEvent {
    OracleUpdatedFromPythEvent {
        market: a.target.market_key,
        pyth_price: p.price,
        pyth_conf: p.conf,
        pyth_exponent: p.exponent,
        new_oracle_ticks: scaled_price(p.price, p.exponent + a.oracle_config.tick_decimals)->Ok_0,
        confidence_bps: sat_u32(pyth_conf_bps(p)) as u32,
        publish_time: p.publish_time,
    }
}

/// Takes a price that the network delivered into the market.
pub fn accept_pyth_price(
    ctx: &mut UpdateOracleFromPyth,
    p: PythPrice,
    now_slot: u64,
    verdict: Result<(), EnvelopeError>,
) -> (r: Result<OracleUpdatedFromPythEvent, FlashBookError>)
    requires
        p.price > 0 ==> i32::MIN < p.exponent + old(ctx).oracle_config.tick_decimals <= i32::MAX,
    ensures
        final(ctx).oracle_config == old(ctx).oracle_config,
        match pyth_price_refusal(old(ctx).oracle_config, p) {
            Some(e) => r == Err::<OracleUpdatedFromPythEvent, FlashBookError>(e) && final(ctx).target
                == old(ctx).target,
            None => {
                let w = oracle_written(
                    old(ctx).target,
                    pyth_event(*old(ctx), p).new_oracle_ticks,
                    p.conf,
                    unsigned_time(p.publish_time),
                    now_slot,
                    verdict,
                );
                &&& final(ctx).target == w.0
                &&& r == (match w.1 {
                    Some(e) => Err::<OracleUpdatedFromPythEvent, FlashBookError>(e),
                    None => Ok(pyth_event(*old(ctx), p)),
                })
            },
        },
{
    if p.price <= 0 {
        return Err(FlashBookError::ZeroPrice);
    }
    let decimals: i32 = p.exponent + ctx.oracle_config.tick_decimals as i32;
    let ticks: u64 = match scale_price(p.price, decimals) {
        Ok(t) => t,
        Err(e) => {
            return Err(e);
        },
    };
    assert(p.conf * BPS_DENOM <= u64::MAX * 10_000) by (nonlinear_arith)
        requires
            p.conf <= u64::MAX,
            BPS_DENOM == 10_000,
    ;
    let conf_bps: u128 = (p.conf as u128) * (BPS_DENOM as u128) / (p.price as u128);
    if conf_bps > ctx.oracle_config.max_confidence_bps as u128 {
        return Err(FlashBookError::OracleConfidenceTooWide);
    }
    match write_oracle(
        &mut ctx.target,
        ticks,
        p.conf,
        to_unsigned_time(p.publish_time),
        now_slot,
        verdict,
    ) {
        Ok(_) => {},
        Err(e) => {
            return Err(e);
        },
    }
    Ok(
        OracleUpdatedFromPythEvent {
            market: ctx.target.market_key,
            pyth_price: p.price,
            pyth_conf: p.conf,
            pyth_exponent: p.exponent,
            new_oracle_ticks: ticks,
            confidence_bps: clamp_u128_to_u32(conf_bps),
            publish_time: p.publish_time,
        },
    )
}

/// Takes the price of a Pyth update into the market, unless the update is not fully
/// verified, for another feed or too old, or its price is not positive, does not
/// fit, is too uncertain or out of bounds. A price that the bounds refuse is counted
/// there; otherwise a refusal changes nothing.
pub fn update_oracle_from_pyth(
    ctx: &mut UpdateOracleFromPyth,
    price_update: &PythUpdate,
    unix_now: i64,
    now_slot: u64,
    verdict: Result<(), EnvelopeError>,
) -> (r: Result<OracleUpdatedFromPythEvent, FlashBookError>)
    requires
        pyth_update_refusal(*old(ctx), *price_update, unix_now) is None && price_update.price > 0
            ==> i32::MIN < price_update.exponent + old(ctx).oracle_config.tick_decimals <= i32::MAX,
    ensures
        final(ctx).oracle_config == old(ctx).oracle_config,
        match pyth_update_refusal(*old(ctx), *price_update, unix_now) {
            Some(e) => r == Err::<OracleUpdatedFromPythEvent, FlashBookError>(e) && final(ctx).target
                == old(ctx).target,
            None => match pyth_price_refusal(old(ctx).oracle_config, carried_price(*price_update)) {
                Some(e) => r == Err::<OracleUpdatedFromPythEvent, FlashBookError>(e) && final(
                    ctx
                ).target == old(ctx).target,
                None => {
                    let p = carried_price(*price_update);
                    let w = oracle_written(
                        old(ctx).target,
                        pyth_event(*old(ctx), p).new_oracle_ticks,
                        p.conf,
                        unsigned_time(p.publish_time),
                        now_slot,
                        verdict,
                    );
                    &&& final(ctx).target == w.0
                    &&& r == (match w.1 {
                        Some(e) => Err::<OracleUpdatedFromPythEvent, FlashBookError>(e),
                        None => Ok(pyth_event(*old(ctx), p)),
                    })
                },
            },
        },
{
    if ctx.oracle_config.market != ctx.target.market_key {
        return Err(FlashBookError::WrongMarket);
    }
    if has_foreign_envelope(&ctx.target) {
        return Err(FlashBookError::EnvelopePriceCapInvalid);
    }
    if ctx.oracle_config.source != OracleSource::Pyth {
        return Err(FlashBookError::OutOfRange);
    }
    let p = match get_price_no_older_than(
        price_update,
        unix_now,
        ctx.oracle_config.max_staleness_seconds as u64,
        &ctx.oracle_config.pyth_price_feed_id,
    ) {
        Ok(p) => p,
        Err(_) => {
            return Err(FlashBookError::OracleTooStale);
        },
    };
    accept_pyth_price(ctx, p, now_slot, verdict)
}

/// Why a market cannot be bound to a feed, if it cannot.
pub open spec fn oracle_config_refusal(
    m: MarketAccount,
    authority: Pubkey,
    max_staleness_seconds: u32,
    max_confidence_bps: u32,
) -> Option<FlashBookError> {
    if m.authority != authority {
        Some(FlashBookError::Unauthorized)
    } else if max_staleness_seconds == 0 || max_confidence_bps == 0 || max_confidence_bps > 1000 {
        Some(FlashBookError::OutOfRange)
    } else {
        None
    }
}

/// Binds a market to a feed. Only the market's authority may.
pub fn init_market_oracle_config(
    market_key: Pubkey,
    market: &MarketAccount,
    authority: Pubkey,
    bump: u8,
    pyth_price_feed_id: FeedId,
    max_staleness_seconds: u32,
    max_confidence_bps: u32,
    tick_decimals: i8,
) -> (r: Result<
    (MarketOracleConfigAccount, MarketOracleConfigInitializedEvent),
    FlashBookError,
>)
    ensures
        r == (match oracle_config_refusal(
            *market,
            authority,
            max_staleness_seconds,
            max_confidence_bps,
        ) {
            Some(e) => Err::<
                (MarketOracleConfigAccount, MarketOracleConfigInitializedEvent),
                FlashBookError,
            >(e),
            None => Ok(
                (
                    MarketOracleConfigAccount {
                        bump,
                        source: OracleSource::Pyth,
                        market: market_key,
                        pyth_price_feed_id,
                        max_staleness_seconds,
                        max_confidence_bps,
                        tick_decimals,
                    },
                    MarketOracleConfigInitializedEvent {
                        market: market_key,
                        pyth_price_feed_id,
                        max_staleness_seconds,
                        max_confidence_bps,
                        tick_decimals,
                    },
                ),
            ),
        }),
{
    if market.authority != authority {
        return Err(FlashBookError::Unauthorized);
    }
    if max_staleness_seconds == 0 || max_confidence_bps == 0 || max_confidence_bps > 1000 {
        return Err(FlashBookError::OutOfRange);
    }
    Ok(
        (
            MarketOracleConfigAccount {
                bump,
                source: OracleSource::Pyth,
                market: market_key,
                pyth_price_feed_id,
                max_staleness_seconds,
                max_confidence_bps,
                tick_decimals,
            },
            MarketOracleConfigInitializedEvent {
                market: market_key,
                pyth_price_feed_id,
                max_staleness_seconds,
                max_confidence_bps,
                tick_decimals,
            },
        ),
    )
}

} // verus!
