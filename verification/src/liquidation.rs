//! Closing positions that no longer meet their margin.
use vstd::prelude::*;

use crate::book::{BookModel, MarketBook, RestingOrderV2, book_after_rest, next_order_refusal};
use crate::collateral::with_collateral;
use crate::constants::{BPS_DENOM, Limits};
use crate::errors::FlashBookError;
use crate::events::{
    HealthGateSourceEvent, JitLiquidationFilledEvent, LiquidationInjectedV2Event,
    LiquidatorRewardedEvent,
};
use crate::fees::{bps_of, bps_of_u64, low_u64, sat_bps_of, saturating_bps_of, truncate_u128_to_u64};
use crate::keys::Pubkey;
use crate::mark::{sat_notional, saturating_notional};
use crate::math::{
    clamp_u128_to_u32, clamp_u128_to_u64, clamp_u64_to_u32, max_int, min_int, min_u64, sat_u32,
    sat_u64, unix_seconds,
};
use crate::risk::{
    Assessment, MarginAssessment, RiskMarketSnap, RiskPosSnap, market_snap, pos_snap, snap_market,
    snap_position,
};
use crate::settlement::is_isolated;
use crate::state::{
    JitLiquidationOfferAccount, MarketAccount, MarketParams, PositionAccount, Side,
    TraderStateAccount, byte_of_side, opposite_side, side_of_byte,
};

verus! {

/// The price at which a position's health is judged, and where it came from: the
/// worse of mark and oracle for the position. The source is 0 for the mark, 1 for
/// the oracle, 2 where both agree.
pub open spec fn health_price(side: Side, mark: u64, oracle: u64) -> (u64, u8) {
    match side {
        Side::Long => if oracle > 0 && oracle < mark {
            (oracle, 1)
        } else if oracle > 0 && oracle == mark {
            (mark, 2)
        } else {
            (mark, 0)
        },
        Side::Short => if oracle > mark {
            (oracle, 1)
        } else if oracle == mark {
            (mark, 2)
        } else {
            (mark, 0)
        },
    }
}

/// Picks the price at which a position's health is judged.
pub fn pick_health_price(side: Side, mark: u64, oracle: u64) -> (r: (u64, u8))
    ensures
        r == health_price(side, mark, oracle),
{
    match side {
        Side::Long => {
            if oracle > 0 && oracle < mark {
                (oracle, 1)
            } else if oracle > 0 && oracle == mark {
                (mark, 2)
            } else {
                (mark, 0)
            }
        },
        Side::Short => {
            if oracle > mark {
                (oracle, 1)
            } else if oracle == mark {
                (mark, 2)
            } else {
                (mark, 0)
            }
        },
    }
}

/// A position is judged at the lower of two published prices if it is long and at
/// the higher one if it is short.
pub proof fn law_health_price_is_the_worse(side: Side, mark: u64, oracle: u64)
    requires
        oracle > 0,
    ensures
        health_price(side, mark, oracle).0 == match side {
            Side::Long => min_int(mark as int, oracle as int),
            Side::Short => max_int(mark as int, oracle as int),
        },
{
}

/// The limit of a forced close: the oracle price, worse by the penalty for the
/// closed side. Only the low 64 bits are kept.
pub open spec fn liquidation_limit(m: MarketAccount, pos_side: Side) -> u64 {
    let oracle = m.oracle_price_ticks as int;
    let delta = bps_of(oracle, m.params.liq_penalty_bps as int);
    match pos_side {
        Side::Long => max_int(oracle - delta, 0) as u64,
        Side::Short => low_u64(oracle + delta) as u64,
    }
}

/// Computes the limit of a forced close.
pub fn compute_liquidation_limit(m: &MarketAccount, pos_side: Side) -> (r: u64)
    ensures
        r == liquidation_limit(*m, pos_side),
{
    let oracle: u128 = m.oracle_price_ticks as u128;
    let delta: u128 = bps_of_u64(m.oracle_price_ticks, m.params.liq_penalty_bps);
    proof {
        let p = m.oracle_price_ticks * m.params.liq_penalty_bps;
        assert(p <= u64::MAX * u32::MAX) by (nonlinear_arith)
            requires
                p == m.oracle_price_ticks * m.params.liq_penalty_bps,
        ;
        assert(p >= 0) by (nonlinear_arith)
            requires
                p == m.oracle_price_ticks * m.params.liq_penalty_bps,
        ;
    }
    match pos_side {
        Side::Long => oracle.saturating_sub(delta) as u64,
        Side::Short => truncate_u128_to_u64(oracle + delta),
    }
}

/// What a liquidation looks for among the standing offers.
#[derive(Clone, Copy, Debug, PartialEq, Eq, Structural)]
pub struct JitQuery {
    pub market: Pubkey,
    pub trader: Pubkey,
    /// The side of the position to be closed.
    pub pos_side: Side,
    pub slot: u64,
    /// The limit of the close without an offer.
    pub synthetic_limit: u64,
}

/// Whether price `a` closes a position of the given side better than `b`.
pub open spec fn closes_better(pos_side: Side, a: u64, b: u64) -> bool {
    match pos_side {
        Side::Long => a > b,
        Side::Short => a < b,
    }
}

/// Whether an offer may serve a liquidation. It has to beat the limit of the close
/// without an offer.
pub open spec fn offer_serves(q: JitQuery, o: JitLiquidationOfferAccount) -> bool {
    &&& o.market == q.market
    &&& o.target_trader == Pubkey::none() || o.target_trader == q.trader
    &&& o.side == byte_of_side(q.pos_side)
    &&& o.remaining_size_lots > 0
    &&& o.expires_at_slot == 0 || q.slot < o.expires_at_slot
    &&& closes_better(q.pos_side, o.offer_price_ticks, q.synthetic_limit)
}

/// The best of the first `n` offers that serve, the earlier one among equals.
pub open spec fn best_offer(q: JitQuery, offers: Seq<JitLiquidationOfferAccount>, n: int) -> Option<
    int,
>
    decreases n,
{
    if n <= 0 {
        None
    } else {
        let b = best_offer(q, offers, n - 1);
        let o = offers[n - 1];
        if offer_serves(q, o) && (b is None || closes_better(
            q.pos_side,
            o.offer_price_ticks,
            offers[b->0].offer_price_ticks,
        )) {
            Some(n - 1)
        } else {
            b
        }
    }
}

/// Tests whether an offer may serve a liquidation.
pub fn check_offer(q: &JitQuery, o: &JitLiquidationOfferAccount) -> (r: bool)
    ensures
        r == offer_serves(*q, *o),
{
    if o.market != q.market {
        return false;
    }
    if !o.target_trader.is_default() && o.target_trader != q.trader {
        return false;
    }
    if o.side != q.pos_side.to_byte() || o.remaining_size_lots == 0 {
        return false;
    }
    if o.expires_at_slot != 0 && q.slot >= o.expires_at_slot {
        return false;
    }
    match q.pos_side {
        Side::Long => o.offer_price_ticks > q.synthetic_limit,
        Side::Short => o.offer_price_ticks < q.synthetic_limit,
    }
}

/// Picks the best offer that serves a liquidation.
pub fn choose_offer(q: &JitQuery, offers: &Vec<JitLiquidationOfferAccount>) -> (r: Option<usize>)
    ensures
        match r {
            Some(i) => best_offer(*q, offers@, offers@.len() as int) == Some(i as int) && i
                < offers@.len() && offer_serves(*q, offers@[i as int]),
            None => best_offer(*q, offers@, offers@.len() as int) is None,
        },
{
    let mut best: Option<usize> = None;
    let mut i: usize = 0;
    while i < offers.len()
        invariant
            i <= offers@.len(),
            match best {
                Some(k) => best_offer(*q, offers@, i as int) == Some(k as int) && k < i
                    && offer_serves(*q, offers@[k as int]),
                None => best_offer(*q, offers@, i as int) is None,
            },
        decreases offers@.len() - i,
    {
        if check_offer(q, &offers[i]) {
            let better: bool = match best {
                None => true,
                Some(k) => match q.pos_side {
                    Side::Long => offers[i].offer_price_ticks > offers[k].offer_price_ticks,
                    Side::Short => offers[i].offer_price_ticks < offers[k].offer_price_ticks,
                },
            };
            if better {
                best = Some(i);
            }
        }
        i = i + 1;
    }
    best
}

/// The chosen offer serves, and no other serving offer closes better. None is
/// chosen only where none serves.
pub proof fn law_chosen_offer_is_best(q: JitQuery, offers: Seq<JitLiquidationOfferAccount>, n: int)
    requires
        0 <= n <= offers.len(),
    ensures
        match best_offer(q, offers, n) {
            Some(i) => 0 <= i < n && offer_serves(q, offers[i]) && forall|j: int|
                0 <= j < n && offer_serves(q, #[trigger] offers[j]) ==> !closes_better(
                    q.pos_side,
                    offers[j].offer_price_ticks,
                    offers[i].offer_price_ticks,
                ),
            None => forall|j: int| 0 <= j < n ==> !offer_serves(q, #[trigger] offers[j]),
        },
    decreases n,
{
    if n > 0 {
        law_chosen_offer_is_best(q, offers, n - 1);
    }
}

/// The limit of a close: the price of the chosen offer, or the one without.
pub open spec fn close_limit(q: JitQuery, offers: Seq<JitLiquidationOfferAccount>) -> u64 {
    match best_offer(q, offers, offers.len() as int) {
        Some(i) => offers[i].offer_price_ticks,
        None => q.synthetic_limit,
    }
}

/// A standing offer never makes the close worse for the trader.
pub proof fn law_offer_never_hurts_the_trader(
    q: JitQuery,
    offers: Seq<JitLiquidationOfferAccount>,
)
    ensures
        !closes_better(q.pos_side, q.synthetic_limit, close_limit(q, offers)),
{
    law_chosen_offer_is_best(q, offers, offers.len() as int);
}

/// The liquidator's share in basis points. In an auction it grows from nothing,
/// over its duration, in step with the time since the position turned unhealthy.
pub open spec fn auction_reward_bps(params: MarketParams, since: u64, slot: u64) -> int {
    let base = params.liquidator_reward_bps as int;
    let duration = params.liquidation_auction_duration_slots as int;
    if duration == 0 {
        base
    } else if since == 0 {
        0
    } else {
        let elapsed = min_int(max_int(slot - since, 0), duration);
        base * (elapsed * BPS_DENOM / duration) / (BPS_DENOM as int)
    }
}

/// Computes the liquidator's share.
pub fn compute_auction_reward_bps(params: &MarketParams, since: u64, slot: u64) -> (r: u128)
    ensures
        r == auction_reward_bps(*params, since, slot),
{
    let base: u128 = params.liquidator_reward_bps as u128;
    let duration: u64 = params.liquidation_auction_duration_slots as u64;
    if duration == 0 {
        return base;
    }
    if since == 0 {
        return 0;
    }
    let elapsed: u64 = min_u64(slot.saturating_sub(since), duration);
    let parts: u128 = (elapsed as u128) * (BPS_DENOM as u128);
    let scale: u128 = parts / (duration as u128);
    proof {
        assert(scale <= 10_000) by (nonlinear_arith)
            requires
                elapsed <= duration,
                duration > 0,
                scale == (elapsed * 10_000) / (duration as int),
        ;
        assert(base * scale <= u32::MAX * 10_000) by (nonlinear_arith)
            requires
                base <= u32::MAX,
                scale <= 10_000,
        ;
    }
    base * scale / (BPS_DENOM as u128)
}

/// The reward never exceeds the configured share, and it does not shrink as time
/// passes.
pub proof fn law_auction_reward_grows(params: MarketParams, since: u64, earlier: u64, later: u64)
    requires
        earlier <= later,
    ensures
        0 <= auction_reward_bps(params, since, earlier) <= auction_reward_bps(params, since, later)
            <= params.liquidator_reward_bps,
{
    let base = params.liquidator_reward_bps as int;
    let duration = params.liquidation_auction_duration_slots as int;
    if duration > 0 && since > 0 {
        let a = min_int(max_int(earlier - since, 0), duration);
        let b = min_int(max_int(later - since, 0), duration);
        let x = a * 10_000 / duration;
        let y = b * 10_000 / duration;
        assert(0 <= x <= y <= 10_000) by (nonlinear_arith)
            requires
                0 <= a <= b <= duration,
                duration > 0,
                x == a * 10_000 / duration,
                y == b * 10_000 / duration,
        ;
        assert(0 <= base * x <= base * y <= base * 10_000) by (nonlinear_arith)
            requires
                0 <= x <= y <= 10_000,
                base >= 0,
        ;
    }
}

/// What the liquidator is due for closing `close` lots, before it is known what
/// the liquidated side can pay.
pub open spec fn liquidation_reward(m: MarketAccount, since: u64, close: u64, slot: u64) -> u64 {
    if m.params.liquidator_reward_bps == 0 {
        0
    } else {
        sat_u64(
            sat_bps_of(
                sat_notional(
                    close as int,
                    m.oracle_price_ticks as int,
                    m.params.tick_size as int,
                ),
                auction_reward_bps(m.params, since, slot),
            ),
        ) as u64
    }
}

/// Computes what the liquidator is due.
pub fn compute_liquidation_reward(m: &MarketAccount, since: u64, close: u64, slot: u64) -> (r: u64)
    ensures
        r == liquidation_reward(*m, since, close, slot),
{
    if m.params.liquidator_reward_bps == 0 {
        return 0;
    }
    let notional: u128 = saturating_notional(close, m.oracle_price_ticks, m.params.tick_size);
    let bps: u128 = compute_auction_reward_bps(&m.params, since, slot);
    clamp_u128_to_u64(saturating_bps_of(notional, bps))
}

/// The accounts of one liquidation.
#[derive(Clone, Copy, Debug, PartialEq, Eq, Structural)]
pub struct LiquidatePositionV2 {
    pub caller: Pubkey,
    /// Bump of the caller's account, for the case that it is new.
    pub caller_bump: u8,
    pub market_key: Pubkey,
    pub market: MarketAccount,
    pub trader_state: TraderStateAccount,
    /// The caller's account; none where that is the liquidated account itself.
    pub caller_trader_state: Option<TraderStateAccount>,
    pub position: PositionAccount,
}

/// How many lots are closed: all, or as many as were asked for.
pub open spec fn close_size(p: PositionAccount, requested: u64) -> u64 {
    if requested == 0 {
        p.size_lots
    } else {
        requested
    }
}

/// What the margin engine is asked about.
pub fn liquidation_question(a: &LiquidatePositionV2) -> (r: (RiskPosSnap, RiskMarketSnap))
    ensures
        r.0 == pos_snap(a.position, a.position.collateral_quote_lots),
        r.1 == market_snap(
            a.market_key,
            a.market,
            health_price(
                side_of_byte(a.position.side),
                a.market.mark_price_ticks,
                a.market.oracle_price_ticks,
            ).0,
            a.market.params.maintenance_margin_ratio_bps,
        ),
{
    let (price, _) = pick_health_price(
        Side::from_byte(a.position.side),
        a.market.mark_price_ticks,
        a.market.oracle_price_ticks,
    );
    (
        snap_position(&a.position, a.position.collateral_quote_lots),
        snap_market(
            a.market_key,
            &a.market,
            price,
            a.market.params.maintenance_margin_ratio_bps,
        ),
    )
}

/// The offers that a liquidation looks for.
pub open spec fn jit_query(a: LiquidatePositionV2, slot: u64) -> JitQuery {
    let side = side_of_byte(a.position.side);
    JitQuery {
        market: a.market_key,
        trader: a.trader_state.trader,
        pos_side: side,
        slot,
        synthetic_limit: liquidation_limit(a.market, side),
    }
}

/// What the liquidator is paid: the reward, as far as the bucket that backs the
/// position goes.
pub open spec fn reward_paid(a: LiquidatePositionV2, requested: u64, slot: u64) -> u64 {
    let due = liquidation_reward(
        a.market,
        a.position.unhealthy_since_slot,
        close_size(a.position, requested),
        slot,
    );
    min_int(
        due as int,
        if is_isolated(a.position) {
            a.position.collateral_quote_lots as int
        } else {
            a.trader_state.collateral_quote_lots as int
        },
    ) as u64
}

/// The accounts after `paid` went from the bucket that backs the position to the
/// caller, whose account is opened where it is new.
pub open spec fn reward_moved(a: LiquidatePositionV2, paid: u64) -> Result<
    LiquidatePositionV2,
    FlashBookError,
> {
    let iso = is_isolated(a.position);
    let position = PositionAccount {
        collateral_quote_lots: if iso {
            (a.position.collateral_quote_lots - paid) as u64
        } else {
            a.position.collateral_quote_lots
        },
        ..a.position
    };
    let pool = if iso {
        a.trader_state.collateral_quote_lots as int
    } else {
        a.trader_state.collateral_quote_lots - paid
    };
    match a.caller_trader_state {
        None => if pool + paid > u64::MAX {
            Err(FlashBookError::ArithmeticOverflow)
        } else {
            Ok(
                LiquidatePositionV2 {
                    trader_state: with_collateral(a.trader_state, pool + paid),
                    position,
                    ..a
                },
            )
        },
        Some(c) => if c.collateral_quote_lots + paid > u64::MAX {
            Err(FlashBookError::ArithmeticOverflow)
        } else {
            let opened = if c.trader == Pubkey::none() {
                TraderStateAccount { trader: a.caller, bump: a.caller_bump, ..c }
            } else {
                c
            };
            Ok(
                LiquidatePositionV2 {
                    trader_state: with_collateral(a.trader_state, pool),
                    caller_trader_state: Some(
                        with_collateral(opened, c.collateral_quote_lots + paid),
                    ),
                    position,
                    ..a
                },
            )
        },
    }
}

/// Moves a reward to the caller.
pub fn move_reward(a: LiquidatePositionV2, paid: u64) -> (r: Result<
    LiquidatePositionV2,
    FlashBookError,
>)
    requires
        paid <= if is_isolated(a.position) {
            a.position.collateral_quote_lots
        } else {
            a.trader_state.collateral_quote_lots
        },
    ensures
        r == reward_moved(a, paid),
{
    let mut b = a;
    if a.position.collateral_quote_lots > 0 {
        b.position.collateral_quote_lots = a.position.collateral_quote_lots - paid;
    } else {
        b.trader_state.collateral_quote_lots = a.trader_state.collateral_quote_lots - paid;
    }
    match a.caller_trader_state {
        None => {
            match b.trader_state.collateral_quote_lots.checked_add(paid) {
                Some(n) => {
                    b.trader_state.collateral_quote_lots = n;
                },
                None => {
                    return Err(FlashBookError::ArithmeticOverflow);
                },
            }
        },
        Some(c) => {
            let mut opened = c;
            if c.trader.is_default() {
                opened.trader = a.caller;
                opened.bump = a.caller_bump;
            }
            match c.collateral_quote_lots.checked_add(paid) {
                Some(n) => {
                    opened.collateral_quote_lots = n;
                },
                None => {
                    return Err(FlashBookError::ArithmeticOverflow);
                },
            }
            b.caller_trader_state = Some(opened);
        },
    }
    Ok(b)
}

/// Paying the liquidator conserves collateral, and the pool of an isolated
/// position's trader is not drawn on.
pub proof fn law_reward_conserves(a: LiquidatePositionV2, paid: u64)
    requires
        a.caller_trader_state is Some,
        paid <= if is_isolated(a.position) {
            a.position.collateral_quote_lots
        } else {
            a.trader_state.collateral_quote_lots
        },
        reward_moved(a, paid) is Ok,
    ensures
        ({
            let b = reward_moved(a, paid)->Ok_0;
            &&& b.position.collateral_quote_lots + b.trader_state.collateral_quote_lots
                + b.caller_trader_state->0.collateral_quote_lots
                == a.position.collateral_quote_lots + a.trader_state.collateral_quote_lots
                + a.caller_trader_state->0.collateral_quote_lots
            &&& is_isolated(a.position) ==> b.trader_state == a.trader_state
        }),
{
}

/// Why a liquidation is refused before anything moves, if it is.
pub open spec fn liquidation_gate(
    a: LiquidatePositionV2,
    requested: u64,
    assessment: Assessment,
    slot: u64,
    now: u64,
) -> Option<FlashBookError> {
    let p = a.position;
    let cooldown = a.market.params.liquidation_cooldown_slots;
    let max_age = a.market.params.oracle_staleness_max_seconds;
    let published = a.market.oracle_published_at_unix_seconds;
    if p.size_lots == 0 {
        Some(FlashBookError::LiquidationStale)
    } else if p.trader != a.trader_state.trader {
        Some(FlashBookError::WrongTrader)
    } else if p.market != a.market_key {
        Some(FlashBookError::WrongMarket)
    } else if requested > p.size_lots {
        Some(FlashBookError::OutOfRange)
    } else if cooldown > 0 && p.last_liquidated_at_slot > 0 && slot - p.last_liquidated_at_slot
        < cooldown {
        Some(FlashBookError::RateLimited)
    } else if max_age > 0 && published > 0 && now - published > max_age {
        Some(FlashBookError::OracleTooStale)
    } else {
        match assessment {
            Err(e) => Some(e),
            Ok(m) => if m.is_healthy {
                Some(FlashBookError::NotLiquidatable)
            } else {
                None
            },
        }
    }
}

/// Tests whether a position may be liquidated.
pub fn check_liquidation(
    a: &LiquidatePositionV2,
    requested: u64,
    assessment: Assessment,
    slot: u64,
    now: u64,
) -> (r: Result<MarginAssessment, FlashBookError>)
    ensures
        match liquidation_gate(*a, requested, assessment, slot, now) {
            Some(e) => r == Err::<MarginAssessment, FlashBookError>(e),
            None => r == assessment && assessment is Ok,
        },
{
    if a.position.size_lots == 0 {
        return Err(FlashBookError::LiquidationStale);
    }
    if a.position.trader != a.trader_state.trader {
        return Err(FlashBookError::WrongTrader);
    }
    if a.position.market != a.market_key {
        return Err(FlashBookError::WrongMarket);
    }
    if requested > a.position.size_lots {
        return Err(FlashBookError::OutOfRange);
    }
    let cooldown: u64 = a.market.params.liquidation_cooldown_slots as u64;
    if cooldown > 0 && a.position.last_liquidated_at_slot > 0 {
        if slot.saturating_sub(a.position.last_liquidated_at_slot) < cooldown {
            return Err(FlashBookError::RateLimited);
        }
    }
    let max_age: u64 = a.market.params.oracle_staleness_max_seconds as u64;
    if max_age > 0 && a.market.oracle_published_at_unix_seconds > 0 {
        if now.saturating_sub(a.market.oracle_published_at_unix_seconds) > max_age {
            return Err(FlashBookError::OracleTooStale);
        }
    }
    match assessment {
        Ok(m) => {
            if m.is_healthy {
                return Err(FlashBookError::NotLiquidatable);
            }
            Ok(m)
        },
        Err(e) => Err(e),
    }
}

/// Why a liquidation is refused, if it is.
pub open spec fn liquidation_refusal(
    a: LiquidatePositionV2,
    b: BookModel,
    requested: u64,
    assessment: Assessment,
    reserved: u64,
    slot: u64,
    now: u64,
) -> Option<FlashBookError> {
    match liquidation_gate(a, requested, assessment, slot, now) {
        Some(e) => Some(e),
        None => match reward_moved(a, reward_paid(a, requested, slot)) {
            Err(e) => Some(e),
            Ok(_) => next_order_refusal(b, reserved),
        },
    }
}

/// The order by which a position is closed.
pub open spec fn liquidation_order(
    p: PositionAccount,
    sub_index: u8,
    seq: u64,
    order_id: u64,
    limit: u64,
    size: u64,
    slot: u64,
) -> RestingOrderV2 {
    RestingOrderV2 {
        order_id,
        seq,
        price_ticks: limit,
        size_lots: size,
        expires_at_slot: 0,
        trader: p.trader,
        last_valid_slot: sat_u32(slot as int) as u32,
        side: byte_of_side(opposite_side(side_of_byte(p.side))),
        order_type: 3,
        flags: 0,
        sub_index,
    }
}

/// How far the chosen price beats the limit without an offer, in basis points of
/// the oracle price.
pub open spec fn savings_bps(q: JitQuery, price: u64, oracle: u64) -> u32 {
    let diff = match q.pos_side {
        Side::Long => price - q.synthetic_limit,
        Side::Short => q.synthetic_limit - price,
    };
    if oracle == 0 || diff < 0 {
        0
    } else {
        sat_u32(diff * BPS_DENOM / (oracle as int)) as u32
    }
}

/// Computes how far the chosen price beats the limit without an offer.
pub fn compute_savings_bps(q: &JitQuery, price: u64, oracle: u64) -> (r: u32)
    ensures
        r == savings_bps(*q, price, oracle),
{
    if oracle == 0 {
        return 0;
    }
    let diff: u64 = match q.pos_side {
        Side::Long => price.saturating_sub(q.synthetic_limit),
        Side::Short => q.synthetic_limit.saturating_sub(price),
    };
    proof {
        assert(0int / (oracle as int) == 0) by (nonlinear_arith)
            requires
                oracle > 0,
        ;
        assert(diff * BPS_DENOM <= u64::MAX * 10_000) by (nonlinear_arith)
            requires
                diff <= u64::MAX,
                BPS_DENOM == 10_000,
        ;
    }
    clamp_u128_to_u32((diff as u128) * (BPS_DENOM as u128) / (oracle as u128))
}

/// What a liquidation reports.
#[derive(Clone, Copy, Debug, PartialEq, Eq, Structural)]
pub struct LiquidationReport {
    pub source: HealthGateSourceEvent,
    pub injected: LiquidationInjectedV2Event,
    pub rewarded: Option<LiquidatorRewardedEvent>,
    pub jit: Option<JitLiquidationFilledEvent>,
}

/// The report on an accepted liquidation.
pub open spec fn liquidation_report(
    a: LiquidatePositionV2,
    offers: Seq<JitLiquidationOfferAccount>,
    requested: u64,
    assessment: MarginAssessment,
    seq: u64,
    slot: u64,
) -> LiquidationReport {
    let q = jit_query(a, slot);
    let size = close_size(a.position, requested);
    let paid = reward_paid(a, requested, slot);
    let hp = health_price(q.pos_side, a.market.mark_price_ticks, a.market.oracle_price_ticks);
    LiquidationReport {
        source: HealthGateSourceEvent {
            market: a.market_key,
            trader: a.trader_state.trader,
            mark_ticks: a.market.mark_price_ticks,
            oracle_ticks: a.market.oracle_price_ticks,
            health_price_ticks: hp.0,
            source: hp.1,
        },
        injected: LiquidationInjectedV2Event {
            market: a.market_key,
            trader: a.position.trader,
            side: byte_of_side(q.pos_side),
            size_lots: size,
            limit_ticks: close_limit(q, offers),
            worst_scenario_idx: assessment.worst_scenario_idx,
            order_seq: seq,
        },
        rewarded: if paid > 0 {
            Some(
                LiquidatorRewardedEvent {
                    market: a.market_key,
                    liquidator: a.caller,
                    liquidatee: a.position.trader,
                    reward_quote_lots: paid,
                },
            )
        } else {
            None
        },
        jit: match best_offer(q, offers, offers.len() as int) {
            None => None,
            Some(i) => Some(
                JitLiquidationFilledEvent {
                    market: a.market_key,
                    trader: a.position.trader,
                    jit_maker: offers[i].maker,
                    fill_size_lots: min_int(
                        size as int,
                        offers[i].remaining_size_lots as int,
                    ) as u64,
                    fill_price_ticks: offers[i].offer_price_ticks,
                    synthetic_price_ticks: q.synthetic_limit,
                    savings_vs_synthetic_bps: savings_bps(
                        q,
                        offers[i].offer_price_ticks,
                        a.market.oracle_price_ticks,
                    ),
                },
            ),
        },
    }
}

/// The offers after the chosen one has served as many lots as it can.
pub open spec fn offers_after(
    q: JitQuery,
    offers: Seq<JitLiquidationOfferAccount>,
    size: u64,
) -> Seq<JitLiquidationOfferAccount> {
    match best_offer(q, offers, offers.len() as int) {
        None => offers,
        Some(i) => offers.update(
            i,
            JitLiquidationOfferAccount {
                remaining_size_lots: (offers[i].remaining_size_lots - min_int(
                    size as int,
                    offers[i].remaining_size_lots as int,
                )) as u64,
                ..offers[i]
            },
        ),
    }
}

/// The accounts after an accepted liquidation.
pub open spec fn liquidated(a: LiquidatePositionV2, requested: u64, slot: u64) -> LiquidatePositionV2 {
    let b = reward_moved(a, reward_paid(a, requested, slot))->Ok_0;
    LiquidatePositionV2 {
        position: PositionAccount {
            unhealthy_since_slot: if a.position.unhealthy_since_slot == 0 {
                slot
            } else {
                a.position.unhealthy_since_slot
            },
            last_liquidated_at_slot: slot,
            ..b.position
        },
        ..b
    }
}

/// Liquidates a position, in whole or in part: an order that closes it goes into
/// the book, at the best offer's price if one beats the penalty price, and the
/// caller is rewarded out of the bucket that backs the position.
///
/// `assessment` is the margin engine's answer on [`liquidation_question`], against
/// the trader's pool. `order_id` is the id that belongs to the limit, the side and
/// the next sequence number. On refusal nothing changes.
pub fn liquidate_position_v2(
    ctx: &mut LiquidatePositionV2,
    book: &mut MarketBook,
    offers: &mut Vec<JitLiquidationOfferAccount>,
    requested_close_lots: u64,
    assessment: Assessment,
    order_id: u64,
    limits: &Limits,
    current_slot: u64,
    unix_now: i64,
) -> (r: Result<LiquidationReport, FlashBookError>)
    requires
        old(book)@.wf(),
    ensures
        final(book)@.wf(),
        match liquidation_refusal(
            *old(ctx),
            old(book)@,
            requested_close_lots,
            assessment,
            limits.flp_seq_reserved_offset,
            current_slot,
            max_int(unix_now as int, 0) as u64,
        ) {
            Some(e) => r == Err::<LiquidationReport, FlashBookError>(e) && *final(ctx) == *old(ctx)
                && *final(book) == *old(book) && final(offers)@ == old(offers)@,
            None => {
                let seq = (old(book)@.order_seq_counter + 1) as u64;
                let q = jit_query(*old(ctx), current_slot);
                let size = close_size(old(ctx).position, requested_close_lots);
                &&& *final(ctx) == liquidated(*old(ctx), requested_close_lots, current_slot)
                &&& final(offers)@ == offers_after(q, old(offers)@, size)
                &&& final(book)@ == book_after_rest(
                    old(book)@,
                    liquidation_order(
                        old(ctx).position,
                        old(ctx).trader_state.sub_index,
                        seq,
                        order_id,
                        close_limit(q, old(offers)@),
                        size,
                        current_slot,
                    ),
                )
                &&& r == Ok::<LiquidationReport, FlashBookError>(
                    liquidation_report(
                        *old(ctx),
                        old(offers)@,
                        requested_close_lots,
                        assessment->Ok_0,
                        seq,
                        current_slot,
                    ),
                )
            },
        },
{
    let a = *ctx;
    let now: u64 = unix_seconds(unix_now);
    let answer = match check_liquidation(&a, requested_close_lots, assessment, current_slot, now) {
        Ok(m) => m,
        Err(e) => {
            return Err(e);
        },
    };
    let size: u64 = if requested_close_lots == 0 {
        a.position.size_lots
    } else {
        requested_close_lots
    };
    let pos_side = Side::from_byte(a.position.side);
    let (health_price_ticks, source): (u64, u8) = pick_health_price(
        pos_side,
        a.market.mark_price_ticks,
        a.market.oracle_price_ticks,
    );
    let q = JitQuery {
        market: a.market_key,
        trader: a.trader_state.trader,
        pos_side,
        slot: current_slot,
        synthetic_limit: compute_liquidation_limit(&a.market, pos_side),
    };
    let chosen: Option<usize> = choose_offer(&q, offers);
    let limit: u64 = match chosen {
        Some(i) => offers[i].offer_price_ticks,
        None => q.synthetic_limit,
    };
    let due: u64 = compute_liquidation_reward(
        &a.market,
        a.position.unhealthy_since_slot,
        size,
        current_slot,
    );
    let bucket: u64 = if a.position.collateral_quote_lots > 0 {
        a.position.collateral_quote_lots
    } else {
        a.trader_state.collateral_quote_lots
    };
    let paid: u64 = min_u64(due, bucket);
    let mut moved = match move_reward(a, paid) {
        Ok(b) => b,
        Err(e) => {
            return Err(e);
        },
    };
    let order = RestingOrderV2 {
        order_id,
        seq: 0,
        price_ticks: limit,
        size_lots: size,
        expires_at_slot: 0,
        trader: a.position.trader,
        last_valid_slot: clamp_u64_to_u32(current_slot),
        side: pos_side.opposite().to_byte(),
        order_type: 3,
        flags: 0,
        sub_index: a.trader_state.sub_index,
    };
    let seq: u64 = match book.rest_next(order, limits.flp_seq_reserved_offset) {
        Ok(n) => n,
        Err(e) => {
            return Err(e);
        },
    };
    let mut jit: Option<JitLiquidationFilledEvent> = None;
    match chosen {
        Some(i) => {
            let o = offers[i];
            let fill: u64 = min_u64(size, o.remaining_size_lots);
            offers.set(
                i,
                JitLiquidationOfferAccount {
                    remaining_size_lots: o.remaining_size_lots - fill,
                    ..o
                },
            );
            jit = Some(
                JitLiquidationFilledEvent {
                    market: a.market_key,
                    trader: a.position.trader,
                    jit_maker: o.maker,
                    fill_size_lots: fill,
                    fill_price_ticks: o.offer_price_ticks,
                    synthetic_price_ticks: q.synthetic_limit,
                    savings_vs_synthetic_bps: compute_savings_bps(
                        &q,
                        o.offer_price_ticks,
                        a.market.oracle_price_ticks,
                    ),
                },
            );
        },
        None => {},
    }
    if moved.position.unhealthy_since_slot == 0 {
        moved.position.unhealthy_since_slot = current_slot;
    }
    moved.position.last_liquidated_at_slot = current_slot;
    *ctx = moved;
    let rewarded: Option<LiquidatorRewardedEvent> = if paid > 0 {
        Some(
            LiquidatorRewardedEvent {
                market: a.market_key,
                liquidator: a.caller,
                liquidatee: a.position.trader,
                reward_quote_lots: paid,
            },
        )
    } else {
        None
    };
    Ok(
        LiquidationReport {
            source: HealthGateSourceEvent {
                market: a.market_key,
                trader: a.trader_state.trader,
                mark_ticks: a.market.mark_price_ticks,
                oracle_ticks: a.market.oracle_price_ticks,
                health_price_ticks,
                source,
            },
            injected: LiquidationInjectedV2Event {
                market: a.market_key,
                trader: a.position.trader,
                side: pos_side.to_byte(),
                size_lots: size,
                limit_ticks: limit,
                worst_scenario_idx: answer.worst_scenario_idx,
                order_seq: seq,
            },
            rewarded,
            jit,
        },
    )
}

/// A healthy position, and one that was liquidated less than the cooldown ago,
/// cannot be liquidated.
pub proof fn law_healthy_or_cooling_positions_are_safe(
    a: LiquidatePositionV2,
    requested: u64,
    assessment: Assessment,
    slot: u64,
    now: u64,
)
    requires
        ({
            ||| assessment matches Ok(m) && m.is_healthy
            ||| 0 < a.position.last_liquidated_at_slot <= slot && slot
                - a.position.last_liquidated_at_slot < a.market.params.liquidation_cooldown_slots
        }),
    ensures
        liquidation_gate(a, requested, assessment, slot, now) is Some,
{
}

/// After a liquidation the position cools down: within the market's cooldown a
/// second one is refused.
pub proof fn law_liquidation_starts_cooldown(
    a: LiquidatePositionV2,
    requested: u64,
    slot: u64,
    again: u64,
    assessment: Assessment,
    later: u64,
    now: u64,
)
    requires
        0 < slot <= later,
        reward_moved(a, reward_paid(a, requested, slot)) is Ok,
        later < slot + a.market.params.liquidation_cooldown_slots,
    ensures
        liquidation_gate(liquidated(a, requested, slot), again, assessment, later, now) is Some,
{
}

} // verus!
