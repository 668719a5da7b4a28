//! Settlement of a fill in which the liquidity pool is the maker.
use vstd::prelude::*;

use crate::constants::{BPS_DENOM, EMPTY_SIDE};
use crate::errors::FlashBookError;
use crate::events::{FlpFillAppliedEvent, ToxicityTaxAppliedEvent, TraderTierUpgradedEvent};
use crate::fees::{
    compute_insurance_contribution, compute_toxicity_tax, insurance_contribution,
    law_tax_split_conserves, sat_bps_of, saturating_bps_of, split_tax, tax_split, toxicity_tax,
};
use crate::fill_laws::{
    gain_booked, law_fill_adds_signed_size, lemma_oi_follows_position, lemma_result_bounds_money,
    lemma_share_within, party_money, signed_fill, signed_size,
};
use crate::flp::{
    FlpModel, apply_fill_to_flp_market, flp_filled, flp_market_pre_state, flp_position, free_from,
    live_slots, slot_from, slots_differ,
};
use crate::keys::Pubkey;
use crate::math::{clamp_u128_to_u64, max_int, sat_u64};
use crate::pda::verify_trader_state_pda;
use crate::position::{oi_after, update_oi};
use crate::settlement::{
    Fill, FillParty, Release, apply_realized_pnl_delta_v2, check_haircut_bound, checked_notional,
    count_open_positions, count_volume, credit_fund, debit_party, fill_party, fund_credited,
    haircut_bound, is_isolated, notional_of, oi_moved, party_counted, party_debited, party_filled,
    party_refusal, pnl_settled, position_ready, realized_by, volume_counted,
};
use crate::state::{
    FeeTier, FlpExposureAccount, FlpMarketExposure, InsuranceFundAccount, MarketAccount,
    MarketHaircutStateAccount, Side, TraderStateAccount, opposite_side, side_of_byte,
};
use crate::tiers::{fee_rates, resolve_fee_tier};

verus! {

/// The accounts, besides the pool's own, that a fill against the pool moves.
#[derive(Clone, Copy, Debug, PartialEq, Eq, Structural)]
pub struct ApplyFlpFill {
    pub sequencer: Pubkey,
    pub market_key: Pubkey,
    pub market: MarketAccount,
    pub insurance_fund: InsuranceFundAccount,
    pub taker: FillParty,
    pub flp_key: Pubkey,
    pub market_haircut: Option<MarketHaircutStateAccount>,
}

/// Everything that settling a fill against the pool reports.
#[derive(Clone, Copy, Debug, PartialEq, Eq, Structural)]
pub struct FlpFillReport {
    pub tax: Option<ToxicityTaxAppliedEvent>,
    pub fill: FlpFillAppliedEvent,
    pub taker_tier: Option<TraderTierUpgradedEvent>,
}

/// What a fill against the pool costs: the taker's fee at the rate its volume
/// earns, and the pool's rebate, which a negative maker rate does not turn into
/// a fee.
pub open spec fn flp_fees(a: ApplyFlpFill, tiers: Seq<FeeTier>, notional: u128) -> (int, int) {
    let p = a.market.params;
    let taker_bps = fee_rates(
        p.maker_rebate_bps,
        p.taker_fee_bps,
        tiers,
        a.taker.state.volume_30d_quote_lots,
    ).1;
    (
        sat_bps_of(notional as int, taker_bps as int),
        sat_bps_of(notional as int, max_int(p.maker_rebate_bps as int, 0)),
    )
}

/// The pool with `amount` more capital.
pub open spec fn flp_credited(f: FlpModel, amount: u64) -> Result<FlpModel, FlashBookError> {
    if f.total_capital_quote_lots + amount > u64::MAX {
        Err(FlashBookError::ArithmeticOverflow)
    } else {
        Ok(
            FlpModel {
                total_capital_quote_lots: (f.total_capital_quote_lots + amount) as u64,
                ..f
            },
        )
    }
}

/// The accounts and the pool's capital after the fees have moved.
pub open spec fn flp_fees_charged(
    a: ApplyFlpFill,
    f: FlpModel,
    fee: u64,
    rebate: u64,
) -> Result<(ApplyFlpFill, FlpModel), FlashBookError> {
    let net = sat_u64(fee - rebate) as u64;
    match party_debited(a.taker, false, fee) {
        Err(e) => Err(e),
        Ok(taker) => match flp_credited(f, rebate) {
            Err(e) => Err(e),
            Ok(g) => match fund_credited(
                a.insurance_fund,
                insurance_contribution(net, a.insurance_fund.fee_contribution_bps, 0),
            ) {
                Err(e) => Err(e),
                Ok(insurance_fund) => if a.market.total_fees_collected + net > u64::MAX {
                    Err(FlashBookError::ArithmeticOverflow)
                } else {
                    Ok(
                        (
                            ApplyFlpFill {
                                market: MarketAccount {
                                    total_fees_collected: (a.market.total_fees_collected
                                        + net) as u64,
                                    ..a.market
                                },
                                insurance_fund,
                                taker,
                                ..a
                            },
                            g,
                        ),
                    )
                },
            },
        },
    }
}

/// The accounts and the pool's capital after the toxicity tax, of which the pool
/// gets the maker's part.
pub open spec fn flp_tax_charged(a: ApplyFlpFill, f: FlpModel, notional: u128) -> Result<
    (ApplyFlpFill, FlpModel, Option<ToxicityTaxAppliedEvent>),
    FlashBookError,
> {
    let tax = toxicity_tax(
        notional as int,
        a.market.params.toxicity_tax_max_bps as int,
        a.market.vpin_bps as int,
        a.taker.state.collateral_quote_lots,
    );
    let (to_insurance, to_flp) = tax_split(tax, a.insurance_fund.toxicity_tax_contribution_bps);
    if tax == 0 {
        Ok((a, f, None))
    } else {
        match fund_credited(a.insurance_fund, to_insurance) {
            Err(e) => Err(e),
            Ok(insurance_fund) => match flp_credited(f, to_flp) {
                Err(e) => Err(e),
                Ok(g) => if a.market.total_toxicity_tax_collected + tax > u64::MAX {
                    Err(FlashBookError::ArithmeticOverflow)
                } else {
                    Ok(
                        (
                            ApplyFlpFill {
                                market: MarketAccount {
                                    total_toxicity_tax_collected: (
                                    a.market.total_toxicity_tax_collected + tax) as u64,
                                    ..a.market
                                },
                                insurance_fund,
                                taker: FillParty {
                                    state: TraderStateAccount {
                                        collateral_quote_lots: (a.taker.state.collateral_quote_lots
                                            - tax) as u64,
                                        ..a.taker.state
                                    },
                                    ..a.taker
                                },
                                ..a
                            },
                            g,
                            Some(
                                ToxicityTaxAppliedEvent {
                                    market: a.market_key,
                                    taker: a.taker.state.trader,
                                    maker: a.flp_key,
                                    vpin_bps: a.market.vpin_bps,
                                    tax_quote_lots: tax,
                                    insurance_share: to_insurance,
                                    maker_share: to_flp,
                                },
                            ),
                        ),
                    )
                },
            },
        }
    }
}

/// The accounts and the pool after both positions have moved.
pub open spec fn flp_positions_moved(a: ApplyFlpFill, f: FlpModel, q: Fill, release: Release) -> Result<
    (ApplyFlpFill, FlpModel),
    FlashBookError,
> {
    let side = side_of_byte(q.taker_side);
    match party_filled(a.taker, a.market, a.market_key, side, q) {
        Err(e) => Err(e),
        Ok(t1) => match pnl_settled(
            t1,
            realized_by(a.taker, t1),
            is_isolated(a.taker.position),
            release,
        ) {
            Err(e) => Err(e),
            Ok(t2) => match oi_moved(a.market, a.taker.position, t2.position) {
                Err(e) => Err(e),
                Ok(m1) => match flp_filled(
                    f,
                    a.market_key,
                    opposite_side(side),
                    q.size_lots,
                    q.price_ticks,
                ) {
                    Err(e) => Err(e),
                    Ok(g) => {
                        let pre = flp_position(f.per_market, a.market_key);
                        let post = flp_position(g.per_market, a.market_key);
                        match oi_after(
                            m1.oi_long_lots,
                            m1.oi_short_lots,
                            pre.0,
                            pre.1,
                            post.0,
                            post.1,
                        ) {
                            Err(e) => Err(e),
                            Ok((l, s)) => Ok(
                                (
                                    ApplyFlpFill {
                                        market: MarketAccount {
                                            oi_long_lots: l,
                                            oi_short_lots: s,
                                            ..m1
                                        },
                                        taker: party_counted(a.taker, t2),
                                        ..a
                                    },
                                    g,
                                ),
                            ),
                        }
                    },
                },
            },
        },
    }
}

/// The accounts, the pool and the report after a fill against the pool has been
/// settled, or why it is not.
pub open spec fn flp_fill_settled(
    a: ApplyFlpFill,
    f: FlpModel,
    q: Fill,
    tiers: Seq<FeeTier>,
    now_slot: u64,
    window: u64,
    release: Release,
) -> Result<(ApplyFlpFill, FlpModel, FlpFillReport), FlashBookError> {
    match notional_of(q.size_lots as int, q.price_ticks as int, a.market.params.tick_size as int) {
        Err(e) => Err(e),
        Ok(notional) => {
            let (fee, rebate) = flp_fees(a, tiers, notional);
            if rebate > fee {
                Err(FlashBookError::OutOfRange)
            } else {
                match flp_fees_charged(a, f, sat_u64(fee) as u64, sat_u64(rebate) as u64) {
                    Err(e) => Err(e),
                    Ok((b, g)) => match flp_tax_charged(b, g, notional) {
                        Err(e) => Err(e),
                        Ok((c, h, tax)) => match flp_positions_moved(c, h, q, release) {
                            Err(e) => Err(e),
                            Ok((d, k)) => {
                                let post = flp_position(k.per_market, a.market_key);
                                let (state, taker_tier) = volume_counted(
                                    d.taker.state,
                                    d.market.params.taker_fee_bps,
                                    tiers,
                                    notional,
                                    now_slot,
                                    window,
                                );
                                Ok(
                                    (
                                        ApplyFlpFill {
                                            taker: FillParty { state, ..d.taker },
                                            ..d
                                        },
                                        k,
                                        FlpFillReport {
                                            tax,
                                            fill: FlpFillAppliedEvent {
                                                market: a.market_key,
                                                taker: a.taker.state.trader,
                                                taker_side: q.taker_side,
                                                size_lots: q.size_lots,
                                                price_ticks: q.price_ticks,
                                                batch_num: a.market.current_batch,
                                                flp_size_after: post.1,
                                                flp_side_after: post.0,
                                            },
                                            taker_tier,
                                        },
                                    ),
                                )
                            },
                        },
                    },
                }
            }
        },
    }
}

/// Moves the fees of a fill against the pool. The pool's new capital comes back
/// with the accounts.
pub fn charge_flp_fees(a: ApplyFlpFill, capital: u64, fee: u64, rebate: u64) -> (r: Result<
    (ApplyFlpFill, u64),
    FlashBookError,
>)
    ensures
        forall|f: FlpModel|
            f.total_capital_quote_lots == capital ==> (match #[trigger] flp_fees_charged(
                a,
                f,
                fee,
                rebate,
            ) {
                Err(e) => r == Err::<(ApplyFlpFill, u64), FlashBookError>(e),
                Ok((b, g)) => r is Ok && r->Ok_0.0 == b && g == (FlpModel {
                    total_capital_quote_lots: r->Ok_0.1,
                    ..f
                }),
            }),
{
    let net: u64 = fee.saturating_sub(rebate);
    let mut b = a;
    b.taker = match debit_party(a.taker, false, fee) {
        Ok(p) => p,
        Err(e) => {
            return Err(e);
        },
    };
    let new_capital: u64 = match capital.checked_add(rebate) {
        Some(n) => n,
        None => {
            return Err(FlashBookError::ArithmeticOverflow);
        },
    };
    let contribution: u64 = compute_insurance_contribution(
        net,
        a.insurance_fund.fee_contribution_bps,
        0,
    );
    b.insurance_fund = match credit_fund(a.insurance_fund, contribution) {
        Ok(x) => x,
        Err(e) => {
            return Err(e);
        },
    };
    match b.market.total_fees_collected.checked_add(net) {
        Some(n) => {
            b.market.total_fees_collected = n;
        },
        None => {
            return Err(FlashBookError::ArithmeticOverflow);
        },
    }
    Ok((b, new_capital))
}

/// Moves the toxicity tax of a fill against the pool.
pub fn charge_flp_tax(a: ApplyFlpFill, capital: u64, notional: u128) -> (r: Result<
    (ApplyFlpFill, u64, Option<ToxicityTaxAppliedEvent>),
    FlashBookError,
>)
    ensures
        forall|f: FlpModel|
            f.total_capital_quote_lots == capital ==> (match #[trigger] flp_tax_charged(
                a,
                f,
                notional,
            ) {
                Err(e) => r == Err::<
                    (ApplyFlpFill, u64, Option<ToxicityTaxAppliedEvent>),
                    FlashBookError,
                >(e),
                Ok((b, g, tax)) => r is Ok && r->Ok_0.0 == b && r->Ok_0.2 == tax && g == (
                FlpModel { total_capital_quote_lots: r->Ok_0.1, ..f }),
            }),
{
    let tax: u64 = compute_toxicity_tax(
        notional,
        a.market.params.toxicity_tax_max_bps,
        a.market.vpin_bps,
        a.taker.state.collateral_quote_lots,
    );
    if tax == 0 {
        assert forall|f: FlpModel| f.total_capital_quote_lots == capital implies f == (FlpModel {
            total_capital_quote_lots: capital,
            ..f
        }) by {}
        return Ok((a, capital, None));
    }
    let (to_insurance, to_flp) = split_tax(tax, a.insurance_fund.toxicity_tax_contribution_bps);
    let mut b = a;
    b.taker.state.collateral_quote_lots = b.taker.state.collateral_quote_lots - tax;
    b.insurance_fund = match credit_fund(a.insurance_fund, to_insurance) {
        Ok(x) => x,
        Err(e) => {
            return Err(e);
        },
    };
    let new_capital: u64 = match capital.checked_add(to_flp) {
        Some(n) => n,
        None => {
            return Err(FlashBookError::ArithmeticOverflow);
        },
    };
    match b.market.total_toxicity_tax_collected.checked_add(tax) {
        Some(n) => {
            b.market.total_toxicity_tax_collected = n;
        },
        None => {
            return Err(FlashBookError::ArithmeticOverflow);
        },
    }
    Ok(
        (
            b,
            new_capital,
            Some(
                ToxicityTaxAppliedEvent {
                    market: a.market_key,
                    taker: a.taker.state.trader,
                    maker: a.flp_key,
                    vpin_bps: a.market.vpin_bps,
                    tax_quote_lots: tax,
                    insurance_share: to_insurance,
                    maker_share: to_flp,
                },
            ),
        ),
    )
}

/// The taker's part of moving the positions, before the pool's.
pub fn move_taker_position(a: ApplyFlpFill, q: Fill, release: Release) -> (r: Result<
    ApplyFlpFill,
    FlashBookError,
>)
    ensures
        r == (match party_filled(
            a.taker,
            a.market,
            a.market_key,
            side_of_byte(q.taker_side),
            q,
        ) {
            Err(e) => Err::<ApplyFlpFill, FlashBookError>(e),
            Ok(t1) => match pnl_settled(
                t1,
                realized_by(a.taker, t1),
                is_isolated(a.taker.position),
                release,
            ) {
                Err(e) => Err(e),
                Ok(t2) => match oi_moved(a.market, a.taker.position, t2.position) {
                    Err(e) => Err(e),
                    Ok(market) => Ok(
                        ApplyFlpFill { market, taker: party_counted(a.taker, t2), ..a },
                    ),
                },
            },
        }),
{
    let side = Side::from_byte(q.taker_side);
    let t1 = match fill_party(a.taker, &a.market, a.market_key, side, q) {
        Ok(p) => p,
        Err(e) => {
            return Err(e);
        },
    };
    let delta: i128 = t1.position.realized_pnl_quote_lots as i128
        - a.taker.position.realized_pnl_quote_lots as i128;
    let mut t2 = match apply_realized_pnl_delta_v2(
        t1,
        delta,
        a.taker.position.collateral_quote_lots > 0,
        release,
    ) {
        Ok(p) => p,
        Err(e) => {
            return Err(e);
        },
    };
    let mut market = a.market;
    match update_oi(
        &mut market,
        a.taker.position.side,
        a.taker.position.size_lots,
        t2.position.side,
        t2.position.size_lots,
    ) {
        Ok(_) => {},
        Err(e) => {
            return Err(e);
        },
    }
    t2.state.open_positions = count_open_positions(
        t2.state.open_positions,
        a.taker.position.size_lots,
        t2.position.size_lots,
    );
    let mut b = a;
    b.market = market;
    b.taker = t2;
    Ok(b)
}

/// A copy of the pool account with other capital.
pub fn copy_flp(flp: &FlpExposureAccount, capital: u64) -> (r: FlpExposureAccount)
    ensures
        r@ == (FlpModel { total_capital_quote_lots: capital, ..flp@ }),
{
    let mut per_market: Vec<FlpMarketExposure> = Vec::new();
    let mut i: usize = 0;
    while i < flp.per_market.len()
        invariant
            i <= flp.per_market@.len(),
            per_market@ == flp.per_market@.take(i as int),
        decreases flp.per_market@.len() - i,
    {
        per_market.push(flp.per_market[i]);
        i = i + 1;
        assert(per_market@ =~= flp.per_market@.take(i as int));
    }
    assert(flp.per_market@.take(i as int) =~= flp.per_market@);
    FlpExposureAccount {
        authority: flp.authority,
        bump: flp.bump,
        total_capital_quote_lots: capital,
        realized_pnl: flp.realized_pnl,
        markets_count: flp.markets_count,
        lp_shares_outstanding: flp.lp_shares_outstanding,
        per_market,
    }
}

/// Settles a fill against the pool. `release` is what the haircut arithmetic
/// answers for the taker's gain. On refusal nothing changes.
pub fn settle_flp_fill(
    ctx: &mut ApplyFlpFill,
    flp: &mut FlpExposureAccount,
    q: Fill,
    tiers: &Vec<FeeTier>,
    now_slot: u64,
    window_slots: u64,
    release: Release,
) -> (r: Result<FlpFillReport, FlashBookError>)
    requires
        tiers@.len() <= 256,
    ensures
        match flp_fill_settled(
            *old(ctx),
            old(flp)@,
            q,
            tiers@,
            now_slot,
            window_slots,
            release,
        ) {
            Err(e) => r == Err::<FlpFillReport, FlashBookError>(e) && *final(ctx) == *old(ctx)
                && final(flp)@ == old(flp)@,
            Ok((after, pool, report)) => r == Ok::<FlpFillReport, FlashBookError>(report)
                && *final(ctx) == after && final(flp)@ == pool,
        },
{
    let a = *ctx;
    let notional: u128 = match checked_notional(
        q.size_lots,
        q.price_ticks,
        a.market.params.tick_size,
    ) {
        Ok(n) => n,
        Err(e) => {
            return Err(e);
        },
    };
    let (_, taker_bps) = resolve_fee_tier(
        a.market.params.maker_rebate_bps,
        a.market.params.taker_fee_bps,
        tiers,
        a.taker.state.volume_30d_quote_lots,
    );
    let maker_bps: u128 = if a.market.params.maker_rebate_bps > 0 {
        a.market.params.maker_rebate_bps as u128
    } else {
        0
    };
    let fee_wide: u128 = saturating_bps_of(notional, taker_bps as u128);
    let rebate_wide: u128 = saturating_bps_of(notional, maker_bps);
    if rebate_wide > fee_wide {
        return Err(FlashBookError::OutOfRange);
    }
    let fee: u64 = clamp_u128_to_u64(fee_wide);
    let rebate: u64 = clamp_u128_to_u64(rebate_wide);
    let ghost f0 = flp@;
    let (b, capital1) = match charge_flp_fees(a, flp.total_capital_quote_lots, fee, rebate) {
        Ok(x) => x,
        Err(e) => {
            assert(flp_fees_charged(a, f0, fee, rebate) is Err);
            return Err(e);
        },
    };
    let ghost f1 = FlpModel { total_capital_quote_lots: capital1, ..f0 };
    assert(flp_fees_charged(a, f0, fee, rebate) == Ok::<(ApplyFlpFill, FlpModel), FlashBookError>(
        (b, f1),
    ));
    let (c, capital2, tax) = match charge_flp_tax(b, capital1, notional) {
        Ok(x) => x,
        Err(e) => {
            assert(flp_tax_charged(b, f1, notional) is Err);
            return Err(e);
        },
    };
    let ghost f2 = FlpModel { total_capital_quote_lots: capital2, ..f1 };
    assert(flp_tax_charged(b, f1, notional) == Ok::<
        (ApplyFlpFill, FlpModel, Option<ToxicityTaxAppliedEvent>),
        FlashBookError,
    >((c, f2, tax)));
    let mut d = match move_taker_position(c, q, release) {
        Ok(x) => x,
        Err(e) => {
            return Err(e);
        },
    };
    let mut pool = copy_flp(flp, capital2);
    assert(pool@ == f2);
    let pre = flp_market_pre_state(&pool, a.market_key);
    let flp_side = Side::from_byte(q.taker_side).opposite();
    match apply_fill_to_flp_market(&mut pool, a.market_key, flp_side, q.size_lots, q.price_ticks) {
        Ok(_) => {},
        Err(e) => {
            return Err(e);
        },
    }
    let post = flp_market_pre_state(&pool, a.market_key);
    match update_oi(&mut d.market, pre.0, pre.1, post.0, post.1) {
        Ok(_) => {},
        Err(e) => {
            return Err(e);
        },
    }
    assert(flp_positions_moved(c, f2, q, release) == Ok::<(ApplyFlpFill, FlpModel), FlashBookError>(
        (d, pool@),
    ));
    let (state, taker_tier) = count_volume(
        d.taker.state,
        d.market.params.taker_fee_bps,
        tiers,
        notional,
        now_slot,
        window_slots,
    );
    d.taker.state = state;
    *ctx = d;
    *flp = pool;
    Ok(
        FlpFillReport {
            tax,
            fill: FlpFillAppliedEvent {
                market: a.market_key,
                taker: a.taker.state.trader,
                taker_side: q.taker_side,
                size_lots: q.size_lots,
                price_ticks: q.price_ticks,
                batch_num: a.market.current_batch,
                flp_size_after: post.1,
                flp_side_after: post.0,
            },
            taker_tier,
        },
    )
}

/// Why a fill against the pool is not looked at, if it is not.
pub open spec fn flp_fill_intake_refusal(a: ApplyFlpFill, q: Fill) -> Option<FlashBookError> {
    if (a.market_haircut matches Some(h) && h.market != a.market_key) || !haircut_bound(
        a.market_key,
        a.taker.position_key,
        a.taker.haircut,
    ) {
        Some(FlashBookError::HaircutStateMismatch)
    } else if q.size_lots == 0 {
        Some(FlashBookError::ZeroSize)
    } else if q.price_ticks == 0 {
        Some(FlashBookError::ZeroPrice)
    } else if q.taker_side > 1 {
        Some(FlashBookError::OutOfRange)
    } else if a.sequencer != a.market.sequencer {
        Some(FlashBookError::Unauthorized)
    } else {
        None
    }
}

/// Tests whether a fill against the pool may be looked at.
pub fn check_flp_fill_intake(a: &ApplyFlpFill, q: Fill) -> (r: Result<(), FlashBookError>)
    ensures
        r == (match flp_fill_intake_refusal(*a, q) {
            Some(e) => Err::<(), FlashBookError>(e),
            None => Ok(()),
        }),
{
    if let Some(h) = a.market_haircut {
        if h.market != a.market_key {
            return Err(FlashBookError::HaircutStateMismatch);
        }
    }
    if !check_haircut_bound(a.market_key, a.taker.position_key, &a.taker.haircut) {
        return Err(FlashBookError::HaircutStateMismatch);
    }
    if q.size_lots == 0 {
        return Err(FlashBookError::ZeroSize);
    }
    if q.price_ticks == 0 {
        return Err(FlashBookError::ZeroPrice);
    }
    if q.taker_side > 1 {
        return Err(FlashBookError::OutOfRange);
    }
    if a.sequencer != a.market.sequencer {
        return Err(FlashBookError::Unauthorized);
    }
    Ok(())
}

/// Settles a fill against the pool that the market's sequencer reports. The
/// taker is bound to the sub-account that the order named by deriving its address
/// again. On refusal nothing changes.
pub fn apply_flp_fill(
    ctx: &mut ApplyFlpFill,
    flp: &mut FlpExposureAccount,
    q: Fill,
    taker_sub_index: u8,
    state_seed: &Vec<u8>,
    program_id: Pubkey,
    tiers: &Vec<FeeTier>,
    now_slot: u64,
    window_slots: u64,
    release: Release,
) -> (r: Result<FlpFillReport, FlashBookError>)
    requires
        tiers@.len() <= 256,
    ensures
        match flp_fill_intake_refusal(*old(ctx), q) {
            Some(e) => r == Err::<FlpFillReport, FlashBookError>(e) && *final(ctx) == *old(ctx)
                && final(flp)@ == old(flp)@,
            None => match party_refusal(
                old(ctx).taker,
                taker_sub_index,
                state_seed@,
                program_id,
            ) {
                Some(e) => r == Err::<FlpFillReport, FlashBookError>(e) && *final(ctx) == *old(ctx)
                    && final(flp)@ == old(flp)@,
                None => match flp_fill_settled(
                    *old(ctx),
                    old(flp)@,
                    q,
                    tiers@,
                    now_slot,
                    window_slots,
                    release,
                ) {
                    Err(e) => r == Err::<FlpFillReport, FlashBookError>(e) && *final(ctx) == *old(
                        ctx,
                    ) && final(flp)@ == old(flp)@,
                    Ok((after, pool, report)) => r == Ok::<FlpFillReport, FlashBookError>(report)
                        && *final(ctx) == after && final(flp)@ == pool,
                },
            },
        },
{
    match check_flp_fill_intake(ctx, q) {
        Ok(_) => {},
        Err(e) => {
            return Err(e);
        },
    }
    match verify_trader_state_pda(
        state_seed,
        taker_sub_index,
        ctx.taker.state.trader,
        ctx.taker.state_key,
        ctx.taker.state.bump,
        program_id,
    ) {
        Ok(_) => {},
        Err(e) => {
            return Err(e);
        },
    }
    settle_flp_fill(ctx, flp, q, tiers, now_slot, window_slots, release)
}

/// Size of the pool's position in a market with its direction.
pub open spec fn flp_signed(s: Seq<FlpMarketExposure>, market: Pubkey) -> int {
    let p = flp_position(s, market);
    if p.0 == EMPTY_SIDE {
        0
    } else {
        signed_size(p.0, p.1)
    }
}

/// Booking a fill adds its signed size to the pool's position in that market.
pub proof fn law_flp_fill_adds_signed_size(
    f: FlpModel,
    market: Pubkey,
    side: Side,
    size: u64,
    price: u64,
)
    requires
        f.wf(),
        flp_filled(f, market, side, size, price) is Ok,
    ensures
        flp_signed(flp_filled(f, market, side, size, price)->Ok_0.per_market, market) == flp_signed(
            f.per_market,
            market,
        ) + signed_fill(side, size),
{
    let s = f.per_market;
    let g = flp_filled(f, market, side, size, price)->Ok_0;
    let i = slot_from(s, market, 0);
    lemma_slot_bounds(s, market, 0);
    if i >= s.len() {
        let j = free_from(s, 0);
        lemma_free_bounds(s, 0);
        lemma_slot_none(s, market, 0);
        lemma_slot_at(g.per_market, market, 0, j);
    } else if side_of_byte(s[i].side) == side || size != s[i].size_lots {
        lemma_slot_at(g.per_market, market, 0, i);
    } else {
        assert forall|k: int| 0 <= k < s.len() implies (#[trigger] g.per_market[k]).side
            == EMPTY_SIDE || g.per_market[k].market != market by {
            if k < i {
                assert(slots_differ(s[k], s[i]));
            } else if k > i {
                assert(slots_differ(s[i], s[k]));
            }
        }
        lemma_slot_bounds(g.per_market, market, 0);
    }
}

/// Booking a fill keeps the pool's table well formed.
pub proof fn law_flp_fill_keeps_table(
    f: FlpModel,
    market: Pubkey,
    side: Side,
    size: u64,
    price: u64,
)
    requires
        f.wf(),
        flp_filled(f, market, side, size, price) is Ok,
    ensures
        flp_filled(f, market, side, size, price)->Ok_0.wf(),
{
    let s = f.per_market;
    let t = flp_filled(f, market, side, size, price)->Ok_0.per_market;
    let i = slot_from(s, market, 0);
    lemma_slot_bounds(s, market, 0);
    lemma_free_bounds(s, 0);
    let changed = if i < s.len() {
        i
    } else {
        free_from(s, 0)
    };
    assert forall|k: int, l: int| 0 <= k < l < t.len() implies slots_differ(
        #[trigger] t[k],
        #[trigger] t[l],
    ) by {
        assert(slots_differ(s[k], s[l]));
        if k == changed && i >= s.len() {
            assert(s[l].side == EMPTY_SIDE || s[l].market != market);
        }
        if l == changed && i >= s.len() {
            assert(s[k].side == EMPTY_SIDE || s[k].market != market);
        }
    }
}

/// Booking a fill keeps the count of markets right: where it was the number of slots
/// in use before, it is so after. A withdrawal asks for that many markets.
pub proof fn law_flp_fill_keeps_count(
    f: FlpModel,
    market: Pubkey,
    side: Side,
    size: u64,
    price: u64,
)
    requires
        f.wf(),
        f.count_right(),
        flp_filled(f, market, side, size, price) is Ok,
    ensures
        flp_filled(f, market, side, size, price)->Ok_0.count_right(),
{
    let s = f.per_market;
    let n = s.len() as int;
    let t = flp_filled(f, market, side, size, price)->Ok_0.per_market;
    let i = slot_from(s, market, 0);
    lemma_slot_bounds(s, market, 0);
    lemma_free_bounds(s, 0);
    let changed = if i < s.len() {
        i
    } else {
        free_from(s, 0)
    };
    assert(t =~= s.update(changed, t[changed]));
    lemma_live_update(s, changed, t[changed], n);
}

/// Changing one slot changes the number of used slots by that slot alone.
pub proof fn lemma_live_update(
    s: Seq<FlpMarketExposure>,
    i: int,
    x: FlpMarketExposure,
    n: int,
)
    requires
        0 <= i < s.len(),
        0 <= n <= s.len(),
    ensures
        0 <= live_slots(s, n) <= n,
        live_slots(s.update(i, x), n) == live_slots(s, n) + (if i < n {
            (if x.side == EMPTY_SIDE {
                0int
            } else {
                1
            }) - (if s[i].side == EMPTY_SIDE {
                0int
            } else {
                1
            })
        } else {
            0
        }),
        i < n && s[i].side == EMPTY_SIDE ==> live_slots(s, n) < n,
        i < n && s[i].side != EMPTY_SIDE ==> live_slots(s, n) > 0,
    decreases n,
{
    if n > 0 {
        lemma_live_update(s, i, x, n - 1);
    }
}

/// A fill against the pool keeps long and short open interest equal, as long as
/// the counters contain the taker's and the pool's positions.
pub proof fn law_flp_fill_keeps_open_interest_balanced(
    a: ApplyFlpFill,
    f: FlpModel,
    q: Fill,
    release: Release,
)
    requires
        f.wf(),
        a.market.oi_long_lots == a.market.oi_short_lots,
        ({
            let p = flp_position(f.per_market, a.market_key);
            let t = a.taker.position;
            let long = (if t.side == 0 {
                t.size_lots as int
            } else {
                0
            }) + (if p.0 == 0 {
                p.1 as int
            } else {
                0
            });
            long <= a.market.oi_long_lots && t.size_lots + p.1 - long <= a.market.oi_short_lots
        }),
        flp_positions_moved(a, f, q, release) is Ok,
    ensures
        ({
            let b = flp_positions_moved(a, f, q, release)->Ok_0.0;
            b.market.oi_long_lots == b.market.oi_short_lots
        }),
{
    let side = side_of_byte(q.taker_side);
    let fi = a.market.cum_funding_index;
    let b = flp_positions_moved(a, f, q, release)->Ok_0.0;
    let g = flp_positions_moved(a, f, q, release)->Ok_0.1;
    let t0 = position_ready(a.taker, a.market_key, fi, a.market.current_batch);
    law_fill_adds_signed_size(t0, side, q.size_lots, q.price_ticks, fi);
    law_flp_fill_adds_signed_size(
        f,
        a.market_key,
        opposite_side(side),
        q.size_lots,
        q.price_ticks,
    );
    lemma_oi_follows_position(a.market, a.taker.position, b.taker.position);
    lemma_slot_bounds(f.per_market, a.market_key, 0);
    lemma_slot_bounds(g.per_market, a.market_key, 0);
    let m1 = oi_moved(a.market, a.taker.position, b.taker.position)->Ok_0;
    let pre = flp_position(f.per_market, a.market_key);
    let post = flp_position(g.per_market, a.market_key);
    assert(flp_signed(f.per_market, a.market_key) == signed_size(pre.0, pre.1));
    assert(flp_signed(g.per_market, a.market_key) == signed_size(post.0, post.1));
    assert(b.market.oi_long_lots - b.market.oi_short_lots == m1.oi_long_lots - m1.oi_short_lots
        + signed_size(post.0, post.1) - signed_size(pre.0, pre.1));
}

/// The taker's collateral, the pool's capital and the insurance fund.
pub open spec fn flp_money(a: ApplyFlpFill, f: FlpModel) -> int {
    party_money(a.taker) + f.total_capital_quote_lots + a.insurance_fund.balance_quote_lots
}

/// A settled fill against the pool creates no money: the taker's collateral, the
/// pool's capital and the insurance fund grow by no more than the gain that the taker
/// realizes.
pub proof fn law_settled_flp_fill_never_creates_money(
    a: ApplyFlpFill,
    f: FlpModel,
    q: Fill,
    tiers: Seq<FeeTier>,
    now_slot: u64,
    window: u64,
    release: Release,
)
    requires
        a.insurance_fund.fee_contribution_bps <= BPS_DENOM,
        a.insurance_fund.toxicity_tax_contribution_bps <= BPS_DENOM,
        flp_fill_settled(a, f, q, tiers, now_slot, window, release) is Ok,
    ensures
        ({
            let r = flp_fill_settled(a, f, q, tiers, now_slot, window, release)->Ok_0;
            flp_money(r.0, r.1) <= flp_money(a, f) + gain_booked(a.taker, r.0.taker)
        }),
{
    let notional = notional_of(
        q.size_lots as int,
        q.price_ticks as int,
        a.market.params.tick_size as int,
    )->Ok_0;
    let (fee, rebate) = flp_fees(a, tiers, notional);
    let fee_paid = sat_u64(fee) as u64;
    let rebate_paid = sat_u64(rebate) as u64;
    let net = sat_u64(fee_paid - rebate_paid) as u64;
    lemma_share_within(net, a.insurance_fund.fee_contribution_bps);
    let (b, g) = flp_fees_charged(a, f, fee_paid, rebate_paid)->Ok_0;
    assert(flp_money(b, g) <= flp_money(a, f));
    let tax = toxicity_tax(
        notional as int,
        b.market.params.toxicity_tax_max_bps as int,
        b.market.vpin_bps as int,
        b.taker.state.collateral_quote_lots,
    );
    law_tax_split_conserves(tax, b.insurance_fund.toxicity_tax_contribution_bps);
    let c = flp_tax_charged(b, g, notional)->Ok_0.0;
    let h = flp_tax_charged(b, g, notional)->Ok_0.1;
    assert(flp_money(c, h) == flp_money(b, g));
    let side = side_of_byte(q.taker_side);
    let t1 = party_filled(c.taker, c.market, c.market_key, side, q)->Ok_0;
    lemma_result_bounds_money(
        t1,
        realized_by(c.taker, t1),
        is_isolated(c.taker.position),
        release,
    );
}

/// A search stays within the table and stops at a match.
pub proof fn lemma_slot_bounds(s: Seq<FlpMarketExposure>, market: Pubkey, i: int)
    requires
        0 <= i <= s.len(),
    ensures
        i <= slot_from(s, market, i) <= s.len(),
        slot_from(s, market, i) < s.len() ==> s[slot_from(s, market, i)].side != EMPTY_SIDE
            && s[slot_from(s, market, i)].market == market,
        forall|k: int|
            i <= k < slot_from(s, market, i) ==> (#[trigger] s[k]).side == EMPTY_SIDE || s[k].market
                != market,
    decreases s.len() - i,
{
    if i < s.len() && !(s[i].side != EMPTY_SIDE && s[i].market == market) {
        lemma_slot_bounds(s, market, i + 1);
    }
}

/// A search for an unused slot stays within the table and stops at one.
pub proof fn lemma_free_bounds(s: Seq<FlpMarketExposure>, i: int)
    requires
        0 <= i <= s.len(),
    ensures
        i <= free_from(s, i) <= s.len(),
        free_from(s, i) < s.len() ==> s[free_from(s, i)].side == EMPTY_SIDE,
    decreases s.len() - i,
{
    if i < s.len() && s[i].side != EMPTY_SIDE {
        lemma_free_bounds(s, i + 1);
    }
}

/// A search that finds nothing has seen no match.
pub proof fn lemma_slot_none(s: Seq<FlpMarketExposure>, market: Pubkey, i: int)
    requires
        0 <= i <= s.len(),
        slot_from(s, market, i) >= s.len(),
    ensures
        forall|k: int|
            i <= k < s.len() ==> (#[trigger] s[k]).side == EMPTY_SIDE || s[k].market != market,
{
    lemma_slot_bounds(s, market, i);
}

/// A search stops at the first match.
pub proof fn lemma_slot_at(s: Seq<FlpMarketExposure>, market: Pubkey, i: int, r: int)
    requires
        0 <= i <= r < s.len(),
        s[r].side != EMPTY_SIDE,
        s[r].market == market,
        forall|k: int| i <= k < r ==> (#[trigger] s[k]).side == EMPTY_SIDE || s[k].market != market,
    ensures
        slot_from(s, market, i) == r,
    decreases r - i,
{
    if i < r {
        lemma_slot_at(s, market, i + 1, r);
    }
}

} // verus!
