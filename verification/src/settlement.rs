//! Settlement of a fill between two traders.
use vstd::prelude::*;

use crate::errors::{FlashBookError, HaircutError, haircut_refusal, map_haircut_error};
use crate::events::{
    BuilderFeeOwedEvent, CreatorFeeOwedEvent, FillAppliedEvent, MarginThresholdCrossedEvent,
    MarkPriceDriftEvent, MarkPriceUpdatedEvent, ReferralOwedEvent, ToxicityTaxAppliedEvent,
    TraderTierUpgradedEvent, TradingRewardEligibleEvent,
};
use crate::fees::{
    FillFees, compute_fee_share, compute_fill_fees, compute_insurance_contribution,
    compute_rebate_paid, compute_toxicity_tax, fee_share, fees_for_fill, insurance_contribution,
    rebate_paid, split_tax, tax_split, toxicity_tax,
};
use crate::keys::Pubkey;
use crate::mark::{
    emit_margin_threshold_if_crossed, margin_alert, mark_outcome, update_mark_from_fill,
};
use crate::math::{clamp_u128_to_u64, min_int, sat_u64};
use crate::pda::{derived_refusal, program_address, trader_state_seeds, verify_trader_state_pda};
use crate::position::{
    apply_fill_to_position, apply_realized_pnl_delta, fill_refusal, oi_after, pnl_routing,
    position_after_fill, update_oi,
};
use crate::state::{
    FeeTier, InsuranceFundAccount, MarketAccount, MarketHaircutStateAccount, PositionAccount,
    PositionHaircutSnapshot, PositionHaircutStateAccount, Side, TraderStateAccount, opposite_side,
    side_of_byte,
};
use crate::tiers::{
    credit_volume_for_tier, fee_rates, resolve_fee_tier, tier_index, tier_index_for_volume,
    volume_credited,
};

verus! {

/// One side of a fill: the trader's account, its position in the market, and the
/// position's haircut state where the market has one.
#[derive(Clone, Copy, Debug, PartialEq, Eq, Structural)]
pub struct FillParty {
    pub state_key: Pubkey,
    pub state: TraderStateAccount,
    pub position_key: Pubkey,
    pub position_bump: u8,
    pub position: PositionAccount,
    pub haircut: Option<PositionHaircutStateAccount>,
}

/// The accounts that a fill moves. Taker and maker are different accounts.
#[derive(Clone, Copy, Debug, PartialEq, Eq, Structural)]
pub struct ApplyFill {
    pub sequencer: Pubkey,
    pub market_key: Pubkey,
    pub market: MarketAccount,
    pub insurance_fund: InsuranceFundAccount,
    pub taker: FillParty,
    pub maker: FillParty,
    pub market_haircut: Option<MarketHaircutStateAccount>,
}

/// The fill itself.
#[derive(Clone, Copy, Debug, PartialEq, Eq, Structural)]
pub struct Fill {
    pub size_lots: u64,
    pub price_ticks: u64,
    pub taker_side: u8,
    /// The taker's order was marked for just-in-time liquidity, for which the
    /// maker gets a bonus.
    pub taker_was_jit: bool,
}

/// Everything that settling a fill reports.
#[derive(Clone, Copy, Debug, PartialEq, Eq, Structural)]
pub struct FillReport {
    pub referral: Option<ReferralOwedEvent>,
    pub builder: Option<BuilderFeeOwedEvent>,
    pub creator: Option<CreatorFeeOwedEvent>,
    pub reward: Option<TradingRewardEligibleEvent>,
    pub taker_tier: Option<TraderTierUpgradedEvent>,
    pub maker_tier: Option<TraderTierUpgradedEvent>,
    pub tax: Option<ToxicityTaxAppliedEvent>,
    pub fill: FillAppliedEvent,
    pub mark: Option<MarkPriceUpdatedEvent>,
    pub drift: Option<MarkPriceDriftEvent>,
    pub taker_margin: Option<MarginThresholdCrossedEvent>,
    pub maker_margin: Option<MarginThresholdCrossedEvent>,
}

/// What the haircut arithmetic answers when a gain is put into a position's
/// reserve.
pub type Release = Result<PositionHaircutSnapshot, HaircutError>;

/// A position with collateral of its own pays and earns through it.
pub open spec fn is_isolated(p: PositionAccount) -> bool {
    p.collateral_quote_lots > 0
}

/// `p` after paying `amount` out of the bucket in question.
pub open spec fn party_debited(p: FillParty, isolated: bool, amount: u64) -> Result<
    FillParty,
    FlashBookError,
> {
    if isolated {
        if p.position.collateral_quote_lots < amount {
            Err(FlashBookError::InsufficientCollateral)
        } else {
            Ok(
                FillParty {
                    position: PositionAccount {
                        collateral_quote_lots: (p.position.collateral_quote_lots - amount) as u64,
                        ..p.position
                    },
                    ..p
                },
            )
        }
    } else if p.state.collateral_quote_lots < amount {
        Err(FlashBookError::InsufficientCollateral)
    } else {
        Ok(
            FillParty {
                state: TraderStateAccount {
                    collateral_quote_lots: (p.state.collateral_quote_lots - amount) as u64,
                    ..p.state
                },
                ..p
            },
        )
    }
}

/// `p` after receiving `amount` in the bucket in question.
pub open spec fn party_credited(p: FillParty, isolated: bool, amount: u64) -> Result<
    FillParty,
    FlashBookError,
> {
    if isolated {
        if p.position.collateral_quote_lots + amount > u64::MAX {
            Err(FlashBookError::ArithmeticOverflow)
        } else {
            Ok(
                FillParty {
                    position: PositionAccount {
                        collateral_quote_lots: (p.position.collateral_quote_lots + amount) as u64,
                        ..p.position
                    },
                    ..p
                },
            )
        }
    } else if p.state.collateral_quote_lots + amount > u64::MAX {
        Err(FlashBookError::ArithmeticOverflow)
    } else {
        Ok(
            FillParty {
                state: TraderStateAccount {
                    collateral_quote_lots: (p.state.collateral_quote_lots + amount) as u64,
                    ..p.state
                },
                ..p
            },
        )
    }
}

/// Takes `amount` from one side of a fill.
pub fn debit_party(p: FillParty, isolated: bool, amount: u64) -> (r: Result<
    FillParty,
    FlashBookError,
>)
    ensures
        r == party_debited(p, isolated, amount),
{
    let mut q = p;
    if isolated {
        match q.position.collateral_quote_lots.checked_sub(amount) {
            Some(n) => {
                q.position.collateral_quote_lots = n;
            },
            None => {
                return Err(FlashBookError::InsufficientCollateral);
            },
        }
    } else {
        match q.state.collateral_quote_lots.checked_sub(amount) {
            Some(n) => {
                q.state.collateral_quote_lots = n;
            },
            None => {
                return Err(FlashBookError::InsufficientCollateral);
            },
        }
    }
    Ok(q)
}

/// Pays `amount` to one side of a fill.
pub fn credit_party(p: FillParty, isolated: bool, amount: u64) -> (r: Result<
    FillParty,
    FlashBookError,
>)
    ensures
        r == party_credited(p, isolated, amount),
{
    let mut q = p;
    if isolated {
        match q.position.collateral_quote_lots.checked_add(amount) {
            Some(n) => {
                q.position.collateral_quote_lots = n;
            },
            None => {
                return Err(FlashBookError::ArithmeticOverflow);
            },
        }
    } else {
        match q.state.collateral_quote_lots.checked_add(amount) {
            Some(n) => {
                q.state.collateral_quote_lots = n;
            },
            None => {
                return Err(FlashBookError::ArithmeticOverflow);
            },
        }
    }
    Ok(q)
}

/// The insurance fund after a contribution.
pub open spec fn fund_credited(f: InsuranceFundAccount, amount: u64) -> Result<
    InsuranceFundAccount,
    FlashBookError,
> {
    if f.balance_quote_lots + amount > u64::MAX {
        Err(FlashBookError::ArithmeticOverflow)
    } else {
        Ok(
            InsuranceFundAccount {
                balance_quote_lots: (f.balance_quote_lots + amount) as u64,
                total_contributions: sat_u64(f.total_contributions + amount) as u64,
                ..f
            },
        )
    }
}

/// Pays a contribution into the insurance fund.
pub fn credit_fund(f: InsuranceFundAccount, amount: u64) -> (r: Result<
    InsuranceFundAccount,
    FlashBookError,
>)
    ensures
        r == fund_credited(f, amount),
{
    let mut g = f;
    match g.balance_quote_lots.checked_add(amount) {
        Some(n) => {
            g.balance_quote_lots = n;
        },
        None => {
            return Err(FlashBookError::ArithmeticOverflow);
        },
    }
    g.total_contributions = g.total_contributions.saturating_add(amount);
    Ok(g)
}

/// `size * price * tick`, where it fits.
pub open spec fn notional_of(size: int, price: int, tick: int) -> Result<u128, FlashBookError> {
    if size * price * tick > u128::MAX {
        Err(FlashBookError::ArithmeticOverflow)
    } else {
        Ok((size * price * tick) as u128)
    }
}

/// Computes the notional of a fill.
pub fn checked_notional(size: u64, price: u64, tick: u64) -> (r: Result<u128, FlashBookError>)
    ensures
        r == notional_of(size as int, price as int, tick as int),
{
    proof {
        assert(0 <= size * price <= u64::MAX * u64::MAX) by (nonlinear_arith)
            requires
                0 <= size <= u64::MAX,
                0 <= price <= u64::MAX,
        ;
        assert(0 <= (size * price) * tick) by (nonlinear_arith)
            requires
                0 <= size * price,
                0 <= tick,
        ;
    }
    match ((size as u128) * (price as u128)).checked_mul(tick as u128) {
        Some(n) => Ok(n),
        None => Err(FlashBookError::ArithmeticOverflow),
    }
}

/// The fees of a fill: each side at the rates its rolling volume earns.
pub open spec fn fees_of_fill(
    a: ApplyFill,
    f: Fill,
    tiers: Seq<FeeTier>,
    notional: u128,
) -> FillFees {
    let p = a.market.params;
    let taker_bps = fee_rates(
        p.maker_rebate_bps,
        p.taker_fee_bps,
        tiers,
        a.taker.state.volume_30d_quote_lots,
    ).1;
    let maker_bps = fee_rates(
        p.maker_rebate_bps,
        p.taker_fee_bps,
        tiers,
        a.maker.state.volume_30d_quote_lots,
    ).0;
    fees_for_fill(
        notional as int,
        taker_bps as int,
        a.taker.state.fee_discount_bps as int,
        maker_bps + (if f.taker_was_jit {
            p.jit_bonus_rebate_bps as int
        } else {
            0
        }),
    )
}

/// Computes the fees of a fill.
pub fn compute_fees_of_fill(
    a: &ApplyFill,
    f: Fill,
    tiers: &Vec<FeeTier>,
    notional: u128,
) -> (r: FillFees)
    ensures
        r == fees_of_fill(*a, f, tiers@, notional),
{
    let (_, taker_bps) = resolve_fee_tier(
        a.market.params.maker_rebate_bps,
        a.market.params.taker_fee_bps,
        tiers,
        a.taker.state.volume_30d_quote_lots,
    );
    let (maker_bps, _) = resolve_fee_tier(
        a.market.params.maker_rebate_bps,
        a.market.params.taker_fee_bps,
        tiers,
        a.maker.state.volume_30d_quote_lots,
    );
    let mut rate: i64 = maker_bps as i64;
    if f.taker_was_jit {
        rate = rate + a.market.params.jit_bonus_rebate_bps as i64;
    }
    compute_fill_fees(notional, taker_bps, a.taker.state.fee_discount_bps, rate)
}

/// The accounts after the fees have moved: the taker pays or is paid, then the
/// maker, then the insurance fund and the market's counter get their part. What the
/// taker is paid comes out of the fund's part.
pub open spec fn fees_charged(a: ApplyFill, fees: FillFees) -> Result<ApplyFill, FlashBookError> {
    let taker_iso = is_isolated(a.taker.position);
    let maker_iso = is_isolated(a.maker.position);
    match party_debited(a.taker, taker_iso, fees.taker_fee) {
        Err(e) => Err(e),
        Ok(t1) => match party_credited(
            t1,
            taker_iso,
            rebate_paid(
                fees.net_fee,
                a.insurance_fund.fee_contribution_bps,
                fees.taker_rebate,
            ),
        ) {
            Err(e) => Err(e),
            Ok(t2) => match party_credited(a.maker, maker_iso, fees.maker_rebate) {
                Err(e) => Err(e),
                Ok(m1) => match party_debited(m1, maker_iso, fees.maker_fee) {
                    Err(e) => Err(e),
                    Ok(m2) => match fund_credited(
                        a.insurance_fund,
                        insurance_contribution(
                            fees.net_fee,
                            a.insurance_fund.fee_contribution_bps,
                            fees.taker_rebate,
                        ),
                    ) {
                        Err(e) => Err(e),
                        Ok(fund) => if a.market.total_fees_collected + fees.net_fee > u64::MAX {
                            Err(FlashBookError::ArithmeticOverflow)
                        } else {
                            Ok(
                                ApplyFill {
                                    market: MarketAccount {
                                        total_fees_collected: (a.market.total_fees_collected
                                            + fees.net_fee) as u64,
                                        ..a.market
                                    },
                                    insurance_fund: fund,
                                    taker: t2,
                                    maker: m2,
                                    ..a
                                },
                            )
                        },
                    },
                },
            },
        },
    }
}

/// Moves the fees of a fill.
pub fn charge_fees(a: ApplyFill, fees: FillFees) -> (r: Result<ApplyFill, FlashBookError>)
    ensures
        r == fees_charged(a, fees),
{
    let taker_iso: bool = a.taker.position.collateral_quote_lots > 0;
    let maker_iso: bool = a.maker.position.collateral_quote_lots > 0;
    let t1 = match debit_party(a.taker, taker_iso, fees.taker_fee) {
        Ok(p) => p,
        Err(e) => {
            return Err(e);
        },
    };
    let rebate: u64 = compute_rebate_paid(
        fees.net_fee,
        a.insurance_fund.fee_contribution_bps,
        fees.taker_rebate,
    );
    let t2 = match credit_party(t1, taker_iso, rebate) {
        Ok(p) => p,
        Err(e) => {
            return Err(e);
        },
    };
    let m1 = match credit_party(a.maker, maker_iso, fees.maker_rebate) {
        Ok(p) => p,
        Err(e) => {
            return Err(e);
        },
    };
    let m2 = match debit_party(m1, maker_iso, fees.maker_fee) {
        Ok(p) => p,
        Err(e) => {
            return Err(e);
        },
    };
    let contribution: u64 = compute_insurance_contribution(
        fees.net_fee,
        a.insurance_fund.fee_contribution_bps,
        fees.taker_rebate,
    );
    let fund = match credit_fund(a.insurance_fund, contribution) {
        Ok(f) => f,
        Err(e) => {
            return Err(e);
        },
    };
    let mut b = a;
    match b.market.total_fees_collected.checked_add(fees.net_fee) {
        Some(n) => {
            b.market.total_fees_collected = n;
        },
        None => {
            return Err(FlashBookError::ArithmeticOverflow);
        },
    }
    b.insurance_fund = fund;
    b.taker = t2;
    b.maker = m2;
    Ok(b)
}

/// What the taker's referrer is owed.
pub open spec fn referral_owed(m: MarketAccount, t: TraderStateAccount, net_fee: u64) -> Option<
    ReferralOwedEvent,
> {
    let share = fee_share(net_fee, m.params.referrer_share_bps);
    if t.referrer != Pubkey::none() && m.params.referrer_share_bps > 0 && share > 0 {
        Some(
            ReferralOwedEvent {
                taker: t.trader,
                referrer: t.referrer,
                amount_quote_lots: share,
            },
        )
    } else {
        None
    }
}

/// What the taker's builder is owed: at most the share that the trader approved.
pub open spec fn builder_owed(m: MarketAccount, t: TraderStateAccount, net_fee: u64) -> Option<
    BuilderFeeOwedEvent,
> {
    let bps = min_int(m.params.builder_share_bps as int, t.builder_max_fee_share_bps as int);
    let share = fee_share(net_fee, bps as u32);
    if t.builder != Pubkey::none() && bps > 0 && share > 0 {
        Some(
            BuilderFeeOwedEvent { taker: t.trader, builder: t.builder, amount_quote_lots: share },
        )
    } else {
        None
    }
}

/// What the market's creator is owed.
pub open spec fn creator_owed(market_key: Pubkey, m: MarketAccount, net_fee: u64) -> Option<
    CreatorFeeOwedEvent,
> {
    let share = fee_share(net_fee, m.params.creator_share_bps);
    if m.creator != Pubkey::none() && m.params.creator_share_bps > 0 && share > 0 {
        Some(
            CreatorFeeOwedEvent {
                market: market_key,
                creator: m.creator,
                amount_quote_lots: share,
            },
        )
    } else {
        None
    }
}

/// Computes what third parties are owed for a fill.
pub fn compute_attributions(a: &ApplyFill, net_fee: u64) -> (r: (
    Option<ReferralOwedEvent>,
    Option<BuilderFeeOwedEvent>,
    Option<CreatorFeeOwedEvent>,
))
    ensures
        r.0 == referral_owed(a.market, a.taker.state, net_fee),
        r.1 == builder_owed(a.market, a.taker.state, net_fee),
        r.2 == creator_owed(a.market_key, a.market, net_fee),
{
    let t = a.taker.state;
    let p = a.market.params;
    let mut referral: Option<ReferralOwedEvent> = None;
    if !t.referrer.is_default() && p.referrer_share_bps > 0 {
        let share: u64 = compute_fee_share(net_fee, p.referrer_share_bps);
        if share > 0 {
            referral = Some(
                ReferralOwedEvent {
                    taker: t.trader,
                    referrer: t.referrer,
                    amount_quote_lots: share,
                },
            );
        }
    }
    let mut builder: Option<BuilderFeeOwedEvent> = None;
    if !t.builder.is_default() && p.builder_share_bps > 0 && t.builder_max_fee_share_bps > 0 {
        let bps: u32 = if p.builder_share_bps <= t.builder_max_fee_share_bps {
            p.builder_share_bps
        } else {
            t.builder_max_fee_share_bps
        };
        let share: u64 = compute_fee_share(net_fee, bps);
        if share > 0 {
            builder = Some(
                BuilderFeeOwedEvent {
                    taker: t.trader,
                    builder: t.builder,
                    amount_quote_lots: share,
                },
            );
        }
    }
    let mut creator: Option<CreatorFeeOwedEvent> = None;
    if !a.market.creator.is_default() && p.creator_share_bps > 0 {
        let share: u64 = compute_fee_share(net_fee, p.creator_share_bps);
        if share > 0 {
            creator = Some(
                CreatorFeeOwedEvent {
                    market: a.market_key,
                    creator: a.market.creator,
                    amount_quote_lots: share,
                },
            );
        }
    }
    (referral, builder, creator)
}

/// The trader after a fill's volume was counted, and the report of a tier change.
/// Nothing is counted in a market without taker fees, and no tier changes
/// without a table.
pub open spec fn volume_counted(
    s: TraderStateAccount,
    taker_fee_bps: u32,
    tiers: Seq<FeeTier>,
    notional: u128,
    now_slot: u64,
    window: u64,
) -> (TraderStateAccount, Option<TraderTierUpgradedEvent>) {
    if taker_fee_bps == 0 {
        (s, None)
    } else {
        let t = volume_credited(s, sat_u64(notional as int) as u64, now_slot, window);
        let before = tier_index(tiers, s.volume_30d_quote_lots);
        let after = tier_index(tiers, t.volume_30d_quote_lots);
        (
            t,
            if tiers.len() > 0 && after != before {
                Some(
                    TraderTierUpgradedEvent {
                        trader: s.trader,
                        previous_tier_index: before as u8,
                        new_tier_index: after as u8,
                        volume_quote_lots: t.volume_30d_quote_lots,
                    },
                )
            } else {
                None
            },
        )
    }
}

/// Counts a fill's volume for one trader.
pub fn count_volume(
    s: TraderStateAccount,
    taker_fee_bps: u32,
    tiers: &Vec<FeeTier>,
    notional: u128,
    now_slot: u64,
    window: u64,
) -> (r: (TraderStateAccount, Option<TraderTierUpgradedEvent>))
    requires
        tiers@.len() <= 256,
    ensures
        r == volume_counted(s, taker_fee_bps, tiers@, notional, now_slot, window),
{
    if taker_fee_bps == 0 {
        return (s, None);
    }
    let mut t = s;
    credit_volume_for_tier(&mut t, clamp_u128_to_u64(notional), now_slot, window);
    let before: u8 = tier_index_for_volume(tiers, s.volume_30d_quote_lots);
    let after: u8 = tier_index_for_volume(tiers, t.volume_30d_quote_lots);
    if tiers.len() > 0 && after != before {
        (
            t,
            Some(
                TraderTierUpgradedEvent {
                    trader: s.trader,
                    previous_tier_index: before,
                    new_tier_index: after,
                    volume_quote_lots: t.volume_30d_quote_lots,
                },
            ),
        )
    } else {
        (t, None)
    }
}

/// The report that makes a fill count for trading rewards.
pub open spec fn reward_report(a: ApplyFill, f: Fill, notional: u128) -> Option<
    TradingRewardEligibleEvent,
> {
    if a.market.params.taker_fee_bps > 0 {
        Some(
            TradingRewardEligibleEvent {
                market: a.market_key,
                taker: a.taker.state.trader,
                maker: a.maker.state.trader,
                notional_quote_lots: sat_u64(notional as int) as u64,
                taker_side: f.taker_side,
            },
        )
    } else {
        None
    }
}

/// The accounts after the toxicity tax: the taker's pool pays it, the insurance
/// fund and the maker's pool share it.
pub open spec fn tax_charged(a: ApplyFill, notional: u128) -> Result<
    (ApplyFill, Option<ToxicityTaxAppliedEvent>),
    FlashBookError,
> {
    let tax = toxicity_tax(
        notional as int,
        a.market.params.toxicity_tax_max_bps as int,
        a.market.vpin_bps as int,
        a.taker.state.collateral_quote_lots,
    );
    let (to_insurance, to_maker) = tax_split(tax, a.insurance_fund.toxicity_tax_contribution_bps);
    if tax == 0 {
        Ok((a, None))
    } else {
        match fund_credited(a.insurance_fund, to_insurance) {
            Err(e) => Err(e),
            Ok(fund) => match party_credited(a.maker, false, to_maker) {
                Err(e) => Err(e),
                Ok(maker) => if a.market.total_toxicity_tax_collected + tax > u64::MAX {
                    Err(FlashBookError::ArithmeticOverflow)
                } else {
                    Ok(
                        (
                            ApplyFill {
                                market: MarketAccount {
                                    total_toxicity_tax_collected: (
                                    a.market.total_toxicity_tax_collected + tax) as u64,
                                    ..a.market
                                },
                                insurance_fund: fund,
                                taker: FillParty {
                                    state: TraderStateAccount {
                                        collateral_quote_lots: (a.taker.state.collateral_quote_lots
                                            - tax) as u64,
                                        ..a.taker.state
                                    },
                                    ..a.taker
                                },
                                maker,
                                ..a
                            },
                            Some(
                                ToxicityTaxAppliedEvent {
                                    market: a.market_key,
                                    taker: a.taker.state.trader,
                                    maker: a.maker.state.trader,
                                    vpin_bps: a.market.vpin_bps,
                                    tax_quote_lots: tax,
                                    insurance_share: to_insurance,
                                    maker_share: to_maker,
                                },
                            ),
                        ),
                    )
                },
            },
        }
    }
}

/// Moves the toxicity tax of a fill.
pub fn charge_tax(a: ApplyFill, notional: u128) -> (r: Result<
    (ApplyFill, Option<ToxicityTaxAppliedEvent>),
    FlashBookError,
>)
    ensures
        r == tax_charged(a, notional),
{
    let tax: u64 = compute_toxicity_tax(
        notional,
        a.market.params.toxicity_tax_max_bps,
        a.market.vpin_bps,
        a.taker.state.collateral_quote_lots,
    );
    if tax == 0 {
        return Ok((a, None));
    }
    let (to_insurance, to_maker) = split_tax(tax, a.insurance_fund.toxicity_tax_contribution_bps);
    let mut b = a;
    b.taker.state.collateral_quote_lots = b.taker.state.collateral_quote_lots - tax;
    b.insurance_fund = match credit_fund(a.insurance_fund, to_insurance) {
        Ok(f) => f,
        Err(e) => {
            return Err(e);
        },
    };
    b.maker = match credit_party(a.maker, false, to_maker) {
        Ok(p) => p,
        Err(e) => {
            return Err(e);
        },
    };
    match b.market.total_toxicity_tax_collected.checked_add(tax) {
        Some(n) => {
            b.market.total_toxicity_tax_collected = n;
        },
        None => {
            return Err(FlashBookError::ArithmeticOverflow);
        },
    }
    Ok(
        (
            b,
            Some(
                ToxicityTaxAppliedEvent {
                    market: a.market_key,
                    taker: a.taker.state.trader,
                    maker: a.maker.state.trader,
                    vpin_bps: a.market.vpin_bps,
                    tax_quote_lots: tax,
                    insurance_share: to_insurance,
                    maker_share: to_maker,
                },
            ),
        ),
    )
}

/// A position account that was never used before is set up for its first fill.
pub open spec fn position_ready(
    p: FillParty,
    market_key: Pubkey,
    funding_index: i128,
    batch: u64,
) -> PositionAccount {
    if p.position.market == Pubkey::none() {
        PositionAccount {
            market: market_key,
            trader: p.state.trader,
            bump: p.position_bump,
            cum_funding_index_at_entry: funding_index,
            last_settlement_batch: batch,
            ..p.position
        }
    } else {
        p.position
    }
}

/// Sets up a position account that was never used before.
pub fn ready_position(p: &FillParty, market_key: Pubkey, funding_index: i128, batch: u64) -> (r:
    PositionAccount)
    ensures
        r == position_ready(*p, market_key, funding_index, batch),
{
    let mut q = p.position;
    if q.market.is_default() {
        q.market = market_key;
        q.trader = p.state.trader;
        q.bump = p.position_bump;
        q.cum_funding_index_at_entry = funding_index;
        q.last_settlement_batch = batch;
    }
    q
}

/// One side after the fill was booked on its position.
pub open spec fn party_filled(p: FillParty, m: MarketAccount, key: Pubkey, side: Side, f: Fill) -> Result<
    FillParty,
    FlashBookError,
> {
    let pos = position_ready(p, key, m.cum_funding_index, m.current_batch);
    match fill_refusal(pos, side, f.size_lots, f.price_ticks) {
        Some(e) => Err(e),
        None => Ok(
            FillParty {
                position: position_after_fill(
                    pos,
                    side,
                    f.size_lots,
                    f.price_ticks,
                    m.cum_funding_index,
                ),
                ..p
            },
        ),
    }
}

/// Books a fill on one side's position.
pub fn fill_party(p: FillParty, m: &MarketAccount, key: Pubkey, side: Side, f: Fill) -> (r: Result<
    FillParty,
    FlashBookError,
>)
    ensures
        r == party_filled(p, *m, key, side, f),
{
    let mut q = p;
    q.position = ready_position(&p, key, m.cum_funding_index, m.current_batch);
    match apply_fill_to_position(
        &mut q.position,
        side,
        f.size_lots,
        f.price_ticks,
        m.cum_funding_index,
    ) {
        Ok(_) => Ok(q),
        Err(e) => Err(e),
    }
}

/// The profit or loss that a fill realized on a position.
pub open spec fn realized_by(before: FillParty, after: FillParty) -> int {
    after.position.realized_pnl_quote_lots - before.position.realized_pnl_quote_lots
}

/// A position's haircut state with the numbers of `s`.
pub open spec fn haircut_with(
    h: PositionHaircutStateAccount,
    s: PositionHaircutSnapshot,
) -> PositionHaircutStateAccount {
    PositionHaircutStateAccount {
        released_reserve_quote_lots: s.released_reserve_quote_lots,
        released_attached_at_slot: s.released_attached_at_slot,
        matured_pos_quote_lots: s.matured_pos_quote_lots,
        original_reserve_at_attach: s.original_reserve_at_attach,
        ..h
    }
}

/// Writes the numbers of `s` into a position's haircut state.
pub fn write_haircut(h: PositionHaircutStateAccount, s: PositionHaircutSnapshot) -> (r:
    PositionHaircutStateAccount)
    ensures
        r == haircut_with(h, s),
{
    PositionHaircutStateAccount {
        released_reserve_quote_lots: s.released_reserve_quote_lots,
        released_attached_at_slot: s.released_attached_at_slot,
        matured_pos_quote_lots: s.matured_pos_quote_lots,
        original_reserve_at_attach: s.original_reserve_at_attach,
        ..h
    }
}

/// One side after a realized profit or loss of `delta` has been settled. With a
/// haircut state a profit goes into the reserve and no collateral moves; a loss,
/// and any profit without a haircut state, moves collateral at once.
pub open spec fn pnl_settled(p: FillParty, delta: int, isolated: bool, release: Release) -> Result<
    FillParty,
    FlashBookError,
> {
    if delta > 0 && p.haircut is Some {
        match release {
            Err(e) => Err(haircut_refusal(e)),
            Ok(s) => Ok(FillParty { haircut: Some(haircut_with(p.haircut->0, s)), ..p }),
        }
    } else {
        match pnl_routing(
            delta,
            isolated,
            p.position.collateral_quote_lots,
            p.state.collateral_quote_lots,
        ) {
            Err(e) => Err(e),
            Ok((iso, cross)) => Ok(
                FillParty {
                    position: PositionAccount { collateral_quote_lots: iso, ..p.position },
                    state: TraderStateAccount { collateral_quote_lots: cross, ..p.state },
                    ..p
                },
            ),
        }
    }
}

/// Settles a realized profit or loss on one side. `release` is what the haircut
/// arithmetic answered for a profit of this size; without a haircut state, and
/// for a loss, it is not looked at.
pub fn apply_realized_pnl_delta_v2(p: FillParty, delta: i128, isolated: bool, release: Release) -> (r:
    Result<FillParty, FlashBookError>)
    ensures
        r == pnl_settled(p, delta as int, isolated, release),
{
    let mut q = p;
    if delta > 0 {
        if let Some(h) = p.haircut {
            return match release {
                Ok(s) => {
                    q.haircut = Some(write_haircut(h, s));
                    Ok(q)
                },
                Err(e) => Err(map_haircut_error(e)),
            };
        }
    }
    match apply_realized_pnl_delta(delta, isolated, &mut q.position, &mut q.state) {
        Ok(_) => Ok(q),
        Err(e) => Err(e),
    }
}

/// The gain that a fill would put into a position's reserve: what it realizes,
/// at most `u64::MAX`, and none when it realizes nothing or a loss.
pub open spec fn gain_of_fill(p: FillParty, m: MarketAccount, key: Pubkey, side: Side, f: Fill) -> u64 {
    match party_filled(p, m, key, side, f) {
        Err(_) => 0,
        Ok(q) => sat_u64(realized_by(p, q)) as u64,
    }
}

/// Computes the gain that a fill would put into a position's reserve.
pub fn compute_gain_of_fill(p: &FillParty, m: &MarketAccount, key: Pubkey, side: Side, f: Fill) -> (r:
    u64)
    ensures
        r == gain_of_fill(*p, *m, key, side, f),
{
    match fill_party(*p, m, key, side, f) {
        Err(_) => 0,
        Ok(q) => {
            let delta: i128 = q.position.realized_pnl_quote_lots as i128
                - p.position.realized_pnl_quote_lots as i128;
            if delta > 0 {
                clamp_u128_to_u64(delta as u128)
            } else {
                0
            }
        },
    }
}

/// The trader's count of open positions after one of them went from `before` to
/// `after` lots.
pub open spec fn open_count_after(count: u8, before: u64, after: u64) -> u8 {
    if before == 0 && after > 0 {
        if count == u8::MAX {
            count
        } else {
            (count + 1) as u8
        }
    } else if before > 0 && after == 0 {
        if count == 0 {
            count
        } else {
            (count - 1) as u8
        }
    } else {
        count
    }
}

/// Computes the trader's count of open positions.
pub fn count_open_positions(count: u8, before: u64, after: u64) -> (r: u8)
    ensures
        r == open_count_after(count, before, after),
{
    if before == 0 && after > 0 {
        count.saturating_add(1)
    } else if before > 0 && after == 0 {
        count.saturating_sub(1)
    } else {
        count
    }
}

/// The market after one side's position went from `before` to `after`.
pub open spec fn oi_moved(
    m: MarketAccount,
    before: PositionAccount,
    after: PositionAccount,
) -> Result<MarketAccount, FlashBookError> {
    match oi_after(
        m.oi_long_lots,
        m.oi_short_lots,
        before.side,
        before.size_lots,
        after.side,
        after.size_lots,
    ) {
        Err(e) => Err(e),
        Ok((l, s)) => Ok(MarketAccount { oi_long_lots: l, oi_short_lots: s, ..m }),
    }
}

/// One side with its count of open positions brought up to date.
pub open spec fn party_counted(before: FillParty, after: FillParty) -> FillParty {
    FillParty {
        state: TraderStateAccount {
            open_positions: open_count_after(
                after.state.open_positions,
                before.position.size_lots,
                after.position.size_lots,
            ),
            ..after.state
        },
        ..after
    }
}

/// The accounts after the positions have changed hands: both fills are booked,
/// both results are settled, open interest and position counts follow.
pub open spec fn positions_moved(
    a: ApplyFill,
    f: Fill,
    taker_release: Release,
    maker_release: Release,
) -> Result<ApplyFill, FlashBookError> {
    let side = side_of_byte(f.taker_side);
    match party_filled(a.taker, a.market, a.market_key, side, f) {
        Err(e) => Err(e),
        Ok(t1) => match party_filled(
            a.maker,
            a.market,
            a.market_key,
            opposite_side(side),
            f,
        ) {
            Err(e) => Err(e),
            Ok(m1) => match pnl_settled(
                t1,
                realized_by(a.taker, t1),
                is_isolated(a.taker.position),
                taker_release,
            ) {
                Err(e) => Err(e),
                Ok(t2) => match pnl_settled(
                    m1,
                    realized_by(a.maker, m1),
                    is_isolated(a.maker.position),
                    maker_release,
                ) {
                    Err(e) => Err(e),
                    Ok(m2) => match oi_moved(a.market, a.taker.position, t2.position) {
                        Err(e) => Err(e),
                        Ok(mk1) => match oi_moved(mk1, a.maker.position, m2.position) {
                            Err(e) => Err(e),
                            Ok(mk2) => Ok(
                                ApplyFill {
                                    market: mk2,
                                    taker: party_counted(a.taker, t2),
                                    maker: party_counted(a.maker, m2),
                                    ..a
                                },
                            ),
                        },
                    },
                },
            },
        },
    }
}

/// Moves both positions of a fill and all that follows from it.
pub fn move_positions(
    a: ApplyFill,
    f: Fill,
    taker_release: Release,
    maker_release: Release,
) -> (r: Result<ApplyFill, FlashBookError>)
    ensures
        r == positions_moved(a, f, taker_release, maker_release),
{
    let side = Side::from_byte(f.taker_side);
    let t1 = match fill_party(a.taker, &a.market, a.market_key, side, f) {
        Ok(p) => p,
        Err(e) => {
            return Err(e);
        },
    };
    let m1 = match fill_party(a.maker, &a.market, a.market_key, side.opposite(), f) {
        Ok(p) => p,
        Err(e) => {
            return Err(e);
        },
    };
    let taker_delta: i128 = t1.position.realized_pnl_quote_lots as i128
        - a.taker.position.realized_pnl_quote_lots as i128;
    let maker_delta: i128 = m1.position.realized_pnl_quote_lots as i128
        - a.maker.position.realized_pnl_quote_lots as i128;
    let mut t2 = match apply_realized_pnl_delta_v2(
        t1,
        taker_delta,
        a.taker.position.collateral_quote_lots > 0,
        taker_release,
    ) {
        Ok(p) => p,
        Err(e) => {
            return Err(e);
        },
    };
    let mut m2 = match apply_realized_pnl_delta_v2(
        m1,
        maker_delta,
        a.maker.position.collateral_quote_lots > 0,
        maker_release,
    ) {
        Ok(p) => p,
        Err(e) => {
            return Err(e);
        },
    };
    let mut market = a.market;
    match update_oi(
        &mut market,
        a.taker.position.side,
        a.taker.position.size_lots,
        t2.position.side,
        t2.position.size_lots,
    ) {
        Ok(_) => {},
        Err(e) => {
            return Err(e);
        },
    }
    match update_oi(
        &mut market,
        a.maker.position.side,
        a.maker.position.size_lots,
        m2.position.side,
        m2.position.size_lots,
    ) {
        Ok(_) => {},
        Err(e) => {
            return Err(e);
        },
    }
    t2.state.open_positions = count_open_positions(
        t2.state.open_positions,
        a.taker.position.size_lots,
        t2.position.size_lots,
    );
    m2.state.open_positions = count_open_positions(
        m2.state.open_positions,
        a.maker.position.size_lots,
        m2.position.size_lots,
    );
    let mut b = a;
    b.market = market;
    b.taker = t2;
    b.maker = m2;
    Ok(b)
}

/// The margin alert of one side at the market's mark.
pub open spec fn party_margin_alert(a: ApplyFill, p: FillParty) -> Option<
    MarginThresholdCrossedEvent,
> {
    margin_alert(
        p.state.trader,
        a.market_key,
        p.position,
        a.market.mark_price_ticks,
        a.market.params.tick_size,
        a.market.params.maintenance_margin_ratio_bps,
        p.state.collateral_quote_lots,
    )
}

/// The accounts and the report after a fill has been settled, or why it is not.
pub open spec fn fill_settled(
    a: ApplyFill,
    f: Fill,
    tiers: Seq<FeeTier>,
    now_slot: u64,
    window: u64,
    taker_release: Release,
    maker_release: Release,
) -> Result<(ApplyFill, FillReport), FlashBookError> {
    match notional_of(f.size_lots as int, f.price_ticks as int, a.market.params.tick_size as int) {
        Err(e) => Err(e),
        Ok(notional) => {
            let fees = fees_of_fill(a, f, tiers, notional);
            match fees_charged(a, fees) {
                Err(e) => Err(e),
                Ok(b) => {
                    let fee_bps = b.market.params.taker_fee_bps;
                    let (ts, taker_tier) = volume_counted(
                        b.taker.state,
                        fee_bps,
                        tiers,
                        notional,
                        now_slot,
                        window,
                    );
                    let (ms, maker_tier) = volume_counted(
                        b.maker.state,
                        fee_bps,
                        tiers,
                        notional,
                        now_slot,
                        window,
                    );
                    let c = ApplyFill {
                        taker: FillParty { state: ts, ..b.taker },
                        maker: FillParty { state: ms, ..b.maker },
                        ..b
                    };
                    match tax_charged(c, notional) {
                        Err(e) => Err(e),
                        Ok((d, tax)) => match positions_moved(
                            d,
                            f,
                            taker_release,
                            maker_release,
                        ) {
                            Err(e) => Err(e),
                            Ok(g) => {
                                let (market, mark, drift) = mark_outcome(
                                    g.market_key,
                                    g.market,
                                    f.price_ticks,
                                );
                                let h = ApplyFill { market, ..g };
                                Ok(
                                    (
                                        h,
                                        FillReport {
                                            referral: referral_owed(
                                                b.market,
                                                b.taker.state,
                                                fees.net_fee,
                                            ),
                                            builder: builder_owed(
                                                b.market,
                                                b.taker.state,
                                                fees.net_fee,
                                            ),
                                            creator: creator_owed(
                                                b.market_key,
                                                b.market,
                                                fees.net_fee,
                                            ),
                                            reward: reward_report(b, f, notional),
                                            taker_tier,
                                            maker_tier,
                                            tax,
                                            fill: FillAppliedEvent {
                                                market: a.market_key,
                                                taker: a.taker.state.trader,
                                                maker: a.maker.state.trader,
                                                taker_side: f.taker_side,
                                                size_lots: f.size_lots,
                                                price_ticks: f.price_ticks,
                                                batch_num: a.market.current_batch,
                                            },
                                            mark,
                                            drift,
                                            taker_margin: party_margin_alert(h, h.taker),
                                            maker_margin: party_margin_alert(h, h.maker),
                                        },
                                    ),
                                )
                            },
                        },
                    }
                },
            }
        },
    }
}

/// Settles a fill: fees, volumes, toxicity tax, positions, results, open
/// interest and mark. `taker_release` and `maker_release` are what the haircut
/// arithmetic answers for the gains of [`compute_gain_of_fill`]. On refusal
/// nothing changes.
pub fn settle_fill(
    ctx: &mut ApplyFill,
    f: Fill,
    tiers: &Vec<FeeTier>,
    now_slot: u64,
    window_slots: u64,
    taker_release: Release,
    maker_release: Release,
) -> (r: Result<FillReport, FlashBookError>)
    requires
        tiers@.len() <= 256,
    ensures
        match fill_settled(
            *old(ctx),
            f,
            tiers@,
            now_slot,
            window_slots,
            taker_release,
            maker_release,
        ) {
            Err(e) => r == Err::<FillReport, FlashBookError>(e) && *final(ctx) == *old(ctx),
            Ok((after, report)) => r == Ok::<FillReport, FlashBookError>(report) && *final(ctx)
                == after,
        },
{
    let a = *ctx;
    let notional: u128 = match checked_notional(
        f.size_lots,
        f.price_ticks,
        a.market.params.tick_size,
    ) {
        Ok(n) => n,
        Err(e) => {
            return Err(e);
        },
    };
    let fees = compute_fees_of_fill(&a, f, tiers, notional);
    let b = match charge_fees(a, fees) {
        Ok(x) => x,
        Err(e) => {
            return Err(e);
        },
    };
    let (referral, builder, creator) = compute_attributions(&b, fees.net_fee);
    let reward: Option<TradingRewardEligibleEvent> = if b.market.params.taker_fee_bps > 0 {
        Some(
            TradingRewardEligibleEvent {
                market: b.market_key,
                taker: b.taker.state.trader,
                maker: b.maker.state.trader,
                notional_quote_lots: clamp_u128_to_u64(notional),
                taker_side: f.taker_side,
            },
        )
    } else {
        None
    };
    let mut c = b;
    let (ts, taker_tier) = count_volume(
        b.taker.state,
        b.market.params.taker_fee_bps,
        tiers,
        notional,
        now_slot,
        window_slots,
    );
    let (ms, maker_tier) = count_volume(
        b.maker.state,
        b.market.params.taker_fee_bps,
        tiers,
        notional,
        now_slot,
        window_slots,
    );
    c.taker.state = ts;
    c.maker.state = ms;
    let (d, tax) = match charge_tax(c, notional) {
        Ok(x) => x,
        Err(e) => {
            return Err(e);
        },
    };
    let g = match move_positions(d, f, taker_release, maker_release) {
        Ok(x) => x,
        Err(e) => {
            return Err(e);
        },
    };
    let mut h = g;
    let (mark, drift) = update_mark_from_fill(&mut h.market, g.market_key, f.price_ticks);
    let taker_margin = emit_margin_threshold_if_crossed(
        h.taker.state.trader,
        h.market_key,
        &h.taker.position,
        h.market.mark_price_ticks,
        h.market.params.tick_size,
        h.market.params.maintenance_margin_ratio_bps,
        h.taker.state.collateral_quote_lots,
    );
    let maker_margin = emit_margin_threshold_if_crossed(
        h.maker.state.trader,
        h.market_key,
        &h.maker.position,
        h.market.mark_price_ticks,
        h.market.params.tick_size,
        h.market.params.maintenance_margin_ratio_bps,
        h.maker.state.collateral_quote_lots,
    );
    *ctx = h;
    Ok(
        FillReport {
            referral,
            builder,
            creator,
            reward,
            taker_tier,
            maker_tier,
            tax,
            fill: FillAppliedEvent {
                market: a.market_key,
                taker: a.taker.state.trader,
                maker: a.maker.state.trader,
                taker_side: f.taker_side,
                size_lots: f.size_lots,
                price_ticks: f.price_ticks,
                batch_num: a.market.current_batch,
            },
            mark,
            drift,
            taker_margin,
            maker_margin,
        },
    )
}

/// Whether the haircut accounts that came with a request belong to its market
/// and positions.
pub open spec fn haircut_bound(
    market_key: Pubkey,
    position_key: Pubkey,
    h: Option<PositionHaircutStateAccount>,
) -> bool {
    match h {
        None => true,
        Some(x) => x.market == market_key && x.position == position_key,
    }
}

/// Tests that a position's haircut account belongs to it.
pub fn check_haircut_bound(
    market_key: Pubkey,
    position_key: Pubkey,
    h: &Option<PositionHaircutStateAccount>,
) -> (r: bool)
    ensures
        r == haircut_bound(market_key, position_key, *h),
{
    match h {
        None => true,
        Some(x) => x.market == market_key && x.position == position_key,
    }
}

/// Why a fill is not looked at, if it is not: foreign haircut accounts, an empty
/// fill, an unknown side, or a signer that may not settle this market.
pub open spec fn fill_intake_refusal(a: ApplyFill, f: Fill) -> Option<FlashBookError> {
    if (a.market_haircut matches Some(h) && h.market != a.market_key) || !haircut_bound(
        a.market_key,
        a.taker.position_key,
        a.taker.haircut,
    ) || !haircut_bound(a.market_key, a.maker.position_key, a.maker.haircut) {
        Some(FlashBookError::HaircutStateMismatch)
    } else if f.size_lots == 0 {
        Some(FlashBookError::ZeroSize)
    } else if f.price_ticks == 0 {
        Some(FlashBookError::ZeroPrice)
    } else if f.taker_side > 1 {
        Some(FlashBookError::OutOfRange)
    } else if a.sequencer != a.market.sequencer {
        Some(FlashBookError::Unauthorized)
    } else {
        None
    }
}

/// Tests whether a fill may be looked at.
pub fn check_fill_intake(a: &ApplyFill, f: Fill) -> (r: Result<(), FlashBookError>)
    ensures
        r == (match fill_intake_refusal(*a, f) {
            Some(e) => Err::<(), FlashBookError>(e),
            None => Ok(()),
        }),
{
    if let Some(h) = a.market_haircut {
        if h.market != a.market_key {
            return Err(FlashBookError::HaircutStateMismatch);
        }
    }
    if !check_haircut_bound(a.market_key, a.taker.position_key, &a.taker.haircut)
        || !check_haircut_bound(a.market_key, a.maker.position_key, &a.maker.haircut) {
        return Err(FlashBookError::HaircutStateMismatch);
    }
    if f.size_lots == 0 {
        return Err(FlashBookError::ZeroSize);
    }
    if f.price_ticks == 0 {
        return Err(FlashBookError::ZeroPrice);
    }
    if f.taker_side > 1 {
        return Err(FlashBookError::OutOfRange);
    }
    if a.sequencer != a.market.sequencer {
        return Err(FlashBookError::Unauthorized);
    }
    Ok(())
}

/// Why the accounts of one side are not those of the named sub-account, if so.
pub open spec fn party_refusal(
    p: FillParty,
    sub_index: u8,
    state_seed: Seq<u8>,
    program_id: Pubkey,
) -> Option<FlashBookError> {
    derived_refusal(
        program_address(
            trader_state_seeds(state_seed, p.state.trader, sub_index, p.state.bump),
            program_id,
        ),
        p.state_key,
        FlashBookError::WrongTrader,
    )
}

/// Settles a fill that the market's sequencer reports. Both sides are bound to
/// the sub-accounts that the orders named by deriving their addresses again. On
/// refusal nothing changes.
pub fn apply_fill(
    ctx: &mut ApplyFill,
    f: Fill,
    taker_sub_index: u8,
    maker_sub_index: u8,
    state_seed: &Vec<u8>,
    program_id: Pubkey,
    tiers: &Vec<FeeTier>,
    now_slot: u64,
    window_slots: u64,
    taker_release: Release,
    maker_release: Release,
) -> (r: Result<FillReport, FlashBookError>)
    requires
        tiers@.len() <= 256,
    ensures
        match fill_intake_refusal(*old(ctx), f) {
            Some(e) => r == Err::<FillReport, FlashBookError>(e) && *final(ctx) == *old(ctx),
            None => match party_refusal(
                old(ctx).taker,
                taker_sub_index,
                state_seed@,
                program_id,
            ) {
                Some(e) => r == Err::<FillReport, FlashBookError>(e) && *final(ctx) == *old(ctx),
                None => match party_refusal(
                    old(ctx).maker,
                    maker_sub_index,
                    state_seed@,
                    program_id,
                ) {
                    Some(e) => r == Err::<FillReport, FlashBookError>(e) && *final(ctx) == *old(
                        ctx,
                    ),
                    None => match fill_settled(
                        *old(ctx),
                        f,
                        tiers@,
                        now_slot,
                        window_slots,
                        taker_release,
                        maker_release,
                    ) {
                        Err(e) => r == Err::<FillReport, FlashBookError>(e) && *final(ctx) == *old(
                            ctx,
                        ),
                        Ok((after, report)) => r == Ok::<FillReport, FlashBookError>(report)
                            && *final(ctx) == after,
                    },
                },
            },
        },
{
    match check_fill_intake(ctx, f) {
        Ok(_) => {},
        Err(e) => {
            return Err(e);
        },
    }
    match verify_trader_state_pda(
        state_seed,
        taker_sub_index,
        ctx.taker.state.trader,
        ctx.taker.state_key,
        ctx.taker.state.bump,
        program_id,
    ) {
        Ok(_) => {},
        Err(e) => {
            return Err(e);
        },
    }
    match verify_trader_state_pda(
        state_seed,
        maker_sub_index,
        ctx.maker.state.trader,
        ctx.maker.state_key,
        ctx.maker.state.bump,
        program_id,
    ) {
        Ok(_) => {},
        Err(e) => {
            return Err(e);
        },
    }
    settle_fill(ctx, f, tiers, now_slot, window_slots, taker_release, maker_release)
}

} // verus!
