//! The haircut on realized gains: gains wait, mature, and are then paid at what the
//! market's residual can bear.
use vstd::prelude::*;

use crate::errors::{FlashBookError, HaircutError, haircut_refusal, map_haircut_error};
use crate::events::{
    GainReleasedToHaircutEvent, HaircutDustFlushedEvent, HaircutInitializedEvent,
    HaircutInvariantsCheckedEvent, PositionConvertedEvent, PositionHaircutInitializedEvent,
    PositionMaturedEvent, ProtocolSolvencyCheckedEvent, ResidualSeededEvent,
};
use crate::keys::Pubkey;
use crate::math::{clamp_u128_to_u64, sat_u64};
use crate::settlement::{Release, is_isolated};
use crate::state::{
    InsuranceFundAccount, MarketAccount, MarketHaircutStateAccount, PositionAccount,
    PositionHaircutSnapshot, PositionHaircutStateAccount, TraderStateAccount,
};

verus! {

/// Sets up the haircut of a market. `window` is what the haircut arithmetic says to
/// the warm-up window, `h_one` its number for no haircut at all.
pub fn initialize_haircut_state(
    market_key: Pubkey,
    market: &MarketAccount,
    authority: Pubkey,
    bump: u8,
    h_min_slots: u64,
    h_max_slots: u64,
    initial_residual_quote_lots: u128,
    window: Result<(), HaircutError>,
    h_one: u64,
    slot: u64,
) -> (r: Result<(MarketHaircutStateAccount, HaircutInitializedEvent), FlashBookError>)
    ensures
        r == (if market.authority != authority {
            Err::<(MarketHaircutStateAccount, HaircutInitializedEvent), FlashBookError>(
                FlashBookError::Unauthorized,
            )
        } else {
            match window {
                Err(e) => Err(haircut_refusal(e)),
                Ok(_) => Ok(
                    (
                        MarketHaircutStateAccount {
                            market: market_key,
                            bump,
                            residual_quote_lots: initial_residual_quote_lots,
                            matured_pos_total_quote_lots: 0,
                            realized_loss_total_quote_lots: 0,
                            dust_accrued_quote_lots: 0,
                            h_min_slots,
                            h_max_slots,
                            h_scaled_cached: h_one,
                            h_cached_at_slot: slot,
                        },
                        HaircutInitializedEvent {
                            market: market_key,
                            h_min_slots,
                            h_max_slots,
                            initial_residual_quote_lots,
                        },
                    ),
                ),
            }
        }),
{
    if market.authority != authority {
        return Err(FlashBookError::Unauthorized);
    }
    match window {
        Ok(_) => {},
        Err(e) => {
            return Err(map_haircut_error(e));
        },
    }
    Ok(
        (
            MarketHaircutStateAccount {
                market: market_key,
                bump,
                residual_quote_lots: initial_residual_quote_lots,
                matured_pos_total_quote_lots: 0,
                realized_loss_total_quote_lots: 0,
                dust_accrued_quote_lots: 0,
                h_min_slots,
                h_max_slots,
                h_scaled_cached: h_one,
                h_cached_at_slot: slot,
            },
            HaircutInitializedEvent {
                market: market_key,
                h_min_slots,
                h_max_slots,
                initial_residual_quote_lots,
            },
        ),
    )
}

/// A position's haircut state with the market's.
#[derive(Clone, Copy, Debug, PartialEq, Eq, Structural)]
pub struct HaircutAccounts {
    pub haircut_state: MarketHaircutStateAccount,
    pub position_key: Pubkey,
    pub position_market: Pubkey,
    pub position_haircut: PositionHaircutStateAccount,
}

/// The accounts belong to each other.
pub open spec fn haircut_matches(a: HaircutAccounts) -> bool {
    &&& a.position_market == a.haircut_state.market
    &&& a.position_haircut.market == a.haircut_state.market
    &&& a.position_haircut.position == a.position_key
}

/// Tests whether the accounts belong to each other.
pub fn check_haircut_matches(a: &HaircutAccounts) -> (r: bool)
    ensures
        r == haircut_matches(*a),
{
    a.position_market == a.haircut_state.market && a.position_haircut.market
        == a.haircut_state.market && a.position_haircut.position == a.position_key
}

/// The part of a position's haircut state that the haircut arithmetic moves.
pub open spec fn haircut_snapshot(p: PositionHaircutStateAccount) -> PositionHaircutSnapshot {
    PositionHaircutSnapshot {
        released_reserve_quote_lots: p.released_reserve_quote_lots,
        released_attached_at_slot: p.released_attached_at_slot,
        matured_pos_quote_lots: p.matured_pos_quote_lots,
        original_reserve_at_attach: p.original_reserve_at_attach,
    }
}

/// Takes the part of a position's haircut state that the haircut arithmetic moves.
pub fn snap_haircut(p: &PositionHaircutStateAccount) -> (r: PositionHaircutSnapshot)
    ensures
        r == haircut_snapshot(*p),
{
    PositionHaircutSnapshot {
        released_reserve_quote_lots: p.released_reserve_quote_lots,
        released_attached_at_slot: p.released_attached_at_slot,
        matured_pos_quote_lots: p.matured_pos_quote_lots,
        original_reserve_at_attach: p.original_reserve_at_attach,
    }
}

/// A position's haircut state with that part replaced.
pub open spec fn haircut_restored(p: PositionHaircutStateAccount, s: PositionHaircutSnapshot) -> PositionHaircutStateAccount {
    PositionHaircutStateAccount {
        released_reserve_quote_lots: s.released_reserve_quote_lots,
        released_attached_at_slot: s.released_attached_at_slot,
        matured_pos_quote_lots: s.matured_pos_quote_lots,
        original_reserve_at_attach: s.original_reserve_at_attach,
        ..p
    }
}

/// Replaces that part.
pub fn restore_haircut(p: &mut PositionHaircutStateAccount, s: PositionHaircutSnapshot)
    ensures
        *final(p) == haircut_restored(*old(p), s),
{
    p.released_reserve_quote_lots = s.released_reserve_quote_lots;
    p.released_attached_at_slot = s.released_attached_at_slot;
    p.matured_pos_quote_lots = s.matured_pos_quote_lots;
    p.original_reserve_at_attach = s.original_reserve_at_attach;
}

/// Why nothing can mature, if nothing can.
pub open spec fn mature_refusal(
    a: HaircutAccounts,
    step: Result<(PositionHaircutSnapshot, u64), HaircutError>,
) -> Option<FlashBookError> {
    if !haircut_matches(a) {
        Some(FlashBookError::HaircutStateMismatch)
    } else {
        match step {
            Err(e) => Some(haircut_refusal(e)),
            Ok((_, delta)) => if delta == 0 {
                Some(FlashBookError::HaircutNothingToMature)
            } else if a.haircut_state.matured_pos_total_quote_lots + delta > u128::MAX {
                Some(FlashBookError::ArithmeticOverflow)
            } else {
                None
            },
        }
    }
}

/// Lets a position's gains mature: anyone may. `step` is what the haircut arithmetic
/// makes of [`snap_haircut`] at the current slot: the new state, and how much has
/// matured. On refusal nothing changes.
pub fn mature_position(
    ctx: &mut HaircutAccounts,
    step: Result<(PositionHaircutSnapshot, u64), HaircutError>,
) -> (r: Result<PositionMaturedEvent, FlashBookError>)
    ensures
        match mature_refusal(*old(ctx), step) {
            Some(e) => r == Err::<PositionMaturedEvent, FlashBookError>(e) && *final(ctx) == *old(
                ctx,
            ),
            None => {
                let s = (step->Ok_0).0;
                let delta = (step->Ok_0).1;
                &&& *final(ctx) == (HaircutAccounts {
                    haircut_state: MarketHaircutStateAccount {
                        matured_pos_total_quote_lots: (old(
                            ctx,
                        ).haircut_state.matured_pos_total_quote_lots + delta) as u128,
                        ..old(ctx).haircut_state
                    },
                    position_haircut: haircut_restored(old(ctx).position_haircut, s),
                    ..*old(ctx)
                })
                &&& r == Ok::<PositionMaturedEvent, FlashBookError>(
                    PositionMaturedEvent {
                        market: old(ctx).haircut_state.market,
                        position: old(ctx).position_key,
                        matured_delta: delta,
                        matured_pos_after: s.matured_pos_quote_lots,
                    },
                )
            },
        },
{
    if !check_haircut_matches(ctx) {
        return Err(FlashBookError::HaircutStateMismatch);
    }
    let (s, delta): (PositionHaircutSnapshot, u64) = match step {
        Ok(v) => v,
        Err(e) => {
            return Err(map_haircut_error(e));
        },
    };
    if delta == 0 {
        return Err(FlashBookError::HaircutNothingToMature);
    }
    let total: u128 = match ctx.haircut_state.matured_pos_total_quote_lots.checked_add(
        delta as u128,
    ) {
        Some(n) => n,
        None => {
            return Err(FlashBookError::ArithmeticOverflow);
        },
    };
    restore_haircut(&mut ctx.position_haircut, s);
    ctx.haircut_state.matured_pos_total_quote_lots = total;
    Ok(
        PositionMaturedEvent {
            market: ctx.haircut_state.market,
            position: ctx.position_haircut.position,
            matured_delta: delta,
            matured_pos_after: s.matured_pos_quote_lots,
        },
    )
}

/// What the haircut arithmetic makes of a conversion.
#[derive(Clone, Copy, Debug, PartialEq, Eq, Structural)]
pub struct Conversion {
    /// What a unit of matured gains is worth.
    pub h_scaled: u128,
    /// Matured gains that are left.
    pub matured_after: u64,
    pub credit: u64,
    pub dust: u64,
}

/// Why matured gains cannot be converted, if they cannot.
pub open spec fn convert_refusal(a: HaircutAccounts, v: Conversion) -> Option<FlashBookError> {
    let matured = a.position_haircut.matured_pos_quote_lots;
    if !haircut_matches(a) {
        Some(FlashBookError::HaircutStateMismatch)
    } else if matured == 0 {
        Some(FlashBookError::HaircutNothingToConvert)
    } else if a.haircut_state.matured_pos_total_quote_lots < matured {
        Some(FlashBookError::HaircutResidualUnderflow)
    } else if a.haircut_state.dust_accrued_quote_lots + v.dust > u128::MAX {
        Some(FlashBookError::ArithmeticOverflow)
    } else if a.haircut_state.residual_quote_lots < v.credit {
        Some(FlashBookError::HaircutResidualUnderflow)
    } else {
        None
    }
}

/// The accounts after a conversion: the credit comes out of the residual.
pub open spec fn converted(a: HaircutAccounts, v: Conversion, slot: u64) -> HaircutAccounts {
    let st = a.haircut_state;
    HaircutAccounts {
        haircut_state: MarketHaircutStateAccount {
            matured_pos_total_quote_lots: (st.matured_pos_total_quote_lots
                - a.position_haircut.matured_pos_quote_lots) as u128,
            dust_accrued_quote_lots: (st.dust_accrued_quote_lots + v.dust) as u128,
            residual_quote_lots: (st.residual_quote_lots - v.credit) as u128,
            h_scaled_cached: sat_u64(v.h_scaled as int) as u64,
            h_cached_at_slot: slot,
            ..st
        },
        position_haircut: PositionHaircutStateAccount {
            matured_pos_quote_lots: v.matured_after,
            ..a.position_haircut
        },
        ..a
    }
}

/// Converts a position's matured gains: anyone may. `v` is what the haircut
/// arithmetic makes of them at the market's current haircut. On refusal nothing
/// changes.
pub fn convert_position(ctx: &mut HaircutAccounts, v: Conversion, slot: u64) -> (r: Result<
    PositionConvertedEvent,
    FlashBookError,
>)
    ensures
        match convert_refusal(*old(ctx), v) {
            Some(e) => r == Err::<PositionConvertedEvent, FlashBookError>(e) && *final(ctx) == *old(
                ctx,
            ),
            None => {
                &&& *final(ctx) == converted(*old(ctx), v, slot)
                &&& r == Ok::<PositionConvertedEvent, FlashBookError>(
                    PositionConvertedEvent {
                        market: old(ctx).haircut_state.market,
                        position: old(ctx).position_key,
                        credit_quote_lots: v.credit,
                        dust_quote_lots: v.dust,
                        h_scaled: v.h_scaled,
                    },
                )
            },
        },
{
    if !check_haircut_matches(ctx) {
        return Err(FlashBookError::HaircutStateMismatch);
    }
    let matured: u64 = ctx.position_haircut.matured_pos_quote_lots;
    if matured == 0 {
        return Err(FlashBookError::HaircutNothingToConvert);
    }
    let total: u128 = match ctx.haircut_state.matured_pos_total_quote_lots.checked_sub(
        matured as u128,
    ) {
        Some(n) => n,
        None => {
            return Err(FlashBookError::HaircutResidualUnderflow);
        },
    };
    let dust: u128 = match ctx.haircut_state.dust_accrued_quote_lots.checked_add(v.dust as u128) {
        Some(n) => n,
        None => {
            return Err(FlashBookError::ArithmeticOverflow);
        },
    };
    let residual: u128 = match ctx.haircut_state.residual_quote_lots.checked_sub(
        v.credit as u128,
    ) {
        Some(n) => n,
        None => {
            return Err(FlashBookError::HaircutResidualUnderflow);
        },
    };
    ctx.position_haircut.matured_pos_quote_lots = v.matured_after;
    ctx.haircut_state.matured_pos_total_quote_lots = total;
    ctx.haircut_state.dust_accrued_quote_lots = dust;
    ctx.haircut_state.residual_quote_lots = residual;
    ctx.haircut_state.h_scaled_cached = clamp_u128_to_u64(v.h_scaled);
    ctx.haircut_state.h_cached_at_slot = slot;
    Ok(
        PositionConvertedEvent {
            market: ctx.haircut_state.market,
            position: ctx.position_haircut.position,
            credit_quote_lots: v.credit,
            dust_quote_lots: v.dust,
            h_scaled: v.h_scaled,
        },
    )
}

/// What a conversion credits comes out of the residual, to the unit; so the residual
/// bounds all that is ever credited.
pub proof fn law_conversion_is_backed(a: HaircutAccounts, v: Conversion, slot: u64)
    requires
        convert_refusal(a, v) is None,
    ensures
        converted(a, v, slot).haircut_state.residual_quote_lots + v.credit
            == a.haircut_state.residual_quote_lots,
{
}

/// Why the dust cannot be moved, if it cannot.
pub open spec fn flush_refusal(st: MarketHaircutStateAccount, f: InsuranceFundAccount) -> Option<
    FlashBookError,
> {
    let moved = sat_u64(st.dust_accrued_quote_lots as int);
    if moved == 0 {
        Some(FlashBookError::HaircutNothingToConvert)
    } else if f.balance_quote_lots + moved > u64::MAX || f.total_contributions + moved > u64::MAX {
        Some(FlashBookError::ArithmeticOverflow)
    } else {
        None
    }
}

/// Moves the dust of a market to the insurance fund: anyone may. On refusal nothing
/// changes.
pub fn flush_haircut_dust(st: &mut MarketHaircutStateAccount, fund: &mut InsuranceFundAccount) -> (r:
    Result<HaircutDustFlushedEvent, FlashBookError>)
    ensures
        match flush_refusal(*old(st), *old(fund)) {
            Some(e) => r == Err::<HaircutDustFlushedEvent, FlashBookError>(e) && *final(st) == *old(
                st,
            ) && *final(fund) == *old(fund),
            None => {
                let moved = sat_u64(old(st).dust_accrued_quote_lots as int);
                &&& *final(st) == (MarketHaircutStateAccount {
                    dust_accrued_quote_lots: (old(st).dust_accrued_quote_lots - moved) as u128,
                    ..*old(st)
                })
                &&& *final(fund) == (InsuranceFundAccount {
                    balance_quote_lots: (old(fund).balance_quote_lots + moved) as u64,
                    total_contributions: (old(fund).total_contributions + moved) as u64,
                    ..*old(fund)
                })
                &&& r == Ok::<HaircutDustFlushedEvent, FlashBookError>(
                    HaircutDustFlushedEvent {
                        market: old(st).market,
                        dust_quote_lots: moved as u64,
                        insurance_balance_after: final(fund).balance_quote_lots,
                    },
                )
            },
        },
{
    let dust: u128 = st.dust_accrued_quote_lots;
    if dust == 0 {
        return Err(FlashBookError::HaircutNothingToConvert);
    }
    let moved: u64 = clamp_u128_to_u64(dust);
    let balance: u64 = match fund.balance_quote_lots.checked_add(moved) {
        Some(n) => n,
        None => {
            return Err(FlashBookError::ArithmeticOverflow);
        },
    };
    let total: u64 = match fund.total_contributions.checked_add(moved) {
        Some(n) => n,
        None => {
            return Err(FlashBookError::ArithmeticOverflow);
        },
    };
    fund.balance_quote_lots = balance;
    fund.total_contributions = total;
    st.dust_accrued_quote_lots = dust - moved as u128;
    Ok(
        HaircutDustFlushedEvent {
            market: st.market,
            dust_quote_lots: moved,
            insurance_balance_after: balance,
        },
    )
}

/// Sets up the haircut state of a position, without any gains.
pub fn init_position_haircut_state(position_key: Pubkey, position: &PositionAccount, bump: u8) -> (r: (
    PositionHaircutStateAccount,
    PositionHaircutInitializedEvent,
))
    ensures
        r == (
            PositionHaircutStateAccount {
                market: position.market,
                position: position_key,
                bump,
                released_reserve_quote_lots: 0,
                released_attached_at_slot: 0,
                matured_pos_quote_lots: 0,
                original_reserve_at_attach: 0,
            },
            PositionHaircutInitializedEvent { market: position.market, position: position_key },
        ),
{
    (
        PositionHaircutStateAccount {
            market: position.market,
            position: position_key,
            bump,
            released_reserve_quote_lots: 0,
            released_attached_at_slot: 0,
            matured_pos_quote_lots: 0,
            original_reserve_at_attach: 0,
        },
        PositionHaircutInitializedEvent { market: position.market, position: position_key },
    )
}

/// The accounts of a release of collateral into the haircut reserve.
#[derive(Clone, Copy, Debug, PartialEq, Eq, Structural)]
pub struct ReleaseGainToHaircut {
    pub authority: Pubkey,
    pub market_key: Pubkey,
    pub market: MarketAccount,
    pub position_key: Pubkey,
    pub position: PositionAccount,
    pub trader_state: TraderStateAccount,
    pub haircut_market: Pubkey,
    pub position_haircut: PositionHaircutStateAccount,
}

/// Why collateral cannot be released, if it cannot.
pub open spec fn release_refusal(a: ReleaseGainToHaircut, gain: u64, release: Release) -> Option<
    FlashBookError,
> {
    let bucket = if is_isolated(a.position) {
        a.position.collateral_quote_lots
    } else {
        a.trader_state.collateral_quote_lots
    };
    if a.position.market != a.market_key {
        Some(FlashBookError::HaircutStateMismatch)
    } else if a.trader_state.trader != a.position.trader {
        Some(FlashBookError::WrongTrader)
    } else if a.position_haircut.market != a.market_key || a.position_haircut.position
        != a.position_key {
        Some(FlashBookError::HaircutStateMismatch)
    } else if gain == 0 {
        Some(FlashBookError::HaircutZeroGain)
    } else if a.market.authority != a.authority {
        Some(FlashBookError::Unauthorized)
    } else if bucket < gain {
        Some(FlashBookError::InsufficientCollateral)
    } else {
        match release {
            Err(e) => Some(haircut_refusal(e)),
            Ok(_) => None,
        }
    }
}

/// The accounts after a release: the bucket that backs the position gives the
/// collateral up.
pub open spec fn released(a: ReleaseGainToHaircut, gain: u64, s: PositionHaircutSnapshot) -> ReleaseGainToHaircut {
    let iso = is_isolated(a.position);
    ReleaseGainToHaircut {
        position: PositionAccount {
            collateral_quote_lots: if iso {
                (a.position.collateral_quote_lots - gain) as u64
            } else {
                a.position.collateral_quote_lots
            },
            ..a.position
        },
        trader_state: TraderStateAccount {
            collateral_quote_lots: if iso {
                a.trader_state.collateral_quote_lots
            } else {
                (a.trader_state.collateral_quote_lots - gain) as u64
            },
            ..a.trader_state
        },
        position_haircut: haircut_restored(a.position_haircut, s),
        ..a
    }
}

/// Moves collateral of a position into its haircut reserve. Only the market's
/// authority may. `release` is what the haircut arithmetic makes of
/// [`snap_haircut`] with that gain at the current slot. On refusal nothing changes.
pub fn release_gain_to_haircut(ctx: &mut ReleaseGainToHaircut, gain_quote_lots: u64, release: Release) -> (r:
    Result<GainReleasedToHaircutEvent, FlashBookError>)
    ensures
        match release_refusal(*old(ctx), gain_quote_lots, release) {
            Some(e) => r == Err::<GainReleasedToHaircutEvent, FlashBookError>(e) && *final(ctx)
                == *old(ctx),
            None => {
                &&& *final(ctx) == released(*old(ctx), gain_quote_lots, release->Ok_0)
                &&& r == Ok::<GainReleasedToHaircutEvent, FlashBookError>(
                    GainReleasedToHaircutEvent {
                        market: old(ctx).haircut_market,
                        position: old(ctx).position_key,
                        gain_quote_lots,
                        reserve_after: (release->Ok_0).released_reserve_quote_lots,
                        isolated: is_isolated(old(ctx).position),
                    },
                )
            },
        },
{
    if ctx.position.market != ctx.market_key {
        return Err(FlashBookError::HaircutStateMismatch);
    }
    if ctx.trader_state.trader != ctx.position.trader {
        return Err(FlashBookError::WrongTrader);
    }
    if ctx.position_haircut.market != ctx.market_key || ctx.position_haircut.position
        != ctx.position_key {
        return Err(FlashBookError::HaircutStateMismatch);
    }
    if gain_quote_lots == 0 {
        return Err(FlashBookError::HaircutZeroGain);
    }
    if ctx.market.authority != ctx.authority {
        return Err(FlashBookError::Unauthorized);
    }
    let isolated: bool = ctx.position.collateral_quote_lots > 0;
    let bucket: u64 = if isolated {
        ctx.position.collateral_quote_lots
    } else {
        ctx.trader_state.collateral_quote_lots
    };
    let left: u64 = match bucket.checked_sub(gain_quote_lots) {
        Some(n) => n,
        None => {
            return Err(FlashBookError::InsufficientCollateral);
        },
    };
    let s = match release {
        Ok(s) => s,
        Err(e) => {
            return Err(map_haircut_error(e));
        },
    };
    if isolated {
        ctx.position.collateral_quote_lots = left;
    } else {
        ctx.trader_state.collateral_quote_lots = left;
    }
    restore_haircut(&mut ctx.position_haircut, s);
    Ok(
        GainReleasedToHaircutEvent {
            market: ctx.haircut_market,
            position: ctx.position_haircut.position,
            gain_quote_lots,
            reserve_after: s.released_reserve_quote_lots,
            isolated,
        },
    )
}

/// Why the residual cannot be changed, if it cannot.
pub open spec fn seed_refusal(
    market_key: Pubkey,
    m: MarketAccount,
    st: MarketHaircutStateAccount,
    signer: Pubkey,
    delta: i128,
) -> Option<FlashBookError> {
    let residual = st.residual_quote_lots + delta;
    if st.market != market_key {
        Some(FlashBookError::HaircutStateMismatch)
    } else if m.authority != signer {
        Some(FlashBookError::Unauthorized)
    } else if residual > u128::MAX {
        Some(FlashBookError::ArithmeticOverflow)
    } else if residual < 0 {
        Some(FlashBookError::ArithmeticUnderflow)
    } else {
        None
    }
}

/// Adds to a residual, or takes from it.
pub fn apply_residual_delta(residual: u128, delta: i128) -> (r: Result<u128, HaircutError>)
    ensures
        r == (if residual + delta > u128::MAX {
            Err::<u128, HaircutError>(HaircutError::Overflow)
        } else if residual + delta < 0 {
            Err(HaircutError::Underflow)
        } else {
            Ok((residual + delta) as u128)
        }),
{
    if delta >= 0 {
        match residual.checked_add(delta as u128) {
            Some(n) => Ok(n),
            None => Err(HaircutError::Overflow),
        }
    } else {
        let less: u128 = if delta == i128::MIN {
            0x8000_0000_0000_0000_0000_0000_0000_0000u128
        } else {
            (-delta) as u128
        };
        match residual.checked_sub(less) {
            Some(n) => Ok(n),
            None => Err(HaircutError::Underflow),
        }
    }
}

/// Changes the residual of a market. Only its authority may. On refusal nothing
/// changes.
pub fn seed_residual(
    market_key: Pubkey,
    market: &MarketAccount,
    st: &mut MarketHaircutStateAccount,
    authority: Pubkey,
    delta: i128,
) -> (r: Result<ResidualSeededEvent, FlashBookError>)
    ensures
        match seed_refusal(market_key, *market, *old(st), authority, delta) {
            Some(e) => r == Err::<ResidualSeededEvent, FlashBookError>(e) && *final(st) == *old(st),
            None => {
                let new_residual = (old(st).residual_quote_lots + delta) as u128;
                &&& *final(st) == (MarketHaircutStateAccount {
                    residual_quote_lots: new_residual,
                    ..*old(st)
                })
                &&& r == Ok::<ResidualSeededEvent, FlashBookError>(
                    ResidualSeededEvent { market: market_key, delta, new_residual },
                )
            },
        },
{
    if st.market != market_key {
        return Err(FlashBookError::HaircutStateMismatch);
    }
    if market.authority != authority {
        return Err(FlashBookError::Unauthorized);
    }
    let new_residual: u128 = match apply_residual_delta(st.residual_quote_lots, delta) {
        Ok(n) => n,
        Err(e) => {
            return Err(map_haircut_error(e));
        },
    };
    st.residual_quote_lots = new_residual;
    Ok(ResidualSeededEvent { market: st.market, delta, new_residual })
}

/// What the haircut arithmetic finds when it checks a market's state.
#[derive(Clone, Copy, Debug, PartialEq, Eq, Structural)]
pub struct HaircutReport {
    pub all_ok: bool,
    pub bitmask: u8,
}

/// Reports on a market's haircut state: anyone may ask.
pub fn verify_haircut_invariants(st: &MarketHaircutStateAccount, report: HaircutReport) -> (r:
    HaircutInvariantsCheckedEvent)
    ensures
        r == (HaircutInvariantsCheckedEvent {
            market: st.market,
            passed: report.all_ok,
            bitmask: report.bitmask,
            residual_quote_lots: st.residual_quote_lots,
            matured_pos_total_quote_lots: st.matured_pos_total_quote_lots,
            dust_accrued_quote_lots: st.dust_accrued_quote_lots,
            h_scaled_cached: st.h_scaled_cached,
        }),
{
    HaircutInvariantsCheckedEvent {
        market: st.market,
        passed: report.all_ok,
        bitmask: report.bitmask,
        residual_quote_lots: st.residual_quote_lots,
        matured_pos_total_quote_lots: st.matured_pos_total_quote_lots,
        dust_accrued_quote_lots: st.dust_accrued_quote_lots,
        h_scaled_cached: st.h_scaled_cached,
    }
}

/// Checks that the vault holds what the insurance fund and the pool claim: anyone
/// may ask. An insolvent protocol is an error.
pub fn verify_protocol_solvency(vault_amount: u64, fund: &InsuranceFundAccount, flp_capital: u64) -> (r:
    Result<ProtocolSolvencyCheckedEvent, FlashBookError>)
    ensures
        ({
            let required = fund.balance_quote_lots + flp_capital;
            r == (if required > u64::MAX {
                Err::<ProtocolSolvencyCheckedEvent, FlashBookError>(
                    FlashBookError::ArithmeticOverflow,
                )
            } else if vault_amount < required {
                Err(FlashBookError::HaircutResidualUnderflow)
            } else {
                Ok(
                    ProtocolSolvencyCheckedEvent {
                        vault_quote_lots: vault_amount,
                        insurance_quote_lots: fund.balance_quote_lots,
                        flp_capital_quote_lots: flp_capital,
                        minimum_required_quote_lots: required as u64,
                        surplus_quote_lots: (vault_amount - required) as u64,
                        solvent: true,
                    },
                )
            })
        }),
{
    let required: u64 = match fund.balance_quote_lots.checked_add(flp_capital) {
        Some(n) => n,
        None => {
            return Err(FlashBookError::ArithmeticOverflow);
        },
    };
    if vault_amount < required {
        return Err(FlashBookError::HaircutResidualUnderflow);
    }
    Ok(
        ProtocolSolvencyCheckedEvent {
            vault_quote_lots: vault_amount,
            insurance_quote_lots: fund.balance_quote_lots,
            flp_capital_quote_lots: flp_capital,
            minimum_required_quote_lots: required,
            surplus_quote_lots: vault_amount - required,
            solvent: true,
        },
    )
}

} // verus!
