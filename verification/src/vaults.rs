//! Vaults: shares in the collateral that a strategist trades with.
use vstd::prelude::*;

use crate::constants::{BPS_DENOM, USD_UNIT};
use crate::errors::FlashBookError;
use crate::events::VaultPerfFeeSettledEvent;
use crate::fees::{sat_bps_of, saturating_bps_of};
use crate::keys::Pubkey;
use crate::math::{clamp_u128_to_u64, max_int, sat_u128, sat_u64, saturating_mul_u128, unix_seconds};
use crate::state::{TraderStateAccount, VaultAccount, VaultPositionAccount};

verus! {

/// Net value per share in millionths, at most `u64::MAX`.
pub open spec fn nav_per_share(nav: u64, shares: u64) -> u64 {
    sat_u64(nav * USD_UNIT / (shares as int)) as u64
}

/// Computes the net value per share.
pub fn compute_nav_per_share(nav: u64, shares: u64) -> (r: u64)
    requires
        shares > 0,
    ensures
        r == nav_per_share(nav, shares),
{
    assert(0 <= nav * USD_UNIT <= u64::MAX * 1_000_000) by (nonlinear_arith)
        requires
            0 <= nav <= u64::MAX,
            USD_UNIT == 1_000_000,
    ;
    let scaled: u128 = (nav as u128) * (USD_UNIT as u128);
    proof {
        assert(scaled as int / shares as int >= 0) by (nonlinear_arith)
            requires
                scaled >= 0,
                shares > 0,
        ;
    }
    clamp_u128_to_u64(scaled / (shares as u128))
}

/// The shares that a strategist earns when the value per share has risen from
/// `hwm`: the fee on the gain, at the value before the shares are issued.
pub open spec fn performance_shares(nav: u64, shares: u64, hwm: u64, fee_bps: u32) -> u64 {
    let gain_per_share = nav_per_share(nav, shares) - hwm;
    let gain = gain_per_share * shares / (USD_UNIT as int);
    let fee = sat_bps_of(gain, fee_bps as int);
    sat_u64(sat_u128(fee * shares) / (nav as int)) as u64
}

/// Computes the shares that a strategist earns.
pub fn compute_performance_shares(nav: u64, shares: u64, hwm: u64, fee_bps: u32) -> (r: u64)
    requires
        nav > 0,
        shares > 0,
        nav_per_share(nav, shares) > hwm,
    ensures
        r == performance_shares(nav, shares, hwm, fee_bps),
{
    let per_share: u64 = compute_nav_per_share(nav, shares) - hwm;
    assert(0 <= per_share * shares <= u64::MAX * u64::MAX) by (nonlinear_arith)
        requires
            0 <= per_share <= u64::MAX,
            0 <= shares <= u64::MAX,
    ;
    let gain: u128 = (per_share as u128) * (shares as u128) / (USD_UNIT as u128);
    let fee: u128 = saturating_bps_of(gain, fee_bps as u128);
    let scaled: u128 = saturating_mul_u128(fee, shares as u128);
    proof {
        assert(scaled as int / nav as int >= 0) by (nonlinear_arith)
            requires
                scaled >= 0,
                nav > 0,
        ;
    }
    clamp_u128_to_u64(scaled / (nav as u128))
}

/// Paying the strategist, at a rate of no more than the whole gain, does not bring
/// the value per share below what it was at the last settlement.
pub proof fn law_performance_fee_keeps_high_water_mark(
    nav: u64,
    shares: u64,
    hwm: u64,
    fee_bps: u32,
)
    requires
        nav > 0,
        shares > 0,
        nav_per_share(nav, shares) > hwm,
        fee_bps <= BPS_DENOM,
        shares + performance_shares(nav, shares, hwm, fee_bps) <= u64::MAX,
    ensures
        nav_per_share(
            nav,
            (shares + performance_shares(nav, shares, hwm, fee_bps)) as u64,
        ) >= hwm,
{
    let n = nav as int;
    let s = shares as int;
    let h = hwm as int;
    let unit = USD_UNIT as int;
    let p = nav_per_share(nav, shares) as int;
    let g = p - h;
    let gain = g * s / unit;
    let fee = sat_bps_of(gain, fee_bps as int);
    let m = performance_shares(nav, shares, hwm, fee_bps) as int;
    let scaled = n * unit;
    assert(p * s <= scaled) by (nonlinear_arith)
        requires
            p <= scaled / s,
            s > 0,
    ;
    assert(gain * unit <= g * s && gain >= 0) by (nonlinear_arith)
        requires
            gain == g * s / unit,
            unit == 1_000_000,
            g >= 0,
            s >= 0,
    ;
    let b = fee_bps as int;
    assert(0 <= gain * b <= gain * 10_000) by (nonlinear_arith)
        requires
            0 <= b <= 10_000,
            gain >= 0,
    ;
    assert(0 <= fee <= gain);
    let fs = fee * s;
    assert(fs >= 0) by (nonlinear_arith)
        requires
            fee >= 0,
            s >= 0,
            fs == fee * s,
    ;
    let issued = sat_u128(fs) / n;
    assert(0 <= issued && issued * n <= fs) by (nonlinear_arith)
        requires
            issued == sat_u128(fs) / n,
            0 <= sat_u128(fs) <= fs,
            n > 0,
    ;
    assert(0 <= m <= issued);
    assert(m * n <= fs) by (nonlinear_arith)
        requires
            0 <= m <= issued,
            issued * n <= fs,
            n > 0,
    ;
    assert(m * scaled <= g * s * s) by (nonlinear_arith)
        requires
            m * n <= fs,
            fs == fee * s,
            fee <= gain,
            gain * unit <= g * s,
            scaled == n * unit,
            unit == 1_000_000,
            s > 0,
            gain >= 0,
            g >= 0,
    ;
    assert(m * p <= g * s) by (nonlinear_arith)
        requires
            m * scaled <= g * s * s,
            p * s <= scaled,
            m >= 0,
            s > 0,
    ;
    assert(h * (s + m) <= scaled) by (nonlinear_arith)
        requires
            m * p <= g * s,
            h <= p,
            m >= 0,
            p == g + h,
            p * s <= scaled,
    ;
    assert(scaled / (s + m) >= h) by (nonlinear_arith)
        requires
            h * (s + m) <= scaled,
            s + m > 0,
    ;
}

/// The accounts of a settlement of a first-generation vault.
#[derive(Clone, Copy, Debug, PartialEq, Eq, Structural)]
pub struct SettleVaultPerfFee {
    pub strategist: Pubkey,
    pub vault_key: Pubkey,
    pub vault: VaultAccount,
    pub vault_trader_state_key: Pubkey,
    pub vault_trader_state: TraderStateAccount,
    pub strategist_position: VaultPositionAccount,
    /// Bump of the strategist's holding, for the case that it is new.
    pub position_bump: u8,
}

/// What a settlement comes to: a new high-water mark alone, or shares.
pub open spec fn perf_shares_due(nav: u64, shares: u64, hwm: u64, fee_bps: u32) -> u64 {
    if shares == 0 || hwm == 0 || nav_per_share(nav, shares) <= hwm {
        0
    } else {
        performance_shares(nav, shares, hwm, fee_bps)
    }
}

/// Why a settlement is refused, if it is. The vault has to be flat.
pub open spec fn perf_fee_refusal(a: SettleVaultPerfFee) -> Option<FlashBookError> {
    let due = perf_shares_due(
        a.vault_trader_state.collateral_quote_lots,
        a.vault.shares_outstanding,
        a.vault.hwm_nav_per_share_u64x6,
        a.vault.perf_fee_bps,
    );
    if a.vault.strategist != a.strategist {
        Some(FlashBookError::Unauthorized)
    } else if a.vault_trader_state_key != a.vault.trader_state {
        Some(FlashBookError::OutOfRange)
    } else if a.vault_trader_state.open_positions != 0 {
        Some(FlashBookError::SweepRequiresFlat)
    } else if a.strategist_position.shares + due > u64::MAX || a.vault.shares_outstanding + due
        > u64::MAX {
        Some(FlashBookError::ArithmeticOverflow)
    } else {
        None
    }
}

/// The accounts after a settlement: the shares that are due were issued, and the
/// high-water mark stands at the value per share that resulted. Without shares it
/// stands at one.
pub open spec fn perf_fee_settled(a: SettleVaultPerfFee, now: u64) -> SettleVaultPerfFee {
    let nav = a.vault_trader_state.collateral_quote_lots;
    let shares = a.vault.shares_outstanding;
    let due = perf_shares_due(nav, shares, a.vault.hwm_nav_per_share_u64x6, a.vault.perf_fee_bps);
    let after = (shares + due) as u64;
    let p = a.strategist_position;
    SettleVaultPerfFee {
        vault: VaultAccount {
            shares_outstanding: after,
            total_perf_shares_minted: sat_u64(a.vault.total_perf_shares_minted + due) as u64,
            hwm_nav_per_share_u64x6: if shares == 0 {
                USD_UNIT
            } else {
                nav_per_share(nav, after)
            },
            last_perf_settlement_unix: now,
            ..a.vault
        },
        strategist_position: if due == 0 {
            p
        } else if p.depositor == Pubkey::none() {
            VaultPositionAccount {
                vault: a.vault_key,
                depositor: a.strategist,
                bump: a.position_bump,
                shares: (p.shares + due) as u64,
            }
        } else {
            VaultPositionAccount { shares: (p.shares + due) as u64, ..p }
        },
        ..a
    }
}

/// Settles the strategist's performance fee. Without a gain over the high-water
/// mark, or without a mark, only the mark is set and nothing is reported. On
/// refusal nothing changes.
pub fn settle_vault_perf_fee(ctx: &mut SettleVaultPerfFee, unix_now: i64) -> (r: Result<
    Option<VaultPerfFeeSettledEvent>,
    FlashBookError,
>)
    ensures
        match perf_fee_refusal(*old(ctx)) {
            Some(e) => r == Err::<Option<VaultPerfFeeSettledEvent>, FlashBookError>(e)
                && *final(ctx) == *old(ctx),
            None => {
                let due = perf_shares_due(
                    old(ctx).vault_trader_state.collateral_quote_lots,
                    old(ctx).vault.shares_outstanding,
                    old(ctx).vault.hwm_nav_per_share_u64x6,
                    old(ctx).vault.perf_fee_bps,
                );
                &&& *final(ctx) == perf_fee_settled(*old(ctx), max_int(unix_now as int, 0) as u64)
                &&& r == Ok::<Option<VaultPerfFeeSettledEvent>, FlashBookError>(
                    if due == 0 {
                        None
                    } else {
                        Some(
                            VaultPerfFeeSettledEvent {
                                vault: old(ctx).vault_key,
                                strategist: old(ctx).strategist,
                                shares_minted: due,
                                new_hwm_per_share_u64x6: final(ctx).vault.hwm_nav_per_share_u64x6,
                            },
                        )
                    },
                )
            },
        },
{
    if ctx.vault.strategist != ctx.strategist {
        return Err(FlashBookError::Unauthorized);
    }
    if ctx.vault_trader_state_key != ctx.vault.trader_state {
        return Err(FlashBookError::OutOfRange);
    }
    if ctx.vault_trader_state.open_positions != 0 {
        return Err(FlashBookError::SweepRequiresFlat);
    }
    let now: u64 = unix_seconds(unix_now);
    let nav: u64 = ctx.vault_trader_state.collateral_quote_lots;
    let shares: u64 = ctx.vault.shares_outstanding;
    if shares == 0 {
        ctx.vault.hwm_nav_per_share_u64x6 = USD_UNIT;
        ctx.vault.last_perf_settlement_unix = now;
        return Ok(None);
    }
    let due: u64 = compute_shares_due(
        nav,
        shares,
        ctx.vault.hwm_nav_per_share_u64x6,
        ctx.vault.perf_fee_bps,
    );
    if due == 0 {
        ctx.vault.hwm_nav_per_share_u64x6 = compute_nav_per_share(nav, shares);
        ctx.vault.last_perf_settlement_unix = now;
        return Ok(None);
    }
    let held: u64 = match ctx.strategist_position.shares.checked_add(due) {
        Some(n) => n,
        None => {
            return Err(FlashBookError::ArithmeticOverflow);
        },
    };
    let after: u64 = match shares.checked_add(due) {
        Some(n) => n,
        None => {
            return Err(FlashBookError::ArithmeticOverflow);
        },
    };
    if ctx.strategist_position.depositor.is_default() {
        ctx.strategist_position.depositor = ctx.strategist;
        ctx.strategist_position.vault = ctx.vault_key;
        ctx.strategist_position.bump = ctx.position_bump;
    }
    ctx.strategist_position.shares = held;
    ctx.vault.shares_outstanding = after;
    ctx.vault.total_perf_shares_minted = ctx.vault.total_perf_shares_minted.saturating_add(due);
    ctx.vault.hwm_nav_per_share_u64x6 = compute_nav_per_share(nav, after);
    ctx.vault.last_perf_settlement_unix = now;
    Ok(
        Some(
            VaultPerfFeeSettledEvent {
                vault: ctx.vault_key,
                strategist: ctx.vault.strategist,
                shares_minted: due,
                new_hwm_per_share_u64x6: ctx.vault.hwm_nav_per_share_u64x6,
            },
        ),
    )
}

/// Computes the shares that a settlement comes to.
pub fn compute_shares_due(nav: u64, shares: u64, hwm: u64, fee_bps: u32) -> (r: u64)
    ensures
        r == perf_shares_due(nav, shares, hwm, fee_bps),
{
    if shares == 0 || hwm == 0 {
        return 0;
    }
    if compute_nav_per_share(nav, shares) <= hwm {
        return 0;
    }
    if nav == 0 {
        proof {
            let zero = nav * USD_UNIT;
            assert(zero / (shares as int) == 0) by (nonlinear_arith)
                requires
                    zero == 0,
                    shares > 0,
            ;
        }
        return 0;
    }
    compute_performance_shares(nav, shares, hwm, fee_bps)
}

/// A vault without a gain issues no shares.
pub proof fn law_no_gain_no_fee(nav: u64, shares: u64, hwm: u64, fee_bps: u32)
    requires
        shares > 0,
        nav_per_share(nav, shares) <= hwm,
    ensures
        perf_shares_due(nav, shares, hwm, fee_bps) == 0,
{
}

} // verus!
