//! Current vaults: deposits, withdrawals, the strategist's orders and fee.
use vstd::prelude::*;

use crate::book::{BookModel, MarketBook, book_after_rest, find_order};
use crate::constants::USD_UNIT;
use crate::errors::FlashBookError;
use crate::events::{
    VaultDepositV3Event, VaultOrderCancelledV3Event, VaultOrderPlacedV3Event,
    VaultPerfFeeSettledV3Event, VaultTraderStateOpenedV3Event, VaultV3CreatedEvent,
    VaultWithdrawV3Event,
};
use crate::keys::Pubkey;
use crate::math::{max_int, sat_u64, unix_seconds};
use crate::orders::{
    OrderRequest, book_without, cancel_order_v2, cancel_refusal, limit_order_refusal,
    order_of_request, place_limit_order_v2,
};
use crate::state::{MarketAccount, TraderStateAccount, VaultAccountV3, VaultPositionAccountV3};
use crate::trader::{make_trader_state, new_trader_state};
use crate::vaults::{
    compute_nav_per_share, compute_shares_due, law_performance_fee_keeps_high_water_mark,
    nav_per_share, perf_shares_due,
};

verus! {

/// Largest performance fee: one half of the gain.
pub const MAX_PERF_FEE_BPS: u32 = 5_000;

/// Creates a vault without capital. `name` is shown to depositors.
pub fn create_vault_v3(
    vault_key: Pubkey,
    strategist: Pubkey,
    bump: u8,
    vault_id: u8,
    name: [u8; 32],
    perf_fee_bps: u32,
    unix_now: i64,
) -> (r: Result<(VaultAccountV3, VaultV3CreatedEvent), FlashBookError>)
    ensures
        r == (if perf_fee_bps > MAX_PERF_FEE_BPS {
            Err::<(VaultAccountV3, VaultV3CreatedEvent), FlashBookError>(FlashBookError::OutOfRange)
        } else {
            Ok(
                (
                    VaultAccountV3 {
                        strategist,
                        bump,
                        vault_id,
                        accept_deposits: 1,
                        name,
                        perf_fee_bps,
                        shares_outstanding: 0,
                        total_capital_quote_lots: 0,
                        hwm_nav_per_share_u64x6: 0,
                        last_perf_settlement_unix: max_int(unix_now as int, 0) as u64,
                        total_perf_shares_minted: 0,
                    },
                    VaultV3CreatedEvent { vault: vault_key, strategist, vault_id, perf_fee_bps },
                ),
            )
        }),
{
    if perf_fee_bps > MAX_PERF_FEE_BPS {
        return Err(FlashBookError::OutOfRange);
    }
    Ok(
        (
            VaultAccountV3 {
                strategist,
                bump,
                vault_id,
                accept_deposits: 1,
                name,
                perf_fee_bps,
                shares_outstanding: 0,
                total_capital_quote_lots: 0,
                hwm_nav_per_share_u64x6: 0,
                last_perf_settlement_unix: unix_seconds(unix_now),
                total_perf_shares_minted: 0,
            },
            VaultV3CreatedEvent { vault: vault_key, strategist, vault_id, perf_fee_bps },
        ),
    )
}

/// Opens the trader account of a vault. Only the strategist may.
pub fn vault_open_trader_state_v3(
    vault_key: Pubkey,
    vault: &VaultAccountV3,
    strategist: Pubkey,
    vault_trader_state_key: Pubkey,
    bump: u8,
    slot: u64,
) -> (r: Result<(TraderStateAccount, VaultTraderStateOpenedV3Event), FlashBookError>)
    ensures
        r == (if vault.strategist != strategist {
            Err::<(TraderStateAccount, VaultTraderStateOpenedV3Event), FlashBookError>(
                FlashBookError::Unauthorized,
            )
        } else {
            Ok(
                (
                    new_trader_state(vault_key, bump, 0, slot),
                    VaultTraderStateOpenedV3Event {
                        vault: vault_key,
                        vault_trader_state: vault_trader_state_key,
                    },
                ),
            )
        }),
{
    if vault.strategist != strategist {
        return Err(FlashBookError::Unauthorized);
    }
    Ok(
        (
            make_trader_state(vault_key, bump, 0, slot),
            VaultTraderStateOpenedV3Event {
                vault: vault_key,
                vault_trader_state: vault_trader_state_key,
            },
        ),
    )
}

/// The accounts of a deposit or a withdrawal.
#[derive(Clone, Copy, Debug)]
pub struct VaultHolding {
    pub depositor: Pubkey,
    pub vault_key: Pubkey,
    pub vault: VaultAccountV3,
    pub vault_trader_state: TraderStateAccount,
    pub position: VaultPositionAccountV3,
    /// Bump of the holding, for the case that it is new.
    pub position_bump: u8,
}

/// The shares that a deposit buys: as many as its amount in an empty vault, else in
/// proportion to the vault's value before it, rounded down.
pub open spec fn vault_shares(amount: u64, shares: u64, nav: u64) -> int {
    if shares == 0 || nav == 0 {
        amount as int
    } else {
        amount * shares / (nav as int)
    }
}

/// Computes the shares that a deposit buys, if a `u64` holds them.
pub fn compute_vault_shares(amount: u64, shares: u64, nav: u64) -> (r: Option<u64>)
    ensures
        match r {
            Some(s) => s == vault_shares(amount, shares, nav),
            None => vault_shares(amount, shares, nav) > u64::MAX,
        },
{
    if shares == 0 || nav == 0 {
        return Some(amount);
    }
    assert(0 <= amount * shares <= u64::MAX * u64::MAX) by (nonlinear_arith)
        requires
            0 <= amount <= u64::MAX,
            0 <= shares <= u64::MAX,
    ;
    let product: u128 = (amount as u128) * (shares as u128);
    let s: u128 = product / (nav as u128);
    if s > u64::MAX as u128 {
        return None;
    }
    Some(s as u64)
}

/// Why a deposit is refused, if it is.
pub open spec fn vault_deposit_refusal(a: VaultHolding, amount: u64) -> Option<FlashBookError> {
    let nav = a.vault_trader_state.collateral_quote_lots;
    let minted = vault_shares(amount, a.vault.shares_outstanding, nav);
    if amount == 0 {
        Some(FlashBookError::ZeroSize)
    } else if a.vault.accept_deposits != 1 {
        Some(FlashBookError::OutOfRange)
    } else if nav + amount > u64::MAX || minted > u64::MAX {
        Some(FlashBookError::ArithmeticOverflow)
    } else if minted == 0 {
        Some(FlashBookError::ZeroSize)
    } else if a.vault.total_capital_quote_lots + amount > u64::MAX || a.vault.shares_outstanding
        + minted > u64::MAX || a.position.shares + minted > u64::MAX
        || a.position.total_deposited_quote_lots + amount > u64::MAX {
        Some(FlashBookError::ArithmeticOverflow)
    } else {
        None
    }
}

/// The accounts after a deposit.
pub open spec fn vault_deposited(a: VaultHolding, amount: u64) -> VaultHolding {
    let nav = a.vault_trader_state.collateral_quote_lots;
    let minted = vault_shares(amount, a.vault.shares_outstanding, nav);
    let opened = if a.position.depositor == Pubkey::none() {
        VaultPositionAccountV3 {
            vault: a.vault_key,
            depositor: a.depositor,
            bump: a.position_bump,
            ..a.position
        }
    } else {
        a.position
    };
    VaultHolding {
        vault: VaultAccountV3 {
            total_capital_quote_lots: (a.vault.total_capital_quote_lots + amount) as u64,
            shares_outstanding: (a.vault.shares_outstanding + minted) as u64,
            ..a.vault
        },
        vault_trader_state: TraderStateAccount {
            collateral_quote_lots: (nav + amount) as u64,
            ..a.vault_trader_state
        },
        position: VaultPositionAccountV3 {
            shares: (a.position.shares + minted) as u64,
            total_deposited_quote_lots: (a.position.total_deposited_quote_lots + amount) as u64,
            ..opened
        },
        ..a
    }
}

/// Books a deposit; the tokens are to be collected with it. On refusal nothing
/// changes.
pub fn vault_deposit_v3(ctx: &mut VaultHolding, amount_quote_lots: u64) -> (r: Result<
    VaultDepositV3Event,
    FlashBookError,
>)
    ensures
        match vault_deposit_refusal(*old(ctx), amount_quote_lots) {
            Some(e) => r == Err::<VaultDepositV3Event, FlashBookError>(e) && *final(ctx) == *old(
                ctx,
            ),
            None => {
                &&& *final(ctx) == vault_deposited(*old(ctx), amount_quote_lots)
                &&& r == Ok::<VaultDepositV3Event, FlashBookError>(
                    VaultDepositV3Event {
                        vault: old(ctx).vault_key,
                        depositor: final(ctx).position.depositor,
                        amount_quote_lots,
                        shares_minted: vault_shares(
                            amount_quote_lots,
                            old(ctx).vault.shares_outstanding,
                            old(ctx).vault_trader_state.collateral_quote_lots,
                        ) as u64,
                        shares_outstanding_after: final(ctx).vault.shares_outstanding,
                    },
                )
            },
        },
{
    if amount_quote_lots == 0 {
        return Err(FlashBookError::ZeroSize);
    }
    if ctx.vault.accept_deposits != 1 {
        return Err(FlashBookError::OutOfRange);
    }
    let nav: u64 = ctx.vault_trader_state.collateral_quote_lots;
    let new_nav: u64 = match nav.checked_add(amount_quote_lots) {
        Some(n) => n,
        None => {
            return Err(FlashBookError::ArithmeticOverflow);
        },
    };
    let minted: u64 = match compute_vault_shares(
        amount_quote_lots,
        ctx.vault.shares_outstanding,
        nav,
    ) {
        Some(s) => s,
        None => {
            return Err(FlashBookError::ArithmeticOverflow);
        },
    };
    if minted == 0 {
        return Err(FlashBookError::ZeroSize);
    }
    let capital: Option<u64> = ctx.vault.total_capital_quote_lots.checked_add(amount_quote_lots);
    let outstanding: Option<u64> = ctx.vault.shares_outstanding.checked_add(minted);
    let held: Option<u64> = ctx.position.shares.checked_add(minted);
    let deposited: Option<u64> = ctx.position.total_deposited_quote_lots.checked_add(
        amount_quote_lots,
    );
    match (capital, outstanding, held, deposited) {
        (Some(c), Some(o), Some(h), Some(d)) => {
            ctx.vault_trader_state.collateral_quote_lots = new_nav;
            ctx.vault.total_capital_quote_lots = c;
            ctx.vault.shares_outstanding = o;
            if ctx.position.depositor.is_default() {
                ctx.position.vault = ctx.vault_key;
                ctx.position.depositor = ctx.depositor;
                ctx.position.bump = ctx.position_bump;
            }
            ctx.position.shares = h;
            ctx.position.total_deposited_quote_lots = d;
        },
        _ => {
            return Err(FlashBookError::ArithmeticOverflow);
        },
    }
    Ok(
        VaultDepositV3Event {
            vault: ctx.vault_key,
            depositor: ctx.position.depositor,
            amount_quote_lots,
            shares_minted: minted,
            shares_outstanding_after: ctx.vault.shares_outstanding,
        },
    )
}

/// What shares are worth: their part of the vault's value, rounded down.
pub open spec fn vault_payout(burned: u64, shares: u64, nav: u64) -> int {
    burned * nav / (shares as int)
}

/// Computes what shares are worth.
pub fn compute_vault_payout(burned: u64, shares: u64, nav: u64) -> (r: u64)
    requires
        0 < burned <= shares,
    ensures
        r == vault_payout(burned, shares, nav),
        r <= nav,
{
    assert(0 <= burned * nav <= u64::MAX * u64::MAX) by (nonlinear_arith)
        requires
            0 <= burned <= u64::MAX,
            0 <= nav <= u64::MAX,
    ;
    assert(0 <= burned * nav / (shares as int) <= nav) by (nonlinear_arith)
        requires
            0 < burned <= shares,
            nav >= 0,
    ;
    ((burned as u128) * (nav as u128) / (shares as u128)) as u64
}

/// Why a withdrawal is refused, if it is.
pub open spec fn vault_withdraw_refusal(a: VaultHolding, burned: u64) -> Option<FlashBookError> {
    let nav = a.vault_trader_state.collateral_quote_lots;
    let paid = vault_payout(burned, a.vault.shares_outstanding, nav);
    if a.position.depositor != a.depositor {
        Some(FlashBookError::Unauthorized)
    } else if burned == 0 {
        Some(FlashBookError::ZeroSize)
    } else if burned > a.position.shares || burned > a.vault.shares_outstanding {
        Some(FlashBookError::OutOfRange)
    } else if nav == 0 {
        Some(FlashBookError::InsufficientCollateral)
    } else if paid == 0 {
        Some(FlashBookError::ZeroSize)
    } else if a.position.total_withdrawn_quote_lots + paid > u64::MAX {
        Some(FlashBookError::ArithmeticOverflow)
    } else {
        None
    }
}

/// The accounts after a withdrawal.
pub open spec fn vault_withdrawn(a: VaultHolding, burned: u64) -> VaultHolding {
    let nav = a.vault_trader_state.collateral_quote_lots;
    let paid = vault_payout(burned, a.vault.shares_outstanding, nav);
    VaultHolding {
        vault: VaultAccountV3 {
            shares_outstanding: (a.vault.shares_outstanding - burned) as u64,
            ..a.vault
        },
        vault_trader_state: TraderStateAccount {
            collateral_quote_lots: (nav - paid) as u64,
            ..a.vault_trader_state
        },
        position: VaultPositionAccountV3 {
            shares: (a.position.shares - burned) as u64,
            total_withdrawn_quote_lots: (a.position.total_withdrawn_quote_lots + paid) as u64,
            ..a.position
        },
        ..a
    }
}

/// Books a withdrawal; the tokens are then to be paid out. On refusal nothing
/// changes.
pub fn vault_withdraw_v3(ctx: &mut VaultHolding, shares_to_burn: u64) -> (r: Result<
    VaultWithdrawV3Event,
    FlashBookError,
>)
    ensures
        match vault_withdraw_refusal(*old(ctx), shares_to_burn) {
            Some(e) => r == Err::<VaultWithdrawV3Event, FlashBookError>(e) && *final(ctx) == *old(
                ctx,
            ),
            None => {
                &&& *final(ctx) == vault_withdrawn(*old(ctx), shares_to_burn)
                &&& r == Ok::<VaultWithdrawV3Event, FlashBookError>(
                    VaultWithdrawV3Event {
                        vault: old(ctx).vault_key,
                        depositor: old(ctx).depositor,
                        shares_burned: shares_to_burn,
                        amount_quote_lots: vault_payout(
                            shares_to_burn,
                            old(ctx).vault.shares_outstanding,
                            old(ctx).vault_trader_state.collateral_quote_lots,
                        ) as u64,
                        shares_outstanding_after: final(ctx).vault.shares_outstanding,
                    },
                )
            },
        },
{
    if ctx.position.depositor != ctx.depositor {
        return Err(FlashBookError::Unauthorized);
    }
    if shares_to_burn == 0 {
        return Err(FlashBookError::ZeroSize);
    }
    if shares_to_burn > ctx.position.shares || shares_to_burn > ctx.vault.shares_outstanding {
        return Err(FlashBookError::OutOfRange);
    }
    let nav: u64 = ctx.vault_trader_state.collateral_quote_lots;
    if nav == 0 {
        return Err(FlashBookError::InsufficientCollateral);
    }
    let paid: u64 = compute_vault_payout(shares_to_burn, ctx.vault.shares_outstanding, nav);
    if paid == 0 {
        return Err(FlashBookError::ZeroSize);
    }
    let withdrawn: u64 = match ctx.position.total_withdrawn_quote_lots.checked_add(paid) {
        Some(n) => n,
        None => {
            return Err(FlashBookError::ArithmeticOverflow);
        },
    };
    ctx.vault.shares_outstanding = ctx.vault.shares_outstanding - shares_to_burn;
    ctx.position.shares = ctx.position.shares - shares_to_burn;
    ctx.position.total_withdrawn_quote_lots = withdrawn;
    ctx.vault_trader_state.collateral_quote_lots = nav - paid;
    Ok(
        VaultWithdrawV3Event {
            vault: ctx.vault_key,
            depositor: ctx.depositor,
            shares_burned: shares_to_burn,
            amount_quote_lots: paid,
            shares_outstanding_after: ctx.vault.shares_outstanding,
        },
    )
}

/// Depositing and at once withdrawing never pays more than was put in, and a
/// deposit never lowers the value of the other shares.
pub proof fn law_vault_deposit_is_fair(amount: u64, shares: u64, nav: u64)
    requires
        shares > 0,
        nav > 0,
        0 < vault_shares(amount, shares, nav),
        shares + vault_shares(amount, shares, nav) <= u64::MAX,
        nav + amount <= u64::MAX,
    ensures
        ({
            let m = vault_shares(amount, shares, nav);
            &&& vault_payout(m as u64, (shares + m) as u64, (nav + amount) as u64) <= amount
            &&& nav * (shares + m) <= (nav + amount) * shares
        }),
{
    let a = amount as int;
    let s = shares as int;
    let n = nav as int;
    let m = vault_shares(amount, shares, nav);
    assert(m * n <= a * s) by (nonlinear_arith)
        requires
            m == a * s / n,
            n > 0,
    ;
    assert(m * (n + a) <= a * (s + m)) by (nonlinear_arith)
        requires
            m * n <= a * s,
    ;
    assert(m * (n + a) / (s + m) <= a) by (nonlinear_arith)
        requires
            m * (n + a) <= a * (s + m),
            s + m > 0,
    ;
    assert(n * (s + m) <= (n + a) * s) by (nonlinear_arith)
        requires
            m * n <= a * s,
    ;
}

/// A withdrawal never pays out more than the shares' part of the vault, so the
/// value of the remaining shares does not fall.
pub proof fn law_vault_withdrawal_is_fair(burned: u64, shares: u64, nav: u64)
    requires
        0 < burned < shares,
    ensures
        ({
            let p = vault_payout(burned, shares, nav);
            p * shares <= burned * nav && (nav - p) * shares >= nav * (shares - burned)
        }),
{
    let b = burned as int;
    let s = shares as int;
    let n = nav as int;
    let p = b * n / s;
    assert(p * s <= b * n) by (nonlinear_arith)
        requires
            p == b * n / s,
            s > 0,
    ;
    assert((n - p) * s >= n * (s - b)) by (nonlinear_arith)
        requires
            p * s <= b * n,
    ;
}

/// Why a vault's order is refused, if it is.
pub open spec fn vault_order_refusal(
    v: VaultAccountV3,
    strategist: Pubkey,
    m: MarketAccount,
    market_key: Pubkey,
    b: BookModel,
    q: OrderRequest,
    now_slot: u64,
) -> Option<FlashBookError> {
    if v.strategist != strategist {
        Some(FlashBookError::Unauthorized)
    } else if q.side > 1 {
        Some(FlashBookError::OutOfRange)
    } else if q.size_lots == 0 {
        Some(FlashBookError::ZeroSize)
    } else if q.limit_ticks == 0 {
        Some(FlashBookError::ZeroPrice)
    } else {
        limit_order_refusal(m, market_key, b, q, now_slot)
    }
}

/// The request that a strategist makes for the vault's main account.
pub open spec fn vault_request(
    side: u8,
    size_lots: u64,
    limit_ticks: u64,
    flags: u8,
    expires_at_slot: u64,
) -> OrderRequest {
    OrderRequest { side, size_lots, limit_ticks, flags, expires_at_slot, sub_index: 0 }
}

/// Rests a limit order of the vault. Only the strategist may. `order_id` is the id
/// that belongs to the price, the side and the next sequence number. On refusal the
/// book does not change.
pub fn vault_place_order_v3(
    vault_key: Pubkey,
    vault: &VaultAccountV3,
    strategist: Pubkey,
    market_key: Pubkey,
    market: &MarketAccount,
    book: &mut MarketBook,
    side: u8,
    size_lots: u64,
    limit_ticks: u64,
    flags: u8,
    expires_at_slot: u64,
    order_id: u64,
    now_slot: u64,
) -> (r: Result<VaultOrderPlacedV3Event, FlashBookError>)
    requires
        market.params.tick_size > 0,
        old(book)@.wf(),
    ensures
        final(book)@.wf(),
        ({
            let q = vault_request(side, size_lots, limit_ticks, flags, expires_at_slot);
            match vault_order_refusal(
                *vault,
                strategist,
                *market,
                market_key,
                old(book)@,
                q,
                now_slot,
            ) {
                Some(e) => r == Err::<VaultOrderPlacedV3Event, FlashBookError>(e) && *final(book)
                    == *old(book),
                None => {
                    let seq = (old(book)@.order_seq_counter + 1) as u64;
                    &&& final(book)@ == book_after_rest(
                        old(book)@,
                        order_of_request(q, vault_key, seq, order_id, now_slot),
                    )
                    &&& r == Ok::<VaultOrderPlacedV3Event, FlashBookError>(
                        VaultOrderPlacedV3Event {
                            vault: vault_key,
                            market: market_key,
                            side,
                            size_lots,
                            limit_ticks,
                            order_seq: seq,
                        },
                    )
                },
            }
        }),
{
    if vault.strategist != strategist {
        return Err(FlashBookError::Unauthorized);
    }
    if side > 1 {
        return Err(FlashBookError::OutOfRange);
    }
    if size_lots == 0 {
        return Err(FlashBookError::ZeroSize);
    }
    if limit_ticks == 0 {
        return Err(FlashBookError::ZeroPrice);
    }
    let q = OrderRequest { side, size_lots, limit_ticks, flags, expires_at_slot, sub_index: 0 };
    match place_limit_order_v2(market_key, market, book, vault_key, q, order_id, now_slot) {
        Ok(e) => Ok(
            VaultOrderPlacedV3Event {
                vault: vault_key,
                market: market_key,
                side,
                size_lots,
                limit_ticks,
                order_seq: e.seq,
            },
        ),
        Err(e) => Err(e),
    }
}

/// Takes an order of the vault out of the book. Only the strategist may. On refusal
/// the book does not change.
pub fn vault_cancel_order_v3(
    vault_key: Pubkey,
    vault: &VaultAccountV3,
    strategist: Pubkey,
    market_key: Pubkey,
    book: &mut MarketBook,
    side: u8,
    order_id: u64,
) -> (r: Result<VaultOrderCancelledV3Event, FlashBookError>)
    requires
        old(book)@.wf(),
    ensures
        final(book)@.wf(),
        if vault.strategist != strategist {
            r == Err::<VaultOrderCancelledV3Event, FlashBookError>(FlashBookError::Unauthorized)
                && *final(book) == *old(book)
        } else {
            match cancel_refusal(market_key, old(book)@, vault_key, side, order_id) {
                Some(e) => r == Err::<VaultOrderCancelledV3Event, FlashBookError>(e) && *final(book)
                    == *old(book),
                None => {
                    let s = old(book)@.side(side == 0);
                    &&& final(book)@ == book_without(old(book)@, side == 0, order_id)
                    &&& r == Ok::<VaultOrderCancelledV3Event, FlashBookError>(
                        VaultOrderCancelledV3Event {
                            vault: vault_key,
                            market: market_key,
                            side,
                            order_id,
                            order_seq: s[find_order(s, order_id)->0].seq,
                        },
                    )
                },
            }
        },
{
    if vault.strategist != strategist {
        return Err(FlashBookError::Unauthorized);
    }
    match cancel_order_v2(market_key, book, vault_key, side, order_id) {
        Ok(e) => Ok(
            VaultOrderCancelledV3Event {
                vault: vault_key,
                market: market_key,
                side,
                order_id,
                order_seq: e.order_seq,
            },
        ),
        Err(e) => Err(e),
    }
}

/// The accounts of a settlement of the performance fee.
#[derive(Clone, Copy, Debug)]
pub struct SettleVaultPerfFeeV3 {
    pub strategist: Pubkey,
    pub vault_key: Pubkey,
    pub vault: VaultAccountV3,
    pub vault_trader_state: TraderStateAccount,
    pub strategist_position: VaultPositionAccountV3,
    /// Bump of the strategist's holding, for the case that it is new.
    pub position_bump: u8,
}

/// The shares that a settlement issues.
pub open spec fn perf_shares_v3(a: SettleVaultPerfFeeV3) -> u64 {
    perf_shares_due(
        a.vault_trader_state.collateral_quote_lots,
        a.vault.shares_outstanding,
        a.vault.hwm_nav_per_share_u64x6,
        a.vault.perf_fee_bps,
    )
}

/// Why a settlement is refused, if it is. Once there is a high-water mark, the
/// value per share has to exceed it.
pub open spec fn perf_fee_v3_refusal(a: SettleVaultPerfFeeV3) -> Option<FlashBookError> {
    let nav = a.vault_trader_state.collateral_quote_lots;
    let shares = a.vault.shares_outstanding;
    let hwm = a.vault.hwm_nav_per_share_u64x6;
    let due = perf_shares_v3(a);
    if a.vault.strategist != a.strategist {
        Some(FlashBookError::Unauthorized)
    } else if shares == 0 {
        None
    } else if nav == 0 {
        Some(FlashBookError::InsufficientCollateral)
    } else if hwm > 0 && nav_per_share(nav, shares) <= hwm {
        Some(FlashBookError::OutOfRange)
    } else if a.strategist_position.shares + due > u64::MAX || shares + due > u64::MAX {
        Some(FlashBookError::ArithmeticOverflow)
    } else {
        None
    }
}

/// The accounts after a settlement.
pub open spec fn perf_fee_v3_settled(a: SettleVaultPerfFeeV3, now: u64) -> SettleVaultPerfFeeV3 {
    let nav = a.vault_trader_state.collateral_quote_lots;
    let shares = a.vault.shares_outstanding;
    let due = perf_shares_v3(a);
    let after = (shares + due) as u64;
    let p = a.strategist_position;
    SettleVaultPerfFeeV3 {
        vault: VaultAccountV3 {
            shares_outstanding: after,
            total_perf_shares_minted: sat_u64(a.vault.total_perf_shares_minted + due) as u64,
            hwm_nav_per_share_u64x6: if shares == 0 {
                USD_UNIT
            } else {
                nav_per_share(nav, after)
            },
            last_perf_settlement_unix: now,
            ..a.vault
        },
        strategist_position: if due == 0 {
            p
        } else if p.depositor == Pubkey::none() {
            VaultPositionAccountV3 {
                vault: a.vault_key,
                depositor: a.strategist,
                bump: a.position_bump,
                shares: (p.shares + due) as u64,
                ..p
            }
        } else {
            VaultPositionAccountV3 { shares: (p.shares + due) as u64, ..p }
        },
        ..a
    }
}

/// Settles the strategist's performance fee in shares. Where none are due, only the
/// high-water mark is set and nothing is reported. On refusal nothing changes.
pub fn settle_vault_perf_fee_v3(ctx: &mut SettleVaultPerfFeeV3, unix_now: i64) -> (r: Result<
    Option<VaultPerfFeeSettledV3Event>,
    FlashBookError,
>)
    ensures
        match perf_fee_v3_refusal(*old(ctx)) {
            Some(e) => r == Err::<Option<VaultPerfFeeSettledV3Event>, FlashBookError>(e)
                && *final(ctx) == *old(ctx),
            None => {
                &&& *final(ctx) == perf_fee_v3_settled(
                    *old(ctx),
                    max_int(unix_now as int, 0) as u64,
                )
                &&& r == Ok::<Option<VaultPerfFeeSettledV3Event>, FlashBookError>(
                    if perf_shares_v3(*old(ctx)) == 0 {
                        None
                    } else {
                        Some(
                            VaultPerfFeeSettledV3Event {
                                vault: old(ctx).vault_key,
                                strategist: old(ctx).strategist,
                                shares_minted: perf_shares_v3(*old(ctx)),
                                new_hwm_per_share_u64x6: final(ctx).vault.hwm_nav_per_share_u64x6,
                            },
                        )
                    },
                )
            },
        },
{
    if ctx.vault.strategist != ctx.strategist {
        return Err(FlashBookError::Unauthorized);
    }
    let now: u64 = unix_seconds(unix_now);
    let nav: u64 = ctx.vault_trader_state.collateral_quote_lots;
    let shares: u64 = ctx.vault.shares_outstanding;
    let hwm: u64 = ctx.vault.hwm_nav_per_share_u64x6;
    if shares == 0 {
        ctx.vault.hwm_nav_per_share_u64x6 = USD_UNIT;
        ctx.vault.last_perf_settlement_unix = now;
        return Ok(None);
    }
    if nav == 0 {
        return Err(FlashBookError::InsufficientCollateral);
    }
    let per_share: u64 = compute_nav_per_share(nav, shares);
    if hwm > 0 && per_share <= hwm {
        return Err(FlashBookError::OutOfRange);
    }
    let due: u64 = compute_shares_due(nav, shares, hwm, ctx.vault.perf_fee_bps);
    if due == 0 {
        ctx.vault.hwm_nav_per_share_u64x6 = per_share;
        ctx.vault.last_perf_settlement_unix = now;
        return Ok(None);
    }
    let held: u64 = match ctx.strategist_position.shares.checked_add(due) {
        Some(n) => n,
        None => {
            return Err(FlashBookError::ArithmeticOverflow);
        },
    };
    let after: u64 = match shares.checked_add(due) {
        Some(n) => n,
        None => {
            return Err(FlashBookError::ArithmeticOverflow);
        },
    };
    if ctx.strategist_position.depositor.is_default() {
        ctx.strategist_position.vault = ctx.vault_key;
        ctx.strategist_position.depositor = ctx.strategist;
        ctx.strategist_position.bump = ctx.position_bump;
    }
    ctx.strategist_position.shares = held;
    ctx.vault.shares_outstanding = after;
    ctx.vault.total_perf_shares_minted = ctx.vault.total_perf_shares_minted.saturating_add(due);
    ctx.vault.hwm_nav_per_share_u64x6 = compute_nav_per_share(nav, after);
    ctx.vault.last_perf_settlement_unix = now;
    Ok(
        Some(
            VaultPerfFeeSettledV3Event {
                vault: ctx.vault_key,
                strategist: ctx.vault.strategist,
                shares_minted: due,
                new_hwm_per_share_u64x6: ctx.vault.hwm_nav_per_share_u64x6,
            },
        ),
    )
}

/// The high-water mark of a vault with depositors never falls.
pub proof fn law_high_water_mark_never_falls(a: SettleVaultPerfFeeV3, now: u64)
    requires
        perf_fee_v3_refusal(a) is None,
        a.vault.shares_outstanding > 0,
        a.vault.perf_fee_bps <= MAX_PERF_FEE_BPS,
    ensures
        perf_fee_v3_settled(a, now).vault.hwm_nav_per_share_u64x6
            >= a.vault.hwm_nav_per_share_u64x6,
{
    if a.vault.hwm_nav_per_share_u64x6 > 0 {
        law_performance_fee_keeps_high_water_mark(
            a.vault_trader_state.collateral_quote_lots,
            a.vault.shares_outstanding,
            a.vault.hwm_nav_per_share_u64x6,
            a.vault.perf_fee_bps,
        );
    }
}

} // verus!
