//! Collateral: paying in, paying out, and moving it between accounts and
//! positions.
use vstd::prelude::*;

use crate::constants::WITHDRAWAL_FLOOR_BPS;
use crate::errors::FlashBookError;
use crate::events::{
    CollateralDepositedEvent, CollateralSweptEvent, CollateralWithdrawnEvent,
    PartialCollateralWithdrawnEvent, SubAccountTransferEvent,
};
use crate::fees::{sat_bps_of, saturating_bps_of};
use crate::keys::Pubkey;
use crate::math::{clamp_u128_to_u64, max_int, max_u64, sat_u64};
use crate::risk::{
    Assessment, Binding, PortfolioEntry, collect_bound_portfolio, entry_address, market_among,
    notional_from, portfolio_refusal, total_notional,
};
use crate::state::TraderStateAccount;

verus! {

/// A trader account with other collateral.
pub open spec fn with_collateral(s: TraderStateAccount, c: int) -> TraderStateAccount {
    TraderStateAccount { collateral_quote_lots: c as u64, ..s }
}

/// Pays collateral in. The caller moves the tokens. On refusal nothing changes.
pub fn deposit_collateral(
    trader_state: &mut TraderStateAccount,
    trader: Pubkey,
    amount_quote_lots: u64,
) -> (r: Result<CollateralDepositedEvent, FlashBookError>)
    ensures
        ({
            let s = *old(trader_state);
            let sum = s.collateral_quote_lots + amount_quote_lots;
            if s.trader != trader {
                r == Err::<CollateralDepositedEvent, FlashBookError>(FlashBookError::WrongTrader)
                    && *final(trader_state) == s
            } else if amount_quote_lots == 0 {
                r == Err::<CollateralDepositedEvent, FlashBookError>(FlashBookError::ZeroSize)
                    && *final(trader_state) == s
            } else if sum > u64::MAX {
                r == Err::<CollateralDepositedEvent, FlashBookError>(
                    FlashBookError::ArithmeticOverflow,
                ) && *final(trader_state) == s
            } else {
                r == Ok::<CollateralDepositedEvent, FlashBookError>(
                    CollateralDepositedEvent {
                        trader,
                        amount: amount_quote_lots,
                        new_balance: sum as u64,
                    },
                ) && *final(trader_state) == with_collateral(s, sum)
            }
        }),
{
    if trader_state.trader != trader {
        return Err(FlashBookError::WrongTrader);
    }
    if amount_quote_lots == 0 {
        return Err(FlashBookError::ZeroSize);
    }
    let new_balance: u64 = match trader_state.collateral_quote_lots.checked_add(amount_quote_lots) {
        Some(n) => n,
        None => {
            return Err(FlashBookError::ArithmeticOverflow);
        },
    };
    trader_state.collateral_quote_lots = new_balance;
    Ok(CollateralDepositedEvent { trader, amount: amount_quote_lots, new_balance })
}

/// Why a full withdrawal is refused, if it is: it is open only to traders without
/// positions.
pub open spec fn withdraw_refusal(s: TraderStateAccount, trader: Pubkey, amount: u64) -> Option<
    FlashBookError,
> {
    if s.trader != trader {
        Some(FlashBookError::WrongTrader)
    } else if amount == 0 {
        Some(FlashBookError::ZeroSize)
    } else if s.open_positions != 0 || amount > s.collateral_quote_lots {
        Some(FlashBookError::InsufficientCollateral)
    } else {
        None
    }
}

/// Pays collateral out to a trader without positions. The caller moves the tokens.
/// On refusal nothing changes.
pub fn withdraw_collateral(
    trader_state: &mut TraderStateAccount,
    trader: Pubkey,
    amount_quote_lots: u64,
) -> (r: Result<CollateralWithdrawnEvent, FlashBookError>)
    ensures
        match withdraw_refusal(*old(trader_state), trader, amount_quote_lots) {
            Some(e) => r == Err::<CollateralWithdrawnEvent, FlashBookError>(e) && *final(trader_state) == *old(trader_state),
            None => {
                let left = old(trader_state).collateral_quote_lots - amount_quote_lots;
                &&& *final(trader_state) == with_collateral(*old(trader_state), left)
                &&& r == Ok::<CollateralWithdrawnEvent, FlashBookError>(
                    CollateralWithdrawnEvent {
                        trader,
                        amount: amount_quote_lots,
                        new_balance: left as u64,
                    },
                )
            },
        },
{
    if trader_state.trader != trader {
        return Err(FlashBookError::WrongTrader);
    }
    if amount_quote_lots == 0 {
        return Err(FlashBookError::ZeroSize);
    }
    if trader_state.open_positions != 0 || amount_quote_lots > trader_state.collateral_quote_lots {
        return Err(FlashBookError::InsufficientCollateral);
    }
    let new_balance: u64 = trader_state.collateral_quote_lots - amount_quote_lots;
    trader_state.collateral_quote_lots = new_balance;
    Ok(CollateralWithdrawnEvent { trader, amount: amount_quote_lots, new_balance })
}

/// The share of the open notional that a withdrawal has to leave behind.
pub open spec fn notional_floor(total_notional: int) -> u64 {
    sat_u64(sat_bps_of(total_notional, WITHDRAWAL_FLOOR_BPS as int)) as u64
}

/// Margin that a withdrawal has to leave behind: none without positions.
pub open spec fn margin_floor(es: Seq<PortfolioEntry>, assessment: Assessment) -> u64 {
    if es.len() == 0 {
        0
    } else {
        assessment->Ok_0.required_quote_lots
    }
}

/// Why a withdrawal beside open positions is refused, if it is. Every open
/// position has to be shown; what stays has to cover both the margin engine's
/// requirement and a tenth of the notional.
pub open spec fn partial_withdraw_refusal(
    s: TraderStateAccount,
    trader: Pubkey,
    es: Seq<PortfolioEntry>,
    b: Binding,
    amount: u64,
    assessment: Assessment,
) -> Option<FlashBookError> {
    if s.trader != trader {
        Some(FlashBookError::WrongTrader)
    } else if amount == 0 {
        Some(FlashBookError::ZeroSize)
    } else if amount > s.collateral_quote_lots {
        Some(FlashBookError::InsufficientCollateral)
    } else if es.len() != s.open_positions {
        Some(FlashBookError::OutOfRange)
    } else {
        match portfolio_refusal(es, 0, trader, b, FlashBookError::Unauthorized, None) {
            Some(e) => Some(e),
            None => if es.len() > 0 && assessment is Err {
                Some(assessment->Err_0)
            } else if s.collateral_quote_lots - amount < max_int(
                margin_floor(es, assessment) as int,
                notional_floor(notional_from(es, 0, 0)) as int,
            ) {
                Some(FlashBookError::InsufficientCollateral)
            } else {
                None
            },
        }
    }
}

/// Pays out collateral of a trader who has positions. `assessment` is the margin
/// engine's answer, at initial margin, on the snapshots that
/// [`collect_bound_portfolio`] prepares and the collateral after the withdrawal.
/// The caller moves the tokens. On refusal nothing changes.
pub fn partial_withdraw_collateral(
    trader_state: &mut TraderStateAccount,
    trader: Pubkey,
    es: &Vec<PortfolioEntry>,
    b: &Binding,
    amount_quote_lots: u64,
    assessment: Assessment,
) -> (r: Result<PartialCollateralWithdrawnEvent, FlashBookError>)
    ensures
        match partial_withdraw_refusal(
            *old(trader_state),
            trader,
            es@,
            *b,
            amount_quote_lots,
            assessment,
        ) {
            Some(e) => r == Err::<PartialCollateralWithdrawnEvent, FlashBookError>(e) && *final(trader_state) == *old(trader_state),
            None => {
                let left = old(trader_state).collateral_quote_lots - amount_quote_lots;
                let im = margin_floor(es@, assessment);
                let nf = notional_floor(notional_from(es@, 0, 0));
                &&& *final(trader_state) == with_collateral(*old(trader_state), left)
                &&& r == Ok::<PartialCollateralWithdrawnEvent, FlashBookError>(
                    PartialCollateralWithdrawnEvent {
                        trader,
                        amount: amount_quote_lots,
                        new_balance: left as u64,
                        im_required: im,
                        notional_floor: nf,
                        applied_floor: max_int(im as int, nf as int) as u64,
                    },
                )
            },
        },
{
    if trader_state.trader != trader {
        return Err(FlashBookError::WrongTrader);
    }
    if amount_quote_lots == 0 {
        return Err(FlashBookError::ZeroSize);
    }
    if amount_quote_lots > trader_state.collateral_quote_lots {
        return Err(FlashBookError::InsufficientCollateral);
    }
    if es.len() != trader_state.open_positions as usize {
        return Err(FlashBookError::OutOfRange);
    }
    match collect_bound_portfolio(es, trader, b, FlashBookError::Unauthorized, None, true) {
        Ok(_) => {},
        Err(e) => {
            return Err(e);
        },
    }
    let post: u64 = trader_state.collateral_quote_lots - amount_quote_lots;
    let im_required: u64 = if es.len() == 0 {
        0
    } else {
        match assessment {
            Ok(a) => a.required_quote_lots,
            Err(e) => {
                return Err(e);
            },
        }
    };
    let floor_of_notional: u64 = clamp_u128_to_u64(
        saturating_bps_of(total_notional(es), WITHDRAWAL_FLOOR_BPS as u128),
    );
    let floor: u64 = max_u64(im_required, floor_of_notional);
    if post < floor {
        return Err(FlashBookError::InsufficientCollateral);
    }
    trader_state.collateral_quote_lots = post;
    Ok(
        PartialCollateralWithdrawnEvent {
            trader,
            amount: amount_quote_lots,
            new_balance: post,
            im_required,
            notional_floor: floor_of_notional,
            applied_floor: floor,
        },
    )
}

/// After a withdrawal beside open positions at least a tenth of their notional is
/// left, and at least what the margin engine requires.
pub proof fn law_partial_withdrawal_leaves_floor(
    s: TraderStateAccount,
    trader: Pubkey,
    es: Seq<PortfolioEntry>,
    b: Binding,
    amount: u64,
    assessment: Assessment,
)
    requires
        partial_withdraw_refusal(s, trader, es, b, amount, assessment) is None,
    ensures
        s.collateral_quote_lots - amount >= margin_floor(es, assessment),
        s.collateral_quote_lots - amount >= notional_floor(notional_from(es, 0, 0)),
        es.len() == s.open_positions,
        forall|i: int|
            0 <= i < es.len() ==> (#[trigger] es[i]).position.trader == trader
                && es[i].position.size_lots > 0,
{
    lemma_portfolio_members(es, 0, trader, b, FlashBookError::Unauthorized, None);
}

/// Every entry of an accepted portfolio is a live position of the trader.
pub proof fn lemma_portfolio_members(
    es: Seq<PortfolioEntry>,
    i: int,
    trader: Pubkey,
    b: Binding,
    foreign: FlashBookError,
    target: Option<Pubkey>,
)
    requires
        0 <= i <= es.len(),
        portfolio_refusal(es, i, trader, b, foreign, target) is None,
    ensures
        forall|k: int|
            i <= k < es.len() ==> (#[trigger] es[k]).position.trader == trader
                && es[k].position.size_lots > 0 && es[k].position.market == es[k].market_key
                && !market_among(es, k, es[k].market_key) && entry_address(es[k], b) == Some(
                es[k].position_key,
            ),
    decreases es.len() - i,
{
    if i < es.len() {
        lemma_portfolio_members(es, i + 1, trader, b, foreign, target);
    }
}

/// An accepted portfolio shows no market twice, so it cannot be padded while a
/// position is left out.
pub proof fn law_accepted_portfolio_is_duplicate_free(
    es: Seq<PortfolioEntry>,
    trader: Pubkey,
    b: Binding,
    foreign: FlashBookError,
    target: Option<Pubkey>,
)
    requires
        portfolio_refusal(es, 0, trader, b, foreign, target) is None,
    ensures
        forall|i: int, j: int|
            0 <= i < j < es.len() ==> (#[trigger] es[i]).market_key != (
            #[trigger] es[j]).market_key,
{
    lemma_portfolio_members(es, 0, trader, b, foreign, target);
    assert forall|i: int, j: int| 0 <= i < j < es.len() implies (#[trigger] es[i]).market_key != (
    #[trigger] es[j]).market_key by {
        assert(!market_among(es, j, es[j].market_key));
    }
}

/// Two trader accounts between which collateral moves.
#[derive(Clone, Copy, Debug, PartialEq, Eq, Structural)]
pub struct SweepCollateral {
    pub authority: Pubkey,
    pub from_key: Pubkey,
    pub from_state: TraderStateAccount,
    pub to_key: Pubkey,
    pub to_state: TraderStateAccount,
}

/// Why a sweep is refused, if it is. The signer acts for both accounts; a source
/// with open positions has to show them all and stay healthy afterwards.
pub open spec fn sweep_refusal(
    a: SweepCollateral,
    es: Seq<PortfolioEntry>,
    b: Binding,
    amount: u64,
    assessment: Assessment,
) -> Option<FlashBookError> {
    if amount == 0 {
        Some(FlashBookError::ZeroSize)
    } else if a.from_key == a.to_key {
        Some(FlashBookError::OutOfRange)
    } else if !a.from_state.authorizes(a.authority) || !a.to_state.authorizes(a.authority) {
        Some(FlashBookError::Unauthorized)
    } else if a.from_state.collateral_quote_lots < amount {
        Some(FlashBookError::InsufficientCollateral)
    } else if a.from_state.open_positions > 0 && es.len() != a.from_state.open_positions {
        Some(FlashBookError::OutOfRange)
    } else {
        match (if a.from_state.open_positions > 0 {
            portfolio_refusal(es, 0, a.from_state.trader, b, FlashBookError::OutOfRange, None)
        } else {
            None::<FlashBookError>
        }) {
            Some(e) => Some(e),
            None => if a.from_state.open_positions > 0 && assessment is Err {
                Some(assessment->Err_0)
            } else if a.from_state.open_positions > 0 && !assessment->Ok_0.is_healthy {
                Some(FlashBookError::TraderLiquidatable)
            } else if a.to_state.collateral_quote_lots + amount > u64::MAX {
                Some(FlashBookError::ArithmeticOverflow)
            } else {
                None
            },
        }
    }
}

/// Moves collateral from one trader account to another that the same signer acts
/// for. `assessment` is the margin engine's answer, at initial margin, on the
/// source's positions and the collateral after the sweep. On refusal nothing
/// changes.
pub fn sweep_collateral(
    ctx: &mut SweepCollateral,
    es: &Vec<PortfolioEntry>,
    b: &Binding,
    amount: u64,
    assessment: Assessment,
) -> (r: Result<CollateralSweptEvent, FlashBookError>)
    ensures
        match sweep_refusal(*old(ctx), es@, *b, amount, assessment) {
            Some(e) => r == Err::<CollateralSweptEvent, FlashBookError>(e) && *final(ctx) == *old(
                ctx,
            ),
            None => {
                &&& *final(ctx) == (SweepCollateral {
                    from_state: with_collateral(
                        old(ctx).from_state,
                        old(ctx).from_state.collateral_quote_lots - amount,
                    ),
                    to_state: with_collateral(
                        old(ctx).to_state,
                        old(ctx).to_state.collateral_quote_lots + amount,
                    ),
                    ..*old(ctx)
                })
                &&& r == Ok::<CollateralSweptEvent, FlashBookError>(
                    CollateralSweptEvent {
                        authority: old(ctx).authority,
                        from: old(ctx).from_state.trader,
                        to: old(ctx).to_state.trader,
                        amount_quote_lots: amount,
                    },
                )
            },
        },
{
    if amount == 0 {
        return Err(FlashBookError::ZeroSize);
    }
    if ctx.from_key == ctx.to_key {
        return Err(FlashBookError::OutOfRange);
    }
    if !ctx.from_state.is_authorized(ctx.authority) || !ctx.to_state.is_authorized(ctx.authority) {
        return Err(FlashBookError::Unauthorized);
    }
    let left: u64 = match ctx.from_state.collateral_quote_lots.checked_sub(amount) {
        Some(n) => n,
        None => {
            return Err(FlashBookError::InsufficientCollateral);
        },
    };
    if ctx.from_state.open_positions > 0 {
        if es.len() != ctx.from_state.open_positions as usize {
            return Err(FlashBookError::OutOfRange);
        }
        match collect_bound_portfolio(
            es,
            ctx.from_state.trader,
            b,
            FlashBookError::OutOfRange,
            None,
            true,
        ) {
            Ok(_) => {},
            Err(e) => {
                return Err(e);
            },
        }
        match assessment {
            Ok(a) => {
                if !a.is_healthy {
                    return Err(FlashBookError::TraderLiquidatable);
                }
            },
            Err(e) => {
                return Err(e);
            },
        }
    }
    let gained: u64 = match ctx.to_state.collateral_quote_lots.checked_add(amount) {
        Some(n) => n,
        None => {
            return Err(FlashBookError::ArithmeticOverflow);
        },
    };
    ctx.from_state.collateral_quote_lots = left;
    ctx.to_state.collateral_quote_lots = gained;
    Ok(
        CollateralSweptEvent {
            authority: ctx.authority,
            from: ctx.from_state.trader,
            to: ctx.to_state.trader,
            amount_quote_lots: amount,
        },
    )
}

/// A trader's main account and one sub-account.
#[derive(Clone, Copy, Debug, PartialEq, Eq, Structural)]
pub struct TransferBetweenSubAccounts {
    pub trader: Pubkey,
    pub main: TraderStateAccount,
    pub sub_account: TraderStateAccount,
}

/// Why a transfer between main and sub-account is refused, if it is. The account
/// that gives may not have open positions.
pub open spec fn sub_transfer_refusal(
    a: TransferBetweenSubAccounts,
    sub_index: u8,
    amount: u64,
    to_sub: bool,
) -> Option<FlashBookError> {
    let (giver, taker) = if to_sub {
        (a.main, a.sub_account)
    } else {
        (a.sub_account, a.main)
    };
    if a.main.trader != a.trader || a.sub_account.trader != a.trader {
        Some(FlashBookError::WrongTrader)
    } else if sub_index == 0 {
        Some(FlashBookError::OutOfRange)
    } else if amount == 0 {
        Some(FlashBookError::ZeroSize)
    } else if giver.open_positions != 0 {
        Some(FlashBookError::OpenInterestCapExceeded)
    } else if giver.collateral_quote_lots < amount {
        Some(FlashBookError::InsufficientCollateral)
    } else if taker.collateral_quote_lots + amount > u64::MAX {
        Some(FlashBookError::ArithmeticOverflow)
    } else {
        None
    }
}

/// The two accounts after a transfer.
pub open spec fn sub_transferred(a: TransferBetweenSubAccounts, amount: u64, to_sub: bool) -> TransferBetweenSubAccounts {
    let d = if to_sub {
        amount as int
    } else {
        -(amount as int)
    };
    TransferBetweenSubAccounts {
        main: with_collateral(a.main, a.main.collateral_quote_lots - d),
        sub_account: with_collateral(a.sub_account, a.sub_account.collateral_quote_lots + d),
        ..a
    }
}

/// Moves collateral between a trader's main account and a sub-account.
pub fn transfer_between(
    ctx: &mut TransferBetweenSubAccounts,
    sub_index: u8,
    amount: u64,
    to_sub: bool,
) -> (r: Result<SubAccountTransferEvent, FlashBookError>)
    ensures
        match sub_transfer_refusal(*old(ctx), sub_index, amount, to_sub) {
            Some(e) => r == Err::<SubAccountTransferEvent, FlashBookError>(e) && *final(ctx)
                == *old(ctx),
            None => {
                let after = sub_transferred(*old(ctx), amount, to_sub);
                &&& *final(ctx) == after
                &&& r == Ok::<SubAccountTransferEvent, FlashBookError>(
                    SubAccountTransferEvent {
                        trader: after.trader,
                        sub_index,
                        amount_quote_lots: amount,
                        direction: if to_sub {
                            0
                        } else {
                            1
                        },
                        main_balance_after: after.main.collateral_quote_lots,
                        sub_balance_after: after.sub_account.collateral_quote_lots,
                    },
                )
            },
        },
{
    if ctx.main.trader != ctx.trader || ctx.sub_account.trader != ctx.trader {
        return Err(FlashBookError::WrongTrader);
    }
    if sub_index == 0 {
        return Err(FlashBookError::OutOfRange);
    }
    if amount == 0 {
        return Err(FlashBookError::ZeroSize);
    }
    let (giver, taker) = if to_sub {
        (ctx.main, ctx.sub_account)
    } else {
        (ctx.sub_account, ctx.main)
    };
    if giver.open_positions != 0 {
        return Err(FlashBookError::OpenInterestCapExceeded);
    }
    let left: u64 = match giver.collateral_quote_lots.checked_sub(amount) {
        Some(n) => n,
        None => {
            return Err(FlashBookError::InsufficientCollateral);
        },
    };
    let gained: u64 = match taker.collateral_quote_lots.checked_add(amount) {
        Some(n) => n,
        None => {
            return Err(FlashBookError::ArithmeticOverflow);
        },
    };
    if to_sub {
        ctx.main.collateral_quote_lots = left;
        ctx.sub_account.collateral_quote_lots = gained;
    } else {
        ctx.sub_account.collateral_quote_lots = left;
        ctx.main.collateral_quote_lots = gained;
    }
    Ok(
        SubAccountTransferEvent {
            trader: ctx.trader,
            sub_index,
            amount_quote_lots: amount,
            direction: if to_sub {
                0
            } else {
                1
            },
            main_balance_after: ctx.main.collateral_quote_lots,
            sub_balance_after: ctx.sub_account.collateral_quote_lots,
        },
    )
}

/// Moves collateral from a trader's main account into a sub-account.
pub fn transfer_main_to_sub(ctx: &mut TransferBetweenSubAccounts, sub_index: u8, amount: u64) -> (r:
    Result<SubAccountTransferEvent, FlashBookError>)
    ensures
        match sub_transfer_refusal(*old(ctx), sub_index, amount, true) {
            Some(e) => r == Err::<SubAccountTransferEvent, FlashBookError>(e) && *final(ctx)
                == *old(ctx),
            None => {
                let after = sub_transferred(*old(ctx), amount, true);
                &&& *final(ctx) == after
                &&& r == Ok::<SubAccountTransferEvent, FlashBookError>(
                    SubAccountTransferEvent {
                        trader: after.trader,
                        sub_index,
                        amount_quote_lots: amount,
                        direction: 0,
                        main_balance_after: after.main.collateral_quote_lots,
                        sub_balance_after: after.sub_account.collateral_quote_lots,
                    },
                )
            },
        },
{
    transfer_between(ctx, sub_index, amount, true)
}

/// Moves collateral from a sub-account back into the trader's main account.
pub fn transfer_sub_to_main(ctx: &mut TransferBetweenSubAccounts, sub_index: u8, amount: u64) -> (r:
    Result<SubAccountTransferEvent, FlashBookError>)
    ensures
        match sub_transfer_refusal(*old(ctx), sub_index, amount, false) {
            Some(e) => r == Err::<SubAccountTransferEvent, FlashBookError>(e) && *final(ctx)
                == *old(ctx),
            None => {
                let after = sub_transferred(*old(ctx), amount, false);
                &&& *final(ctx) == after
                &&& r == Ok::<SubAccountTransferEvent, FlashBookError>(
                    SubAccountTransferEvent {
                        trader: after.trader,
                        sub_index,
                        amount_quote_lots: amount,
                        direction: 1,
                        main_balance_after: after.main.collateral_quote_lots,
                        sub_balance_after: after.sub_account.collateral_quote_lots,
                    },
                )
            },
        },
{
    transfer_between(ctx, sub_index, amount, false)
}

/// A transfer between main and sub-account conserves the trader's collateral, and
/// the transfer back restores both accounts.
pub proof fn law_sub_transfer_round_trip(
    a: TransferBetweenSubAccounts,
    sub_index: u8,
    amount: u64,
)
    requires
        sub_transfer_refusal(a, sub_index, amount, true) is None,
        a.sub_account.open_positions == 0,
    ensures
        ({
            let there = sub_transferred(a, amount, true);
            &&& there.main.collateral_quote_lots + there.sub_account.collateral_quote_lots
                == a.main.collateral_quote_lots + a.sub_account.collateral_quote_lots
            &&& sub_transfer_refusal(there, sub_index, amount, false) is None
            &&& sub_transferred(there, amount, false) == a
        }),
{
}

/// What was paid in can be paid out again, and the account is then as before.
pub proof fn law_deposit_then_withdraw_restores(s: TraderStateAccount, amount: u64)
    requires
        amount > 0,
        s.open_positions == 0,
        s.collateral_quote_lots + amount <= u64::MAX,
    ensures
        ({
            let t = with_collateral(s, s.collateral_quote_lots + amount);
            withdraw_refusal(t, s.trader, amount) is None && with_collateral(
                t,
                t.collateral_quote_lots - amount,
            ) == s
        }),
{
}

/// A sweep conserves the collateral of the two accounts.
pub proof fn law_sweep_conserves(
    a: SweepCollateral,
    es: Seq<PortfolioEntry>,
    b: Binding,
    amount: u64,
    assessment: Assessment,
)
    requires
        sweep_refusal(a, es, b, amount, assessment) is None,
    ensures
        with_collateral(
            a.from_state,
            a.from_state.collateral_quote_lots - amount,
        ).collateral_quote_lots + with_collateral(
            a.to_state,
            a.to_state.collateral_quote_lots + amount,
        ).collateral_quote_lots == a.from_state.collateral_quote_lots
            + a.to_state.collateral_quote_lots,
{
}

} // verus!
