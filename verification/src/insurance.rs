//! The insurance fund.
use vstd::prelude::*;

use crate::errors::FlashBookError;
use crate::events::InsurancePauseThresholdUpdatedEvent;
use crate::keys::Pubkey;
use crate::state::InsuranceFundAccount;

verus! {

/// Sets up the insurance fund, empty.
pub fn initialize_insurance_fund(
    authority: Pubkey,
    bump: u8,
    quote_mint: Pubkey,
    quote_vault: Pubkey,
    fee_contribution_bps: u32,
    toxicity_tax_contribution_bps: u32,
    liq_penalty_contribution_bps: u32,
    pause_threshold_quote_lots: u64,
) -> (r: InsuranceFundAccount)
    ensures
        r == (InsuranceFundAccount {
            authority,
            bump,
            balance_quote_lots: 0,
            fee_contribution_bps,
            toxicity_tax_contribution_bps,
            liq_penalty_contribution_bps,
            pause_threshold_quote_lots,
            total_contributions: 0,
            total_payouts: 0,
            quote_mint,
            quote_vault,
        }),
{
    InsuranceFundAccount {
        authority,
        bump,
        balance_quote_lots: 0,
        fee_contribution_bps,
        toxicity_tax_contribution_bps,
        liq_penalty_contribution_bps,
        pause_threshold_quote_lots,
        total_contributions: 0,
        total_payouts: 0,
        quote_mint,
        quote_vault,
    }
}

/// Why nothing can be withdrawn from the fund, if it cannot. `vault_amount` is
/// what the vault holds.
pub open spec fn insurance_withdraw_refusal(
    f: InsuranceFundAccount,
    signer: Pubkey,
    amount: u64,
    vault_amount: u64,
) -> Option<FlashBookError> {
    if amount == 0 {
        Some(FlashBookError::ZeroSize)
    } else if f.authority != signer {
        Some(FlashBookError::Unauthorized)
    } else if f.balance_quote_lots < amount {
        Some(FlashBookError::ArithmeticUnderflow)
    } else if f.balance_quote_lots - amount < f.pause_threshold_quote_lots || vault_amount < amount {
        Some(FlashBookError::InsufficientCollateral)
    } else if f.total_payouts + amount > u64::MAX {
        Some(FlashBookError::ArithmeticOverflow)
    } else {
        None
    }
}

/// The fund after a withdrawal.
pub open spec fn insurance_withdrawn(f: InsuranceFundAccount, amount: u64) -> InsuranceFundAccount {
    InsuranceFundAccount {
        balance_quote_lots: (f.balance_quote_lots - amount) as u64,
        total_payouts: (f.total_payouts + amount) as u64,
        ..f
    }
}

/// Books a withdrawal by the fund's authority; the tokens are then to be paid out.
/// On refusal nothing changes.
pub fn withdraw_insurance_fund(
    fund: &mut InsuranceFundAccount,
    authority: Pubkey,
    amount_quote_lots: u64,
    vault_amount: u64,
) -> (r: Result<(), FlashBookError>)
    ensures
        match insurance_withdraw_refusal(*old(fund), authority, amount_quote_lots, vault_amount) {
            Some(e) => r == Err::<(), FlashBookError>(e) && *final(fund) == *old(fund),
            None => r == Ok::<(), FlashBookError>(()) && *final(fund) == insurance_withdrawn(
                *old(fund),
                amount_quote_lots,
            ),
        },
{
    if amount_quote_lots == 0 {
        return Err(FlashBookError::ZeroSize);
    }
    if fund.authority != authority {
        return Err(FlashBookError::Unauthorized);
    }
    let new_balance: u64 = match fund.balance_quote_lots.checked_sub(amount_quote_lots) {
        Some(n) => n,
        None => {
            return Err(FlashBookError::ArithmeticUnderflow);
        },
    };
    if new_balance < fund.pause_threshold_quote_lots {
        return Err(FlashBookError::InsufficientCollateral);
    }
    if vault_amount < amount_quote_lots {
        return Err(FlashBookError::InsufficientCollateral);
    }
    let payouts: u64 = match fund.total_payouts.checked_add(amount_quote_lots) {
        Some(n) => n,
        None => {
            return Err(FlashBookError::ArithmeticOverflow);
        },
    };
    fund.balance_quote_lots = new_balance;
    fund.total_payouts = payouts;
    Ok(())
}

/// No withdrawal brings the fund below its threshold.
pub proof fn law_withdrawal_keeps_threshold(
    f: InsuranceFundAccount,
    signer: Pubkey,
    amount: u64,
    vault_amount: u64,
)
    requires
        insurance_withdraw_refusal(f, signer, amount, vault_amount) is None,
    ensures
        insurance_withdrawn(f, amount).balance_quote_lots >= f.pause_threshold_quote_lots,
        insurance_withdrawn(f, amount).pause_threshold_quote_lots == f.pause_threshold_quote_lots,
{
}

/// Sets the threshold below which deleveraging is admitted. It may lie above the
/// balance.
pub fn set_insurance_pause_threshold(
    fund: &mut InsuranceFundAccount,
    authority: Pubkey,
    new_threshold_quote_lots: u64,
) -> (r: Result<InsurancePauseThresholdUpdatedEvent, FlashBookError>)
    ensures
        if old(fund).authority != authority {
            r == Err::<InsurancePauseThresholdUpdatedEvent, FlashBookError>(
                FlashBookError::Unauthorized,
            ) && *final(fund) == *old(fund)
        } else {
            &&& *final(fund) == (InsuranceFundAccount {
                pause_threshold_quote_lots: new_threshold_quote_lots,
                ..*old(fund)
            })
            &&& r == Ok::<InsurancePauseThresholdUpdatedEvent, FlashBookError>(
                InsurancePauseThresholdUpdatedEvent {
                    authority,
                    previous_threshold_quote_lots: old(fund).pause_threshold_quote_lots,
                    new_threshold_quote_lots,
                    current_balance_quote_lots: old(fund).balance_quote_lots,
                },
            )
        },
{
    if fund.authority != authority {
        return Err(FlashBookError::Unauthorized);
    }
    let previous: u64 = fund.pause_threshold_quote_lots;
    fund.pause_threshold_quote_lots = new_threshold_quote_lots;
    Ok(
        InsurancePauseThresholdUpdatedEvent {
            authority,
            previous_threshold_quote_lots: previous,
            new_threshold_quote_lots,
            current_balance_quote_lots: fund.balance_quote_lots,
        },
    )
}

} // verus!
