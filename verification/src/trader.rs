//! Opening trader accounts and what their owners decide about them.
use vstd::prelude::*;

use crate::constants::{BPS_DENOM, MAX_FEE_DISCOUNT_BPS};
use crate::errors::FlashBookError;
use crate::events::{
    PositionLeverageUpdatedEvent, PositionMigratedEvent, SubAccountOpenedEvent,
    TraderBuilderUpdatedEvent, TraderDelegateUpdatedEvent, TraderFeeTierUpdatedEvent,
    TraderReferrerSetEvent,
};
use crate::keys::Pubkey;
use crate::state::{InsuranceFundAccount, MarketAccount, PositionAccount, TraderStateAccount};

verus! {

/// A new account without collateral, positions or history.
pub open spec fn new_trader_state(trader: Pubkey, bump: u8, sub_index: u8, slot: u64) -> TraderStateAccount {
    TraderStateAccount {
        trader,
        bump,
        sub_index,
        collateral_quote_lots: 0,
        realized_pnl_quote_lots: 0,
        open_positions: 0,
        toxicity_score_bps: 0,
        orders_this_batch: 0,
        last_batch_seen: 0,
        fee_discount_bps: 0,
        delegate: Pubkey::none(),
        referrer: Pubkey::none(),
        referrer_locked: false,
        builder: Pubkey::none(),
        builder_max_fee_share_bps: 0,
        volume_30d_quote_lots: 0,
        volume_window_start_slot: slot,
    }
}

/// Makes a new account.
pub fn make_trader_state(trader: Pubkey, bump: u8, sub_index: u8, slot: u64) -> (r:
    TraderStateAccount)
    ensures
        r == new_trader_state(trader, bump, sub_index, slot),
{
    TraderStateAccount {
        trader,
        bump,
        sub_index,
        collateral_quote_lots: 0,
        realized_pnl_quote_lots: 0,
        open_positions: 0,
        toxicity_score_bps: 0,
        orders_this_batch: 0,
        last_batch_seen: 0,
        fee_discount_bps: 0,
        delegate: Pubkey::default_key(),
        referrer: Pubkey::default_key(),
        referrer_locked: false,
        builder: Pubkey::default_key(),
        builder_max_fee_share_bps: 0,
        volume_30d_quote_lots: 0,
        volume_window_start_slot: slot,
    }
}

/// Opens a trader's main account.
pub fn open_trader_state(trader: Pubkey, bump: u8, slot: u64) -> (r: TraderStateAccount)
    ensures
        r == new_trader_state(trader, bump, 0, slot),
{
    make_trader_state(trader, bump, 0, slot)
}

/// Opens a sub-account. Index 0 is the main account's.
pub fn open_trader_sub_account(
    trader: Pubkey,
    sub_account_key: Pubkey,
    bump: u8,
    sub_index: u8,
    slot: u64,
) -> (r: Result<(TraderStateAccount, SubAccountOpenedEvent), FlashBookError>)
    ensures
        r == (if sub_index == 0 {
            Err::<(TraderStateAccount, SubAccountOpenedEvent), FlashBookError>(
                FlashBookError::OutOfRange,
            )
        } else {
            Ok(
                (
                    new_trader_state(trader, bump, sub_index, slot),
                    SubAccountOpenedEvent { trader, sub_index, sub_account: sub_account_key },
                ),
            )
        }),
{
    if sub_index == 0 {
        return Err(FlashBookError::OutOfRange);
    }
    Ok(
        (
            make_trader_state(trader, bump, sub_index, slot),
            SubAccountOpenedEvent { trader, sub_index, sub_account: sub_account_key },
        ),
    )
}

/// Why a position cannot be moved to its new address, if it cannot.
pub open spec fn migrate_position_refusal(
    s: TraderStateAccount,
    legacy: PositionAccount,
    trader: Pubkey,
    market_key: Pubkey,
) -> Option<FlashBookError> {
    if s.trader != trader || legacy.trader != trader {
        Some(FlashBookError::WrongTrader)
    } else if legacy.market != market_key {
        Some(FlashBookError::WrongMarket)
    } else {
        None
    }
}

/// Moves a position to the address that the trader account determines. The new
/// position carries everything over but the leverage cap, which starts unset.
pub fn migrate_position_to_trader_state_key(
    trader_state: &TraderStateAccount,
    legacy: &PositionAccount,
    trader: Pubkey,
    market_key: Pubkey,
    new_bump: u8,
) -> (r: Result<(PositionAccount, PositionMigratedEvent), FlashBookError>)
    ensures
        r == (match migrate_position_refusal(*trader_state, *legacy, trader, market_key) {
            Some(e) => Err::<(PositionAccount, PositionMigratedEvent), FlashBookError>(e),
            None => Ok(
                (
                    PositionAccount { bump: new_bump, leverage_cap: 0, ..*legacy },
                    PositionMigratedEvent {
                        trader,
                        market: market_key,
                        size_lots: legacy.size_lots,
                        collateral_quote_lots: legacy.collateral_quote_lots,
                    },
                ),
            ),
        }),
{
    if trader_state.trader != trader || legacy.trader != trader {
        return Err(FlashBookError::WrongTrader);
    }
    if legacy.market != market_key {
        return Err(FlashBookError::WrongMarket);
    }
    Ok(
        (
            PositionAccount { bump: new_bump, leverage_cap: 0, ..*legacy },
            PositionMigratedEvent {
                trader: legacy.trader,
                market: market_key,
                size_lots: legacy.size_lots,
                collateral_quote_lots: legacy.collateral_quote_lots,
            },
        ),
    )
}

/// Why a trader cannot choose a referrer, if that is so. The choice is made once.
pub open spec fn referrer_refusal(s: TraderStateAccount, signer: Pubkey) -> Option<FlashBookError> {
    if s.trader != signer {
        Some(FlashBookError::WrongTrader)
    } else if s.referrer_locked || s.referrer != Pubkey::none() {
        Some(FlashBookError::OutOfRange)
    } else {
        None
    }
}

/// An account whose owner has chosen a referrer.
pub open spec fn referrer_chosen(s: TraderStateAccount, referrer: Pubkey) -> TraderStateAccount {
    TraderStateAccount { referrer, referrer_locked: true, ..s }
}

/// Chooses the referrer of an account, once and for all. Choosing nobody opts out
/// for good.
pub fn set_trader_referrer(s: &mut TraderStateAccount, trader: Pubkey, referrer: Pubkey) -> (r:
    Result<TraderReferrerSetEvent, FlashBookError>)
    ensures
        match referrer_refusal(*old(s), trader) {
            Some(e) => r == Err::<TraderReferrerSetEvent, FlashBookError>(e) && *final(s) == *old(
                s,
            ),
            None => *final(s) == referrer_chosen(*old(s), referrer) && r == Ok::<
                TraderReferrerSetEvent,
                FlashBookError,
            >(TraderReferrerSetEvent { trader, referrer }),
        },
{
    if s.trader != trader {
        return Err(FlashBookError::WrongTrader);
    }
    if s.referrer_locked || !s.referrer.is_default() {
        return Err(FlashBookError::OutOfRange);
    }
    s.referrer = referrer;
    s.referrer_locked = true;
    Ok(TraderReferrerSetEvent { trader: s.trader, referrer })
}

/// A referrer, once chosen, cannot be chosen again, by anybody.
pub proof fn law_referrer_is_final(s: TraderStateAccount, referrer: Pubkey, signer: Pubkey)
    ensures
        referrer_refusal(referrer_chosen(s, referrer), signer) is Some,
{
}

/// Names, or with the all-zero key removes, the key that may act for an account
/// besides its owner. Only the owner may.
pub fn set_trader_delegate(s: &mut TraderStateAccount, trader: Pubkey, new_delegate: Pubkey) -> (r:
    Result<TraderDelegateUpdatedEvent, FlashBookError>)
    ensures
        if old(s).trader != trader {
            r == Err::<TraderDelegateUpdatedEvent, FlashBookError>(FlashBookError::WrongTrader)
                && *final(s) == *old(s)
        } else {
            &&& *final(s) == (TraderStateAccount { delegate: new_delegate, ..*old(s) })
            &&& r == Ok::<TraderDelegateUpdatedEvent, FlashBookError>(
                TraderDelegateUpdatedEvent { trader, previous: old(s).delegate, new: new_delegate },
            )
        },
{
    if s.trader != trader {
        return Err(FlashBookError::WrongTrader);
    }
    let previous = s.delegate;
    s.delegate = new_delegate;
    Ok(TraderDelegateUpdatedEvent { trader: s.trader, previous, new: new_delegate })
}

/// The owner can always act for an account, whatever its delegate; a delegate only
/// while it is named; and nobody acts through a removed delegate.
pub proof fn law_delegate_is_additive(s: TraderStateAccount, delegate: Pubkey, signer: Pubkey)
    ensures
        ({
            let t = TraderStateAccount { delegate, ..s };
            &&& t.authorizes(s.trader)
            &&& delegate != Pubkey::none() ==> t.authorizes(delegate)
            &&& t.authorizes(signer) ==> signer == s.trader || signer == delegate
            &&& delegate == Pubkey::none() && t.authorizes(signer) ==> signer == s.trader
        }),
{
}

/// Why a fee discount cannot be set, if it cannot.
pub open spec fn fee_tier_refusal(f: InsuranceFundAccount, signer: Pubkey, discount_bps: u32) -> Option<
    FlashBookError,
> {
    if f.authority != signer {
        Some(FlashBookError::Unauthorized)
    } else if discount_bps > MAX_FEE_DISCOUNT_BPS {
        Some(FlashBookError::OutOfRange)
    } else {
        None
    }
}

/// Sets a trader's fee discount. Only the protocol's authority may.
pub fn set_trader_fee_tier(
    s: &mut TraderStateAccount,
    insurance_fund: &InsuranceFundAccount,
    authority: Pubkey,
    discount_bps: u32,
) -> (r: Result<TraderFeeTierUpdatedEvent, FlashBookError>)
    ensures
        match fee_tier_refusal(*insurance_fund, authority, discount_bps) {
            Some(e) => r == Err::<TraderFeeTierUpdatedEvent, FlashBookError>(e) && *final(s)
                == *old(s),
            None => *final(s) == (TraderStateAccount { fee_discount_bps: discount_bps, ..*old(s) })
                && r == Ok::<TraderFeeTierUpdatedEvent, FlashBookError>(
                TraderFeeTierUpdatedEvent { trader: old(s).trader, discount_bps },
            ),
        },
{
    if insurance_fund.authority != authority {
        return Err(FlashBookError::Unauthorized);
    }
    if discount_bps > MAX_FEE_DISCOUNT_BPS {
        return Err(FlashBookError::OutOfRange);
    }
    s.fee_discount_bps = discount_bps;
    Ok(TraderFeeTierUpdatedEvent { trader: s.trader, discount_bps })
}

/// Why a position's leverage cannot be capped, if it cannot.
pub open spec fn leverage_refusal(
    m: MarketAccount,
    s: TraderStateAccount,
    p: PositionAccount,
    signer: Pubkey,
    cap: u32,
) -> Option<FlashBookError> {
    if s.trader != p.trader {
        Some(FlashBookError::WrongTrader)
    } else if !s.authorizes(signer) {
        Some(FlashBookError::Unauthorized)
    } else if cap > m.params.max_leverage {
        Some(FlashBookError::LeverageExceeded)
    } else {
        None
    }
}

/// Caps the leverage of a position, at most at the market's own limit; 0 removes
/// the cap.
pub fn set_position_leverage(
    market_key: Pubkey,
    market: &MarketAccount,
    trader_state: &TraderStateAccount,
    position: &mut PositionAccount,
    authority: Pubkey,
    cap: u32,
) -> (r: Result<PositionLeverageUpdatedEvent, FlashBookError>)
    ensures
        match leverage_refusal(*market, *trader_state, *old(position), authority, cap) {
            Some(e) => r == Err::<PositionLeverageUpdatedEvent, FlashBookError>(e)
                && *final(position) == *old(position),
            None => {
                &&& *final(position) == (PositionAccount { leverage_cap: cap, ..*old(position) })
                &&& r == Ok::<PositionLeverageUpdatedEvent, FlashBookError>(
                    PositionLeverageUpdatedEvent {
                        market: market_key,
                        trader: old(position).trader,
                        previous_cap: old(position).leverage_cap,
                        new_cap: cap,
                    },
                )
            },
        },
{
    if trader_state.trader != position.trader {
        return Err(FlashBookError::WrongTrader);
    }
    if !trader_state.is_authorized(authority) {
        return Err(FlashBookError::Unauthorized);
    }
    if cap > 0 && cap > market.params.max_leverage {
        return Err(FlashBookError::LeverageExceeded);
    }
    let previous_cap: u32 = position.leverage_cap;
    position.leverage_cap = cap;
    Ok(
        PositionLeverageUpdatedEvent {
            market: market_key,
            trader: position.trader,
            previous_cap,
            new_cap: cap,
        },
    )
}

/// Why a builder cannot be named, if it cannot.
pub open spec fn builder_refusal(s: TraderStateAccount, signer: Pubkey, max_fee_share_bps: u32) -> Option<
    FlashBookError,
> {
    if s.trader != signer {
        Some(FlashBookError::WrongTrader)
    } else if max_fee_share_bps > BPS_DENOM {
        Some(FlashBookError::OutOfRange)
    } else {
        None
    }
}

/// The share that a named builder may collect at most; nobody collects none.
pub open spec fn builder_share(builder: Pubkey, max_fee_share_bps: u32) -> u32 {
    if builder == Pubkey::none() {
        0
    } else {
        max_fee_share_bps
    }
}

/// Names, or with the all-zero key revokes, the builder that may share in the fees
/// of an account. Only the owner may.
pub fn set_trader_builder(
    s: &mut TraderStateAccount,
    trader: Pubkey,
    builder: Pubkey,
    max_fee_share_bps: u32,
) -> (r: Result<TraderBuilderUpdatedEvent, FlashBookError>)
    ensures
        match builder_refusal(*old(s), trader, max_fee_share_bps) {
            Some(e) => r == Err::<TraderBuilderUpdatedEvent, FlashBookError>(e) && *final(s)
                == *old(s),
            None => {
                let share = builder_share(builder, max_fee_share_bps);
                &&& *final(s) == (TraderStateAccount {
                    builder,
                    builder_max_fee_share_bps: share,
                    ..*old(s)
                })
                &&& r == Ok::<TraderBuilderUpdatedEvent, FlashBookError>(
                    TraderBuilderUpdatedEvent {
                        trader,
                        previous: old(s).builder,
                        new: builder,
                        max_fee_share_bps: share,
                    },
                )
            },
        },
{
    if s.trader != trader {
        return Err(FlashBookError::WrongTrader);
    }
    if max_fee_share_bps as u64 > BPS_DENOM {
        return Err(FlashBookError::OutOfRange);
    }
    let previous = s.builder;
    let share: u32 = if builder.is_default() {
        0
    } else {
        max_fee_share_bps
    };
    s.builder = builder;
    s.builder_max_fee_share_bps = share;
    Ok(
        TraderBuilderUpdatedEvent {
            trader: s.trader,
            previous,
            new: builder,
            max_fee_share_bps: share,
        },
    )
}

} // verus!
