//! The bounds on price moves that a market declares, and what accrues to its sides.
use vstd::prelude::*;

use crate::errors::{EnvelopeError, FlashBookError, envelope_refusal, map_envelope_error};
use crate::events::{EnvelopeConfigSetEvent, EnvelopeVerifiedEvent, SideAccrualInitializedEvent};
use crate::keys::Pubkey;
use crate::math::sat_u32;
use crate::state::{
    EnvelopeParams, MarketAccount, MarketEnvelopeConfigAccount, MarketSideAccrualAccount,
    SideAccrual,
};

verus! {

/// Bounds for a market as they were before anything was declared.
pub open spec fn fresh_envelope(
    c: MarketEnvelopeConfigAccount,
    market_key: Pubkey,
    bump: u8,
) -> MarketEnvelopeConfigAccount {
    if c.market == Pubkey::none() {
        MarketEnvelopeConfigAccount {
            market: market_key,
            bump,
            version: 0,
            last_observed_slot: 0,
            last_observed_price_ticks: 0,
            gate_passes: 0,
            gate_rejects: 0,
            ..c
        }
    } else {
        c
    }
}

/// Why bounds cannot be declared, if they cannot. `proof_of` is what the envelope
/// arithmetic says to them.
pub open spec fn envelope_config_refusal(
    m: MarketAccount,
    signer: Pubkey,
    proof_of: Result<(), EnvelopeError>,
) -> Option<FlashBookError> {
    if m.authority != signer {
        Some(FlashBookError::Unauthorized)
    } else {
        match proof_of {
            Err(e) => Some(envelope_refusal(e)),
            Ok(_) => None,
        }
    }
}

/// The bounds after a declaration. Their version goes up even if nothing changed.
pub open spec fn envelope_declared(
    c: MarketEnvelopeConfigAccount,
    market_key: Pubkey,
    bump: u8,
    params: EnvelopeParams,
    slot: u64,
) -> MarketEnvelopeConfigAccount {
    let f = fresh_envelope(c, market_key, bump);
    MarketEnvelopeConfigAccount {
        params,
        last_proven_at_slot: slot,
        version: sat_u32(f.version + 1) as u32,
        ..f
    }
}

/// Declares the bounds of a market. Only its authority may, and only bounds that the
/// envelope arithmetic accepts. On refusal nothing changes.
pub fn set_envelope_config(
    market_key: Pubkey,
    market: &MarketAccount,
    authority: Pubkey,
    bump: u8,
    cfg: &mut MarketEnvelopeConfigAccount,
    params: EnvelopeParams,
    proof_of: Result<(), EnvelopeError>,
    slot: u64,
) -> (r: Result<EnvelopeConfigSetEvent, FlashBookError>)
    ensures
        match envelope_config_refusal(*market, authority, proof_of) {
            Some(e) => r == Err::<EnvelopeConfigSetEvent, FlashBookError>(e) && *final(cfg) == *old(
                cfg,
            ),
            None => {
                let c = envelope_declared(*old(cfg), market_key, bump, params, slot);
                &&& *final(cfg) == c
                &&& r == Ok::<EnvelopeConfigSetEvent, FlashBookError>(
                    EnvelopeConfigSetEvent {
                        market: c.market,
                        version: c.version,
                        max_price_move_bps_per_slot: params.max_price_move_bps_per_slot,
                        max_accrual_dt_slots: params.max_accrual_dt_slots,
                        maintenance_bps: params.maintenance_bps,
                        liquidation_fee_bps: params.liquidation_fee_bps,
                    },
                )
            },
        },
{
    if market.authority != authority {
        return Err(FlashBookError::Unauthorized);
    }
    match proof_of {
        Ok(_) => {},
        Err(e) => {
            return Err(map_envelope_error(e));
        },
    }
    if cfg.market.is_default() {
        cfg.market = market_key;
        cfg.bump = bump;
        cfg.version = 0;
        cfg.last_observed_slot = 0;
        cfg.last_observed_price_ticks = 0;
        cfg.gate_passes = 0;
        cfg.gate_rejects = 0;
    }
    cfg.params = params;
    cfg.last_proven_at_slot = slot;
    cfg.version = cfg.version.saturating_add(1);
    Ok(
        EnvelopeConfigSetEvent {
            market: cfg.market,
            version: cfg.version,
            max_price_move_bps_per_slot: params.max_price_move_bps_per_slot,
            max_accrual_dt_slots: params.max_accrual_dt_slots,
            maintenance_bps: params.maintenance_bps,
            liquidation_fee_bps: params.liquidation_fee_bps,
        },
    )
}

/// Declaring bounds anew keeps the last observed price and both counts.
pub proof fn law_declaration_keeps_observations(
    c: MarketEnvelopeConfigAccount,
    market_key: Pubkey,
    bump: u8,
    params: EnvelopeParams,
    slot: u64,
)
    requires
        c.market != Pubkey::none(),
    ensures
        ({
            let d = envelope_declared(c, market_key, bump, params, slot);
            &&& d.market == c.market
            &&& d.last_observed_slot == c.last_observed_slot
            &&& d.last_observed_price_ticks == c.last_observed_price_ticks
            &&& d.gate_passes == c.gate_passes
            &&& d.gate_rejects == c.gate_rejects
            &&& c.version < u32::MAX ==> d.version == c.version + 1
        }),
{
}

/// Reports whether declared bounds still hold: anyone may ask. `proof_of` is what the
/// envelope arithmetic says to them.
pub fn verify_envelope_config(
    cfg: &MarketEnvelopeConfigAccount,
    proof_of: Result<(), EnvelopeError>,
) -> (r: EnvelopeVerifiedEvent)
    ensures
        r == (EnvelopeVerifiedEvent {
            market: cfg.market,
            version: cfg.version,
            passed: proof_of is Ok,
        }),
{
    let passed: bool = match proof_of {
        Ok(_) => true,
        Err(_) => false,
    };
    EnvelopeVerifiedEvent { market: cfg.market, version: cfg.version, passed }
}

/// Tests a proposed price move without making it: anyone may ask. `verdict` is what
/// the envelope arithmetic says to the move under the market's largest move per
/// slot.
pub fn gate_envelope_price_move(verdict: Result<(), EnvelopeError>) -> (r: Result<
    (),
    FlashBookError,
>)
    ensures
        r == (match verdict {
            Ok(_) => Ok::<(), FlashBookError>(()),
            Err(e) => Err(envelope_refusal(e)),
        }),
{
    match verdict {
        Ok(_) => Ok(()),
        Err(e) => Err(map_envelope_error(e)),
    }
}

/// A side to which nothing has accrued. `unit` is the number for an undiminished
/// position.
pub open spec fn fresh_side(unit: u128, price: u64, slot: u64) -> SideAccrual {
    SideAccrual {
        a: unit,
        k: 0,
        f: 0,
        b: 0,
        mode: 0,
        epoch: 0,
        slot_last: slot,
        price_last: price,
    }
}

/// Sets up what accrues to the sides of a market. Only its authority may.
pub fn initialize_side_accrual(
    market_key: Pubkey,
    market: &MarketAccount,
    authority: Pubkey,
    bump: u8,
    unit: u128,
    initial_price_ticks: u64,
    initial_slot: u64,
) -> (r: Result<(MarketSideAccrualAccount, SideAccrualInitializedEvent), FlashBookError>)
    ensures
        r == (if market.authority != authority {
            Err::<(MarketSideAccrualAccount, SideAccrualInitializedEvent), FlashBookError>(
                FlashBookError::Unauthorized,
            )
        } else {
            Ok(
                (
                    MarketSideAccrualAccount {
                        market: market_key,
                        bump,
                        long: fresh_side(unit, initial_price_ticks, initial_slot),
                        short: fresh_side(unit, initial_price_ticks, initial_slot),
                    },
                    SideAccrualInitializedEvent {
                        market: market_key,
                        initial_price_ticks,
                        initial_slot,
                    },
                ),
            )
        }),
{
    if market.authority != authority {
        return Err(FlashBookError::Unauthorized);
    }
    let side = SideAccrual {
        a: unit,
        k: 0,
        f: 0,
        b: 0,
        mode: 0,
        epoch: 0,
        slot_last: initial_slot,
        price_last: initial_price_ticks,
    };
    Ok(
        (
            MarketSideAccrualAccount { market: market_key, bump, long: side, short: side },
            SideAccrualInitializedEvent { market: market_key, initial_price_ticks, initial_slot },
        ),
    )
}

} // verus!
