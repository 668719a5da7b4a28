//! Standing offers of makers to take over liquidated positions.
use vstd::prelude::*;

use crate::errors::FlashBookError;
use crate::events::{JitLiquidationOfferCancelledEvent, JitLiquidationOfferPlacedEvent};
use crate::keys::Pubkey;
use crate::state::{JitLiquidationOfferAccount, MarketAccount};

verus! {

/// What a maker asks for when placing an offer.
#[derive(Clone, Copy, Debug, PartialEq, Eq, Structural)]
pub struct JitOfferRequest {
    pub nonce: u32,
    pub target_trader: Pubkey,
    pub side: u8,
    pub offer_price_ticks: u64,
    pub max_size_lots: u64,
    pub expires_at_slot: u64,
    pub maker_sub_index: u8,
}

/// Why an offer is refused, if it is.
pub open spec fn jit_offer_refusal(m: MarketAccount, q: JitOfferRequest, now: u64) -> Option<
    FlashBookError,
> {
    if q.side > 1 {
        Some(FlashBookError::OutOfRange)
    } else if q.offer_price_ticks == 0 {
        Some(FlashBookError::ZeroPrice)
    } else if q.max_size_lots == 0 {
        Some(FlashBookError::ZeroSize)
    } else if q.offer_price_ticks % m.params.tick_size != 0 {
        Some(FlashBookError::PriceNotOnTick)
    } else if q.max_size_lots < m.params.min_base_lots {
        Some(FlashBookError::SizeBelowMinLot)
    } else if q.expires_at_slot != 0 && q.expires_at_slot <= now {
        Some(FlashBookError::OutOfRange)
    } else {
        None
    }
}

/// Places an offer, which is returned with what is reported of it.
pub fn place_jit_liquidation_offer(
    market_key: Pubkey,
    market: &MarketAccount,
    maker: Pubkey,
    bump: u8,
    q: JitOfferRequest,
    now: u64,
) -> (r: Result<(JitLiquidationOfferAccount, JitLiquidationOfferPlacedEvent), FlashBookError>)
    requires
        market.params.tick_size > 0,
    ensures
        r == (match jit_offer_refusal(*market, q, now) {
            Some(e) => Err::<
                (JitLiquidationOfferAccount, JitLiquidationOfferPlacedEvent),
                FlashBookError,
            >(e),
            None => Ok(
                (
                    JitLiquidationOfferAccount {
                        bump,
                        side: q.side,
                        maker_sub_index: q.maker_sub_index,
                        nonce: q.nonce,
                        market: market_key,
                        maker,
                        target_trader: q.target_trader,
                        offer_price_ticks: q.offer_price_ticks,
                        max_size_lots: q.max_size_lots,
                        remaining_size_lots: q.max_size_lots,
                        created_at_slot: now,
                        expires_at_slot: q.expires_at_slot,
                    },
                    JitLiquidationOfferPlacedEvent {
                        market: market_key,
                        maker,
                        target_trader: q.target_trader,
                        nonce: q.nonce,
                        side: q.side,
                        offer_price_ticks: q.offer_price_ticks,
                        max_size_lots: q.max_size_lots,
                        expires_at_slot: q.expires_at_slot,
                    },
                ),
            ),
        }),
{
    if q.side > 1 {
        return Err(FlashBookError::OutOfRange);
    }
    if q.offer_price_ticks == 0 {
        return Err(FlashBookError::ZeroPrice);
    }
    if q.max_size_lots == 0 {
        return Err(FlashBookError::ZeroSize);
    }
    if q.offer_price_ticks % market.params.tick_size != 0 {
        return Err(FlashBookError::PriceNotOnTick);
    }
    if q.max_size_lots < market.params.min_base_lots {
        return Err(FlashBookError::SizeBelowMinLot);
    }
    if q.expires_at_slot != 0 && q.expires_at_slot <= now {
        return Err(FlashBookError::OutOfRange);
    }
    Ok(
        (
            JitLiquidationOfferAccount {
                bump,
                side: q.side,
                maker_sub_index: q.maker_sub_index,
                nonce: q.nonce,
                market: market_key,
                maker,
                target_trader: q.target_trader,
                offer_price_ticks: q.offer_price_ticks,
                max_size_lots: q.max_size_lots,
                remaining_size_lots: q.max_size_lots,
                created_at_slot: now,
                expires_at_slot: q.expires_at_slot,
            },
            JitLiquidationOfferPlacedEvent {
                market: market_key,
                maker,
                target_trader: q.target_trader,
                nonce: q.nonce,
                side: q.side,
                offer_price_ticks: q.offer_price_ticks,
                max_size_lots: q.max_size_lots,
                expires_at_slot: q.expires_at_slot,
            },
        ),
    )
}

/// Withdraws an offer. Only its maker may; the account is then to be closed.
pub fn cancel_jit_liquidation_offer(offer: &JitLiquidationOfferAccount, maker: Pubkey) -> (r: Result<
    JitLiquidationOfferCancelledEvent,
    FlashBookError,
>)
    ensures
        r == (if offer.maker != maker {
            Err::<JitLiquidationOfferCancelledEvent, FlashBookError>(FlashBookError::Unauthorized)
        } else {
            Ok(
                JitLiquidationOfferCancelledEvent {
                    market: offer.market,
                    maker,
                    nonce: offer.nonce,
                    unfilled_size_lots: offer.remaining_size_lots,
                },
            )
        }),
{
    if offer.maker != maker {
        return Err(FlashBookError::Unauthorized);
    }
    Ok(
        JitLiquidationOfferCancelledEvent {
            market: offer.market,
            maker,
            nonce: offer.nonce,
            unfilled_size_lots: offer.remaining_size_lots,
        },
    )
}

} // verus!
