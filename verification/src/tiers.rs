//! The fee table and the leverage tables.
use vstd::prelude::*;

use crate::constants::{BPS_DENOM, MAX_FEE_TIERS, MAX_FEE_TIER_BPS, MAX_LEVERAGE_TIERS};
use crate::errors::FlashBookError;
use crate::events::{
    FeeTiersInitializedEvent, FeeTiersUpdatedEvent, MarketLeverageTiersInitializedEvent,
    MarketLeverageTiersUpdatedEvent, TraderEffectiveTierEvent,
};
use crate::keys::Pubkey;
use crate::math::{abs_int, sat_u64};
use crate::state::{
    FeeTier, FeeTiersAccount, LeverageTier, MarketAccount, MarketLeverageTiersAccount,
    TraderStateAccount,
};

verus! {

/// A fee table that traders can be priced by: it starts at volume zero, its
/// thresholds rise, no tier is worse than the one before it, and no rate is
/// larger than the cap.
pub open spec fn fee_tiers_valid(volume_window_slots: u64, tiers: Seq<FeeTier>) -> bool {
    &&& volume_window_slots > 0
    &&& 0 < tiers.len() <= MAX_FEE_TIERS
    &&& tiers[0].min_volume_quote_lots == 0
    &&& forall|i: int| 0 <= i < tiers.len() ==> fee_rates_in_range(#[trigger] tiers[i])
    &&& forall|i: int, j: int|
        0 <= i < j < tiers.len() ==> fee_tier_improves(#[trigger] tiers[i], #[trigger] tiers[j])
}

/// Neither rate of a tier exceeds the cap, in either direction.
pub open spec fn fee_rates_in_range(t: FeeTier) -> bool {
    t.taker_fee_bps <= MAX_FEE_TIER_BPS && abs_int(t.maker_rebate_bps as int) <= MAX_FEE_TIER_BPS
}

/// The later tier asks for more volume and treats neither side worse.
pub open spec fn fee_tier_improves(a: FeeTier, b: FeeTier) -> bool {
    a.min_volume_quote_lots < b.min_volume_quote_lots && b.taker_fee_bps <= a.taker_fee_bps
        && a.maker_rebate_bps <= b.maker_rebate_bps
}

/// Accepts a fee table exactly when it is valid.
pub fn validate_fee_tiers(volume_window_slots: u64, tiers: &Vec<FeeTier>) -> (r: Result<
    (),
    FlashBookError,
>)
    ensures
        r == (if fee_tiers_valid(volume_window_slots, tiers@) {
            Ok::<(), FlashBookError>(())
        } else {
            Err(FlashBookError::OutOfRange)
        }),
{
    if volume_window_slots == 0 || tiers.len() == 0 || tiers.len() > MAX_FEE_TIERS {
        return Err(FlashBookError::OutOfRange);
    }
    if tiers[0].min_volume_quote_lots != 0 {
        return Err(FlashBookError::OutOfRange);
    }
    let mut i: usize = 0;
    while i < tiers.len()
        invariant
            i <= tiers@.len(),
            forall|k: int| 0 <= k < i ==> fee_rates_in_range(#[trigger] tiers@[k]),
            forall|k: int, j: int|
                0 <= k < j < i ==> fee_tier_improves(#[trigger] tiers@[k], #[trigger] tiers@[j]),
        decreases tiers@.len() - i,
    {
        let t: FeeTier = tiers[i];
        let rebate: i64 = t.maker_rebate_bps as i64;
        if t.taker_fee_bps > MAX_FEE_TIER_BPS || rebate > MAX_FEE_TIER_BPS as i64 || -rebate
            > MAX_FEE_TIER_BPS as i64 {
            assert(!fee_rates_in_range(tiers@[i as int]));
            return Err(FlashBookError::OutOfRange);
        }
        if i > 0 {
            let p: FeeTier = tiers[i - 1];
            if t.min_volume_quote_lots <= p.min_volume_quote_lots || t.taker_fee_bps
                > p.taker_fee_bps || t.maker_rebate_bps < p.maker_rebate_bps {
                assert(!fee_tier_improves(tiers@[i - 1], tiers@[i as int]));
                return Err(FlashBookError::OutOfRange);
            }
            assert(fee_tier_improves(tiers@[i - 1], tiers@[i as int]));
        }
        i = i + 1;
    }
    Ok(())
}

/// A leverage table that only tightens margins: thresholds rise, and every
/// ratio lies between the market's own and one hundred percent.
pub open spec fn leverage_tiers_valid(base_mmr_bps: u32, tiers: Seq<LeverageTier>) -> bool {
    &&& 0 < tiers.len() <= MAX_LEVERAGE_TIERS
    &&& forall|i: int|
        0 <= i < tiers.len() ==> base_mmr_bps <= (#[trigger] tiers[i]).mmr_bps <= BPS_DENOM
    &&& forall|i: int, j: int|
        0 <= i < j < tiers.len() ==> (#[trigger] tiers[i]).min_notional_quote_lots < (
        #[trigger] tiers[j]).min_notional_quote_lots
}

/// Accepts a leverage table exactly when it is valid.
pub fn validate_leverage_tiers(market: &MarketAccount, tiers: &Vec<LeverageTier>) -> (r: Result<
    (),
    FlashBookError,
>)
    ensures
        r == (if tiers@.len() == 0 {
            Err::<(), FlashBookError>(FlashBookError::ZeroSize)
        } else if leverage_tiers_valid(market.params.maintenance_margin_ratio_bps, tiers@) {
            Ok(())
        } else {
            Err(FlashBookError::OutOfRange)
        }),
{
    if tiers.len() == 0 {
        return Err(FlashBookError::ZeroSize);
    }
    if tiers.len() > MAX_LEVERAGE_TIERS {
        return Err(FlashBookError::OutOfRange);
    }
    let base_mmr: u32 = market.params.maintenance_margin_ratio_bps;
    let mut i: usize = 0;
    while i < tiers.len()
        invariant
            i <= tiers@.len(),
            base_mmr == market.params.maintenance_margin_ratio_bps,
            forall|k: int|
                0 <= k < i ==> base_mmr <= (#[trigger] tiers@[k]).mmr_bps <= BPS_DENOM,
            forall|k: int, j: int|
                0 <= k < j < i ==> (#[trigger] tiers@[k]).min_notional_quote_lots < (
                #[trigger] tiers@[j]).min_notional_quote_lots,
        decreases tiers@.len() - i,
    {
        let t: LeverageTier = tiers[i];
        if t.mmr_bps < base_mmr || t.mmr_bps as u64 > BPS_DENOM {
            assert(!(base_mmr <= tiers@[i as int].mmr_bps <= BPS_DENOM));
            return Err(FlashBookError::OutOfRange);
        }
        if i > 0 && t.min_notional_quote_lots <= tiers[i - 1].min_notional_quote_lots {
            assert(!(tiers@[i - 1].min_notional_quote_lots
                < tiers@[i as int].min_notional_quote_lots));
            return Err(FlashBookError::OutOfRange);
        }
        i = i + 1;
    }
    Ok(())
}

/// The first tier from `i` on whose threshold `volume` does not reach.
pub open spec fn tiers_reached(tiers: Seq<FeeTier>, volume: u64, i: int) -> int
    decreases tiers.len() - i,
{
    if i >= tiers.len() || volume < tiers[i].min_volume_quote_lots {
        i
    } else {
        tiers_reached(tiers, volume, i + 1)
    }
}

/// The tier that `volume` earns: the last one reached, tier 0 if none is.
pub open spec fn tier_index(tiers: Seq<FeeTier>, volume: u64) -> int {
    let n = tiers_reached(tiers, volume, 0);
    if n == 0 {
        0
    } else {
        n - 1
    }
}

/// Reaching is monotone in where one starts and never runs past the table.
pub proof fn lemma_tiers_reached_bounds(tiers: Seq<FeeTier>, volume: u64, i: int)
    requires
        0 <= i <= tiers.len(),
    ensures
        i <= tiers_reached(tiers, volume, i) <= tiers.len(),
    decreases tiers.len() - i,
{
    if i < tiers.len() && volume >= tiers[i].min_volume_quote_lots {
        lemma_tiers_reached_bounds(tiers, volume, i + 1);
    }
}

/// Counts the leading tiers whose threshold `volume` reaches.
pub fn count_tiers_reached(tiers: &Vec<FeeTier>, volume: u64) -> (r: usize)
    ensures
        r == tiers_reached(tiers@, volume, 0),
        r <= tiers@.len(),
{
    let mut i: usize = 0;
    while i < tiers.len() && volume >= tiers[i].min_volume_quote_lots
        invariant
            i <= tiers@.len(),
            tiers_reached(tiers@, volume, 0) == tiers_reached(tiers@, volume, i as int),
        decreases tiers@.len() - i,
    {
        i = i + 1;
    }
    i
}

/// Index of the tier that `volume` earns.
pub fn tier_index_for_volume(tiers: &Vec<FeeTier>, volume: u64) -> (r: u8)
    requires
        tiers@.len() <= 256,
    ensures
        r == tier_index(tiers@, volume),
{
    let n: usize = count_tiers_reached(tiers, volume);
    if n == 0 {
        0
    } else {
        (n - 1) as u8
    }
}

/// The (maker, taker) rates that `volume` earns; the given defaults where no
/// tier is reached, as in an empty table.
pub open spec fn fee_rates(
    default_maker: i32,
    default_taker: u32,
    tiers: Seq<FeeTier>,
    volume: u64,
) -> (i32, u32) {
    let n = tiers_reached(tiers, volume, 0);
    if n == 0 {
        (default_maker, default_taker)
    } else {
        (tiers[n - 1].maker_rebate_bps, tiers[n - 1].taker_fee_bps)
    }
}

/// Looks up the rates that `volume` earns.
pub fn resolve_fee_tier(
    default_maker_rebate_bps: i32,
    default_taker_fee_bps: u32,
    tiers: &Vec<FeeTier>,
    volume: u64,
) -> (r: (i32, u32))
    ensures
        r == fee_rates(default_maker_rebate_bps, default_taker_fee_bps, tiers@, volume),
{
    let n: usize = count_tiers_reached(tiers, volume);
    if n == 0 {
        (default_maker_rebate_bps, default_taker_fee_bps)
    } else {
        (tiers[n - 1].maker_rebate_bps, tiers[n - 1].taker_fee_bps)
    }
}

/// A trader after `notional` more volume. A window that never started, or that
/// started more than `window` slots ago, starts over at `now` first.
pub open spec fn volume_credited(
    s: TraderStateAccount,
    notional: u64,
    now: u64,
    window: u64,
) -> TraderStateAccount {
    let expired = s.volume_window_start_slot == 0 || now - s.volume_window_start_slot > window;
    TraderStateAccount {
        volume_30d_quote_lots: sat_u64(
            if expired {
                notional as int
            } else {
                s.volume_30d_quote_lots + notional
            },
        ) as u64,
        volume_window_start_slot: if expired {
            now
        } else {
            s.volume_window_start_slot
        },
        ..s
    }
}

/// Adds one fill to a trader's rolling volume.
pub fn credit_volume_for_tier(
    state: &mut TraderStateAccount,
    notional_quote_lots: u64,
    now_slot: u64,
    window_slots: u64,
)
    ensures
        *final(state) == volume_credited(*old(state), notional_quote_lots, now_slot, window_slots),
{
    let elapsed: u64 = now_slot.saturating_sub(state.volume_window_start_slot);
    if state.volume_window_start_slot == 0 || elapsed > window_slots {
        state.volume_30d_quote_lots = 0;
        state.volume_window_start_slot = now_slot;
    }
    state.volume_30d_quote_lots = state.volume_30d_quote_lots.saturating_add(notional_quote_lots);
}

/// More volume never earns a lower tier.
pub proof fn law_tier_grows_with_volume(tiers: Seq<FeeTier>, v1: u64, v2: u64)
    requires
        v1 <= v2,
    ensures
        tier_index(tiers, v1) <= tier_index(tiers, v2),
{
    lemma_tiers_reached_grows(tiers, v1, v2, 0);
}

/// More volume reaches at least as many tiers.
pub proof fn lemma_tiers_reached_grows(tiers: Seq<FeeTier>, v1: u64, v2: u64, i: int)
    requires
        v1 <= v2,
        0 <= i <= tiers.len(),
    ensures
        tiers_reached(tiers, v1, i) <= tiers_reached(tiers, v2, i),
    decreases tiers.len() - i,
{
    lemma_tiers_reached_bounds(tiers, v1, i);
    lemma_tiers_reached_bounds(tiers, v2, i);
    if i < tiers.len() && v1 >= tiers[i].min_volume_quote_lots {
        lemma_tiers_reached_grows(tiers, v1, v2, i + 1);
    }
}

/// In a valid table more volume never earns a higher taker fee or a lower maker
/// rebate, whatever the defaults are.
pub proof fn law_more_volume_is_never_dearer(
    window: u64,
    tiers: Seq<FeeTier>,
    default_maker: i32,
    default_taker: u32,
    v1: u64,
    v2: u64,
)
    requires
        fee_tiers_valid(window, tiers),
        v1 <= v2,
    ensures
        fee_rates(default_maker, default_taker, tiers, v2).1 <= fee_rates(
            default_maker,
            default_taker,
            tiers,
            v1,
        ).1,
        fee_rates(default_maker, default_taker, tiers, v1).0 <= fee_rates(
            default_maker,
            default_taker,
            tiers,
            v2,
        ).0,
{
    lemma_tiers_reached_grows(tiers, v1, v2, 0);
    assert(tiers_reached(tiers, v1, 0) == tiers_reached(tiers, v1, 1));
    lemma_tiers_reached_bounds(tiers, v1, 1);
    lemma_tiers_reached_bounds(tiers, v2, 0);
    let a = tiers_reached(tiers, v1, 0) - 1;
    let b = tiers_reached(tiers, v2, 0) - 1;
    if a < b {
        assert(fee_tier_improves(tiers[a], tiers[b]));
    }
}

/// A trader's tier earned by `volume` in a valid table is the one whose
/// threshold it reaches while it misses the next one.
pub proof fn law_tier_brackets_volume(window: u64, tiers: Seq<FeeTier>, volume: u64)
    requires
        fee_tiers_valid(window, tiers),
    ensures
        0 <= tier_index(tiers, volume) < tiers.len(),
        tiers[tier_index(tiers, volume)].min_volume_quote_lots <= volume,
        tier_index(tiers, volume) + 1 < tiers.len() ==> volume < tiers[tier_index(tiers, volume)
            + 1].min_volume_quote_lots,
{
    assert(tiers_reached(tiers, volume, 0) == tiers_reached(tiers, volume, 1));
    lemma_tiers_reached_brackets(tiers, volume, 1);
}

/// What lies before the first tier that is missed is reached.
pub proof fn lemma_tiers_reached_brackets(tiers: Seq<FeeTier>, volume: u64, i: int)
    requires
        0 < i <= tiers.len(),
        tiers[i - 1].min_volume_quote_lots <= volume,
    ensures
        i <= tiers_reached(tiers, volume, i) <= tiers.len(),
        tiers[tiers_reached(tiers, volume, i) - 1].min_volume_quote_lots <= volume,
        tiers_reached(tiers, volume, i) < tiers.len() ==> volume < tiers[tiers_reached(
            tiers,
            volume,
            i,
        )].min_volume_quote_lots,
    decreases tiers.len() - i,
{
    if i < tiers.len() && volume >= tiers[i].min_volume_quote_lots {
        lemma_tiers_reached_brackets(tiers, volume, i + 1);
    }
}

/// Installs the leverage table of a market. Only its authority may.
pub fn init_market_leverage_tiers(
    market_key: Pubkey,
    market: &MarketAccount,
    authority: Pubkey,
    bump: u8,
    tiers: Vec<LeverageTier>,
) -> (r: Result<
    (MarketLeverageTiersAccount, MarketLeverageTiersInitializedEvent),
    FlashBookError,
>)
    ensures
        match r {
            Ok((acct, ev)) => {
                &&& market.authority == authority
                &&& leverage_tiers_valid(market.params.maintenance_margin_ratio_bps, tiers@)
                &&& acct.market == market_key
                &&& acct.bump == bump
                &&& acct.tiers@ == tiers@
                &&& ev.market == market_key
                &&& ev.tier_count == tiers@.len()
            },
            Err(e) => if market.authority != authority {
                e == FlashBookError::Unauthorized
            } else {
                &&& !leverage_tiers_valid(market.params.maintenance_margin_ratio_bps, tiers@)
                &&& e == if tiers@.len() == 0 {
                    FlashBookError::ZeroSize
                } else {
                    FlashBookError::OutOfRange
                }
            },
        },
{
    if market.authority != authority {
        return Err(FlashBookError::Unauthorized);
    }
    match validate_leverage_tiers(market, &tiers) {
        Ok(_) => {},
        Err(e) => {
            return Err(e);
        },
    }
    let tier_count: u8 = tiers.len() as u8;
    Ok(
        (
            MarketLeverageTiersAccount { market: market_key, bump, tiers },
            MarketLeverageTiersInitializedEvent { market: market_key, tier_count },
        ),
    )
}

/// Replaces the leverage table of a market. Only its authority may; on refusal the
/// old table stays.
pub fn update_market_leverage_tiers(
    market: &MarketAccount,
    authority: Pubkey,
    acct: &mut MarketLeverageTiersAccount,
    tiers: Vec<LeverageTier>,
) -> (r: Result<MarketLeverageTiersUpdatedEvent, FlashBookError>)
    ensures
        final(acct).market == old(acct).market,
        final(acct).bump == old(acct).bump,
        match r {
            Ok(ev) => {
                &&& market.authority == authority
                &&& leverage_tiers_valid(market.params.maintenance_margin_ratio_bps, tiers@)
                &&& final(acct).tiers@ == tiers@
                &&& ev.market == old(acct).market
                &&& ev.tier_count == tiers@.len()
            },
            Err(e) => {
                &&& *final(acct) == *old(acct)
                &&& if market.authority != authority {
                    e == FlashBookError::Unauthorized
                } else {
                    &&& !leverage_tiers_valid(market.params.maintenance_margin_ratio_bps, tiers@)
                    &&& e == if tiers@.len() == 0 {
                        FlashBookError::ZeroSize
                    } else {
                        FlashBookError::OutOfRange
                    }
                }
            },
        },
{
    if market.authority != authority {
        return Err(FlashBookError::Unauthorized);
    }
    match validate_leverage_tiers(market, &tiers) {
        Ok(_) => {},
        Err(e) => {
            return Err(e);
        },
    }
    let tier_count: u8 = tiers.len() as u8;
    acct.tiers = tiers;
    Ok(MarketLeverageTiersUpdatedEvent { market: acct.market, tier_count })
}

/// Installs the fee table of the exchange; the signer becomes its authority.
pub fn init_fee_tiers(
    authority: Pubkey,
    bump: u8,
    volume_window_slots: u64,
    tiers: Vec<FeeTier>,
) -> (r: Result<(FeeTiersAccount, FeeTiersInitializedEvent), FlashBookError>)
    ensures
        match r {
            Ok((acct, ev)) => {
                &&& fee_tiers_valid(volume_window_slots, tiers@)
                &&& acct.authority == authority
                &&& acct.bump == bump
                &&& acct.volume_window_slots == volume_window_slots
                &&& acct.tiers@ == tiers@
                &&& ev.authority == authority
                &&& ev.tier_count == tiers@.len()
                &&& ev.volume_window_slots == volume_window_slots
            },
            Err(e) => !fee_tiers_valid(volume_window_slots, tiers@) && e
                == FlashBookError::OutOfRange,
        },
{
    match validate_fee_tiers(volume_window_slots, &tiers) {
        Ok(_) => {},
        Err(e) => {
            return Err(e);
        },
    }
    let tier_count: u8 = tiers.len() as u8;
    Ok(
        (
            FeeTiersAccount { authority, bump, volume_window_slots, tiers },
            FeeTiersInitializedEvent { authority, tier_count, volume_window_slots },
        ),
    )
}

/// Replaces the fee table. Only its authority may; on refusal the old table
/// stays.
pub fn update_fee_tiers(
    acct: &mut FeeTiersAccount,
    authority: Pubkey,
    volume_window_slots: u64,
    tiers: Vec<FeeTier>,
) -> (r: Result<FeeTiersUpdatedEvent, FlashBookError>)
    ensures
        final(acct).authority == old(acct).authority,
        final(acct).bump == old(acct).bump,
        match r {
            Ok(ev) => {
                &&& fee_tiers_valid(volume_window_slots, tiers@)
                &&& old(acct).authority == authority
                &&& final(acct).volume_window_slots == volume_window_slots
                &&& final(acct).tiers@ == tiers@
                &&& ev.authority == authority
                &&& ev.tier_count == tiers@.len()
                &&& ev.volume_window_slots == volume_window_slots
            },
            Err(e) => {
                &&& *final(acct) == *old(acct)
                &&& if fee_tiers_valid(volume_window_slots, tiers@) {
                    old(acct).authority != authority && e == FlashBookError::Unauthorized
                } else {
                    e == FlashBookError::OutOfRange
                }
            },
        },
{
    match validate_fee_tiers(volume_window_slots, &tiers) {
        Ok(_) => {},
        Err(e) => {
            return Err(e);
        },
    }
    if acct.authority != authority {
        return Err(FlashBookError::Unauthorized);
    }
    let tier_count: u8 = tiers.len() as u8;
    acct.volume_window_slots = volume_window_slots;
    acct.tiers = tiers;
    Ok(FeeTiersUpdatedEvent { authority, tier_count, volume_window_slots })
}

/// The volume that counts for a trader's tier at slot `now`: none once the
/// window has run out.
pub open spec fn effective_volume(s: TraderStateAccount, window: u64, now: u64) -> u64 {
    if now - s.volume_window_start_slot > window {
        0
    } else {
        s.volume_30d_quote_lots
    }
}

/// Reports the tier and the rates that a trader gets at slot `now`.
pub fn view_trader_effective_tier(
    trader_state: &TraderStateAccount,
    fee_tiers: &FeeTiersAccount,
    now: u64,
) -> (r: TraderEffectiveTierEvent)
    requires
        fee_tiers.tiers@.len() <= 256,
    ensures
        r == ({
            let v = effective_volume(*trader_state, fee_tiers.volume_window_slots, now);
            let rates = fee_rates(0, 0, fee_tiers.tiers@, v);
            TraderEffectiveTierEvent {
                trader: trader_state.trader,
                tier_index: tier_index(fee_tiers.tiers@, v) as u8,
                effective_volume_quote_lots: v,
                maker_rebate_bps: rates.0,
                taker_fee_bps: rates.1,
                window_expired: now - trader_state.volume_window_start_slot
                    > fee_tiers.volume_window_slots && trader_state.volume_30d_quote_lots > 0,
            }
        }),
{
    let elapsed: u64 = now.saturating_sub(trader_state.volume_window_start_slot);
    let volume: u64 = if elapsed > fee_tiers.volume_window_slots {
        0
    } else {
        trader_state.volume_30d_quote_lots
    };
    let (maker_rebate_bps, taker_fee_bps) = resolve_fee_tier(0, 0, &fee_tiers.tiers, volume);
    TraderEffectiveTierEvent {
        trader: trader_state.trader,
        tier_index: tier_index_for_volume(&fee_tiers.tiers, volume),
        effective_volume_quote_lots: volume,
        maker_rebate_bps,
        taker_fee_bps,
        window_expired: volume == 0 && trader_state.volume_30d_quote_lots > 0,
    }
}

} // verus!
