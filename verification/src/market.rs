//! Setting up a market, its status and parameters, and who may change them.
use vstd::prelude::*;

use crate::book::{BookModel, MarketBook};
use crate::constants::{
    BPS_DENOM, MARKET_BOOK_DATA_BYTES, MARKET_BOOK_PREFIX_BYTES, MARKET_BOOK_TOTAL_BYTES,
    MAX_PERMITTED_DATA_INCREASE,
};
use crate::errors::FlashBookError;
use crate::events::{
    InvariantBreachDetectedEvent, MarketAuthorityBurnedEvent, MarketAuthorityTransferredEvent,
    MarketBookExpandedEvent, MarketBookInitializedEvent, MarketInitializedEvent,
    MarketMigratedToV3Event, MarketParamsUpdatedEvent, MarketSequencerRotatedEvent,
    MarketStatusChangedEvent,
};
use crate::keys::Pubkey;
use crate::math::{max_int, unix_seconds};
use crate::state::{
    MarketAccount, MarketParams, STATUS_ACTIVE, STATUS_CLOSED, STATUS_PAUSED, STATUS_POST_ONLY,
};

verus! {

/// Most bytes that an account can have.
pub const SOLANA_MAX_ACCOUNT_SIZE: u64 = 10_485_760;

/// The accounts that a new market refers to.
#[derive(Clone, Copy, Debug, PartialEq, Eq, Structural)]
pub struct InitializeMarket {
    pub authority: Pubkey,
    /// The key that governs the insurance fund. Only it may set up markets.
    pub protocol_authority: Pubkey,
    pub base_mint: Pubkey,
    pub quote_mint: Pubkey,
    pub base_vault: Pubkey,
    pub quote_vault: Pubkey,
    pub oracle_account: Pubkey,
    pub market_key: Pubkey,
    pub bump: u8,
    pub insurance_fund: Pubkey,
    pub flp_exposure: Pubkey,
}

/// Why a market cannot be set up, if it cannot.
pub open spec fn initialize_refusal(
    a: InitializeMarket,
    params: MarketParams,
    initial_oracle_ticks: u64,
) -> Option<FlashBookError> {
    if a.authority != a.protocol_authority {
        Some(FlashBookError::Unauthorized)
    } else if params.tick_size == 0 || params.base_lot_size == 0 || params.quote_lot_size == 0
        || params.max_leverage == 0 {
        Some(FlashBookError::OutOfRange)
    } else if initial_oracle_ticks == 0 {
        Some(FlashBookError::ZeroPrice)
    } else {
        None
    }
}

/// A new market: active, without trades, open interest or creator, and with the
/// oracle's price as its mark. The authority settles fills until it names another
/// key.
pub open spec fn new_market(
    a: InitializeMarket,
    params: MarketParams,
    initial_oracle_ticks: u64,
    now: u64,
) -> MarketAccount {
    MarketAccount {
        authority: a.authority,
        creator: Pubkey::none(),
        sequencer: a.authority,
        flp_pool: a.flp_exposure,
        base_mint: a.base_mint,
        quote_mint: a.quote_mint,
        base_vault: a.base_vault,
        quote_vault: a.quote_vault,
        oracle_account: a.oracle_account,
        insurance_fund: a.insurance_fund,
        bump: a.bump,
        status: STATUS_ACTIVE,
        current_batch: 0,
        last_batch_ms: 0,
        oracle_price_ticks: initial_oracle_ticks,
        oracle_confidence: 0,
        oracle_published_at_unix_seconds: now,
        mark_price_ticks: initial_oracle_ticks,
        cum_funding_index: 0,
        last_funding_rate_bps_per_sec: 0,
        vpin_bps: 0,
        oi_long_lots: 0,
        oi_short_lots: 0,
        recent_clearing_count: 0,
        total_fees_collected: 0,
        total_toxicity_tax_collected: 0,
        total_liquidations: 0,
        period_started_at_unix: 0,
        period_funding_paid_abs_bps: 0,
        last_mark_settle_slot: 0,
        params,
    }
}

/// Sets up a market.
pub fn initialize_market(
    ctx: &InitializeMarket,
    params: MarketParams,
    initial_oracle_ticks: u64,
    unix_now: i64,
) -> (r: Result<(MarketAccount, MarketInitializedEvent), FlashBookError>)
    ensures
        r == (match initialize_refusal(*ctx, params, initial_oracle_ticks) {
            Some(e) => Err::<(MarketAccount, MarketInitializedEvent), FlashBookError>(e),
            None => Ok(
                (
                    new_market(
                        *ctx,
                        params,
                        initial_oracle_ticks,
                        max_int(unix_now as int, 0) as u64,
                    ),
                    MarketInitializedEvent {
                        market: ctx.market_key,
                        authority: ctx.authority,
                        initial_oracle_ticks,
                    },
                ),
            ),
        }),
{
    if ctx.authority != ctx.protocol_authority {
        return Err(FlashBookError::Unauthorized);
    }
    if params.tick_size == 0 || params.base_lot_size == 0 || params.quote_lot_size == 0
        || params.max_leverage == 0 {
        return Err(FlashBookError::OutOfRange);
    }
    if initial_oracle_ticks == 0 {
        return Err(FlashBookError::ZeroPrice);
    }
    let market = MarketAccount {
        authority: ctx.authority,
        creator: Pubkey::default_key(),
        sequencer: ctx.authority,
        flp_pool: ctx.flp_exposure,
        base_mint: ctx.base_mint,
        quote_mint: ctx.quote_mint,
        base_vault: ctx.base_vault,
        quote_vault: ctx.quote_vault,
        oracle_account: ctx.oracle_account,
        insurance_fund: ctx.insurance_fund,
        bump: ctx.bump,
        status: STATUS_ACTIVE,
        current_batch: 0,
        last_batch_ms: 0,
        oracle_price_ticks: initial_oracle_ticks,
        oracle_confidence: 0,
        oracle_published_at_unix_seconds: unix_seconds(unix_now),
        mark_price_ticks: initial_oracle_ticks,
        cum_funding_index: 0,
        last_funding_rate_bps_per_sec: 0,
        vpin_bps: 0,
        oi_long_lots: 0,
        oi_short_lots: 0,
        recent_clearing_count: 0,
        total_fees_collected: 0,
        total_toxicity_tax_collected: 0,
        total_liquidations: 0,
        period_started_at_unix: 0,
        period_funding_paid_abs_bps: 0,
        last_mark_settle_slot: 0,
        params,
    };
    Ok(
        (
            market,
            MarketInitializedEvent {
                market: ctx.market_key,
                authority: ctx.authority,
                initial_oracle_ticks,
            },
        ),
    )
}

/// Whether a key governs a market. A burned authority is nobody's.
pub open spec fn governs(m: MarketAccount, signer: Pubkey) -> bool {
    m.authority == signer && m.authority != Pubkey::none()
}

/// Tests whether a key governs a market.
pub fn check_governs(m: &MarketAccount, signer: Pubkey) -> (r: bool)
    ensures
        r == governs(*m, signer),
{
    m.authority == signer && !m.authority.is_default()
}

/// Why a change of status is refused, if it is. A closed market stays closed.
pub open spec fn status_refusal(m: MarketAccount, signer: Pubkey, new_status: u8) -> Option<
    FlashBookError,
> {
    if new_status > 4 {
        Some(FlashBookError::OutOfRange)
    } else if !governs(m, signer) {
        Some(FlashBookError::Unauthorized)
    } else if m.status == STATUS_CLOSED {
        Some(FlashBookError::OutOfRange)
    } else {
        None
    }
}

/// Changes the status of a market.
pub fn set_market_status(
    market: &mut MarketAccount,
    market_key: Pubkey,
    authority: Pubkey,
    new_status: u8,
) -> (r: Result<MarketStatusChangedEvent, FlashBookError>)
    ensures
        match status_refusal(*old(market), authority, new_status) {
            Some(e) => r == Err::<MarketStatusChangedEvent, FlashBookError>(e) && *final(market)
                == *old(market),
            None => {
                &&& *final(market) == (MarketAccount { status: new_status, ..*old(market) })
                &&& r == Ok::<MarketStatusChangedEvent, FlashBookError>(
                    MarketStatusChangedEvent {
                        market: market_key,
                        previous_status: old(market).status,
                        new_status,
                    },
                )
            },
        },
{
    if new_status > 4 {
        return Err(FlashBookError::OutOfRange);
    }
    if !check_governs(market, authority) {
        return Err(FlashBookError::Unauthorized);
    }
    if market.status == STATUS_CLOSED {
        return Err(FlashBookError::OutOfRange);
    }
    let previous_status: u8 = market.status;
    market.status = new_status;
    Ok(MarketStatusChangedEvent { market: market_key, previous_status, new_status })
}

/// Why new parameters are refused, if they are. The units of measurement cannot
/// change, and the margin ratios have ceilings.
pub open spec fn params_refusal(m: MarketAccount, signer: Pubkey, p: MarketParams) -> Option<
    FlashBookError,
> {
    if !governs(m, signer) {
        Some(FlashBookError::Unauthorized)
    } else if p.tick_size != m.params.tick_size || p.base_lot_size != m.params.base_lot_size
        || p.quote_lot_size != m.params.quote_lot_size || p.min_base_lots
        != m.params.min_base_lots || p.max_leverage == 0 || p.maintenance_margin_ratio_bps
        > p.initial_margin_ratio_bps || p.flp_max_growth_per_batch_bps > BPS_DENOM
        || p.oracle_band_bps > BPS_DENOM || p.maintenance_margin_ratio_bps >= 5_000
        || p.initial_margin_ratio_bps >= 5_000 || p.maintenance_margin_ratio_bps
        + p.concentration_extra_mmr_bps >= 5_000 {
        Some(FlashBookError::OutOfRange)
    } else {
        None
    }
}

/// Changes the parameters of a market.
pub fn update_market_params(
    market: &mut MarketAccount,
    market_key: Pubkey,
    authority: Pubkey,
    new_params: MarketParams,
) -> (r: Result<MarketParamsUpdatedEvent, FlashBookError>)
    ensures
        match params_refusal(*old(market), authority, new_params) {
            Some(e) => r == Err::<MarketParamsUpdatedEvent, FlashBookError>(e) && *final(market)
                == *old(market),
            None => {
                &&& *final(market) == (MarketAccount { params: new_params, ..*old(market) })
                &&& r == Ok::<MarketParamsUpdatedEvent, FlashBookError>(
                    MarketParamsUpdatedEvent { market: market_key },
                )
            },
        },
{
    if !check_governs(market, authority) {
        return Err(FlashBookError::Unauthorized);
    }
    let p = new_params;
    if p.tick_size != market.params.tick_size || p.base_lot_size != market.params.base_lot_size
        || p.quote_lot_size != market.params.quote_lot_size || p.min_base_lots
        != market.params.min_base_lots {
        return Err(FlashBookError::OutOfRange);
    }
    if p.max_leverage == 0 || p.maintenance_margin_ratio_bps > p.initial_margin_ratio_bps
        || p.flp_max_growth_per_batch_bps > BPS_DENOM || p.oracle_band_bps > BPS_DENOM {
        return Err(FlashBookError::OutOfRange);
    }
    if p.maintenance_margin_ratio_bps >= 5_000 || p.initial_margin_ratio_bps >= 5_000 {
        return Err(FlashBookError::OutOfRange);
    }
    if p.maintenance_margin_ratio_bps.saturating_add(p.concentration_extra_mmr_bps) >= 5_000 {
        return Err(FlashBookError::OutOfRange);
    }
    market.params = new_params;
    Ok(MarketParamsUpdatedEvent { market: market_key })
}

/// Hands a market over to another key.
pub fn transfer_market_authority(
    market: &mut MarketAccount,
    market_key: Pubkey,
    authority: Pubkey,
    new_authority: Pubkey,
) -> (r: Result<MarketAuthorityTransferredEvent, FlashBookError>)
    ensures
        if governs(*old(market), authority) {
            &&& *final(market) == (MarketAccount { authority: new_authority, ..*old(market) })
            &&& r == Ok::<MarketAuthorityTransferredEvent, FlashBookError>(
                MarketAuthorityTransferredEvent {
                    market: market_key,
                    previous_authority: authority,
                    new_authority,
                },
            )
        } else {
            r == Err::<MarketAuthorityTransferredEvent, FlashBookError>(
                FlashBookError::Unauthorized,
            ) && *final(market) == *old(market)
        },
{
    if !check_governs(market, authority) {
        return Err(FlashBookError::Unauthorized);
    }
    let previous_authority = market.authority;
    market.authority = new_authority;
    Ok(
        MarketAuthorityTransferredEvent { market: market_key, previous_authority, new_authority },
    )
}

/// Gives a market up for good: from then on nobody governs it.
pub fn burn_market_authority(
    market: &mut MarketAccount,
    market_key: Pubkey,
    authority: Pubkey,
    slot: u64,
) -> (r: Result<MarketAuthorityBurnedEvent, FlashBookError>)
    ensures
        if governs(*old(market), authority) {
            &&& *final(market) == (MarketAccount { authority: Pubkey::none(), ..*old(market) })
            &&& r == Ok::<MarketAuthorityBurnedEvent, FlashBookError>(
                MarketAuthorityBurnedEvent {
                    market: market_key,
                    previous_authority: authority,
                    burn_slot: slot,
                },
            )
        } else {
            r == Err::<MarketAuthorityBurnedEvent, FlashBookError>(FlashBookError::Unauthorized)
                && *final(market) == *old(market)
        },
{
    if !check_governs(market, authority) {
        return Err(FlashBookError::Unauthorized);
    }
    let previous_authority = market.authority;
    market.authority = Pubkey::default_key();
    Ok(
        MarketAuthorityBurnedEvent { market: market_key, previous_authority, burn_slot: slot },
    )
}

/// Why another key cannot be named to settle fills, if it cannot.
pub open spec fn sequencer_refusal(m: MarketAccount, signer: Pubkey, new_sequencer: Pubkey) -> Option<
    FlashBookError,
> {
    if !governs(m, signer) {
        Some(FlashBookError::Unauthorized)
    } else if new_sequencer == Pubkey::none() {
        Some(FlashBookError::OutOfRange)
    } else {
        None
    }
}

/// Names the key that settles fills.
pub fn set_market_sequencer(
    market: &mut MarketAccount,
    market_key: Pubkey,
    authority: Pubkey,
    new_sequencer: Pubkey,
) -> (r: Result<MarketSequencerRotatedEvent, FlashBookError>)
    ensures
        match sequencer_refusal(*old(market), authority, new_sequencer) {
            Some(e) => r == Err::<MarketSequencerRotatedEvent, FlashBookError>(e) && *final(market)
                == *old(market),
            None => {
                &&& *final(market) == (MarketAccount { sequencer: new_sequencer, ..*old(market) })
                &&& r == Ok::<MarketSequencerRotatedEvent, FlashBookError>(
                    MarketSequencerRotatedEvent {
                        market: market_key,
                        previous_sequencer: old(market).sequencer,
                        new_sequencer,
                    },
                )
            },
        },
{
    if !check_governs(market, authority) {
        return Err(FlashBookError::Unauthorized);
    }
    if new_sequencer.is_default() {
        return Err(FlashBookError::OutOfRange);
    }
    let previous_sequencer = market.sequencer;
    market.sequencer = new_sequencer;
    Ok(MarketSequencerRotatedEvent { market: market_key, previous_sequencer, new_sequencer })
}

/// A closed market cannot get another status, whoever asks.
pub proof fn law_closed_is_terminal(m: MarketAccount, signer: Pubkey, new_status: u8)
    requires
        m.status == STATUS_CLOSED,
    ensures
        status_refusal(m, signer, new_status) is Some,
{
}

/// Once the authority is burned, nobody can change the status, the parameters or
/// the settlement key, or govern the market again.
pub proof fn law_burned_authority_is_final(
    m: MarketAccount,
    signer: Pubkey,
    new_status: u8,
    params: MarketParams,
    key: Pubkey,
)
    ensures
        ({
            let b = MarketAccount { authority: Pubkey::none(), ..m };
            &&& !governs(b, signer)
            &&& status_refusal(b, signer, new_status) is Some
            &&& params_refusal(b, signer, params) is Some
            &&& sequencer_refusal(b, signer, key) is Some
        }),
{
}

/// A change of parameters never touches the units in which orders and positions
/// are measured, and keeps the maintenance ratio below one half.
pub proof fn law_params_keep_units(m: MarketAccount, signer: Pubkey, p: MarketParams)
    requires
        params_refusal(m, signer, p) is None,
    ensures
        p.tick_size == m.params.tick_size,
        p.base_lot_size == m.params.base_lot_size,
        p.quote_lot_size == m.params.quote_lot_size,
        p.min_base_lots == m.params.min_base_lots,
        2 * (p.maintenance_margin_ratio_bps + p.concentration_extra_mmr_bps) < BPS_DENOM,
{
}

/// What a broken market is reported with.
#[derive(Clone, Copy, Debug, PartialEq, Eq, Structural)]
pub struct InvariantBreach {
    pub error: FlashBookError,
    pub event: InvariantBreachDetectedEvent,
}

/// The status of a market after a breach: paused, unless it is closed.
pub open spec fn status_after_breach(status: u8) -> u8 {
    if status == STATUS_CLOSED {
        STATUS_CLOSED
    } else {
        STATUS_PAUSED
    }
}

/// Checks that as many lots are long as short. If not, the market is paused, and
/// stays so although an error is returned.
pub fn verify_market_invariants(market: &mut MarketAccount, market_key: Pubkey) -> (r: Result<
    (),
    InvariantBreach,
>)
    ensures
        if old(market).oi_long_lots == old(market).oi_short_lots {
            r == Ok::<(), InvariantBreach>(()) && *final(market) == *old(market)
        } else {
            let status = status_after_breach(old(market).status);
            &&& *final(market) == (MarketAccount { status, ..*old(market) })
            &&& r == Err::<(), InvariantBreach>(
                InvariantBreach {
                    error: FlashBookError::OpenInterestImbalance,
                    event: InvariantBreachDetectedEvent {
                        market: market_key,
                        invariant_code: 5,
                        expected: old(market).oi_long_lots,
                        actual: old(market).oi_short_lots,
                        previous_status: old(market).status,
                        new_status: status,
                    },
                },
            )
        },
{
    if market.oi_long_lots == market.oi_short_lots {
        return Ok(());
    }
    let previous_status: u8 = market.status;
    if market.status != STATUS_CLOSED {
        market.status = STATUS_PAUSED;
    }
    Err(
        InvariantBreach {
            error: FlashBookError::OpenInterestImbalance,
            event: InvariantBreachDetectedEvent {
                market: market_key,
                invariant_code: 5,
                expected: market.oi_long_lots,
                actual: market.oi_short_lots,
                previous_status,
                new_status: market.status,
            },
        },
    )
}

/// A market whose open interest is out of balance takes no orders after the check.
pub proof fn law_breach_stops_intake(status: u8)
    ensures
        status_after_breach(status) != STATUS_ACTIVE,
        status_after_breach(status) != STATUS_POST_ONLY,
{
}

/// Why a market account cannot be brought to the current layout, if it cannot.
pub open spec fn migration_refusal(
    m: MarketAccount,
    authority: Pubkey,
    current_size: u32,
    target_size: u32,
) -> Option<FlashBookError> {
    if target_size > SOLANA_MAX_ACCOUNT_SIZE {
        Some(FlashBookError::OutOfRange)
    } else if current_size > target_size {
        Some(FlashBookError::AlreadyInitialized)
    } else if m.authority != authority {
        Some(FlashBookError::Unauthorized)
    } else {
        None
    }
}

/// The account has the current layout and its mark engine is configured.
pub open spec fn migrated_already(m: MarketAccount, current_size: u32, target_size: u32) -> bool {
    current_size == target_size && m.params.mark_ema_alpha_bps != 0
}

/// A market with the default configuration of the mark engine.
pub open spec fn with_mark_defaults(m: MarketAccount, last_mark_settle_slot: u64) -> MarketAccount {
    MarketAccount {
        params: MarketParams {
            mark_ema_alpha_bps: 2_000,
            mark_max_change_bps: 500,
            mark_settle_min_slots: 10,
            drift_alert_bps: 100,
            ..m.params
        },
        last_mark_settle_slot,
        ..m
    }
}

/// Brings a market account to the current layout, with the default configuration
/// of the mark engine. An account that has both is left alone and nothing is
/// reported.
pub fn migrate_market_to_v3(
    market: &mut MarketAccount,
    market_key: Pubkey,
    authority: Pubkey,
    current_size: u32,
    target_size: u32,
    slot: u64,
) -> (r: Result<Option<MarketMigratedToV3Event>, FlashBookError>)
    ensures
        match migration_refusal(*old(market), authority, current_size, target_size) {
            Some(e) => r == Err::<Option<MarketMigratedToV3Event>, FlashBookError>(e)
                && *final(market) == *old(market),
            None => if migrated_already(*old(market), current_size, target_size) {
                r == Ok::<Option<MarketMigratedToV3Event>, FlashBookError>(None) && *final(market)
                    == *old(market)
            } else {
                &&& *final(market) == with_mark_defaults(
                    *old(market),
                    if current_size == target_size && old(market).last_mark_settle_slot != 0 {
                        old(market).last_mark_settle_slot
                    } else {
                        slot
                    },
                )
                &&& r == Ok::<Option<MarketMigratedToV3Event>, FlashBookError>(
                    Some(
                        MarketMigratedToV3Event {
                            market: market_key,
                            old_size: current_size,
                            new_size: target_size,
                            slot,
                        },
                    ),
                )
            },
        },
{
    if target_size as u64 > SOLANA_MAX_ACCOUNT_SIZE {
        return Err(FlashBookError::OutOfRange);
    }
    if current_size > target_size {
        return Err(FlashBookError::AlreadyInitialized);
    }
    if market.authority != authority {
        return Err(FlashBookError::Unauthorized);
    }
    if current_size == target_size && market.params.mark_ema_alpha_bps != 0 {
        return Ok(None);
    }
    market.params.mark_ema_alpha_bps = 2_000;
    market.params.mark_max_change_bps = 500;
    market.params.mark_settle_min_slots = 10;
    market.params.drift_alert_bps = 100;
    if current_size < target_size || market.last_mark_settle_slot == 0 {
        market.last_mark_settle_slot = slot;
    }
    Ok(
        Some(
            MarketMigratedToV3Event {
                market: market_key,
                old_size: current_size,
                new_size: target_size,
                slot,
            },
        ),
    )
}

/// Migrating a second time does nothing.
pub proof fn law_migration_is_idempotent(m: MarketAccount, slot: u64, target_size: u32)
    ensures
        migrated_already(with_mark_defaults(m, slot), target_size, target_size),
{
}

/// The sizes of a book account that the deployment fixes.
#[derive(Clone, Copy, Debug, PartialEq, Eq, Structural)]
pub struct BookLayout {
    /// Bytes of one order.
    pub node_bytes: u32,
    /// Most bytes that a book account may have.
    pub max_total_bytes: u32,
}

/// How many orders fit into a book account of the given length.
pub open spec fn nodes_in(len: int, layout: BookLayout) -> int {
    (len - MARKET_BOOK_PREFIX_BYTES) / (layout.node_bytes as int)
}

/// A book account whose book is to be set up or grown.
#[derive(Clone, Copy, Debug, PartialEq, Eq, Structural)]
pub struct BookAccount {
    pub authority: Pubkey,
    pub market_key: Pubkey,
    pub market: MarketAccount,
    pub market_book_key: Pubkey,
    /// The account belongs to this program; a delegated one does not.
    pub owned: bool,
}

/// Sets up an empty book for a market.
pub fn init_market_book(ctx: &BookAccount, layout: &BookLayout) -> (r: Result<
    (MarketBook, MarketBookInitializedEvent),
    FlashBookError,
>)
    requires
        layout.node_bytes > 0,
    ensures
        if ctx.market.authority != ctx.authority {
            r is Err && r->Err_0 == FlashBookError::Unauthorized
        } else {
            &&& r is Ok
            &&& (r->Ok_0).0@.wf()
            &&& (r->Ok_0).0@ == (BookModel {
                market_pubkey: ctx.market_key,
                order_seq_counter: 0,
                capacity: nodes_in(MARKET_BOOK_TOTAL_BYTES as int, *layout) as nat,
                bids: Seq::empty(),
                asks: Seq::empty(),
            })
            &&& (r->Ok_0).1 == (MarketBookInitializedEvent {
                market: ctx.market_key,
                market_book: ctx.market_book_key,
                total_bytes: MARKET_BOOK_TOTAL_BYTES as u32,
                data_bytes: MARKET_BOOK_DATA_BYTES as u32,
            })
        },
{
    if ctx.market.authority != ctx.authority {
        return Err(FlashBookError::Unauthorized);
    }
    let capacity: u64 = MARKET_BOOK_DATA_BYTES / (layout.node_bytes as u64);
    proof {
        assert(8_000int / (layout.node_bytes as int) <= 8_000) by (nonlinear_arith)
            requires
                layout.node_bytes > 0,
        ;
    }
    Ok(
        (
            MarketBook::new(ctx.market_key, capacity as usize),
            MarketBookInitializedEvent {
                market: ctx.market_key,
                market_book: ctx.market_book_key,
                total_bytes: MARKET_BOOK_TOTAL_BYTES as u32,
                data_bytes: MARKET_BOOK_DATA_BYTES as u32,
            },
        ),
    )
}

/// Why a book account cannot be grown, if it cannot.
pub open spec fn expand_refusal(
    a: BookAccount,
    old_len: u32,
    additional_nodes: u32,
    layout: BookLayout,
) -> Option<FlashBookError> {
    let bytes = additional_nodes * layout.node_bytes;
    if a.market.authority != a.authority {
        Some(FlashBookError::Unauthorized)
    } else if additional_nodes == 0 {
        Some(FlashBookError::OutOfRange)
    } else if !a.owned {
        Some(FlashBookError::Unauthorized)
    } else if bytes > MAX_PERMITTED_DATA_INCREASE || old_len + bytes > layout.max_total_bytes {
        Some(FlashBookError::OutOfRange)
    } else {
        None
    }
}

/// Makes room for more orders in a book account of `old_len` bytes. On refusal the
/// book does not change.
pub fn expand_market_book(
    ctx: &BookAccount,
    book: &mut MarketBook,
    old_len: u32,
    additional_nodes: u32,
    layout: &BookLayout,
) -> (r: Result<MarketBookExpandedEvent, FlashBookError>)
    requires
        layout.node_bytes > 0,
        old_len >= MARKET_BOOK_PREFIX_BYTES,
        old(book)@.wf(),
        old(book)@.capacity <= nodes_in(old_len as int, *layout),
    ensures
        final(book)@.wf(),
        match expand_refusal(*ctx, old_len, additional_nodes, *layout) {
            Some(e) => r == Err::<MarketBookExpandedEvent, FlashBookError>(e) && *final(book)
                == *old(book),
            None => {
                let new_len = old_len + additional_nodes * layout.node_bytes;
                &&& final(book)@ == (BookModel {
                    capacity: nodes_in(new_len, *layout) as nat,
                    ..old(book)@
                })
                &&& r == Ok::<MarketBookExpandedEvent, FlashBookError>(
                    MarketBookExpandedEvent {
                        market: ctx.market_key,
                        market_book: ctx.market_book_key,
                        old_bytes: old_len,
                        new_bytes: new_len as u32,
                        max_nodes: nodes_in(new_len, *layout) as u32,
                    },
                )
            },
        },
{
    if ctx.market.authority != ctx.authority {
        return Err(FlashBookError::Unauthorized);
    }
    if additional_nodes == 0 {
        return Err(FlashBookError::OutOfRange);
    }
    if !ctx.owned {
        return Err(FlashBookError::Unauthorized);
    }
    assert(0 <= additional_nodes * layout.node_bytes <= u32::MAX * u32::MAX) by (nonlinear_arith)
        requires
            0 <= additional_nodes <= u32::MAX,
            0 <= layout.node_bytes <= u32::MAX,
    ;
    let bytes: u64 = (additional_nodes as u64) * (layout.node_bytes as u64);
    if bytes > MAX_PERMITTED_DATA_INCREASE {
        return Err(FlashBookError::OutOfRange);
    }
    let new_len: u64 = old_len as u64 + bytes;
    if new_len > layout.max_total_bytes as u64 {
        return Err(FlashBookError::OutOfRange);
    }
    let max_nodes: u64 = (new_len - MARKET_BOOK_PREFIX_BYTES) / (layout.node_bytes as u64);
    proof {
        let d = layout.node_bytes as int;
        let x = old_len - MARKET_BOOK_PREFIX_BYTES;
        let y = new_len - MARKET_BOOK_PREFIX_BYTES;
        assert(0 <= x / d <= y / d <= y) by (nonlinear_arith)
            requires
                0 <= x <= y,
                d > 0,
        ;
    }
    book.capacity = max_nodes as usize;
    Ok(
        MarketBookExpandedEvent {
            market: ctx.market_key,
            market_book: ctx.market_book_key,
            old_bytes: old_len,
            new_bytes: new_len as u32,
            max_nodes: max_nodes as u32,
        },
    )
}

/// Growing a book adds as many places as were asked for.
pub proof fn law_expansion_adds_places(
    a: BookAccount,
    old_len: u32,
    additional_nodes: u32,
    layout: BookLayout,
)
    requires
        layout.node_bytes > 0,
        old_len >= MARKET_BOOK_PREFIX_BYTES,
        expand_refusal(a, old_len, additional_nodes, layout) is None,
    ensures
        nodes_in(old_len + additional_nodes * layout.node_bytes, layout) == nodes_in(
            old_len as int,
            layout,
        ) + additional_nodes,
{
    let d = layout.node_bytes as int;
    let x = old_len - MARKET_BOOK_PREFIX_BYTES;
    let n = additional_nodes as int;
    assert((x + n * d) / d == x / d + n) by (nonlinear_arith)
        requires
            d > 0,
    ;
}

} // verus!
