//! The accounts that the exchange keeps.
use vstd::prelude::*;

use crate::keys::Pubkey;

verus! {

/// Names one price feed of the oracle network.
#[derive(Clone, Copy, Debug)]
pub struct FeedId {
    pub bytes: [u8; 32],
}

/// The direction of a position or of a fill.
#[derive(Clone, Copy, Debug, PartialEq, Eq, Structural)]
pub enum Side {
    Long,
    Short,
}

/// The direction that a side byte stands for: 0 is long, anything else short.
pub open spec fn side_of_byte(b: u8) -> Side {
    if b == 0 {
        Side::Long
    } else {
        Side::Short
    }
}

/// The byte under which a direction is stored.
pub open spec fn byte_of_side(s: Side) -> u8 {
    match s {
        Side::Long => 0,
        Side::Short => 1,
    }
}

/// The other direction.
pub open spec fn opposite_side(s: Side) -> Side {
    match s {
        Side::Long => Side::Short,
        Side::Short => Side::Long,
    }
}

impl Side {
    /// The direction that a side byte stands for.
    pub fn from_byte(b: u8) -> (r: Side)
        ensures
            r == side_of_byte(b),
    {
        if b == 0 {
            Side::Long
        } else {
            Side::Short
        }
    }

    /// The byte under which this direction is stored.
    pub fn to_byte(self) -> (r: u8)
        ensures
            r == byte_of_side(self),
    {
        match self {
            Side::Long => 0,
            Side::Short => 1,
        }
    }

    /// The other direction.
    pub fn opposite(self) -> (r: Side)
        ensures
            r == opposite_side(self),
    {
        match self {
            Side::Long => Side::Short,
            Side::Short => Side::Long,
        }
    }
}

/// How much trading a market admits.
#[derive(Clone, Copy, Debug, PartialEq, Eq, Structural)]
pub enum MarketStatus {
    Inactive,
    Active,
    PostOnly,
    Paused,
    Closed,
}

/// Status byte of a market that is not open yet.
pub const STATUS_INACTIVE: u8 = 0;

/// Status byte of a market that trades normally.
pub const STATUS_ACTIVE: u8 = 1;

/// Status byte of a market that takes resting orders only.
pub const STATUS_POST_ONLY: u8 = 2;

/// Status byte of a market that takes no orders.
pub const STATUS_PAUSED: u8 = 3;

/// Status byte of a market that has ended for good.
pub const STATUS_CLOSED: u8 = 4;

impl MarketStatus {
    /// The byte under which a status is stored.
    pub open spec fn byte(self) -> u8 {
        match self {
            MarketStatus::Inactive => STATUS_INACTIVE,
            MarketStatus::Active => STATUS_ACTIVE,
            MarketStatus::PostOnly => STATUS_POST_ONLY,
            MarketStatus::Paused => STATUS_PAUSED,
            MarketStatus::Closed => STATUS_CLOSED,
        }
    }

    /// The byte under which this status is stored.
    pub fn to_byte(self) -> (r: u8)
        ensures
            r == self.byte(),
    {
        match self {
            MarketStatus::Inactive => STATUS_INACTIVE,
            MarketStatus::Active => STATUS_ACTIVE,
            MarketStatus::PostOnly => STATUS_POST_ONLY,
            MarketStatus::Paused => STATUS_PAUSED,
            MarketStatus::Closed => STATUS_CLOSED,
        }
    }
}

/// The tunable numbers of one market.
#[derive(Clone, Copy, Debug, PartialEq, Eq, Structural)]
pub struct MarketParams {
    pub tick_size: u64,
    pub base_lot_size: u64,
    pub quote_lot_size: u64,
    pub min_base_lots: u64,
    pub max_leverage: u32,
    pub initial_margin_ratio_bps: u32,
    pub maintenance_margin_ratio_bps: u32,
    pub concentration_threshold_lots: u64,
    pub concentration_extra_mmr_bps: u32,
    pub max_oi_base_lots: u64,
    pub max_position_lots_per_trader: u64,
    pub max_position_ratio_bps: u32,
    pub taker_fee_bps: u32,
    pub maker_rebate_bps: i32,
    pub jit_bonus_rebate_bps: u32,
    pub referrer_share_bps: u32,
    pub builder_share_bps: u32,
    pub creator_share_bps: u32,
    pub toxicity_tax_max_bps: u32,
    pub mark_ema_alpha_bps: u32,
    pub mark_max_change_bps: u32,
    pub mark_settle_min_slots: u32,
    pub drift_alert_bps: u32,
    pub oracle_band_bps: u64,
    pub oracle_staleness_max_seconds: u32,
    pub oracle_confidence_max_bps: u32,
    pub oracle_quorum_max_dispersion_bps: u32,
    pub liq_penalty_bps: u32,
    pub liquidator_reward_bps: u32,
    pub liquidation_cooldown_slots: u32,
    pub liquidation_auction_duration_slots: u32,
    pub funding_rate_k_bps: u32,
    pub funding_rate_max_bps_per_sec: u32,
    pub flp_max_growth_per_batch_bps: u64,
    pub flp_spread_base_bps: u32,
    pub flp_spread_alpha_bps: u32,
    pub flp_spread_beta_bps: u32,
    pub flp_spread_gamma_bps: u32,
    pub flp_spread_kappa_bps: u32,
    pub flp_spread_delta_bps: u32,
    pub flp_inventory_lambda_bps: u32,
    pub flp_depth_floor_lots: u64,
    pub flp_quote_levels: u8,
}

/// One market.
#[derive(Clone, Copy, Debug, PartialEq, Eq, Structural)]
pub struct MarketAccount {
    pub authority: Pubkey,
    pub creator: Pubkey,
    /// The key that may settle fills.
    pub sequencer: Pubkey,
    pub flp_pool: Pubkey,
    pub base_mint: Pubkey,
    pub quote_mint: Pubkey,
    pub base_vault: Pubkey,
    pub quote_vault: Pubkey,
    pub oracle_account: Pubkey,
    pub insurance_fund: Pubkey,
    pub bump: u8,
    pub status: u8,
    pub current_batch: u64,
    pub last_batch_ms: u64,
    pub oracle_price_ticks: u64,
    pub oracle_confidence: u64,
    pub oracle_published_at_unix_seconds: u64,
    pub mark_price_ticks: u64,
    pub cum_funding_index: i128,
    pub last_funding_rate_bps_per_sec: i64,
    /// The toxicity signal of recent order flow, in basis points.
    pub vpin_bps: u32,
    pub oi_long_lots: u64,
    pub oi_short_lots: u64,
    pub recent_clearing_count: u8,
    pub total_fees_collected: u64,
    pub total_toxicity_tax_collected: u64,
    pub total_liquidations: u64,
    pub period_started_at_unix: u64,
    pub period_funding_paid_abs_bps: u64,
    pub last_mark_settle_slot: u64,
    pub params: MarketParams,
}

/// One trader's position in one market. A position with collateral of its own
/// is isolated; one without draws on the trader's pooled collateral.
#[derive(Clone, Copy, Debug, PartialEq, Eq, Structural)]
pub struct PositionAccount {
    pub market: Pubkey,
    pub trader: Pubkey,
    pub bump: u8,
    pub side: u8,
    pub size_lots: u64,
    pub entry_price_ticks: u64,
    pub cum_funding_index_at_entry: i128,
    pub realized_pnl_quote_lots: i64,
    pub funding_paid_quote_lots: i64,
    pub last_settlement_batch: u64,
    pub unhealthy_since_slot: u64,
    pub last_liquidated_at_slot: u64,
    pub collateral_quote_lots: u64,
    pub leverage_cap: u32,
}

/// One trader's account (main or sub-account) across all markets.
#[derive(Clone, Copy, Debug, PartialEq, Eq, Structural)]
pub struct TraderStateAccount {
    pub trader: Pubkey,
    pub bump: u8,
    /// 0 is the main account.
    pub sub_index: u8,
    pub collateral_quote_lots: u64,
    pub realized_pnl_quote_lots: i64,
    pub open_positions: u8,
    pub toxicity_score_bps: u32,
    pub orders_this_batch: u32,
    pub last_batch_seen: u64,
    pub fee_discount_bps: u32,
    pub delegate: Pubkey,
    pub referrer: Pubkey,
    /// The referrer was chosen, be it nobody, and can no longer change.
    pub referrer_locked: bool,
    pub builder: Pubkey,
    pub builder_max_fee_share_bps: u32,
    pub volume_30d_quote_lots: u64,
    pub volume_window_start_slot: u64,
}

impl TraderStateAccount {
    /// Who may act for this account: the trader, and the delegate if one is set.
    pub open spec fn authorizes(self, signer: Pubkey) -> bool {
        signer == self.trader || (self.delegate != Pubkey::none() && signer == self.delegate)
    }

    /// Whether `signer` may act for this account.
    pub fn is_authorized(&self, signer: Pubkey) -> (r: bool)
        ensures
            r == self.authorizes(signer),
    {
        signer == self.trader || (!self.delegate.is_default() && signer == self.delegate)
    }
}

/// The fund that stands behind losses that no trader can pay.
#[derive(Clone, Copy, Debug, PartialEq, Eq, Structural)]
pub struct InsuranceFundAccount {
    pub authority: Pubkey,
    pub bump: u8,
    pub balance_quote_lots: u64,
    pub fee_contribution_bps: u32,
    pub toxicity_tax_contribution_bps: u32,
    pub liq_penalty_contribution_bps: u32,
    pub pause_threshold_quote_lots: u64,
    pub total_contributions: u64,
    pub total_payouts: u64,
    pub quote_mint: Pubkey,
    pub quote_vault: Pubkey,
}

/// The pool's position in one market; `side` is 255 in an unused slot.
#[derive(Clone, Copy, Debug, PartialEq, Eq, Structural)]
pub struct FlpMarketExposure {
    pub market: Pubkey,
    pub side: u8,
    pub size_lots: u64,
    pub entry_price_ticks: u64,
}

/// The liquidity pool.
#[derive(Debug)]
pub struct FlpExposureAccount {
    pub authority: Pubkey,
    pub bump: u8,
    pub total_capital_quote_lots: u64,
    pub realized_pnl: i64,
    pub markets_count: u8,
    pub lp_shares_outstanding: u64,
    pub per_market: Vec<FlpMarketExposure>,
}

/// One provider's share of the pool.
#[derive(Clone, Copy, Debug, PartialEq, Eq, Structural)]
pub struct LpPositionAccount {
    pub lp: Pubkey,
    pub bump: u8,
    pub shares: u64,
    pub total_deposited_quote_lots: u64,
    pub total_withdrawn_quote_lots: u64,
}

/// One row of a market's leverage table.
#[derive(Clone, Copy, Debug, PartialEq, Eq, Structural)]
pub struct LeverageTier {
    pub min_notional_quote_lots: u64,
    pub mmr_bps: u32,
}

/// A market's leverage table.
#[derive(Debug)]
pub struct MarketLeverageTiersAccount {
    pub market: Pubkey,
    pub bump: u8,
    pub tiers: Vec<LeverageTier>,
}

/// One row of the fee table. A positive maker rate is paid to the maker.
#[derive(Clone, Copy, Debug, PartialEq, Eq, Structural)]
pub struct FeeTier {
    pub min_volume_quote_lots: u64,
    pub maker_rebate_bps: i32,
    pub taker_fee_bps: u32,
}

/// The fee table of the whole exchange.
#[derive(Debug)]
pub struct FeeTiersAccount {
    pub authority: Pubkey,
    pub bump: u8,
    pub volume_window_slots: u64,
    pub tiers: Vec<FeeTier>,
}

/// The haircut that one market applies to realized gains.
#[derive(Clone, Copy, Debug, PartialEq, Eq, Structural)]
pub struct MarketHaircutStateAccount {
    pub market: Pubkey,
    pub bump: u8,
    pub residual_quote_lots: u128,
    pub matured_pos_total_quote_lots: u128,
    pub realized_loss_total_quote_lots: u128,
    pub dust_accrued_quote_lots: u128,
    pub h_min_slots: u64,
    pub h_max_slots: u64,
    pub h_scaled_cached: u64,
    pub h_cached_at_slot: u64,
}

/// The gains of one position that wait for, or have passed, the warm-up.
#[derive(Clone, Copy, Debug, PartialEq, Eq, Structural)]
pub struct PositionHaircutStateAccount {
    pub market: Pubkey,
    pub position: Pubkey,
    pub bump: u8,
    pub released_reserve_quote_lots: u64,
    pub released_attached_at_slot: u64,
    pub matured_pos_quote_lots: u64,
    pub original_reserve_at_attach: u64,
}

/// The part of a position's haircut state that the haircut arithmetic moves.
#[derive(Clone, Copy, Debug, PartialEq, Eq, Structural)]
pub struct PositionHaircutSnapshot {
    pub released_reserve_quote_lots: u64,
    pub released_attached_at_slot: u64,
    pub matured_pos_quote_lots: u64,
    pub original_reserve_at_attach: u64,
}

/// The bounds within which one market's price may move.
#[derive(Clone, Copy, Debug, PartialEq, Eq, Structural)]
pub struct EnvelopeParams {
    pub max_price_move_bps_per_slot: u32,
    pub max_accrual_dt_slots: u64,
    pub max_abs_funding_e9_per_slot: i64,
    pub maintenance_bps: u32,
    pub liquidation_fee_bps: u32,
    pub min_liquidation_abs_lots: u64,
    pub min_nonzero_mm_req_lots: u64,
}

/// One market's envelope and the last price that passed it.
#[derive(Clone, Copy, Debug, PartialEq, Eq, Structural)]
pub struct MarketEnvelopeConfigAccount {
    pub market: Pubkey,
    pub bump: u8,
    pub version: u32,
    pub params: EnvelopeParams,
    pub last_proven_at_slot: u64,
    pub last_observed_slot: u64,
    pub last_observed_price_ticks: u64,
    pub gate_passes: u64,
    pub gate_rejects: u64,
}

/// What has accrued to one side of a market.
#[derive(Clone, Copy, Debug, PartialEq, Eq, Structural)]
pub struct SideAccrual {
    pub a: u128,
    pub k: i128,
    pub f: i128,
    pub b: i128,
    /// 0 is normal.
    pub mode: u8,
    pub epoch: u32,
    pub slot_last: u64,
    pub price_last: u64,
}

/// What has accrued to the two sides of a market.
#[derive(Clone, Copy, Debug, PartialEq, Eq, Structural)]
pub struct MarketSideAccrualAccount {
    pub market: Pubkey,
    pub bump: u8,
    pub long: SideAccrual,
    pub short: SideAccrual,
}

/// Where a market's oracle price comes from.
#[derive(Clone, Copy, Debug, PartialEq, Eq, Structural)]
pub enum OracleSource {
    Pyth,
    Other,
}

/// The price feed that one market is bound to.
#[derive(Clone, Copy, Debug)]
pub struct MarketOracleConfigAccount {
    pub bump: u8,
    pub source: OracleSource,
    pub market: Pubkey,
    pub pyth_price_feed_id: FeedId,
    pub max_staleness_seconds: u32,
    pub max_confidence_bps: u32,
    /// A tick is 10 to the power of minus this many dollars.
    pub tick_decimals: i8,
}

/// A maker's promise to take over liquidated positions at a price.
#[derive(Clone, Copy, Debug, PartialEq, Eq, Structural)]
pub struct JitLiquidationOfferAccount {
    pub bump: u8,
    /// 0 closes longs, 1 closes shorts.
    pub side: u8,
    pub maker_sub_index: u8,
    pub nonce: u32,
    pub market: Pubkey,
    pub maker: Pubkey,
    /// The all-zero key stands for every trader.
    pub target_trader: Pubkey,
    pub offer_price_ticks: u64,
    pub max_size_lots: u64,
    pub remaining_size_lots: u64,
    pub created_at_slot: u64,
    /// 0 means never.
    pub expires_at_slot: u64,
}

/// What a trigger order waits for and then places.
#[derive(Clone, Copy, Debug, PartialEq, Eq, Structural)]
pub struct TriggerTerms {
    pub market: Pubkey,
    pub trader: Pubkey,
    pub bump: u8,
    pub trigger_id: u8,
    pub side: u8,
    /// 0 fires at or below the trigger price, anything else at or above it.
    pub kind: u8,
    pub active: bool,
    pub reduce_only: bool,
    pub size_lots: u64,
    pub trigger_price_ticks: u64,
    pub limit_price_ticks: u64,
    /// 0 means never.
    pub expires_at_slot: u64,
    /// The trigger that is switched off when this one fires; the all-zero key
    /// stands for none.
    pub oco_pair: Pubkey,
    pub sub_index: u8,
}

impl TriggerTerms {
    /// Terms from which a proper order results.
    pub open spec fn wf(self) -> bool {
        self.size_lots > 0 && self.side <= 1
    }
}

/// A trigger order, which may trail the price.
#[derive(Clone, Copy, Debug, PartialEq, Eq, Structural)]
pub struct TriggerOrderAccount {
    pub terms: TriggerTerms,
    /// 0 for a trigger that does not trail.
    pub trailing_offset_bps: u32,
    /// The best price so far; 0 before the first one.
    pub trailing_anchor_ticks: u64,
}

/// A trigger order with a bound on the price at which it may still fire.
#[derive(Clone, Copy, Debug, PartialEq, Eq, Structural)]
pub struct TriggerOrderAccountV3 {
    pub terms: TriggerTerms,
    pub created_at_slot: u64,
    /// 0 means no bound.
    pub acceptable_price_ticks: u64,
}

/// An order that is placed in slices over time.
#[derive(Clone, Copy, Debug, PartialEq, Eq, Structural)]
pub struct TwapOrderAccount {
    pub trader: Pubkey,
    pub market: Pubkey,
    pub bump: u8,
    pub twap_id: u8,
    pub side: u8,
    pub active: bool,
    pub slice_size_lots: u64,
    pub total_size_lots: u64,
    pub size_executed_lots: u64,
    pub limit_price_ticks: u64,
    pub slot_interval: u64,
    /// 0 means never.
    pub end_slot: u64,
    pub last_slice_at_slot: u64,
    pub sub_index: u8,
}

impl TwapOrderAccount {
    /// A schedule from which proper orders result.
    pub open spec fn wf(self) -> bool {
        self.slice_size_lots > 0 && self.side <= 1
    }
}

/// An order in slices with a bound on the price at which a slice may be placed.
#[derive(Clone, Copy, Debug, PartialEq, Eq, Structural)]
pub struct TwapOrderAccountV3 {
    pub twap: TwapOrderAccount,
    pub start_slot: u64,
    /// 0 means no bound.
    pub acceptable_price_ticks: u64,
}

/// An order of which only a part shows in the book at a time.
#[derive(Clone, Copy, Debug, PartialEq, Eq, Structural)]
pub struct IcebergOrderAccount {
    pub trader: Pubkey,
    pub market: Pubkey,
    pub bump: u8,
    pub iceberg_id: u8,
    pub side: u8,
    pub active: bool,
    pub sub_index: u8,
    pub limit_ticks: u64,
    pub total_size_lots: u64,
    /// What has not been shown yet.
    pub remaining_lots: u64,
    pub displayed_size_lots: u64,
    /// Sequence number of the part that was shown last; 0 before the first one.
    pub child_order_seq: u64,
    pub created_at_slot: u64,
    /// 0 means never.
    pub expires_at_slot: u64,
}

impl IcebergOrderAccount {
    /// An iceberg whose parts are proper orders.
    pub open spec fn wf(self) -> bool {
        self.displayed_size_lots > 0 && self.side <= 1
    }
}

/// A vault of the first generation.
#[derive(Clone, Copy, Debug, PartialEq, Eq, Structural)]
pub struct VaultAccount {
    pub strategist: Pubkey,
    pub bump: u8,
    pub vault_id: u8,
    pub trader_state: Pubkey,
    pub perf_fee_bps: u32,
    pub shares_outstanding: u64,
    /// Net value per share at the last settlement, in millionths.
    pub hwm_nav_per_share_u64x6: u64,
    pub last_perf_settlement_unix: u64,
    pub total_perf_shares_minted: u64,
}

/// A holding of a vault of the first generation.
#[derive(Clone, Copy, Debug, PartialEq, Eq, Structural)]
pub struct VaultPositionAccount {
    pub vault: Pubkey,
    pub depositor: Pubkey,
    pub bump: u8,
    pub shares: u64,
}

/// A vault: capital that a strategist trades for its depositors.
#[derive(Clone, Copy, Debug)]
pub struct VaultAccountV3 {
    pub strategist: Pubkey,
    pub bump: u8,
    pub vault_id: u8,
    /// 1 if the vault takes deposits.
    pub accept_deposits: u8,
    pub name: [u8; 32],
    pub perf_fee_bps: u32,
    pub shares_outstanding: u64,
    pub total_capital_quote_lots: u64,
    /// Net value per share at the last settlement, in millionths.
    pub hwm_nav_per_share_u64x6: u64,
    pub last_perf_settlement_unix: u64,
    pub total_perf_shares_minted: u64,
}

/// A depositor's holding of a vault.
#[derive(Clone, Copy, Debug, PartialEq, Eq, Structural)]
pub struct VaultPositionAccountV3 {
    pub vault: Pubkey,
    pub depositor: Pubkey,
    pub bump: u8,
    pub shares: u64,
    pub total_deposited_quote_lots: u64,
    pub total_withdrawn_quote_lots: u64,
}

/// The pool's exposure to one market, with its own capital.
#[derive(Clone, Copy, Debug, PartialEq, Eq, Structural)]
pub struct FlpExposurePerMarketAccountV3 {
    pub market: Pubkey,
    pub authority: Pubkey,
    pub bump: u8,
    /// 255 while there is no position.
    pub side: u8,
    pub size_lots: u64,
    pub entry_price_ticks: u64,
    pub total_capital_quote_lots: u64,
    pub realized_pnl: i64,
    pub lp_shares_outstanding: u64,
}

/// A provider's share of one market's pool.
#[derive(Clone, Copy, Debug, PartialEq, Eq, Structural)]
pub struct FlpPositionAccountV3 {
    pub market: Pubkey,
    pub lp: Pubkey,
    pub bump: u8,
    pub shares: u64,
}

} // verus!
