//! What each successful request reports.
use vstd::prelude::*;

use crate::keys::Pubkey;
use crate::state::FeedId;

verus! {

#[derive(Clone, Copy, Debug, PartialEq, Eq, Structural)]
pub struct MarketBookInitializedEvent {
    pub market: Pubkey,
    pub market_book: Pubkey,
    pub total_bytes: u32,
    pub data_bytes: u32,
}

#[derive(Clone, Copy, Debug, PartialEq, Eq, Structural)]
pub struct MarketBookExpandedEvent {
    pub market: Pubkey,
    pub market_book: Pubkey,
    pub old_bytes: u32,
    pub new_bytes: u32,
    pub max_nodes: u32,
}

#[derive(Clone, Copy, Debug, PartialEq, Eq, Structural)]
pub struct MarketBookDelegatedEvent {
    pub market: Pubkey,
    pub market_book: Pubkey,
    pub commit_frequency_ms: u32,
    pub validator: Pubkey,
}

#[derive(Clone, Copy, Debug, PartialEq, Eq, Structural)]
pub struct MarketBookUndelegatedEvent {
    pub market: Pubkey,
    pub market_book: Pubkey,
}

#[derive(Clone, Copy, Debug, PartialEq, Eq, Structural)]
pub struct MarketDelegatedEvent {
    pub market: Pubkey,
    pub commit_frequency_ms: u32,
    pub validator: Pubkey,
}

#[derive(Clone, Copy, Debug, PartialEq, Eq, Structural)]
pub struct MarketUndelegatedEvent {
    pub market: Pubkey,
}

#[derive(Clone, Copy, Debug, PartialEq, Eq, Structural)]
pub struct OrderPlacedV2Event {
    pub market: Pubkey,
    pub trader: Pubkey,
    pub seq: u64,
    pub side: u8,
    pub price_ticks: u64,
    pub size_lots: u64,
    pub total_orders_after: u32,
}

#[derive(Clone, Copy, Debug, PartialEq, Eq, Structural)]
pub struct TakerOrderClearedEvent {
    pub market: Pubkey,
    pub taker: Pubkey,
    pub side: u8,
    pub taker_size_lots: u64,
    pub filled_lots: u64,
    pub residual_resting_lots: u64,
    pub match_count: u32,
    pub taker_order_id: u64,
}

#[derive(Clone, Copy, Debug, PartialEq, Eq, Structural)]
pub struct FillEntry {
    pub maker: Pubkey,
    pub size_lots: u64,
    pub price_ticks: u64,
    pub maker_id: u64,
    pub maker_sub_index: u8,
}

#[derive(Debug)]
pub struct FillBatchEvent {
    pub market: Pubkey,
    pub taker: Pubkey,
    pub taker_side: u8,
    pub taker_id: u64,
    pub fills: Vec<FillEntry>,
    pub taker_sub_index: u8,
}

#[derive(Clone, Copy, Debug, PartialEq, Eq, Structural)]
pub struct OrderCancelledV2Event {
    pub market: Pubkey,
    pub trader: Pubkey,
    pub order_seq: u64,
    pub side: u8,
    pub total_orders_after: u32,
}

#[derive(Clone, Copy, Debug, PartialEq, Eq, Structural)]
pub struct SubAccountOpenedEvent {
    pub trader: Pubkey,
    pub sub_index: u8,
    pub sub_account: Pubkey,
}

#[derive(Clone, Copy, Debug, PartialEq, Eq, Structural)]
pub struct SubAccountTransferEvent {
    pub trader: Pubkey,
    pub sub_index: u8,
    pub amount_quote_lots: u64,
    pub direction: u8,
    pub main_balance_after: u64,
    pub sub_balance_after: u64,
}

#[derive(Clone, Copy, Debug, PartialEq, Eq, Structural)]
pub struct PositionMigratedEvent {
    pub trader: Pubkey,
    pub market: Pubkey,
    pub size_lots: u64,
    pub collateral_quote_lots: u64,
}

#[derive(Clone, Copy, Debug, PartialEq, Eq, Structural)]
pub struct PositionMarginModeChangedEvent {
    pub trader: Pubkey,
    pub market: Pubkey,
    pub new_isolated_collateral_quote_lots: u64,
    pub new_cross_collateral_quote_lots: u64,
    pub mode: u8,
}

#[derive(Clone, Copy, Debug, PartialEq, Eq, Structural)]
pub struct BulkOrderCancelledV2Event {
    pub market: Pubkey,
    pub trader: Pubkey,
    pub cancelled_count: u32,
    pub total_orders_after: u32,
}

#[derive(Clone, Copy, Debug, PartialEq, Eq, Structural)]
pub struct OrderModifiedV2Event {
    pub market: Pubkey,
    pub trader: Pubkey,
    pub side: u8,
    pub old_seq: u64,
    pub new_seq: u64,
    pub new_price_ticks: u64,
    pub new_size_lots: u64,
    pub new_order_id: u64,
}

#[derive(Clone, Copy, Debug, PartialEq, Eq, Structural)]
pub struct BookLevelV2 {
    pub price_ticks: u64,
    pub size_lots: u64,
    pub seq: u64,
    pub trader: Pubkey,
}

#[derive(Debug)]
pub struct BookDepthV2Event {
    pub market: Pubkey,
    pub total_orders_active: u32,
    pub bids: Vec<BookLevelV2>,
    pub asks: Vec<BookLevelV2>,
}

#[derive(Clone, Copy, Debug, PartialEq, Eq, Structural)]
pub struct MarketInitializedEvent {
    pub market: Pubkey,
    pub authority: Pubkey,
    pub initial_oracle_ticks: u64,
}

#[derive(Clone, Copy, Debug, PartialEq, Eq, Structural)]
pub struct CollateralDepositedEvent {
    pub trader: Pubkey,
    pub amount: u64,
    pub new_balance: u64,
}

#[derive(Clone, Copy, Debug, PartialEq, Eq, Structural)]
pub struct CollateralWithdrawnEvent {
    pub trader: Pubkey,
    pub amount: u64,
    pub new_balance: u64,
}

#[derive(Clone, Copy, Debug, PartialEq, Eq, Structural)]
pub struct PartialCollateralWithdrawnEvent {
    pub trader: Pubkey,
    pub amount: u64,
    pub new_balance: u64,
    pub im_required: u64,
    pub notional_floor: u64,
    pub applied_floor: u64,
}

#[derive(Clone, Copy, Debug, PartialEq, Eq, Structural)]
pub struct FlpExposureInitializedEvent {
    pub authority: Pubkey,
    pub initial_capital: u64,
}

#[derive(Clone, Copy, Debug, PartialEq, Eq, Structural)]
pub struct FlpCapitalUpdatedEvent {
    pub new_total: u64,
    pub delta: i64,
}

#[derive(Clone, Copy, Debug, PartialEq, Eq, Structural)]
pub struct HaircutInitializedEvent {
    pub market: Pubkey,
    pub h_min_slots: u64,
    pub h_max_slots: u64,
    pub initial_residual_quote_lots: u128,
}

#[derive(Clone, Copy, Debug, PartialEq, Eq, Structural)]
pub struct PositionMaturedEvent {
    pub market: Pubkey,
    pub position: Pubkey,
    pub matured_delta: u64,
    pub matured_pos_after: u64,
}

#[derive(Clone, Copy, Debug, PartialEq, Eq, Structural)]
pub struct PositionConvertedEvent {
    pub market: Pubkey,
    pub position: Pubkey,
    pub credit_quote_lots: u64,
    pub dust_quote_lots: u64,
    pub h_scaled: u128,
}

#[derive(Clone, Copy, Debug, PartialEq, Eq, Structural)]
pub struct HaircutDustFlushedEvent {
    pub market: Pubkey,
    pub dust_quote_lots: u64,
    pub insurance_balance_after: u64,
}

#[derive(Clone, Copy, Debug, PartialEq, Eq, Structural)]
pub struct PositionHaircutInitializedEvent {
    pub market: Pubkey,
    pub position: Pubkey,
}

#[derive(Clone, Copy, Debug, PartialEq, Eq, Structural)]
pub struct GainReleasedToHaircutEvent {
    pub market: Pubkey,
    pub position: Pubkey,
    pub gain_quote_lots: u64,
    pub reserve_after: u64,
    pub isolated: bool,
}

#[derive(Clone, Copy, Debug, PartialEq, Eq, Structural)]
pub struct ResidualSeededEvent {
    pub market: Pubkey,
    pub delta: i128,
    pub new_residual: u128,
}

#[derive(Clone, Copy, Debug, PartialEq, Eq, Structural)]
pub struct HaircutInvariantsCheckedEvent {
    pub market: Pubkey,
    pub passed: bool,
    pub bitmask: u8,
    pub residual_quote_lots: u128,
    pub matured_pos_total_quote_lots: u128,
    pub dust_accrued_quote_lots: u128,
    pub h_scaled_cached: u64,
}

#[derive(Clone, Copy, Debug, PartialEq, Eq, Structural)]
pub struct SideAccrualInitializedEvent {
    pub market: Pubkey,
    pub initial_price_ticks: u64,
    pub initial_slot: u64,
}

#[derive(Clone, Copy, Debug, PartialEq, Eq, Structural)]
pub struct EnvelopeConfigSetEvent {
    pub market: Pubkey,
    pub version: u32,
    pub max_price_move_bps_per_slot: u32,
    pub max_accrual_dt_slots: u64,
    pub maintenance_bps: u32,
    pub liquidation_fee_bps: u32,
}

#[derive(Clone, Copy, Debug, PartialEq, Eq, Structural)]
pub struct EnvelopeVerifiedEvent {
    pub market: Pubkey,
    pub version: u32,
    pub passed: bool,
}

#[derive(Clone, Copy, Debug, PartialEq, Eq, Structural)]
pub struct MarketAuthorityBurnedEvent {
    pub market: Pubkey,
    pub previous_authority: Pubkey,
    pub burn_slot: u64,
}

#[derive(Clone, Copy, Debug, PartialEq, Eq, Structural)]
pub struct ProtocolSolvencyCheckedEvent {
    pub vault_quote_lots: u64,
    pub insurance_quote_lots: u64,
    pub flp_capital_quote_lots: u64,
    pub minimum_required_quote_lots: u64,
    pub surplus_quote_lots: u64,
    pub solvent: bool,
}

#[derive(Clone, Copy, Debug, PartialEq, Eq, Structural)]
pub struct MarketStatusChangedEvent {
    pub market: Pubkey,
    pub previous_status: u8,
    pub new_status: u8,
}

#[derive(Clone, Copy, Debug, PartialEq, Eq, Structural)]
pub struct MarketParamsUpdatedEvent {
    pub market: Pubkey,
}

#[derive(Clone, Copy, Debug, PartialEq, Eq, Structural)]
pub struct MarketLeverageTiersInitializedEvent {
    pub market: Pubkey,
    pub tier_count: u8,
}

#[derive(Clone, Copy, Debug, PartialEq, Eq, Structural)]
pub struct MarketLeverageTiersUpdatedEvent {
    pub market: Pubkey,
    pub tier_count: u8,
}

#[derive(Clone, Copy, Debug, PartialEq, Eq, Structural)]
pub struct FeeTiersInitializedEvent {
    pub authority: Pubkey,
    pub tier_count: u8,
    pub volume_window_slots: u64,
}

#[derive(Clone, Copy, Debug, PartialEq, Eq, Structural)]
pub struct FeeTiersUpdatedEvent {
    pub authority: Pubkey,
    pub tier_count: u8,
    pub volume_window_slots: u64,
}

#[derive(Clone, Copy, Debug, PartialEq, Eq, Structural)]
pub struct TraderEffectiveTierEvent {
    pub trader: Pubkey,
    pub tier_index: u8,
    pub effective_volume_quote_lots: u64,
    pub maker_rebate_bps: i32,
    pub taker_fee_bps: u32,
    pub window_expired: bool,
}

#[derive(Clone, Copy, Debug, PartialEq, Eq, Structural)]
pub struct TraderTierUpgradedEvent {
    pub trader: Pubkey,
    pub previous_tier_index: u8,
    pub new_tier_index: u8,
    pub volume_quote_lots: u64,
}

#[derive(Clone, Copy, Debug, PartialEq, Eq, Structural)]
pub struct MarketAuthorityTransferredEvent {
    pub market: Pubkey,
    pub previous_authority: Pubkey,
    pub new_authority: Pubkey,
}

#[derive(Clone, Copy, Debug, PartialEq, Eq, Structural)]
pub struct MarketSequencerRotatedEvent {
    pub market: Pubkey,
    pub previous_sequencer: Pubkey,
    pub new_sequencer: Pubkey,
}

#[derive(Clone, Copy, Debug, PartialEq, Eq, Structural)]
pub struct FlpFillAppliedEvent {
    pub market: Pubkey,
    pub taker: Pubkey,
    pub taker_side: u8,
    pub size_lots: u64,
    pub price_ticks: u64,
    pub batch_num: u64,
    pub flp_size_after: u64,
    pub flp_side_after: u8,
}

#[derive(Clone, Copy, Debug, PartialEq, Eq, Structural)]
pub struct LiquidationInjectedV2Event {
    pub market: Pubkey,
    pub trader: Pubkey,
    pub side: u8,
    pub size_lots: u64,
    pub limit_ticks: u64,
    pub worst_scenario_idx: u32,
    pub order_seq: u64,
}

#[derive(Clone, Copy, Debug, PartialEq, Eq, Structural)]
pub struct IcebergReplenishedV2Event {
    pub market: Pubkey,
    pub trader: Pubkey,
    pub iceberg_id: u8,
    pub executor: Pubkey,
    pub chunk_size_lots: u64,
    pub remaining_lots: u64,
    pub new_child_seq: u64,
}

#[derive(Clone, Copy, Debug, PartialEq, Eq, Structural)]
pub struct IcebergCancelledEvent {
    pub market: Pubkey,
    pub trader: Pubkey,
    pub iceberg_id: u8,
    pub unfilled_lots: u64,
}

#[derive(Clone, Copy, Debug, PartialEq, Eq, Structural)]
pub struct FillAppliedEvent {
    pub market: Pubkey,
    pub taker: Pubkey,
    pub maker: Pubkey,
    pub taker_side: u8,
    pub size_lots: u64,
    pub price_ticks: u64,
    pub batch_num: u64,
}

#[derive(Clone, Copy, Debug, PartialEq, Eq, Structural)]
pub struct FundingSettledEvent {
    pub market: Pubkey,
    pub trader: Pubkey,
    pub owed_quote_lots: i64,
    pub new_collateral: u64,
}

#[derive(Clone, Copy, Debug, PartialEq, Eq, Structural)]
pub struct BasketOrderPlacedV2Event {
    pub trader: Pubkey,
    pub market_a: Pubkey,
    pub market_b: Pubkey,
    pub side_a: u8,
    pub side_b: u8,
    pub size_lots_a: u64,
    pub size_lots_b: u64,
    pub seq_a: u64,
    pub seq_b: u64,
}

#[derive(Debug)]
pub struct BasketOrderNPlacedV2Event {
    pub trader: Pubkey,
    pub leg_count: u8,
    pub markets: Vec<Pubkey>,
}

#[derive(Clone, Copy, Debug, PartialEq, Eq, Structural)]
pub struct TraderFeeTierUpdatedEvent {
    pub trader: Pubkey,
    pub discount_bps: u32,
}

#[derive(Clone, Copy, Debug, PartialEq, Eq, Structural)]
pub struct TraderDelegateUpdatedEvent {
    pub trader: Pubkey,
    pub previous: Pubkey,
    pub new: Pubkey,
}

#[derive(Clone, Copy, Debug, PartialEq, Eq, Structural)]
pub struct TraderReferrerSetEvent {
    pub trader: Pubkey,
    pub referrer: Pubkey,
}

#[derive(Clone, Copy, Debug, PartialEq, Eq, Structural)]
pub struct ReferralPaidEvent {
    pub taker: Pubkey,
    pub referrer: Pubkey,
    pub amount_quote_lots: u64,
}

#[derive(Clone, Copy, Debug, PartialEq, Eq, Structural)]
pub struct ReferralOwedEvent {
    pub taker: Pubkey,
    pub referrer: Pubkey,
    pub amount_quote_lots: u64,
}

#[derive(Clone, Copy, Debug, PartialEq, Eq, Structural)]
pub struct BuilderFeeOwedEvent {
    pub taker: Pubkey,
    pub builder: Pubkey,
    pub amount_quote_lots: u64,
}

#[derive(Clone, Copy, Debug, PartialEq, Eq, Structural)]
pub struct CreatorFeeOwedEvent {
    pub market: Pubkey,
    pub creator: Pubkey,
    pub amount_quote_lots: u64,
}

#[derive(Clone, Copy, Debug, PartialEq, Eq, Structural)]
pub struct TradingRewardEligibleEvent {
    pub market: Pubkey,
    pub taker: Pubkey,
    pub maker: Pubkey,
    pub notional_quote_lots: u64,
    pub taker_side: u8,
}

#[derive(Clone, Copy, Debug, PartialEq, Eq, Structural)]
pub struct VaultPerfFeeSettledEvent {
    pub vault: Pubkey,
    pub strategist: Pubkey,
    pub shares_minted: u64,
    pub new_hwm_per_share_u64x6: u64,
}

#[derive(Clone, Copy, Debug, PartialEq, Eq, Structural)]
pub struct PositionLeverageUpdatedEvent {
    pub market: Pubkey,
    pub trader: Pubkey,
    pub previous_cap: u32,
    pub new_cap: u32,
}

#[derive(Clone, Copy, Debug, PartialEq, Eq, Structural)]
pub struct CollateralSweptEvent {
    pub authority: Pubkey,
    pub from: Pubkey,
    pub to: Pubkey,
    pub amount_quote_lots: u64,
}

#[derive(Clone, Copy, Debug, PartialEq, Eq, Structural)]
pub struct TraderBuilderUpdatedEvent {
    pub trader: Pubkey,
    pub previous: Pubkey,
    pub new: Pubkey,
    pub max_fee_share_bps: u32,
}

#[derive(Clone, Copy, Debug, PartialEq, Eq, Structural)]
pub struct MarginThresholdCrossedEvent {
    pub trader: Pubkey,
    pub market: Pubkey,
    pub level: u8,
    pub equity_to_mmr_bps: u32,
}

#[derive(Clone, Copy, Debug, PartialEq, Eq, Structural)]
pub struct TriggerOrderCancelledEvent {
    pub market: Pubkey,
    pub trader: Pubkey,
    pub trigger_id: u8,
}

#[derive(Clone, Copy, Debug, PartialEq, Eq, Structural)]
pub struct TriggerOrderExecutedV2Event {
    pub market: Pubkey,
    pub trader: Pubkey,
    pub trigger_id: u8,
    pub executor: Pubkey,
    pub oracle_price_ticks: u64,
    pub order_seq: u64,
}

#[derive(Clone, Copy, Debug, PartialEq, Eq, Structural)]
pub struct PortfolioRiskEvent {
    pub trader: Pubkey,
    pub collateral_quote_lots: u64,
    pub unrealized_pnl_quote_lots: i64,
    pub equity_quote_lots: i64,
    pub required_margin_quote_lots: u64,
    pub health_ratio_bps: u32,
    pub largest_position_market: Pubkey,
    pub largest_position_notional_quote_lots: u64,
    pub open_positions: u8,
    pub worst_scenario_idx: u32,
}

#[derive(Clone, Copy, Debug, PartialEq, Eq, Structural)]
pub struct PredictedFundingEvent {
    pub market: Pubkey,
    pub mark_price_ticks: u64,
    pub oracle_price_ticks: u64,
    pub premium_bps: i64,
    pub rate_bps_per_sec: i64,
    pub current_cum_index: i128,
}

#[derive(Clone, Copy, Debug, PartialEq, Eq, Structural)]
pub struct QuoteLadderSnapshotEvent {
    pub market: Pubkey,
    pub fair_value_ticks: u64,
    pub skew_bps: i32,
    pub top_bid_ticks: u64,
    pub top_ask_ticks: u64,
    pub top_bid_size_lots: u64,
    pub top_ask_size_lots: u64,
    pub level_count: u8,
}

#[derive(Clone, Copy, Debug, PartialEq, Eq, Structural)]
pub struct FundingPeriodCapHitEvent {
    pub market: Pubkey,
    pub period_started_at_unix: u64,
    pub cap_bps: u64,
    pub attenuated_rate_bps_per_sec: i64,
}

#[derive(Clone, Copy, Debug, PartialEq, Eq, Structural)]
pub struct MarkChangeClampedEvent {
    pub market: Pubkey,
    pub batch_num: u64,
    pub unclamped_mark_ticks: u64,
    pub clamped_mark_ticks: u64,
    pub prior_mark_ticks: u64,
}

#[derive(Clone, Copy, Debug, PartialEq, Eq, Structural)]
pub struct MarkPriceUpdatedEvent {
    pub market: Pubkey,
    pub old_mark_ticks: u64,
    pub new_mark_ticks: u64,
    pub oracle_ticks: u64,
    pub source: u8,
}

#[derive(Clone, Copy, Debug, PartialEq, Eq, Structural)]
pub struct MarkPriceDriftEvent {
    pub market: Pubkey,
    pub mark_ticks: u64,
    pub oracle_ticks: u64,
    pub drift_bps: u32,
}

#[derive(Clone, Copy, Debug, PartialEq, Eq, Structural)]
pub struct HealthGateSourceEvent {
    pub market: Pubkey,
    pub trader: Pubkey,
    pub mark_ticks: u64,
    pub oracle_ticks: u64,
    pub health_price_ticks: u64,
    pub source: u8,
}

#[derive(Clone, Copy, Debug, PartialEq, Eq, Structural)]
pub struct TrailingStopRatchetedEvent {
    pub market: Pubkey,
    pub trader: Pubkey,
    pub trigger_id: u8,
    pub previous_trigger_price_ticks: u64,
    pub new_trigger_price_ticks: u64,
    pub anchor_ticks: u64,
}

#[derive(Clone, Copy, Debug, PartialEq, Eq, Structural)]
pub struct TwapOrderCancelledEvent {
    pub market: Pubkey,
    pub trader: Pubkey,
    pub twap_id: u8,
    pub unfilled_lots: u64,
}

#[derive(Clone, Copy, Debug, PartialEq, Eq, Structural)]
pub struct TwapSliceExecutedV2Event {
    pub market: Pubkey,
    pub trader: Pubkey,
    pub twap_id: u8,
    pub executor: Pubkey,
    pub slice_size_lots: u64,
    pub cumulative_executed_lots: u64,
    pub order_seq: u64,
}

#[derive(Clone, Copy, Debug, PartialEq, Eq, Structural)]
pub struct AutoDeleveragedEvent {
    pub market: Pubkey,
    pub underwater_trader: Pubkey,
    pub counter_trader: Pubkey,
    pub close_size_lots: u64,
    pub bankruptcy_price_ticks: u64,
    pub counter_gain_quote_lots: u64,
    pub executor: Pubkey,
}

#[derive(Clone, Copy, Debug, PartialEq, Eq, Structural)]
pub struct InsurancePauseThresholdUpdatedEvent {
    pub authority: Pubkey,
    pub previous_threshold_quote_lots: u64,
    pub new_threshold_quote_lots: u64,
    pub current_balance_quote_lots: u64,
}

#[derive(Clone, Copy, Debug, PartialEq, Eq, Structural)]
pub struct LiquidatorRewardedEvent {
    pub market: Pubkey,
    pub liquidator: Pubkey,
    pub liquidatee: Pubkey,
    pub reward_quote_lots: u64,
}

#[derive(Clone, Copy, Debug, PartialEq, Eq, Structural)]
pub struct JitLiquidationOfferPlacedEvent {
    pub market: Pubkey,
    pub maker: Pubkey,
    pub target_trader: Pubkey,
    pub nonce: u32,
    pub side: u8,
    pub offer_price_ticks: u64,
    pub max_size_lots: u64,
    pub expires_at_slot: u64,
}

#[derive(Clone, Copy, Debug, PartialEq, Eq, Structural)]
pub struct JitLiquidationOfferCancelledEvent {
    pub market: Pubkey,
    pub maker: Pubkey,
    pub nonce: u32,
    pub unfilled_size_lots: u64,
}

#[derive(Clone, Copy, Debug, PartialEq, Eq, Structural)]
pub struct JitLiquidationFilledEvent {
    pub market: Pubkey,
    pub trader: Pubkey,
    pub jit_maker: Pubkey,
    pub fill_size_lots: u64,
    pub fill_price_ticks: u64,
    pub synthetic_price_ticks: u64,
    pub savings_vs_synthetic_bps: u32,
}

#[derive(Clone, Copy, Debug, PartialEq, Eq, Structural)]
pub struct ToxicityTaxAppliedEvent {
    pub market: Pubkey,
    pub taker: Pubkey,
    pub maker: Pubkey,
    pub vpin_bps: u32,
    pub tax_quote_lots: u64,
    pub insurance_share: u64,
    pub maker_share: u64,
}

#[derive(Clone, Copy, Debug, PartialEq, Eq, Structural)]
pub struct InvariantBreachDetectedEvent {
    pub market: Pubkey,
    pub invariant_code: u8,
    pub expected: u64,
    pub actual: u64,
    pub previous_status: u8,
    pub new_status: u8,
}

#[derive(Clone, Copy, Debug, PartialEq, Eq, Structural)]
pub struct MarketMigratedToV3Event {
    pub market: Pubkey,
    pub old_size: u32,
    pub new_size: u32,
    pub slot: u64,
}

#[derive(Clone, Copy, Debug)]
pub struct MarketOracleConfigInitializedEvent {
    pub market: Pubkey,
    pub pyth_price_feed_id: FeedId,
    pub max_staleness_seconds: u32,
    pub max_confidence_bps: u32,
    pub tick_decimals: i8,
}

#[derive(Clone, Copy, Debug, PartialEq, Eq, Structural)]
pub struct OracleUpdatedFromPythEvent {
    pub market: Pubkey,
    pub pyth_price: i64,
    pub pyth_conf: u64,
    pub pyth_exponent: i32,
    pub new_oracle_ticks: u64,
    pub confidence_bps: u32,
    pub publish_time: i64,
}

#[derive(Clone, Copy, Debug, PartialEq, Eq, Structural)]
pub struct TriggerOrderV3PlacedEvent {
    pub market: Pubkey,
    pub trader: Pubkey,
    pub trigger_id: u8,
    pub side: u8,
    pub kind: u8,
    pub size_lots: u64,
    pub trigger_price_ticks: u64,
    pub limit_price_ticks: u64,
}

#[derive(Clone, Copy, Debug, PartialEq, Eq, Structural)]
pub struct TriggerOrderV3ExecutedEvent {
    pub market: Pubkey,
    pub trader: Pubkey,
    pub trigger_id: u8,
    pub executor: Pubkey,
    pub oracle_price_ticks: u64,
    pub order_seq: u64,
}

#[derive(Clone, Copy, Debug, PartialEq, Eq, Structural)]
pub struct TriggerOrderV3SlippageCancelledEvent {
    pub market: Pubkey,
    pub trader: Pubkey,
    pub trigger_id: u8,
    pub oracle_price_ticks: u64,
    pub acceptable_price_ticks: u64,
}

#[derive(Clone, Copy, Debug, PartialEq, Eq, Structural)]
pub struct TriggerOrderV3CancelledEvent {
    pub market: Pubkey,
    pub trader: Pubkey,
    pub trigger_id: u8,
}

#[derive(Clone, Copy, Debug, PartialEq, Eq, Structural)]
pub struct TwapOrderV3PlacedEvent {
    pub market: Pubkey,
    pub trader: Pubkey,
    pub twap_id: u8,
    pub side: u8,
    pub total_size_lots: u64,
    pub slice_size_lots: u64,
    pub limit_price_ticks: u64,
    pub slot_interval: u64,
}

#[derive(Clone, Copy, Debug, PartialEq, Eq, Structural)]
pub struct TwapSliceV3ExecutedEvent {
    pub market: Pubkey,
    pub trader: Pubkey,
    pub twap_id: u8,
    pub executor: Pubkey,
    pub slice_size_lots: u64,
    pub cumulative_executed_lots: u64,
    pub order_seq: u64,
}

#[derive(Clone, Copy, Debug, PartialEq, Eq, Structural)]
pub struct TwapSliceV3SlippageSkippedEvent {
    pub market: Pubkey,
    pub trader: Pubkey,
    pub twap_id: u8,
    pub oracle_price_ticks: u64,
    pub acceptable_price_ticks: u64,
}

#[derive(Clone, Copy, Debug, PartialEq, Eq, Structural)]
pub struct TwapOrderV3CancelledEvent {
    pub market: Pubkey,
    pub trader: Pubkey,
    pub twap_id: u8,
    pub unfilled_lots: u64,
}

#[derive(Clone, Copy, Debug, PartialEq, Eq, Structural)]
pub struct IcebergOrderV3PlacedEvent {
    pub market: Pubkey,
    pub trader: Pubkey,
    pub iceberg_id: u8,
    pub side: u8,
    pub total_size_lots: u64,
    pub displayed_size_lots: u64,
    pub limit_ticks: u64,
    pub first_chunk_size_lots: u64,
}

#[derive(Clone, Copy, Debug, PartialEq, Eq, Structural)]
pub struct IcebergV3ReplenishedEvent {
    pub market: Pubkey,
    pub trader: Pubkey,
    pub iceberg_id: u8,
    pub executor: Pubkey,
    pub chunk_size_lots: u64,
    pub remaining_lots: u64,
}

#[derive(Clone, Copy, Debug, PartialEq, Eq, Structural)]
pub struct IcebergV3CancelledEvent {
    pub market: Pubkey,
    pub trader: Pubkey,
    pub iceberg_id: u8,
    pub unfilled_lots: u64,
}

#[derive(Clone, Copy, Debug, PartialEq, Eq, Structural)]
pub struct BracketOrderV3PlacedEvent {
    pub market: Pubkey,
    pub trader: Pubkey,
    pub parent_side: u8,
    pub size_lots: u64,
    pub parent_limit_ticks: u64,
    pub tp_trigger_id: u8,
    pub sl_trigger_id: u8,
    pub tp_trigger_price_ticks: u64,
    pub sl_trigger_price_ticks: u64,
}

#[derive(Clone, Copy, Debug, PartialEq, Eq, Structural)]
pub struct VaultV3CreatedEvent {
    pub vault: Pubkey,
    pub strategist: Pubkey,
    pub vault_id: u8,
    pub perf_fee_bps: u32,
}

#[derive(Clone, Copy, Debug, PartialEq, Eq, Structural)]
pub struct VaultTraderStateOpenedV3Event {
    pub vault: Pubkey,
    pub vault_trader_state: Pubkey,
}

#[derive(Clone, Copy, Debug, PartialEq, Eq, Structural)]
pub struct VaultDepositV3Event {
    pub vault: Pubkey,
    pub depositor: Pubkey,
    pub amount_quote_lots: u64,
    pub shares_minted: u64,
    pub shares_outstanding_after: u64,
}

#[derive(Clone, Copy, Debug, PartialEq, Eq, Structural)]
pub struct VaultWithdrawV3Event {
    pub vault: Pubkey,
    pub depositor: Pubkey,
    pub shares_burned: u64,
    pub amount_quote_lots: u64,
    pub shares_outstanding_after: u64,
}

#[derive(Clone, Copy, Debug, PartialEq, Eq, Structural)]
pub struct VaultOrderPlacedV3Event {
    pub vault: Pubkey,
    pub market: Pubkey,
    pub side: u8,
    pub size_lots: u64,
    pub limit_ticks: u64,
    pub order_seq: u64,
}

#[derive(Clone, Copy, Debug, PartialEq, Eq, Structural)]
pub struct VaultOrderCancelledV3Event {
    pub vault: Pubkey,
    pub market: Pubkey,
    pub side: u8,
    pub order_id: u64,
    pub order_seq: u64,
}

#[derive(Clone, Copy, Debug, PartialEq, Eq, Structural)]
pub struct VaultPerfFeeSettledV3Event {
    pub vault: Pubkey,
    pub strategist: Pubkey,
    pub shares_minted: u64,
    pub new_hwm_per_share_u64x6: u64,
}

#[derive(Clone, Copy, Debug, PartialEq, Eq, Structural)]
pub struct FlpPerMarketInitV3Event {
    pub market: Pubkey,
    pub authority: Pubkey,
}

#[derive(Clone, Copy, Debug, PartialEq, Eq, Structural)]
pub struct FlpFillRecordedV3Event {
    pub market: Pubkey,
    pub side: u8,
    pub size_lots: u64,
    pub price_ticks: u64,
    pub realized_pnl_delta: i64,
    pub new_side: u8,
    pub new_size_lots: u64,
    pub new_realized_pnl: i64,
}

#[derive(Clone, Copy, Debug, PartialEq, Eq, Structural)]
pub struct FlpDepositedV3Event {
    pub market: Pubkey,
    pub lp: Pubkey,
    pub amount_quote_lots: u64,
    pub shares_minted: u64,
    pub new_total_capital: u64,
    pub new_shares_outstanding: u64,
}

#[derive(Clone, Copy, Debug, PartialEq, Eq, Structural)]
pub struct FlpWithdrawnV3Event {
    pub market: Pubkey,
    pub lp: Pubkey,
    pub shares_burned: u64,
    pub amount_quote_lots: u64,
    pub new_total_capital: u64,
    pub new_shares_outstanding: u64,
}

} // verus!
