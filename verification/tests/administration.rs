use flash_book::book::MarketBook;
use flash_book::envelope::{
    gate_envelope_price_move, initialize_side_accrual, set_envelope_config, verify_envelope_config,
};
use flash_book::errors::{map_envelope_error, map_haircut_error, EnvelopeError, FlashBookError, HaircutError};
use flash_book::haircut::{
    convert_position, flush_haircut_dust, init_position_haircut_state, initialize_haircut_state,
    mature_position, release_gain_to_haircut, seed_residual, snap_haircut,
    verify_haircut_invariants, verify_protocol_solvency, Conversion, HaircutAccounts,
    HaircutReport, ReleaseGainToHaircut,
};
use flash_book::insurance::{
    initialize_insurance_fund, set_insurance_pause_threshold, withdraw_insurance_fund,
};
use flash_book::keys::Pubkey;
use flash_book::market::{
    burn_market_authority, expand_market_book, init_market_book, initialize_market,
    migrate_market_to_v3, set_market_sequencer, set_market_status, transfer_market_authority,
    update_market_params, verify_market_invariants, BookAccount, BookLayout, InitializeMarket,
};
use flash_book::oracle::{gate_oracle_update, update_oracle, update_oracle_quorum, UpdateOracle};
use flash_book::pyth::{
    init_market_oracle_config, update_oracle_from_pyth, PythUpdate, UpdateOracleFromPyth,
};
use flash_book::quoter::{
    quoter_inputs, quoter_params, realized_vol_bps_from_window, view_quote_ladder, QuoteLadder,
    QuoteLevel,
};
use flash_book::state::{
    EnvelopeParams, FeeTier, FeedId, FlpMarketExposure, InsuranceFundAccount, LeverageTier,
    MarketAccount, MarketEnvelopeConfigAccount, MarketParams, PositionAccount,
    PositionHaircutSnapshot, TraderStateAccount, VaultAccount, VaultPositionAccount,
    VaultPositionAccountV3,
};
use flash_book::tiers::{
    init_fee_tiers, init_market_leverage_tiers, resolve_fee_tier, tier_index_for_volume,
    update_fee_tiers, update_market_leverage_tiers, view_trader_effective_tier,
};
use flash_book::trader::{
    migrate_position_to_trader_state_key, open_trader_state, open_trader_sub_account,
    set_position_leverage, set_trader_builder, set_trader_delegate, set_trader_fee_tier,
    set_trader_referrer,
};
use flash_book::vaults::{settle_vault_perf_fee, SettleVaultPerfFee};
use flash_book::vaults_v3::{
    create_vault_v3, settle_vault_perf_fee_v3, vault_cancel_order_v3, vault_deposit_v3,
    vault_open_trader_state_v3, vault_place_order_v3, vault_withdraw_v3, SettleVaultPerfFeeV3,
    VaultHolding,
};

fn key(n: u128) -> Pubkey {
    Pubkey { hi: 0, lo: n }
}

fn params() -> MarketParams {
    MarketParams {
        tick_size: 1,
        base_lot_size: 1,
        quote_lot_size: 1,
        min_base_lots: 1,
        max_leverage: 10,
        initial_margin_ratio_bps: 1_000,
        maintenance_margin_ratio_bps: 500,
        concentration_threshold_lots: 0,
        concentration_extra_mmr_bps: 0,
        max_oi_base_lots: 0,
        max_position_lots_per_trader: 0,
        max_position_ratio_bps: 0,
        taker_fee_bps: 0,
        maker_rebate_bps: 0,
        jit_bonus_rebate_bps: 0,
        referrer_share_bps: 0,
        builder_share_bps: 0,
        creator_share_bps: 0,
        toxicity_tax_max_bps: 0,
        mark_ema_alpha_bps: 0,
        mark_max_change_bps: 0,
        mark_settle_min_slots: 0,
        drift_alert_bps: 0,
        oracle_band_bps: 0,
        oracle_staleness_max_seconds: 0,
        oracle_confidence_max_bps: 0,
        oracle_quorum_max_dispersion_bps: 0,
        liq_penalty_bps: 0,
        liquidator_reward_bps: 0,
        liquidation_cooldown_slots: 0,
        liquidation_auction_duration_slots: 0,
        funding_rate_k_bps: 0,
        funding_rate_max_bps_per_sec: 0,
        flp_max_growth_per_batch_bps: 0,
        flp_spread_base_bps: 0,
        flp_spread_alpha_bps: 0,
        flp_spread_beta_bps: 0,
        flp_spread_gamma_bps: 0,
        flp_spread_kappa_bps: 0,
        flp_spread_delta_bps: 0,
        flp_inventory_lambda_bps: 0,
        flp_depth_floor_lots: 0,
        flp_quote_levels: 0,
    }
}

fn market() -> MarketAccount {
    MarketAccount {
        authority: key(1),
        creator: key(0),
        sequencer: key(2),
        flp_pool: key(3),
        base_mint: key(4),
        quote_mint: key(5),
        base_vault: key(6),
        quote_vault: key(7),
        oracle_account: key(8),
        insurance_fund: key(9),
        bump: 254,
        status: 1,
        current_batch: 7,
        last_batch_ms: 0,
        oracle_price_ticks: 1_000,
        oracle_confidence: 0,
        oracle_published_at_unix_seconds: 0,
        mark_price_ticks: 1_000,
        cum_funding_index: 0,
        last_funding_rate_bps_per_sec: 0,
        vpin_bps: 0,
        oi_long_lots: 0,
        oi_short_lots: 0,
        recent_clearing_count: 0,
        total_fees_collected: 0,
        total_toxicity_tax_collected: 0,
        total_liquidations: 0,
        period_started_at_unix: 0,
        period_funding_paid_abs_bps: 0,
        last_mark_settle_slot: 0,
        params: params(),
    }
}

fn position(trader: u128, side: u8, size: u64, entry: u64) -> PositionAccount {
    PositionAccount {
        market: key(100),
        trader: key(trader),
        bump: 255,
        side,
        size_lots: size,
        entry_price_ticks: entry,
        cum_funding_index_at_entry: 0,
        realized_pnl_quote_lots: 0,
        funding_paid_quote_lots: 0,
        last_settlement_batch: 0,
        unhealthy_since_slot: 0,
        last_liquidated_at_slot: 0,
        collateral_quote_lots: 0,
        leverage_cap: 0,
    }
}

fn trader(id: u128, collateral: u64) -> TraderStateAccount {
    let mut s = open_trader_state(key(id), 253, 0);
    s.collateral_quote_lots = collateral;
    s
}

fn fund(balance: u64, threshold: u64) -> InsuranceFundAccount {
    let mut f = initialize_insurance_fund(key(1), 252, key(5), key(7), 1_000, 5_000, 0, threshold);
    f.balance_quote_lots = balance;
    f
}

fn envelope() -> MarketEnvelopeConfigAccount {
    MarketEnvelopeConfigAccount {
        market: key(100),
        bump: 0,
        version: 3,
        params: envelope_params(),
        last_proven_at_slot: 0,
        last_observed_slot: 0,
        last_observed_price_ticks: 0,
        gate_passes: 0,
        gate_rejects: 0,
    }
}

fn envelope_params() -> EnvelopeParams {
    EnvelopeParams {
        max_price_move_bps_per_slot: 50,
        max_accrual_dt_slots: 10,
        max_abs_funding_e9_per_slot: 5,
        maintenance_bps: 500,
        liquidation_fee_bps: 50,
        min_liquidation_abs_lots: 1,
        min_nonzero_mm_req_lots: 1,
    }
}

fn new_market_accounts() -> InitializeMarket {
    InitializeMarket {
        authority: key(1),
        protocol_authority: key(1),
        base_mint: key(4),
        quote_mint: key(5),
        base_vault: key(6),
        quote_vault: key(7),
        oracle_account: key(8),
        market_key: key(100),
        bump: 254,
        insurance_fund: key(9),
        flp_exposure: key(3),
    }
}

#[test]
fn new_markets_start_balanced_and_active() {
    let (m, e) = initialize_market(&new_market_accounts(), params(), 1_234, -5).unwrap();
    assert_eq!((m.status, m.mark_price_ticks, m.oracle_published_at_unix_seconds), (1, 1_234, 0));
    assert_eq!((m.sequencer, m.creator), (key(1), key(0)));
    assert_eq!(e.initial_oracle_ticks, 1_234);
    assert_eq!(
        initialize_market(&new_market_accounts(), params(), 0, 0).err(),
        Some(FlashBookError::ZeroPrice)
    );
    let mut tickless = params();
    tickless.tick_size = 0;
    assert_eq!(
        initialize_market(&new_market_accounts(), tickless, 1, 0).err(),
        Some(FlashBookError::OutOfRange)
    );
    let mut foreign = new_market_accounts();
    foreign.authority = key(66);
    assert_eq!(
        initialize_market(&foreign, params(), 1, 0).err(),
        Some(FlashBookError::Unauthorized)
    );
}

#[test]
fn closed_markets_stay_closed() {
    let mut m = market();
    let e = set_market_status(&mut m, key(100), key(1), 2).unwrap();
    assert_eq!((e.previous_status, m.status), (1, 2));
    assert_eq!(set_market_status(&mut m, key(100), key(1), 5).err(), Some(FlashBookError::OutOfRange));
    assert_eq!(set_market_status(&mut m, key(100), key(2), 3).err(), Some(FlashBookError::Unauthorized));
    set_market_status(&mut m, key(100), key(1), 4).unwrap();
    assert_eq!(set_market_status(&mut m, key(100), key(1), 1).err(), Some(FlashBookError::OutOfRange));
}

#[test]
fn parameters_keep_the_units() {
    let mut m = market();
    let mut p = params();
    p.taker_fee_bps = 7;
    update_market_params(&mut m, key(100), key(1), p).unwrap();
    assert_eq!(m.params.taker_fee_bps, 7);
    let mut bad = p;
    bad.tick_size = 2;
    assert_eq!(update_market_params(&mut m, key(100), key(1), bad).err(), Some(FlashBookError::OutOfRange));
    bad = p;
    bad.maintenance_margin_ratio_bps = 1_001;
    assert_eq!(update_market_params(&mut m, key(100), key(1), bad).err(), Some(FlashBookError::OutOfRange));
    bad = p;
    bad.concentration_extra_mmr_bps = 4_500;
    assert_eq!(update_market_params(&mut m, key(100), key(1), bad).err(), Some(FlashBookError::OutOfRange));
    bad.concentration_extra_mmr_bps = 4_499;
    assert!(update_market_params(&mut m, key(100), key(1), bad).is_ok());
}

#[test]
fn a_burned_authority_is_gone() {
    let mut m = market();
    transfer_market_authority(&mut m, key(100), key(1), key(12)).unwrap();
    assert_eq!(
        set_market_sequencer(&mut m, key(100), key(12), key(0)).err(),
        Some(FlashBookError::OutOfRange)
    );
    assert_eq!(
        set_market_sequencer(&mut m, key(100), key(12), key(13)).unwrap().previous_sequencer,
        key(2)
    );
    assert_eq!(burn_market_authority(&mut m, key(100), key(12), 99).unwrap().burn_slot, 99);
    for signer in [key(0), key(1), key(12)] {
        assert_eq!(set_market_status(&mut m, key(100), signer, 3).err(), Some(FlashBookError::Unauthorized));
        assert!(update_market_params(&mut m, key(100), signer, params()).is_err());
        assert!(transfer_market_authority(&mut m, key(100), signer, key(1)).is_err());
        assert!(burn_market_authority(&mut m, key(100), signer, 99).is_err());
    }
    assert_eq!(m.sequencer, key(13));
}

#[test]
fn imbalance_pauses_a_market() {
    let mut m = market();
    assert_eq!(verify_market_invariants(&mut m, key(100)), Ok(()));
    m.oi_long_lots = 5;
    let breach = verify_market_invariants(&mut m, key(100)).err().unwrap();
    assert_eq!(breach.error, FlashBookError::OpenInterestImbalance);
    assert_eq!((breach.event.expected, breach.event.actual, breach.event.invariant_code), (5, 0, 5));
    assert_eq!(m.status, 3);
    m.status = 4;
    assert!(verify_market_invariants(&mut m, key(100)).is_err());
    assert_eq!(m.status, 4);
}

#[test]
fn migration_sets_defaults_once() {
    let mut m = market();
    m.params.mark_ema_alpha_bps = 0;
    let e = migrate_market_to_v3(&mut m, key(100), key(1), 1_024, 1_152, 70).unwrap().unwrap();
    assert_eq!((e.old_size, e.new_size), (1_024, 1_152));
    assert_eq!((m.params.mark_ema_alpha_bps, m.params.mark_max_change_bps), (2_000, 500));
    assert_eq!((m.params.mark_settle_min_slots, m.params.drift_alert_bps), (10, 100));
    assert_eq!(m.last_mark_settle_slot, 70);
    assert_eq!(migrate_market_to_v3(&mut m, key(100), key(1), 1_152, 1_152, 80), Ok(None));
    assert_eq!(
        migrate_market_to_v3(&mut m, key(100), key(1), 1_153, 1_152, 80).err(),
        Some(FlashBookError::AlreadyInitialized)
    );
    assert_eq!(
        migrate_market_to_v3(&mut m, key(100), key(2), 1_024, 1_152, 80).err(),
        Some(FlashBookError::Unauthorized)
    );
    assert_eq!(
        migrate_market_to_v3(&mut m, key(100), key(1), 1_024, 10_485_761, 80).err(),
        Some(FlashBookError::OutOfRange)
    );
}

#[test]
fn books_are_created_and_grown() {
    let mut ctx = BookAccount {
        authority: key(1),
        market_key: key(100),
        market: market(),
        market_book_key: key(101),
        owned: true,
    };
    let layout = BookLayout { node_bytes: 80, max_total_bytes: 20_000 };
    let (mut b, e) = init_market_book(&ctx, &layout).unwrap();
    assert_eq!((e.total_bytes, e.data_bytes, b.capacity), (8_264, 8_000, 100));
    let e = expand_market_book(&ctx, &mut b, 8_264, 128, &layout).unwrap();
    assert_eq!((e.new_bytes, e.max_nodes, b.capacity), (18_504, 228, 228));
    assert_eq!(
        expand_market_book(&ctx, &mut b, 8_264, 129, &layout).err(),
        Some(FlashBookError::OutOfRange)
    );
    assert_eq!(
        expand_market_book(&ctx, &mut b, 18_504, 19, &layout).err(),
        Some(FlashBookError::OutOfRange)
    );
    assert_eq!(expand_market_book(&ctx, &mut b, 18_504, 0, &layout).err(), Some(FlashBookError::OutOfRange));
    ctx.owned = false;
    assert_eq!(expand_market_book(&ctx, &mut b, 18_504, 1, &layout).err(), Some(FlashBookError::Unauthorized));
    ctx.authority = key(2);
    assert_eq!(init_market_book(&ctx, &layout).err(), Some(FlashBookError::Unauthorized));
}

fn oracle_accounts() -> UpdateOracle {
    let mut m = market();
    m.params.oracle_staleness_max_seconds = 30;
    m.params.oracle_confidence_max_bps = 100;
    m.params.oracle_quorum_max_dispersion_bps = 200;
    UpdateOracle { authority: key(1), market_key: key(100), market: m, envelope_config: None }
}

#[test]
fn reported_prices_are_tested() {
    let report = |a: UpdateOracle, price: u64, conf: u64, published: u64| {
        let mut a = a;
        update_oracle(&mut a, price, conf, published, 130, 5, Ok(())).map(|_| a.market.oracle_price_ticks)
    };
    let a = oracle_accounts();
    assert_eq!(report(a, 2_000, 20, 100), Ok(2_000));
    assert_eq!(report(a, 0, 20, 100), Err(FlashBookError::ZeroPrice));
    assert_eq!(report(a, 2_000, 21, 100), Err(FlashBookError::OracleConfidenceTooWide));
    assert_eq!(report(a, 2_000, 20, 99), Err(FlashBookError::OracleTooStale));
    let mut foreign = a;
    foreign.authority = key(2);
    assert_eq!(report(foreign, 2_000, 20, 100), Err(FlashBookError::Unauthorized));
    let mut other = a;
    other.envelope_config = Some(MarketEnvelopeConfigAccount { market: key(101), ..envelope() });
    assert_eq!(report(other, 2_000, 20, 100), Err(FlashBookError::EnvelopePriceCapInvalid));
}

#[test]
fn quorum_takes_the_median() {
    let mut a = oracle_accounts();
    update_oracle_quorum(&mut a, [1_010, 1_000, 1_005], [1, 9, 2], [120, 110, 115], 130, 5, Ok(())).unwrap();
    assert_eq!(a.market.oracle_price_ticks, 1_005);
    assert_eq!((a.market.oracle_confidence, a.market.oracle_published_at_unix_seconds), (9, 110));
    let run = |a: UpdateOracle, p: [u64; 3], c: [u64; 3], t: [u64; 3]| {
        let mut a = a;
        update_oracle_quorum(&mut a, p, c, t, 130, 5, Ok(())).err()
    };
    assert_eq!(
        run(a, [1_030, 1_000, 1_005], [1; 3], [120; 3]),
        Some(FlashBookError::OracleQuorumDispersionTooWide)
    );
    assert_eq!(run(a, [1_010, 0, 1_005], [1; 3], [120; 3]), Some(FlashBookError::ZeroPrice));
    assert_eq!(
        run(a, [1_010, 1_000, 1_005], [1, 1, 11], [120; 3]),
        Some(FlashBookError::OracleConfidenceTooWide)
    );
    assert_eq!(
        run(a, [1_010, 1_000, 1_005], [1; 3], [120, 99, 120]),
        Some(FlashBookError::OracleTooStale)
    );
}

#[test]
fn price_bounds_admit_one_price_per_slot() {
    let mut c = Some(envelope());
    assert_eq!(gate_oracle_update(&mut c, 1_000, 50, Err(EnvelopeError::Overflow)), Ok(()));
    assert_eq!(gate_oracle_update(&mut c, 1_000, 50, Err(EnvelopeError::Overflow)), Ok(()));
    assert_eq!(
        gate_oracle_update(&mut c, 1_001, 50, Ok(())),
        Err(FlashBookError::EnvelopeSameSlotMove)
    );
    assert_eq!(
        gate_oracle_update(&mut c, 2_000, 51, Err(EnvelopeError::PriceMoveExceedsCap)),
        Err(FlashBookError::EnvelopePriceMoveExceedsCap)
    );
    assert_eq!(gate_oracle_update(&mut c, 1_004, 51, Ok(())), Ok(()));
    let k = c.unwrap();
    assert_eq!((k.last_observed_price_ticks, k.gate_passes, k.gate_rejects), (1_004, 2, 2));
    let mut none = None;
    assert_eq!(gate_oracle_update(&mut none, 1, 1, Err(EnvelopeError::Overflow)), Ok(()));
}

fn pyth_accounts(tick_decimals: i8) -> UpdateOracleFromPyth {
    let (oracle_config, _) =
        init_market_oracle_config(key(100), &market(), key(1), 1, FeedId { bytes: [7; 32] }, 30, 100, tick_decimals)
            .unwrap();
    UpdateOracleFromPyth { target: oracle_accounts(), oracle_config }
}

fn pyth_update() -> PythUpdate {
    PythUpdate {
        partial_signatures: None,
        feed_id: FeedId { bytes: [7; 32] },
        price: 123_456_789,
        conf: 1_000_000,
        exponent: -5,
        publish_time: 100,
    }
}

#[test]
fn pyth_prices_are_scaled_to_ticks() {
    let mut a = pyth_accounts(2);
    let e = update_oracle_from_pyth(&mut a, &pyth_update(), 130, 5, Ok(())).unwrap();
    // 1234.56789 dollars at two decimals.
    assert_eq!((e.new_oracle_ticks, e.confidence_bps, e.pyth_exponent), (123_456, 81, -5));
    assert_eq!(a.target.market.oracle_price_ticks, 123_456);
    assert_eq!(a.target.market.oracle_confidence, 1_000_000);
    assert_eq!(a.target.market.oracle_published_at_unix_seconds, 100);
    let mut up = pyth_accounts(8);
    let e = update_oracle_from_pyth(&mut up, &pyth_update(), 130, 5, Ok(())).unwrap();
    assert_eq!(e.new_oracle_ticks, 123_456_789_000);
}

#[test]
fn pyth_updates_are_refused_for_a_reason() {
    let run = |u: PythUpdate, decimals: i8, now: i64| {
        let mut a = pyth_accounts(decimals);
        update_oracle_from_pyth(&mut a, &u, now, 5, Ok(())).err()
    };
    let u = pyth_update();
    assert_eq!(run(u, 2, 131), Some(FlashBookError::OracleTooStale));
    assert_eq!(
        run(PythUpdate { partial_signatures: Some(200), ..u }, 2, 130),
        Some(FlashBookError::OracleTooStale)
    );
    assert_eq!(
        run(PythUpdate { feed_id: FeedId { bytes: [8; 32] }, ..u }, 2, 130),
        Some(FlashBookError::OracleTooStale)
    );
    assert_eq!(run(PythUpdate { price: 0, ..u }, 2, 130), Some(FlashBookError::ZeroPrice));
    assert_eq!(run(PythUpdate { price: 7, conf: 0, ..u }, 2, 130), Some(FlashBookError::ZeroPrice));
    assert_eq!(run(u, 24, 130), Some(FlashBookError::ArithmeticOverflow));
    assert_eq!(run(u, 16, 130), Some(FlashBookError::ArithmeticOverflow));
    assert_eq!(run(PythUpdate { exponent: -30, ..u }, 2, 130), Some(FlashBookError::ArithmeticOverflow));
    assert_eq!(
        run(PythUpdate { conf: 1_300_000, ..u }, 2, 130),
        Some(FlashBookError::OracleConfidenceTooWide)
    );
    let mut other = pyth_accounts(2);
    other.oracle_config.market = key(101);
    assert_eq!(
        update_oracle_from_pyth(&mut other, &u, 130, 5, Ok(())).err(),
        Some(FlashBookError::WrongMarket)
    );
    assert!(init_market_oracle_config(key(100), &market(), key(2), 1, FeedId { bytes: [7; 32] }, 30, 100, 2).is_err());
    assert!(init_market_oracle_config(key(100), &market(), key(1), 1, FeedId { bytes: [7; 32] }, 30, 1_001, 2).is_err());
}

#[test]
fn failures_of_the_arithmetic_are_named() {
    assert_eq!(map_haircut_error(HaircutError::InvertedWindow), FlashBookError::HaircutInvertedWindow);
    assert_eq!(map_haircut_error(HaircutError::WindowTooLarge), FlashBookError::HaircutWindowTooLarge);
    assert_eq!(map_envelope_error(EnvelopeError::AccrualDtZero), FlashBookError::EnvelopeAccrualWindowInvalid);
    assert_eq!(map_envelope_error(EnvelopeError::FundingCapTooLarge), FlashBookError::EnvelopeFundingCapInvalid);
    assert_eq!(map_envelope_error(EnvelopeError::LiqFeeTooLarge), FlashBookError::EnvelopeLiqFeeInvalid);
    assert_eq!(map_envelope_error(EnvelopeError::MaintenanceZero), FlashBookError::EnvelopeMaintenanceInvalid);
    assert_eq!(
        gate_envelope_price_move(Err(EnvelopeError::EnvelopeViolated)),
        Err(FlashBookError::EnvelopeViolated)
    );
    assert_eq!(gate_envelope_price_move(Ok(())), Ok(()));
}

#[test]
fn bounds_are_declared_by_the_authority() {
    let mut c = MarketEnvelopeConfigAccount { market: key(0), version: 9, ..envelope() };
    let e = set_envelope_config(key(100), &market(), key(1), 4, &mut c, envelope_params(), Ok(()), 60).unwrap();
    assert_eq!((e.version, c.market, c.bump, c.last_proven_at_slot), (1, key(100), 4, 60));
    c.last_observed_slot = 61;
    set_envelope_config(key(100), &market(), key(1), 4, &mut c, envelope_params(), Ok(()), 62).unwrap();
    assert_eq!((c.version, c.last_observed_slot), (2, 61));
    assert_eq!(
        set_envelope_config(key(100), &market(), key(2), 4, &mut c, envelope_params(), Ok(()), 62).err(),
        Some(FlashBookError::Unauthorized)
    );
    assert!(!verify_envelope_config(&c, Err(EnvelopeError::Overflow)).passed);
    assert!(verify_envelope_config(&c, Ok(())).passed);
    let (s, _) = initialize_side_accrual(key(100), &market(), key(1), 1, 1_000, 500, 60).unwrap();
    assert_eq!((s.long, s.long.a, s.short.price_last), (s.short, 1_000, 500));
    assert!(initialize_side_accrual(key(100), &market(), key(2), 1, 1_000, 500, 60).is_err());
}

fn haircut_accounts() -> HaircutAccounts {
    let (st, _) =
        initialize_haircut_state(key(100), &market(), key(1), 1, 10, 100, 1_000, Ok(()), 500, 40).unwrap();
    let (ph, _) = init_position_haircut_state(key(2_010), &position(10, 0, 5, 1_000), 2);
    HaircutAccounts {
        haircut_state: st,
        position_key: key(2_010),
        position_market: key(100),
        position_haircut: ph,
    }
}

#[test]
fn gains_mature_and_are_paid_out_of_the_residual() {
    let mut a = haircut_accounts();
    let step = PositionHaircutSnapshot { matured_pos_quote_lots: 60, ..snap_haircut(&a.position_haircut) };
    assert_eq!(mature_position(&mut a, Ok((step, 0))).err(), Some(FlashBookError::HaircutNothingToMature));
    assert_eq!(mature_position(&mut a, Ok((step, 60))).unwrap().matured_pos_after, 60);
    assert_eq!(a.haircut_state.matured_pos_total_quote_lots, 60);
    let v = Conversion { h_scaled: 400, matured_after: 0, credit: 48, dust: 12 };
    convert_position(&mut a, v, 50).unwrap();
    assert_eq!((a.haircut_state.residual_quote_lots, a.haircut_state.dust_accrued_quote_lots), (952, 12));
    assert_eq!((a.haircut_state.matured_pos_total_quote_lots, a.haircut_state.h_scaled_cached), (0, 400));
    assert_eq!(convert_position(&mut a, v, 50).err(), Some(FlashBookError::HaircutNothingToConvert));
    let mut poor = haircut_accounts();
    poor.position_haircut.matured_pos_quote_lots = 60;
    poor.haircut_state.matured_pos_total_quote_lots = 60;
    poor.haircut_state.residual_quote_lots = 47;
    assert_eq!(convert_position(&mut poor, v, 50).err(), Some(FlashBookError::HaircutResidualUnderflow));
    poor.position_market = key(101);
    assert_eq!(convert_position(&mut poor, v, 50).err(), Some(FlashBookError::HaircutStateMismatch));
    let mut f = fund(3, 0);
    let e = flush_haircut_dust(&mut a.haircut_state, &mut f).unwrap();
    assert_eq!((e.dust_quote_lots, f.balance_quote_lots, f.total_contributions), (12, 15, 12));
    assert!(flush_haircut_dust(&mut a.haircut_state, &mut f).is_err());
}

#[test]
fn collateral_is_released_from_its_bucket() {
    let h = haircut_accounts();
    let mut a = ReleaseGainToHaircut {
        authority: key(1),
        market_key: key(100),
        market: market(),
        position_key: key(2_010),
        position: position(10, 0, 5, 1_000),
        trader_state: trader(10, 100),
        haircut_market: key(100),
        position_haircut: h.position_haircut,
    };
    let s = PositionHaircutSnapshot {
        released_reserve_quote_lots: 30,
        ..snap_haircut(&a.position_haircut)
    };
    let e = release_gain_to_haircut(&mut a, 30, Ok(s)).unwrap();
    assert_eq!((e.reserve_after, e.isolated, a.trader_state.collateral_quote_lots), (30, false, 70));
    a.position.collateral_quote_lots = 20;
    assert_eq!(
        release_gain_to_haircut(&mut a, 21, Ok(s)).err(),
        Some(FlashBookError::InsufficientCollateral)
    );
    assert_eq!(release_gain_to_haircut(&mut a, 0, Ok(s)).err(), Some(FlashBookError::HaircutZeroGain));
    assert_eq!(
        release_gain_to_haircut(&mut a, 20, Err(HaircutError::Overflow)).err(),
        Some(FlashBookError::ArithmeticOverflow)
    );
    assert_eq!(a.position.collateral_quote_lots, 20);
}

#[test]
fn residuals_are_seeded_within_range() {
    let mut st = haircut_accounts().haircut_state;
    assert_eq!(seed_residual(key(100), &market(), &mut st, key(1), -400).unwrap().new_residual, 600);
    assert_eq!(
        seed_residual(key(100), &market(), &mut st, key(1), i128::MIN).err(),
        Some(FlashBookError::ArithmeticUnderflow)
    );
    st.residual_quote_lots = u128::MAX;
    assert_eq!(
        seed_residual(key(100), &market(), &mut st, key(1), 1).err(),
        Some(FlashBookError::ArithmeticOverflow)
    );
    assert_eq!(
        seed_residual(key(101), &market(), &mut st, key(1), 1).err(),
        Some(FlashBookError::HaircutStateMismatch)
    );
    let e = verify_haircut_invariants(&st, HaircutReport { all_ok: false, bitmask: 6 });
    assert_eq!((e.passed, e.bitmask), (false, 6));
}

#[test]
fn solvency_compares_the_vault_with_the_claims() {
    let e = verify_protocol_solvency(150, &fund(40, 0), 100).unwrap();
    assert_eq!((e.surplus_quote_lots, e.minimum_required_quote_lots, e.solvent), (10, 140, true));
    assert_eq!(
        verify_protocol_solvency(139, &fund(40, 0), 100).err(),
        Some(FlashBookError::HaircutResidualUnderflow)
    );
    assert_eq!(
        verify_protocol_solvency(139, &fund(40, 0), u64::MAX).err(),
        Some(FlashBookError::ArithmeticOverflow)
    );
}

#[test]
fn the_fund_keeps_its_threshold() {
    let mut f = fund(100, 60);
    assert_eq!(withdraw_insurance_fund(&mut f, key(1), 41, 1_000), Err(FlashBookError::InsufficientCollateral));
    assert_eq!(withdraw_insurance_fund(&mut f, key(1), 40, 39), Err(FlashBookError::InsufficientCollateral));
    assert_eq!(withdraw_insurance_fund(&mut f, key(1), 101, 1_000), Err(FlashBookError::ArithmeticUnderflow));
    assert_eq!(withdraw_insurance_fund(&mut f, key(2), 40, 1_000), Err(FlashBookError::Unauthorized));
    assert_eq!(withdraw_insurance_fund(&mut f, key(1), 40, 1_000), Ok(()));
    assert_eq!((f.balance_quote_lots, f.total_payouts), (60, 40));
    let e = set_insurance_pause_threshold(&mut f, key(1), 900).unwrap();
    assert_eq!((e.previous_threshold_quote_lots, e.current_balance_quote_lots), (60, 60));
    assert!(set_insurance_pause_threshold(&mut f, key(2), 900).is_err());
}

#[test]
fn owners_decide_about_their_accounts() {
    let mut s = open_trader_state(key(10), 3, 44);
    assert_eq!((s.sub_index, s.volume_window_start_slot), (0, 44));
    assert!(open_trader_sub_account(key(10), key(500), 3, 0, 44).is_err());
    assert_eq!(open_trader_sub_account(key(10), key(500), 3, 7, 44).unwrap().0.sub_index, 7);
    assert!(set_trader_referrer(&mut s, key(11), key(12)).is_err());
    set_trader_referrer(&mut s, key(10), key(0)).unwrap();
    assert_eq!(set_trader_referrer(&mut s, key(10), key(12)).err(), Some(FlashBookError::OutOfRange));
    set_trader_delegate(&mut s, key(10), key(60)).unwrap();
    assert!(s.is_authorized(key(60)) && s.is_authorized(key(10)) && !s.is_authorized(key(61)));
    assert_eq!(set_trader_delegate(&mut s, key(60), key(61)).err(), Some(FlashBookError::WrongTrader));
    set_trader_delegate(&mut s, key(10), key(0)).unwrap();
    assert!(!s.is_authorized(key(0)));
    set_trader_builder(&mut s, key(10), key(70), 10_000).unwrap();
    assert_eq!(set_trader_builder(&mut s, key(10), key(70), 10_001).err(), Some(FlashBookError::OutOfRange));
    assert_eq!(set_trader_builder(&mut s, key(10), key(0), 500).unwrap().max_fee_share_bps, 0);
    assert!(set_trader_fee_tier(&mut s, &fund(0, 0), key(1), 12_000).is_ok());
    assert_eq!(
        set_trader_fee_tier(&mut s, &fund(0, 0), key(1), 12_001).err(),
        Some(FlashBookError::OutOfRange)
    );
    assert_eq!(set_trader_fee_tier(&mut s, &fund(0, 0), key(2), 1).err(), Some(FlashBookError::Unauthorized));
    assert_eq!(s.fee_discount_bps, 12_000);
}

#[test]
fn leverage_is_capped_by_the_market() {
    let mut p = position(10, 0, 5, 1_000);
    let s = trader(10, 0);
    let e = set_position_leverage(key(100), &market(), &s, &mut p, key(10), 10).unwrap();
    assert_eq!((e.previous_cap, p.leverage_cap), (0, 10));
    assert_eq!(
        set_position_leverage(key(100), &market(), &s, &mut p, key(10), 11).err(),
        Some(FlashBookError::LeverageExceeded)
    );
    assert_eq!(
        set_position_leverage(key(100), &market(), &s, &mut p, key(11), 5).err(),
        Some(FlashBookError::Unauthorized)
    );
    let (q, e) = migrate_position_to_trader_state_key(&s, &p, key(10), key(100), 9).unwrap();
    assert_eq!((q.bump, q.leverage_cap, q.size_lots, e.size_lots), (9, 0, 5, 5));
    assert_eq!(
        migrate_position_to_trader_state_key(&s, &p, key(10), key(101), 9).err(),
        Some(FlashBookError::WrongMarket)
    );
}

fn fee_tiers() -> Vec<FeeTier> {
    vec![
        FeeTier { min_volume_quote_lots: 0, maker_rebate_bps: 1, taker_fee_bps: 10 },
        FeeTier { min_volume_quote_lots: 1_000, maker_rebate_bps: 2, taker_fee_bps: 8 },
    ]
}

#[test]
fn fee_tables_reward_volume() {
    let (mut t, e) = init_fee_tiers(key(1), 2, 500, fee_tiers()).unwrap();
    assert_eq!(e.tier_count, 2);
    assert_eq!(tier_index_for_volume(&t.tiers, 999), 0);
    assert_eq!(tier_index_for_volume(&t.tiers, 1_000), 1);
    let long: Vec<FeeTier> = (0..256)
        .map(|i| FeeTier { min_volume_quote_lots: i * 10, maker_rebate_bps: 0, taker_fee_bps: 0 })
        .collect();
    assert_eq!(tier_index_for_volume(&long, 2_549), 254);
    assert_eq!(tier_index_for_volume(&long, 2_550), 255);
    assert_eq!(tier_index_for_volume(&vec![], 5), 0);
    assert_eq!(resolve_fee_tier(5, 20, &t.tiers, 1_000), (2, 8));
    assert_eq!(resolve_fee_tier(5, 20, &vec![], 1_000), (5, 20));
    let mut s = open_trader_state(key(10), 3, 100);
    s.volume_30d_quote_lots = 1_500;
    let v = view_trader_effective_tier(&s, &t, 150);
    assert_eq!((v.tier_index, v.taker_fee_bps, v.window_expired), (1, 8, false));
    let v = view_trader_effective_tier(&s, &t, 700);
    assert_eq!((v.tier_index, v.effective_volume_quote_lots, v.window_expired), (0, 0, true));
    let mut dearer = fee_tiers();
    dearer[1].taker_fee_bps = 11;
    assert_eq!(update_fee_tiers(&mut t, key(1), 500, dearer).err(), Some(FlashBookError::OutOfRange));
    assert_eq!(update_fee_tiers(&mut t, key(2), 500, fee_tiers()).err(), Some(FlashBookError::Unauthorized));
}

#[test]
fn leverage_tables_only_tighten() {
    let tiers = || vec![LeverageTier { min_notional_quote_lots: 10, mmr_bps: 600 }];
    let (mut t, _) = init_market_leverage_tiers(key(100), &market(), key(1), 2, tiers()).unwrap();
    assert_eq!(t.tiers.len(), 1);
    assert_eq!(
        init_market_leverage_tiers(key(100), &market(), key(2), 2, tiers()).err(),
        Some(FlashBookError::Unauthorized)
    );
    let loose = vec![LeverageTier { min_notional_quote_lots: 10, mmr_bps: 499 }];
    assert_eq!(
        update_market_leverage_tiers(&market(), key(1), &mut t, loose).err(),
        Some(FlashBookError::OutOfRange)
    );
    assert_eq!(
        update_market_leverage_tiers(&market(), key(1), &mut t, vec![]).err(),
        Some(FlashBookError::ZeroSize)
    );
}

fn old_vault(collateral: u64, shares: u64, hwm: u64) -> SettleVaultPerfFee {
    SettleVaultPerfFee {
        strategist: key(80),
        vault_key: key(800),
        vault: VaultAccount {
            strategist: key(80),
            bump: 0,
            vault_id: 0,
            trader_state: key(801),
            perf_fee_bps: 2_000,
            shares_outstanding: shares,
            hwm_nav_per_share_u64x6: hwm,
            last_perf_settlement_unix: 0,
            total_perf_shares_minted: 0,
        },
        vault_trader_state_key: key(801),
        vault_trader_state: trader(800, collateral),
        strategist_position: VaultPositionAccount { vault: key(0), depositor: key(0), bump: 0, shares: 0 },
        position_bump: 5,
    }
}

#[test]
fn performance_fees_are_due_on_gains_alone() {
    let mut a = old_vault(1_500, 1_000, 1_000_000);
    let e = settle_vault_perf_fee(&mut a, 90).unwrap().unwrap();
    // A gain of 500, a fee of 100, worth 66 shares of 1.5.
    assert_eq!((e.shares_minted, a.vault.shares_outstanding), (66, 1_066));
    assert_eq!(e.new_hwm_per_share_u64x6, 1_407_129);
    assert_eq!((a.strategist_position.depositor, a.strategist_position.shares), (key(80), 66));
    let mut down = old_vault(900, 1_000, 1_000_000);
    assert_eq!(settle_vault_perf_fee(&mut down, 90), Ok(None));
    assert_eq!((down.vault.hwm_nav_per_share_u64x6, down.vault.shares_outstanding), (900_000, 1_000));
    let mut first = old_vault(1_500, 1_000, 0);
    assert_eq!(settle_vault_perf_fee(&mut first, 90), Ok(None));
    assert_eq!(first.vault.hwm_nav_per_share_u64x6, 1_500_000);
    let mut empty = old_vault(1_500, 0, 0);
    assert_eq!(settle_vault_perf_fee(&mut empty, 90), Ok(None));
    assert_eq!(empty.vault.hwm_nav_per_share_u64x6, 1_000_000);
    let mut busy = old_vault(1_500, 1_000, 1_000_000);
    busy.vault_trader_state.open_positions = 1;
    assert_eq!(settle_vault_perf_fee(&mut busy, 90).err(), Some(FlashBookError::SweepRequiresFlat));
}

fn holding() -> VaultHolding {
    let (vault, _) = create_vault_v3(key(800), key(80), 1, 2, [9; 32], 2_000, 50).unwrap();
    let (state, _) = vault_open_trader_state_v3(key(800), &vault, key(80), key(801), 3, 60).unwrap();
    VaultHolding {
        depositor: key(10),
        vault_key: key(800),
        vault,
        vault_trader_state: state,
        position: VaultPositionAccountV3 {
            vault: key(0),
            depositor: key(0),
            bump: 0,
            shares: 0,
            total_deposited_quote_lots: 0,
            total_withdrawn_quote_lots: 0,
        },
        position_bump: 6,
    }
}

#[test]
fn vault_shares_are_bought_and_sold_at_value() {
    assert!(create_vault_v3(key(800), key(80), 1, 2, [9; 32], 5_001, 50).is_err());
    let mut a = holding();
    assert_eq!(vault_deposit_v3(&mut a, 1_000).unwrap().shares_minted, 1_000);
    assert_eq!((a.position.depositor, a.vault_trader_state.collateral_quote_lots), (key(10), 1_000));
    a.vault_trader_state.collateral_quote_lots = 1_500;
    let e = vault_deposit_v3(&mut a, 100).unwrap();
    assert_eq!((e.shares_minted, e.shares_outstanding_after), (66, 1_066));
    let w = vault_withdraw_v3(&mut a, 66).unwrap();
    assert_eq!((w.amount_quote_lots, a.vault_trader_state.collateral_quote_lots), (99, 1_501));
    assert_eq!(vault_withdraw_v3(&mut a, 1_001).err(), Some(FlashBookError::OutOfRange));
    assert_eq!(vault_withdraw_v3(&mut a, 0).err(), Some(FlashBookError::ZeroSize));
    a.vault.accept_deposits = 0;
    assert_eq!(vault_deposit_v3(&mut a, 1_000).err(), Some(FlashBookError::OutOfRange));
    a.depositor = key(11);
    assert_eq!(vault_withdraw_v3(&mut a, 1).err(), Some(FlashBookError::Unauthorized));
    let mut drained = holding();
    vault_deposit_v3(&mut drained, 10).unwrap();
    drained.vault_trader_state.collateral_quote_lots = 0;
    assert_eq!(vault_withdraw_v3(&mut drained, 1).err(), Some(FlashBookError::InsufficientCollateral));
}

#[test]
fn the_high_water_mark_never_falls() {
    let mut h = holding();
    vault_deposit_v3(&mut h, 1_000).unwrap();
    h.vault_trader_state.collateral_quote_lots = 1_500;
    h.vault.hwm_nav_per_share_u64x6 = 1_000_000;
    let mut a = SettleVaultPerfFeeV3 {
        strategist: key(80),
        vault_key: key(800),
        vault: h.vault,
        vault_trader_state: h.vault_trader_state,
        strategist_position: VaultPositionAccountV3 { depositor: key(0), shares: 0, ..h.position },
        position_bump: 6,
    };
    let e = settle_vault_perf_fee_v3(&mut a, 99).unwrap().unwrap();
    assert_eq!((e.shares_minted, e.new_hwm_per_share_u64x6), (66, 1_407_129));
    assert_eq!(a.vault.total_perf_shares_minted, 66);
    assert_eq!(settle_vault_perf_fee_v3(&mut a, 99).err(), Some(FlashBookError::OutOfRange));
    a.strategist = key(81);
    assert_eq!(settle_vault_perf_fee_v3(&mut a, 99).err(), Some(FlashBookError::Unauthorized));
}

#[test]
fn strategists_trade_for_their_vault() {
    let h = holding();
    let mut b = MarketBook::new(key(100), 8);
    let mut place = |strategist: u128, size: u64, limit: u64| {
        vault_place_order_v3(
            key(800), &h.vault, key(strategist), key(100), &market(), &mut b, 0, size, limit, 0, 0, 5, 10,
        )
    };
    assert_eq!(place(80, 3, 990).unwrap().order_seq, 1);
    assert_eq!(place(81, 3, 990).err(), Some(FlashBookError::Unauthorized));
    assert_eq!(place(80, 0, 990).err(), Some(FlashBookError::ZeroSize));
    assert_eq!(place(80, 3, 0).err(), Some(FlashBookError::ZeroPrice));
    assert_eq!(b.bids[0].trader, key(800));
    assert_eq!(
        vault_cancel_order_v3(key(800), &h.vault, key(81), key(100), &mut b, 0, 5).err(),
        Some(FlashBookError::Unauthorized)
    );
    assert_eq!(
        vault_cancel_order_v3(key(800), &h.vault, key(80), key(100), &mut b, 0, 5).unwrap().order_seq,
        1
    );
    assert!(b.bids.is_empty());
}

#[test]
fn volatility_is_the_deviation_of_returns() {
    // Returns of 1000 and -909 basis points: mean 45, deviation 954.
    assert_eq!(realized_vol_bps_from_window(&vec![100, 110, 100], 3), 954);
    assert_eq!(realized_vol_bps_from_window(&vec![100, 110, 100], 1), 0);
    assert_eq!(realized_vol_bps_from_window(&vec![100, 100, 100, 7], 3), 0);
    assert_eq!(realized_vol_bps_from_window(&vec![0, 100, 200], 200), 0);
    assert_eq!(realized_vol_bps_from_window(&vec![1, 100, 1, 100], 4), 10_000);
    assert_eq!(realized_vol_bps_from_window(&vec![1, u64::MAX, 1, u64::MAX, 1], 5), 10_000);
    assert_eq!(realized_vol_bps_from_window(&vec![1, u64::MAX], 2), 0);
}

#[test]
fn the_quoter_is_told_about_the_pool() {
    let (mut flp, _, _) = flash_book::flp::initialize_flp_exposure(key(20), 1, 2, 10_000);
    flp.per_market[0] = FlpMarketExposure { market: key(100), side: 1, size_lots: 5, entry_price_ticks: 100 };
    flp.per_market[1] = FlpMarketExposure { market: key(101), side: 0, size_lots: 3, entry_price_ticks: 200 };
    let mut m = market();
    m.recent_clearing_count = 3;
    m.params.flp_spread_base_bps = 4;
    let i = quoter_inputs(key(100), &m, &flp, &vec![100, 110, 100]);
    assert_eq!((i.pool_net_quote_lots_signed, i.pool_gross_utilization_bps), (-500, 1_100));
    assert_eq!((i.realized_vol_bps, i.pool_capital_quote_lots), (954, 10_000));
    assert_eq!(quoter_params(&m.params).base_spread_bps, 4);
    let ladder = QuoteLadder {
        fair_value_ticks: 1_000,
        skew_bps: -3,
        bids: vec![
            QuoteLevel { price_ticks: 999, size_lots: 4 },
            QuoteLevel { price_ticks: 998, size_lots: 5 },
        ],
        asks: vec![],
    };
    let e = view_quote_ladder(key(100), Ok(ladder)).unwrap();
    assert_eq!((e.top_bid_ticks, e.top_bid_size_lots, e.top_ask_ticks, e.level_count), (999, 4, 0, 2));
    assert_eq!(
        view_quote_ladder(key(100), Err(FlashBookError::DivisionByZero)).err(),
        Some(FlashBookError::DivisionByZero)
    );
}
