use flash_book::book::MarketBook;
use flash_book::collateral::{
    deposit_collateral, partial_withdraw_collateral, sweep_collateral, transfer_main_to_sub,
    transfer_sub_to_main, withdraw_collateral, SweepCollateral, TransferBetweenSubAccounts,
};
use flash_book::constants::Limits;
use flash_book::deleveraging::{auto_deleverage, compute_bankruptcy_price, AutoDeleverage};
use flash_book::errors::FlashBookError;
use flash_book::insurance::initialize_insurance_fund;
use flash_book::jit_offers::{
    cancel_jit_liquidation_offer, place_jit_liquidation_offer, JitOfferRequest,
};
use flash_book::keys::Pubkey;
use flash_book::liquidation::{
    compute_auction_reward_bps, compute_liquidation_limit, liquidate_position_v2,
    liquidation_question, pick_health_price, LiquidatePositionV2,
};
use flash_book::margin_mode::{
    margin_mode_question, set_position_cross, set_position_isolated, SetPositionMarginMode,
};
use flash_book::pda::derive_position_address;
use flash_book::portfolio_liquidation::{
    liquidate_portfolio_v2, portfolio_liquidation_question, LiquidatePortfolioV2,
};
use flash_book::risk::{view_portfolio_risk, Binding, MarginAssessment, PortfolioEntry};
use flash_book::state::{
    InsuranceFundAccount, JitLiquidationOfferAccount, MarketAccount, MarketParams, PositionAccount,
    Side, TraderStateAccount,
};
use flash_book::trader::open_trader_state;

fn key(n: u128) -> Pubkey {
    Pubkey { hi: 0, lo: n }
}

fn params() -> MarketParams {
    MarketParams {
        tick_size: 1,
        base_lot_size: 1,
        quote_lot_size: 1,
        min_base_lots: 1,
        max_leverage: 10,
        initial_margin_ratio_bps: 1_000,
        maintenance_margin_ratio_bps: 500,
        concentration_threshold_lots: 0,
        concentration_extra_mmr_bps: 0,
        max_oi_base_lots: 0,
        max_position_lots_per_trader: 0,
        max_position_ratio_bps: 0,
        taker_fee_bps: 0,
        maker_rebate_bps: 0,
        jit_bonus_rebate_bps: 0,
        referrer_share_bps: 0,
        builder_share_bps: 0,
        creator_share_bps: 0,
        toxicity_tax_max_bps: 0,
        mark_ema_alpha_bps: 0,
        mark_max_change_bps: 0,
        mark_settle_min_slots: 0,
        drift_alert_bps: 0,
        oracle_band_bps: 0,
        oracle_staleness_max_seconds: 0,
        oracle_confidence_max_bps: 0,
        oracle_quorum_max_dispersion_bps: 0,
        liq_penalty_bps: 0,
        liquidator_reward_bps: 0,
        liquidation_cooldown_slots: 0,
        liquidation_auction_duration_slots: 0,
        funding_rate_k_bps: 0,
        funding_rate_max_bps_per_sec: 0,
        flp_max_growth_per_batch_bps: 0,
        flp_spread_base_bps: 0,
        flp_spread_alpha_bps: 0,
        flp_spread_beta_bps: 0,
        flp_spread_gamma_bps: 0,
        flp_spread_kappa_bps: 0,
        flp_spread_delta_bps: 0,
        flp_inventory_lambda_bps: 0,
        flp_depth_floor_lots: 0,
        flp_quote_levels: 0,
    }
}

fn market() -> MarketAccount {
    MarketAccount {
        authority: key(1),
        creator: key(0),
        sequencer: key(2),
        flp_pool: key(3),
        base_mint: key(4),
        quote_mint: key(5),
        base_vault: key(6),
        quote_vault: key(7),
        oracle_account: key(8),
        insurance_fund: key(9),
        bump: 254,
        status: 1,
        current_batch: 7,
        last_batch_ms: 0,
        oracle_price_ticks: 1_000,
        oracle_confidence: 0,
        oracle_published_at_unix_seconds: 0,
        mark_price_ticks: 1_000,
        cum_funding_index: 0,
        last_funding_rate_bps_per_sec: 0,
        vpin_bps: 0,
        oi_long_lots: 0,
        oi_short_lots: 0,
        recent_clearing_count: 0,
        total_fees_collected: 0,
        total_toxicity_tax_collected: 0,
        total_liquidations: 0,
        period_started_at_unix: 0,
        period_funding_paid_abs_bps: 0,
        last_mark_settle_slot: 0,
        params: params(),
    }
}

fn position(trader: u128, side: u8, size: u64, entry: u64) -> PositionAccount {
    PositionAccount {
        market: key(100),
        trader: key(trader),
        bump: 255,
        side,
        size_lots: size,
        entry_price_ticks: entry,
        cum_funding_index_at_entry: 0,
        realized_pnl_quote_lots: 0,
        funding_paid_quote_lots: 0,
        last_settlement_batch: 0,
        unhealthy_since_slot: 0,
        last_liquidated_at_slot: 0,
        collateral_quote_lots: 0,
        leverage_cap: 0,
    }
}

fn trader(id: u128, collateral: u64) -> TraderStateAccount {
    let mut s = open_trader_state(key(id), 253, 0);
    s.collateral_quote_lots = collateral;
    s
}

fn fund(balance: u64, threshold: u64) -> InsuranceFundAccount {
    let mut f = initialize_insurance_fund(key(1), 252, key(5), key(7), 1_000, 5_000, 0, threshold);
    f.balance_quote_lots = balance;
    f
}

const LIMITS: Limits = Limits {
    flp_seq_reserved_offset: 1 << 48,
    max_orders_per_trader_per_batch: 8,
    max_basket_legs_n: 4,
    default_volume_window_slots: 1_000,
};

const HEALTHY: MarginAssessment = MarginAssessment {
    is_healthy: true,
    required_quote_lots: 400,
    equity_quote_lots_signed: 1_000,
    worst_scenario_idx: 2,
};

const SICK: MarginAssessment = MarginAssessment { is_healthy: false, ..HEALTHY };

fn binding() -> Binding {
    Binding {
        position_seed: b"position".to_vec(),
        trader_state_key: key(500),
        program_id: key(77),
    }
}

/// An entry at the address that belongs to it.
fn bound_entry(market_id: u128, size: u64) -> PortfolioEntry {
    let b = binding();
    let mut bump = 255u8;
    let address = loop {
        match derive_position_address(&b.position_seed, key(market_id), key(500), bump, key(77)) {
            Some(k) => break k,
            None => bump -= 1,
        }
    };
    let mut p = position(10, 0, size, 1_000);
    p.market = key(market_id);
    p.bump = bump;
    PortfolioEntry {
        market_key: key(market_id),
        market_owned: true,
        market: market(),
        position_key: address,
        position_owned: true,
        position: p,
    }
}

fn liquidation() -> LiquidatePositionV2 {
    let mut m = market();
    m.params.liq_penalty_bps = 500;
    m.params.liquidator_reward_bps = 100;
    let mut s = trader(10, 10_000);
    s.sub_index = 4;
    LiquidatePositionV2 {
        caller: key(90),
        caller_bump: 249,
        market_key: key(100),
        market: m,
        trader_state: s,
        caller_trader_state: Some(open_trader_state(key(0), 0, 0)),
        position: position(10, 0, 50, 1_100),
    }
}

fn offer(side: u8, price: u64, size: u64) -> JitLiquidationOfferAccount {
    JitLiquidationOfferAccount {
        bump: 0,
        side,
        maker_sub_index: 0,
        nonce: 1,
        market: key(100),
        maker: key(40 + price as u128),
        target_trader: key(0),
        offer_price_ticks: price,
        max_size_lots: size,
        remaining_size_lots: size,
        created_at_slot: 0,
        expires_at_slot: 0,
    }
}

#[test]
fn health_is_judged_at_the_worse_price() {
    assert_eq!(pick_health_price(Side::Long, 1_000, 900), (900, 1));
    assert_eq!(pick_health_price(Side::Long, 1_000, 1_100), (1_000, 0));
    assert_eq!(pick_health_price(Side::Long, 1_000, 0), (1_000, 0));
    assert_eq!(pick_health_price(Side::Short, 1_000, 1_100), (1_100, 1));
    assert_eq!(pick_health_price(Side::Short, 1_000, 1_000), (1_000, 2));
    let mut a = liquidation();
    a.market.oracle_price_ticks = 950;
    let (p, m) = liquidation_question(&a);
    assert_eq!((p.size_lots, m.mark_price_ticks, m.margin_bps), (50, 950, 500));
}

#[test]
fn liquidation_closes_at_the_penalty_price_and_rewards() {
    let mut a = liquidation();
    let mut b = MarketBook::new(key(100), 8);
    let r = liquidate_position_v2(&mut a, &mut b, &mut vec![], 0, Ok(SICK), 7, &LIMITS, 20, 0).unwrap();
    assert_eq!((r.injected.limit_ticks, r.injected.size_lots, r.injected.worst_scenario_idx), (950, 50, 2));
    assert_eq!((b.asks[0].price_ticks, b.asks[0].order_type, b.asks[0].sub_index), (950, 3, 4));
    // 1% of 50 * 1000.
    assert_eq!(r.rewarded.unwrap().reward_quote_lots, 500);
    assert_eq!(a.trader_state.collateral_quote_lots, 9_500);
    let c = a.caller_trader_state.unwrap();
    assert_eq!((c.trader, c.bump, c.collateral_quote_lots), (key(90), 249, 500));
    assert_eq!((a.position.unhealthy_since_slot, a.position.last_liquidated_at_slot), (20, 20));
    assert!(r.jit.is_none());
    assert_eq!(r.source.source, 2);
}

#[test]
fn liquidation_takes_the_best_standing_offer() {
    let mut a = liquidation();
    let mut b = MarketBook::new(key(100), 8);
    let mut offers = vec![
        offer(0, 950, 100),
        offer(0, 960, 20),
        offer(1, 990, 100),
        offer(0, 970, 30),
        offer(0, 970, 99),
    ];
    let r = liquidate_position_v2(&mut a, &mut b, &mut offers, 40, Ok(SICK), 7, &LIMITS, 20, 0).unwrap();
    let jit = r.jit.unwrap();
    assert_eq!((jit.fill_price_ticks, jit.fill_size_lots, jit.synthetic_price_ticks), (970, 30, 950));
    assert_eq!(jit.savings_vs_synthetic_bps, 200);
    assert_eq!(offers[3].remaining_size_lots, 0);
    assert_eq!(offers[4].remaining_size_lots, 99);
    assert_eq!((b.asks[0].price_ticks, b.asks[0].size_lots), (970, 40));
}

#[test]
fn expired_and_foreign_offers_do_not_serve() {
    let mut a = liquidation();
    let mut b = MarketBook::new(key(100), 8);
    let mut expired = offer(0, 960, 20);
    expired.expires_at_slot = 20;
    let mut aimed = offer(0, 961, 20);
    aimed.target_trader = key(11);
    let mut elsewhere = offer(0, 962, 20);
    elsewhere.market = key(101);
    let mut offers = vec![expired, aimed, elsewhere, offer(0, 963, 0)];
    let r = liquidate_position_v2(&mut a, &mut b, &mut offers, 0, Ok(SICK), 7, &LIMITS, 20, 0).unwrap();
    assert!(r.jit.is_none());
    offers[1].target_trader = key(10);
    let r = liquidate_position_v2(&mut a, &mut b, &mut offers, 0, Ok(SICK), 7, &LIMITS, 20, 0).unwrap();
    assert_eq!(r.jit.unwrap().fill_price_ticks, 961);
}

#[test]
fn rewards_grow_over_the_auction_and_stop_at_the_bucket() {
    let mut p = params();
    p.liquidator_reward_bps = 100;
    assert_eq!(compute_auction_reward_bps(&p, 0, 20), 100);
    p.liquidation_auction_duration_slots = 10;
    assert_eq!(compute_auction_reward_bps(&p, 0, 20), 0);
    assert_eq!(compute_auction_reward_bps(&p, 15, 20), 50);
    assert_eq!(compute_auction_reward_bps(&p, 5, 20), 100);
    let mut a = liquidation();
    a.position.collateral_quote_lots = 300;
    let mut b = MarketBook::new(key(100), 8);
    let r = liquidate_position_v2(&mut a, &mut b, &mut vec![], 0, Ok(SICK), 7, &LIMITS, 20, 0).unwrap();
    assert_eq!(r.rewarded.unwrap().reward_quote_lots, 300);
    assert_eq!((a.position.collateral_quote_lots, a.trader_state.collateral_quote_lots), (0, 10_000));
    let mut own = liquidation();
    own.caller_trader_state = None;
    liquidate_position_v2(&mut own, &mut b, &mut vec![], 0, Ok(SICK), 7, &LIMITS, 20, 0).unwrap();
    assert_eq!(own.trader_state.collateral_quote_lots, 10_000);
}

#[test]
fn short_positions_are_bought_back_above_the_oracle() {
    let mut m = market();
    m.params.liq_penalty_bps = 500;
    assert_eq!(compute_liquidation_limit(&m, Side::Short), 1_050);
    assert_eq!(compute_liquidation_limit(&m, Side::Long), 950);
    m.params.liq_penalty_bps = 20_000;
    assert_eq!(compute_liquidation_limit(&m, Side::Long), 0);
}

#[test]
fn liquidations_are_refused_for_a_reason() {
    let run = |a: LiquidatePositionV2, requested: u64, answer, slot: u64, now: i64| {
        let mut a = a;
        let mut b = MarketBook::new(key(100), 8);
        liquidate_position_v2(&mut a, &mut b, &mut vec![], requested, answer, 7, &LIMITS, slot, now).err()
    };
    let a = liquidation();
    assert_eq!(run(a, 0, Ok(HEALTHY), 20, 0), Some(FlashBookError::NotLiquidatable));
    assert_eq!(run(a, 51, Ok(SICK), 20, 0), Some(FlashBookError::OutOfRange));
    assert_eq!(
        run(a, 0, Err(FlashBookError::DivisionByZero), 20, 0),
        Some(FlashBookError::DivisionByZero)
    );
    let mut flat = a;
    flat.position.size_lots = 0;
    assert_eq!(run(flat, 0, Ok(SICK), 20, 0), Some(FlashBookError::LiquidationStale));
    let mut cooling = a;
    cooling.market.params.liquidation_cooldown_slots = 10;
    cooling.position.last_liquidated_at_slot = 11;
    assert_eq!(run(cooling, 0, Ok(SICK), 20, 0), Some(FlashBookError::RateLimited));
    assert_eq!(run(cooling, 0, Ok(SICK), 21, 0), None);
    let mut stale = a;
    stale.market.params.oracle_staleness_max_seconds = 30;
    stale.market.oracle_published_at_unix_seconds = 100;
    assert_eq!(run(stale, 0, Ok(SICK), 20, 131), Some(FlashBookError::OracleTooStale));
    let mut foreign = a;
    foreign.position.trader = key(11);
    assert_eq!(run(foreign, 0, Ok(SICK), 20, 0), Some(FlashBookError::WrongTrader));
    let mut full = a;
    full.caller_trader_state = Some(trader(90, u64::MAX));
    assert_eq!(run(full, 0, Ok(SICK), 20, 0), Some(FlashBookError::ArithmeticOverflow));
}

#[test]
fn portfolio_liquidation_asks_about_every_open_position() {
    let ctx = LiquidatePortfolioV2 {
        execution_market_key: key(100),
        execution_market: market(),
        trader_state: trader(10, 500),
        execution_position: position(10, 1, 6, 900),
    };
    let es = vec![bound_entry(101, 3), bound_entry(102, 0), bound_entry(103, 4)];
    let q = portfolio_liquidation_question(&ctx, &es);
    let sizes: Vec<u64> = q.positions.iter().map(|p| p.size_lots).collect();
    assert_eq!(sizes, vec![6, 3, 4]);
    assert_eq!(q.markets.len(), 3);
    let mut b = MarketBook::new(key(100), 8);
    let e = liquidate_portfolio_v2(&ctx, &es, &mut b, Ok(SICK), 7, &LIMITS, 20).unwrap();
    assert_eq!((e.side, e.size_lots, e.limit_ticks), (1, 6, 1_000));
    assert_eq!(b.bids[0].order_type, 3);
    let mut foreign = es.clone();
    foreign[0].position.trader = key(11);
    assert_eq!(
        liquidate_portfolio_v2(&ctx, &foreign, &mut b, Ok(SICK), 7, &LIMITS, 20).err(),
        Some(FlashBookError::WrongTrader)
    );
    assert_eq!(
        liquidate_portfolio_v2(&ctx, &es, &mut b, Ok(HEALTHY), 7, &LIMITS, 20).err(),
        Some(FlashBookError::NotLiquidatable)
    );
}

fn deleveraging() -> AutoDeleverage {
    let mut m = market();
    m.oi_long_lots = 10;
    m.oi_short_lots = 10;
    let mut us = trader(10, 1_005);
    us.open_positions = 1;
    let mut cs = trader(11, 50);
    cs.open_positions = 1;
    AutoDeleverage {
        caller: key(90),
        market_key: key(100),
        market: m,
        insurance_fund: fund(5, 10),
        underwater_trader_state: us,
        underwater_position: position(10, 0, 10, 1_000),
        counter_trader_state: cs,
        counter_position: position(11, 1, 10, 1_200),
    }
}

#[test]
fn bankruptcy_price_uses_up_the_collateral() {
    assert_eq!(compute_bankruptcy_price(0, 1_000, 1_005, 10, 1), 900);
    assert_eq!(compute_bankruptcy_price(1, 1_000, 1_005, 10, 1), 1_100);
    assert_eq!(compute_bankruptcy_price(0, 50, 1_005, 10, 1), 1);
    assert_eq!(compute_bankruptcy_price(1, u64::MAX, 1_005, 10, 1), u64::MAX);
}

#[test]
fn deleveraging_closes_both_sides() {
    let mut a = deleveraging();
    let e = auto_deleverage(&mut a, 4, Ok(SICK)).unwrap();
    assert_eq!((e.bankruptcy_price_ticks, e.counter_gain_quote_lots), (900, 1_200));
    assert_eq!(a.underwater_trader_state.collateral_quote_lots, 603);
    assert_eq!(a.underwater_trader_state.realized_pnl_quote_lots, -402);
    assert_eq!(a.counter_trader_state.collateral_quote_lots, 1_250);
    assert_eq!((a.market.oi_long_lots, a.market.oi_short_lots), (6, 6));
    assert_eq!((a.underwater_position.size_lots, a.counter_position.size_lots), (6, 6));
    assert_eq!(a.market.total_liquidations, 1);
    let mut whole = deleveraging();
    whole.underwater_position.collateral_quote_lots = 100;
    auto_deleverage(&mut whole, 10, Ok(SICK)).unwrap();
    assert_eq!(whole.underwater_position.collateral_quote_lots, 0);
    assert_eq!(whole.underwater_trader_state.collateral_quote_lots, 1_005);
    assert_eq!(whole.underwater_position.entry_price_ticks, 0);
    assert_eq!((whole.underwater_trader_state.open_positions, whole.counter_trader_state.open_positions), (0, 0));
}

#[test]
fn deleveragings_are_refused_for_a_reason() {
    let run = |a: AutoDeleverage, close: u64, answer| {
        let mut a = a;
        auto_deleverage(&mut a, close, answer).err()
    };
    let a = deleveraging();
    assert_eq!(run(a, 0, Ok(SICK)), Some(FlashBookError::ZeroSize));
    assert_eq!(run(a, 11, Ok(SICK)), Some(FlashBookError::OutOfRange));
    assert_eq!(run(a, 4, Ok(HEALTHY)), Some(FlashBookError::NotLiquidatable));
    let mut funded = a;
    funded.insurance_fund.balance_quote_lots = 10;
    assert_eq!(run(funded, 4, Ok(SICK)), Some(FlashBookError::AdlNotEligible));
    let mut losing = a;
    losing.counter_position.entry_price_ticks = 900;
    assert_eq!(run(losing, 4, Ok(SICK)), Some(FlashBookError::AdlNotEligible));
    let mut own = a;
    own.counter_position.trader = key(10);
    own.counter_trader_state.trader = key(10);
    assert_eq!(run(own, 4, Ok(SICK)), Some(FlashBookError::OutOfRange));
    let mut same_side = a;
    same_side.counter_position.side = 0;
    assert_eq!(run(same_side, 4, Ok(SICK)), Some(FlashBookError::OutOfRange));
    let mut tickless = a;
    tickless.market.params.tick_size = 0;
    assert_eq!(run(tickless, 4, Ok(SICK)), Some(FlashBookError::ZeroPrice));
    let mut full = a;
    full.counter_trader_state.collateral_quote_lots = u64::MAX;
    assert_eq!(run(full, 4, Ok(SICK)), Some(FlashBookError::ArithmeticOverflow));
}

#[test]
fn offers_are_tested_and_withdrawn_by_their_maker() {
    let q = JitOfferRequest {
        nonce: 9,
        target_trader: key(0),
        side: 1,
        offer_price_ticks: 1_000,
        max_size_lots: 5,
        expires_at_slot: 30,
        maker_sub_index: 0,
    };
    let mut m = market();
    m.params.tick_size = 10;
    m.params.min_base_lots = 5;
    let place = |q: JitOfferRequest| place_jit_liquidation_offer(key(100), &m, key(40), 3, q, 20);
    let (o, e) = place(q).unwrap();
    assert_eq!((o.remaining_size_lots, o.created_at_slot, e.nonce), (5, 20, 9));
    assert_eq!(place(JitOfferRequest { side: 2, ..q }).err(), Some(FlashBookError::OutOfRange));
    assert_eq!(place(JitOfferRequest { offer_price_ticks: 0, ..q }).err(), Some(FlashBookError::ZeroPrice));
    assert_eq!(
        place(JitOfferRequest { offer_price_ticks: 1_005, ..q }).err(),
        Some(FlashBookError::PriceNotOnTick)
    );
    assert_eq!(place(JitOfferRequest { max_size_lots: 0, ..q }).err(), Some(FlashBookError::ZeroSize));
    assert_eq!(place(JitOfferRequest { max_size_lots: 4, ..q }).err(), Some(FlashBookError::SizeBelowMinLot));
    assert_eq!(place(JitOfferRequest { expires_at_slot: 20, ..q }).err(), Some(FlashBookError::OutOfRange));
    assert_eq!(cancel_jit_liquidation_offer(&o, key(40)).unwrap().unfilled_size_lots, 5);
    assert_eq!(cancel_jit_liquidation_offer(&o, key(41)).err(), Some(FlashBookError::Unauthorized));
}

fn margin_mode() -> SetPositionMarginMode {
    let mut s = trader(10, 1_000);
    s.open_positions = 2;
    SetPositionMarginMode {
        trader: key(10),
        trader_state: s,
        target_market_key: key(100),
        target_market: market(),
        target_position: position(10, 0, 5, 1_000),
    }
}

#[test]
fn isolating_and_pooling_undo_each_other() {
    let start = margin_mode();
    let mut a = start;
    let es = vec![bound_entry(101, 3)];
    let q = margin_mode_question(&a, &es, &binding(), 300).unwrap();
    assert_eq!((q.positions[1].collateral_quote_lots, q.markets[1].margin_bps), (300, 500));
    let e = set_position_isolated(&mut a, &es, &binding(), 300, Ok(HEALTHY)).unwrap();
    assert_eq!((e.mode, e.new_isolated_collateral_quote_lots, e.new_cross_collateral_quote_lots), (1, 300, 700));
    assert_eq!(
        set_position_isolated(&mut a, &es, &binding(), 300, Ok(HEALTHY)).err(),
        Some(FlashBookError::OutOfRange)
    );
    let e = set_position_cross(&mut a, &es, &binding(), Ok(HEALTHY)).unwrap();
    assert_eq!(e.mode, 0);
    assert_eq!(a, start);
    assert_eq!(
        set_position_cross(&mut a, &es, &binding(), Ok(HEALTHY)).err(),
        Some(FlashBookError::OutOfRange)
    );
}

#[test]
fn a_flat_target_is_not_assessed() {
    let mut a = margin_mode();
    let es = vec![bound_entry(101, 3)];
    assert_eq!(margin_mode_question(&a, &es, &binding(), 0).unwrap().positions.len(), 2);
    a.target_position.size_lots = 0;
    a.target_position.collateral_quote_lots = 40;
    let q = margin_mode_question(&a, &es, &binding(), 0).unwrap();
    assert_eq!((q.positions.len(), q.markets.len()), (1, 1));
    assert_eq!(q.positions[0].market, key(101));
    a.trader_state.open_positions = 0;
    let unasked = Err(FlashBookError::ArithmeticOverflow);
    let e = set_position_cross(&mut a, &vec![], &binding(), unasked).unwrap();
    assert_eq!(e.new_cross_collateral_quote_lots, 1_040);
}

#[test]
fn margin_modes_are_refused_for_a_reason() {
    let es = vec![bound_entry(101, 3)];
    let isolate = |a: SetPositionMarginMode, es: &Vec<PortfolioEntry>, amount: u64, answer| {
        let mut a = a;
        set_position_isolated(&mut a, es, &binding(), amount, answer).err()
    };
    let a = margin_mode();
    assert_eq!(isolate(a, &es, 0, Ok(HEALTHY)), Some(FlashBookError::ZeroSize));
    assert_eq!(isolate(a, &es, 1_001, Ok(HEALTHY)), Some(FlashBookError::InsufficientCollateral));
    assert_eq!(isolate(a, &es, 300, Ok(SICK)), Some(FlashBookError::InsufficientCollateral));
    assert_eq!(isolate(a, &vec![], 300, Ok(HEALTHY)), Some(FlashBookError::OutOfRange));
    let mut moved = es.clone();
    moved[0].position_key = key(9);
    assert_eq!(isolate(a, &moved, 300, Ok(HEALTHY)), Some(FlashBookError::WrongTrader));
    let mut unowned = es.clone();
    unowned[0].market_owned = false;
    assert_eq!(isolate(a, &unowned, 300, Ok(HEALTHY)), Some(FlashBookError::Unauthorized));
    let twice = vec![bound_entry(101, 3), bound_entry(101, 3)];
    let mut three = a;
    three.trader_state.open_positions = 3;
    assert_eq!(isolate(three, &twice, 300, Ok(HEALTHY)), Some(FlashBookError::OutOfRange));
}

#[test]
fn deposits_can_be_withdrawn_while_flat() {
    let start = trader(10, 100);
    let mut s = start;
    assert_eq!(deposit_collateral(&mut s, key(10), 50).unwrap().new_balance, 150);
    withdraw_collateral(&mut s, key(10), 50).unwrap();
    assert_eq!(s, start);
    assert_eq!(deposit_collateral(&mut s, key(10), 0).err(), Some(FlashBookError::ZeroSize));
    assert_eq!(deposit_collateral(&mut s, key(11), 5).err(), Some(FlashBookError::WrongTrader));
    assert_eq!(withdraw_collateral(&mut s, key(10), 101).err(), Some(FlashBookError::InsufficientCollateral));
    s.open_positions = 1;
    assert!(withdraw_collateral(&mut s, key(10), 5).is_err());
}

#[test]
fn partial_withdrawals_leave_the_floor() {
    let mut s = trader(10, 1_000);
    s.open_positions = 1;
    // The position is worth 3000: a tenth of that, 300, is less than the margin.
    let es = vec![bound_entry(101, 3)];
    let mut run = |amount: u64, es: &Vec<PortfolioEntry>| {
        partial_withdraw_collateral(&mut s, key(10), es, &binding(), amount, Ok(HEALTHY)).err()
    };
    assert_eq!(run(601, &es), Some(FlashBookError::InsufficientCollateral));
    assert_eq!(run(600, &es), None);
    let mut t = trader(10, 1_000);
    t.open_positions = 1;
    let heavy = vec![bound_entry(101, 9)];
    assert_eq!(
        partial_withdraw_collateral(&mut t, key(10), &heavy, &binding(), 101, Ok(HEALTHY)).err(),
        Some(FlashBookError::InsufficientCollateral)
    );
    assert!(partial_withdraw_collateral(&mut t, key(10), &heavy, &binding(), 100, Ok(HEALTHY)).is_ok());
    assert_eq!(
        partial_withdraw_collateral(&mut t, key(10), &vec![bound_entry(101, 0)], &binding(), 1, Ok(HEALTHY))
            .err(),
        Some(FlashBookError::ZeroSize)
    );
}

#[test]
fn sweeps_conserve_collateral() {
    let mut from = trader(10, 1_000);
    from.delegate = key(60);
    let mut to = trader(11, 5);
    to.delegate = key(60);
    let mut a = SweepCollateral {
        authority: key(60),
        from_key: key(500),
        from_state: from,
        to_key: key(501),
        to_state: to,
    };
    sweep_collateral(&mut a, &vec![], &binding(), 400, Ok(HEALTHY)).unwrap();
    assert_eq!((a.from_state.collateral_quote_lots, a.to_state.collateral_quote_lots), (600, 405));
    a.from_state.open_positions = 1;
    let es = vec![bound_entry(101, 3)];
    assert_eq!(
        sweep_collateral(&mut a, &es, &binding(), 1, Ok(SICK)).err(),
        Some(FlashBookError::TraderLiquidatable)
    );
    let mut same = a;
    same.to_key = key(500);
    assert_eq!(
        sweep_collateral(&mut same, &es, &binding(), 1, Ok(HEALTHY)).err(),
        Some(FlashBookError::OutOfRange)
    );
    let mut foreign = a;
    foreign.authority = key(61);
    assert_eq!(
        sweep_collateral(&mut foreign, &es, &binding(), 1, Ok(HEALTHY)).err(),
        Some(FlashBookError::Unauthorized)
    );
}

#[test]
fn sub_account_transfers_undo_each_other() {
    let mut sub = trader(10, 7);
    sub.sub_index = 2;
    let start = TransferBetweenSubAccounts { trader: key(10), main: trader(10, 100), sub_account: sub };
    let mut a = start;
    transfer_main_to_sub(&mut a, 2, 60).unwrap();
    assert_eq!((a.main.collateral_quote_lots, a.sub_account.collateral_quote_lots), (40, 67));
    transfer_sub_to_main(&mut a, 2, 60).unwrap();
    assert_eq!(a, start);
    assert_eq!(transfer_main_to_sub(&mut a, 0, 60).err(), Some(FlashBookError::OutOfRange));
    a.main.open_positions = 1;
    assert_eq!(
        transfer_main_to_sub(&mut a, 2, 60).err(),
        Some(FlashBookError::OpenInterestCapExceeded)
    );
}

#[test]
fn portfolio_view_reports_the_largest_position() {
    let mut s = trader(10, 1_000);
    s.open_positions = 2;
    let mut big = bound_entry(102, 9);
    big.market.mark_price_ticks = 1_010;
    let e = view_portfolio_risk(&s, &vec![bound_entry(101, 3), big], Ok(HEALTHY)).unwrap();
    assert_eq!((e.largest_position_market, e.largest_position_notional_quote_lots), (key(102), 9_090));
    assert_eq!(e.unrealized_pnl_quote_lots, 90);
    assert_eq!(e.health_ratio_bps, 25_000);
    let flat = view_portfolio_risk(&trader(10, 1_000), &vec![], Ok(SICK)).unwrap();
    assert_eq!((flat.equity_quote_lots, flat.required_margin_quote_lots, flat.health_ratio_bps), (1_000, 0, u32::MAX));
}
