use flash_book::baskets::{
    place_basket_order_v2, project_post_leg, BasketEntry, BasketLeg, BasketTrader,
};
use flash_book::baskets_n::place_basket_order_n_v2;
use flash_book::book::{order_type_byte_to_matcher, MarketBook, OrderType, RestingOrderV2};
use flash_book::constants::Limits;
use flash_book::errors::FlashBookError;
use flash_book::iceberg::{
    cancel_iceberg_v2, cancel_iceberg_v3, place_iceberg_order_v3, replenish_iceberg_v2,
    replenish_iceberg_v3, IcebergRequest,
};
use flash_book::keys::Pubkey;
use flash_book::orders::{
    cancel_all_v2, cancel_order_v2, modify_order_v2, place_limit_order_v2, place_taker_order_v2,
    view_book_depth_v2, OrderRequest,
};
use flash_book::risk::MarginAssessment;
use flash_book::state::{
    MarketAccount, MarketParams, PositionAccount, Side, TraderStateAccount, TriggerOrderAccount,
    TriggerTerms, TwapOrderAccount,
};
use flash_book::trader::open_trader_state;
use flash_book::trailing::update_trailing_stop;
use flash_book::triggers::{
    cancel_trigger_order, execute_trigger_order_v2, OcoPartner, TriggerCall,
};
use flash_book::triggers_v3::{
    cancel_trigger_order_v3, execute_trigger_order_v3, place_bracket_order_v3,
    place_trigger_order_v3, slippage_cap_breached, BracketAccounts, BracketRequest,
    TriggerFailure, TriggerRequest,
};
use flash_book::twap::{
    cancel_twap_order, cancel_twap_order_v3, execute_twap_slice_v2, execute_twap_slice_v3,
    place_twap_order_v3, SliceFailure, TwapRequest,
};

fn key(n: u128) -> Pubkey {
    Pubkey { hi: 0, lo: n }
}

fn params() -> MarketParams {
    MarketParams {
        tick_size: 1,
        base_lot_size: 1,
        quote_lot_size: 1,
        min_base_lots: 1,
        max_leverage: 10,
        initial_margin_ratio_bps: 1_000,
        maintenance_margin_ratio_bps: 500,
        concentration_threshold_lots: 0,
        concentration_extra_mmr_bps: 0,
        max_oi_base_lots: 0,
        max_position_lots_per_trader: 0,
        max_position_ratio_bps: 0,
        taker_fee_bps: 0,
        maker_rebate_bps: 0,
        jit_bonus_rebate_bps: 0,
        referrer_share_bps: 0,
        builder_share_bps: 0,
        creator_share_bps: 0,
        toxicity_tax_max_bps: 0,
        mark_ema_alpha_bps: 0,
        mark_max_change_bps: 0,
        mark_settle_min_slots: 0,
        drift_alert_bps: 0,
        oracle_band_bps: 0,
        oracle_staleness_max_seconds: 0,
        oracle_confidence_max_bps: 0,
        oracle_quorum_max_dispersion_bps: 0,
        liq_penalty_bps: 0,
        liquidator_reward_bps: 0,
        liquidation_cooldown_slots: 0,
        liquidation_auction_duration_slots: 0,
        funding_rate_k_bps: 0,
        funding_rate_max_bps_per_sec: 0,
        flp_max_growth_per_batch_bps: 0,
        flp_spread_base_bps: 0,
        flp_spread_alpha_bps: 0,
        flp_spread_beta_bps: 0,
        flp_spread_gamma_bps: 0,
        flp_spread_kappa_bps: 0,
        flp_spread_delta_bps: 0,
        flp_inventory_lambda_bps: 0,
        flp_depth_floor_lots: 0,
        flp_quote_levels: 0,
    }
}

fn market() -> MarketAccount {
    MarketAccount {
        authority: key(1),
        creator: key(0),
        sequencer: key(2),
        flp_pool: key(3),
        base_mint: key(4),
        quote_mint: key(5),
        base_vault: key(6),
        quote_vault: key(7),
        oracle_account: key(8),
        insurance_fund: key(9),
        bump: 254,
        status: 1,
        current_batch: 7,
        last_batch_ms: 0,
        oracle_price_ticks: 1_000,
        oracle_confidence: 0,
        oracle_published_at_unix_seconds: 0,
        mark_price_ticks: 1_000,
        cum_funding_index: 0,
        last_funding_rate_bps_per_sec: 0,
        vpin_bps: 0,
        oi_long_lots: 0,
        oi_short_lots: 0,
        recent_clearing_count: 0,
        total_fees_collected: 0,
        total_toxicity_tax_collected: 0,
        total_liquidations: 0,
        period_started_at_unix: 0,
        period_funding_paid_abs_bps: 0,
        last_mark_settle_slot: 0,
        params: params(),
    }
}

fn position(trader: u128, side: u8, size: u64, entry: u64) -> PositionAccount {
    PositionAccount {
        market: key(100),
        trader: key(trader),
        bump: 255,
        side,
        size_lots: size,
        entry_price_ticks: entry,
        cum_funding_index_at_entry: 0,
        realized_pnl_quote_lots: 0,
        funding_paid_quote_lots: 0,
        last_settlement_batch: 0,
        unhealthy_since_slot: 0,
        last_liquidated_at_slot: 0,
        collateral_quote_lots: 0,
        leverage_cap: 0,
    }
}

fn trader(id: u128, collateral: u64) -> TraderStateAccount {
    let mut s = open_trader_state(key(id), 253, 0);
    s.collateral_quote_lots = collateral;
    s
}

const LIMITS: Limits = Limits {
    flp_seq_reserved_offset: 1 << 48,
    max_orders_per_trader_per_batch: 8,
    max_basket_legs_n: 4,
    default_volume_window_slots: 1_000,
};

const HEALTHY: MarginAssessment = MarginAssessment {
    is_healthy: true,
    required_quote_lots: 0,
    equity_quote_lots_signed: 0,
    worst_scenario_idx: 0,
};

fn book() -> MarketBook {
    MarketBook::new(key(100), 8)
}

fn request(side: u8, size: u64, limit: u64, flags: u8) -> OrderRequest {
    OrderRequest {
        side,
        size_lots: size,
        limit_ticks: limit,
        flags,
        expires_at_slot: 0,
        sub_index: 0,
    }
}

fn rest(b: &mut MarketBook, trader: u128, side: u8, size: u64, limit: u64, id: u64) {
    place_limit_order_v2(key(100), &market(), b, key(trader), request(side, size, limit, 0), id, 10)
        .unwrap();
}

fn entry(market_id: u128, trader: u128, side: u8, size: u64) -> BasketEntry {
    let mut p = position(trader, 0, 0, 0);
    p.market = key(market_id);
    BasketEntry {
        market_key: key(market_id),
        market: market(),
        position: p,
        owned: true,
        leg: BasketLeg { side, size_lots: size, limit_ticks: 1_000, post_only: false },
    }
}

fn call(oracle: u64, side: u8, size: u64) -> TriggerCall {
    let mut m = market();
    m.oracle_price_ticks = oracle;
    TriggerCall {
        caller: key(90),
        market_key: key(100),
        market: m,
        trigger_key: key(50),
        position: position(10, side, size, 1_000),
    }
}

fn terms(side: u8, kind: u8, price: u64) -> TriggerTerms {
    TriggerTerms {
        market: key(100),
        trader: key(10),
        bump: 1,
        trigger_id: 3,
        side,
        kind,
        active: true,
        reduce_only: false,
        size_lots: 5,
        trigger_price_ticks: price,
        limit_price_ticks: 900,
        expires_at_slot: 0,
        oco_pair: key(0),
        sub_index: 2,
    }
}

fn trigger_request(side: u8, kind: u8, price: u64, acceptable: u64) -> TriggerRequest {
    TriggerRequest {
        trigger_id: 3,
        side,
        kind,
        size_lots: 5,
        trigger_price_ticks: price,
        limit_price_ticks: 900,
        reduce_only: false,
        expires_at_slot: 0,
        sub_index: 0,
        acceptable_price_ticks: acceptable,
    }
}

fn twap() -> TwapOrderAccount {
    TwapOrderAccount {
        trader: key(10),
        market: key(100),
        bump: 0,
        twap_id: 4,
        side: 0,
        active: true,
        slice_size_lots: 4,
        total_size_lots: 10,
        size_executed_lots: 0,
        limit_price_ticks: 1_000,
        slot_interval: 5,
        end_slot: 0,
        last_slice_at_slot: 0,
        sub_index: 1,
    }
}

#[test]
fn type_bytes_name_order_kinds() {
    assert_eq!(order_type_byte_to_matcher(0), OrderType::Limit);
    assert_eq!(order_type_byte_to_matcher(1), OrderType::Taker);
    assert_eq!(order_type_byte_to_matcher(2), OrderType::FlpVirtual);
    assert_eq!(order_type_byte_to_matcher(3), OrderType::Liquidation);
    assert_eq!(order_type_byte_to_matcher(4), OrderType::Adl);
    assert_eq!(order_type_byte_to_matcher(200), OrderType::Limit);
}

#[test]
fn resting_orders_stand_in_price_time_priority() {
    let mut b = book();
    rest(&mut b, 10, 0, 5, 990, 1);
    rest(&mut b, 11, 0, 5, 995, 2);
    rest(&mut b, 12, 0, 5, 990, 3);
    let ids: Vec<u64> = b.bids.iter().map(|o| o.order_id).collect();
    assert_eq!(ids, vec![2, 1, 3]);
    rest(&mut b, 10, 1, 5, 1_010, 4);
    rest(&mut b, 10, 1, 5, 1_005, 5);
    let ids: Vec<u64> = b.asks.iter().map(|o| o.order_id).collect();
    assert_eq!(ids, vec![5, 4]);
    assert_eq!(b.order_seq_counter, 5);
}

#[test]
fn limit_orders_are_refused_for_a_reason() {
    let place = |m: &MarketAccount, b: &mut MarketBook, q: OrderRequest| {
        place_limit_order_v2(key(100), m, b, key(10), q, 1, 10).err()
    };
    let mut m = market();
    m.params.min_base_lots = 2;
    m.params.tick_size = 5;
    m.params.max_oi_base_lots = 20;
    assert_eq!(place(&m, &mut book(), request(2, 5, 1_000, 0)), Some(FlashBookError::OutOfRange));
    assert_eq!(place(&m, &mut book(), request(0, 5, 1_000, 128)), Some(FlashBookError::OutOfRange));
    assert_eq!(place(&m, &mut book(), request(0, 1, 1_000, 0)), Some(FlashBookError::SizeBelowMinLot));
    assert_eq!(place(&m, &mut book(), request(0, 5, 1_001, 0)), Some(FlashBookError::PriceNotOnTick));
    assert_eq!(
        place(&m, &mut book(), request(0, 21, 1_000, 0)),
        Some(FlashBookError::OpenInterestCapExceeded)
    );
    let mut expired = request(0, 5, 1_000, 0);
    expired.expires_at_slot = 10;
    assert_eq!(place(&m, &mut book(), expired), Some(FlashBookError::OutOfRange));
    m.status = 3;
    assert_eq!(place(&m, &mut book(), request(0, 5, 1_000, 0)), Some(FlashBookError::OutOfRange));
    assert_eq!(
        place_limit_order_v2(key(101), &market(), &mut book(), key(10), request(0, 5, 1_000, 0), 1, 10)
            .err(),
        Some(FlashBookError::WrongMarket)
    );
    let mut full = MarketBook::new(key(100), 1);
    rest(&mut full, 10, 0, 5, 990, 1);
    assert_eq!(place(&market(), &mut full, request(0, 5, 1_000, 0)), Some(FlashBookError::BufferFull));
    let mut last = book();
    last.order_seq_counter = u64::MAX;
    assert_eq!(
        place(&market(), &mut last, request(0, 5, 1_000, 0)),
        Some(FlashBookError::ArithmeticOverflow)
    );
}

#[test]
fn takers_trade_best_price_first_and_rest_the_remainder() {
    let mut b = book();
    rest(&mut b, 11, 1, 3, 1_005, 1);
    rest(&mut b, 12, 1, 4, 1_000, 2);
    let r = place_taker_order_v2(key(100), &market(), &mut b, key(10), request(0, 9, 1_005, 0), 9, 10)
        .unwrap();
    let fills = r.batch.unwrap().fills;
    assert_eq!(fills.len(), 2);
    assert_eq!((fills[0].maker, fills[0].size_lots, fills[0].price_ticks), (key(12), 4, 1_000));
    assert_eq!((fills[1].maker, fills[1].size_lots, fills[1].price_ticks), (key(11), 3, 1_005));
    assert_eq!(r.cleared.filled_lots, 7);
    assert_eq!(r.cleared.residual_resting_lots, 2);
    assert!(b.asks.is_empty());
    assert_eq!((b.bids[0].size_lots, b.bids[0].price_ticks), (2, 1_005));
}

#[test]
fn takers_respect_their_limit_and_flags() {
    let mut b = book();
    rest(&mut b, 11, 1, 3, 1_005, 1);
    let ioc = place_taker_order_v2(
        key(100), &market(), &mut b, key(10), request(0, 9, 1_004, 4), 9, 10,
    )
    .unwrap();
    assert_eq!(ioc.cleared.filled_lots, 0);
    assert_eq!(ioc.cleared.residual_resting_lots, 0);
    assert!(ioc.batch.is_none());
    assert!(b.bids.is_empty());
    let take = |b: &mut MarketBook, trader: u128, flags: u8| {
        place_taker_order_v2(
            key(100), &market(), b, key(trader), request(0, 9, 1_005, flags), 9, 10,
        )
        .err()
    };
    assert_eq!(take(&mut b, 10, 1), Some(FlashBookError::PostOnlyWouldCross));
    assert_eq!(take(&mut b, 10, 64), Some(FlashBookError::FillOrKillNotFilled));
    assert_eq!(take(&mut b, 11, 32), Some(FlashBookError::SelfTrade));
    assert_eq!(b.asks.len(), 1);
    assert_eq!(take(&mut b, 11, 16 + 4), None);
    assert!(b.asks.is_empty());
    let mut m = market();
    m.status = 2;
    assert_eq!(
        place_taker_order_v2(key(100), &m, &mut b, key(10), request(0, 9, 1_005, 0), 9, 10).err(),
        Some(FlashBookError::OutOfRange)
    );
}

#[test]
fn damaged_books_are_recognised() {
    let damaged = |change: fn(&mut MarketBook)| {
        let mut b = book();
        rest(&mut b, 10, 0, 5, 990, 1);
        rest(&mut b, 11, 0, 5, 991, 2);
        rest(&mut b, 12, 0, 5, 990, 3);
        rest(&mut b, 10, 1, 5, 1_010, 4);
        change(&mut b);
        !b.is_well_formed()
    };
    assert!(!damaged(|_| {}));
    assert!(damaged(|b| b.bids.swap(0, 1)));
    assert!(damaged(|b| b.bids.swap(1, 2)));
    assert!(damaged(|b| b.bids[2].size_lots = 0));
    assert!(damaged(|b| b.asks[0].side = 0));
    assert!(damaged(|b| b.order_seq_counter = 3));
    assert!(damaged(|b| b.capacity = 3));
    assert!(damaged(|b| b.capacity = 0));
}

#[test]
fn cancelled_orders_leave_the_book() {
    let mut b = book();
    rest(&mut b, 10, 0, 5, 990, 1);
    rest(&mut b, 11, 0, 5, 991, 2);
    assert_eq!(
        cancel_order_v2(key(100), &mut b, key(10), 0, 2).err(),
        Some(FlashBookError::WrongTrader)
    );
    assert_eq!(
        cancel_order_v2(key(100), &mut b, key(10), 0, 7).err(),
        Some(FlashBookError::LiquidationStale)
    );
    let e = cancel_order_v2(key(100), &mut b, key(10), 0, 1).unwrap();
    assert_eq!((e.order_seq, e.total_orders_after), (1, 1));
    assert_eq!(b.bids.len(), 1);
}

#[test]
fn bulk_cancel_takes_all_of_one_trader() {
    let mut b = book();
    rest(&mut b, 10, 0, 5, 990, 1);
    rest(&mut b, 11, 0, 5, 991, 2);
    rest(&mut b, 10, 1, 5, 1_010, 3);
    let e = cancel_all_v2(key(100), &mut b, key(10)).unwrap();
    assert_eq!((e.cancelled_count, e.total_orders_after), (2, 1));
    assert_eq!(b.bids[0].trader, key(11));
}

#[test]
fn modified_orders_lose_their_place() {
    let mut b = book();
    rest(&mut b, 10, 0, 5, 990, 1);
    rest(&mut b, 11, 0, 5, 990, 2);
    let e = modify_order_v2(
        key(100), &market(), &mut b, key(10), 1, request(0, 6, 990, 0), 3, 10,
    )
    .unwrap();
    assert_eq!((e.old_seq, e.new_seq, e.new_size_lots), (1, 3, 6));
    assert_eq!(b.bids[0].trader, key(11));
    assert_eq!(b.bids[1].size_lots, 6);
}

#[test]
fn depth_view_shows_the_best_levels() {
    let mut b = book();
    for (i, price) in [990u64, 991, 992, 993, 994].iter().enumerate() {
        rest(&mut b, 10, 0, 5, *price, i as u64 + 1);
    }
    let v = view_book_depth_v2(key(100), &b).unwrap();
    assert_eq!(v.total_orders_active, 5);
    assert_eq!(v.bids.len(), 4);
    assert_eq!(v.bids[0].price_ticks, 994);
    assert!(v.asks.is_empty());
    assert_eq!(view_book_depth_v2(key(101), &b).err(), Some(FlashBookError::WrongMarket));
}

#[test]
fn triggers_fire_once_the_price_is_reached() {
    let mut t = TriggerOrderAccount {
        terms: terms(1, 0, 950),
        trailing_offset_bps: 0,
        trailing_anchor_ticks: 0,
    };
    let mut b = book();
    let early = execute_trigger_order_v2(&call(951, 0, 5), &mut t, &mut None, &mut b, 8, &LIMITS, 10, 0);
    assert_eq!(early.err(), Some(FlashBookError::OutOfRange));
    assert!(t.terms.active);
    let e = execute_trigger_order_v2(&call(950, 0, 5), &mut t, &mut None, &mut b, 8, &LIMITS, 10, 0)
        .unwrap();
    assert_eq!((e.order_seq, e.oracle_price_ticks), (1, 950));
    assert!(!t.terms.active);
    assert_eq!((b.asks[0].price_ticks, b.asks[0].size_lots, b.asks[0].sub_index), (900, 5, 2));
    let again = execute_trigger_order_v2(&call(950, 0, 5), &mut t, &mut None, &mut b, 8, &LIMITS, 10, 0);
    assert_eq!(again.err(), Some(FlashBookError::OutOfRange));
}

#[test]
fn triggers_are_refused_on_stale_prices_and_foreign_positions() {
    let fresh = TriggerOrderAccount {
        terms: terms(1, 0, 950),
        trailing_offset_bps: 0,
        trailing_anchor_ticks: 0,
    };
    let mut c = call(950, 0, 5);
    c.market.params.oracle_staleness_max_seconds = 30;
    c.market.oracle_published_at_unix_seconds = 100;
    let fire = |c: &TriggerCall, t: TriggerOrderAccount, now: i64| {
        let mut t = t;
        execute_trigger_order_v2(c, &mut t, &mut None, &mut book(), 8, &LIMITS, 10, now).err()
    };
    assert_eq!(fire(&c, fresh, 131), Some(FlashBookError::OracleTooStale));
    assert_eq!(fire(&c, fresh, 130), None);
    c.position.trader = key(11);
    assert_eq!(fire(&c, fresh, 130), Some(FlashBookError::WrongTrader));
    c.position.market = key(101);
    assert_eq!(fire(&c, fresh, 130), Some(FlashBookError::WrongMarket));
    let mut reduce = fresh;
    reduce.terms.reduce_only = true;
    assert_eq!(fire(&call(950, 1, 5), reduce, 0), Some(FlashBookError::OutOfRange));
    assert_eq!(fire(&call(950, 0, 4), reduce, 0), Some(FlashBookError::OutOfRange));
    assert_eq!(fire(&call(950, 0, 5), reduce, 0), None);
}

#[test]
fn linked_triggers_switch_each_other_off() {
    let mut t = TriggerOrderAccount {
        terms: terms(1, 0, 950),
        trailing_offset_bps: 0,
        trailing_anchor_ticks: 0,
    };
    t.terms.oco_pair = key(51);
    let mut b = book();
    let missing = execute_trigger_order_v2(&call(940, 0, 5), &mut t, &mut None, &mut b, 8, &LIMITS, 10, 0);
    assert_eq!(missing.err(), Some(FlashBookError::OcoPairMismatch));
    assert!(b.asks.is_empty());
    let mut partner = Some(OcoPartner { terms: terms(1, 1, 1_050), writable: true });
    partner.as_mut().unwrap().terms.oco_pair = key(50);
    execute_trigger_order_v2(&call(940, 0, 5), &mut t, &mut partner, &mut b, 8, &LIMITS, 10, 0).unwrap();
    assert!(!partner.unwrap().terms.active);
    assert_eq!(partner.unwrap().terms.oco_pair, key(50));
}

#[test]
fn cancelling_a_trigger_releases_its_partner() {
    let mut t = TriggerOrderAccount {
        terms: terms(1, 0, 950),
        trailing_offset_bps: 0,
        trailing_anchor_ticks: 0,
    };
    t.terms.oco_pair = key(51);
    assert_eq!(
        cancel_trigger_order(&t, key(50), key(11), &mut None).err(),
        Some(FlashBookError::WrongTrader)
    );
    assert!(cancel_trigger_order(&t, key(50), key(10), &mut None).is_ok());
    let mut partner = Some(OcoPartner { terms: terms(1, 1, 1_050), writable: true });
    assert_eq!(
        cancel_trigger_order(&t, key(50), key(10), &mut partner).err(),
        Some(FlashBookError::OcoPairMismatch)
    );
    partner.as_mut().unwrap().terms.oco_pair = key(50);
    assert!(cancel_trigger_order(&t, key(50), key(10), &mut partner).is_ok());
    assert!(!partner.unwrap().terms.active);
    assert!(partner.unwrap().terms.oco_pair.is_default());
}

#[test]
fn trailing_stop_follows_the_price_one_way() {
    let mut t = TriggerOrderAccount {
        terms: terms(1, 0, 1),
        trailing_offset_bps: 500,
        trailing_anchor_ticks: 0,
    };
    let mut m = market();
    m.params.tick_size = 10;
    m.oracle_price_ticks = 1_003;
    let e = update_trailing_stop(key(100), &m, &mut t).unwrap().unwrap();
    // 1003 - 50 = 953, rounded up to a tick.
    assert_eq!(e.new_trigger_price_ticks, 960);
    m.oracle_price_ticks = 900;
    assert!(update_trailing_stop(key(100), &m, &mut t).unwrap().is_none());
    assert_eq!(t.terms.trigger_price_ticks, 960);
    m.oracle_price_ticks = 1_100;
    update_trailing_stop(key(100), &m, &mut t).unwrap().unwrap();
    assert_eq!((t.terms.trigger_price_ticks, t.trailing_anchor_ticks), (1_050, 1_100));
    t.terms.kind = 1;
    m.oracle_price_ticks = 1_001;
    update_trailing_stop(key(100), &m, &mut t).unwrap().unwrap();
    // 1001 + 50 = 1051, rounded down to a tick.
    assert_eq!(t.terms.trigger_price_ticks, 1_050);
    m.oracle_price_ticks = 0;
    assert_eq!(update_trailing_stop(key(100), &m, &mut t).err(), Some(FlashBookError::ZeroPrice));
    t.terms.active = false;
    assert_eq!(update_trailing_stop(key(100), &m, &mut t).err(), Some(FlashBookError::OutOfRange));
}

#[test]
fn placed_triggers_are_tested() {
    let place = |q: TriggerRequest| {
        let mut m = market();
        m.params.tick_size = 10;
        m.params.min_base_lots = 5;
        place_trigger_order_v3(key(100), &m, key(10), 1, q, 10)
    };
    let (t, e) = place(trigger_request(0, 1, 950, 960)).unwrap();
    assert!(t.terms.active);
    assert_eq!((t.acceptable_price_ticks, t.created_at_slot, e.trigger_id), (960, 10, 3));
    assert_eq!(place(trigger_request(0, 2, 950, 0)).err(), Some(FlashBookError::OutOfRange));
    assert_eq!(place(trigger_request(0, 1, 0, 0)).err(), Some(FlashBookError::ZeroPrice));
    assert_eq!(place(trigger_request(0, 1, 955, 0)).err(), Some(FlashBookError::PriceNotOnTick));
    assert_eq!(place(trigger_request(0, 1, 950, 955)).err(), Some(FlashBookError::PriceNotOnTick));
    assert_eq!(place(trigger_request(0, 1, 950, 940)).err(), Some(FlashBookError::OutOfRange));
    assert_eq!(place(trigger_request(1, 1, 950, 960)).err(), Some(FlashBookError::OutOfRange));
    let mut small = trigger_request(0, 1, 950, 0);
    small.size_lots = 4;
    assert_eq!(place(small).err(), Some(FlashBookError::SizeBelowMinLot));
    small.size_lots = 0;
    assert_eq!(place(small).err(), Some(FlashBookError::ZeroSize));
}

#[test]
fn a_breached_bound_switches_the_trigger_off() {
    assert!(!slippage_cap_breached(0, 0, 5_000));
    assert!(slippage_cap_breached(960, 0, 961));
    assert!(!slippage_cap_breached(960, 0, 960));
    assert!(slippage_cap_breached(960, 1, 959));
    let (mut t, _) =
        place_trigger_order_v3(key(100), &market(), key(10), 1, trigger_request(0, 1, 950, 960), 10)
            .unwrap();
    let mut b = book();
    let r = execute_trigger_order_v3(&call(970, 1, 5), &mut t, &mut None, &mut b, 8, &LIMITS, 10, 0);
    let failure = r.err().unwrap();
    assert_eq!(failure.error(), FlashBookError::TriggerSlippageExceeded);
    assert!(matches!(failure, TriggerFailure::SlippageCancelled(e) if e.acceptable_price_ticks == 960));
    assert!(!t.terms.active);
    assert!(b.bids.is_empty());
    t.terms.active = true;
    let e = execute_trigger_order_v3(&call(955, 1, 5), &mut t, &mut None, &mut b, 8, &LIMITS, 10, 0)
        .unwrap();
    assert_eq!(e.executor, key(90));
    assert_eq!(b.bids.len(), 1);
    assert!(cancel_trigger_order_v3(&t, key(50), key(10), &mut None).is_ok());
}

fn bracket() -> (BracketAccounts, BracketRequest) {
    (
        BracketAccounts {
            trader: key(10),
            market_key: key(100),
            market: market(),
            tp_trigger_key: key(50),
            tp_bump: 1,
            sl_trigger_key: key(51),
            sl_bump: 2,
        },
        BracketRequest {
            parent_side: 0,
            size_lots: 5,
            parent_limit_ticks: 1_000,
            tp_trigger_id: 1,
            tp_trigger_price_ticks: 1_100,
            tp_limit_ticks: 1_090,
            sl_trigger_id: 2,
            sl_trigger_price_ticks: 950,
            sl_limit_ticks: 940,
            expires_at_slot: 0,
            sub_index: 0,
        },
    )
}

#[test]
fn bracket_exits_close_the_position_once() {
    let (a, q) = bracket();
    let mut b = book();
    let r = place_bracket_order_v3(&a, &mut b, q, 7, &LIMITS, 10).unwrap();
    assert_eq!((b.bids[0].price_ticks, b.bids[0].size_lots), (1_000, 5));
    assert_eq!((r.tp_trigger.terms.side, r.tp_trigger.terms.kind), (1, 1));
    assert_eq!((r.sl_trigger.terms.side, r.sl_trigger.terms.kind), (1, 0));
    assert!(r.tp_trigger.terms.reduce_only && r.sl_trigger.terms.reduce_only);
    let mut tp = r.tp_trigger;
    let mut partner = Some(OcoPartner { terms: r.sl_trigger.terms, writable: true });
    execute_trigger_order_v3(&call(1_100, 0, 5), &mut tp, &mut partner, &mut b, 8, &LIMITS, 10, 0)
        .unwrap();
    assert!(!tp.terms.active);
    assert!(!partner.unwrap().terms.active);
}

#[test]
fn brackets_are_refused_for_a_reason() {
    let (a, q) = bracket();
    let place = |q: BracketRequest| place_bracket_order_v3(&a, &mut book(), q, 7, &LIMITS, 10).err();
    let mut same = q;
    same.sl_trigger_id = 1;
    assert_eq!(place(same), Some(FlashBookError::OutOfRange));
    let mut inverted = q;
    inverted.sl_trigger_price_ticks = 1_010;
    assert_eq!(place(inverted), Some(FlashBookError::OutOfRange));
    let mut free = q;
    free.tp_limit_ticks = 0;
    assert_eq!(place(free), Some(FlashBookError::ZeroPrice));
    let mut empty = q;
    empty.size_lots = 0;
    assert_eq!(place(empty), Some(FlashBookError::ZeroSize));
    let mut short = q;
    short.parent_side = 1;
    short.tp_trigger_price_ticks = 900;
    short.sl_trigger_price_ticks = 1_050;
    assert_eq!(place(short), None);
    let spent = Limits { flp_seq_reserved_offset: 1, ..LIMITS };
    assert_eq!(
        place_bracket_order_v3(&a, &mut book(), q, 7, &spent, 10).err(),
        Some(FlashBookError::OutOfRange)
    );
}

#[test]
fn slices_keep_to_their_schedule() {
    let mut t = twap();
    let mut b = book();
    let m = market();
    let slice = |t: &mut TwapOrderAccount, b: &mut MarketBook, slot: u64| {
        execute_twap_slice_v2(key(100), &m, key(90), t, b, slot, &LIMITS, slot)
    };
    assert_eq!(slice(&mut t, &mut b, 10).unwrap().slice_size_lots, 4);
    assert_eq!(slice(&mut t, &mut b, 14).err(), Some(FlashBookError::OutOfRange));
    assert_eq!(slice(&mut t, &mut b, 15).unwrap().cumulative_executed_lots, 8);
    let cancelled = cancel_twap_order(&t, key(10)).unwrap();
    assert_eq!(cancelled.unfilled_lots, 2);
    assert_eq!(slice(&mut t, &mut b, 20).unwrap().slice_size_lots, 2);
    assert!(!t.active);
    assert_eq!(slice(&mut t, &mut b, 25).err(), Some(FlashBookError::OutOfRange));
    assert_eq!(b.bids.len(), 3);
    assert_eq!(cancel_twap_order(&t, key(11)).err(), Some(FlashBookError::WrongTrader));
    let mut over = twap();
    over.size_executed_lots = 11;
    assert_eq!(slice(&mut over, &mut b, 10).err(), Some(FlashBookError::ArithmeticOverflow));
    let mut thick = market();
    thick.params.min_base_lots = 5;
    assert_eq!(
        execute_twap_slice_v2(key(100), &thick, key(90), &mut twap(), &mut b, 1, &LIMITS, 10).err(),
        Some(FlashBookError::SizeBelowMinLot)
    );
}

#[test]
fn slices_wait_while_the_price_is_out_of_bounds() {
    let q = TwapRequest {
        twap_id: 4,
        side: 0,
        slice_size_lots: 4,
        total_size_lots: 10,
        limit_price_ticks: 1_000,
        slot_interval: 5,
        end_slot: 0,
        sub_index: 0,
        acceptable_price_ticks: 1_010,
    };
    let mut m = market();
    let (mut t, _) = place_twap_order_v3(key(100), &m, key(10), 1, q, 3).unwrap();
    assert_eq!((t.start_slot, t.twap.last_slice_at_slot), (3, 0));
    let mut b = book();
    m.oracle_price_ticks = 1_011;
    let failure =
        execute_twap_slice_v3(key(100), &m, key(90), &mut t, &mut b, 1, &LIMITS, 10, 0).err().unwrap();
    assert_eq!(failure.error(), FlashBookError::TriggerSlippageExceeded);
    assert!(matches!(failure, SliceFailure::SlippageSkipped(_)));
    assert!(t.twap.active);
    m.oracle_price_ticks = 1_010;
    let e = execute_twap_slice_v3(key(100), &m, key(90), &mut t, &mut b, 1, &LIMITS, 10, 0).unwrap();
    assert_eq!(e.cumulative_executed_lots, 4);
    assert_eq!(cancel_twap_order_v3(&t, key(10)).unwrap().unfilled_lots, 6);
    let mut bad = q;
    bad.acceptable_price_ticks = 990;
    assert_eq!(
        place_twap_order_v3(key(100), &m, key(10), 1, bad, 3).err(),
        Some(FlashBookError::OutOfRange)
    );
    bad = q;
    bad.total_size_lots = 3;
    assert_eq!(
        place_twap_order_v3(key(100), &m, key(10), 1, bad, 3).err(),
        Some(FlashBookError::OutOfRange)
    );
}

fn iceberg_request(total: u64, displayed: u64) -> IcebergRequest {
    IcebergRequest {
        iceberg_id: 6,
        side: 1,
        total_size_lots: total,
        displayed_size_lots: displayed,
        limit_ticks: 1_000,
        expires_at_slot: 0,
        sub_index: 0,
    }
}

#[test]
fn icebergs_show_one_part_at_a_time() {
    let mut b = book();
    let (mut i, e) = place_iceberg_order_v3(
        key(100), &market(), key(10), 1, &mut b, iceberg_request(10, 4), 21, &LIMITS, 10,
    )
    .unwrap();
    assert_eq!((e.first_chunk_size_lots, i.remaining_lots, i.child_order_seq), (4, 6, 1));
    let waiting =
        replenish_iceberg_v2(key(100), key(90), &mut i, &mut b, 21, 22, &LIMITS, 11).unwrap();
    assert!(waiting.is_none());
    cancel_order_v2(key(100), &mut b, key(10), 1, 21).unwrap();
    let shown =
        replenish_iceberg_v2(key(100), key(90), &mut i, &mut b, 21, 22, &LIMITS, 11).unwrap().unwrap();
    assert_eq!((shown.chunk_size_lots, shown.remaining_lots, shown.new_child_seq), (4, 2, 2));
    let last = replenish_iceberg_v3(key(100), key(90), &mut i, &mut b, 23, &LIMITS, 12).unwrap();
    assert_eq!((last.chunk_size_lots, last.remaining_lots), (2, 0));
    assert!(!i.active);
    assert_eq!(
        replenish_iceberg_v3(key(100), key(90), &mut i, &mut b, 24, &LIMITS, 13).err(),
        Some(FlashBookError::OutOfRange)
    );
    let c = cancel_iceberg_v2(&i, key(10), &mut b, 23).unwrap();
    assert_eq!(c.unfilled_lots, 4);
    assert_eq!(b.asks.len(), 1);
    assert_eq!(cancel_iceberg_v3(&i, key(10)).unwrap().unfilled_lots, 4);
    assert_eq!(cancel_iceberg_v3(&i, key(11)).err(), Some(FlashBookError::WrongTrader));
    assert_eq!(
        place_iceberg_order_v3(
            key(100), &market(), key(10), 1, &mut b, iceberg_request(3, 4), 25, &LIMITS, 10,
        )
        .err(),
        Some(FlashBookError::OutOfRange)
    );
}

#[test]
fn legs_project_onto_positions() {
    let mut e = entry(100, 10, 0, 5);
    let fresh = project_post_leg(&e, key(10)).unwrap().unwrap();
    assert_eq!((fresh.side, fresh.size_lots, fresh.entry_price_ticks), (Side::Long, 5, 1_000));
    e.position = position(10, 1, 3, 900);
    let turned = project_post_leg(&e, key(10)).unwrap().unwrap();
    assert_eq!((turned.side, turned.size_lots, turned.entry_price_ticks), (Side::Long, 2, 900));
    e.position = position(10, 1, 8, 900);
    let reduced = project_post_leg(&e, key(10)).unwrap().unwrap();
    assert_eq!((reduced.side, reduced.size_lots), (Side::Short, 3));
    e.position = position(10, 1, 5, 900);
    assert_eq!(project_post_leg(&e, key(10)), Ok(None));
    assert_eq!(project_post_leg(&e, key(11)), Err(FlashBookError::WrongTrader));
}

#[test]
fn two_legs_are_placed_together_or_not_at_all() {
    let start = BasketTrader { trader: key(10), trader_state: trader(10, 500), flp_capital: 0 };
    let mut c = start;
    let mut a_book = book();
    let mut b_book = MarketBook::new(key(101), 8);
    let e = place_basket_order_v2(
        &mut c, entry(100, 10, 0, 5), entry(101, 10, 1, 6), &mut a_book, &mut b_book, Ok(HEALTHY), 1,
        2, &LIMITS, 10,
    )
    .unwrap();
    assert_eq!((e.seq_a, e.seq_b, c.trader_state.orders_this_batch), (1, 1, 2));
    assert_eq!((a_book.bids.len(), b_book.asks.len()), (1, 1));
    let mut place = |c: BasketTrader, b: BasketEntry, assessment| {
        let mut c = c;
        place_basket_order_v2(
            &mut c, entry(100, 10, 0, 5), b, &mut a_book, &mut b_book, assessment, 1, 2, &LIMITS, 10,
        )
        .err()
    };
    let sick = MarginAssessment { is_healthy: false, ..HEALTHY };
    assert_eq!(place(c, entry(101, 10, 1, 6), Ok(sick)), Some(FlashBookError::TraderLiquidatable));
    assert_eq!(place(c, entry(100, 10, 1, 6), Ok(HEALTHY)), Some(FlashBookError::OutOfRange));
    let mut busy = c;
    busy.trader_state.orders_this_batch = 7;
    assert_eq!(place(busy, entry(101, 10, 1, 6), Ok(HEALTHY)), Some(FlashBookError::RateLimited));
    let mut capped = entry(101, 10, 1, 6);
    capped.market.params.max_position_lots_per_trader = 5;
    assert_eq!(place(c, capped, Ok(HEALTHY)), Some(FlashBookError::PositionSizeCapExceeded));
    let mut ratio = entry(101, 10, 1, 6);
    ratio.market.params.max_position_ratio_bps = 5_000;
    let mut rich = c;
    // Half of 11998 is 5999; the leg is worth 6000.
    rich.flp_capital = 11_998;
    assert_eq!(place(rich, ratio, Ok(HEALTHY)), Some(FlashBookError::PositionSizeCapExceeded));
    let mut foreign = c;
    foreign.trader = key(11);
    assert_eq!(place(foreign, entry(101, 10, 1, 6), Ok(HEALTHY)), Some(FlashBookError::WrongTrader));
    assert_eq!(place(c, entry(102, 10, 1, 6), Ok(HEALTHY)), Some(FlashBookError::WrongMarket));
    assert_eq!((a_book.bids.len(), b_book.asks.len()), (1, 1));
}

#[test]
fn many_legs_are_placed_together_or_not_at_all() {
    let mut c = BasketTrader { trader: key(10), trader_state: trader(10, 500), flp_capital: 0 };
    let es = vec![entry(100, 10, 0, 5), entry(101, 10, 1, 6), entry(102, 10, 0, 7)];
    let mut books = vec![book(), MarketBook::new(key(101), 8), MarketBook::new(key(102), 8)];
    let e = place_basket_order_n_v2(&mut c, &es, &mut books, &vec![1, 2, 3], Ok(HEALTHY), &LIMITS, 10)
        .unwrap();
    assert_eq!(e.leg_count, 3);
    assert_eq!(e.markets, vec![key(100), key(101), key(102)]);
    assert_eq!(c.trader_state.orders_this_batch, 3);
    let resting: Vec<&RestingOrderV2> =
        books.iter().flat_map(|b| b.bids.iter().chain(b.asks.iter())).collect();
    assert_eq!(resting.len(), 3);
    assert_eq!(resting[2].size_lots, 7);
    let mut twice = es.clone();
    twice[2].market_key = key(100);
    assert_eq!(
        place_basket_order_n_v2(&mut c, &twice, &mut books, &vec![1, 2, 3], Ok(HEALTHY), &LIMITS, 10)
            .err(),
        Some(FlashBookError::OutOfRange)
    );
    let mut foreign = es.clone();
    foreign[1].owned = false;
    assert_eq!(
        place_basket_order_n_v2(&mut c, &foreign, &mut books, &vec![1, 2, 3], Ok(HEALTHY), &LIMITS, 10)
            .err(),
        Some(FlashBookError::Unauthorized)
    );
    assert_eq!(
        place_basket_order_n_v2(&mut c, &vec![], &mut vec![], &vec![], Ok(HEALTHY), &LIMITS, 10).err(),
        Some(FlashBookError::ZeroSize)
    );
    assert_eq!(books[0].bids.len(), 1);
}
