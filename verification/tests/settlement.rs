use flash_book::errors::{FlashBookError, HaircutError};
use flash_book::fees::{
    compute_fill_fees, compute_insurance_contribution, compute_rebate_paid, compute_toxicity_tax,
    split_tax,
};
use flash_book::flp::{
    apply_fill_to_flp_market, deposit_flp_capital, flp_market_pre_state, initialize_flp_exposure,
    withdraw_flp_capital, MarketMark,
};
use flash_book::flp_settlement::{settle_flp_fill, ApplyFlpFill};
use flash_book::flp_v3::{
    flp_deposit_v3, flp_withdraw_v3, init_flp_per_market_v3, record_flp_fill_v3, FlpHolding,
};
use flash_book::funding::{settle_funding, view_predicted_funding, SettleFunding};
use flash_book::insurance::initialize_insurance_fund;
use flash_book::keys::Pubkey;
use flash_book::mark::{settle_mark, update_mark_from_fill};
use flash_book::pda::key_to_bytes;
use flash_book::position::{apply_fill_to_position, update_oi};
use flash_book::settlement::{apply_fill, settle_fill, ApplyFill, Fill, FillParty};
use flash_book::state::{
    FlpExposureAccount, FlpPositionAccountV3, InsuranceFundAccount, MarketAccount,
    MarketHaircutStateAccount, MarketParams, PositionAccount, PositionHaircutSnapshot,
    PositionHaircutStateAccount, Side, TraderStateAccount,
};
use flash_book::trader::open_trader_state;

fn key(n: u128) -> Pubkey {
    Pubkey { hi: 0, lo: n }
}

fn params() -> MarketParams {
    MarketParams {
        tick_size: 1,
        base_lot_size: 1,
        quote_lot_size: 1,
        min_base_lots: 1,
        max_leverage: 10,
        initial_margin_ratio_bps: 1_000,
        maintenance_margin_ratio_bps: 500,
        concentration_threshold_lots: 0,
        concentration_extra_mmr_bps: 0,
        max_oi_base_lots: 0,
        max_position_lots_per_trader: 0,
        max_position_ratio_bps: 0,
        taker_fee_bps: 0,
        maker_rebate_bps: 0,
        jit_bonus_rebate_bps: 0,
        referrer_share_bps: 0,
        builder_share_bps: 0,
        creator_share_bps: 0,
        toxicity_tax_max_bps: 0,
        mark_ema_alpha_bps: 0,
        mark_max_change_bps: 0,
        mark_settle_min_slots: 0,
        drift_alert_bps: 0,
        oracle_band_bps: 0,
        oracle_staleness_max_seconds: 0,
        oracle_confidence_max_bps: 0,
        oracle_quorum_max_dispersion_bps: 0,
        liq_penalty_bps: 0,
        liquidator_reward_bps: 0,
        liquidation_cooldown_slots: 0,
        liquidation_auction_duration_slots: 0,
        funding_rate_k_bps: 0,
        funding_rate_max_bps_per_sec: 0,
        flp_max_growth_per_batch_bps: 0,
        flp_spread_base_bps: 0,
        flp_spread_alpha_bps: 0,
        flp_spread_beta_bps: 0,
        flp_spread_gamma_bps: 0,
        flp_spread_kappa_bps: 0,
        flp_spread_delta_bps: 0,
        flp_inventory_lambda_bps: 0,
        flp_depth_floor_lots: 0,
        flp_quote_levels: 0,
    }
}

fn market() -> MarketAccount {
    MarketAccount {
        authority: key(1),
        creator: key(0),
        sequencer: key(2),
        flp_pool: key(3),
        base_mint: key(4),
        quote_mint: key(5),
        base_vault: key(6),
        quote_vault: key(7),
        oracle_account: key(8),
        insurance_fund: key(9),
        bump: 254,
        status: 1,
        current_batch: 7,
        last_batch_ms: 0,
        oracle_price_ticks: 1_000,
        oracle_confidence: 0,
        oracle_published_at_unix_seconds: 0,
        mark_price_ticks: 1_000,
        cum_funding_index: 0,
        last_funding_rate_bps_per_sec: 0,
        vpin_bps: 0,
        oi_long_lots: 0,
        oi_short_lots: 0,
        recent_clearing_count: 0,
        total_fees_collected: 0,
        total_toxicity_tax_collected: 0,
        total_liquidations: 0,
        period_started_at_unix: 0,
        period_funding_paid_abs_bps: 0,
        last_mark_settle_slot: 0,
        params: params(),
    }
}

fn position(trader: u128, side: u8, size: u64, entry: u64) -> PositionAccount {
    PositionAccount {
        market: key(100),
        trader: key(trader),
        bump: 255,
        side,
        size_lots: size,
        entry_price_ticks: entry,
        cum_funding_index_at_entry: 0,
        realized_pnl_quote_lots: 0,
        funding_paid_quote_lots: 0,
        last_settlement_batch: 0,
        unhealthy_since_slot: 0,
        last_liquidated_at_slot: 0,
        collateral_quote_lots: 0,
        leverage_cap: 0,
    }
}

fn trader(id: u128, collateral: u64) -> TraderStateAccount {
    let mut s = open_trader_state(key(id), 253, 0);
    s.collateral_quote_lots = collateral;
    s
}

fn fund(balance: u64, threshold: u64) -> InsuranceFundAccount {
    let mut f = initialize_insurance_fund(key(1), 252, key(5), key(7), 1_000, 5_000, 0, threshold);
    f.balance_quote_lots = balance;
    f
}

const NO_RELEASE: Result<PositionHaircutSnapshot, HaircutError> = Err(HaircutError::ZeroGain);

fn party(id: u128, collateral: u64) -> FillParty {
    FillParty {
        state_key: key(id + 1_000),
        state: trader(id, collateral),
        position_key: key(id + 2_000),
        position_bump: 250,
        position: position(id, 0, 0, 0),
        haircut: None,
    }
}

fn fill_accounts() -> ApplyFill {
    let mut m = market();
    m.params.taker_fee_bps = 10;
    m.params.maker_rebate_bps = 2;
    ApplyFill {
        sequencer: key(2),
        market_key: key(100),
        market: m,
        insurance_fund: fund(0, 0),
        taker: party(10, 1_000_000),
        maker: party(11, 1_000_000),
        market_haircut: None,
    }
}

fn fill(size: u64, price: u64, taker_side: u8) -> Fill {
    Fill { size_lots: size, price_ticks: price, taker_side, taker_was_jit: false }
}

fn haircut_state(residual: u128) -> MarketHaircutStateAccount {
    MarketHaircutStateAccount {
        market: key(100),
        bump: 0,
        residual_quote_lots: residual,
        matured_pos_total_quote_lots: 0,
        realized_loss_total_quote_lots: 0,
        dust_accrued_quote_lots: 0,
        h_min_slots: 10,
        h_max_slots: 100,
        h_scaled_cached: 0,
        h_cached_at_slot: 0,
    }
}

#[test]
fn fees_balance() {
    let f = compute_fill_fees(1_000_000, 10, 0, 2);
    assert_eq!((f.taker_fee, f.maker_rebate, f.maker_fee, f.net_fee), (1_000, 200, 0, 800));
    let discounted = compute_fill_fees(1_000_000, 10, 2_500, 20);
    assert_eq!((discounted.taker_fee, discounted.maker_rebate, discounted.net_fee), (750, 750, 0));
    let paid = compute_fill_fees(1_000_000, 10, 11_000, -3);
    assert_eq!((paid.taker_fee, paid.taker_rebate, paid.maker_fee, paid.net_fee), (0, 100, 300, 300));
    assert_eq!(compute_insurance_contribution(800, 1_000, 0), 80);
    assert_eq!(compute_insurance_contribution(800, 1_000, 100), 0);
}

#[test]
fn a_taker_rebate_is_paid_out_of_the_contribution() {
    let money = |a: &ApplyFill| {
        a.taker.state.collateral_quote_lots
            + a.maker.state.collateral_quote_lots
            + a.insurance_fund.balance_quote_lots
    };
    // Without a net fee there is no contribution, and so no rebate.
    let mut a = fill_accounts();
    a.taker.state.fee_discount_bps = 12_000;
    let before = money(&a);
    settle_fill(&mut a, fill(100, 10_000, 0), &vec![], 5, 1_000, NO_RELEASE, NO_RELEASE).unwrap();
    assert_eq!(a.taker.state.collateral_quote_lots, 1_000_000);
    assert_eq!(a.maker.state.collateral_quote_lots, 1_000_000);
    assert_eq!(a.insurance_fund.balance_quote_lots, 0);
    assert_eq!(a.market.total_fees_collected, 0);
    assert_eq!(money(&a), before);
    // A maker fee of 300 contributes 30 at 10 percent: all of it goes to the taker.
    let mut a = fill_accounts();
    a.taker.state.fee_discount_bps = 11_000;
    a.market.params.maker_rebate_bps = -3;
    let before = money(&a);
    settle_fill(&mut a, fill(100, 10_000, 0), &vec![], 5, 1_000, NO_RELEASE, NO_RELEASE).unwrap();
    assert_eq!(a.taker.state.collateral_quote_lots, 1_000_030);
    assert_eq!(a.maker.state.collateral_quote_lots, 999_700);
    assert_eq!(a.insurance_fund.balance_quote_lots, 0);
    assert_eq!(money(&a), before - 270);
    // At 90 percent the contribution is 270: the rebate of 100 is paid in full.
    let mut a = fill_accounts();
    a.taker.state.fee_discount_bps = 11_000;
    a.market.params.maker_rebate_bps = -3;
    a.insurance_fund.fee_contribution_bps = 9_000;
    settle_fill(&mut a, fill(100, 10_000, 0), &vec![], 5, 1_000, NO_RELEASE, NO_RELEASE).unwrap();
    assert_eq!(a.taker.state.collateral_quote_lots, 1_000_100);
    assert_eq!(a.maker.state.collateral_quote_lots, 999_700);
    assert_eq!(a.insurance_fund.balance_quote_lots, 170);
    assert_eq!(compute_rebate_paid(300, 1_000, 100), 30);
    assert_eq!(compute_rebate_paid(300, 9_000, 100), 100);
}

#[test]
fn toxicity_tax_is_bounded_and_split_in_full() {
    assert_eq!(compute_toxicity_tax(1_000_000, 100, 5_000, 1_000_000), 5_000);
    assert_eq!(compute_toxicity_tax(1_000_000, 100, 5_000, 70), 70);
    assert_eq!(compute_toxicity_tax(1_000_000, 100, 0, 70), 0);
    assert_eq!(split_tax(101, 5_000), (50, 51));
}

#[test]
fn a_fill_moves_both_sides() {
    let mut a = fill_accounts();
    let r = settle_fill(&mut a, fill(100, 10_000, 0), &vec![], 5, 1_000, NO_RELEASE, NO_RELEASE).unwrap();
    assert_eq!(r.fill.taker, key(10));
    assert_eq!(a.taker.state.collateral_quote_lots, 999_000);
    assert_eq!(a.maker.state.collateral_quote_lots, 1_000_200);
    assert_eq!(a.insurance_fund.balance_quote_lots, 80);
    assert_eq!(a.market.total_fees_collected, 800);
    assert_eq!((a.taker.position.side, a.taker.position.size_lots), (0, 100));
    assert_eq!((a.maker.position.side, a.maker.position.size_lots), (1, 100));
    assert_eq!(a.taker.position.entry_price_ticks, 10_000);
    assert_eq!((a.market.oi_long_lots, a.market.oi_short_lots), (100, 100));
    assert_eq!((a.taker.state.open_positions, a.maker.state.open_positions), (1, 1));
    settle_fill(&mut a, fill(100, 11_000, 1), &vec![], 5, 1_000, NO_RELEASE, NO_RELEASE).unwrap();
    assert_eq!(a.taker.state.collateral_quote_lots, 1_097_900);
    assert_eq!(a.maker.state.collateral_quote_lots, 900_420);
    assert_eq!(a.insurance_fund.balance_quote_lots, 168);
    assert_eq!((a.market.oi_long_lots, a.market.oi_short_lots), (0, 0));
    assert_eq!((a.taker.state.open_positions, a.maker.state.open_positions), (0, 0));
    assert_eq!(a.taker.position.realized_pnl_quote_lots, 100_000);
}

#[test]
fn isolated_results_spare_the_pool() {
    let mut a = fill_accounts();
    a.market.params.taker_fee_bps = 0;
    a.market.params.maker_rebate_bps = 0;
    a.taker.position = position(10, 0, 100, 10_000);
    a.taker.position.collateral_quote_lots = 30_000;
    a.taker.state.open_positions = 1;
    a.market.oi_long_lots = 100;
    a.market.oi_short_lots = 100;
    a.maker.position = position(11, 1, 100, 10_000);
    a.maker.state.open_positions = 1;
    settle_fill(&mut a, fill(100, 9_000, 1), &vec![], 5, 1_000, NO_RELEASE, NO_RELEASE).unwrap();
    assert_eq!(a.taker.position.collateral_quote_lots, 0);
    assert_eq!(a.taker.state.collateral_quote_lots, 1_000_000);
    assert_eq!(a.maker.state.collateral_quote_lots, 1_100_000);
}

#[test]
fn gains_under_a_haircut_wait() {
    let mut a = fill_accounts();
    a.market.params.taker_fee_bps = 0;
    a.market.params.maker_rebate_bps = 0;
    a.taker.position = position(10, 0, 100, 10_000);
    a.maker.position = position(11, 1, 100, 10_000);
    a.market.oi_long_lots = 100;
    a.market.oi_short_lots = 100;
    a.market_haircut = Some(haircut_state(0));
    a.taker.haircut = Some(PositionHaircutStateAccount {
        market: key(100),
        position: key(2_010),
        bump: 0,
        released_reserve_quote_lots: 0,
        released_attached_at_slot: 0,
        matured_pos_quote_lots: 0,
        original_reserve_at_attach: 0,
    });
    let release = PositionHaircutSnapshot {
        released_reserve_quote_lots: 100_000,
        released_attached_at_slot: 5,
        matured_pos_quote_lots: 0,
        original_reserve_at_attach: 100_000,
    };
    settle_fill(&mut a, fill(100, 11_000, 1), &vec![], 5, 1_000, Ok(release), NO_RELEASE).unwrap();
    assert_eq!(a.taker.state.collateral_quote_lots, 1_000_000);
    assert_eq!(a.taker.haircut.unwrap().released_reserve_quote_lots, 100_000);
    assert_eq!(a.maker.state.collateral_quote_lots, 900_000);
}

fn derived(id: Pubkey, program: Pubkey) -> (Pubkey, u8) {
    let outside = |k: Pubkey| {
        let mut bytes = [0u8; 32];
        bytes.copy_from_slice(&key_to_bytes(k));
        anchor_lang::prelude::Pubkey::new_from_array(bytes)
    };
    let (found, bump) = anchor_lang::prelude::Pubkey::find_program_address(
        &[b"trader_state", outside(id).as_ref()],
        &outside(program),
    );
    let bytes = found.to_bytes();
    let mut lo = [0u8; 16];
    let mut hi = [0u8; 16];
    lo.copy_from_slice(&bytes[..16]);
    hi.copy_from_slice(&bytes[16..]);
    (Pubkey { hi: u128::from_le_bytes(hi), lo: u128::from_le_bytes(lo) }, bump)
}

#[test]
fn reported_fills_are_bound_to_their_accounts() {
    let program = key(77);
    let seed = b"trader_state".to_vec();
    let mut a = fill_accounts();
    let (taker_key, taker_bump) = derived(key(10), program);
    let (maker_key, maker_bump) = derived(key(11), program);
    a.taker.state_key = taker_key;
    a.taker.state.bump = taker_bump;
    a.maker.state_key = maker_key;
    a.maker.state.bump = maker_bump;
    let apply = |a: ApplyFill, f: Fill, sub: u8| {
        let mut a = a;
        apply_fill(&mut a, f, sub, 0, &seed, program, &vec![], 5, 1_000, NO_RELEASE, NO_RELEASE)
            .map(|_| a.market.oi_long_lots)
    };
    assert_eq!(apply(a, fill(100, 10_000, 0), 0), Ok(100));
    assert_eq!(apply(a, fill(100, 10_000, 0), 1), Err(FlashBookError::WrongTrader));
    assert_eq!(apply(a, fill(0, 10_000, 0), 0), Err(FlashBookError::ZeroSize));
    assert_eq!(apply(a, fill(100, 0, 0), 0), Err(FlashBookError::ZeroPrice));
    assert_eq!(apply(a, fill(100, 10_000, 2), 0), Err(FlashBookError::OutOfRange));
    let mut foreign = a;
    foreign.sequencer = key(66);
    assert_eq!(apply(foreign, fill(100, 10_000, 0), 0), Err(FlashBookError::Unauthorized));
    let mut mismatched = a;
    mismatched.market_haircut = Some(MarketHaircutStateAccount { market: key(101), ..haircut_state(0) });
    assert_eq!(
        apply(mismatched, fill(100, 10_000, 0), 0),
        Err(FlashBookError::HaircutStateMismatch)
    );
}

#[test]
fn fills_average_reduce_and_turn_positions() {
    let mut p = position(10, 0, 10, 100);
    apply_fill_to_position(&mut p, Side::Long, 30, 200, 9).unwrap();
    assert_eq!((p.size_lots, p.entry_price_ticks), (40, 175));
    apply_fill_to_position(&mut p, Side::Short, 10, 185, 9).unwrap();
    assert_eq!((p.side, p.size_lots, p.realized_pnl_quote_lots), (0, 30, 100));
    apply_fill_to_position(&mut p, Side::Short, 50, 165, 9).unwrap();
    assert_eq!((p.side, p.size_lots, p.entry_price_ticks), (1, 20, 165));
    assert_eq!(p.realized_pnl_quote_lots, -200);
    let mut big = position(10, 0, u64::MAX, 100);
    assert_eq!(
        apply_fill_to_position(&mut big, Side::Long, 1, 200, 9),
        Err(FlashBookError::ArithmeticOverflow)
    );
}

#[test]
fn open_interest_follows_positions() {
    let mut m = market();
    m.oi_long_lots = 10;
    m.oi_short_lots = 10;
    update_oi(&mut m, 0, 10, 1, 4).unwrap();
    assert_eq!((m.oi_long_lots, m.oi_short_lots), (0, 14));
    assert_eq!(update_oi(&mut m, 0, 0, 1, u64::MAX), Err(FlashBookError::ArithmeticOverflow));
    assert_eq!((m.oi_long_lots, m.oi_short_lots), (0, 14));
}

#[test]
fn mark_moves_part_of_the_way_and_is_capped() {
    let mut m = market();
    m.params.mark_ema_alpha_bps = 2_000;
    m.params.mark_max_change_bps = 500;
    update_mark_from_fill(&mut m, key(100), 1_100);
    assert_eq!(m.mark_price_ticks, 1_020);
    m.mark_price_ticks = 1_000;
    m.params.mark_max_change_bps = 100;
    update_mark_from_fill(&mut m, key(100), 1_100);
    assert_eq!(m.mark_price_ticks, 1_010);
}

#[test]
fn mark_is_reset_to_a_fresh_oracle() {
    let mut m = market();
    m.oracle_price_ticks = 1_200;
    m.oracle_confidence = 12;
    m.oracle_published_at_unix_seconds = 100;
    m.params.oracle_staleness_max_seconds = 30;
    m.params.oracle_confidence_max_bps = 100;
    m.params.mark_settle_min_slots = 10;
    m.last_mark_settle_slot = 50;
    let settle = |m: MarketAccount, slot: u64, now: i64| {
        let mut m = m;
        settle_mark(&mut m, key(100), slot, now).map(|_| m.mark_price_ticks)
    };
    assert_eq!(settle(m, 60, 130), Ok(1_200));
    assert_eq!(settle(m, 59, 130), Err(FlashBookError::RateLimited));
    assert_eq!(settle(m, 60, 131), Err(FlashBookError::OracleTooStale));
    let mut wide = m;
    wide.oracle_confidence = 13;
    assert_eq!(settle(wide, 60, 130), Err(FlashBookError::OracleConfidenceTooWide));
    let mut none = m;
    none.oracle_price_ticks = 0;
    assert_eq!(settle(none, 60, 130), Err(FlashBookError::ZeroPrice));
}

fn funding(collateral: u64, isolated: u64, residual: u128) -> SettleFunding {
    let mut p = position(10, 0, 5, 1_000);
    p.collateral_quote_lots = isolated;
    let mut m = market();
    m.cum_funding_index = 77;
    SettleFunding {
        trader: key(10),
        market_key: key(100),
        market: m,
        trader_state: trader(10, collateral),
        position: p,
        haircut_state: haircut_state(residual),
    }
}

#[test]
fn funding_moves_the_residual_the_other_way() {
    let mut a = funding(100, 0, 10);
    let e = settle_funding(&mut a, Ok(40)).unwrap().unwrap();
    assert_eq!((e.owed_quote_lots, e.new_collateral), (40, 60));
    assert_eq!((a.haircut_state.residual_quote_lots, a.position.funding_paid_quote_lots), (50, 40));
    assert_eq!(a.position.cum_funding_index_at_entry, 77);
    a.market.cum_funding_index = 70;
    settle_funding(&mut a, Ok(-50)).unwrap();
    assert_eq!((a.trader_state.collateral_quote_lots, a.haircut_state.residual_quote_lots), (110, 0));
    a.market.cum_funding_index = 69;
    let before = a;
    assert_eq!(
        settle_funding(&mut a, Ok(-1)).err(),
        Some(FlashBookError::HaircutResidualUnderflow)
    );
    assert_eq!(a, before);
}

#[test]
fn funding_is_settled_once() {
    for owed in [Ok(0), Ok(40), Ok(-5), Ok(i128::MAX), Err(FlashBookError::ArithmeticOverflow)] {
        for isolated in [0, 30] {
            let mut a = funding(100, isolated, 10);
            settle_funding(&mut a, Ok(45)).unwrap();
            let before = a;
            let e = settle_funding(&mut a, owed).unwrap().unwrap();
            assert_eq!(e.owed_quote_lots, 0);
            assert_eq!(a, before);
        }
    }
    let mut a = funding(100, 0, 10);
    assert_eq!(
        settle_funding(&mut a, Err(FlashBookError::ArithmeticOverflow)).err(),
        Some(FlashBookError::ArithmeticOverflow)
    );
}

#[test]
fn funding_stays_in_its_bucket() {
    let mut a = funding(100, 30, 0);
    settle_funding(&mut a, Ok(45)).unwrap();
    assert_eq!((a.position.collateral_quote_lots, a.trader_state.collateral_quote_lots), (0, 100));
    assert_eq!(a.haircut_state.residual_quote_lots, 30);
    let mut flat = funding(100, 0, 0);
    flat.position.size_lots = 0;
    assert_eq!(settle_funding(&mut flat, Ok(45)), Ok(None));
    assert_eq!((flat.trader_state.collateral_quote_lots, flat.position.cum_funding_index_at_entry), (100, 77));
    let mut foreign = funding(100, 0, 0);
    foreign.trader = key(11);
    assert_eq!(settle_funding(&mut foreign, Ok(45)).err(), Some(FlashBookError::WrongTrader));
    let mut huge = funding(100, 0, 0);
    huge.position.size_lots = u64::MAX;
    assert_eq!(settle_funding(&mut huge, Ok(45)).err(), Some(FlashBookError::ArithmeticOverflow));
}

#[test]
fn predicted_funding_is_capped() {
    let mut m = market();
    m.mark_price_ticks = 1_010;
    m.params.funding_rate_k_bps = 5_000;
    m.params.funding_rate_max_bps_per_sec = 80;
    let e = view_predicted_funding(key(100), &m);
    assert_eq!((e.premium_bps, e.rate_bps_per_sec), (100, 50));
    m.params.funding_rate_max_bps_per_sec = 20;
    m.mark_price_ticks = 990;
    let e = view_predicted_funding(key(100), &m);
    assert_eq!((e.premium_bps, e.rate_bps_per_sec), (-100, -20));
    m.oracle_price_ticks = 0;
    let e = view_predicted_funding(key(100), &m);
    assert_eq!((e.premium_bps, e.rate_bps_per_sec), (0, 0));
}

#[test]
fn pool_shares_are_issued_and_redeemed_at_value() {
    let (mut flp, mut founder, _) = initialize_flp_exposure(key(20), 1, 2, 1_000);
    flp.realized_pnl = 500;
    let mut lp = flash_book::state::LpPositionAccount {
        lp: key(0),
        bump: 0,
        shares: 0,
        total_deposited_quote_lots: 0,
        total_withdrawn_quote_lots: 0,
    };
    let e = deposit_flp_capital(&mut flp, &mut lp, key(21), 3, 300).unwrap();
    assert_eq!((lp.shares, e.new_total, e.delta), (200, 1_300, 300));
    assert_eq!(lp.lp, key(21));
    assert_eq!(deposit_flp_capital(&mut flp, &mut lp, key(21), 3, 0).err(), Some(FlashBookError::ZeroSize));
    let (e, paid) = withdraw_flp_capital(&mut flp, &mut lp, key(21), &vec![], 10_000, 100).unwrap();
    assert_eq!((paid, e.new_total, lp.shares), (150, 1_150, 100));
    assert_eq!(
        withdraw_flp_capital(&mut flp, &mut lp, key(21), &vec![], 10_000, 101).err(),
        Some(FlashBookError::InsufficientCollateral)
    );
    assert_eq!(
        withdraw_flp_capital(&mut flp, &mut founder, key(21), &vec![], 10_000, 1).err(),
        Some(FlashBookError::Unauthorized)
    );
}

#[test]
fn pool_capital_stays_behind_its_positions() {
    let (mut flp, mut founder, _) = initialize_flp_exposure(key(20), 1, 2, 1_000);
    apply_fill_to_flp_market(&mut flp, key(100), Side::Short, 5, 100).unwrap();
    assert_eq!(flp_market_pre_state(&flp, key(100)), (1, 5));
    assert_eq!(flp_market_pre_state(&flp, key(101)), (255, 0));
    let marks = vec![MarketMark { market: key(100), mark_price_ticks: 120, tick_size: 1 }];
    assert_eq!(
        withdraw_flp_capital(&mut flp, &mut founder, key(20), &vec![], 10_000, 100).err(),
        Some(FlashBookError::MissingMarketAccount)
    );
    assert_eq!(
        withdraw_flp_capital(&mut flp, &mut founder, key(20), &marks, 10_000, 401).err(),
        Some(FlashBookError::FlpWithdrawUndercollateralized)
    );
    assert!(withdraw_flp_capital(&mut flp, &mut founder, key(20), &marks, 10_000, 400).is_ok());
}

#[test]
fn the_pool_counts_its_markets() {
    let live = |flp: &FlpExposureAccount| flp.per_market.iter().filter(|s| s.side != 255).count();
    let (mut flp, _, _) = initialize_flp_exposure(key(20), 1, 2, 1_000);
    assert_eq!((flp.markets_count, live(&flp)), (0, 0));
    apply_fill_to_flp_market(&mut flp, key(100), Side::Short, 5, 100).unwrap();
    apply_fill_to_flp_market(&mut flp, key(101), Side::Long, 7, 100).unwrap();
    assert_eq!((flp.markets_count, live(&flp)), (2, 2));
    apply_fill_to_flp_market(&mut flp, key(100), Side::Long, 9, 100).unwrap();
    assert_eq!((flp.markets_count, live(&flp)), (2, 2));
    apply_fill_to_flp_market(&mut flp, key(101), Side::Short, 7, 100).unwrap();
    assert_eq!((flp.markets_count, live(&flp)), (1, 1));
}

#[test]
fn a_fill_against_the_pool_moves_its_table() {
    let (mut flp, _, _) = initialize_flp_exposure(key(20), 1, 2, 1_000_000);
    let mut m = market();
    m.params.taker_fee_bps = 10;
    let mut a = ApplyFlpFill {
        sequencer: key(2),
        market_key: key(100),
        market: m,
        insurance_fund: fund(0, 0),
        taker: party(10, 1_000_000),
        flp_key: key(3),
        market_haircut: None,
    };
    let r = settle_flp_fill(&mut a, &mut flp, fill(100, 1_000, 0), &vec![], 5, 1_000, NO_RELEASE).unwrap();
    assert_eq!((r.fill.flp_side_after, r.fill.flp_size_after), (1, 100));
    assert_eq!((a.taker.position.side, a.taker.position.size_lots), (0, 100));
    assert_eq!((a.market.oi_long_lots, a.market.oi_short_lots), (100, 100));
    assert_eq!(a.taker.state.collateral_quote_lots, 999_900);
    assert_eq!(flp.markets_count, 1);
}

#[test]
fn market_pools_track_exposure_and_shares() {
    let (mut x, _) = init_flp_per_market_v3(key(100), key(20), 1);
    assert_eq!(x.side, 255);
    record_flp_fill_v3(&mut x, key(20), 10, 100, 0, 0).unwrap();
    record_flp_fill_v3(&mut x, key(20), 30, 200, 0, 5).unwrap();
    assert_eq!((x.side, x.size_lots, x.entry_price_ticks, x.realized_pnl), (0, 40, 175, 5));
    record_flp_fill_v3(&mut x, key(20), 50, 180, 1, 0).unwrap();
    assert_eq!((x.side, x.size_lots, x.entry_price_ticks), (1, 10, 180));
    record_flp_fill_v3(&mut x, key(20), 10, 190, 0, 0).unwrap();
    assert_eq!((x.side, x.size_lots, x.entry_price_ticks), (255, 0, 0));
    assert_eq!(
        record_flp_fill_v3(&mut x, key(21), 10, 190, 0, 0).err(),
        Some(FlashBookError::Unauthorized)
    );
    let holding = FlpPositionAccountV3 { market: key(0), lp: key(0), bump: 0, shares: 0 };
    let mut a = FlpHolding { lp: key(30), exposure: x, position: holding, position_bump: 4 };
    assert_eq!(flp_deposit_v3(&mut a, 100).unwrap().shares_minted, 100);
    a.exposure.total_capital_quote_lots = 150;
    let e = flp_deposit_v3(&mut a, 50).unwrap();
    assert_eq!((e.shares_minted, e.new_total_capital), (33, 200));
    let w = flp_withdraw_v3(&mut a, 33).unwrap();
    assert_eq!((w.amount_quote_lots, w.new_shares_outstanding), (49, 100));
    assert_eq!(
        flp_withdraw_v3(&mut a, 101).err(),
        Some(FlashBookError::InsufficientCollateral)
    );
    let mut drained = a;
    drained.exposure.lp_shares_outstanding = 10;
    assert_eq!(flp_withdraw_v3(&mut drained, 50).err(), Some(FlashBookError::ArithmeticUnderflow));
}
