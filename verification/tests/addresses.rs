use flash_book::delegation::{
    delegate_market, delegate_market_book, stamp_zc_discriminator, undelegate_market,
    undelegate_market_book,
};
use flash_book::errors::FlashBookError;
use flash_book::keys::Pubkey;
use flash_book::market::BookAccount;
use flash_book::pda::{
    derive_position_address, key_to_bytes, verify_position_pda, verify_trader_state_pda,
};
use flash_book::state::{MarketAccount, MarketParams};

fn key(n: u128) -> Pubkey {
    Pubkey { hi: 0, lo: n }
}

fn params() -> MarketParams {
    MarketParams {
        tick_size: 1,
        base_lot_size: 1,
        quote_lot_size: 1,
        min_base_lots: 1,
        max_leverage: 10,
        initial_margin_ratio_bps: 1_000,
        maintenance_margin_ratio_bps: 500,
        concentration_threshold_lots: 0,
        concentration_extra_mmr_bps: 0,
        max_oi_base_lots: 0,
        max_position_lots_per_trader: 0,
        max_position_ratio_bps: 0,
        taker_fee_bps: 0,
        maker_rebate_bps: 0,
        jit_bonus_rebate_bps: 0,
        referrer_share_bps: 0,
        builder_share_bps: 0,
        creator_share_bps: 0,
        toxicity_tax_max_bps: 0,
        mark_ema_alpha_bps: 0,
        mark_max_change_bps: 0,
        mark_settle_min_slots: 0,
        drift_alert_bps: 0,
        oracle_band_bps: 0,
        oracle_staleness_max_seconds: 0,
        oracle_confidence_max_bps: 0,
        oracle_quorum_max_dispersion_bps: 0,
        liq_penalty_bps: 0,
        liquidator_reward_bps: 0,
        liquidation_cooldown_slots: 0,
        liquidation_auction_duration_slots: 0,
        funding_rate_k_bps: 0,
        funding_rate_max_bps_per_sec: 0,
        flp_max_growth_per_batch_bps: 0,
        flp_spread_base_bps: 0,
        flp_spread_alpha_bps: 0,
        flp_spread_beta_bps: 0,
        flp_spread_gamma_bps: 0,
        flp_spread_kappa_bps: 0,
        flp_spread_delta_bps: 0,
        flp_inventory_lambda_bps: 0,
        flp_depth_floor_lots: 0,
        flp_quote_levels: 0,
    }
}

fn market() -> MarketAccount {
    MarketAccount {
        authority: key(1),
        creator: key(0),
        sequencer: key(2),
        flp_pool: key(3),
        base_mint: key(4),
        quote_mint: key(5),
        base_vault: key(6),
        quote_vault: key(7),
        oracle_account: key(8),
        insurance_fund: key(9),
        bump: 254,
        status: 1,
        current_batch: 7,
        last_batch_ms: 0,
        oracle_price_ticks: 1_000,
        oracle_confidence: 0,
        oracle_published_at_unix_seconds: 0,
        mark_price_ticks: 1_000,
        cum_funding_index: 0,
        last_funding_rate_bps_per_sec: 0,
        vpin_bps: 0,
        oi_long_lots: 0,
        oi_short_lots: 0,
        recent_clearing_count: 0,
        total_fees_collected: 0,
        total_toxicity_tax_collected: 0,
        total_liquidations: 0,
        period_started_at_unix: 0,
        period_funding_paid_abs_bps: 0,
        last_mark_settle_slot: 0,
        params: params(),
    }
}

fn outside(k: Pubkey) -> anchor_lang::prelude::Pubkey {
    let mut bytes = [0u8; 32];
    bytes.copy_from_slice(&key_to_bytes(k));
    anchor_lang::prelude::Pubkey::new_from_array(bytes)
}

fn inside(k: anchor_lang::prelude::Pubkey) -> Pubkey {
    let bytes = k.to_bytes();
    let mut lo = [0u8; 16];
    let mut hi = [0u8; 16];
    lo.copy_from_slice(&bytes[..16]);
    hi.copy_from_slice(&bytes[16..]);
    Pubkey { hi: u128::from_le_bytes(hi), lo: u128::from_le_bytes(lo) }
}

fn book_account(owned: bool) -> BookAccount {
    BookAccount {
        authority: key(1),
        market_key: key(100),
        market: market(),
        market_book_key: key(101),
        owned,
    }
}

#[test]
fn key_bytes_run_from_the_low_byte() {
    let k = Pubkey { hi: 2, lo: 1 };
    let bytes = key_to_bytes(k);
    assert_eq!(bytes.len(), 32);
    assert_eq!(bytes[0], 1);
    assert_eq!(bytes[16], 2);
    assert_eq!(inside(outside(k)), k);
}

#[test]
fn trader_accounts_are_bound_to_their_seeds() {
    let program = Pubkey { hi: 77, lo: 5 };
    let trader = key(42);
    let seed = b"trader_state".to_vec();
    let (main, main_bump) = anchor_lang::prelude::Pubkey::find_program_address(
        &[&seed, outside(trader).as_ref()],
        &outside(program),
    );
    let (sub, sub_bump) = anchor_lang::prelude::Pubkey::find_program_address(
        &[&seed, outside(trader).as_ref(), &[3]],
        &outside(program),
    );
    assert_eq!(verify_trader_state_pda(&seed, 0, trader, inside(main), main_bump, program), Ok(()));
    assert_eq!(verify_trader_state_pda(&seed, 3, trader, inside(sub), sub_bump, program), Ok(()));
    assert_eq!(
        verify_trader_state_pda(&seed, 0, trader, inside(sub), main_bump, program),
        Err(FlashBookError::WrongTrader)
    );
    assert_eq!(
        verify_trader_state_pda(&seed, 0, key(43), inside(main), main_bump, program),
        Err(FlashBookError::WrongTrader)
    );
    let long_seed = vec![1u8; 33];
    assert_eq!(
        verify_trader_state_pda(&long_seed, 0, trader, inside(main), main_bump, program),
        Err(FlashBookError::WrongTrader)
    );
}

#[test]
fn positions_are_bound_to_market_and_account() {
    let program = Pubkey { hi: 77, lo: 5 };
    let seed = b"position".to_vec();
    let (address, bump) = anchor_lang::prelude::Pubkey::find_program_address(
        &[&seed, outside(key(100)).as_ref(), outside(key(200)).as_ref()],
        &outside(program),
    );
    assert_eq!(
        derive_position_address(&seed, key(100), key(200), bump, program),
        Some(inside(address))
    );
    assert_eq!(
        verify_position_pda(&seed, key(100), key(200), bump, inside(address), program),
        Ok(())
    );
    assert!(verify_position_pda(&seed, key(100), key(201), bump, inside(address), program).is_err());
    assert!(verify_position_pda(&seed, key(101), key(200), bump, inside(address), program).is_err());
}

#[test]
fn books_are_delegated_by_the_authority_alone() {
    let d = delegate_market_book(&book_account(true), &b"market_book".to_vec(), 9, 50, None).unwrap();
    assert_eq!(d.seeds, vec![b"market_book".to_vec(), key_to_bytes(key(100)), vec![9]]);
    assert_eq!(d.event.market_book, key(101));
    assert_eq!(d.event.commit_frequency_ms, 50);
    assert!(d.event.validator.is_default());
    assert_eq!(
        delegate_market_book(&book_account(false), &b"market_book".to_vec(), 9, 50, None)
            .err(),
        Some(FlashBookError::Unauthorized)
    );
    let mut foreign = book_account(true);
    foreign.authority = key(66);
    assert_eq!(
        undelegate_market_book(&foreign, &b"market_book".to_vec(), 9).err(),
        Some(FlashBookError::Unauthorized)
    );
    let back = undelegate_market_book(&book_account(false), &b"market_book".to_vec(), 9).unwrap();
    assert_eq!(back.event.market, key(100));
}

#[test]
fn markets_are_delegated_by_the_authority_alone() {
    let m = market();
    let d = delegate_market(key(100), &m, key(1), true, &b"market".to_vec(), 75, Some(key(12)))
        .unwrap();
    assert_eq!(d.seeds.len(), 4);
    assert_eq!(d.seeds[3], vec![254]);
    assert_eq!(d.event.validator, key(12));
    assert!(delegate_market(key(100), &m, key(1), false, &b"market".to_vec(), 75, None).is_err());
    assert!(undelegate_market(key(100), &m, key(2), &b"market".to_vec()).is_err());
    assert!(undelegate_market(key(100), &m, key(1), &b"market".to_vec()).is_ok());
}

#[test]
fn discriminator_is_stamped_once() {
    let mut data = vec![0u8; 12];
    data[10] = 5;
    stamp_zc_discriminator(&mut data, &vec![1, 2, 3, 4, 5, 6, 7, 8]);
    assert_eq!(data, vec![1, 2, 3, 4, 5, 6, 7, 8, 0, 0, 5, 0]);
    stamp_zc_discriminator(&mut data, &vec![9; 8]);
    assert_eq!(data[0], 1);
}
