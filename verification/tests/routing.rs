use flash_book::position::{compute_realized_pnl_routing, route_adl_gain, route_adl_loss};

#[test]
fn loss_isolated_debits_position_bucket() {
    let (pos, ts) = route_adl_loss(true, 100, 500, 10_000);
    assert_eq!(pos, 400);
    assert_eq!(ts, 10_000, "cross pool must NOT be touched on isolated loss");
}

#[test]
fn loss_isolated_saturates_at_zero_never_touches_cross() {
    let (pos, ts) = route_adl_loss(true, 1_000, 500, 10_000);
    assert_eq!(pos, 0);
    assert_eq!(ts, 10_000, "MUST NOT bleed into cross pool on isolated loss");
}

#[test]
fn loss_cross_debits_cross_pool() {
    let (pos, ts) = route_adl_loss(false, 250, 0, 1_000);
    assert_eq!(pos, 0, "position bucket untouched on cross path");
    assert_eq!(ts, 750);
}

#[test]
fn loss_cross_saturates_at_zero() {
    let (pos, ts) = route_adl_loss(false, 5_000, 0, 1_000);
    assert_eq!(pos, 0);
    assert_eq!(ts, 0);
}

#[test]
fn loss_zero_amount_is_no_op() {
    let (pos, ts) = route_adl_loss(true, 0, 500, 10_000);
    assert_eq!(pos, 500);
    assert_eq!(ts, 10_000);
    let (pos, ts) = route_adl_loss(false, 0, 500, 10_000);
    assert_eq!(pos, 500);
    assert_eq!(ts, 10_000);
}

#[test]
fn gain_isolated_credits_position_bucket() {
    let (pos, ts) = route_adl_gain(true, 250, 500, 10_000).unwrap();
    assert_eq!(pos, 750);
    assert_eq!(ts, 10_000, "cross pool untouched on isolated gain");
}

#[test]
fn gain_cross_credits_cross_pool() {
    let (pos, ts) = route_adl_gain(false, 250, 500, 10_000).unwrap();
    assert_eq!(pos, 500, "position bucket untouched on cross path");
    assert_eq!(ts, 10_250);
}

#[test]
fn gain_isolated_overflow_errors() {
    let result = route_adl_gain(true, 10, u64::MAX, 0);
    assert!(result.is_err(), "isolated bucket overflow must error");
}

#[test]
fn gain_cross_overflow_errors() {
    let result = route_adl_gain(false, 10, 0, u64::MAX);
    assert!(result.is_err(), "cross pool overflow must error");
}

#[test]
fn gain_zero_amount_is_no_op() {
    let (pos, ts) = route_adl_gain(true, 0, 500, 10_000).unwrap();
    assert_eq!(pos, 500);
    assert_eq!(ts, 10_000);
    let (pos, ts) = route_adl_gain(false, 0, 500, 10_000).unwrap();
    assert_eq!(pos, 500);
    assert_eq!(ts, 10_000);
}

#[test]
fn isolated_adl_leaves_both_cross_pools_untouched() {
    let uw_cross_before = 100_000u64;
    let ct_cross_before = 50_000u64;
    let (uw_pos_after, uw_cross_after) = route_adl_loss(
        /* isolated */ true,
        /* loss      */ 800,
        /* pos       */ 1_000,
        /* cross     */ uw_cross_before,
    );
    let (ct_pos_after, ct_cross_after) = route_adl_gain(
        /* isolated */ true,
        /* gain      */ 600,
        /* pos       */ 200,
        /* cross     */ ct_cross_before,
    ).unwrap();
    assert_eq!(uw_pos_after, 200);
    assert_eq!(ct_pos_after, 800);
    assert_eq!(uw_cross_after, uw_cross_before);
    assert_eq!(ct_cross_after, ct_cross_before);
}

#[test]
fn zero_delta_is_no_op() {
    let (iso, cross) = compute_realized_pnl_routing(0, false, 100, 5_000).unwrap();
    assert_eq!(iso, 100);
    assert_eq!(cross, 5_000);
    let (iso, cross) = compute_realized_pnl_routing(0, true, 100, 5_000).unwrap();
    assert_eq!(iso, 100);
    assert_eq!(cross, 5_000);
}

#[test]
fn gain_credits_isolated_bucket_when_isolated() {
    let (iso, cross) = compute_realized_pnl_routing(250, true, 1_000, 5_000).unwrap();
    assert_eq!(iso, 1_250, "isolated bucket should receive the credit");
    assert_eq!(cross, 5_000, "cross pool untouched on isolated path");
}

#[test]
fn gain_credits_cross_pool_when_not_isolated() {
    let (iso, cross) = compute_realized_pnl_routing(250, false, 1_000, 5_000).unwrap();
    assert_eq!(iso, 1_000, "isolated bucket untouched on cross path");
    assert_eq!(cross, 5_250, "cross pool should receive the credit");
}

#[test]
fn loss_debits_isolated_bucket_when_isolated() {
    let (iso, cross) = compute_realized_pnl_routing(-250, true, 1_000, 5_000).unwrap();
    assert_eq!(iso, 750);
    assert_eq!(cross, 5_000);
}

#[test]
fn loss_truncates_at_zero_on_isolated_path() {
    let (iso, cross) = compute_realized_pnl_routing(-2_000, true, 1_000, 5_000).unwrap();
    assert_eq!(iso, 0);
    assert_eq!(cross, 5_000, "cross pool MUST NOT be touched on isolated loss");
}

#[test]
fn loss_debits_cross_pool_when_not_isolated() {
    let (iso, cross) = compute_realized_pnl_routing(-250, false, 1_000, 5_000).unwrap();
    assert_eq!(iso, 1_000);
    assert_eq!(cross, 4_750);
}

#[test]
fn loss_exceeding_cross_pool_returns_insufficient_collateral() {
    let result = compute_realized_pnl_routing(-6_000, false, 1_000, 5_000);
    assert!(result.is_err(), "loss > cross pool must error, not go negative");
}

#[test]
fn gain_overflowing_isolated_bucket_returns_overflow() {
    let result = compute_realized_pnl_routing(10, true, u64::MAX, 5_000);
    assert!(result.is_err(), "overflow on the isolated bucket must error");
}

#[test]
fn gain_overflowing_cross_pool_returns_overflow() {
    let result = compute_realized_pnl_routing(10, false, 1_000, u64::MAX);
    assert!(result.is_err(), "overflow on the cross pool must error");
}

#[test]
fn extreme_positive_delta_clamps_to_u64_max_credit() {
    let huge = (u64::MAX as i128) + 1;
    let (_iso, cross) = compute_realized_pnl_routing(huge, false, 0, 0).unwrap();
    assert_eq!(cross, u64::MAX);
}

#[test]
fn extreme_negative_delta_clamps_to_u64_max_debit() {
    let huge_neg = -((u64::MAX as i128) + 1);
    let (_iso, cross) = compute_realized_pnl_routing(huge_neg, false, 0, u64::MAX).unwrap();
    assert_eq!(cross, 0);
}
