//! What holds of every settled fill.
use vstd::prelude::*;

use crate::constants::{BPS_DENOM, MAX_FEE_DISCOUNT_BPS};
use crate::errors::FlashBookError;
use crate::fees::{
    FillFees, bps_of, fees_for_fill, law_maker_rebate_within_taker_fee, law_tax_split_conserves,
    sat_bps_of, toxicity_tax,
};
use crate::math::{max_int, min_int, sat_i64};
use crate::position::{
    adl_gain, adl_loss, closing_pnl, fill_refusal, lemma_mean_price_between, pnl_routing,
    position_after_fill,
};
use crate::settlement::{
    ApplyFill, Fill, FillParty, Release, fees_charged, fees_of_fill, fill_settled, is_isolated,
    notional_of, oi_moved, party_filled, pnl_settled, position_ready, positions_moved, realized_by,
    tax_charged, volume_counted,
};
use crate::state::{FeeTier, MarketAccount, PositionAccount, Side, opposite_side, side_of_byte};
use crate::tiers::fee_rates;

verus! {

/// Size of a position with its direction: long counts up, short down.
pub open spec fn signed_size(side: u8, size: u64) -> int {
    match side_of_byte(side) {
        Side::Long => size as int,
        Side::Short => -(size as int),
    }
}

/// Size of a fill with its direction.
pub open spec fn signed_fill(side: Side, size: u64) -> int {
    match side {
        Side::Long => size as int,
        Side::Short => -(size as int),
    }
}

/// Booking a fill adds its signed size to the position's: lots are neither lost
/// nor made.
pub proof fn law_fill_adds_signed_size(
    pos: PositionAccount,
    side: Side,
    size: u64,
    price: u64,
    funding_index: i128,
)
    requires
        fill_refusal(pos, side, size, price) is None,
    ensures
        ({
            let after = position_after_fill(pos, side, size, price, funding_index);
            signed_size(after.side, after.size_lots) == signed_size(pos.side, pos.size_lots)
                + signed_fill(side, size)
        }),
{
}

/// The entry price after adding to a position lies between the old entry price
/// and the price of the fill.
pub proof fn law_entry_stays_between(
    pos: PositionAccount,
    side: Side,
    size: u64,
    price: u64,
    funding_index: i128,
)
    requires
        pos.size_lots > 0,
        side_of_byte(pos.side) == side,
        fill_refusal(pos, side, size, price) is None,
    ensures
        ({
            let after = position_after_fill(pos, side, size, price, funding_index);
            min_int(pos.entry_price_ticks as int, price as int) <= after.entry_price_ticks
                <= max_int(pos.entry_price_ticks as int, price as int)
        }),
{
    lemma_mean_price_between(
        pos.entry_price_ticks as int,
        pos.size_lots as int,
        price as int,
        size as int,
    );
}

/// Closing a position with one fill realizes exactly the price difference on
/// every lot, and leaves nothing open.
pub proof fn law_full_close_realizes_difference(
    pos: PositionAccount,
    price: u64,
    funding_index: i128,
)
    requires
        pos.size_lots > 0,
        fill_refusal(pos, opposite_side(side_of_byte(pos.side)), pos.size_lots, price) is None,
        ({
            let pnl = closing_pnl(
                side_of_byte(pos.side),
                pos.size_lots as int,
                pos.entry_price_ticks as int,
                price as int,
            );
            sat_i64(pnl) == pnl
        }),
    ensures
        ({
            let after = position_after_fill(
                pos,
                opposite_side(side_of_byte(pos.side)),
                pos.size_lots,
                price,
                funding_index,
            );
            after.size_lots == 0 && after.realized_pnl_quote_lots == pos.realized_pnl_quote_lots
                + closing_pnl(
                side_of_byte(pos.side),
                pos.size_lots as int,
                pos.entry_price_ticks as int,
                price as int,
            )
        }),
{
}

/// The open interest of a market counts at least the two given positions.
pub open spec fn oi_counts(m: MarketAccount, p: PositionAccount, q: PositionAccount) -> bool {
    let long = (if p.side == 0 {
        p.size_lots as int
    } else {
        0
    }) + (if q.side == 0 {
        q.size_lots as int
    } else {
        0
    });
    let short = p.size_lots + q.size_lots - long;
    long <= m.oi_long_lots && short <= m.oi_short_lots
}

/// Moving one position moves the balance of open interest by exactly the change
/// of its signed size.
pub proof fn lemma_oi_follows_position(
    m: MarketAccount,
    before: PositionAccount,
    after: PositionAccount,
)
    requires
        oi_moved(m, before, after) is Ok,
        before.side == 0 ==> before.size_lots <= m.oi_long_lots,
        before.side != 0 ==> before.size_lots <= m.oi_short_lots,
    ensures
        ({
            let n = oi_moved(m, before, after)->Ok_0;
            n.oi_long_lots - n.oi_short_lots == m.oi_long_lots - m.oi_short_lots + signed_size(
                after.side,
                after.size_lots,
            ) - signed_size(before.side, before.size_lots)
        }),
{
}

/// A fill between two traders keeps long and short open interest equal.
pub proof fn law_fill_keeps_open_interest_balanced(
    a: ApplyFill,
    f: Fill,
    taker_release: Release,
    maker_release: Release,
)
    requires
        a.market.oi_long_lots == a.market.oi_short_lots,
        oi_counts(a.market, a.taker.position, a.maker.position),
        positions_moved(a, f, taker_release, maker_release) is Ok,
    ensures
        ({
            let b = positions_moved(a, f, taker_release, maker_release)->Ok_0;
            b.market.oi_long_lots == b.market.oi_short_lots
        }),
{
    let side = side_of_byte(f.taker_side);
    let fi = a.market.cum_funding_index;
    let b = positions_moved(a, f, taker_release, maker_release)->Ok_0;
    let t0 = position_ready(a.taker, a.market_key, fi, a.market.current_batch);
    let m0 = position_ready(a.maker, a.market_key, fi, a.market.current_batch);
    law_fill_adds_signed_size(t0, side, f.size_lots, f.price_ticks, fi);
    law_fill_adds_signed_size(m0, opposite_side(side), f.size_lots, f.price_ticks, fi);
    let mk1 = oi_moved(a.market, a.taker.position, b.taker.position)->Ok_0;
    lemma_oi_follows_position(a.market, a.taker.position, b.taker.position);
    lemma_oi_follows_position(mk1, a.maker.position, b.maker.position);
}

/// A whole settled fill keeps long and short open interest equal.
pub proof fn law_settled_fill_keeps_open_interest_balanced(
    a: ApplyFill,
    f: Fill,
    tiers: Seq<FeeTier>,
    now_slot: u64,
    window: u64,
    taker_release: Release,
    maker_release: Release,
)
    requires
        a.market.oi_long_lots == a.market.oi_short_lots,
        oi_counts(a.market, a.taker.position, a.maker.position),
        fill_settled(a, f, tiers, now_slot, window, taker_release, maker_release) is Ok,
    ensures
        ({
            let b = fill_settled(
                a,
                f,
                tiers,
                now_slot,
                window,
                taker_release,
                maker_release,
            )->Ok_0.0;
            b.market.oi_long_lots == b.market.oi_short_lots
        }),
{
    let notional = notional_of(
        f.size_lots as int,
        f.price_ticks as int,
        a.market.params.tick_size as int,
    )->Ok_0;
    let b = fees_charged(a, fees_of_fill(a, f, tiers, notional))->Ok_0;
    let ts = volume_counted(
        b.taker.state,
        b.market.params.taker_fee_bps,
        tiers,
        notional,
        now_slot,
        window,
    ).0;
    let ms = volume_counted(
        b.maker.state,
        b.market.params.taker_fee_bps,
        tiers,
        notional,
        now_slot,
        window,
    ).0;
    let c = ApplyFill {
        taker: FillParty { state: ts, ..b.taker },
        maker: FillParty { state: ms, ..b.maker },
        ..b
    };
    let d = tax_charged(c, notional)->Ok_0.0;
    law_fill_keeps_open_interest_balanced(d, f, taker_release, maker_release);
}

/// All collateral of one side.
pub open spec fn party_money(p: FillParty) -> int {
    p.position.collateral_quote_lots + p.state.collateral_quote_lots
}

/// All collateral of both sides and the insurance fund.
pub open spec fn fill_money(a: ApplyFill) -> int {
    party_money(a.taker) + party_money(a.maker) + a.insurance_fund.balance_quote_lots
}

/// The fees of a fill never create money: what leaves the two traders and does not
/// reach the insurance fund or come back as the taker's rebate stays with the
/// protocol.
pub proof fn law_fees_never_create_money(a: ApplyFill, fees: FillFees)
    requires
        fees.taker_fee + fees.maker_fee == fees.maker_rebate + fees.net_fee,
        a.insurance_fund.fee_contribution_bps <= BPS_DENOM,
        fees_charged(a, fees) is Ok,
    ensures
        ({
            let b = fees_charged(a, fees)->Ok_0;
            let kept = fees.net_fee - bps_of(
                fees.net_fee as int,
                a.insurance_fund.fee_contribution_bps as int,
            );
            &&& fill_money(b) + kept == fill_money(a)
            &&& fill_money(b) <= fill_money(a)
        }),
{
    lemma_share_within(fees.net_fee, a.insurance_fund.fee_contribution_bps);
}

/// A share of at most 100% is no more than the whole.
pub proof fn lemma_share_within(n: u64, bps: u32)
    requires
        bps <= BPS_DENOM,
    ensures
        0 <= bps_of(n as int, bps as int) <= n,
{
    assert(0 <= n * bps <= n * 10_000) by (nonlinear_arith)
        requires
            0 <= n,
            0 <= bps <= 10_000,
    ;
}

/// A rebate to the taker comes out of the insurance fund's share of the fee alone:
/// the two together are that share, the maker gets and pays what it would without the
/// rebate, and the fund never shrinks.
pub proof fn law_taker_rebate_spares_maker_and_fund(a: ApplyFill, fees: FillFees)
    requires
        a.insurance_fund.fee_contribution_bps <= BPS_DENOM,
        fees_charged(a, fees) is Ok,
    ensures
        ({
            let b = fees_charged(a, fees)->Ok_0;
            let share = bps_of(
                fees.net_fee as int,
                a.insurance_fund.fee_contribution_bps as int,
            );
            let paid = party_money(b.taker) + fees.taker_fee - party_money(a.taker);
            let contributed = b.insurance_fund.balance_quote_lots
                - a.insurance_fund.balance_quote_lots;
            &&& paid == min_int(fees.taker_rebate as int, share)
            &&& paid + contributed == share
            &&& contributed >= 0
            &&& party_money(b.maker) == party_money(a.maker) + fees.maker_rebate - fees.maker_fee
        }),
{
    lemma_share_within(fees.net_fee, a.insurance_fund.fee_contribution_bps);
}

/// A taker is never paid more than a fifth of the fee that would have been due.
pub proof fn law_taker_rebate_is_bounded(
    notional: u128,
    taker_fee_bps: u32,
    discount_bps: u32,
    maker_rate_bps: int,
)
    ensures
        5 * fees_for_fill(
            notional as int,
            taker_fee_bps as int,
            discount_bps as int,
            maker_rate_bps,
        ).taker_rebate <= sat_bps_of(notional as int, taker_fee_bps as int),
{
    let base = sat_bps_of(notional as int, taker_fee_bps as int);
    let n = notional as int;
    let t = taker_fee_bps as int;
    assert(n * t >= 0) by (nonlinear_arith)
        requires
            n >= 0,
            t >= 0,
    ;
    assert(base >= 0);
    let d = max_int(
        min_int(discount_bps as int, MAX_FEE_DISCOUNT_BPS as int) - BPS_DENOM,
        0,
    );
    assert(0 <= d <= 2_000);
    assert(0 <= base * d <= base * 2_000) by (nonlinear_arith)
        requires
            base >= 0,
            0 <= d <= 2_000,
    ;
    assert(base <= u128::MAX / 10_000);
}

/// The toxicity tax moves money from the taker to the fund and the maker and
/// loses none of it.
pub proof fn law_tax_conserves_money(a: ApplyFill, notional: u128)
    requires
        a.insurance_fund.toxicity_tax_contribution_bps <= BPS_DENOM,
        tax_charged(a, notional) is Ok,
    ensures
        fill_money(tax_charged(a, notional)->Ok_0.0) == fill_money(a),
{
    let tax = toxicity_tax(
        notional as int,
        a.market.params.toxicity_tax_max_bps as int,
        a.market.vpin_bps as int,
        a.taker.state.collateral_quote_lots,
    );
    law_tax_split_conserves(tax, a.insurance_fund.toxicity_tax_contribution_bps);
}

/// What a fill adds to the result that one side has realized, if it is a gain.
pub open spec fn gain_booked(before: FillParty, after: FillParty) -> int {
    max_int(
        after.position.realized_pnl_quote_lots - before.position.realized_pnl_quote_lots,
        0,
    )
}

/// Settling a realized result adds no more to one side's collateral than a gain.
pub proof fn lemma_result_bounds_money(p: FillParty, delta: int, isolated: bool, release: Release)
    requires
        pnl_settled(p, delta, isolated, release) is Ok,
    ensures
        ({
            let q = pnl_settled(p, delta, isolated, release)->Ok_0;
            &&& party_money(q) <= party_money(p) + max_int(delta, 0)
            &&& q.position.realized_pnl_quote_lots == p.position.realized_pnl_quote_lots
        }),
{
}

/// A settled fill creates no money: the collateral of both sides and the insurance
/// fund grow by no more than the gains that the fill realizes. A fill that realizes
/// none cannot make them grow, whatever rates and discounts the two sides have.
pub proof fn law_settled_fill_never_creates_money(
    a: ApplyFill,
    f: Fill,
    tiers: Seq<FeeTier>,
    now_slot: u64,
    window: u64,
    taker_release: Release,
    maker_release: Release,
)
    requires
        a.insurance_fund.fee_contribution_bps <= BPS_DENOM,
        a.insurance_fund.toxicity_tax_contribution_bps <= BPS_DENOM,
        fill_settled(a, f, tiers, now_slot, window, taker_release, maker_release) is Ok,
    ensures
        ({
            let h = fill_settled(
                a,
                f,
                tiers,
                now_slot,
                window,
                taker_release,
                maker_release,
            )->Ok_0.0;
            fill_money(h) <= fill_money(a) + gain_booked(a.taker, h.taker) + gain_booked(
                a.maker,
                h.maker,
            )
        }),
{
    let notional = notional_of(
        f.size_lots as int,
        f.price_ticks as int,
        a.market.params.tick_size as int,
    )->Ok_0;
    let fees = fees_of_fill(a, f, tiers, notional);
    lemma_fees_cover_payments(a, f, tiers, notional);
    lemma_share_within(fees.net_fee, a.insurance_fund.fee_contribution_bps);
    let b = fees_charged(a, fees)->Ok_0;
    assert(fill_money(b) <= fill_money(a));
    let fee_bps = b.market.params.taker_fee_bps;
    let ts = volume_counted(b.taker.state, fee_bps, tiers, notional, now_slot, window).0;
    let ms = volume_counted(b.maker.state, fee_bps, tiers, notional, now_slot, window).0;
    let c = ApplyFill {
        taker: FillParty { state: ts, ..b.taker },
        maker: FillParty { state: ms, ..b.maker },
        ..b
    };
    assert(fill_money(c) == fill_money(b));
    law_tax_conserves_money(c, notional);
    let d = tax_charged(c, notional)->Ok_0.0;
    let side = side_of_byte(f.taker_side);
    let t1 = party_filled(d.taker, d.market, d.market_key, side, f)->Ok_0;
    let m1 = party_filled(d.maker, d.market, d.market_key, opposite_side(side), f)->Ok_0;
    lemma_result_bounds_money(
        t1,
        realized_by(d.taker, t1),
        is_isolated(d.taker.position),
        taker_release,
    );
    lemma_result_bounds_money(
        m1,
        realized_by(d.maker, m1),
        is_isolated(d.maker.position),
        maker_release,
    );
}

/// The two sides of a fill pay at least what the maker is paid and the protocol keeps.
pub proof fn lemma_fees_cover_payments(a: ApplyFill, f: Fill, tiers: Seq<FeeTier>, notional: u128)
    ensures
        ({
            let fees = fees_of_fill(a, f, tiers, notional);
            fees.maker_rebate + fees.net_fee <= fees.taker_fee + fees.maker_fee
        }),
{
    let p = a.market.params;
    let taker_bps = fee_rates(
        p.maker_rebate_bps,
        p.taker_fee_bps,
        tiers,
        a.taker.state.volume_30d_quote_lots,
    ).1;
    let maker_bps = fee_rates(
        p.maker_rebate_bps,
        p.taker_fee_bps,
        tiers,
        a.maker.state.volume_30d_quote_lots,
    ).0;
    let rate = maker_bps + (if f.taker_was_jit {
        p.jit_bonus_rebate_bps as int
    } else {
        0
    });
    law_maker_rebate_within_taker_fee(
        notional as int,
        taker_bps as int,
        a.taker.state.fee_discount_bps as int,
        rate,
    );
}

/// Whatever is realized on an isolated position, the trader's pool is not
/// touched.
pub proof fn law_isolated_result_spares_pool(delta: int, iso: u64, cross: u64)
    requires
        pnl_routing(delta, true, iso, cross) is Ok,
    ensures
        pnl_routing(delta, true, iso, cross)->Ok_0.1 == cross,
{
}

/// A loss on an isolated position is always absorbed: it takes what the position
/// has and no more.
pub proof fn law_isolated_loss_truncates(delta: int, iso: u64, cross: u64)
    requires
        delta <= 0,
    ensures
        pnl_routing(delta, true, iso, cross) == Ok::<(u64, u64), FlashBookError>(
            (max_int(iso + delta, 0) as u64, cross),
        ),
{
}

/// Deleveraging touches only the bucket that backs the position, on either side.
pub proof fn law_adl_spares_other_bucket(isolated: bool, amount: u64, pos: u64, pool: u64)
    ensures
        isolated ==> adl_loss(isolated, amount, pos, pool).1 == pool,
        !isolated ==> adl_loss(isolated, amount, pos, pool).0 == pos,
        adl_gain(isolated, amount, pos, pool) matches Ok((p, q)) ==> if isolated {
            q == pool
        } else {
            p == pos
        },
{
}

/// With a haircut state a realized gain moves no collateral.
pub proof fn law_haircut_gain_moves_no_collateral(
    p: FillParty,
    delta: int,
    isolated: bool,
    release: Release,
)
    requires
        delta > 0,
        p.haircut is Some,
        pnl_settled(p, delta, isolated, release) is Ok,
    ensures
        party_money(pnl_settled(p, delta, isolated, release)->Ok_0) == party_money(p),
{
}

} // verus!
