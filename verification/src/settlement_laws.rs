//! What settling a fill comes down to: who pays whom how much, and what the two
//! positions become.
use vstd::prelude::*;

use crate::collateral_laws::lemma_worth_of_one;
use crate::errors::FlashBookError;
use crate::fees::{
    FillFees, compute_fee_share, compute_fill_fees, compute_insurance_contribution,
    compute_rebate_paid, compute_toxicity_tax, fees_for_fill, law_tax_split_conserves, split_tax,
    toxicity_tax,
};
use crate::fill_laws::lemma_share_within;
use crate::keys::Pubkey;
use crate::mark::law_mark_moves_towards_fill;
use crate::math::{max_int, min_int};
use crate::pda::{key_bytes, program_address};
use crate::pool_laws::{lemma_product, lemma_rounds_down};
use crate::position_laws::{earns_row, filled_into, lemma_filled_into, lemma_rows_reached};
use crate::settlement::{
    ApplyFill, Fill, FillParty, FillReport, Release, apply_fill, apply_realized_pnl_delta_v2,
    charge_fees, compute_fees_of_fill, creator_owed, fees_charged, fees_of_fill, fill_settled,
    notional_of, positions_moved, referral_owed, settle_fill, tax_charged, volume_counted,
};
use crate::state::{
    FeeTier, MarketAccount, PositionAccount, TraderStateAccount, opposite_side, side_of_byte,
};
use crate::tiers::{fee_rates, tiers_reached};

verus! {

/// What each side of a fill of the given worth pays and is paid, at ordinary numbers.
/// The taker's fee is its rate less its discount; beyond a full discount, up to a fifth
/// of the fee is a rebate. A maker at a positive rate is paid no more than the taker
/// pays; at a negative rate it pays.
pub open spec fn agreed_fees(f: FillFees, worth: int, taker_bps: int, discount: int, rate: int) -> bool {
    let base = worth * taker_bps / 10_000;
    let d = if discount > 12_000 {
        12_000
    } else {
        discount
    };
    let earned = worth * rate / 10_000;
    &&& d <= 10_000 ==> f.taker_rebate == 0 && f.taker_fee * 10_000 <= base * (10_000 - d) < (
    f.taker_fee + 1) * 10_000
    &&& d > 10_000 ==> f.taker_fee == 0 && f.taker_rebate * 10_000 <= base * (d - 10_000) < (
    f.taker_rebate + 1) * 10_000
    &&& rate >= 0 ==> f.maker_fee == 0 && f.maker_rebate == (if earned <= f.taker_fee {
        earned
    } else {
        f.taker_fee as int
    })
    &&& rate < 0 ==> f.maker_rebate == 0 && f.maker_fee == worth * (-rate) / 10_000
    &&& f.net_fee == f.taker_fee + f.maker_fee - f.maker_rebate
}

/// Fees at ordinary numbers are the agreed ones.
pub proof fn lemma_agreed_fees(worth: u128, taker_bps: u32, discount: u32, rate: int)
    requires
        worth <= u64::MAX,
        taker_bps <= 10_000,
        -10_000 <= rate <= 10_000,
        fees_for_fill(worth as int, taker_bps as int, discount as int, rate).taker_fee
            + fees_for_fill(worth as int, taker_bps as int, discount as int, rate).maker_fee
            <= u64::MAX,
    ensures
        agreed_fees(
            fees_for_fill(worth as int, taker_bps as int, discount as int, rate),
            worth as int,
            taker_bps as int,
            discount as int,
            rate,
        ),
{
    let w = worth as int;
    let t = taker_bps as int;
    lemma_product(w, t);
    assert(w * t <= w * 10_000) by (nonlinear_arith)
        requires
            w >= 0,
            t <= 10_000,
    ;
    let base = w * t / 10_000;
    assert(0 <= base <= w);
    let d = min_int(discount as int, 12_000);
    let kept = max_int(10_000 - d, 0);
    let extra = max_int(d - 10_000, 0);
    lemma_product(base, kept);
    lemma_product(base, extra);
    assert(base * kept <= base * 10_000 && base * extra <= base * 10_000) by (nonlinear_arith)
        requires
            base >= 0,
            kept <= 10_000,
            extra <= 10_000,
    ;
    assert(base * 0 == 0 && w * 0 == 0);
    lemma_rounds_down(base * kept, 10_000);
    lemma_rounds_down(base * extra, 10_000);
    let up = max_int(rate, 0);
    let down = max_int(-rate, 0);
    lemma_product(w, up);
    lemma_product(w, down);
    assert(w * up <= w * 10_000 && w * down <= w * 10_000) by (nonlinear_arith)
        requires
            w >= 0,
            up <= 10_000,
            down <= 10_000,
    ;
}

/// The fees of a fill are the agreed ones.
pub proof fn law_fees_are_as_agreed(
    worth: u128,
    taker_bps: u32,
    discount: u32,
    rate: i64,
    r: FillFees,
)
    requires
        call_ensures(compute_fill_fees, (worth, taker_bps, discount, rate), r),
        worth <= u64::MAX,
        taker_bps <= 10_000,
        -10_000 <= rate <= 10_000,
        r.taker_fee + r.maker_fee <= u64::MAX,
    ensures
        agreed_fees(r, worth as int, taker_bps as int, discount as int, rate as int),
{
    lemma_agreed_fees(worth, taker_bps, discount, rate as int);
}

/// The part of a fee that falls to the insurance fund or a third party is its share of
/// it, rounded down; of the fund's share, what the taker's rebate takes is gone first.
pub proof fn law_shares_of_a_fee(
    net_fee: u64,
    bps: u32,
    rebate: u128,
    share: u64,
    paid: u64,
    contribution: u64,
)
    requires
        bps <= 10_000,
        call_ensures(compute_fee_share, (net_fee, bps), share),
        call_ensures(compute_rebate_paid, (net_fee, bps, rebate), paid),
        call_ensures(compute_insurance_contribution, (net_fee, bps, rebate), contribution),
    ensures
        share * 10_000 <= net_fee * bps < (share + 1) * 10_000,
        paid + contribution == share,
        paid <= rebate,
        contribution > 0 ==> paid == rebate,
{
    lemma_share_within(net_fee, bps);
    lemma_product(net_fee as int, bps as int);
    lemma_rounds_down(net_fee * bps, 10_000);
}

/// The toxicity tax is the market's rate on the worth of the fill, scaled by the
/// signal, and never more than the taker's pool holds. All of it goes to the fund and
/// the maker, the fund's part being its share.
pub proof fn law_tax_is_in_proportion(
    worth: u128,
    max_bps: u32,
    vpin_bps: u32,
    available: u64,
    share_bps: u32,
    tax: u64,
    parts: (u64, u64),
)
    requires
        worth <= u64::MAX,
        max_bps <= 10_000,
        vpin_bps <= 10_000,
        share_bps <= 10_000,
        call_ensures(compute_toxicity_tax, (worth, max_bps, vpin_bps, available), tax),
        call_ensures(split_tax, (tax, share_bps), parts),
    ensures
        ({
            let due = worth * max_bps * vpin_bps / 100_000_000;
            tax == if due <= available {
                due
            } else {
                available as int
            }
        }),
        parts.0 + parts.1 == tax,
        parts.0 * 10_000 <= tax * share_bps < (parts.0 + 1) * 10_000,
{
    lemma_tax(worth, max_bps, vpin_bps, available);
    law_tax_split_conserves(tax, share_bps);
    lemma_share_within(tax, share_bps);
    lemma_product(tax as int, share_bps as int);
    lemma_rounds_down(tax * share_bps, 10_000);
}

/// The tax at ordinary numbers.
pub proof fn lemma_tax(worth: u128, max_bps: u32, vpin_bps: u32, available: u64)
    requires
        worth <= u64::MAX,
        max_bps <= 10_000,
        vpin_bps <= 10_000,
    ensures
        ({
            let due = worth * max_bps * vpin_bps / 100_000_000;
            &&& due >= 0
            &&& toxicity_tax(worth as int, max_bps as int, vpin_bps as int, available) == if due
                <= available {
                due
            } else {
                available as int
            }
        }),
{
    let w = worth as int;
    let a = max_bps as int;
    let b = vpin_bps as int;
    lemma_product(w, a);
    let x = w * a;
    assert(x <= w * 10_000) by (nonlinear_arith)
        requires
            x == w * a,
            w >= 0,
            a <= 10_000,
    ;
    lemma_product(x, b);
    assert(x * b <= x * 10_000) by (nonlinear_arith)
        requires
            x >= 0,
            b <= 10_000,
    ;
    assert(x * b / 10_000 / 10_000 == x * b / 100_000_000);
}

/// The numbers of a fill that the laws below speak of: two pooled positions without
/// haircut, at rates of at most all.
pub open spec fn ordinary(a: ApplyFill, f: Fill) -> bool {
    let k = a.market.params;
    &&& f.size_lots * f.price_ticks * k.tick_size <= u64::MAX / 2
    &&& k.taker_fee_bps <= 10_000
    &&& -10_000 <= k.maker_rebate_bps && k.maker_rebate_bps + k.jit_bonus_rebate_bps <= 10_000
    &&& k.toxicity_tax_max_bps <= 10_000 && a.market.vpin_bps <= 10_000
    &&& a.insurance_fund.fee_contribution_bps <= 10_000
    &&& a.insurance_fund.toxicity_tax_contribution_bps <= 10_000
    &&& a.taker.haircut is None && a.maker.haircut is None
    &&& a.taker.position.collateral_quote_lots == 0 && a.maker.position.collateral_quote_lots == 0
}

/// The account of one settled fill between pooled positions: the fees are the agreed
/// ones at the rates of the market, the tax is taken after them, and each side's pool
/// ends with what it had, less what it paid, plus what it was paid and what the fill
/// realized for it. The fund gets its share of fee and tax, the market counts both.
pub open spec fn settled_between(a: ApplyFill, f: Fill, b: ApplyFill, rep: FillReport, fees: FillFees) -> bool {
    let k = a.market.params;
    let worth = f.size_lots * f.price_ticks * k.tick_size;
    let rate = k.maker_rebate_bps + (if f.taker_was_jit {
        k.jit_bonus_rebate_bps as int
    } else {
        0
    });
    let share = fees.net_fee * a.insurance_fund.fee_contribution_bps / 10_000;
    let back = if fees.taker_rebate <= share {
        fees.taker_rebate as int
    } else {
        share
    };
    let after_fees = a.taker.state.collateral_quote_lots - fees.taker_fee + back;
    let due = worth * k.toxicity_tax_max_bps * a.market.vpin_bps / 100_000_000;
    let tax = if due <= after_fees {
        due
    } else {
        after_fees
    };
    let to_fund = tax * a.insurance_fund.toxicity_tax_contribution_bps / 10_000;
    &&& agreed_fees(
        fees,
        worth,
        k.taker_fee_bps as int,
        a.taker.state.fee_discount_bps as int,
        rate,
    )
    &&& b.taker.state.collateral_quote_lots == after_fees - tax
        + b.taker.position.realized_pnl_quote_lots - a.taker.position.realized_pnl_quote_lots
    &&& b.maker.state.collateral_quote_lots == a.maker.state.collateral_quote_lots
        + fees.maker_rebate - fees.maker_fee + (tax - to_fund)
        + b.maker.position.realized_pnl_quote_lots - a.maker.position.realized_pnl_quote_lots
    &&& b.taker.position.collateral_quote_lots == 0 && b.maker.position.collateral_quote_lots == 0
    &&& b.insurance_fund.balance_quote_lots == a.insurance_fund.balance_quote_lots + (share - back)
        + to_fund
    &&& b.market.total_fees_collected == a.market.total_fees_collected + fees.net_fee
    &&& b.market.total_toxicity_tax_collected == a.market.total_toxicity_tax_collected + tax
    &&& rep.tax is Some <==> tax > 0
    &&& rep.tax matches Some(e) ==> e.tax_quote_lots == tax && e.insurance_share == to_fund
        && e.maker_share == tax - to_fund && e.taker == a.taker.state.trader && e.maker
        == a.maker.state.trader
    &&& rep.referral matches Some(e) ==> e.amount_quote_lots == fees.net_fee * k.referrer_share_bps
        / 10_000 || k.referrer_share_bps > 10_000
    &&& rep.creator matches Some(e) ==> e.amount_quote_lots == fees.net_fee * k.creator_share_bps
        / 10_000 || k.creator_share_bps > 10_000
}

/// What moving the fees does to pooled sides.
pub proof fn lemma_fees_moved(a: ApplyFill, fees: FillFees)
    requires
        fees_charged(a, fees) is Ok,
        a.insurance_fund.fee_contribution_bps <= 10_000,
        a.taker.position.collateral_quote_lots == 0,
        a.maker.position.collateral_quote_lots == 0,
    ensures
        ({
            let b = fees_charged(a, fees)->Ok_0;
            let share = fees.net_fee * a.insurance_fund.fee_contribution_bps / 10_000;
            let back = min_int(fees.taker_rebate as int, share);
            &&& 0 <= share <= fees.net_fee
            &&& b.taker.position == a.taker.position && b.maker.position == a.maker.position
            &&& b.taker.haircut == a.taker.haircut && b.maker.haircut == a.maker.haircut
            &&& b.taker.state == (TraderStateAccount {
                collateral_quote_lots: (a.taker.state.collateral_quote_lots - fees.taker_fee
                    + back) as u64,
                ..a.taker.state
            })
            &&& 0 <= a.taker.state.collateral_quote_lots - fees.taker_fee + back <= u64::MAX
            &&& b.maker.state == (TraderStateAccount {
                collateral_quote_lots: (a.maker.state.collateral_quote_lots + fees.maker_rebate
                    - fees.maker_fee) as u64,
                ..a.maker.state
            })
            &&& 0 <= a.maker.state.collateral_quote_lots + fees.maker_rebate - fees.maker_fee
                <= u64::MAX
            &&& b.insurance_fund.balance_quote_lots == a.insurance_fund.balance_quote_lots + share
                - back
            &&& b.insurance_fund.toxicity_tax_contribution_bps
                == a.insurance_fund.toxicity_tax_contribution_bps
            &&& b.market == (MarketAccount {
                total_fees_collected: (a.market.total_fees_collected + fees.net_fee) as u64,
                ..a.market
            })
            &&& a.market.total_fees_collected + fees.net_fee <= u64::MAX
        }),
{
    lemma_share_within(fees.net_fee, a.insurance_fund.fee_contribution_bps);
}

/// What moving the tax does.
pub proof fn lemma_tax_moved(a: ApplyFill, notional: u128)
    requires
        tax_charged(a, notional) is Ok,
        a.insurance_fund.toxicity_tax_contribution_bps <= 10_000,
    ensures
        ({
            let b = tax_charged(a, notional)->Ok_0.0;
            let event = tax_charged(a, notional)->Ok_0.1;
            let tax = toxicity_tax(
                notional as int,
                a.market.params.toxicity_tax_max_bps as int,
                a.market.vpin_bps as int,
                a.taker.state.collateral_quote_lots,
            );
            let part = tax * a.insurance_fund.toxicity_tax_contribution_bps / 10_000;
            &&& 0 <= part <= tax <= a.taker.state.collateral_quote_lots
            &&& b.taker.position == a.taker.position && b.maker.position == a.maker.position
            &&& b.taker.haircut == a.taker.haircut && b.maker.haircut == a.maker.haircut
            &&& b.taker.state.collateral_quote_lots == a.taker.state.collateral_quote_lots - tax
            &&& b.maker.state.collateral_quote_lots == a.maker.state.collateral_quote_lots + tax
                - part
            &&& b.insurance_fund.balance_quote_lots == a.insurance_fund.balance_quote_lots + part
            &&& b.market == (MarketAccount {
                total_toxicity_tax_collected: (a.market.total_toxicity_tax_collected + tax) as u64,
                ..a.market
            })
            &&& a.market.total_toxicity_tax_collected + tax <= u64::MAX
            &&& event is Some <==> tax > 0
            &&& event matches Some(e) ==> e.tax_quote_lots == tax && e.insurance_share == part
                && e.maker_share == tax - part && e.taker == a.taker.state.trader && e.maker
                == a.maker.state.trader
        }),
{
    let tax = toxicity_tax(
        notional as int,
        a.market.params.toxicity_tax_max_bps as int,
        a.market.vpin_bps as int,
        a.taker.state.collateral_quote_lots,
    );
    law_tax_split_conserves(tax, a.insurance_fund.toxicity_tax_contribution_bps);
    lemma_share_within(tax, a.insurance_fund.toxicity_tax_contribution_bps);
    assert(tax * 0 == 0);
}

/// What moving pooled positions does to collateral.
pub proof fn lemma_results_moved(a: ApplyFill, f: Fill, t: Release, m: Release)
    requires
        positions_moved(a, f, t, m) is Ok,
        a.taker.haircut is None,
        a.maker.haircut is None,
        a.taker.position.collateral_quote_lots == 0,
        a.maker.position.collateral_quote_lots == 0,
    ensures
        ({
            let b = positions_moved(a, f, t, m)->Ok_0;
            &&& b.taker.state.collateral_quote_lots == a.taker.state.collateral_quote_lots
                + b.taker.position.realized_pnl_quote_lots
                - a.taker.position.realized_pnl_quote_lots
            &&& b.maker.state.collateral_quote_lots == a.maker.state.collateral_quote_lots
                + b.maker.position.realized_pnl_quote_lots
                - a.maker.position.realized_pnl_quote_lots
            &&& b.taker.position.collateral_quote_lots == 0
            &&& b.maker.position.collateral_quote_lots == 0
            &&& b.insurance_fund == a.insurance_fund
            &&& b.market == (MarketAccount {
                oi_long_lots: b.market.oi_long_lots,
                oi_short_lots: b.market.oi_short_lots,
                ..a.market
            })
        }),
{
}

/// The stages through which a settled fill goes.
pub open spec fn stages(
    a: ApplyFill,
    f: Fill,
    tiers: Seq<FeeTier>,
    now_slot: u64,
    window: u64,
    worth: u128,
) -> (ApplyFill, ApplyFill) {
    let b = fees_charged(a, fees_of_fill(a, f, tiers, worth))->Ok_0;
    let fee_bps = b.market.params.taker_fee_bps;
    let ts = volume_counted(b.taker.state, fee_bps, tiers, worth, now_slot, window).0;
    let ms = volume_counted(b.maker.state, fee_bps, tiers, worth, now_slot, window).0;
    (
        b,
        ApplyFill {
            taker: FillParty { state: ts, ..b.taker },
            maker: FillParty { state: ms, ..b.maker },
            ..b
        },
    )
}

/// A settled fill is its stages one after the other.
pub proof fn lemma_stages(
    a: ApplyFill,
    f: Fill,
    tiers: Seq<FeeTier>,
    now_slot: u64,
    window: u64,
    t: Release,
    m: Release,
)
    requires
        fill_settled(a, f, tiers, now_slot, window, t, m) is Ok,
    ensures
        ({
            let worth = notional_of(
                f.size_lots as int,
                f.price_ticks as int,
                a.market.params.tick_size as int,
            )->Ok_0;
            let fees = fees_of_fill(a, f, tiers, worth);
            let (b, c) = stages(a, f, tiers, now_slot, window, worth);
            let (h, rep) = fill_settled(a, f, tiers, now_slot, window, t, m)->Ok_0;
            let d = tax_charged(c, worth)->Ok_0.0;
            let g = positions_moved(d, f, t, m)->Ok_0;
            &&& notional_of(
                f.size_lots as int,
                f.price_ticks as int,
                a.market.params.tick_size as int,
            ) is Ok
            &&& fees_charged(a, fees) is Ok
            &&& tax_charged(c, worth) is Ok
            &&& positions_moved(d, f, t, m) is Ok
            &&& h.taker == g.taker && h.maker == g.maker && h.insurance_fund == g.insurance_fund
            &&& h.market == (MarketAccount {
                mark_price_ticks: h.market.mark_price_ticks,
                ..g.market
            })
            &&& rep.tax == tax_charged(c, worth)->Ok_0.1
            &&& rep.referral == referral_owed(b.market, b.taker.state, fees.net_fee)
            &&& rep.creator == creator_owed(b.market_key, b.market, fees.net_fee)
            &&& c.taker.state.collateral_quote_lots == b.taker.state.collateral_quote_lots
            &&& c.maker.state.collateral_quote_lots == b.maker.state.collateral_quote_lots
            &&& c.taker.state.trader == b.taker.state.trader && c.maker.state.trader
                == b.maker.state.trader
        }),
{
}

/// A settled fill pays each party exactly what the fees, the tax and its result come to.
pub proof fn law_settled_fill_pays_each_party(
    a: &mut ApplyFill,
    f: Fill,
    tiers: &Vec<FeeTier>,
    now_slot: u64,
    window: u64,
    taker_release: Release,
    maker_release: Release,
    r: Result<FillReport, FlashBookError>,
)
    requires
        tiers@.len() == 0,
        ordinary(*old(a), f),
        call_ensures(
            settle_fill,
            (a, f, tiers, now_slot, window, taker_release, maker_release),
            r,
        ),
        r is Ok,
    ensures
        exists|fees: FillFees| #[trigger]
            settled_between(*old(a), f, *final(a), r->Ok_0, fees),
{
    let fees = lemma_pays_each_party(
        *old(a),
        f,
        tiers@,
        now_slot,
        window,
        taker_release,
        maker_release,
    );
    assert(settled_between(*old(a), f, *final(a), r->Ok_0, fees));
}

/// The same of the outcome itself.
#[verifier::rlimit(60)]
pub proof fn lemma_pays_each_party(
    x: ApplyFill,
    f: Fill,
    tiers: Seq<FeeTier>,
    now_slot: u64,
    window: u64,
    t: Release,
    m: Release,
) -> (fees: FillFees)
    requires
        tiers.len() == 0,
        ordinary(x, f),
        fill_settled(x, f, tiers, now_slot, window, t, m) is Ok,
    ensures
        ({
            let s = fill_settled(x, f, tiers, now_slot, window, t, m)->Ok_0;
            settled_between(x, f, s.0, s.1, fees)
        }),
{
    lemma_stages(x, f, tiers, now_slot, window, t, m);
    let k = x.market.params;
    lemma_worth_of_one(f.size_lots, f.price_ticks, k.tick_size);
    let worth = (f.size_lots * f.price_ticks * k.tick_size) as u128;
    let fees = fees_of_fill(x, f, tiers, worth);
    let rate = k.maker_rebate_bps + (if f.taker_was_jit {
        k.jit_bonus_rebate_bps as int
    } else {
        0
    });
    assert(fees == fees_for_fill(
        worth as int,
        k.taker_fee_bps as int,
        x.taker.state.fee_discount_bps as int,
        rate,
    ));
    lemma_small_fees(worth, k.taker_fee_bps, x.taker.state.fee_discount_bps, rate);
    lemma_agreed_fees(worth, k.taker_fee_bps, x.taker.state.fee_discount_bps, rate);
    lemma_fees_moved(x, fees);
    let (b, c) = stages(x, f, tiers, now_slot, window, worth);
    lemma_tax_moved(c, worth);
    lemma_tax(
        worth,
        k.toxicity_tax_max_bps,
        x.market.vpin_bps,
        c.taker.state.collateral_quote_lots,
    );
    let d = tax_charged(c, worth)->Ok_0.0;
    lemma_results_moved(d, f, t, m);
    if k.referrer_share_bps <= 10_000 {
        lemma_share_within(fees.net_fee, k.referrer_share_bps);
    }
    if k.creator_share_bps <= 10_000 {
        lemma_share_within(fees.net_fee, k.creator_share_bps);
    }
    fees
}

/// Fees at ordinary rates fit: one side pays at most the worth of the fill, and of the
/// two only one does where the maker's rate is not negative.
pub proof fn lemma_small_fees(worth: u128, taker_bps: u32, discount: u32, rate: int)
    requires
        worth <= u64::MAX / 2,
        taker_bps <= 10_000,
        -10_000 <= rate <= 10_000,
    ensures
        ({
            let f = fees_for_fill(worth as int, taker_bps as int, discount as int, rate);
            f.taker_fee + f.maker_fee <= u64::MAX
        }),
{
    let w = worth as int;
    let t = taker_bps as int;
    lemma_product(w, t);
    assert(w * t <= w * 10_000) by (nonlinear_arith)
        requires
            w >= 0,
            t <= 10_000,
    ;
    let base = w * t / 10_000;
    let d = min_int(discount as int, 12_000);
    let kept = max_int(10_000 - d, 0);
    lemma_product(base, kept);
    assert(base * kept <= base * 10_000) by (nonlinear_arith)
        requires
            base >= 0,
            kept <= 10_000,
    ;
    let down = max_int(-rate, 0);
    lemma_product(w, down);
    assert(w * down <= w * 10_000) by (nonlinear_arith)
        requires
            w >= 0,
            down <= 10_000,
    ;
}

/// A settled fill moves both positions by its lots, in opposite directions, at its
/// price. Open interest and the counts of open positions follow, and what happened is
/// reported.
pub proof fn law_settled_fill_moves_both_positions(
    a: &mut ApplyFill,
    f: Fill,
    tiers: &Vec<FeeTier>,
    now_slot: u64,
    window: u64,
    taker_release: Release,
    maker_release: Release,
    r: Result<FillReport, FlashBookError>,
)
    requires
        tiers@.len() <= 256,
        call_ensures(
            settle_fill,
            (a, f, tiers, now_slot, window, taker_release, maker_release),
            r,
        ),
        r is Ok,
        old(a).taker.position.market != (Pubkey { hi: 0, lo: 0 }),
        old(a).maker.position.market != (Pubkey { hi: 0, lo: 0 }),
    ensures
        ({
            let x = *old(a);
            let y = *final(a);
            let buys = f.taker_side == 0;
            let index = x.market.cum_funding_index;
            let tp = PositionAccount {
                collateral_quote_lots: x.taker.position.collateral_quote_lots,
                ..y.taker.position
            };
            let mp = PositionAccount {
                collateral_quote_lots: x.maker.position.collateral_quote_lots,
                ..y.maker.position
            };
            let e = r->Ok_0.fill;
            &&& filled_into(x.taker.position, tp, buys, f.size_lots, f.price_ticks, index)
            &&& filled_into(x.maker.position, mp, !buys, f.size_lots, f.price_ticks, index)
            &&& e.market == x.market_key && e.taker == x.taker.state.trader && e.maker
                == x.maker.state.trader && e.taker_side == f.taker_side && e.size_lots
                == f.size_lots && e.price_ticks == f.price_ticks && e.batch_num
                == x.market.current_batch
            &&& y.market.params == x.market.params && y.market.oracle_price_ticks
                == x.market.oracle_price_ticks && y.market.cum_funding_index
                == x.market.cum_funding_index && y.market.status == x.market.status
            &&& opened_or_closed(
                x.taker.state.open_positions,
                y.taker.state.open_positions,
                x.taker.position.size_lots,
                y.taker.position.size_lots,
            )
            &&& opened_or_closed(
                x.maker.state.open_positions,
                y.maker.state.open_positions,
                x.maker.position.size_lots,
                y.maker.position.size_lots,
            )
        }),
{
    let x = *old(a);
    let notional = notional_of(
        f.size_lots as int,
        f.price_ticks as int,
        x.market.params.tick_size as int,
    )->Ok_0;
    let b = fees_charged(x, fees_of_fill(x, f, tiers@, notional))->Ok_0;
    let fee_bps = b.market.params.taker_fee_bps;
    let ts = volume_counted(b.taker.state, fee_bps, tiers@, notional, now_slot, window).0;
    let ms = volume_counted(b.maker.state, fee_bps, tiers@, notional, now_slot, window).0;
    let c = ApplyFill {
        taker: FillParty { state: ts, ..b.taker },
        maker: FillParty { state: ms, ..b.maker },
        ..b
    };
    let d = tax_charged(c, notional)->Ok_0.0;
    let side = side_of_byte(f.taker_side);
    let index = x.market.cum_funding_index;
    lemma_filled_into(d.taker.position, side, f.size_lots, f.price_ticks, index);
    lemma_filled_into(
        d.maker.position,
        opposite_side(side),
        f.size_lots,
        f.price_ticks,
        index,
    );
    assert(d.taker.position == (PositionAccount {
        collateral_quote_lots: d.taker.position.collateral_quote_lots,
        ..x.taker.position
    }));
    assert(d.maker.position == (PositionAccount {
        collateral_quote_lots: d.maker.position.collateral_quote_lots,
        ..x.maker.position
    }));
}

/// A trader's count of open positions goes up by one that opens and down by one that
/// closes.
pub open spec fn opened_or_closed(before: u8, after: u8, size_before: u64, size_after: u64) -> bool {
    &&& (size_before > 0) == (size_after > 0) ==> after == before
    &&& size_before == 0 && size_after > 0 && before < 255 ==> after == before + 1
    &&& size_before > 0 && size_after == 0 && before > 0 ==> after == before - 1
}

/// Only the market's sequencer settles a fill, of a size and a price, between the two
/// trader accounts whose addresses the sub-accounts determine. Where a fill is refused
/// nothing changes.
pub proof fn law_fill_is_the_sequencers(
    a: &mut ApplyFill,
    f: Fill,
    taker_sub: u8,
    maker_sub: u8,
    seed: &Vec<u8>,
    program_id: Pubkey,
    tiers: &Vec<FeeTier>,
    now_slot: u64,
    window: u64,
    taker_release: Release,
    maker_release: Release,
    r: Result<FillReport, FlashBookError>,
)
    requires
        tiers@.len() <= 256,
        call_ensures(
            apply_fill,
            (
                a,
                f,
                taker_sub,
                maker_sub,
                seed,
                program_id,
                tiers,
                now_slot,
                window,
                taker_release,
                maker_release,
            ),
            r,
        ),
    ensures
        r is Err ==> *final(a) == *old(a),
        r is Ok ==> {
            let x = *old(a);
            &&& x.sequencer == x.market.sequencer
            &&& f.size_lots > 0 && f.price_ticks > 0 && f.taker_side <= 1
            &&& x.market_haircut matches Some(h) ==> h.market == x.market_key
            &&& x.taker.haircut matches Some(h) ==> h.market == x.market_key && h.position
                == x.taker.position_key
            &&& x.maker.haircut matches Some(h) ==> h.market == x.market_key && h.position
                == x.maker.position_key
            &&& program_address(
                account_seeds(seed@, x.taker.state, taker_sub),
                program_id,
            ) == Some(x.taker.state_key)
            &&& program_address(
                account_seeds(seed@, x.maker.state, maker_sub),
                program_id,
            ) == Some(x.maker.state_key)
        },
{
}

/// The seeds of a trader's account: its owner, the index of a sub-account, the bump.
pub open spec fn account_seeds(seed: Seq<u8>, s: TraderStateAccount, sub: u8) -> Seq<Seq<u8>> {
    if sub == 0 {
        seq![seed, key_bytes(s.trader), seq![s.bump]]
    } else {
        seq![seed, key_bytes(s.trader), seq![sub], seq![s.bump]]
    }
}

/// A gain goes into a position's reserve where it has one, and moves no collateral;
/// everything else moves collateral at once.
pub proof fn law_gain_waits_in_reserve(
    p: FillParty,
    delta: i128,
    isolated: bool,
    release: Release,
    r: Result<FillParty, FlashBookError>,
)
    requires
        call_ensures(apply_realized_pnl_delta_v2, (p, delta, isolated, release), r),
        -(u64::MAX as int) <= delta <= u64::MAX,
    ensures
        delta > 0 && p.haircut is Some ==> (r is Ok <==> release is Ok),
        r matches Ok(q) ==> {
            &&& delta > 0 && p.haircut is Some ==> q.position == p.position && q.state == p.state
                && q.haircut is Some && q.haircut->0.released_reserve_quote_lots
                == release->Ok_0.released_reserve_quote_lots && q.haircut->0.matured_pos_quote_lots
                == release->Ok_0.matured_pos_quote_lots && q.haircut->0.position
                == p.haircut->0.position
            &&& !(delta > 0 && p.haircut is Some) ==> q.haircut == p.haircut && (if isolated {
                q.state == p.state && q.position.collateral_quote_lots == (if
                p.position.collateral_quote_lots + delta < 0 {
                    0
                } else {
                    p.position.collateral_quote_lots + delta
                })
            } else {
                q.position == p.position && q.state.collateral_quote_lots
                    == p.state.collateral_quote_lots + delta
            })
        },
{
}

/// The rates of one side: those of the row that its volume before the fill earns, else
/// the market's.
pub open spec fn rates_before(m: MarketAccount, tiers: Seq<FeeTier>, volume: u64, maker: int, taker: int) -> bool {
    if tiers.len() == 0 || volume < tiers[0].min_volume_quote_lots {
        maker == m.params.maker_rebate_bps && taker == m.params.taker_fee_bps
    } else {
        exists|k: int| #[trigger]
            earns_row(tiers, volume, k) && maker == tiers[k].maker_rebate_bps && taker
                == tiers[k].taker_fee_bps
    }
}

/// The rates that a volume earns.
pub proof fn lemma_rates_before(m: MarketAccount, tiers: Seq<FeeTier>, volume: u64)
    ensures
        ({
            let r = fee_rates(m.params.maker_rebate_bps, m.params.taker_fee_bps, tiers, volume);
            rates_before(m, tiers, volume, r.0 as int, r.1 as int)
        }),
{
    lemma_rows_reached(tiers, volume, 0);
    let n = tiers_reached(tiers, volume, 0);
    if n > 0 {
        assert(earns_row(tiers, volume, n - 1));
    }
}

/// The taker pays by the row that its own volume earned before this fill, the maker is
/// paid by its own; a fill against a just-in-time order adds the market's bonus to the
/// maker's rate.
pub proof fn law_each_side_has_its_own_rate(
    a: &ApplyFill,
    f: Fill,
    tiers: &Vec<FeeTier>,
    worth: u128,
    r: FillFees,
)
    requires
        call_ensures(compute_fees_of_fill, (a, f, tiers, worth), r),
        worth <= u64::MAX / 2,
        a.market.params.taker_fee_bps <= 10_000,
        -10_000 <= a.market.params.maker_rebate_bps <= 5_000,
        a.market.params.jit_bonus_rebate_bps <= 5_000,
        forall|k: int|
            0 <= k < tiers@.len() ==> (#[trigger] tiers@[k]).taker_fee_bps <= 10_000 && -10_000
                <= tiers@[k].maker_rebate_bps <= 5_000,
    ensures
        exists|tm: int, tt: int, mm: int, mt: int|
            #![trigger rates_before(a.market, tiers@, a.taker.state.volume_30d_quote_lots, tm, tt),
                rates_before(a.market, tiers@, a.maker.state.volume_30d_quote_lots, mm, mt)]
            rates_before(a.market, tiers@, a.taker.state.volume_30d_quote_lots, tm, tt)
                && rates_before(a.market, tiers@, a.maker.state.volume_30d_quote_lots, mm, mt)
                && agreed_fees(
                r,
                worth as int,
                tt,
                a.taker.state.fee_discount_bps as int,
                mm + (if f.taker_was_jit {
                    a.market.params.jit_bonus_rebate_bps as int
                } else {
                    0
                }),
            ),
{
    let k = a.market.params;
    let t = fee_rates(
        k.maker_rebate_bps,
        k.taker_fee_bps,
        tiers@,
        a.taker.state.volume_30d_quote_lots,
    );
    let m = fee_rates(
        k.maker_rebate_bps,
        k.taker_fee_bps,
        tiers@,
        a.maker.state.volume_30d_quote_lots,
    );
    lemma_rows_reached(tiers@, a.taker.state.volume_30d_quote_lots, 0);
    lemma_rows_reached(tiers@, a.maker.state.volume_30d_quote_lots, 0);
    lemma_rates_before(a.market, tiers@, a.taker.state.volume_30d_quote_lots);
    lemma_rates_before(a.market, tiers@, a.maker.state.volume_30d_quote_lots);
    let rate = m.0 + (if f.taker_was_jit {
        k.jit_bonus_rebate_bps as int
    } else {
        0
    });
    lemma_small_fees(worth, t.1, a.taker.state.fee_discount_bps, rate);
    lemma_agreed_fees(worth, t.1, a.taker.state.fee_discount_bps, rate);
}

/// Fees move between buckets: an isolated position pays and is paid through its own, a
/// pooled one through the trader's pool, and the other bucket of each side stays.
pub proof fn law_fees_move_between_buckets(
    a: ApplyFill,
    fees: FillFees,
    r: Result<ApplyFill, FlashBookError>,
)
    requires
        call_ensures(charge_fees, (a, fees), r),
        a.insurance_fund.fee_contribution_bps <= 10_000,
        r is Ok,
    ensures
        ({
            let b = r->Ok_0;
            let share = fees.net_fee * a.insurance_fund.fee_contribution_bps / 10_000;
            let back = if fees.taker_rebate <= share {
                fees.taker_rebate as int
            } else {
                share
            };
            let t_iso = a.taker.position.collateral_quote_lots > 0;
            let m_iso = a.maker.position.collateral_quote_lots > 0;
            let t = back - fees.taker_fee;
            let m = fees.maker_rebate - fees.maker_fee;
            &&& b.taker.position.collateral_quote_lots == a.taker.position.collateral_quote_lots + (
            if t_iso {
                t
            } else {
                0
            })
            &&& b.taker.state.collateral_quote_lots == a.taker.state.collateral_quote_lots + (if
            t_iso {
                0
            } else {
                t
            })
            &&& b.maker.position.collateral_quote_lots == a.maker.position.collateral_quote_lots + (
            if m_iso {
                m
            } else {
                0
            })
            &&& b.maker.state.collateral_quote_lots == a.maker.state.collateral_quote_lots + (if
            m_iso {
                0
            } else {
                m
            })
            &&& b.insurance_fund.balance_quote_lots == a.insurance_fund.balance_quote_lots + share
                - back
            &&& b.market.total_fees_collected == a.market.total_fees_collected + fees.net_fee
        }),
{
    lemma_share_within(fees.net_fee, a.insurance_fund.fee_contribution_bps);
}

/// A fill that the sequencer reports is settled as any fill is: the same accounts and
/// the same report.
pub proof fn law_reported_fill_is_settled(
    a: &mut ApplyFill,
    b: &mut ApplyFill,
    f: Fill,
    taker_sub: u8,
    maker_sub: u8,
    seed: &Vec<u8>,
    program_id: Pubkey,
    tiers: &Vec<FeeTier>,
    now_slot: u64,
    window: u64,
    taker_release: Release,
    maker_release: Release,
    r: Result<FillReport, FlashBookError>,
    s: Result<FillReport, FlashBookError>,
)
    requires
        tiers@.len() <= 256,
        *old(a) == *old(b),
        call_ensures(
            apply_fill,
            (
                a,
                f,
                taker_sub,
                maker_sub,
                seed,
                program_id,
                tiers,
                now_slot,
                window,
                taker_release,
                maker_release,
            ),
            r,
        ),
        call_ensures(
            settle_fill,
            (b, f, tiers, now_slot, window, taker_release, maker_release),
            s,
        ),
        r is Ok,
    ensures
        s == r,
        *final(a) == *final(b),
{
}

/// Every fill in a market with a taker fee counts for both sides' volume and for
/// rewards; the mark follows the fill; and what third parties are owed is named.
pub proof fn law_settled_fill_counts_and_reports(
    a: &mut ApplyFill,
    f: Fill,
    tiers: &Vec<FeeTier>,
    now_slot: u64,
    window: u64,
    taker_release: Release,
    maker_release: Release,
    r: Result<FillReport, FlashBookError>,
)
    requires
        tiers@.len() <= 256,
        f.size_lots * f.price_ticks * old(a).market.params.tick_size <= u64::MAX,
        call_ensures(
            settle_fill,
            (a, f, tiers, now_slot, window, taker_release, maker_release),
            r,
        ),
        r is Ok,
    ensures
        ({
            let x = *old(a);
            let y = *final(a);
            let worth = f.size_lots * f.price_ticks * x.market.params.tick_size;
            let rep = r->Ok_0;
            let k = x.market.params;
            let nobody = Pubkey { hi: 0, lo: 0 };
            &&& k.taker_fee_bps > 0 ==> counted(x.taker.state, y.taker.state, worth, now_slot, window)
                && counted(x.maker.state, y.maker.state, worth, now_slot, window)
            &&& k.taker_fee_bps == 0 ==> y.taker.state.volume_30d_quote_lots
                == x.taker.state.volume_30d_quote_lots && y.maker.state.volume_30d_quote_lots
                == x.maker.state.volume_30d_quote_lots
            &&& rep.reward is Some <==> k.taker_fee_bps > 0
            &&& rep.reward matches Some(e) ==> e.notional_quote_lots == worth && e.taker
                == x.taker.state.trader && e.maker == x.maker.state.trader && e.taker_side
                == f.taker_side
            &&& rep.referral matches Some(e) ==> e.referrer == x.taker.state.referrer && e.referrer
                != nobody && e.taker == x.taker.state.trader && e.amount_quote_lots > 0
            &&& rep.builder matches Some(e) ==> e.builder == x.taker.state.builder && e.builder
                != nobody && x.taker.state.builder_max_fee_share_bps > 0 && e.amount_quote_lots > 0
            &&& rep.creator matches Some(e) ==> e.creator == x.market.creator && e.creator != nobody
            &&& rep.mark is Some <==> y.market.mark_price_ticks != x.market.mark_price_ticks
            &&& x.market.mark_price_ticks <= f.price_ticks ==> x.market.mark_price_ticks
                <= y.market.mark_price_ticks <= f.price_ticks
            &&& x.market.mark_price_ticks >= f.price_ticks ==> f.price_ticks
                <= y.market.mark_price_ticks <= x.market.mark_price_ticks
            &&& rep.taker_tier matches Some(e) ==> e.trader == x.taker.state.trader
                && e.volume_quote_lots == y.taker.state.volume_30d_quote_lots && e.new_tier_index
                != e.previous_tier_index
            &&& rep.maker_tier matches Some(e) ==> e.trader == x.maker.state.trader
                && e.volume_quote_lots == y.maker.state.volume_30d_quote_lots && e.new_tier_index
                != e.previous_tier_index
        }),
{
    let x = *old(a);
    lemma_worth_of_one(f.size_lots, f.price_ticks, x.market.params.tick_size);
    let worth = (f.size_lots * f.price_ticks * x.market.params.tick_size) as u128;
    lemma_rows_reached(tiers@, x.taker.state.volume_30d_quote_lots, 0);
    lemma_rows_reached(tiers@, x.maker.state.volume_30d_quote_lots, 0);
    lemma_rows_reached(tiers@, final(a).taker.state.volume_30d_quote_lots, 0);
    lemma_rows_reached(tiers@, final(a).maker.state.volume_30d_quote_lots, 0);
    lemma_stages(x, f, tiers@, now_slot, window, taker_release, maker_release);
    let (b, c) = stages(x, f, tiers@, now_slot, window, worth);
    let d = tax_charged(c, worth)->Ok_0.0;
    let g = positions_moved(d, f, taker_release, maker_release)->Ok_0;
    assert(g.market.mark_price_ticks == x.market.mark_price_ticks && g.market.params
        == x.market.params);
    law_mark_moves_towards_fill(g.market, f.price_ticks);
}

/// A trader's rolling volume after a fill of the given worth.
pub open spec fn counted(
    s: TraderStateAccount,
    t: TraderStateAccount,
    worth: int,
    now: u64,
    window: u64,
) -> bool {
    if s.volume_window_start_slot == 0 || now > s.volume_window_start_slot + window {
        t.volume_30d_quote_lots == worth && t.volume_window_start_slot == now
    } else {
        t.volume_window_start_slot == s.volume_window_start_slot && t.volume_30d_quote_lots == (if
        s.volume_30d_quote_lots + worth <= u64::MAX {
            s.volume_30d_quote_lots + worth
        } else {
            u64::MAX as int
        })
    }
}

} // verus!
