//! What fills against the pool, the questions to the margin engine and the views come
//! down to, in the fields of the accounts.
use vstd::prelude::*;

use crate::baskets::{BasketEntry, basket_positions, basket_question, projected};
use crate::collateral_laws::{all_shown_properly, lemma_walk_finds_faults, lemma_worth_of_one};
use crate::deleveraging::{AutoDeleverage, deleveraging_question};
use crate::errors::FlashBookError;
use crate::events::MarginThresholdCrossedEvent;
use crate::fees::{law_tax_split_conserves, toxicity_tax};
use crate::fill_laws::lemma_share_within;
use crate::flp::FlpModel;
use crate::flp_settlement::{
    ApplyFlpFill, FlpFillReport, apply_flp_fill, flp_fees, flp_fees_charged, flp_positions_moved,
    flp_signed, flp_tax_charged, law_flp_fill_adds_signed_size, settle_flp_fill,
};
use crate::keys::Pubkey;
use crate::margin_mode::{SetPositionMarginMode, margin_mode_question};
use crate::mark::emit_margin_threshold_if_crossed;
use crate::math::{max_int, sat_u64};
use crate::pda::program_address;
use crate::pool_laws::{lemma_product, lemma_rounds_down};
use crate::portfolio_liquidation::{
    LiquidatePortfolioV2, open_entries, portfolio_liquidation_question,
};
use crate::position_laws::{filled_into, lemma_filled_into};
use crate::risk::{Binding, Portfolio, PortfolioEntry, RiskMarketSnap, RiskPosSnap};
use crate::settlement::{Fill, FillParty, Release, notional_of};
use crate::settlement_laws::{account_seeds, lemma_tax, opened_or_closed};
use crate::state::{
    FeeTier, FlpExposureAccount, MarketAccount, PositionAccount, Side, TraderStateAccount,
    opposite_side, side_of_byte,
};

verus! {

/// The account of one settled fill between a pooled position and the pool, at the
/// market's own rates: the taker pays its fee and the tax, the pool gets its rebate and
/// the rest of the tax, the fund its shares.
pub open spec fn settled_with_pool(
    a: ApplyFlpFill,
    f: FlpModel,
    q: Fill,
    b: ApplyFlpFill,
    g: FlpModel,
) -> bool {
    let k = a.market.params;
    let worth = q.size_lots * q.price_ticks * k.tick_size;
    let fee = worth * k.taker_fee_bps / 10_000;
    let rebate = if k.maker_rebate_bps <= 0 {
        0
    } else {
        worth * k.maker_rebate_bps / 10_000
    };
    let net = fee - rebate;
    let share = net * a.insurance_fund.fee_contribution_bps / 10_000;
    let after_fee = a.taker.state.collateral_quote_lots - fee;
    let due = worth * k.toxicity_tax_max_bps * a.market.vpin_bps / 100_000_000;
    let tax = if due <= after_fee {
        due
    } else {
        after_fee
    };
    let to_fund = tax * a.insurance_fund.toxicity_tax_contribution_bps / 10_000;
    &&& net >= 0 && after_fee >= 0
    &&& b.taker.state.collateral_quote_lots == after_fee - tax
        + b.taker.position.realized_pnl_quote_lots - a.taker.position.realized_pnl_quote_lots
    &&& g.total_capital_quote_lots == f.total_capital_quote_lots + rebate + tax - to_fund
    &&& g.lp_shares_outstanding == f.lp_shares_outstanding
    &&& b.insurance_fund.balance_quote_lots == a.insurance_fund.balance_quote_lots + share
        + to_fund
    &&& b.market.total_fees_collected == a.market.total_fees_collected + net
    &&& b.market.total_toxicity_tax_collected == a.market.total_toxicity_tax_collected + tax
}

/// What moving the fees of a fill against the pool does.
pub proof fn lemma_pool_fees_moved(a: ApplyFlpFill, f: FlpModel, fee: u64, rebate: u64)
    requires
        flp_fees_charged(a, f, fee, rebate) is Ok,
        rebate <= fee,
        a.insurance_fund.fee_contribution_bps <= 10_000,
    ensures
        ({
            let (b, g) = flp_fees_charged(a, f, fee, rebate)->Ok_0;
            let share = (fee - rebate) * a.insurance_fund.fee_contribution_bps / 10_000;
            &&& fee <= a.taker.state.collateral_quote_lots
            &&& b.taker == (FillParty {
                state: TraderStateAccount {
                    collateral_quote_lots: (a.taker.state.collateral_quote_lots - fee) as u64,
                    ..a.taker.state
                },
                ..a.taker
            })
            &&& g == (FlpModel {
                total_capital_quote_lots: (f.total_capital_quote_lots + rebate) as u64,
                ..f
            })
            &&& f.total_capital_quote_lots + rebate <= u64::MAX
            &&& b.insurance_fund.balance_quote_lots == a.insurance_fund.balance_quote_lots + share
            &&& b.insurance_fund.toxicity_tax_contribution_bps
                == a.insurance_fund.toxicity_tax_contribution_bps
            &&& b.market == (MarketAccount {
                total_fees_collected: (a.market.total_fees_collected + fee - rebate) as u64,
                ..a.market
            })
            &&& a.market.total_fees_collected + fee - rebate <= u64::MAX
            &&& b.market_key == a.market_key
        }),
{
    lemma_share_within((fee - rebate) as u64, a.insurance_fund.fee_contribution_bps);
}

/// What moving the tax of a fill against the pool does.
pub proof fn lemma_pool_tax_moved(a: ApplyFlpFill, f: FlpModel, worth: u128)
    requires
        flp_tax_charged(a, f, worth) is Ok,
        a.insurance_fund.toxicity_tax_contribution_bps <= 10_000,
    ensures
        ({
            let b = flp_tax_charged(a, f, worth)->Ok_0.0;
            let g = flp_tax_charged(a, f, worth)->Ok_0.1;
            let tax = toxicity_tax(
                worth as int,
                a.market.params.toxicity_tax_max_bps as int,
                a.market.vpin_bps as int,
                a.taker.state.collateral_quote_lots,
            );
            let part = tax * a.insurance_fund.toxicity_tax_contribution_bps / 10_000;
            &&& 0 <= part <= tax <= a.taker.state.collateral_quote_lots
            &&& b.taker.position == a.taker.position && b.taker.haircut == a.taker.haircut
            &&& b.taker.state.collateral_quote_lots == a.taker.state.collateral_quote_lots - tax
            &&& g == (FlpModel {
                total_capital_quote_lots: (f.total_capital_quote_lots + tax - part) as u64,
                ..f
            })
            &&& f.total_capital_quote_lots + tax - part <= u64::MAX
            &&& b.insurance_fund.balance_quote_lots == a.insurance_fund.balance_quote_lots + part
            &&& b.market == (MarketAccount {
                total_toxicity_tax_collected: (a.market.total_toxicity_tax_collected + tax) as u64,
                ..a.market
            })
            &&& a.market.total_toxicity_tax_collected + tax <= u64::MAX
        }),
{
    let tax = toxicity_tax(
        worth as int,
        a.market.params.toxicity_tax_max_bps as int,
        a.market.vpin_bps as int,
        a.taker.state.collateral_quote_lots,
    );
    law_tax_split_conserves(tax, a.insurance_fund.toxicity_tax_contribution_bps);
    lemma_share_within(tax, a.insurance_fund.toxicity_tax_contribution_bps);
    assert(tax * 0 == 0);
}

/// What moving the positions of a fill against the pool does to collateral.
pub proof fn lemma_pool_results_moved(a: ApplyFlpFill, f: FlpModel, q: Fill, release: Release)
    requires
        flp_positions_moved(a, f, q, release) is Ok,
        a.taker.haircut is None,
        a.taker.position.collateral_quote_lots == 0,
    ensures
        ({
            let (b, g) = flp_positions_moved(a, f, q, release)->Ok_0;
            &&& b.taker.state.collateral_quote_lots == a.taker.state.collateral_quote_lots
                + b.taker.position.realized_pnl_quote_lots
                - a.taker.position.realized_pnl_quote_lots
            &&& g.total_capital_quote_lots == f.total_capital_quote_lots
            &&& g.lp_shares_outstanding == f.lp_shares_outstanding
            &&& b.insurance_fund == a.insurance_fund
            &&& b.market == (MarketAccount {
                oi_long_lots: b.market.oi_long_lots,
                oi_short_lots: b.market.oi_short_lots,
                ..a.market
            })
        }),
{
}

/// A settled fill against the pool pays each party exactly what the fee, the tax and
/// its result come to.
#[verifier::rlimit(60)]
pub proof fn law_pool_fill_pays_each_party(
    a: &mut ApplyFlpFill,
    flp: &mut FlpExposureAccount,
    q: Fill,
    tiers: &Vec<FeeTier>,
    now_slot: u64,
    window: u64,
    release: Release,
    r: Result<FlpFillReport, FlashBookError>,
)
    requires
        tiers@.len() == 0,
        call_ensures(settle_flp_fill, (a, flp, q, tiers, now_slot, window, release), r),
        ({
            let k = old(a).market.params;
            &&& q.size_lots * q.price_ticks * k.tick_size <= u64::MAX
            &&& k.taker_fee_bps <= 10_000 && k.maker_rebate_bps <= 10_000
            &&& k.toxicity_tax_max_bps <= 10_000 && old(a).market.vpin_bps <= 10_000
            &&& old(a).insurance_fund.fee_contribution_bps <= 10_000
            &&& old(a).insurance_fund.toxicity_tax_contribution_bps <= 10_000
            &&& old(a).taker.haircut is None
            &&& old(a).taker.position.collateral_quote_lots == 0
        }),
    ensures
        r is Err ==> *final(a) == *old(a) && final(flp)@ == old(flp)@,
        r is Ok ==> settled_with_pool(*old(a), old(flp)@, q, *final(a), final(flp)@),
{
    if r is Ok {
        let x = *old(a);
        let f = old(flp)@;
        let k = x.market.params;
        lemma_worth_of_one(q.size_lots, q.price_ticks, k.tick_size);
        let worth = (q.size_lots * q.price_ticks * k.tick_size) as u128;
        let w = worth as int;
        let t = k.taker_fee_bps as int;
        let m = max_int(k.maker_rebate_bps as int, 0);
        lemma_product(w, t);
        lemma_product(w, m);
        assert(w * t <= w * 10_000 && w * m <= w * 10_000) by (nonlinear_arith)
            requires
                w >= 0,
                t <= 10_000,
                m <= 10_000,
        ;
        assert(w * 0 == 0);
        let (fee, rebate) = flp_fees(x, tiers@, worth);
        assert(fee == w * t / 10_000 && rebate == w * m / 10_000);
        lemma_pool_fees_moved(x, f, fee as u64, rebate as u64);
        let (b, g) = flp_fees_charged(x, f, fee as u64, rebate as u64)->Ok_0;
        lemma_pool_tax_moved(b, g, worth);
        lemma_tax(
            worth,
            k.toxicity_tax_max_bps,
            x.market.vpin_bps,
            b.taker.state.collateral_quote_lots,
        );
        let c = flp_tax_charged(b, g, worth)->Ok_0.0;
        let h = flp_tax_charged(b, g, worth)->Ok_0.1;
        lemma_pool_results_moved(c, h, q, release);
    }
}

/// A settled fill against the pool moves the taker's position by its lots, and what the
/// pool holds in the market the other way.
pub proof fn law_pool_fill_moves_both_sides(
    a: &mut ApplyFlpFill,
    flp: &mut FlpExposureAccount,
    q: Fill,
    tiers: &Vec<FeeTier>,
    now_slot: u64,
    window: u64,
    release: Release,
    r: Result<FlpFillReport, FlashBookError>,
)
    requires
        tiers@.len() <= 256,
        old(flp)@.wf(),
        call_ensures(settle_flp_fill, (a, flp, q, tiers, now_slot, window, release), r),
        r is Ok,
        old(a).taker.position.market != (Pubkey { hi: 0, lo: 0 }),
    ensures
        ({
            let x = *old(a);
            let y = *final(a);
            let buys = q.taker_side == 0;
            let tp = PositionAccount {
                collateral_quote_lots: x.taker.position.collateral_quote_lots,
                ..y.taker.position
            };
            &&& filled_into(
                x.taker.position,
                tp,
                buys,
                q.size_lots,
                q.price_ticks,
                x.market.cum_funding_index,
            )
            &&& flp_signed(final(flp)@.per_market, x.market_key) == flp_signed(
                old(flp)@.per_market,
                x.market_key,
            ) + (if buys {
                -(q.size_lots as int)
            } else {
                q.size_lots as int
            })
            &&& opened_or_closed(
                x.taker.state.open_positions,
                y.taker.state.open_positions,
                x.taker.position.size_lots,
                y.taker.position.size_lots,
            )
            &&& r->Ok_0.fill.size_lots == q.size_lots && r->Ok_0.fill.price_ticks == q.price_ticks
                && r->Ok_0.fill.taker == x.taker.state.trader && r->Ok_0.fill.taker_side
                == q.taker_side
        }),
{
    let x = *old(a);
    let f = old(flp)@;
    let worth = notional_of(
        q.size_lots as int,
        q.price_ticks as int,
        x.market.params.tick_size as int,
    )->Ok_0;
    let (fee, rebate) = flp_fees(x, tiers@, worth);
    let (b, g) = flp_fees_charged(x, f, sat_u64(fee) as u64, sat_u64(rebate) as u64)->Ok_0;
    let c = flp_tax_charged(b, g, worth)->Ok_0.0;
    let h = flp_tax_charged(b, g, worth)->Ok_0.1;
    let side = side_of_byte(q.taker_side);
    lemma_filled_into(
        c.taker.position,
        side,
        q.size_lots,
        q.price_ticks,
        x.market.cum_funding_index,
    );
    assert(c.taker.position == x.taker.position);
    assert(h.per_market == f.per_market);
    law_flp_fill_adds_signed_size(
        h,
        x.market_key,
        opposite_side(side),
        q.size_lots,
        q.price_ticks,
    );
}

/// A fill against the pool is the sequencer's to report, like any other.
pub proof fn law_pool_fill_is_the_sequencers(
    a: &mut ApplyFlpFill,
    flp: &mut FlpExposureAccount,
    q: Fill,
    sub: u8,
    seed: &Vec<u8>,
    program_id: Pubkey,
    tiers: &Vec<FeeTier>,
    now_slot: u64,
    window: u64,
    release: Release,
    r: Result<FlpFillReport, FlashBookError>,
)
    requires
        tiers@.len() <= 256,
        call_ensures(
            apply_flp_fill,
            (a, flp, q, sub, seed, program_id, tiers, now_slot, window, release),
            r,
        ),
    ensures
        r is Err ==> *final(a) == *old(a) && final(flp)@ == old(flp)@,
        r is Ok ==> old(a).sequencer == old(a).market.sequencer && q.size_lots > 0 && q.price_ticks
            > 0 && q.taker_side <= 1 && program_address(
            account_seeds(seed@, old(a).taker.state, sub),
            program_id,
        ) == Some(old(a).taker.state_key),
{
}

/// A position is shown to the margin engine as it is.
pub open spec fn shown_as(p: PositionAccount, collateral: u64, s: RiskPosSnap) -> bool {
    &&& s.market == p.market && s.size_lots == p.size_lots && s.entry_price_ticks
        == p.entry_price_ticks
    &&& s.side == (if p.side == 0 {
        Side::Long
    } else {
        Side::Short
    })
    &&& s.cum_funding_index_at_entry == p.cum_funding_index_at_entry && s.collateral_quote_lots
        == collateral
}

/// A market is shown to the margin engine at its mark.
pub open spec fn market_shown_as(key: Pubkey, m: MarketAccount, bps: u32, s: RiskMarketSnap) -> bool {
    &&& s.market == key && s.mark_price_ticks == m.mark_price_ticks && s.margin_bps == bps
    &&& s.cum_funding_index == m.cum_funding_index && s.tick_size == m.params.tick_size
    &&& s.concentration_threshold_lots == m.params.concentration_threshold_lots
        && s.concentration_extra_mmr_bps == m.params.concentration_extra_mmr_bps
}

/// An underwater position is judged at the mark, at maintenance margin.
pub proof fn law_deleveraging_question(a: &AutoDeleverage, r: (RiskPosSnap, RiskMarketSnap))
    requires
        call_ensures(deleveraging_question, (a,), r),
    ensures
        shown_as(a.underwater_position, a.underwater_position.collateral_quote_lots, r.0),
        market_shown_as(
            a.market_key,
            a.market,
            a.market.params.maintenance_margin_ratio_bps,
            r.1,
        ),
{
}

/// A change of margin mode is judged over all other positions and, unless it is flat,
/// the target with the collateral it would have.
pub proof fn law_margin_mode_question(
    a: &SetPositionMarginMode,
    es: &Vec<PortfolioEntry>,
    b: &Binding,
    collateral: u64,
    r: Result<Portfolio, FlashBookError>,
)
    requires
        call_ensures(margin_mode_question, (a, es, b, collateral), r),
    ensures
        r is Ok <==> all_shown_properly(
            es@,
            a.trader_state.trader,
            *b,
            Some(a.target_market_key),
        ),
        r matches Ok(p) ==> {
            let n = es@.len() as int;
            let open = a.target_position.size_lots > 0;
            &&& p.positions@.len() == n + (if open {
                1int
            } else {
                0
            }) && p.markets@.len() == p.positions@.len()
            &&& forall|k: int|
                0 <= k < n ==> shown_as(
                    (#[trigger] es@[k]).position,
                    es@[k].position.collateral_quote_lots,
                    p.positions@[k],
                ) && market_shown_as(
                    es@[k].market_key,
                    es@[k].market,
                    es@[k].market.params.maintenance_margin_ratio_bps,
                    p.markets@[k],
                )
            &&& open ==> shown_as(a.target_position, collateral, p.positions@[n])
                && market_shown_as(
                a.target_market_key,
                a.target_market,
                a.target_market.params.maintenance_margin_ratio_bps,
                p.markets@[n],
            )
        },
{
    lemma_walk_finds_faults(
        es@,
        0,
        a.trader_state.trader,
        *b,
        FlashBookError::Unauthorized,
        Some(a.target_market_key),
    );
}

/// A portfolio is judged over the execution position and every other open one.
pub proof fn law_portfolio_question(
    a: &LiquidatePortfolioV2,
    es: &Vec<PortfolioEntry>,
    r: Portfolio,
)
    requires
        call_ensures(portfolio_liquidation_question, (a, es), r),
        forall|k: int| 0 <= k < es@.len() ==> (#[trigger] es@[k]).position.size_lots > 0,
    ensures
        r.positions@.len() == es@.len() + 1 && r.markets@.len() == es@.len() + 1,
        shown_as(
            a.execution_position,
            a.execution_position.collateral_quote_lots,
            r.positions@[0],
        ),
        market_shown_as(
            a.execution_market_key,
            a.execution_market,
            a.execution_market.params.maintenance_margin_ratio_bps,
            r.markets@[0],
        ),
        forall|k: int|
            0 <= k < es@.len() ==> shown_as(
                (#[trigger] es@[k]).position,
                es@[k].position.collateral_quote_lots,
                r.positions@[k + 1],
            ) && market_shown_as(
                es@[k].market_key,
                es@[k].market,
                es@[k].market.params.maintenance_margin_ratio_bps,
                r.markets@[k + 1],
            ),
{
    lemma_all_open(es@, es@.len() as int);
}

/// Where all positions are open, none is left out.
pub proof fn lemma_all_open(es: Seq<PortfolioEntry>, n: int)
    requires
        0 <= n <= es.len(),
        forall|k: int| 0 <= k < es.len() ==> (#[trigger] es[k]).position.size_lots > 0,
    ensures
        open_entries(es, n) == es.take(n),
    decreases n,
{
    if n > 0 {
        lemma_all_open(es, n - 1);
        assert(es.take(n - 1).push(es[n - 1]) =~= es.take(n));
    } else {
        assert(es.take(0) =~= Seq::empty());
    }
}

/// A basket is judged over every market of it, at initial margin.
pub proof fn law_basket_question(
    es: &Vec<BasketEntry>,
    trader: Pubkey,
    r: Result<Portfolio, FlashBookError>,
)
    requires
        call_ensures(basket_question, (es, trader), r),
        r is Ok,
    ensures
        r->Ok_0.markets@.len() == es@.len(),
        forall|k: int|
            0 <= k < es@.len() ==> market_shown_as(
                (#[trigger] es@[k]).market_key,
                es@[k].market,
                es@[k].market.params.initial_margin_ratio_bps,
                r->Ok_0.markets@[k],
            ),
        forall|k: int|
            0 <= k < es@.len() ==> ((#[trigger] es@[k]).position.size_lots == 0
                ==> r->Ok_0.positions@.len() > 0),
{
    assert forall|k: int| 0 <= k < es@.len() && (#[trigger] es@[k]).position.size_lots == 0 implies
        r->Ok_0.positions@.len() > 0 by {
        assert(projected(es@[k]) is Some);
        lemma_counts_position(es@, es@.len() as int, k);
    }
}

/// A leg that leaves a position is asked about.
pub proof fn lemma_counts_position(es: Seq<BasketEntry>, n: int, k: int)
    requires
        0 <= k < n <= es.len(),
        projected(es[k]) is Some,
    ensures
        basket_positions(es, n).len() > 0,
    decreases n,
{
    if k < n - 1 {
        lemma_counts_position(es, n - 1, k);
    }
}

/// A margin alert is raised at less than two and a half times the maintenance margin,
/// a graver one at less than twice, the gravest at less than one and a quarter; the
/// ratio is the trader's equity over the margin that its position needs at the mark.
pub proof fn law_margin_alert(
    trader: Pubkey,
    market: Pubkey,
    p: &PositionAccount,
    mark: u64,
    tick: u64,
    mmr_bps: u32,
    collateral: u64,
    r: Option<MarginThresholdCrossedEvent>,
)
    requires
        call_ensures(
            emit_margin_threshold_if_crossed,
            (trader, market, p, mark, tick, mmr_bps, collateral),
            r,
        ),
        tick > 0,
        p.size_lots * mark * tick <= u64::MAX,
        p.size_lots * p.entry_price_ticks * tick <= u64::MAX,
    ensures
        ({
            let required = p.size_lots * mark * tick * mmr_bps / 10_000;
            let gain = if p.side == 0 {
                p.size_lots * mark * tick - p.size_lots * p.entry_price_ticks * tick
            } else {
                p.size_lots * p.entry_price_ticks * tick - p.size_lots * mark * tick
            };
            let equity = collateral + gain;
            &&& p.size_lots == 0 || mark == 0 || required == 0 ==> r is None
            &&& p.size_lots > 0 && mark > 0 && required > 0 ==> {
                &&& equity <= 0 ==> r is Some && r->0.level == 2 && r->0.equity_to_mmr_bps == 0
                &&& equity > 0 && r is None ==> equity * 10_000 / required >= 25_000
                &&& equity > 0 && r is Some ==> {
                    let ratio = equity * 10_000 / required;
                    &&& r->0.equity_to_mmr_bps == ratio
                    &&& r->0.level == (if ratio < 12_500 {
                        2u8
                    } else if ratio < 20_000 {
                        1u8
                    } else {
                        0u8
                    }) && ratio < 25_000
                }
            }
            &&& r matches Some(e) ==> e.trader == trader && e.market == market
        }),
{
    let n = p.size_lots as int;
    let m = mark as int;
    let en = p.entry_price_ticks as int;
    let t = tick as int;
    lemma_worth_of_one(p.size_lots, mark, tick);
    lemma_worth_of_one(p.size_lots, p.entry_price_ticks, tick);
    lemma_product(n * m * t, mmr_bps as int);
    assert(n * m * t * mmr_bps <= u64::MAX * u32::MAX) by (nonlinear_arith)
        requires
            0 <= n * m * t <= u64::MAX,
            0 <= mmr_bps <= u32::MAX,
    ;
    assert(n * (m - en) == n * m - n * en) by (nonlinear_arith);
    assert(n * (en - m) == n * en - n * m) by (nonlinear_arith);
    let d = n * m - n * en;
    assert(d * t == n * m * t - n * en * t) by (nonlinear_arith)
        requires
            d == n * m - n * en,
    ;
    assert((-d) * t == -(d * t)) by (nonlinear_arith);
    assert(n * m <= n * m * t && n * en <= n * en * t) by (nonlinear_arith)
        requires
            t >= 1,
            n * m >= 0,
            n * en >= 0,
    ;
    let equity = collateral + (if p.side == 0 {
        d * t
    } else {
        -(d * t)
    });
    let required = n * m * t * mmr_bps / 10_000;
    if required > 0 && equity > 0 {
        lemma_rounds_down(equity * 10_000, required);
    }
}

} // verus!
