//! What shares in pooled capital are worth, and what a fill does to a pool, in the
//! fields of the accounts.
use vstd::prelude::*;

use crate::collateral_laws::lemma_worth_of_one;
use crate::constants::EMPTY_SIDE;
use crate::errors::FlashBookError;
use crate::events::{
    FlpCapitalUpdatedEvent, FlpDepositedV3Event, FlpFillRecordedV3Event, FlpWithdrawnV3Event,
    VaultDepositV3Event, VaultPerfFeeSettledEvent, VaultPerfFeeSettledV3Event,
    VaultWithdrawV3Event,
};
use crate::fees::sat_bps_of;
use crate::flp::{
    MarketMark, apply_fill_to_flp_market, deposit_flp_capital, exposure_from, gross_exposure,
    mark_from, slots_differ, withdraw_flp_capital,
};
use crate::flp_settlement::{lemma_free_bounds, lemma_slot_at, lemma_slot_bounds};
use crate::flp_v3::{FlpHolding, flp_deposit_v3, flp_withdraw_v3, record_flp_fill_v3};
use crate::keys::Pubkey;
use crate::mark::sat_notional;
use crate::math::sat_u128;
use crate::position::lemma_mean_price_between;
use crate::state::{
    FlpExposureAccount, FlpExposurePerMarketAccountV3, FlpMarketExposure, FlpPositionAccountV3,
    LpPositionAccount, Side, TraderStateAccount, VaultAccountV3,
};
use crate::vaults::{
    SettleVaultPerfFee, nav_per_share, perf_shares_due, performance_shares, settle_vault_perf_fee,
};
use crate::vaults_v3::{
    SettleVaultPerfFeeV3, VaultHolding, perf_shares_v3, settle_vault_perf_fee_v3, vault_deposit_v3,
    vault_withdraw_v3,
};

verus! {

/// The shares that `amount` buys into `nav` with `shares` outstanding, rounded down:
/// one per quote lot where there is nothing to share.
pub open spec fn buys_shares(minted: int, amount: int, shares: int, nav: int) -> bool {
    if shares == 0 || nav <= 0 {
        minted == amount
    } else {
        minted * nav <= amount * shares < (minted + 1) * nav
    }
}

/// The part of `nav` that `burned` of all `shares` are worth, rounded down.
pub open spec fn is_worth(paid: int, burned: int, shares: int, nav: int) -> bool {
    paid * shares <= burned * nav < (paid + 1) * shares
}

/// Division rounds down.
pub proof fn lemma_rounds_down(x: int, d: int)
    requires
        x >= 0,
        d > 0,
    ensures
        x / d >= 0,
        (x / d) * d <= x < (x / d + 1) * d,
{
    assert(x / d >= 0 && (x / d) * d <= x < (x / d + 1) * d) by (nonlinear_arith)
        requires
            x >= 0,
            d > 0,
    ;
}

/// A product of two amounts is no less than nothing.
pub proof fn lemma_product(x: int, y: int)
    requires
        x >= 0,
        y >= 0,
    ensures
        x * y >= 0,
{
    assert(x * y >= 0) by (nonlinear_arith)
        requires
            x >= 0,
            y >= 0,
    ;
}

/// A deposit puts its amount into the pool and buys shares at the pool's value before
/// it, rounded down but never to none. Nothing else about the pool changes.
pub proof fn law_pool_deposit_buys_shares(
    flp: &mut FlpExposureAccount,
    lp: &mut LpPositionAccount,
    owner: Pubkey,
    bump: u8,
    amount: u64,
    r: Result<FlpCapitalUpdatedEvent, FlashBookError>,
)
    requires
        call_ensures(deposit_flp_capital, (flp, lp, owner, bump, amount), r),
    ensures
        r is Err ==> *final(flp) == *old(flp) && *final(lp) == *old(lp),
        r matches Ok(e) ==> {
            let f = old(flp)@;
            let g = final(flp)@;
            let minted = g.lp_shares_outstanding - f.lp_shares_outstanding;
            &&& amount > 0 && minted > 0
            &&& buys_shares(
                minted,
                amount as int,
                f.lp_shares_outstanding as int,
                f.total_capital_quote_lots + f.realized_pnl,
            )
            &&& g.total_capital_quote_lots == f.total_capital_quote_lots + amount
            &&& g.realized_pnl == f.realized_pnl && g.markets_count == f.markets_count
                && g.per_market == f.per_market && g.authority == f.authority && g.bump == f.bump
            &&& final(lp).shares == old(lp).shares + minted
            &&& final(lp).total_deposited_quote_lots == old(lp).total_deposited_quote_lots + amount
            &&& final(lp).total_withdrawn_quote_lots == old(lp).total_withdrawn_quote_lots
            &&& final(lp).lp == (if old(lp).lp == (Pubkey { hi: 0, lo: 0 }) {
                owner
            } else {
                old(lp).lp
            })
            &&& e.new_total == g.total_capital_quote_lots
        },
        ({
            let f = old(flp)@;
            let nav = f.total_capital_quote_lots + f.realized_pnl;
            amount > 0 && (f.lp_shares_outstanding == 0 || nav == f.lp_shares_outstanding)
                && f.total_capital_quote_lots + amount <= u64::MAX && f.lp_shares_outstanding
                + amount <= u64::MAX && old(lp).shares + amount <= u64::MAX && old(lp).total_deposited_quote_lots + amount <= u64::MAX ==> r is Ok
        }),
{
    let f = old(flp)@;
    let nav = f.total_capital_quote_lots + f.realized_pnl;
    let s = f.lp_shares_outstanding as int;
    lemma_product(amount as int, s);
    if nav > 0 {
        lemma_rounds_down(amount * s, nav);
        if nav == s {
            assert(amount * s / s == amount) by (nonlinear_arith)
                requires
                    s > 0,
            ;
        }
    }
}

/// The sum of a list of amounts.
pub open spec fn sum_of(v: Seq<int>, n: int) -> int
    decreases n,
{
    if n <= 0 {
        0
    } else {
        sum_of(v, n - 1) + v[n - 1]
    }
}

/// `v` lists what the pool's positions are worth at the shown marks: size times mark
/// times tick size for a slot in use, nothing for one that is not.
pub open spec fn worth_at_marks(s: Seq<FlpMarketExposure>, ms: Seq<MarketMark>, v: Seq<int>) -> bool {
    &&& v.len() == s.len()
    &&& forall|i: int|
        0 <= i < s.len() ==> if (#[trigger] s[i]).side == 255 {
            v[i] == 0
        } else {
            exists|j: int|
                0 <= j < ms.len() && (#[trigger] ms[j]).market == s[i].market && v[i]
                    == s[i].size_lots * ms[j].mark_price_ticks * ms[j].tick_size
        }
}

/// No market is shown twice.
pub open spec fn shown_once(ms: Seq<MarketMark>) -> bool {
    forall|j: int, k: int|
        0 <= j < k < ms.len() ==> (#[trigger] ms[j]).market != (#[trigger] ms[k]).market
}

/// A search finds the one mark of a market.
pub proof fn lemma_mark_found(ms: Seq<MarketMark>, market: Pubkey, i: int, j: int)
    requires
        shown_once(ms),
        0 <= i <= j < ms.len(),
        ms[j].market == market,
    ensures
        mark_from(ms, market, i) == j,
    decreases j - i,
{
    if i < j {
        lemma_mark_found(ms, market, i + 1, j);
    }
}

/// Partial sums of amounts that are not negative do not fall.
pub proof fn lemma_sums_grow(v: Seq<int>, m: int, n: int)
    requires
        0 <= m <= n <= v.len(),
        forall|i: int| 0 <= i < v.len() ==> 0 <= #[trigger] v[i],
    ensures
        0 <= sum_of(v, m) <= sum_of(v, n),
    decreases n,
{
    if n > 0 {
        lemma_sums_grow(
            v,
            if m < n {
                m
            } else {
                n - 1
            },
            n - 1,
        );
    }
}

/// The running total over the table is the sum, as far as it fits.
pub proof fn lemma_exposure_is_sum(
    s: Seq<FlpMarketExposure>,
    ms: Seq<MarketMark>,
    v: Seq<int>,
    i: int,
    acc: int,
    used: int,
)
    requires
        0 <= i <= s.len(),
        0 <= acc <= u128::MAX,
        shown_once(ms),
        worth_at_marks(s, ms, v),
    ensures
        forall|k: int| 0 <= k < v.len() ==> 0 <= #[trigger] v[k],
        ({
            let sum = acc + sum_of(v, s.len() as int) - sum_of(v, i);
            exposure_from(s, ms, i, acc, used) matches Some((x, n)) && x == if sum <= u128::MAX {
                sum
            } else {
                u128::MAX as int
            }
        }),
    decreases s.len() - i,
{
    assert forall|k: int| 0 <= k < v.len() implies 0 <= #[trigger] v[k] by {
        assert(s[k].side == 255 || s[k].side != 255);
        if s[k].side != 255 {
            let j = choose|j: int|
                0 <= j < ms.len() && (#[trigger] ms[j]).market == s[k].market && v[k]
                    == s[k].size_lots * ms[j].mark_price_ticks * ms[j].tick_size;
            lemma_worth_of_one(s[k].size_lots, ms[j].mark_price_ticks, ms[j].tick_size);
        }
    }
    lemma_sums_grow(v, i, s.len() as int);
    if i < s.len() {
        lemma_sums_grow(v, i + 1, s.len() as int);
        assert(sum_of(v, i + 1) == sum_of(v, i) + v[i]);
        if s[i].side == 255 {
            lemma_exposure_is_sum(s, ms, v, i + 1, acc, used);
        } else {
            let j = choose|j: int|
                0 <= j < ms.len() && (#[trigger] ms[j]).market == s[i].market && v[i]
                    == s[i].size_lots * ms[j].mark_price_ticks * ms[j].tick_size;
            lemma_mark_found(ms, s[i].market, 0, j);
            lemma_worth_of_one(s[i].size_lots, ms[j].mark_price_ticks, ms[j].tick_size);
            let next = sat_u128(
                acc + sat_notional(
                    s[i].size_lots as int,
                    ms[j].mark_price_ticks as int,
                    ms[j].tick_size as int,
                ),
            );
            lemma_exposure_is_sum(s, ms, v, i + 1, next, used + 1);
        }
    }
}

/// A pool with open positions counts all of them: the exposure is what every used slot
/// is worth at its mark, added up.
pub proof fn law_exposure_counts_every_slot(
    s: &Vec<FlpMarketExposure>,
    ms: &Vec<MarketMark>,
    v: Seq<int>,
    r: Option<(u128, usize)>,
)
    requires
        call_ensures(gross_exposure, (s, ms), r),
        shown_once(ms@),
        worth_at_marks(s@, ms@, v),
    ensures
        r is Some,
        (r->0).0 == if sum_of(v, s@.len() as int) <= u128::MAX {
            sum_of(v, s@.len() as int)
        } else {
            u128::MAX as int
        },
        forall|i: int| 0 <= i < s@.len() ==> (r->0).0 == u128::MAX || #[trigger] v[i] <= (r->0).0,
{
    lemma_exposure_is_sum(s@, ms@, v, 0, 0, 0);
    assert forall|i: int| 0 <= i < s@.len() implies (r->0).0 == u128::MAX || #[trigger] v[i] <= (
    r->0).0 by {
        lemma_sums_grow(v, 0, i);
        lemma_sums_grow(v, i + 1, s@.len() as int);
        assert(sum_of(v, i + 1) == sum_of(v, i) + v[i]);
    }
}

/// A withdrawal pays its owner the burned shares' part of the pool's value, rounded
/// down, and leaves no less value than all open positions are worth together.
pub proof fn law_pool_withdrawal_leaves_positions_covered(
    flp: &mut FlpExposureAccount,
    lp: &mut LpPositionAccount,
    owner: Pubkey,
    ms: &Vec<MarketMark>,
    vault_amount: u64,
    burned: u64,
    v: Seq<int>,
    r: Result<(FlpCapitalUpdatedEvent, u64), FlashBookError>,
)
    requires
        old(flp)@.wf(),
        call_ensures(withdraw_flp_capital, (flp, lp, owner, ms, vault_amount, burned), r),
        shown_once(ms@),
        worth_at_marks(old(flp)@.per_market, ms@, v),
    ensures
        r is Err ==> *final(flp) == *old(flp) && *final(lp) == *old(lp),
        r matches Ok((e, paid)) ==> {
            let f = old(flp)@;
            let g = final(flp)@;
            let nav = f.total_capital_quote_lots + f.realized_pnl;
            &&& old(lp).lp == owner
            &&& 0 < burned <= old(lp).shares && burned <= f.lp_shares_outstanding
            &&& 0 < paid <= vault_amount
            &&& is_worth(paid as int, burned as int, f.lp_shares_outstanding as int, nav)
            &&& g.total_capital_quote_lots == f.total_capital_quote_lots - paid
            &&& g.lp_shares_outstanding == f.lp_shares_outstanding - burned
            &&& g.realized_pnl == f.realized_pnl && g.markets_count == f.markets_count
                && g.per_market == f.per_market && g.authority == f.authority
            &&& final(lp).shares == old(lp).shares - burned
            &&& final(lp).total_withdrawn_quote_lots == old(lp).total_withdrawn_quote_lots + paid
            &&& final(lp).total_deposited_quote_lots == old(lp).total_deposited_quote_lots
                && final(lp).lp == old(lp).lp
            &&& e.new_total == g.total_capital_quote_lots
            &&& f.markets_count > 0 ==> g.total_capital_quote_lots + g.realized_pnl >= sum_of(
                v,
                v.len() as int,
            )
            &&& f.markets_count > 0 ==> forall|i: int|
                0 <= i < v.len() ==> g.total_capital_quote_lots + g.realized_pnl
                    >= #[trigger] v[i]
        },
{
    let f = old(flp)@;
    let nav = f.total_capital_quote_lots + f.realized_pnl;
    lemma_exposure_is_sum(f.per_market, ms@, v, 0, 0, 0);
    if r is Ok {
        lemma_product(burned as int, nav);
        lemma_rounds_down(burned * nav, f.lp_shares_outstanding as int);
        assert forall|i: int| 0 <= i < v.len() implies #[trigger] v[i] <= sum_of(
            v,
            v.len() as int,
        ) by {
            lemma_sums_grow(v, 0, i);
            lemma_sums_grow(v, i + 1, v.len() as int);
            assert(sum_of(v, i + 1) == sum_of(v, i) + v[i]);
        }
    }
}

/// A fill moves one slot of the pool's table, the one of its market, and nothing of
/// the pool's capital or shares. Into an unused slot it goes at its own price; on the
/// same side it averages the entry price, rounded down; on the other side it realizes
/// the distance between the two prices on the lots that it closes.
pub proof fn law_pool_fill_moves_one_slot(
    flp: &mut FlpExposureAccount,
    market: Pubkey,
    side: Side,
    size: u64,
    price: u64,
    k: int,
    r: Result<(), FlashBookError>,
)
    requires
        old(flp)@.wf(),
        0 <= k < old(flp)@.per_market.len(),
        call_ensures(apply_fill_to_flp_market, (flp, market, side, size, price), r),
    ensures
        r is Err ==> *final(flp) == *old(flp),
        r is Ok ==> {
            let x = old(flp)@.per_market[k];
            let y = final(flp)@.per_market[k];
            let same = (x.side == 0) == (side == Side::Long);
            let n = if size <= x.size_lots {
                size
            } else {
                x.size_lots
            };
            let result = if x.side == 0 {
                n * (price - x.entry_price_ticks)
            } else {
                n * (x.entry_price_ticks - price)
            };
            &&& final(flp)@.per_market.len() == old(flp)@.per_market.len()
            &&& final(flp).total_capital_quote_lots == old(flp).total_capital_quote_lots
            &&& final(flp).lp_shares_outstanding == old(flp).lp_shares_outstanding
            &&& y != x ==> y.market == market
            &&& x.side != 255 && x.market != market ==> y == x
            &&& x.side == 255 && y != x ==> y.size_lots == size && y.entry_price_ticks == price
                && y.side == (if side == Side::Long {
                0u8
            } else {
                1u8
            }) && final(flp).realized_pnl == old(flp).realized_pnl
            &&& x.side != 255 && x.market == market && same ==> y.size_lots == x.size_lots + size
                && y.side == x.side && final(flp).realized_pnl == old(flp).realized_pnl
                && y.entry_price_ticks * (x.size_lots + size) <= x.entry_price_ticks * x.size_lots
                + price * size < (y.entry_price_ticks + 1) * (x.size_lots + size)
            &&& x.side != 255 && x.market == market && !same ==> {
                &&& i64::MIN <= result <= i64::MAX && i64::MIN <= old(flp).realized_pnl + result
                    <= i64::MAX ==> final(flp).realized_pnl == old(flp).realized_pnl + result
                &&& size < x.size_lots ==> y.size_lots == x.size_lots - size && y.side == x.side
                    && y.entry_price_ticks == x.entry_price_ticks
                &&& size == x.size_lots ==> y.size_lots == 0 && y.side == 255
                &&& size > x.size_lots ==> y.size_lots == size - x.size_lots
                    && y.entry_price_ticks == price && y.side == (if side == Side::Long {
                    0u8
                } else {
                    1u8
                })
            }
        },
{
    let s = old(flp)@.per_market;
    let x = s[k];
    lemma_slot_bounds(s, market, 0);
    lemma_free_bounds(s, 0);
    if x.side != 255 && x.market == market {
        assert forall|j: int| 0 <= j < k implies (#[trigger] s[j]).side == EMPTY_SIDE || s[j].market
            != market by {
            assert(slots_differ(s[j], s[k]));
        }
        lemma_slot_at(s, market, 0, k);
        if r is Ok && (x.side == 0) == (side == Side::Long) {
            lemma_product(x.entry_price_ticks as int, x.size_lots as int);
            lemma_product(price as int, size as int);
            lemma_rounds_down(
                x.entry_price_ticks * x.size_lots + price * size,
                x.size_lots + size,
            );
            lemma_mean_price_between(
                x.entry_price_ticks as int,
                x.size_lots as int,
                price as int,
                size as int,
            );
        }
    }
}

/// A deposit into a market's own pool buys shares at its capital before it.
pub proof fn law_market_pool_deposit(
    a: &mut FlpHolding,
    amount: u64,
    r: Result<FlpDepositedV3Event, FlashBookError>,
)
    requires
        call_ensures(flp_deposit_v3, (a, amount), r),
    ensures
        r is Err ==> *final(a) == *old(a),
        r matches Ok(e) ==> {
            let x = old(a).exposure;
            let y = final(a).exposure;
            let minted = y.lp_shares_outstanding - x.lp_shares_outstanding;
            &&& amount > 0 && minted > 0
            &&& minted < u64::MAX ==> buys_shares(
                minted,
                amount as int,
                x.lp_shares_outstanding as int,
                x.total_capital_quote_lots as int,
            )
            &&& y == (FlpExposurePerMarketAccountV3 {
                total_capital_quote_lots: (x.total_capital_quote_lots + amount) as u64,
                lp_shares_outstanding: y.lp_shares_outstanding,
                ..x
            })
            &&& x.total_capital_quote_lots + amount <= u64::MAX
            &&& final(a).position.shares == old(a).position.shares + minted
            &&& old(a).position.shares == 0 ==> final(a).position.lp == old(a).lp && final(a).position.market == x.market
            &&& old(a).position.shares > 0 ==> final(a).position.lp == old(a).position.lp
            &&& e.shares_minted == minted && e.amount_quote_lots == amount && e.market == x.market
                && e.lp == old(a).lp && e.new_total_capital == y.total_capital_quote_lots
                && e.new_shares_outstanding == y.lp_shares_outstanding
        },
        amount > 0 && old(a).exposure.lp_shares_outstanding == 0 && old(a).exposure.total_capital_quote_lots + amount <= u64::MAX && old(a).position.shares + amount
            <= u64::MAX ==> r is Ok,
{
    let x = old(a).exposure;
    lemma_product(amount as int, x.lp_shares_outstanding as int);
    if x.total_capital_quote_lots > 0 {
        lemma_rounds_down(
            amount * x.lp_shares_outstanding,
            x.total_capital_quote_lots as int,
        );
    }
}

/// A withdrawal from a market's own pool pays its owner the burned shares' part of the
/// capital, rounded down.
pub proof fn law_market_pool_withdrawal(
    a: &mut FlpHolding,
    burned: u64,
    r: Result<FlpWithdrawnV3Event, FlashBookError>,
)
    requires
        call_ensures(flp_withdraw_v3, (a, burned), r),
    ensures
        r is Err ==> *final(a) == *old(a),
        r matches Ok(e) ==> {
            let x = old(a).exposure;
            let y = final(a).exposure;
            let paid = e.amount_quote_lots;
            &&& old(a).position.lp == old(a).lp
            &&& 0 < burned <= old(a).position.shares && burned <= x.lp_shares_outstanding
            &&& paid > 0
            &&& is_worth(
                paid as int,
                burned as int,
                x.lp_shares_outstanding as int,
                x.total_capital_quote_lots as int,
            )
            &&& y == (FlpExposurePerMarketAccountV3 {
                total_capital_quote_lots: (x.total_capital_quote_lots - paid) as u64,
                lp_shares_outstanding: (x.lp_shares_outstanding - burned) as u64,
                ..x
            })
            &&& paid <= x.total_capital_quote_lots
            &&& final(a).position == (FlpPositionAccountV3 {
                shares: (old(a).position.shares - burned) as u64,
                ..old(a).position
            })
            &&& e.shares_burned == burned && e.market == x.market && e.lp == old(a).lp
        },
        old(a).position.lp == old(a).lp && 0 < burned <= old(a).position.shares && burned <= old(a).exposure.lp_shares_outstanding && burned * old(a).exposure.total_capital_quote_lots
            >= old(a).exposure.lp_shares_outstanding ==> r is Ok,
{
    let x = old(a).exposure;
    let s = x.lp_shares_outstanding as int;
    let c = x.total_capital_quote_lots as int;
    lemma_product(burned as int, c);
    if s > 0 {
        lemma_rounds_down(burned * c, s);
        if burned <= s {
            assert(burned * c / s <= c) by (nonlinear_arith)
                requires
                    0 <= burned <= s,
                    s > 0,
                    c >= 0,
            ;
        }
        if burned * c >= s {
            assert(burned * c / s >= 1) by (nonlinear_arith)
                requires
                    burned * c >= s,
                    s > 0,
            ;
        }
    }
}

/// Only the pool's authority records a fill. It opens, grows, shrinks, closes or turns
/// the exposure, adds the reported result, and leaves capital and shares alone.
pub proof fn law_recorded_fill_moves_the_exposure(
    x: &mut FlpExposurePerMarketAccountV3,
    signer: Pubkey,
    size: u64,
    price: u64,
    side: u8,
    pnl: i64,
    r: Result<FlpFillRecordedV3Event, FlashBookError>,
)
    requires
        call_ensures(record_flp_fill_v3, (x, signer, size, price, side, pnl), r),
    ensures
        r is Ok <==> side <= 1 && size > 0 && price > 0 && old(x).authority == signer,
        r is Err ==> *final(x) == *old(x),
        r is Ok ==> {
            let a = *old(x);
            let b = *final(x);
            &&& b.total_capital_quote_lots == a.total_capital_quote_lots && b.lp_shares_outstanding
                == a.lp_shares_outstanding && b.market == a.market && b.authority == a.authority
            &&& i64::MIN <= a.realized_pnl + pnl <= i64::MAX ==> b.realized_pnl == a.realized_pnl
                + pnl
            &&& a.size_lots == 0 ==> b.side == side && b.size_lots == size && b.entry_price_ticks
                == price
            &&& a.size_lots > 0 && a.side == side && a.size_lots + size <= u64::MAX ==> b.side
                == side && b.size_lots == a.size_lots + size && b.entry_price_ticks * (a.size_lots
                + size) <= a.entry_price_ticks * a.size_lots + price * size < (b.entry_price_ticks
                + 1) * (a.size_lots + size)
            &&& a.size_lots > size && a.side != side ==> b.side == a.side && b.size_lots
                == a.size_lots - size && b.entry_price_ticks == a.entry_price_ticks
            &&& a.size_lots == size && a.side != side ==> b.side == 255 && b.size_lots == 0
                && b.entry_price_ticks == 0
            &&& 0 < a.size_lots < size && a.side != side ==> b.side == side && b.size_lots == size
                - a.size_lots && b.entry_price_ticks == price
        },
{
    let a = *old(x);
    if r is Ok && a.size_lots > 0 && a.side == side && a.size_lots + size <= u64::MAX {
        let p0 = a.entry_price_ticks as int;
        let n0 = a.size_lots as int;
        let p1 = price as int;
        let n1 = size as int;
        lemma_product(p0, n0);
        lemma_product(p1, n1);
        lemma_rounds_down(p0 * n0 + p1 * n1, n0 + n1);
        lemma_mean_price_between(p0, n0, p1, n1);
        assert(p0 * n0 + p1 * n1 <= u64::MAX * (n0 + n1)) by (nonlinear_arith)
            requires
                0 <= p0 <= u64::MAX,
                0 <= p1 <= u64::MAX,
                0 <= n0,
                0 <= n1,
        ;
        assert(u64::MAX * (n0 + n1) <= u128::MAX);
    }
}

/// A deposit into a vault buys shares at the vault's collateral before it, and the
/// vault's trader account holds the amount.
pub proof fn law_vault_deposit_buys_shares(
    a: &mut VaultHolding,
    amount: u64,
    r: Result<VaultDepositV3Event, FlashBookError>,
)
    requires
        call_ensures(vault_deposit_v3, (a, amount), r),
    ensures
        r is Err ==> *final(a) == *old(a),
        r matches Ok(e) ==> {
            let x = *old(a);
            let y = *final(a);
            let minted = y.vault.shares_outstanding - x.vault.shares_outstanding;
            &&& amount > 0 && minted > 0 && x.vault.accept_deposits == 1
            &&& buys_shares(
                minted,
                amount as int,
                x.vault.shares_outstanding as int,
                x.vault_trader_state.collateral_quote_lots as int,
            )
            &&& y.vault_trader_state == (TraderStateAccount {
                collateral_quote_lots: (x.vault_trader_state.collateral_quote_lots + amount) as u64,
                ..x.vault_trader_state
            })
            &&& x.vault_trader_state.collateral_quote_lots + amount <= u64::MAX
            &&& y.vault.total_capital_quote_lots == x.vault.total_capital_quote_lots + amount
            &&& y.vault.hwm_nav_per_share_u64x6 == x.vault.hwm_nav_per_share_u64x6
                && y.vault.perf_fee_bps == x.vault.perf_fee_bps && y.vault.strategist
                == x.vault.strategist
            &&& y.position.shares == x.position.shares + minted
            &&& y.position.total_deposited_quote_lots == x.position.total_deposited_quote_lots
                + amount
            &&& y.position.depositor == (if x.position.depositor == (Pubkey { hi: 0, lo: 0 }) {
                x.depositor
            } else {
                x.position.depositor
            })
            &&& e.shares_minted == minted && e.amount_quote_lots == amount && e.vault == x.vault_key
        },
        ({
            let x = *old(a);
            amount > 0 && x.vault.accept_deposits == 1 && x.vault.shares_outstanding == 0
                && x.vault_trader_state.collateral_quote_lots + amount <= u64::MAX
                && x.vault.total_capital_quote_lots + amount <= u64::MAX && x.position.shares
                + amount <= u64::MAX && x.position.total_deposited_quote_lots + amount <= u64::MAX
                ==> r is Ok
        }),
{
    let x = *old(a);
    lemma_product(amount as int, x.vault.shares_outstanding as int);
    if x.vault_trader_state.collateral_quote_lots > 0 {
        lemma_rounds_down(
            amount * x.vault.shares_outstanding,
            x.vault_trader_state.collateral_quote_lots as int,
        );
    }
}

/// A withdrawal from a vault pays the holder the burned shares' part of the vault's
/// collateral, rounded down, out of its trader account.
pub proof fn law_vault_withdrawal_pays_its_part(
    a: &mut VaultHolding,
    burned: u64,
    r: Result<VaultWithdrawV3Event, FlashBookError>,
)
    requires
        call_ensures(vault_withdraw_v3, (a, burned), r),
    ensures
        r is Err ==> *final(a) == *old(a),
        r matches Ok(e) ==> {
            let x = *old(a);
            let y = *final(a);
            let paid = e.amount_quote_lots;
            let nav = x.vault_trader_state.collateral_quote_lots;
            &&& x.position.depositor == x.depositor
            &&& 0 < burned <= x.position.shares && burned <= x.vault.shares_outstanding
            &&& 0 < paid <= nav
            &&& is_worth(
                paid as int,
                burned as int,
                x.vault.shares_outstanding as int,
                nav as int,
            )
            &&& y.vault_trader_state == (TraderStateAccount {
                collateral_quote_lots: (nav - paid) as u64,
                ..x.vault_trader_state
            })
            &&& y.vault == (VaultAccountV3 {
                shares_outstanding: (x.vault.shares_outstanding - burned) as u64,
                ..x.vault
            })
            &&& y.position.shares == x.position.shares - burned
            &&& y.position.total_withdrawn_quote_lots == x.position.total_withdrawn_quote_lots
                + paid
            &&& y.position.total_deposited_quote_lots == x.position.total_deposited_quote_lots
                && y.position.depositor == x.position.depositor
            &&& e.shares_burned == burned && e.vault == x.vault_key && e.depositor == x.depositor
        },
        ({
            let x = *old(a);
            let nav = x.vault_trader_state.collateral_quote_lots;
            x.position.depositor == x.depositor && 0 < burned <= x.position.shares && burned
                <= x.vault.shares_outstanding && burned * nav >= x.vault.shares_outstanding
                && x.position.total_withdrawn_quote_lots + nav <= u64::MAX ==> r is Ok
        }),
{
    let x = *old(a);
    let s = x.vault.shares_outstanding as int;
    let c = x.vault_trader_state.collateral_quote_lots as int;
    lemma_product(burned as int, c);
    if s > 0 {
        lemma_rounds_down(burned * c, s);
        if burned <= s {
            assert(burned * c / s <= c) by (nonlinear_arith)
                requires
                    0 <= burned <= s,
                    s > 0,
                    c >= 0,
            ;
        }
        if burned * c >= s {
            assert(burned * c / s >= 1) by (nonlinear_arith)
                requires
                    burned * c >= s,
                    s > 0,
            ;
        }
    }
}

/// The shares that a performance fee mints: worth at most the fee's part of what the
/// vault gained over its high-water mark.
pub proof fn lemma_fee_within_gain(nav: u64, shares: u64, hwm: u64, fee_bps: u32)
    requires
        nav > 0,
        shares > 0,
        nav * 1_000_000 / (shares as int) > hwm,
    ensures
        ({
            let m = performance_shares(nav, shares, hwm, fee_bps);
            m * nav * 10_000 * 1_000_000 <= (nav * 1_000_000 - hwm * shares) * fee_bps * shares
        }),
{
    let n = nav as int;
    let s = shares as int;
    let h = hwm as int;
    let b = fee_bps as int;
    let per = n * 1_000_000 / s;
    lemma_rounds_down(n * 1_000_000, s);
    let nps = nav_per_share(nav, shares) as int;
    let gps = nps - h;
    assert(gps * s <= n * 1_000_000 - h * s) by (nonlinear_arith)
        requires
            gps == nps - h,
            nps <= per,
            per * s <= n * 1_000_000,
            s > 0,
    ;
    lemma_product(gps, s);
    let gain = gps * s / 1_000_000;
    lemma_rounds_down(gps * s, 1_000_000);
    lemma_product(gain, b);
    let fee = sat_bps_of(gain, b);
    lemma_rounds_down(sat_u128(gain * b), 10_000);
    assert(fee * 10_000 <= gain * b);
    lemma_product(fee, s);
    lemma_rounds_down(sat_u128(fee * s), n);
    let m = performance_shares(nav, shares, hwm, fee_bps) as int;
    assert(m * n <= fee * s) by (nonlinear_arith)
        requires
            m <= sat_u128(fee * s) / n,
            (sat_u128(fee * s) / n) * n <= sat_u128(fee * s),
            sat_u128(fee * s) <= fee * s,
            n > 0,
    ;
    let g = n * 1_000_000 - h * s;
    assert(gain * 1_000_000 <= g);
    assert(m * n * 10_000 <= gain * b * s) by (nonlinear_arith)
        requires
            m * n <= fee * s,
            fee * 10_000 <= gain * b,
            s > 0,
    ;
    assert(gain * b * s * 1_000_000 <= g * b * s) by (nonlinear_arith)
        requires
            gain * 1_000_000 <= g,
            b >= 0,
            s >= 0,
    ;
    assert(m * n * 10_000 * 1_000_000 <= gain * b * s * 1_000_000);
}

/// What a performance fee mints where nothing has to be cut off: the fee is its part of
/// the gain per share over the mark on all shares, and is paid in shares at their value.
pub open spec fn fee_shares(nav: int, shares: int, hwm: int, fee_bps: int) -> int {
    let gain = (nav * 1_000_000 / shares - hwm) * shares / 1_000_000;
    (gain * fee_bps / 10_000) * shares / nav
}

/// Nothing has to be cut off from an ordinary fee.
pub proof fn lemma_fee_exact(nav: u64, shares: u64, hwm: u64, fee_bps: u32)
    requires
        nav > 0,
        shares > 0,
        hwm < nav * 1_000_000 / (shares as int) <= u64::MAX,
        fee_bps <= 10_000,
    ensures
        performance_shares(nav, shares, hwm, fee_bps) == fee_shares(
            nav as int,
            shares as int,
            hwm as int,
            fee_bps as int,
        ),
{
    let n = nav as int;
    let s = shares as int;
    let b = fee_bps as int;
    lemma_rounds_down(n * 1_000_000, s);
    let per = n * 1_000_000 / s;
    let gps = per - hwm;
    lemma_product(gps, s);
    assert(gps * s <= n * 1_000_000) by (nonlinear_arith)
        requires
            gps <= per,
            per * s <= n * 1_000_000,
            s > 0,
    ;
    let gain = gps * s / 1_000_000;
    assert(0 <= gain <= n);
    lemma_product(gain, b);
    assert(gain * b <= n * 10_000) by (nonlinear_arith)
        requires
            0 <= gain <= n,
            0 <= b <= 10_000,
    ;
    let fee = gain * b / 10_000;
    assert(0 <= fee <= n);
    lemma_product(fee, s);
    assert(fee * s <= n * s) by (nonlinear_arith)
        requires
            fee <= n,
            s > 0,
    ;
    assert(n * s <= u128::MAX) by (nonlinear_arith)
        requires
            0 <= n <= u64::MAX,
            0 <= s <= u64::MAX,
    ;
    assert(0 <= fee * s / n <= s) by (nonlinear_arith)
        requires
            0 <= fee * s <= n * s,
            n > 0,
    ;
}

/// A vault's performance fee is settled by its strategist. It mints shares to the
/// strategist only on a gain over the high-water mark, worth no more than the fee's
/// part of that gain; everybody else keeps the shares they have, no collateral moves,
/// and the new mark is the value of a share.
pub proof fn law_performance_fee_is_on_gains(
    a: &mut SettleVaultPerfFeeV3,
    unix_now: i64,
    r: Result<Option<VaultPerfFeeSettledV3Event>, FlashBookError>,
)
    requires
        call_ensures(settle_vault_perf_fee_v3, (a, unix_now), r),
    ensures
        r is Err ==> *final(a) == *old(a),
        r is Ok ==> {
            let x = *old(a);
            let y = *final(a);
            let nav = x.vault_trader_state.collateral_quote_lots;
            let shares = x.vault.shares_outstanding;
            let hwm = x.vault.hwm_nav_per_share_u64x6;
            let minted = y.vault.shares_outstanding - shares;
            &&& x.vault.strategist == x.strategist
            &&& minted >= 0
            &&& minted > 0 ==> hwm > 0 && nav * 1_000_000 > hwm * shares && minted * nav * 10_000
                * 1_000_000 <= (nav * 1_000_000 - hwm * shares) * x.vault.perf_fee_bps * shares
            &&& y.strategist_position.shares == x.strategist_position.shares + minted
            &&& x.vault.perf_fee_bps <= 10_000 && shares > 0 && nav > 0 && 0 < hwm < nav * 1_000_000
                / shares as int <= u64::MAX ==> minted == fee_shares(
                nav as int,
                shares as int,
                hwm as int,
                x.vault.perf_fee_bps as int,
            )
            &&& y.vault_trader_state == x.vault_trader_state
            &&& shares == 0 ==> y.vault.hwm_nav_per_share_u64x6 == 1_000_000
            &&& shares > 0 ==> y.vault.hwm_nav_per_share_u64x6 == (if nav * 1_000_000
                / y.vault.shares_outstanding as int <= u64::MAX {
                nav * 1_000_000 / y.vault.shares_outstanding as int
            } else {
                u64::MAX as int
            })
            &&& y.vault.last_perf_settlement_unix == (if unix_now < 0 {
                0
            } else {
                unix_now as int
            })
            &&& y.vault.total_capital_quote_lots == x.vault.total_capital_quote_lots
                && y.vault.perf_fee_bps == x.vault.perf_fee_bps
            &&& r->Ok_0 is Some <==> minted > 0
            &&& r->Ok_0 matches Some(e) ==> e.shares_minted == minted && e.strategist
                == x.strategist && e.vault == x.vault_key && e.new_hwm_per_share_u64x6
                == y.vault.hwm_nav_per_share_u64x6
        },
        old(a).vault.strategist != old(a).strategist ==> r is Err,
{
    let x = *old(a);
    let nav = x.vault_trader_state.collateral_quote_lots;
    let shares = x.vault.shares_outstanding;
    let hwm = x.vault.hwm_nav_per_share_u64x6;
    if r is Ok && shares > 0 {
        lemma_rounds_down(nav * 1_000_000, shares as int);
        if perf_shares_v3(x) > 0 {
            lemma_fee_within_gain(nav, shares, hwm, x.vault.perf_fee_bps);
            assert(hwm * shares < nav * 1_000_000) by (nonlinear_arith)
                requires
                    hwm < nav * 1_000_000 / (shares as int),
                    (nav * 1_000_000 / (shares as int)) * shares <= nav * 1_000_000,
                    shares > 0,
            ;
        }
        if x.vault.perf_fee_bps <= 10_000 && nav > 0 && 0 < hwm < nav * 1_000_000 / shares as int
            <= u64::MAX {
            lemma_fee_exact(nav, shares, hwm, x.vault.perf_fee_bps);
        }
        let after = final(a).vault.shares_outstanding as int;
        lemma_rounds_down(nav * 1_000_000, after);
    }
}

/// The same of the earlier kind of vault, which has to be without open positions.
pub proof fn law_performance_fee_is_on_gains_when_flat(
    a: &mut SettleVaultPerfFee,
    unix_now: i64,
    r: Result<Option<VaultPerfFeeSettledEvent>, FlashBookError>,
)
    requires
        call_ensures(settle_vault_perf_fee, (a, unix_now), r),
    ensures
        r is Err ==> *final(a) == *old(a),
        r is Ok ==> {
            let x = *old(a);
            let y = *final(a);
            let nav = x.vault_trader_state.collateral_quote_lots;
            let shares = x.vault.shares_outstanding;
            let hwm = x.vault.hwm_nav_per_share_u64x6;
            let minted = y.vault.shares_outstanding - shares;
            &&& x.vault.strategist == x.strategist
            &&& x.vault_trader_state_key == x.vault.trader_state
            &&& x.vault_trader_state.open_positions == 0
            &&& minted >= 0
            &&& minted > 0 && nav > 0 ==> hwm > 0 && nav * 1_000_000 > hwm * shares && minted * nav
                * 10_000 * 1_000_000 <= (nav * 1_000_000 - hwm * shares) * x.vault.perf_fee_bps
                * shares
            &&& y.strategist_position.shares == x.strategist_position.shares + minted
            &&& x.vault.perf_fee_bps <= 10_000 && shares > 0 && nav > 0 && 0 < hwm < nav * 1_000_000
                / shares as int <= u64::MAX ==> minted == fee_shares(
                nav as int,
                shares as int,
                hwm as int,
                x.vault.perf_fee_bps as int,
            )
            &&& y.vault_trader_state == x.vault_trader_state
            &&& shares == 0 ==> y.vault.hwm_nav_per_share_u64x6 == 1_000_000
            &&& shares > 0 ==> y.vault.hwm_nav_per_share_u64x6 == (if nav * 1_000_000
                / y.vault.shares_outstanding as int <= u64::MAX {
                nav * 1_000_000 / y.vault.shares_outstanding as int
            } else {
                u64::MAX as int
            })
            &&& r->Ok_0 is Some <==> minted > 0
            &&& r->Ok_0 matches Some(e) ==> e.shares_minted == minted && e.strategist
                == x.strategist && e.vault == x.vault_key
        },
{
    let x = *old(a);
    let nav = x.vault_trader_state.collateral_quote_lots;
    let shares = x.vault.shares_outstanding;
    let hwm = x.vault.hwm_nav_per_share_u64x6;
    if r is Ok && shares > 0 {
        lemma_rounds_down(nav * 1_000_000, shares as int);
        let due = perf_shares_due(nav, shares, hwm, x.vault.perf_fee_bps);
        if due > 0 && nav > 0 {
            lemma_fee_within_gain(nav, shares, hwm, x.vault.perf_fee_bps);
            assert(hwm * shares < nav * 1_000_000) by (nonlinear_arith)
                requires
                    hwm < nav * 1_000_000 / (shares as int),
                    (nav * 1_000_000 / (shares as int)) * shares <= nav * 1_000_000,
                    shares > 0,
            ;
        }
        if x.vault.perf_fee_bps <= 10_000 && nav > 0 && 0 < hwm < nav * 1_000_000 / shares as int
            <= u64::MAX {
            lemma_fee_exact(nav, shares, hwm, x.vault.perf_fee_bps);
        }
        let after = final(a).vault.shares_outstanding as int;
        lemma_rounds_down(nav * 1_000_000, after);
    }
}

} // verus!
