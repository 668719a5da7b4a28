//! What opening accounts, binding addresses and telling the quoter about the pool come
//! down to.
use vstd::prelude::*;

use crate::book::MarketBook;
use crate::collateral_laws::lemma_worth_of_one;
use crate::envelope::set_envelope_config;
use crate::errors::{EnvelopeError, FlashBookError};
use crate::events::{
    EnvelopeConfigSetEvent, FlpExposureInitializedEvent, MarketBookExpandedEvent,
    MarketBookInitializedEvent, MarketMigratedToV3Event, PositionMigratedEvent,
    SubAccountOpenedEvent, VaultV3CreatedEvent,
};
use crate::flp::initialize_flp_exposure;
use crate::flp_settlement::{lemma_slot_at, lemma_slot_bounds};
use crate::insurance::initialize_insurance_fund;
use crate::keys::Pubkey;
use crate::market::{
    BookAccount, BookLayout, expand_market_book, init_market_book, law_expansion_adds_places,
    migrate_market_to_v3,
};
use crate::math::{abs_int, sat_u128};
use crate::pda::{key_bytes, program_address, verify_position_pda, verify_trader_state_pda};
use crate::pool_laws::lemma_rounds_down;
use crate::quoter::{
    collect_returns, compute_gross_notional, compute_mean, compute_net_notional,
    compute_return_bps, compute_utilization_bps, compute_variance, gross_notional,
    lemma_deviations_fit, realized_vol_bps_from_window, return_bps, returns_of, sat_sum,
    square_sum, variance_of, window_len,
};
use crate::state::{
    EnvelopeParams, FlpExposureAccount, FlpMarketExposure, InsuranceFundAccount, LpPositionAccount,
    MarketAccount, MarketEnvelopeConfigAccount, MarketParams, PositionAccount, TraderStateAccount,
    VaultAccountV3,
};
use crate::trader::{
    migrate_position_to_trader_state_key, open_trader_state, open_trader_sub_account,
};
use crate::vaults_v3::{MAX_PERF_FEE_BPS, create_vault_v3};

verus! {

/// An account is a trader's with a given index exactly if it stands at the address that
/// the trader, the index of a sub-account and the bump determine.
pub proof fn law_trader_account_is_bound(
    seed: &Vec<u8>,
    sub: u8,
    trader: Pubkey,
    actual: Pubkey,
    bump: u8,
    program_id: Pubkey,
    r: Result<(), FlashBookError>,
)
    requires
        call_ensures(
            verify_trader_state_pda,
            (seed, sub, trader, actual, bump, program_id),
            r,
        ),
    ensures
        r is Ok <==> program_address(
            if sub == 0 {
                seq![seed@, key_bytes(trader), seq![bump]]
            } else {
                seq![seed@, key_bytes(trader), seq![sub], seq![bump]]
            },
            program_id,
        ) == Some(actual),
        r matches Err(e) ==> e == FlashBookError::WrongTrader,
{
}

/// A position is a trader account's in a market exactly if it stands at the address
/// that the two and the bump determine.
pub proof fn law_position_is_bound(
    seed: &Vec<u8>,
    market: Pubkey,
    state: Pubkey,
    bump: u8,
    actual: Pubkey,
    program_id: Pubkey,
    r: Result<(), FlashBookError>,
)
    requires
        call_ensures(
            verify_position_pda,
            (seed, market, state, bump, actual, program_id),
            r,
        ),
    ensures
        r is Ok <==> program_address(
            seq![seed@, key_bytes(market), key_bytes(state), seq![bump]],
            program_id,
        ) == Some(actual),
{
}

/// A new trader account is empty and its owner's alone; a sub-account has an index.
pub proof fn law_trader_account_opens_empty(
    trader: Pubkey,
    key: Pubkey,
    bump: u8,
    sub: u8,
    slot: u64,
    r: TraderStateAccount,
    s: Result<(TraderStateAccount, SubAccountOpenedEvent), FlashBookError>,
)
    requires
        call_ensures(open_trader_state, (trader, bump, slot), r),
        call_ensures(open_trader_sub_account, (trader, key, bump, sub, slot), s),
    ensures
        opens_empty(r, trader, bump, 0, slot),
        s is Ok <==> sub > 0,
        s matches Ok((t, e)) ==> opens_empty(t, trader, bump, sub, slot) && e.trader == trader
            && e.sub_index == sub && e.sub_account == key,
{
}

/// An account of a trader that holds nothing and has named nobody.
pub open spec fn opens_empty(t: TraderStateAccount, trader: Pubkey, bump: u8, sub: u8, slot: u64) -> bool {
    let nobody = Pubkey { hi: 0, lo: 0 };
    &&& t.trader == trader && t.bump == bump && t.sub_index == sub
    &&& t.collateral_quote_lots == 0 && t.realized_pnl_quote_lots == 0 && t.open_positions == 0
    &&& t.fee_discount_bps == 0 && t.orders_this_batch == 0 && t.volume_30d_quote_lots == 0
        && t.volume_window_start_slot == slot
    &&& t.delegate == nobody && t.referrer == nobody && !t.referrer_locked && t.builder == nobody
        && t.builder_max_fee_share_bps == 0
}

/// A position that moves to a new address keeps its size, price, result, funding and
/// collateral.
pub proof fn law_migration_keeps_the_position(
    s: &TraderStateAccount,
    p: &PositionAccount,
    trader: Pubkey,
    market: Pubkey,
    bump: u8,
    r: Result<(PositionAccount, PositionMigratedEvent), FlashBookError>,
)
    requires
        call_ensures(migrate_position_to_trader_state_key, (s, p, trader, market, bump), r),
    ensures
        r is Ok <==> s.trader == trader && p.trader == trader && p.market == market,
        r matches Ok((q, e)) ==> q.size_lots == p.size_lots && q.side == p.side
            && q.entry_price_ticks == p.entry_price_ticks && q.collateral_quote_lots
            == p.collateral_quote_lots && q.realized_pnl_quote_lots == p.realized_pnl_quote_lots
            && q.funding_paid_quote_lots == p.funding_paid_quote_lots
            && q.cum_funding_index_at_entry == p.cum_funding_index_at_entry && q.trader == trader
            && q.market == market && q.bump == bump && q.last_liquidated_at_slot
            == p.last_liquidated_at_slot && q.unhealthy_since_slot == p.unhealthy_since_slot
            && e.size_lots == p.size_lots && e.collateral_quote_lots == p.collateral_quote_lots,
{
}

/// A pool opens with its founder's capital, one share per quote lot, and no position.
pub proof fn law_pool_opens_with_its_capital(
    authority: Pubkey,
    bump: u8,
    lp_bump: u8,
    capital: u64,
    r: (FlpExposureAccount, LpPositionAccount, FlpExposureInitializedEvent),
)
    requires
        call_ensures(initialize_flp_exposure, (authority, bump, lp_bump, capital), r),
    ensures
        r.0.total_capital_quote_lots == capital && r.0.lp_shares_outstanding == capital
            && r.0.realized_pnl == 0 && r.0.markets_count == 0 && r.0.authority == authority,
        r.1.shares == capital && r.1.lp == authority && r.1.total_deposited_quote_lots == capital
            && r.1.total_withdrawn_quote_lots == 0,
        r.0.per_market@.len() == 16,
        forall|i: int|
            0 <= i < 16 ==> (#[trigger] r.0.per_market@[i]).side == 255
                && r.0.per_market@[i].size_lots == 0,
{
    assert forall|i: int| 0 <= i < 16 implies (#[trigger] r.0.per_market@[i]).side == 255
        && r.0.per_market@[i].size_lots == 0 by {
        assert(r.0@.per_market[i] == r.0.per_market@[i]);
    }
}

/// The insurance fund opens empty, with the shares and the threshold that it was given.
pub proof fn law_fund_opens_empty(
    authority: Pubkey,
    bump: u8,
    mint: Pubkey,
    vault: Pubkey,
    fee_bps: u32,
    tax_bps: u32,
    penalty_bps: u32,
    threshold: u64,
    r: InsuranceFundAccount,
)
    requires
        call_ensures(
            initialize_insurance_fund,
            (authority, bump, mint, vault, fee_bps, tax_bps, penalty_bps, threshold),
            r,
        ),
    ensures
        r.authority == authority && r.bump == bump && r.quote_mint == mint && r.quote_vault
            == vault,
        r.balance_quote_lots == 0 && r.total_contributions == 0 && r.total_payouts == 0,
        r.fee_contribution_bps == fee_bps && r.toxicity_tax_contribution_bps == tax_bps
            && r.liq_penalty_contribution_bps == penalty_bps && r.pause_threshold_quote_lots
            == threshold,
{
}

/// A vault with a fee within the limit opens without
/// shares, for its strategist, and takes deposits.
pub proof fn law_vault_opens_empty(
    vault_key: Pubkey,
    strategist: Pubkey,
    bump: u8,
    vault_id: u8,
    name: [u8; 32],
    fee_bps: u32,
    unix_now: i64,
    r: Result<(VaultAccountV3, VaultV3CreatedEvent), FlashBookError>,
)
    requires
        call_ensures(
            create_vault_v3,
            (vault_key, strategist, bump, vault_id, name, fee_bps, unix_now),
            r,
        ),
    ensures
        r matches Ok((v, e)) ==> v.strategist == strategist && v.shares_outstanding == 0
            && v.total_capital_quote_lots == 0 && v.hwm_nav_per_share_u64x6 == 0
            && v.perf_fee_bps == fee_bps && v.accept_deposits == 1 && v.vault_id == vault_id
            && v.total_perf_shares_minted == 0 && e.vault == vault_key && e.perf_fee_bps == fee_bps,
        r is Ok <==> fee_bps <= MAX_PERF_FEE_BPS,
{
}

/// A book opens empty, with as many places as its bytes hold; growing it adds places
/// and touches no order.
pub proof fn law_book_grows_in_place(
    a: &BookAccount,
    book: &mut MarketBook,
    old_len: u32,
    nodes: u32,
    layout: &BookLayout,
    r: Result<MarketBookExpandedEvent, FlashBookError>,
    opened: Result<(MarketBook, MarketBookInitializedEvent), FlashBookError>,
)
    requires
        layout.node_bytes > 0,
        old_len >= 264,
        old(book)@.wf(),
        old(book)@.capacity == (old_len - 264) / layout.node_bytes as int,
        call_ensures(expand_market_book, (a, book, old_len, nodes, layout), r),
        call_ensures(init_market_book, (a, layout), opened),
    ensures
        r is Ok <==> a.market.authority == a.authority && nodes > 0 && a.owned && nodes
            * layout.node_bytes <= 10_240 && old_len + nodes * layout.node_bytes
            <= layout.max_total_bytes,
        r is Err ==> *final(book) == *old(book),
        r matches Ok(e) ==> final(book).capacity == old(book).capacity + nodes && final(book).bids@
            == old(book).bids@ && final(book).asks@ == old(book).asks@ && final(book).order_seq_counter == old(book).order_seq_counter && e.old_bytes == old_len && e.new_bytes
            == old_len + nodes * layout.node_bytes && e.max_nodes == final(book).capacity,
        opened is Ok <==> a.market.authority == a.authority,
        opened matches Ok((b, e)) ==> b.bids@.len() == 0 && b.asks@.len() == 0
            && b.order_seq_counter == 0 && b.market_pubkey == a.market_key && b.capacity == 8_000int
            / layout.node_bytes as int && e.total_bytes == 8_264,
{
    if r is Ok {
        law_expansion_adds_places(*a, old_len, nodes, *layout);
        assert(final(book)@.bids == final(book).bids@ && final(book)@.asks == final(book).asks@);
    }
}

/// Migrating a market sets the defaults of its mark engine once, for its authority, and
/// changes nothing else.
pub proof fn law_market_migrates_once(
    m: &mut MarketAccount,
    key: Pubkey,
    authority: Pubkey,
    current: u32,
    target: u32,
    slot: u64,
    r: Result<Option<MarketMigratedToV3Event>, FlashBookError>,
)
    requires
        call_ensures(migrate_market_to_v3, (m, key, authority, current, target, slot), r),
    ensures
        r is Err ==> *final(m) == *old(m),
        r is Ok <==> target <= 10_485_760 && current <= target && old(m).authority == authority,
        r is Ok && current == target && old(m).params.mark_ema_alpha_bps != 0 ==> *final(m)
            == *old(m) && r->Ok_0 is None,
        r is Ok && r->Ok_0 is Some ==> *final(m) == (MarketAccount {
            params: MarketParams {
                mark_ema_alpha_bps: 2_000,
                mark_max_change_bps: 500,
                mark_settle_min_slots: 10,
                drift_alert_bps: 100,
                ..old(m).params
            },
            last_mark_settle_slot: final(m).last_mark_settle_slot,
            ..*old(m)
        }) && (current < target ==> final(m).last_mark_settle_slot == slot),
{
}

/// A market's authority declares the bounds on its price moves, if they were proved;
/// what was observed and counted stays, and the version goes up.
pub proof fn law_bounds_are_declared(
    key: Pubkey,
    m: &MarketAccount,
    authority: Pubkey,
    bump: u8,
    c: &mut MarketEnvelopeConfigAccount,
    p: EnvelopeParams,
    proved: Result<(), EnvelopeError>,
    slot: u64,
    r: Result<EnvelopeConfigSetEvent, FlashBookError>,
)
    requires
        call_ensures(
            set_envelope_config,
            (key, m, authority, bump, c, p, proved, slot),
            r,
        ),
    ensures
        r is Ok <==> m.authority == authority && proved is Ok,
        r is Err ==> *final(c) == *old(c),
        r is Ok ==> final(c).params == p && final(c).last_proven_at_slot == slot,
        r is Ok && old(c).market != (Pubkey { hi: 0, lo: 0 }) ==> final(c).market == old(c).market
            && final(c).last_observed_slot == old(c).last_observed_slot && final(c).last_observed_price_ticks == old(c).last_observed_price_ticks && final(c).gate_passes
            == old(c).gate_passes && final(c).gate_rejects == old(c).gate_rejects && (old(c).version
            < u32::MAX ==> final(c).version == old(c).version + 1),
        r is Ok && old(c).market == (Pubkey { hi: 0, lo: 0 }) ==> final(c).market == key && final(c).version == 1 && final(c).last_observed_slot == 0 && final(c).gate_passes == 0 && final(c).gate_rejects == 0,
{
}

/// What the pool's positions cost at their entry prices, added up without any bound.
pub open spec fn cost(s: Seq<FlpMarketExposure>, tick: u64, n: int) -> int
    decreases n,
{
    if n <= 0 {
        0
    } else {
        cost(s, tick, n - 1) + (if s[n - 1].side == 255 {
            0
        } else {
            s[n - 1].size_lots * s[n - 1].entry_price_ticks * tick
        })
    }
}

/// The running total is the sum, as far as it fits.
pub proof fn lemma_cost(s: Seq<FlpMarketExposure>, tick: u64, n: int)
    requires
        0 <= n <= s.len(),
    ensures
        0 <= cost(s, tick, n),
        gross_notional(s, tick, n) == if cost(s, tick, n) <= u128::MAX {
            cost(s, tick, n)
        } else {
            u128::MAX as int
        },
    decreases n,
{
    if n > 0 {
        lemma_cost(s, tick, n - 1);
        lemma_worth_of_one(s[n - 1].size_lots, s[n - 1].entry_price_ticks, tick);
    }
}

/// The pool's gross position counts every market in which it has one; how much of its
/// capital is in use is that over the capital, and its net position in a market has the
/// sign of its side.
pub proof fn law_quoter_sees_the_whole_pool(
    s: &Vec<FlpMarketExposure>,
    market: Pubkey,
    tick: u64,
    capital: u64,
    k: int,
    gross: u128,
    used: u32,
    net: i64,
)
    requires
        call_ensures(compute_gross_notional, (s, tick), gross),
        call_ensures(compute_utilization_bps, (gross, capital), used),
        call_ensures(compute_net_notional, (s, market, tick), net),
        0 <= k < s@.len(),
    ensures
        gross == if cost(s@, tick, s@.len() as int) <= u128::MAX {
            cost(s@, tick, s@.len() as int)
        } else {
            u128::MAX as int
        },
        capital == 0 ==> used == 0,
        capital > 0 && gross * 10_000 <= u128::MAX && used < u32::MAX ==> used * capital <= gross
            * 10_000 < (used + 1) * capital,
        (forall|j: int|
            0 <= j < s@.len() ==> (#[trigger] s@[j]).side == 255 || s@[j].market != market) ==> net
            == 0,
        s@[k].side != 255 && s@[k].market == market && (forall|j: int|
            0 <= j < k ==> (#[trigger] s@[j]).side == 255 || s@[j].market != market) && s@[k].size_lots
            * s@[k].entry_price_ticks * tick <= i64::MAX ==> net == (if s@[k].side == 0 {
            s@[k].size_lots * s@[k].entry_price_ticks * tick
        } else {
            -(s@[k].size_lots * s@[k].entry_price_ticks * tick)
        }),
{
    lemma_cost(s@, tick, s@.len() as int);
    if capital > 0 {
        lemma_rounds_down(sat_u128(gross * 10_000), capital as int);
    }
    lemma_slot_bounds(s@, market, 0);
    lemma_worth_of_one(s@[k].size_lots, s@[k].entry_price_ticks, tick);
    if s@[k].side != 255 && s@[k].market == market && (forall|j: int|
        0 <= j < k ==> (#[trigger] s@[j]).side == 255 || s@[j].market != market) {
        lemma_slot_at(s@, market, 0, k);
    }
}

/// A change from one price to the next is told in basis points of the first, towards
/// zero.
pub proof fn law_return_is_relative(p0: u64, p1: u64, r: i64)
    requires
        p0 > 0,
        call_ensures(compute_return_bps, (p0, p1), r),
    ensures
        p1 >= p0 && r < i64::MAX ==> r * p0 <= (p1 - p0) * 10_000 < (r + 1) * p0,
        p1 <= p0 ==> (-r) * p0 <= (p0 - p1) * 10_000 < (-r + 1) * p0,
{
    let d = abs_int(p1 - p0) * 10_000;
    lemma_rounds_down(d, p0 as int);
    let q = d / (p0 as int);
    if p1 <= p0 {
        assert(q <= 10_000) by (nonlinear_arith)
            requires
                q == d / (p0 as int),
                0 <= d <= p0 * 10_000,
                p0 > 0,
        ;
    }
}

/// Prices that never change have no volatility.
pub proof fn law_constant_prices_have_no_volatility(prices: &Vec<u64>, count: u8, r: u32)
    requires
        call_ensures(realized_vol_bps_from_window, (prices, count), r),
        forall|i: int, j: int|
            0 <= i < j < prices@.len() ==> #[trigger] prices@[i] == #[trigger] prices@[j],
    ensures
        r == 0,
{
    let n = window_len(prices@, count);
    lemma_no_changes(prices@, n);
    let s = returns_of(prices@, n);
    if s.len() > 0 {
        lemma_zero_sums(s, s.len() as int);
        let k = s.len() as int;
        assert(0int / k == 0) by (nonlinear_arith)
            requires
                k > 0,
        ;
        assert(variance_of(s) == 0);
        assert(r == 0) by (nonlinear_arith)
            requires
                r * r <= 0,
                r >= 0,
        ;
    }
}

/// Equal prices change by nothing.
pub proof fn lemma_no_changes(prices: Seq<u64>, n: int)
    requires
        n <= prices.len(),
        forall|i: int, j: int|
            0 <= i < j < prices.len() ==> #[trigger] prices[i] == #[trigger] prices[j],
    ensures
        forall|i: int| 0 <= i < returns_of(prices, n).len() ==> #[trigger] returns_of(prices, n)[i]
            == 0,
    decreases n,
{
    if n >= 2 {
        lemma_no_changes(prices, n - 1);
        assert(prices[n - 2] == prices[n - 1]);
        let p = prices[n - 2] as int;
        if p > 0 {
            assert(0int / p == 0) by (nonlinear_arith)
                requires
                    p > 0,
            ;
            let rest = returns_of(prices, n - 1);
            let change = return_bps(prices[n - 2], prices[n - 1]);
            assert(change == 0);
            assert(returns_of(prices, n) == rest.push(change));
            assert forall|i: int| 0 <= i < rest.push(change).len() implies #[trigger] rest.push(
                change,
            )[i] == 0 by {
                if i < rest.len() {
                    assert(rest[i] == 0);
                }
            }
        } else {
            assert(returns_of(prices, n) == returns_of(prices, n - 1));
        }
    }
}

/// Sums of nothing are nothing.
pub proof fn lemma_zero_sums(s: Seq<i64>, n: int)
    requires
        0 <= n <= s.len(),
        forall|i: int| 0 <= i < s.len() ==> #[trigger] s[i] == 0,
    ensures
        sat_sum(s, n) == 0,
        square_sum(s, 0, n) == 0,
    decreases n,
{
    if n > 0 {
        lemma_zero_sums(s, n - 1);
        assert(s[n - 1] == 0);
    }
}

/// The sum of some numbers.
pub open spec fn total_of(s: Seq<i64>, n: int) -> int
    decreases n,
{
    if n <= 0 {
        0
    } else {
        total_of(s, n - 1) + s[n - 1]
    }
}

/// The sum of the squared distances of some numbers from `m`.
pub open spec fn squares_of(s: Seq<i64>, m: int, n: int) -> int
    decreases n,
{
    if n <= 0 {
        0
    } else {
        squares_of(s, m, n - 1) + (s[n - 1] - m) * (s[n - 1] - m)
    }
}

/// Sums of ordinary changes fit.
pub proof fn lemma_ordinary_sums(s: Seq<i64>, m: int, n: int)
    requires
        0 <= n <= s.len() <= u8::MAX,
        -1_000_000_000 <= m <= 1_000_000_000,
        forall|i: int|
            0 <= i < s.len() ==> -1_000_000_000 <= #[trigger] s[i] <= 1_000_000_000,
    ensures
        sat_sum(s, n) == total_of(s, n),
        -1_000_000_000 * n <= total_of(s, n) <= 1_000_000_000 * n,
        square_sum(s, m, n) == squares_of(s, m, n),
        0 <= squares_of(s, m, n) <= 4_000_000_000_000_000_000 * n,
    decreases n,
{
    if n > 0 {
        lemma_ordinary_sums(s, m, n - 1);
        let d = s[n - 1] - m;
        assert(-1_000_000_000 <= s[n - 1] <= 1_000_000_000);
        assert(0 <= d * d <= 4_000_000_000_000_000_000) by (nonlinear_arith)
            requires
                -2_000_000_000 <= d <= 2_000_000_000,
        ;
    }
}

/// The volatility of a window is the deviation of the changes between its prices: the
/// root of the mean squared distance from their mean, rounded down, at most one hundred
/// percent. A change is counted from each price to the next.
pub proof fn law_volatility_is_the_deviation(
    prices: &Vec<u64>,
    count: u8,
    n: usize,
    s: Vec<i64>,
    m: i64,
    v: u128,
    r: u32,
)
    requires
        n == (if count as int <= prices@.len() {
            count as int
        } else {
            prices@.len() as int
        }),
        n >= 2,
        forall|i: int| 0 <= i < prices@.len() ==> #[trigger] prices@[i] > 0,
        call_ensures(collect_returns, (prices, n), s),
        call_ensures(compute_mean, (&s,), m),
        call_ensures(compute_variance, (&s, m), v),
        call_ensures(realized_vol_bps_from_window, (prices, count), r),
        forall|i: int|
            0 <= i < s@.len() ==> -1_000_000_000 <= #[trigger] s@[i] <= 1_000_000_000,
    ensures
        s@.len() == n - 1,
        forall|i: int|
            0 <= i < n - 1 ==> ({
                let p0 = prices@[i];
                let p1 = prices@[i + 1];
                &&& p1 >= p0 ==> #[trigger] s@[i] * p0 <= (p1 - p0) * 10_000 < (s@[i] + 1) * p0
                &&& p1 <= p0 ==> (-s@[i]) * p0 <= (p0 - p1) * 10_000 < (-s@[i] + 1) * p0
            }),
        ({
            let k = n - 1;
            let t = total_of(s@, k);
            &&& t >= 0 ==> m * k <= t < (m + 1) * k
            &&& t < 0 ==> (m - 1) * k < t <= m * k
            &&& v * k <= squares_of(s@, m as int, k) < (v + 1) * k
        }),
        r <= 10_000 && r * r <= v,
        r < 10_000 ==> v < (r + 1) * (r + 1),
{
    let k = n - 1;
    lemma_all_returns(prices@, n as int);
    assert(s@ == returns_of(prices@, n as int));
    assert(window_len(prices@, count) == n);
    lemma_deviations_fit(prices@, n as int);
    lemma_ordinary_sums(s@, 0, k);
    let t = total_of(s@, k);
    lemma_rounds_down(abs_int(t), k as int);
    let q = abs_int(t) / (k as int);
    assert(q <= 1_000_000_000) by (nonlinear_arith)
        requires
            q * k <= abs_int(t),
            abs_int(t) <= 1_000_000_000 * k,
            k > 0,
    ;
    assert(m == if t >= 0 {
        q
    } else {
        -q
    });
    if t < 0 {
        assert((-q - 1) * k == -((q + 1) * k) && (-q) * k == -(q * k)) by (nonlinear_arith);
    }
    lemma_ordinary_sums(s@, m as int, k);
    lemma_rounds_down(squares_of(s@, m as int, k), k as int);
    assert forall|i: int| 0 <= i < n - 1 implies ({
        let p0 = prices@[i];
        let p1 = prices@[i + 1];
        &&& p1 >= p0 ==> #[trigger] s@[i] * p0 <= (p1 - p0) * 10_000 < (s@[i] + 1) * p0
        &&& p1 <= p0 ==> (-s@[i]) * p0 <= (p0 - p1) * 10_000 < (-s@[i] + 1) * p0
    }) by {
        let p0 = prices@[i];
        let p1 = prices@[i + 1];
        assert(s@[i] == return_bps(p0, p1));
        let d = abs_int(p1 - p0) * 10_000;
        lemma_rounds_down(d, p0 as int);
        let x = d / (p0 as int);
        if p1 <= p0 {
            assert(x <= 10_000) by (nonlinear_arith)
                requires
                    x == d / (p0 as int),
                    0 <= d <= p0 * 10_000,
                    p0 > 0,
            ;
        }
    }
}

/// With positive prices every one of them is compared with the next.
pub proof fn lemma_all_returns(prices: Seq<u64>, n: int)
    requires
        1 <= n <= prices.len(),
        forall|i: int| 0 <= i < prices.len() ==> #[trigger] prices[i] > 0,
    ensures
        returns_of(prices, n).len() == n - 1,
        forall|i: int|
            0 <= i < n - 1 ==> #[trigger] returns_of(prices, n)[i] == return_bps(
                prices[i],
                prices[i + 1],
            ),
    decreases n,
{
    if n >= 2 {
        lemma_all_returns(prices, n - 1);
        assert(prices[n - 2] > 0);
        let rest = returns_of(prices, n - 1);
        let change = return_bps(prices[n - 2], prices[n - 1]);
        assert(returns_of(prices, n) == rest.push(change));
        assert forall|i: int| 0 <= i < n - 1 implies #[trigger] rest.push(change)[i] == return_bps(
            prices[i],
            prices[i + 1],
        ) by {
            if i < n - 2 {
                assert(rest[i] == return_bps(prices[i], prices[i + 1]));
            }
        }
    }
}

} // verus!
