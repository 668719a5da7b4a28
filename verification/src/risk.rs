//! What the margin engine is asked about, and the walk over a trader's positions
//! that prepares the question.
use vstd::prelude::*;

use crate::constants::BPS_DENOM;
use crate::errors::FlashBookError;
use crate::events::PortfolioRiskEvent;
use crate::keys::Pubkey;
use crate::mark::{sat_notional, sat_unrealized, saturating_notional, saturating_unrealized};
use crate::math::{
    clamp_i128_to_i64, clamp_u128_to_u32, clamp_u128_to_u64, sat_i128, sat_i64, sat_u128, sat_u32,
    sat_u64, saturating_add_i128, saturating_mul_u128,
};
use crate::pda::{
    check_derived, derive_position_address, derived_refusal, position_seeds, program_address,
};
use crate::state::{MarketAccount, PositionAccount, Side, TraderStateAccount, side_of_byte};

verus! {

/// A position as the margin engine sees it.
#[derive(Clone, Copy, Debug, PartialEq, Eq, Structural)]
pub struct RiskPosSnap {
    pub market: Pubkey,
    pub side: Side,
    pub size_lots: u64,
    pub entry_price_ticks: u64,
    pub cum_funding_index_at_entry: i128,
    pub collateral_quote_lots: u64,
}

/// A market as the margin engine sees it.
#[derive(Clone, Copy, Debug, PartialEq, Eq, Structural)]
pub struct RiskMarketSnap {
    pub market: Pubkey,
    pub mark_price_ticks: u64,
    pub cum_funding_index: i128,
    /// The ratio that positions are held to: maintenance margin in liquidations,
    /// initial margin in withdrawals.
    pub margin_bps: u32,
    pub tick_size: u64,
    pub concentration_threshold_lots: u64,
    pub concentration_extra_mmr_bps: u32,
}

/// The margin engine's answer.
#[derive(Clone, Copy, Debug, PartialEq, Eq, Structural)]
pub struct MarginAssessment {
    pub is_healthy: bool,
    pub required_quote_lots: u64,
    pub equity_quote_lots_signed: i128,
    pub worst_scenario_idx: u32,
}

/// What the margin engine came back with.
pub type Assessment = Result<MarginAssessment, FlashBookError>;

/// One market and the trader's position in it, as they come with a request.
#[derive(Clone, Copy, Debug, PartialEq, Eq, Structural)]
pub struct PortfolioEntry {
    pub market_key: Pubkey,
    /// The market account belongs to this program.
    pub market_owned: bool,
    pub market: MarketAccount,
    pub position_key: Pubkey,
    /// The position account belongs to this program.
    pub position_owned: bool,
    pub position: PositionAccount,
}

/// A position as the margin engine sees it, with the given collateral.
pub open spec fn pos_snap(p: PositionAccount, collateral: u64) -> RiskPosSnap {
    RiskPosSnap {
        market: p.market,
        side: side_of_byte(p.side),
        size_lots: p.size_lots,
        entry_price_ticks: p.entry_price_ticks,
        cum_funding_index_at_entry: p.cum_funding_index_at_entry,
        collateral_quote_lots: collateral,
    }
}

/// A market as the margin engine sees it, at the given price and ratio.
pub open spec fn market_snap(key: Pubkey, m: MarketAccount, price: u64, margin_bps: u32) -> RiskMarketSnap {
    RiskMarketSnap {
        market: key,
        mark_price_ticks: price,
        cum_funding_index: m.cum_funding_index,
        margin_bps,
        tick_size: m.params.tick_size,
        concentration_threshold_lots: m.params.concentration_threshold_lots,
        concentration_extra_mmr_bps: m.params.concentration_extra_mmr_bps,
    }
}

/// Takes the margin engine's view of a position.
pub fn snap_position(p: &PositionAccount, collateral: u64) -> (r: RiskPosSnap)
    ensures
        r == pos_snap(*p, collateral),
{
    RiskPosSnap {
        market: p.market,
        side: Side::from_byte(p.side),
        size_lots: p.size_lots,
        entry_price_ticks: p.entry_price_ticks,
        cum_funding_index_at_entry: p.cum_funding_index_at_entry,
        collateral_quote_lots: collateral,
    }
}

/// Takes the margin engine's view of a market.
pub fn snap_market(key: Pubkey, m: &MarketAccount, price: u64, margin_bps: u32) -> (r:
    RiskMarketSnap)
    ensures
        r == market_snap(key, *m, price, margin_bps),
{
    RiskMarketSnap {
        market: key,
        mark_price_ticks: price,
        cum_funding_index: m.cum_funding_index,
        margin_bps,
        tick_size: m.params.tick_size,
        concentration_threshold_lots: m.params.concentration_threshold_lots,
        concentration_extra_mmr_bps: m.params.concentration_extra_mmr_bps,
    }
}

/// What the margin engine is asked about.
#[derive(Debug)]
pub struct Portfolio {
    pub positions: Vec<RiskPosSnap>,
    pub markets: Vec<RiskMarketSnap>,
}

/// The ratio that an entry is held to.
pub open spec fn entry_margin(e: PortfolioEntry, initial: bool) -> u32 {
    if initial {
        e.market.params.initial_margin_ratio_bps
    } else {
        e.market.params.maintenance_margin_ratio_bps
    }
}

/// The positions of some entries as the margin engine sees them.
pub open spec fn pos_snaps(es: Seq<PortfolioEntry>) -> Seq<RiskPosSnap> {
    es.map_values(|e: PortfolioEntry| pos_snap(e.position, e.position.collateral_quote_lots))
}

/// The markets of some entries as the margin engine sees them.
pub open spec fn market_snaps(es: Seq<PortfolioEntry>, initial: bool) -> Seq<RiskMarketSnap> {
    es.map_values(
        |e: PortfolioEntry|
            market_snap(e.market_key, e.market, e.market.mark_price_ticks, entry_margin(e, initial)),
    )
}

/// Why an entry does not belong to the trader, if it does not.
pub open spec fn entry_owner_refusal(e: PortfolioEntry, trader: Pubkey, foreign: FlashBookError) -> Option<
    FlashBookError,
> {
    if !e.market_owned || !e.position_owned {
        Some(foreign)
    } else if e.position.trader != trader {
        Some(FlashBookError::WrongTrader)
    } else if e.position.market != e.market_key {
        Some(FlashBookError::WrongMarket)
    } else {
        None
    }
}

/// Tests that an entry belongs to the trader.
pub fn check_entry_owner(e: &PortfolioEntry, trader: Pubkey, foreign: FlashBookError) -> (r: Result<
    (),
    FlashBookError,
>)
    ensures
        r == (match entry_owner_refusal(*e, trader, foreign) {
            Some(x) => Err::<(), FlashBookError>(x),
            None => Ok(()),
        }),
{
    if !e.market_owned || !e.position_owned {
        return Err(foreign);
    }
    if e.position.trader != trader {
        return Err(FlashBookError::WrongTrader);
    }
    if e.position.market != e.market_key {
        return Err(FlashBookError::WrongMarket);
    }
    Ok(())
}

/// Whether a market occurs among the first `n` entries.
pub open spec fn market_among(es: Seq<PortfolioEntry>, n: int, key: Pubkey) -> bool {
    exists|k: int| 0 <= k < n && (#[trigger] es[k]).market_key == key
}

/// Looks for a market among the first `n` entries.
pub fn has_market(es: &Vec<PortfolioEntry>, n: usize, key: Pubkey) -> (r: bool)
    requires
        n <= es@.len(),
    ensures
        r == market_among(es@, n as int, key),
{
    let mut i: usize = 0;
    while i < n
        invariant
            i <= n <= es@.len(),
            forall|k: int| 0 <= k < i ==> (#[trigger] es@[k]).market_key != key,
        decreases n - i,
    {
        if es[i].market_key == key {
            return true;
        }
        i = i + 1;
    }
    false
}

/// Why an entry is refused once its address has been derived, if it is. With a
/// target, the entry is one of the trader's other positions: it has to draw on
/// the pool and be in another market. Every entry is live and in a market of its
/// own.
pub open spec fn entry_state_refusal(
    es: Seq<PortfolioEntry>,
    i: int,
    derived: Option<Pubkey>,
    target: Option<Pubkey>,
) -> Option<FlashBookError> {
    let e = es[i];
    match derived_refusal(derived, e.position_key, FlashBookError::OutOfRange) {
        Some(x) => Some(x),
        None => if target is Some && e.position.collateral_quote_lots != 0 {
            Some(FlashBookError::OutOfRange)
        } else if e.position.size_lots == 0 {
            Some(FlashBookError::ZeroSize)
        } else if target == Some(e.market_key) {
            Some(FlashBookError::OutOfRange)
        } else if market_among(es, i, e.market_key) {
            Some(FlashBookError::OutOfRange)
        } else {
            None
        },
    }
}

/// Tests an entry whose address has been derived.
pub fn check_entry_state(
    es: &Vec<PortfolioEntry>,
    i: usize,
    derived: Option<Pubkey>,
    target: Option<Pubkey>,
) -> (r: Result<(), FlashBookError>)
    requires
        i < es@.len(),
    ensures
        r == (match entry_state_refusal(es@, i as int, derived, target) {
            Some(x) => Err::<(), FlashBookError>(x),
            None => Ok(()),
        }),
{
    let e: PortfolioEntry = es[i];
    match check_derived(derived, e.position_key, FlashBookError::OutOfRange) {
        Ok(_) => {},
        Err(x) => {
            return Err(x);
        },
    }
    if target.is_some() && e.position.collateral_quote_lots != 0 {
        return Err(FlashBookError::OutOfRange);
    }
    if e.position.size_lots == 0 {
        return Err(FlashBookError::ZeroSize);
    }
    if let Some(t) = target {
        if t == e.market_key {
            return Err(FlashBookError::OutOfRange);
        }
    }
    if has_market(es, i, e.market_key) {
        return Err(FlashBookError::OutOfRange);
    }
    Ok(())
}

/// Where the positions of a trader account live.
#[derive(Debug)]
pub struct Binding {
    pub position_seed: Vec<u8>,
    pub trader_state_key: Pubkey,
    pub program_id: Pubkey,
}

/// The address that an entry's position should have.
pub open spec fn entry_address(e: PortfolioEntry, b: Binding) -> Option<Pubkey> {
    program_address(
        position_seeds(b.position_seed@, e.market_key, b.trader_state_key, e.position.bump),
        b.program_id,
    )
}

/// Why the entries from `i` on are refused, if they are: the first reason found.
pub open spec fn portfolio_refusal(
    es: Seq<PortfolioEntry>,
    i: int,
    trader: Pubkey,
    b: Binding,
    foreign: FlashBookError,
    target: Option<Pubkey>,
) -> Option<FlashBookError>
    decreases es.len() - i,
{
    if i >= es.len() {
        None
    } else {
        match entry_owner_refusal(es[i], trader, foreign) {
            Some(x) => Some(x),
            None => match entry_state_refusal(es, i, entry_address(es[i], b), target) {
                Some(x) => Some(x),
                None => portfolio_refusal(es, i + 1, trader, b, foreign, target),
            },
        }
    }
}

/// Walks a trader's positions, binding each to the trader's account, and prepares
/// the question for the margin engine.
pub fn collect_bound_portfolio(
    es: &Vec<PortfolioEntry>,
    trader: Pubkey,
    b: &Binding,
    foreign: FlashBookError,
    target: Option<Pubkey>,
    initial: bool,
) -> (r: Result<Portfolio, FlashBookError>)
    ensures
        match portfolio_refusal(es@, 0, trader, *b, foreign, target) {
            Some(x) => r is Err && r->Err_0 == x,
            None => r is Ok && r->Ok_0.positions@ == pos_snaps(es@) && r->Ok_0.markets@
                == market_snaps(es@, initial),
        },
{
    let mut positions: Vec<RiskPosSnap> = Vec::new();
    let mut markets: Vec<RiskMarketSnap> = Vec::new();
    let mut i: usize = 0;
    while i < es.len()
        invariant
            i <= es@.len(),
            positions@ == pos_snaps(es@).take(i as int),
            markets@ == market_snaps(es@, initial).take(i as int),
            portfolio_refusal(es@, 0, trader, *b, foreign, target) == portfolio_refusal(
                es@,
                i as int,
                trader,
                *b,
                foreign,
                target,
            ),
        decreases es@.len() - i,
    {
        let e: PortfolioEntry = es[i];
        match check_entry_owner(&e, trader, foreign) {
            Ok(_) => {},
            Err(x) => {
                return Err(x);
            },
        }
        let derived = derive_position_address(
            &b.position_seed,
            e.market_key,
            b.trader_state_key,
            e.position.bump,
            b.program_id,
        );
        match check_entry_state(es, i, derived, target) {
            Ok(_) => {},
            Err(x) => {
                return Err(x);
            },
        }
        let margin_bps: u32 = if initial {
            e.market.params.initial_margin_ratio_bps
        } else {
            e.market.params.maintenance_margin_ratio_bps
        };
        positions.push(snap_position(&e.position, e.position.collateral_quote_lots));
        markets.push(snap_market(e.market_key, &e.market, e.market.mark_price_ticks, margin_bps));
        i = i + 1;
        assert(positions@ =~= pos_snaps(es@).take(i as int));
        assert(markets@ =~= market_snaps(es@, initial).take(i as int));
    }
    assert(pos_snaps(es@).take(i as int) =~= pos_snaps(es@));
    assert(market_snaps(es@, initial).take(i as int) =~= market_snaps(es@, initial));
    Ok(Portfolio { positions, markets })
}

/// Why the entries from `i` on do not belong to the trader, if they do not.
pub open spec fn owners_refusal(
    es: Seq<PortfolioEntry>,
    i: int,
    trader: Pubkey,
    foreign: FlashBookError,
) -> Option<FlashBookError>
    decreases es.len() - i,
{
    if i >= es.len() {
        None
    } else {
        match entry_owner_refusal(es[i], trader, foreign) {
            Some(x) => Some(x),
            None => owners_refusal(es, i + 1, trader, foreign),
        }
    }
}

/// Tests that all entries belong to the trader.
pub fn check_owners(es: &Vec<PortfolioEntry>, trader: Pubkey, foreign: FlashBookError) -> (r: Result<
    (),
    FlashBookError,
>)
    ensures
        r == (match owners_refusal(es@, 0, trader, foreign) {
            Some(x) => Err::<(), FlashBookError>(x),
            None => Ok(()),
        }),
{
    let mut i: usize = 0;
    while i < es.len()
        invariant
            i <= es@.len(),
            owners_refusal(es@, 0, trader, foreign) == owners_refusal(
                es@,
                i as int,
                trader,
                foreign,
            ),
        decreases es@.len() - i,
    {
        match check_entry_owner(&es[i], trader, foreign) {
            Ok(_) => {},
            Err(x) => {
                return Err(x);
            },
        }
        i = i + 1;
    }
    Ok(())
}

/// Notional of the entries from `i` on at their marks, on top of `acc`, at most
/// `u128::MAX`.
pub open spec fn notional_from(es: Seq<PortfolioEntry>, i: int, acc: int) -> int
    decreases es.len() - i,
{
    if i >= es.len() {
        acc
    } else {
        notional_from(es, i + 1, sat_u128(acc + entry_notional(es[i])))
    }
}

/// Notional of one entry at its mark.
pub open spec fn entry_notional(e: PortfolioEntry) -> int {
    sat_notional(
        e.position.size_lots as int,
        e.market.mark_price_ticks as int,
        e.market.params.tick_size as int,
    )
}

/// Adds up the notional of all entries.
pub fn total_notional(es: &Vec<PortfolioEntry>) -> (r: u128)
    ensures
        r == notional_from(es@, 0, 0),
{
    let mut acc: u128 = 0;
    let mut i: usize = 0;
    while i < es.len()
        invariant
            i <= es@.len(),
            notional_from(es@, 0, 0) == notional_from(es@, i as int, acc as int),
        decreases es@.len() - i,
    {
        let e: PortfolioEntry = es[i];
        acc = acc.saturating_add(
            saturating_notional(
                e.position.size_lots,
                e.market.mark_price_ticks,
                e.market.params.tick_size,
            ),
        );
        i = i + 1;
    }
    acc
}

/// The largest notional from `i` on and its market, against what was found before;
/// of two equal ones the first counts.
pub open spec fn largest_from(es: Seq<PortfolioEntry>, i: int, best: (int, Pubkey)) -> (int, Pubkey)
    decreases es.len() - i,
{
    if i >= es.len() {
        best
    } else {
        largest_from(
            es,
            i + 1,
            if entry_notional(es[i]) > best.0 {
                (entry_notional(es[i]), es[i].market_key)
            } else {
                best
            },
        )
    }
}

/// What an entry would bring if it were closed at the mark; nothing is counted
/// without a mark.
pub open spec fn entry_unrealized(e: PortfolioEntry) -> int {
    if e.position.size_lots > 0 && e.market.mark_price_ticks > 0 {
        sat_unrealized(
            e.position,
            e.market.mark_price_ticks as int,
            e.market.params.tick_size as int,
        )
    } else {
        0
    }
}

/// What the entries from `i` on would bring, on top of `acc`, kept in the range of
/// `i128`.
pub open spec fn unrealized_from(es: Seq<PortfolioEntry>, i: int, acc: int) -> int
    decreases es.len() - i,
{
    if i >= es.len() {
        acc
    } else {
        unrealized_from(es, i + 1, sat_i128(acc + entry_unrealized(es[i])))
    }
}

/// Equity in basis points of what is required; `u32::MAX` when nothing is.
pub open spec fn health_ratio(equity: int, required: u64) -> u32 {
    if required == 0 {
        u32::MAX
    } else if equity <= 0 {
        0
    } else {
        sat_u32(sat_u128(equity * BPS_DENOM) / (required as int)) as u32
    }
}

/// Computes the health ratio.
pub fn compute_health_ratio(equity: i128, required: u64) -> (r: u32)
    ensures
        r == health_ratio(equity as int, required),
{
    if required == 0 {
        u32::MAX
    } else if equity <= 0 {
        0
    } else {
        clamp_u128_to_u32(
            saturating_mul_u128(equity as u128, BPS_DENOM as u128) / (required as u128),
        )
    }
}

/// The risk report of a portfolio, given the margin engine's answer; a trader
/// without positions needs none.
pub open spec fn risk_report(
    ts: TraderStateAccount,
    es: Seq<PortfolioEntry>,
    assessment: Assessment,
) -> Result<PortfolioRiskEvent, FlashBookError> {
    if es.len() != ts.open_positions {
        Err(FlashBookError::OutOfRange)
    } else {
        match owners_refusal(es, 0, ts.trader, FlashBookError::OutOfRange) {
            Some(e) => Err(e),
            None => {
                let largest = largest_from(es, 0, (0, Pubkey::none()));
                let (required, equity, worst) = if es.len() == 0 {
                    (0u64, ts.collateral_quote_lots as int, 0u32)
                } else {
                    (
                        assessment->Ok_0.required_quote_lots,
                        assessment->Ok_0.equity_quote_lots_signed as int,
                        assessment->Ok_0.worst_scenario_idx,
                    )
                };
                if es.len() > 0 && assessment is Err {
                    Err(assessment->Err_0)
                } else {
                    Ok(
                        PortfolioRiskEvent {
                            trader: ts.trader,
                            collateral_quote_lots: ts.collateral_quote_lots,
                            unrealized_pnl_quote_lots: sat_i64(unrealized_from(es, 0, 0)) as i64,
                            equity_quote_lots: sat_i64(equity) as i64,
                            required_margin_quote_lots: required,
                            health_ratio_bps: health_ratio(equity, required),
                            largest_position_market: largest.1,
                            largest_position_notional_quote_lots: sat_u64(largest.0) as u64,
                            open_positions: ts.open_positions,
                            worst_scenario_idx: worst,
                        },
                    )
                }
            },
        }
    }
}

/// Reports the risk of a trader's whole portfolio. `assessment` is the margin
/// engine's answer on the snapshots of the entries.
pub fn view_portfolio_risk(
    trader_state: &TraderStateAccount,
    es: &Vec<PortfolioEntry>,
    assessment: Assessment,
) -> (r: Result<PortfolioRiskEvent, FlashBookError>)
    ensures
        r == risk_report(*trader_state, es@, assessment),
{
    if es.len() != trader_state.open_positions as usize {
        return Err(FlashBookError::OutOfRange);
    }
    match check_owners(es, trader_state.trader, FlashBookError::OutOfRange) {
        Ok(_) => {},
        Err(x) => {
            return Err(x);
        },
    }
    let mut largest: u128 = 0;
    let mut largest_market = Pubkey::default_key();
    let mut unrealized: i128 = 0;
    let mut i: usize = 0;
    while i < es.len()
        invariant
            i <= es@.len(),
            largest_from(es@, 0, (0, Pubkey::none())) == largest_from(
                es@,
                i as int,
                (largest as int, largest_market),
            ),
            unrealized_from(es@, 0, 0) == unrealized_from(es@, i as int, unrealized as int),
        decreases es@.len() - i,
    {
        let e: PortfolioEntry = es[i];
        let notional: u128 = saturating_notional(
            e.position.size_lots,
            e.market.mark_price_ticks,
            e.market.params.tick_size,
        );
        if notional > largest {
            largest = notional;
            largest_market = e.market_key;
        }
        let gain: i128 = if e.position.size_lots > 0 && e.market.mark_price_ticks > 0 {
            saturating_unrealized(
                &e.position,
                e.market.mark_price_ticks,
                e.market.params.tick_size,
            )
        } else {
            0
        };
        unrealized = saturating_add_i128(unrealized, gain);
        i = i + 1;
    }
    let (required, equity, worst): (u64, i128, u32) = if es.len() == 0 {
        (0, trader_state.collateral_quote_lots as i128, 0)
    } else {
        match assessment {
            Ok(a) => (a.required_quote_lots, a.equity_quote_lots_signed, a.worst_scenario_idx),
            Err(e) => {
                return Err(e);
            },
        }
    };
    Ok(
        PortfolioRiskEvent {
            trader: trader_state.trader,
            collateral_quote_lots: trader_state.collateral_quote_lots,
            unrealized_pnl_quote_lots: clamp_i128_to_i64(unrealized),
            equity_quote_lots: clamp_i128_to_i64(equity),
            required_margin_quote_lots: required,
            health_ratio_bps: compute_health_ratio(equity, required),
            largest_position_market: largest_market,
            largest_position_notional_quote_lots: clamp_u128_to_u64(largest),
            open_positions: trader_state.open_positions,
            worst_scenario_idx: worst,
        },
    )
}

} // verus!
