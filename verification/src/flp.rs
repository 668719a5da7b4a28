//! The liquidity pool: its positions, its shares and their price.
use vstd::prelude::*;

use crate::constants::{EMPTY_SIDE, FLP_MARKET_SLOTS};
use crate::errors::FlashBookError;
use crate::events::{FlpCapitalUpdatedEvent, FlpExposureInitializedEvent};
use crate::keys::Pubkey;
use crate::mark::{sat_notional, saturating_notional};
use crate::math::{
    clamp_i128_to_i64, min_int, min_u64, negated_i64, reinterpret_i64, sat_i128, sat_i64, sat_u128,
    saturating_add_i64, wrapped_i64,
};
use crate::position::{checked_closing_pnl, closing_pnl, mean_price, weighted_entry};
use crate::state::{
    FlpExposureAccount, FlpMarketExposure, LpPositionAccount, Side, byte_of_side, side_of_byte,
};

verus! {

/// What a pool account holds.
#[verifier::ext_equal]
pub struct FlpModel {
    pub authority: Pubkey,
    pub bump: u8,
    pub total_capital_quote_lots: u64,
    pub realized_pnl: i64,
    pub markets_count: u8,
    pub lp_shares_outstanding: u64,
    pub per_market: Seq<FlpMarketExposure>,
}

impl View for FlpExposureAccount {
    type V = FlpModel;

    open spec fn view(&self) -> FlpModel {
        FlpModel {
            authority: self.authority,
            bump: self.bump,
            total_capital_quote_lots: self.total_capital_quote_lots,
            realized_pnl: self.realized_pnl,
            markets_count: self.markets_count,
            lp_shares_outstanding: self.lp_shares_outstanding,
            per_market: self.per_market@,
        }
    }
}

impl FlpModel {
    /// The table of positions has its fixed size, and no market has two slots.
    pub open spec fn wf(self) -> bool {
        &&& self.per_market.len() == FLP_MARKET_SLOTS
        &&& forall|i: int, j: int|
            0 <= i < j < self.per_market.len() ==> slots_differ(
                #[trigger] self.per_market[i],
                #[trigger] self.per_market[j],
            )
    }

    /// The count of markets is the number of slots in use.
    pub open spec fn count_right(self) -> bool {
        self.markets_count == live_slots(self.per_market, self.per_market.len() as int)
    }

    /// Net asset value: capital and realized results.
    pub open spec fn nav(self) -> int {
        self.total_capital_quote_lots + self.realized_pnl
    }
}

impl FlpExposureAccount {
    /// Net asset value of the pool.
    pub fn nav(&self) -> (r: i128)
        ensures
            r == self@.nav(),
    {
        self.total_capital_quote_lots as i128 + self.realized_pnl as i128
    }
}

/// Two slots are not used for the same market.
pub open spec fn slots_differ(a: FlpMarketExposure, b: FlpMarketExposure) -> bool {
    a.side == EMPTY_SIDE || b.side == EMPTY_SIDE || a.market != b.market
}

/// How many of the first `n` slots are in use.
pub open spec fn live_slots(s: Seq<FlpMarketExposure>, n: int) -> int
    decreases n,
{
    if n <= 0 {
        0
    } else {
        live_slots(s, n - 1) + (if s[n - 1].side == EMPTY_SIDE {
            0int
        } else {
            1
        })
    }
}

/// First used slot from `i` on that belongs to a market, or the length.
pub open spec fn slot_from(s: Seq<FlpMarketExposure>, market: Pubkey, i: int) -> int
    decreases s.len() - i,
{
    if i >= s.len() || (s[i].side != EMPTY_SIDE && s[i].market == market) {
        i
    } else {
        slot_from(s, market, i + 1)
    }
}

/// First unused slot from `i` on, or the length.
pub open spec fn free_from(s: Seq<FlpMarketExposure>, i: int) -> int
    decreases s.len() - i,
{
    if i >= s.len() || s[i].side == EMPTY_SIDE {
        i
    } else {
        free_from(s, i + 1)
    }
}

/// The pool's side and size in a market; side 255 when it has no position.
pub open spec fn flp_position(s: Seq<FlpMarketExposure>, market: Pubkey) -> (u8, u64) {
    let i = slot_from(s, market, 0);
    if i < s.len() {
        (s[i].side, s[i].size_lots)
    } else {
        (EMPTY_SIDE, 0)
    }
}

/// Finds the pool's slot for a market.
pub fn find_slot(s: &Vec<FlpMarketExposure>, market: Pubkey) -> (r: usize)
    ensures
        r == slot_from(s@, market, 0),
        r <= s@.len(),
{
    let mut i: usize = 0;
    while i < s.len()
        invariant
            i <= s@.len(),
            slot_from(s@, market, 0) == slot_from(s@, market, i as int),
        decreases s@.len() - i,
    {
        if s[i].side != EMPTY_SIDE && s[i].market == market {
            return i;
        }
        i = i + 1;
    }
    i
}

/// Finds an unused slot.
pub fn find_free(s: &Vec<FlpMarketExposure>) -> (r: usize)
    ensures
        r == free_from(s@, 0),
        r <= s@.len(),
{
    let mut i: usize = 0;
    while i < s.len()
        invariant
            i <= s@.len(),
            free_from(s@, 0) == free_from(s@, i as int),
        decreases s@.len() - i,
    {
        if s[i].side == EMPTY_SIDE {
            return i;
        }
        i = i + 1;
    }
    i
}

/// Reads the pool's side and size in a market.
pub fn flp_market_pre_state(flp: &FlpExposureAccount, market: Pubkey) -> (r: (u8, u64))
    ensures
        r == flp_position(flp@.per_market, market),
{
    let i: usize = find_slot(&flp.per_market, market);
    if i < flp.per_market.len() {
        (flp.per_market[i].side, flp.per_market[i].size_lots)
    } else {
        (EMPTY_SIDE, 0)
    }
}

/// The result of closing lots of the pool's position in a slot.
pub open spec fn slot_pnl(cur: FlpMarketExposure, size: u64, price: u64) -> int {
    closing_pnl(
        side_of_byte(cur.side),
        min_int(size as int, cur.size_lots as int),
        cur.entry_price_ticks as int,
        price as int,
    )
}

/// A slot after a fill on the other side: reduced, emptied or flipped.
pub open spec fn slot_reduced(cur: FlpMarketExposure, side: Side, size: u64, price: u64) -> FlpMarketExposure {
    if size < cur.size_lots {
        FlpMarketExposure { size_lots: (cur.size_lots - size) as u64, ..cur }
    } else if size == cur.size_lots {
        FlpMarketExposure { size_lots: 0, side: EMPTY_SIDE, entry_price_ticks: 0, ..cur }
    } else {
        FlpMarketExposure {
            side: byte_of_side(side),
            size_lots: (size - cur.size_lots) as u64,
            entry_price_ticks: price,
            ..cur
        }
    }
}

/// The pool after a fill in a market, or why it cannot be booked. A first fill
/// takes an unused slot; a fill on the same side averages the entry price; one on
/// the other side realizes a result and reduces, empties or flips the slot.
pub open spec fn flp_filled(
    f: FlpModel,
    market: Pubkey,
    side: Side,
    size: u64,
    price: u64,
) -> Result<FlpModel, FlashBookError> {
    let s = f.per_market;
    let i = slot_from(s, market, 0);
    if i >= s.len() {
        let j = free_from(s, 0);
        if j >= s.len() {
            Err(FlashBookError::BufferFull)
        } else {
            Ok(
                FlpModel {
                    per_market: s.update(
                        j,
                        FlpMarketExposure {
                            market,
                            side: byte_of_side(side),
                            size_lots: size,
                            entry_price_ticks: price,
                        },
                    ),
                    markets_count: if f.markets_count == u8::MAX {
                        u8::MAX
                    } else {
                        (f.markets_count + 1) as u8
                    },
                    ..f
                },
            )
        }
    } else {
        let cur = s[i];
        if side_of_byte(cur.side) == side {
            if cur.size_lots + size > u64::MAX {
                Err(FlashBookError::ArithmeticOverflow)
            } else if cur.size_lots + size == 0 {
                Err(FlashBookError::DivisionByZero)
            } else {
                Ok(
                    FlpModel {
                        per_market: s.update(
                            i,
                            FlpMarketExposure {
                                size_lots: (cur.size_lots + size) as u64,
                                entry_price_ticks: mean_price(
                                    cur.entry_price_ticks as int,
                                    cur.size_lots as int,
                                    price as int,
                                    size as int,
                                ) as u64,
                                ..cur
                            },
                        ),
                        ..f
                    },
                )
            }
        } else {
            let pnl = slot_pnl(cur, size, price);
            if sat_i128(pnl) != pnl {
                Err(FlashBookError::ArithmeticOverflow)
            } else {
                Ok(
                    FlpModel {
                        per_market: s.update(i, slot_reduced(cur, side, size, price)),
                        realized_pnl: sat_i64(f.realized_pnl + sat_i64(pnl)) as i64,
                        markets_count: if size == cur.size_lots && f.markets_count > 0 {
                            (f.markets_count - 1) as u8
                        } else {
                            f.markets_count
                        },
                        ..f
                    },
                )
            }
        }
    }
}

/// Books a fill on the pool's position in a market. On refusal nothing changes.
pub fn apply_fill_to_flp_market(
    flp: &mut FlpExposureAccount,
    market: Pubkey,
    fill_side: Side,
    fill_size_lots: u64,
    fill_price_ticks: u64,
) -> (r: Result<(), FlashBookError>)
    ensures
        match flp_filled(old(flp)@, market, fill_side, fill_size_lots, fill_price_ticks) {
            Err(e) => r == Err::<(), FlashBookError>(e) && *final(flp) == *old(flp),
            Ok(f) => r == Ok::<(), FlashBookError>(()) && final(flp)@ == f,
        },
{
    let i: usize = find_slot(&flp.per_market, market);
    if i >= flp.per_market.len() {
        let j: usize = find_free(&flp.per_market);
        if j >= flp.per_market.len() {
            return Err(FlashBookError::BufferFull);
        }
        flp.per_market.set(
            j,
            FlpMarketExposure {
                market,
                side: fill_side.to_byte(),
                size_lots: fill_size_lots,
                entry_price_ticks: fill_price_ticks,
            },
        );
        flp.markets_count = flp.markets_count.saturating_add(1);
        return Ok(());
    }
    let cur: FlpMarketExposure = flp.per_market[i];
    let cur_side = Side::from_byte(cur.side);
    if cur_side == fill_side {
        let new_size: u64 = match cur.size_lots.checked_add(fill_size_lots) {
            Some(n) => n,
            None => {
                return Err(FlashBookError::ArithmeticOverflow);
            },
        };
        if new_size == 0 {
            return Err(FlashBookError::DivisionByZero);
        }
        let entry_price_ticks: u64 = weighted_entry(
            cur.entry_price_ticks,
            cur.size_lots,
            fill_price_ticks,
            fill_size_lots,
        );
        flp.per_market.set(
            i,
            FlpMarketExposure { size_lots: new_size, entry_price_ticks, ..cur },
        );
        return Ok(());
    }
    let close_size: u64 = min_u64(fill_size_lots, cur.size_lots);
    let pnl: i128 = match checked_closing_pnl(
        cur_side,
        close_size,
        cur.entry_price_ticks,
        fill_price_ticks,
    ) {
        Some(v) => v,
        None => {
            return Err(FlashBookError::ArithmeticOverflow);
        },
    };
    flp.realized_pnl = saturating_add_i64(flp.realized_pnl, clamp_i128_to_i64(pnl));
    if fill_size_lots < cur.size_lots {
        flp.per_market.set(
            i,
            FlpMarketExposure { size_lots: cur.size_lots - fill_size_lots, ..cur },
        );
    } else if fill_size_lots == cur.size_lots {
        flp.per_market.set(
            i,
            FlpMarketExposure { size_lots: 0, side: EMPTY_SIDE, entry_price_ticks: 0, ..cur },
        );
        flp.markets_count = flp.markets_count.saturating_sub(1);
    } else {
        flp.per_market.set(
            i,
            FlpMarketExposure {
                side: fill_side.to_byte(),
                size_lots: fill_size_lots - cur.size_lots,
                entry_price_ticks: fill_price_ticks,
                ..cur
            },
        );
    }
    Ok(())
}

/// Creates the pool with its first capital; the founder owns all shares, one per
/// quote lot.
pub fn initialize_flp_exposure(
    authority: Pubkey,
    flp_bump: u8,
    lp_bump: u8,
    initial_capital_quote_lots: u64,
) -> (r: (FlpExposureAccount, LpPositionAccount, FlpExposureInitializedEvent))
    ensures
        r.0@.wf(),
        r.0@.count_right(),
        r.0@ == (FlpModel {
            authority,
            bump: flp_bump,
            total_capital_quote_lots: initial_capital_quote_lots,
            realized_pnl: 0,
            markets_count: 0,
            lp_shares_outstanding: initial_capital_quote_lots,
            per_market: Seq::new(
                FLP_MARKET_SLOTS as nat,
                |i: int|
                    FlpMarketExposure {
                        market: Pubkey::none(),
                        side: EMPTY_SIDE,
                        size_lots: 0,
                        entry_price_ticks: 0,
                    },
            ),
        }),
        r.1 == (LpPositionAccount {
            lp: authority,
            bump: lp_bump,
            shares: initial_capital_quote_lots,
            total_deposited_quote_lots: initial_capital_quote_lots,
            total_withdrawn_quote_lots: 0,
        }),
        r.2 == (FlpExposureInitializedEvent {
            authority,
            initial_capital: initial_capital_quote_lots,
        }),
{
    let empty = FlpMarketExposure {
        market: Pubkey::default_key(),
        side: EMPTY_SIDE,
        size_lots: 0,
        entry_price_ticks: 0,
    };
    let mut per_market: Vec<FlpMarketExposure> = Vec::new();
    while per_market.len() < FLP_MARKET_SLOTS
        invariant
            per_market@.len() <= FLP_MARKET_SLOTS,
            forall|i: int| 0 <= i < per_market@.len() ==> (#[trigger] per_market@[i]) == empty,
        decreases FLP_MARKET_SLOTS - per_market@.len(),
    {
        per_market.push(empty);
    }
    proof {
        lemma_unused_table(per_market@, per_market@.len() as int);
    }
    (
        FlpExposureAccount {
            authority,
            bump: flp_bump,
            total_capital_quote_lots: initial_capital_quote_lots,
            realized_pnl: 0,
            markets_count: 0,
            lp_shares_outstanding: initial_capital_quote_lots,
            per_market,
        },
        LpPositionAccount {
            lp: authority,
            bump: lp_bump,
            shares: initial_capital_quote_lots,
            total_deposited_quote_lots: initial_capital_quote_lots,
            total_withdrawn_quote_lots: 0,
        },
        FlpExposureInitializedEvent { authority, initial_capital: initial_capital_quote_lots },
    )
}

/// A table without used slots has none.
pub proof fn lemma_unused_table(s: Seq<FlpMarketExposure>, n: int)
    requires
        0 <= n <= s.len(),
        forall|i: int| 0 <= i < s.len() ==> (#[trigger] s[i]).side == EMPTY_SIDE,
    ensures
        live_slots(s, n) == 0,
    decreases n,
{
    if n > 0 {
        lemma_unused_table(s, n - 1);
    }
}

/// Shares that a deposit buys: in proportion to the pool's value, and one for one
/// while there are no shares or the pool is worth nothing.
pub open spec fn shares_for(amount: u64, shares: u64, nav: int) -> int {
    if shares == 0 || nav <= 0 {
        amount as int
    } else {
        amount * shares / nav
    }
}

/// Quote lots that shares are worth, rounded down.
pub open spec fn amount_for(burned: u64, shares: u64, nav: int) -> int {
    burned * nav / (shares as int)
}

/// Computes the shares that a deposit buys; none when they do not fit.
pub fn compute_shares_for(amount: u64, shares: u64, nav: i128) -> (r: Option<u64>)
    ensures
        r == (if shares_for(amount, shares, nav as int) > u64::MAX {
            None::<u64>
        } else {
            Some(shares_for(amount, shares, nav as int) as u64)
        }),
        shares_for(amount, shares, nav as int) >= 0,
{
    if shares == 0 || nav <= 0 {
        return Some(amount);
    }
    proof {
        assert(0 <= amount * shares <= u64::MAX * u64::MAX) by (nonlinear_arith)
            requires
                0 <= amount <= u64::MAX,
                0 <= shares <= u64::MAX,
        ;
        assert(0 <= (amount * shares) / (nav as int)) by (nonlinear_arith)
            requires
                0 <= amount * shares,
                nav > 0,
        ;
    }
    let s: u128 = (amount as u128) * (shares as u128) / (nav as u128);
    if s > u64::MAX as u128 {
        None
    } else {
        Some(s as u64)
    }
}

/// Computes what shares are worth; none when it does not fit.
pub fn compute_amount_for(burned: u64, shares: u64, nav: i128) -> (r: Option<u64>)
    requires
        shares > 0,
        0 < nav,
    ensures
        r == (if amount_for(burned, shares, nav as int) > u64::MAX {
            None::<u64>
        } else {
            Some(amount_for(burned, shares, nav as int) as u64)
        }),
        amount_for(burned, shares, nav as int) >= 0,
{
    proof {
        let p = burned * nav;
        assert(0 <= p) by (nonlinear_arith)
            requires
                0 <= burned,
                0 < nav,
                p == burned * nav,
        ;
        assert(0 <= p / (shares as int)) by (nonlinear_arith)
            requires
                0 <= p,
                shares > 0,
        ;
        assert(p > u128::MAX ==> p / (shares as int) > u64::MAX) by (nonlinear_arith)
            requires
                0 < shares <= u64::MAX,
        ;
    }
    match (burned as u128).checked_mul(nav as u128) {
        Some(p) => {
            let v: u128 = p / (shares as u128);
            if v > u64::MAX as u128 {
                None
            } else {
                Some(v as u64)
            }
        },
        None => None,
    }
}

/// Why a deposit into the pool is refused, if it is.
pub open spec fn flp_deposit_refusal(f: FlpModel, lp: LpPositionAccount, amount: u64) -> Option<
    FlashBookError,
> {
    let minted = shares_for(amount, f.lp_shares_outstanding, f.nav());
    if amount == 0 {
        Some(FlashBookError::ZeroSize)
    } else if minted > u64::MAX {
        Some(FlashBookError::ArithmeticOverflow)
    } else if minted == 0 {
        Some(FlashBookError::ZeroSize)
    } else if f.total_capital_quote_lots + amount > u64::MAX || f.lp_shares_outstanding + minted
        > u64::MAX || lp.shares + minted > u64::MAX || lp.total_deposited_quote_lots + amount
        > u64::MAX {
        Some(FlashBookError::ArithmeticOverflow)
    } else {
        None
    }
}

/// The pool after a deposit.
pub open spec fn flp_deposited(f: FlpModel, amount: u64) -> FlpModel {
    FlpModel {
        total_capital_quote_lots: (f.total_capital_quote_lots + amount) as u64,
        lp_shares_outstanding: (f.lp_shares_outstanding + shares_for(
            amount,
            f.lp_shares_outstanding,
            f.nav(),
        )) as u64,
        ..f
    }
}

/// The provider after a deposit that minted `minted` shares; the first deposit
/// sets the owner.
pub open spec fn lp_deposited(
    lp: LpPositionAccount,
    owner: Pubkey,
    bump: u8,
    amount: u64,
    minted: int,
) -> LpPositionAccount {
    let fresh = lp.lp == Pubkey::none();
    LpPositionAccount {
        lp: if fresh {
            owner
        } else {
            lp.lp
        },
        bump: if fresh {
            bump
        } else {
            lp.bump
        },
        shares: (lp.shares + minted) as u64,
        total_deposited_quote_lots: (lp.total_deposited_quote_lots + amount) as u64,
        ..lp
    }
}

/// Deposits capital into the pool and mints shares at the current value per
/// share. The caller moves the tokens. On refusal nothing changes.
pub fn deposit_flp_capital(
    flp: &mut FlpExposureAccount,
    lp_position: &mut LpPositionAccount,
    authority: Pubkey,
    lp_bump: u8,
    amount_quote_lots: u64,
) -> (r: Result<FlpCapitalUpdatedEvent, FlashBookError>)
    ensures
        match flp_deposit_refusal(old(flp)@, *old(lp_position), amount_quote_lots) {
            Some(e) => r == Err::<FlpCapitalUpdatedEvent, FlashBookError>(e) && *final(flp) == *old(
                flp,
            ) && *final(lp_position) == *old(lp_position),
            None => {
                &&& final(flp)@ == flp_deposited(old(flp)@, amount_quote_lots)
                &&& *final(lp_position) == lp_deposited(
                    *old(lp_position),
                    authority,
                    lp_bump,
                    amount_quote_lots,
                    shares_for(
                        amount_quote_lots,
                        old(flp)@.lp_shares_outstanding,
                        old(flp)@.nav(),
                    ),
                )
                &&& r == Ok::<FlpCapitalUpdatedEvent, FlashBookError>(
                    FlpCapitalUpdatedEvent {
                        new_total: final(flp)@.total_capital_quote_lots,
                        delta: wrapped_i64(amount_quote_lots as int) as i64,
                    },
                )
            },
        },
{
    if amount_quote_lots == 0 {
        return Err(FlashBookError::ZeroSize);
    }
    let nav: i128 = flp.nav();
    let minted: u64 = match compute_shares_for(amount_quote_lots, flp.lp_shares_outstanding, nav) {
        Some(s) => s,
        None => {
            return Err(FlashBookError::ArithmeticOverflow);
        },
    };
    if minted == 0 {
        return Err(FlashBookError::ZeroSize);
    }
    let (total, shares, lp_shares, deposited) = match (
        flp.total_capital_quote_lots.checked_add(amount_quote_lots),
        flp.lp_shares_outstanding.checked_add(minted),
        lp_position.shares.checked_add(minted),
        lp_position.total_deposited_quote_lots.checked_add(amount_quote_lots),
    ) {
        (Some(a), Some(b), Some(c), Some(d)) => (a, b, c, d),
        _ => {
            return Err(FlashBookError::ArithmeticOverflow);
        },
    };
    flp.total_capital_quote_lots = total;
    flp.lp_shares_outstanding = shares;
    if lp_position.lp.is_default() {
        lp_position.lp = authority;
        lp_position.bump = lp_bump;
    }
    lp_position.shares = lp_shares;
    lp_position.total_deposited_quote_lots = deposited;
    Ok(FlpCapitalUpdatedEvent { new_total: total, delta: reinterpret_i64(amount_quote_lots) })
}

/// The part of a market that the pool's exposure is valued by.
#[derive(Clone, Copy, Debug, PartialEq, Eq, Structural)]
pub struct MarketMark {
    pub market: Pubkey,
    pub mark_price_ticks: u64,
    pub tick_size: u64,
}

/// First of the given markets from `i` on with a key, or the length.
pub open spec fn mark_from(ms: Seq<MarketMark>, market: Pubkey, i: int) -> int
    decreases ms.len() - i,
{
    if i >= ms.len() || ms[i].market == market {
        i
    } else {
        mark_from(ms, market, i + 1)
    }
}

/// Notional of all used slots from `i` on at the given marks, at most
/// `u128::MAX`, on top of `acc`; none if a market is missing. The second part
/// counts the used slots.
pub open spec fn exposure_from(
    s: Seq<FlpMarketExposure>,
    ms: Seq<MarketMark>,
    i: int,
    acc: int,
    used: int,
) -> Option<(int, int)>
    decreases s.len() - i,
{
    if i >= s.len() {
        Some((acc, used))
    } else if s[i].side == EMPTY_SIDE {
        exposure_from(s, ms, i + 1, acc, used)
    } else {
        let j = mark_from(ms, s[i].market, 0);
        if j >= ms.len() {
            None
        } else {
            exposure_from(
                s,
                ms,
                i + 1,
                sat_u128(
                    acc + sat_notional(
                        s[i].size_lots as int,
                        ms[j].mark_price_ticks as int,
                        ms[j].tick_size as int,
                    ),
                ),
                used + 1,
            )
        }
    }
}

/// Finds a market among the given ones.
pub fn find_mark(ms: &Vec<MarketMark>, market: Pubkey) -> (r: usize)
    ensures
        r == mark_from(ms@, market, 0),
        r <= ms@.len(),
{
    let mut i: usize = 0;
    while i < ms.len()
        invariant
            i <= ms@.len(),
            mark_from(ms@, market, 0) == mark_from(ms@, market, i as int),
        decreases ms@.len() - i,
    {
        if ms[i].market == market {
            return i;
        }
        i = i + 1;
    }
    i
}

/// Values the pool's open positions.
pub fn gross_exposure(s: &Vec<FlpMarketExposure>, ms: &Vec<MarketMark>) -> (r: Option<
    (u128, usize),
>)
    ensures
        match r {
            Some((v, n)) => exposure_from(s@, ms@, 0, 0, 0) == Some((v as int, n as int)),
            None => exposure_from(s@, ms@, 0, 0, 0) is None,
        },
{
    let mut acc: u128 = 0;
    let mut used: usize = 0;
    let mut i: usize = 0;
    while i < s.len()
        invariant
            i <= s@.len(),
            used <= i,
            exposure_from(s@, ms@, 0, 0, 0) == exposure_from(
                s@,
                ms@,
                i as int,
                acc as int,
                used as int,
            ),
        decreases s@.len() - i,
    {
        let slot: FlpMarketExposure = s[i];
        if slot.side != EMPTY_SIDE {
            let j: usize = find_mark(ms, slot.market);
            if j >= ms.len() {
                return None;
            }
            let m: MarketMark = ms[j];
            acc = acc.saturating_add(
                saturating_notional(slot.size_lots, m.mark_price_ticks, m.tick_size),
            );
            used = used + 1;
        }
        i = i + 1;
    }
    Some((acc, used))
}

/// Why a withdrawal from the pool is refused, if it is. While the pool has open
/// positions, what stays has to cover their notional.
pub open spec fn flp_withdraw_refusal(
    f: FlpModel,
    lp: LpPositionAccount,
    authority: Pubkey,
    ms: Seq<MarketMark>,
    vault_amount: u64,
    burned: u64,
) -> Option<FlashBookError> {
    let amount = amount_for(burned, f.lp_shares_outstanding, f.nav());
    let exposure = exposure_from(f.per_market, ms, 0, 0, 0);
    let post_nav = f.total_capital_quote_lots - amount + f.realized_pnl;
    if lp.lp != authority {
        Some(FlashBookError::Unauthorized)
    } else if burned == 0 {
        Some(FlashBookError::ZeroSize)
    } else if burned > lp.shares || f.nav() <= 0 || f.lp_shares_outstanding == 0 {
        Some(FlashBookError::InsufficientCollateral)
    } else if amount > u64::MAX {
        Some(FlashBookError::ArithmeticOverflow)
    } else if amount == 0 {
        Some(FlashBookError::ZeroSize)
    } else if f.total_capital_quote_lots < amount {
        Some(FlashBookError::ArithmeticUnderflow)
    } else if f.markets_count > 0 && exposure is None {
        Some(FlashBookError::MissingMarketAccount)
    } else if f.markets_count > 0 && (exposure->0).1 != f.markets_count {
        Some(FlashBookError::MissingMarketAccount)
    } else if f.markets_count > 0 && (post_nav < 0 || post_nav < (exposure->0).0) {
        Some(FlashBookError::FlpWithdrawUndercollateralized)
    } else if vault_amount < amount {
        Some(FlashBookError::InsufficientCollateral)
    } else if f.lp_shares_outstanding < burned {
        Some(FlashBookError::ArithmeticUnderflow)
    } else if lp.total_withdrawn_quote_lots + amount > u64::MAX {
        Some(FlashBookError::ArithmeticOverflow)
    } else {
        None
    }
}

/// Burns shares and pays out their part of the pool's value. The caller moves
/// the tokens: the second part of the result says how many. On refusal nothing
/// changes.
pub fn withdraw_flp_capital(
    flp: &mut FlpExposureAccount,
    lp_position: &mut LpPositionAccount,
    authority: Pubkey,
    markets: &Vec<MarketMark>,
    vault_amount: u64,
    shares_to_burn: u64,
) -> (r: Result<(FlpCapitalUpdatedEvent, u64), FlashBookError>)
    requires
        old(flp)@.wf(),
    ensures
        match flp_withdraw_refusal(
            old(flp)@,
            *old(lp_position),
            authority,
            markets@,
            vault_amount,
            shares_to_burn,
        ) {
            Some(e) => r == Err::<(FlpCapitalUpdatedEvent, u64), FlashBookError>(e) && *final(flp)
                == *old(flp) && *final(lp_position) == *old(lp_position),
            None => {
                let amount = amount_for(
                    shares_to_burn,
                    old(flp)@.lp_shares_outstanding,
                    old(flp)@.nav(),
                );
                &&& final(flp)@ == (FlpModel {
                    total_capital_quote_lots: (old(flp)@.total_capital_quote_lots - amount) as u64,
                    lp_shares_outstanding: (old(flp)@.lp_shares_outstanding
                        - shares_to_burn) as u64,
                    ..old(flp)@
                })
                &&& *final(lp_position) == (LpPositionAccount {
                    shares: (old(lp_position).shares - shares_to_burn) as u64,
                    total_withdrawn_quote_lots: (old(lp_position).total_withdrawn_quote_lots
                        + amount) as u64,
                    ..*old(lp_position)
                })
                &&& r == Ok::<(FlpCapitalUpdatedEvent, u64), FlashBookError>(
                    (
                        FlpCapitalUpdatedEvent {
                            new_total: final(flp)@.total_capital_quote_lots,
                            delta: wrapped_i64(-amount) as i64,
                        },
                        amount as u64,
                    ),
                )
            },
        },
{
    if lp_position.lp != authority {
        return Err(FlashBookError::Unauthorized);
    }
    if shares_to_burn == 0 {
        return Err(FlashBookError::ZeroSize);
    }
    let nav: i128 = flp.nav();
    if shares_to_burn > lp_position.shares || nav <= 0 || flp.lp_shares_outstanding == 0 {
        return Err(FlashBookError::InsufficientCollateral);
    }
    let amount: u64 = match compute_amount_for(shares_to_burn, flp.lp_shares_outstanding, nav) {
        Some(a) => a,
        None => {
            return Err(FlashBookError::ArithmeticOverflow);
        },
    };
    if amount == 0 {
        return Err(FlashBookError::ZeroSize);
    }
    let new_total: u64 = match flp.total_capital_quote_lots.checked_sub(amount) {
        Some(n) => n,
        None => {
            return Err(FlashBookError::ArithmeticUnderflow);
        },
    };
    if flp.markets_count > 0 {
        let (exposure, used) = match gross_exposure(&flp.per_market, markets) {
            Some(x) => x,
            None => {
                return Err(FlashBookError::MissingMarketAccount);
            },
        };
        if used != flp.markets_count as usize {
            return Err(FlashBookError::MissingMarketAccount);
        }
        let post_nav: i128 = new_total as i128 + flp.realized_pnl as i128;
        if post_nav < 0 || (post_nav as u128) < exposure {
            return Err(FlashBookError::FlpWithdrawUndercollateralized);
        }
    }
    if vault_amount < amount {
        return Err(FlashBookError::InsufficientCollateral);
    }
    let new_shares: u64 = match flp.lp_shares_outstanding.checked_sub(shares_to_burn) {
        Some(n) => n,
        None => {
            return Err(FlashBookError::ArithmeticUnderflow);
        },
    };
    let withdrawn: u64 = match lp_position.total_withdrawn_quote_lots.checked_add(amount) {
        Some(n) => n,
        None => {
            return Err(FlashBookError::ArithmeticOverflow);
        },
    };
    flp.total_capital_quote_lots = new_total;
    flp.lp_shares_outstanding = new_shares;
    lp_position.shares = lp_position.shares - shares_to_burn;
    lp_position.total_withdrawn_quote_lots = withdrawn;
    Ok((FlpCapitalUpdatedEvent { new_total, delta: negated_i64(amount) }, amount))
}

/// Burning all shares pays out no more than the pool is worth, and burning part
/// of them no more than that part.
pub proof fn law_redemption_within_nav(burned: u64, shares: u64, nav: int)
    requires
        shares > 0,
        burned <= shares,
        nav > 0,
    ensures
        amount_for(burned, shares, nav) * shares <= burned * nav,
        amount_for(burned, shares, nav) <= nav,
{
    let p = burned * nav;
    assert(0 <= p <= shares * nav) by (nonlinear_arith)
        requires
            p == burned * nav,
            0 <= burned <= shares,
            nav > 0,
    ;
    assert((p / (shares as int)) * shares <= p) by (nonlinear_arith)
        requires
            shares > 0,
    ;
    assert(p / (shares as int) <= nav) by (nonlinear_arith)
        requires
            p <= shares * nav,
            shares > 0,
    ;
}

/// A deposit buys no more than its part of the pool: its shares are worth no more
/// than what was paid, at the value per share before the deposit.
pub proof fn law_minted_shares_are_paid_for(amount: u64, shares: u64, nav: int)
    requires
        shares > 0,
        nav > 0,
    ensures
        shares_for(amount, shares, nav) * nav <= amount * shares,
{
    let p = amount * shares;
    assert((p / nav) * nav <= p) by (nonlinear_arith)
        requires
            nav > 0,
    ;
}

/// Depositing and burning the shares at once does not pay: no more comes out than
/// went in.
pub proof fn law_deposit_then_redeem_gains_nothing(amount: u64, shares: u64, nav: int)
    requires
        shares > 0,
        nav > 0,
        0 < shares_for(amount, shares, nav) <= u64::MAX,
        shares + shares_for(amount, shares, nav) <= u64::MAX,
    ensures
        amount_for(
            shares_for(amount, shares, nav) as u64,
            (shares + shares_for(amount, shares, nav)) as u64,
            nav + amount,
        ) <= amount,
{
    let m = shares_for(amount, shares, nav);
    law_minted_shares_are_paid_for(amount, shares, nav);
    let t = shares + m;
    assert(m * (nav + amount) <= amount * t) by (nonlinear_arith)
        requires
            m * nav <= amount * shares,
            t == shares + m,
    ;
    let p = m * (nav + amount);
    assert(p / t <= amount) by (nonlinear_arith)
        requires
            p <= amount * t,
            t > 0,
    ;
}

} // verus!
