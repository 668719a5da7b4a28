//! What fills, profits, funding, marks and fee tiers come down to, in the fields of the
//! accounts.
use vstd::prelude::*;

use crate::collateral_laws::lemma_worth_of_one;
use crate::errors::FlashBookError;
use crate::events::{
    FundingSettledEvent, MarkPriceDriftEvent, MarkPriceUpdatedEvent, TraderEffectiveTierEvent,
};
use crate::funding::{SettleFunding, compute_funding_notional, settle_funding};
use crate::keys::Pubkey;
use crate::mark::{
    law_mark_move_is_capped, lemma_blended_mark_between, settle_mark, update_mark_from_fill,
};
use crate::math::{abs_int, min_int};
use crate::pool_laws::{lemma_product, lemma_rounds_down};
use crate::position::{
    apply_fill_to_position, apply_realized_pnl_delta, fill_refusal, lemma_mean_price_between,
    position_after_fill, route_adl_gain, route_adl_loss, update_oi,
};
use crate::state::{
    FeeTier, FeeTiersAccount, LeverageTier, MarketAccount, PositionAccount, Side,
    TraderStateAccount, side_of_byte,
};
use crate::tiers::{
    credit_volume_for_tier, fee_rates_in_range, fee_tier_improves, resolve_fee_tier,
    tier_index_for_volume, tiers_reached, validate_fee_tiers, validate_leverage_tiers,
    view_trader_effective_tier,
};

verus! {

/// A position with its direction: long counts up, short down.
pub open spec fn exposure(side: u8, size: int) -> int {
    if side == 0 {
        size
    } else {
        -size
    }
}

/// What a position becomes when `size` lots of the given direction are filled at
/// `price`: a fill into an empty position opens it at that price; one in its direction
/// moves the entry price to the average, rounded down; one against it realizes the
/// distance to the entry price on the lots that it closes, and turns the position
/// round with what is left over.
pub open spec fn filled_into(
    p: PositionAccount,
    q: PositionAccount,
    buys: bool,
    size: u64,
    price: u64,
    index: i128,
) -> bool {
    let against = p.size_lots > 0 && (p.side == 0) != buys;
    let n = if size <= p.size_lots {
        size
    } else {
        p.size_lots
    };
    let result = if p.side == 0 {
        n * (price - p.entry_price_ticks)
    } else {
        n * (p.entry_price_ticks - price)
    };
    &&& exposure(q.side, q.size_lots as int) == exposure(p.side, p.size_lots as int) + (if buys {
        size as int
    } else {
        -(size as int)
    })
    &&& q.size_lots > 0 ==> q.side <= 1 || q.side == p.side
    &&& p.size_lots == 0 ==> q.entry_price_ticks == price && q.cum_funding_index_at_entry == index
    &&& p.size_lots > 0 && !against ==> q.side == p.side && q.cum_funding_index_at_entry
        == p.cum_funding_index_at_entry && q.entry_price_ticks * (p.size_lots + size)
        <= p.entry_price_ticks * p.size_lots + price * size < (q.entry_price_ticks + 1) * (
    p.size_lots + size)
    &&& !against ==> q.realized_pnl_quote_lots == p.realized_pnl_quote_lots
    &&& against && i64::MIN <= result <= i64::MAX ==> q.realized_pnl_quote_lots
        == p.realized_pnl_quote_lots + result
    &&& against && size < p.size_lots ==> q.entry_price_ticks == p.entry_price_ticks
        && q.cum_funding_index_at_entry == p.cum_funding_index_at_entry
    &&& against && size == p.size_lots ==> q.entry_price_ticks == 0
        && q.cum_funding_index_at_entry == index
    &&& against && size > p.size_lots ==> q.entry_price_ticks == price
        && q.cum_funding_index_at_entry == index
    &&& q == (PositionAccount {
        side: q.side,
        size_lots: q.size_lots,
        entry_price_ticks: q.entry_price_ticks,
        cum_funding_index_at_entry: q.cum_funding_index_at_entry,
        realized_pnl_quote_lots: q.realized_pnl_quote_lots,
        ..p
    })
}

/// The spec of a booked fill is what a fill does.
pub proof fn lemma_filled_into(
    p: PositionAccount,
    side: Side,
    size: u64,
    price: u64,
    index: i128,
)
    requires
        fill_refusal(p, side, size, price) is None,
    ensures
        filled_into(
            p,
            position_after_fill(p, side, size, price, index),
            side == Side::Long,
            size,
            price,
            index,
        ),
{
    let p0 = p.entry_price_ticks as int;
    let n0 = p.size_lots as int;
    let p1 = price as int;
    let n1 = size as int;
    if n0 > 0 && side_of_byte(p.side) == side {
        lemma_product(p0, n0);
        lemma_product(p1, n1);
        lemma_rounds_down(p0 * n0 + p1 * n1, n0 + n1);
        lemma_mean_price_between(p0, n0, p1, n1);
    }
}

/// Booking a fill does to a position what a fill does, and is refused only where a
/// number would not fit.
pub proof fn law_fill_is_booked(
    p: &mut PositionAccount,
    side: Side,
    size: u64,
    price: u64,
    index: i128,
    r: Result<(), FlashBookError>,
)
    requires
        call_ensures(apply_fill_to_position, (p, side, size, price, index), r),
    ensures
        r is Err ==> *final(p) == *old(p) && r == Err::<(), FlashBookError>(
            FlashBookError::ArithmeticOverflow,
        ),
        r is Ok ==> filled_into(*old(p), *final(p), side == Side::Long, size, price, index),
        old(p).size_lots == 0 ==> r is Ok,
        (old(p).side == 0) == (side == Side::Long) && old(p).size_lots + size <= u64::MAX
            ==> r is Ok,
{
    if r is Ok {
        lemma_filled_into(*old(p), side, size, price, index);
    }
}

/// A realized profit or loss moves one bucket: an isolated position's own, as far as
/// it goes, else the trader's pool, in full or not at all.
pub proof fn law_result_moves_one_bucket(
    delta: i128,
    isolated: bool,
    p: &mut PositionAccount,
    s: &mut TraderStateAccount,
    r: Result<(), FlashBookError>,
)
    requires
        call_ensures(apply_realized_pnl_delta, (delta, isolated, p, s), r),
        -(u64::MAX as int) <= delta <= u64::MAX,
    ensures
        r is Err ==> *final(p) == *old(p) && *final(s) == *old(s),
        r is Ok ==> *final(p) == (PositionAccount {
            collateral_quote_lots: final(p).collateral_quote_lots,
            ..*old(p)
        }) && *final(s) == (TraderStateAccount {
            collateral_quote_lots: final(s).collateral_quote_lots,
            ..*old(s)
        }),
        r is Ok && isolated ==> final(s).collateral_quote_lots == old(s).collateral_quote_lots
            && final(p).collateral_quote_lots == (if old(p).collateral_quote_lots + delta < 0 {
            0
        } else {
            old(p).collateral_quote_lots + delta
        }),
        r is Ok && !isolated ==> final(p).collateral_quote_lots == old(p).collateral_quote_lots
            && final(s).collateral_quote_lots == old(s).collateral_quote_lots + delta,
        isolated ==> (r is Ok <==> old(p).collateral_quote_lots + delta <= u64::MAX),
        !isolated ==> (r is Ok <==> 0 <= old(s).collateral_quote_lots + delta <= u64::MAX),
{
}

/// A deleveraged loss and gain move one bucket each; a loss stops at nothing.
pub proof fn law_deleveraging_moves_one_bucket(
    isolated: bool,
    amount: u64,
    pos: u64,
    pool: u64,
    lost: (u64, u64),
    won: Result<(u64, u64), FlashBookError>,
)
    requires
        call_ensures(route_adl_loss, (isolated, amount, pos, pool), lost),
        call_ensures(route_adl_gain, (isolated, amount, pos, pool), won),
    ensures
        isolated ==> lost.1 == pool && lost.0 == (if amount <= pos {
            pos - amount
        } else {
            0
        }),
        !isolated ==> lost.0 == pos && lost.1 == (if amount <= pool {
            pool - amount
        } else {
            0
        }),
        isolated && pos + amount <= u64::MAX ==> won == Ok::<(u64, u64), FlashBookError>(
            ((pos + amount) as u64, pool),
        ),
        !isolated && pool + amount <= u64::MAX ==> won == Ok::<(u64, u64), FlashBookError>(
            (pos, (pool + amount) as u64),
        ),
        won is Err ==> (isolated && pos + amount > u64::MAX) || (!isolated && pool + amount
            > u64::MAX),
{
}

/// Open interest follows a position: its old lots leave their side, its new ones join
/// theirs.
pub proof fn law_open_interest_follows_position(
    m: &mut MarketAccount,
    pre_side: u8,
    pre_size: u64,
    post_side: u8,
    post_size: u64,
    r: Result<(), FlashBookError>,
)
    requires
        call_ensures(update_oi, (m, pre_side, pre_size, post_side, post_size), r),
        pre_side == 0 ==> pre_size <= old(m).oi_long_lots,
        pre_side != 0 ==> pre_size <= old(m).oi_short_lots,
    ensures
        r is Err ==> *final(m) == *old(m),
        r is Ok ==> final(m).oi_long_lots == old(m).oi_long_lots - (if pre_side == 0 {
            pre_size as int
        } else {
            0
        }) + (if post_side == 0 {
            post_size as int
        } else {
            0
        }),
        r is Ok ==> final(m).oi_short_lots == old(m).oi_short_lots - (if pre_side != 0 {
            pre_size as int
        } else {
            0
        }) + (if post_side != 0 {
            post_size as int
        } else {
            0
        }),
        r is Ok ==> *final(m) == (MarketAccount {
            oi_long_lots: final(m).oi_long_lots,
            oi_short_lots: final(m).oi_short_lots,
            ..*old(m)
        }),
{
}

/// Funding is paid out of, or into, one bucket, and the market's residual moves the
/// other way by the same amount. A debt is paid as far as the bucket goes. A position
/// at the market's index owes nothing, and afterwards every position is at it.
pub proof fn law_funding_is_settled(
    a: &mut SettleFunding,
    owed: Result<i128, FlashBookError>,
    r: Result<Option<FundingSettledEvent>, FlashBookError>,
)
    requires
        call_ensures(settle_funding, (a, owed), r),
        owed matches Ok(o) ==> i64::MIN <= o <= i64::MAX,
    ensures
        r is Err ==> *final(a) == *old(a),
        r is Ok ==> old(a).trader_state.trader == old(a).trader && old(a).haircut_state.market
            == old(a).market_key,
        r matches Ok(report) ==> {
            let x = *old(a);
            let y = *final(a);
            let iso = x.position.collateral_quote_lots > 0;
            let due = if x.position.size_lots == 0 || x.position.cum_funding_index_at_entry
                == x.market.cum_funding_index {
                0
            } else {
                owed->Ok_0 as int
            };
            let bucket = if iso {
                x.position.collateral_quote_lots
            } else {
                x.trader_state.collateral_quote_lots
            };
            let paid = if due > bucket {
                bucket as int
            } else {
                due
            };
            &&& y.position.collateral_quote_lots == x.position.collateral_quote_lots - (if iso {
                paid
            } else {
                0
            })
            &&& y.trader_state.collateral_quote_lots == x.trader_state.collateral_quote_lots - (
            if iso {
                0
            } else {
                paid
            })
            &&& y.haircut_state.residual_quote_lots == x.haircut_state.residual_quote_lots + paid
            &&& y.position.funding_paid_quote_lots == x.position.funding_paid_quote_lots + due
            &&& y.position.cum_funding_index_at_entry == x.market.cum_funding_index
            &&& y.position.size_lots == x.position.size_lots && y.position.side == x.position.side
                && y.position.entry_price_ticks == x.position.entry_price_ticks
            &&& y.market == x.market
            &&& report is None <==> x.position.size_lots == 0
            &&& report matches Some(e) ==> e.owed_quote_lots == due && e.new_collateral
                == y.trader_state.collateral_quote_lots && e.trader == x.position.trader
                && e.market == x.market_key
        },
        old(a).trader_state.trader == old(a).trader && old(a).haircut_state.market == old(a).market_key && old(a).position.size_lots == 0 ==> r is Ok,
{
}

/// Funding is charged on the position's size at the mark price.
pub proof fn law_funding_is_on_the_mark(a: &SettleFunding, r: Result<u64, FlashBookError>)
    requires
        call_ensures(compute_funding_notional, (a,), r),
    ensures
        ({
            let n = a.position.size_lots * a.market.mark_price_ticks * a.market.params.tick_size;
            &&& n <= u64::MAX ==> r == Ok::<u64, FlashBookError>(n as u64)
            &&& n > u64::MAX ==> r is Err
        }),
{
    lemma_worth_of_one(
        a.position.size_lots,
        a.market.mark_price_ticks,
        a.market.params.tick_size,
    );
}

/// A fill pulls the mark towards its price by the market's weight, in whole ticks, and
/// never further than the market's largest step. Without a weight or a mark it stays.
pub proof fn law_mark_is_blended(
    m: &mut MarketAccount,
    key: Pubkey,
    price: u64,
    r: (Option<MarkPriceUpdatedEvent>, Option<MarkPriceDriftEvent>),
)
    requires
        call_ensures(update_mark_from_fill, (m, key, price), r),
    ensures
        ({
            let x = *old(m);
            let y = *final(m);
            let w = if x.params.mark_ema_alpha_bps > 10_000 {
                10_000
            } else {
                x.params.mark_ema_alpha_bps as int
            };
            let blend = price * w + x.mark_price_ticks * (10_000 - w);
            let step = x.mark_price_ticks * x.params.mark_max_change_bps / 10_000;
            let moved = y.mark_price_ticks - x.mark_price_ticks;
            &&& y == (MarketAccount { mark_price_ticks: y.mark_price_ticks, ..x })
            &&& w == 0 || x.mark_price_ticks == 0 ==> y == x
            &&& x.params.mark_max_change_bps > 0 ==> -step <= moved <= step
            &&& w > 0 && x.mark_price_ticks > 0 && (x.params.mark_max_change_bps == 0 || -step
                < moved < step) && blend >= 10_000 && y != x ==> y.mark_price_ticks * 10_000
                <= blend < (y.mark_price_ticks + 1) * 10_000
            &&& w > 0 && x.mark_price_ticks > 0 && blend >= 10_000 && moved == 0 ==> step == 0 || (
            x.mark_price_ticks * 10_000 <= blend < (x.mark_price_ticks + 1) * 10_000)
            &&& r.0 is Some <==> moved != 0
            &&& r.0 matches Some(e) ==> e.market == key && e.old_mark_ticks == x.mark_price_ticks
                && e.new_mark_ticks == y.mark_price_ticks && e.oracle_ticks == x.oracle_price_ticks
                && e.source == 0
            &&& r.1 matches Some(e) ==> {
                let gap = if y.mark_price_ticks >= x.oracle_price_ticks {
                    y.mark_price_ticks - x.oracle_price_ticks
                } else {
                    x.oracle_price_ticks - y.mark_price_ticks
                };
                &&& moved != 0 && x.params.drift_alert_bps > 0 && x.oracle_price_ticks > 0
                &&& gap * 10_000 >= x.params.drift_alert_bps * x.oracle_price_ticks
                &&& e.mark_ticks == y.mark_price_ticks && e.oracle_ticks == x.oracle_price_ticks
            }
        }),
{
    let x = *old(m);
    let w = min_int(x.params.mark_ema_alpha_bps as int, 10_000);
    let mark = x.mark_price_ticks as int;
    lemma_product(price as int, w);
    lemma_product(mark, 10_000 - w);
    let blend = price * w + mark * (10_000 - w);
    lemma_rounds_down(blend, 10_000);
    lemma_product(mark, x.params.mark_max_change_bps as int);
    lemma_blended_mark_between(mark, price as int, x.params.mark_ema_alpha_bps as int);
    if x.params.mark_max_change_bps > 0 {
        law_mark_move_is_capped(x, price);
        let moved = final(m).mark_price_ticks - x.mark_price_ticks;
        assert(abs_int(moved) * 10_000 <= mark * x.params.mark_max_change_bps);
    }
    if r.1 is Some {
        let y = *final(m);
        let gap = abs_int(y.mark_price_ticks - x.oracle_price_ticks);
        let d = gap * 10_000 / (x.oracle_price_ticks as int);
        lemma_rounds_down(gap * 10_000, x.oracle_price_ticks as int);
        assert(x.params.drift_alert_bps * x.oracle_price_ticks <= d * x.oracle_price_ticks)
            by (nonlinear_arith)
            requires
                x.params.drift_alert_bps <= d,
                x.oracle_price_ticks >= 0,
        ;
    }
}

/// The mark is reset to the oracle price by anybody, but only to one that is fresh and
/// certain enough, and not before the market's interval has passed.
pub proof fn law_mark_reset(
    m: &mut MarketAccount,
    key: Pubkey,
    slot: u64,
    unix_now: i64,
    r: Result<MarkPriceUpdatedEvent, FlashBookError>,
)
    requires
        call_ensures(settle_mark, (m, key, slot, unix_now), r),
    ensures
        ({
            let x = *old(m);
            let k = x.params;
            let now = if unix_now < 0 {
                0
            } else {
                unix_now as int
            };
            &&& r is Ok <==> {
                &&& k.mark_settle_min_slots == 0 || x.last_mark_settle_slot == 0 || slot
                    >= x.last_mark_settle_slot + k.mark_settle_min_slots
                &&& x.oracle_price_ticks > 0
                &&& k.oracle_staleness_max_seconds == 0 || now
                    <= x.oracle_published_at_unix_seconds + k.oracle_staleness_max_seconds
                &&& k.oracle_confidence_max_bps == 0 || x.oracle_confidence * 10_000 < (
                k.oracle_confidence_max_bps + 1) * x.oracle_price_ticks
            }
            &&& r is Err ==> *final(m) == x
            &&& r matches Ok(e) ==> *final(m) == (MarketAccount {
                mark_price_ticks: x.oracle_price_ticks,
                last_mark_settle_slot: slot,
                ..x
            }) && e.new_mark_ticks == x.oracle_price_ticks && e.old_mark_ticks
                == x.mark_price_ticks && e.source == 1 && e.market == key
        }),
{
    let x = *old(m);
    if x.oracle_price_ticks > 0 {
        lemma_within_bps(
            x.oracle_confidence,
            x.oracle_price_ticks,
            x.params.oracle_confidence_max_bps,
        );
    }
}

/// A part is within some basis points of the whole, rounded down, exactly if it is less
/// than one more basis point of it.
pub proof fn lemma_within_bps(part: u64, whole: u64, bps: u32)
    requires
        whole > 0,
    ensures
        part * 10_000 / (whole as int) <= bps <==> part * 10_000 < (bps + 1) * whole,
{
    let w = whole as int;
    let x = part * 10_000;
    lemma_rounds_down(x, w);
    let q = x / w;
    if q <= bps {
        assert((q + 1) * w <= (bps + 1) * w) by (nonlinear_arith)
            requires
                q <= bps,
                w > 0,
        ;
    } else {
        assert((bps + 1) * w <= q * w) by (nonlinear_arith)
            requires
                q >= bps + 1,
                w > 0,
        ;
    }
}

/// The row of a fee table that a volume earns: the last of the leading rows whose
/// volume was reached; none if the first was not.
pub open spec fn earns_row(tiers: Seq<FeeTier>, volume: u64, k: int) -> bool {
    &&& 0 <= k < tiers.len()
    &&& forall|j: int| 0 <= j <= k ==> (#[trigger] tiers[j]).min_volume_quote_lots <= volume
    &&& k + 1 < tiers.len() ==> volume < tiers[k + 1].min_volume_quote_lots
}

/// The rows reached from `i` on are reached, and the next one is not.
pub proof fn lemma_rows_reached(tiers: Seq<FeeTier>, volume: u64, i: int)
    requires
        0 <= i <= tiers.len(),
    ensures
        ({
            let n = tiers_reached(tiers, volume, i);
            &&& i <= n <= tiers.len()
            &&& forall|j: int|
                i <= j < n ==> (#[trigger] tiers[j]).min_volume_quote_lots <= volume
            &&& n < tiers.len() ==> volume < tiers[n].min_volume_quote_lots
        }),
    decreases tiers.len() - i,
{
    if i < tiers.len() && volume >= tiers[i].min_volume_quote_lots {
        lemma_rows_reached(tiers, volume, i + 1);
    }
}

/// A trader pays and earns by the row that its volume earns, and by the market's own
/// rates where it earns none; the tier that is reported is that row.
pub proof fn law_rates_are_those_of_the_earned_row(
    maker: i32,
    taker: u32,
    tiers: &Vec<FeeTier>,
    volume: u64,
    r: (i32, u32),
    index: u8,
)
    requires
        tiers@.len() <= 256,
        call_ensures(resolve_fee_tier, (maker, taker, tiers, volume), r),
        call_ensures(tier_index_for_volume, (tiers, volume), index),
    ensures
        tiers@.len() == 0 || volume < tiers@[0].min_volume_quote_lots ==> r == (maker, taker)
            && index == 0,
        tiers@.len() > 0 && volume >= tiers@[0].min_volume_quote_lots ==> earns_row(
            tiers@,
            volume,
            index as int,
        ) && r.0 == tiers@[index as int].maker_rebate_bps && r.1
            == tiers@[index as int].taker_fee_bps,
{
    lemma_rows_reached(tiers@, volume, 0);
}

/// A fill's volume is added to the trader's rolling volume; once the window has passed
/// the count starts again with this fill.
pub proof fn law_volume_rolls(
    s: &mut TraderStateAccount,
    notional: u64,
    now: u64,
    window: u64,
    r: (),
)
    requires
        call_ensures(credit_volume_for_tier, (s, notional, now, window), r),
    ensures
        ({
            let anew = old(s).volume_window_start_slot == 0 || now > old(s).volume_window_start_slot
                + window;
            &&& anew ==> final(s).volume_30d_quote_lots == notional && final(s).volume_window_start_slot == now
            &&& !anew && old(s).volume_30d_quote_lots + notional <= u64::MAX ==> final(s).volume_30d_quote_lots == old(s).volume_30d_quote_lots + notional
            &&& !anew ==> final(s).volume_window_start_slot == old(s).volume_window_start_slot
                && final(s).volume_30d_quote_lots >= old(s).volume_30d_quote_lots
            &&& *final(s) == (TraderStateAccount {
                volume_30d_quote_lots: final(s).volume_30d_quote_lots,
                volume_window_start_slot: final(s).volume_window_start_slot,
                ..*old(s)
            })
        }),
{
}

/// A trader's tier is shown at its volume, which counts for nothing once the window has
/// passed.
pub proof fn law_shown_tier_is_current(
    s: &TraderStateAccount,
    t: &FeeTiersAccount,
    now: u64,
    r: TraderEffectiveTierEvent,
)
    requires
        t.tiers@.len() <= 256,
        call_ensures(view_trader_effective_tier, (s, t, now), r),
    ensures
        r.trader == s.trader,
        now > s.volume_window_start_slot + t.volume_window_slots ==> r.effective_volume_quote_lots
            == 0 && r.window_expired == (s.volume_30d_quote_lots > 0),
        now <= s.volume_window_start_slot + t.volume_window_slots ==> r.effective_volume_quote_lots
            == s.volume_30d_quote_lots && !r.window_expired,
        t.tiers@.len() > 0 && t.tiers@[0].min_volume_quote_lots <= r.effective_volume_quote_lots
            ==> earns_row(t.tiers@, r.effective_volume_quote_lots, r.tier_index as int)
            && r.maker_rebate_bps == t.tiers@[r.tier_index as int].maker_rebate_bps
            && r.taker_fee_bps == t.tiers@[r.tier_index as int].taker_fee_bps,
{
    lemma_rows_reached(t.tiers@, r.effective_volume_quote_lots, 0);
}

/// A fee table is taken exactly if it has a window, one to ten rows, starts at no
/// volume, and each row asks for more volume than the one before and gives rates that
/// are no worse, all within ten percent.
pub proof fn law_fee_table_is_sound(
    window: u64,
    tiers: &Vec<FeeTier>,
    r: Result<(), FlashBookError>,
)
    requires
        call_ensures(validate_fee_tiers, (window, tiers), r),
    ensures
        r is Ok <==> window > 0 && 1 <= tiers@.len() <= 10 && tiers@[0].min_volume_quote_lots == 0
            && (forall|i: int|
            0 <= i < tiers@.len() ==> (#[trigger] tiers@[i]).taker_fee_bps <= 1_000 && -1_000
                <= tiers@[i].maker_rebate_bps <= 1_000) && (forall|i: int, j: int|
            0 <= i < j < tiers@.len() ==> (#[trigger] tiers@[i]).min_volume_quote_lots < (
            #[trigger] tiers@[j]).min_volume_quote_lots && tiers@[i].taker_fee_bps
                >= tiers@[j].taker_fee_bps && tiers@[i].maker_rebate_bps
                <= tiers@[j].maker_rebate_bps),
        r is Err ==> r == Err::<(), FlashBookError>(FlashBookError::OutOfRange),
{
    if r is Ok {
        assert forall|i: int| 0 <= i < tiers@.len() implies (#[trigger] tiers@[i]).taker_fee_bps
            <= 1_000 && -1_000 <= tiers@[i].maker_rebate_bps <= 1_000 by {
            assert(fee_rates_in_range(tiers@[i]));
        }
        assert forall|i: int, j: int| 0 <= i < j < tiers@.len() implies (
        #[trigger] tiers@[i]).min_volume_quote_lots < (#[trigger] tiers@[j]).min_volume_quote_lots
            && tiers@[i].taker_fee_bps >= tiers@[j].taker_fee_bps && tiers@[i].maker_rebate_bps
            <= tiers@[j].maker_rebate_bps by {
            assert(fee_tier_improves(tiers@[i], tiers@[j]));
        }
    }
}

/// A leverage table is taken exactly if it has one to eight rows of rising notional,
/// none of which asks for less margin than the market or for more than all.
pub proof fn law_leverage_table_is_sound(
    m: &MarketAccount,
    tiers: &Vec<LeverageTier>,
    r: Result<(), FlashBookError>,
)
    requires
        call_ensures(validate_leverage_tiers, (m, tiers), r),
    ensures
        r is Ok <==> 1 <= tiers@.len() <= 8 && (forall|i: int|
            0 <= i < tiers@.len() ==> m.params.maintenance_margin_ratio_bps <= (
            #[trigger] tiers@[i]).mmr_bps <= 10_000) && (forall|i: int, j: int|
            0 <= i < j < tiers@.len() ==> (#[trigger] tiers@[i]).min_notional_quote_lots < (
            #[trigger] tiers@[j]).min_notional_quote_lots),
        r matches Err(e) ==> e == (if tiers@.len() == 0 {
            FlashBookError::ZeroSize
        } else {
            FlashBookError::OutOfRange
        }),
{
}

} // verus!
