//! What every movement of collateral comes down to, in the fields of the accounts.
use vstd::prelude::*;

use crate::collateral::{
    SweepCollateral, TransferBetweenSubAccounts, deposit_collateral, partial_withdraw_collateral,
    sweep_collateral, transfer_main_to_sub, transfer_sub_to_main, withdraw_collateral,
};
use crate::errors::FlashBookError;
use crate::events::{
    CollateralDepositedEvent, CollateralSweptEvent, CollateralWithdrawnEvent,
    InsurancePauseThresholdUpdatedEvent, PartialCollateralWithdrawnEvent, PortfolioRiskEvent,
    SubAccountTransferEvent,
};
use crate::insurance::{set_insurance_pause_threshold, withdraw_insurance_fund};
use crate::keys::Pubkey;
use crate::mark::sat_notional;
use crate::math::sat_u128;
use crate::pda::{key_bytes, program_address};
use crate::risk::{
    Assessment, Binding, Portfolio, PortfolioEntry, collect_bound_portfolio, entry_notional,
    largest_from, market_among, notional_from, owners_refusal, portfolio_refusal, total_notional,
    view_portfolio_risk,
};
use crate::state::{InsuranceFundAccount, Side, TraderStateAccount};

verus! {

/// A deposit is taken from the account's owner, for any positive amount that fits, and
/// adds exactly that amount to the collateral and to nothing else.
pub proof fn law_deposit_adds_its_amount(
    s: &mut TraderStateAccount,
    trader: Pubkey,
    amount: u64,
    r: Result<CollateralDepositedEvent, FlashBookError>,
)
    requires
        call_ensures(deposit_collateral, (s, trader, amount), r),
    ensures
        r is Ok <==> old(s).trader == trader && amount > 0 && old(s).collateral_quote_lots + amount
            <= u64::MAX,
        final(s).collateral_quote_lots == old(s).collateral_quote_lots + (if r is Ok {
            amount as int
        } else {
            0
        }),
        *final(s) == (TraderStateAccount {
            collateral_quote_lots: final(s).collateral_quote_lots,
            ..*old(s)
        }),
        r matches Ok(e) ==> e.trader == trader && e.amount == amount && e.new_balance
            == final(s).collateral_quote_lots,
        r matches Err(e) ==> match e {
            FlashBookError::WrongTrader => old(s).trader != trader,
            FlashBookError::ZeroSize => amount == 0,
            FlashBookError::ArithmeticOverflow => old(s).collateral_quote_lots + amount > u64::MAX,
            _ => false,
        },
{
}

/// Collateral is paid out to the owner of an account without open positions, up to
/// what is there, and exactly what was asked for leaves the account.
pub proof fn law_withdrawal_takes_its_amount(
    s: &mut TraderStateAccount,
    trader: Pubkey,
    amount: u64,
    r: Result<CollateralWithdrawnEvent, FlashBookError>,
)
    requires
        call_ensures(withdraw_collateral, (s, trader, amount), r),
    ensures
        r is Ok <==> old(s).trader == trader && 0 < amount <= old(s).collateral_quote_lots && old(s).open_positions == 0,
        old(s).collateral_quote_lots == final(s).collateral_quote_lots + (if r is Ok {
            amount as int
        } else {
            0
        }),
        *final(s) == (TraderStateAccount {
            collateral_quote_lots: final(s).collateral_quote_lots,
            ..*old(s)
        }),
        r matches Ok(e) ==> e.trader == trader && e.amount == amount && e.new_balance
            == final(s).collateral_quote_lots,
        r matches Err(e) ==> match e {
            FlashBookError::WrongTrader => old(s).trader != trader,
            FlashBookError::ZeroSize => amount == 0,
            FlashBookError::InsufficientCollateral => old(s).open_positions > 0 || amount > old(s).collateral_quote_lots,
            _ => false,
        },
{
}

/// What the first `n` positions are worth at the mark, added up without any bound.
pub open spec fn worth(es: Seq<PortfolioEntry>, n: int) -> int
    decreases n,
{
    if n <= 0 {
        0
    } else {
        worth(es, n - 1) + es[n - 1].position.size_lots * es[n - 1].market.mark_price_ticks
            * es[n - 1].market.params.tick_size
    }
}

/// One position is worth no less than nothing.
pub proof fn lemma_worth_of_one(size: u64, price: u64, tick: u64)
    ensures
        0 <= size * price <= u64::MAX * u64::MAX,
        0 <= size * price * tick,
        sat_notional(size as int, price as int, tick as int) == if size * price * tick
            <= u128::MAX {
            size * price * tick
        } else {
            u128::MAX as int
        },
{
    assert(0 <= size * price <= u64::MAX * u64::MAX) by (nonlinear_arith)
        requires
            0 <= size <= u64::MAX,
            0 <= price <= u64::MAX,
    ;
    let p = size * price;
    assert(0 <= p * tick) by (nonlinear_arith)
        requires
            0 <= p,
            0 <= tick,
    ;
}

/// Worth grows with the number of positions.
pub proof fn lemma_worth_grows(es: Seq<PortfolioEntry>, m: int, n: int)
    requires
        0 <= m <= n <= es.len(),
    ensures
        0 <= worth(es, m) <= worth(es, n),
    decreases n,
{
    if n > 0 {
        lemma_worth_of_one(
            es[n - 1].position.size_lots,
            es[n - 1].market.mark_price_ticks,
            es[n - 1].market.params.tick_size,
        );
        if m < n {
            lemma_worth_grows(es, m, n - 1);
        } else {
            lemma_worth_grows(es, n - 1, n - 1);
        }
    }
}

/// Worth of a longer list of positions.
pub proof fn lemma_worth_prefix(es: Seq<PortfolioEntry>, more: Seq<PortfolioEntry>, n: int)
    requires
        0 <= n <= es.len() <= more.len(),
        forall|k: int| 0 <= k < es.len() ==> es[k] == more[k],
    ensures
        worth(es, n) == worth(more, n),
    decreases n,
{
    if n > 0 {
        lemma_worth_prefix(es, more, n - 1);
    }
}

/// The running total is the sum, as far as it fits.
pub proof fn lemma_notional_is_worth(es: Seq<PortfolioEntry>, i: int, acc: int)
    requires
        0 <= i <= es.len(),
        0 <= acc <= u128::MAX,
    ensures
        ({
            let sum = acc + worth(es, es.len() as int) - worth(es, i);
            notional_from(es, i, acc) == if sum <= u128::MAX {
                sum
            } else {
                u128::MAX as int
            }
        }),
    decreases es.len() - i,
{
    lemma_worth_grows(es, i, es.len() as int);
    if i < es.len() {
        let e = es[i];
        lemma_worth_of_one(
            e.position.size_lots,
            e.market.mark_price_ticks,
            e.market.params.tick_size,
        );
        lemma_worth_grows(es, i + 1, es.len() as int);
        lemma_notional_is_worth(es, i + 1, sat_u128(acc + entry_notional(e)));
        assert(worth(es, i + 1) == worth(es, i) + e.position.size_lots * e.market.mark_price_ticks
            * e.market.params.tick_size);
    }
}

/// The notional behind the withdrawal floor counts every position: it is what all of
/// them are worth together, as far as a `u128` holds it, hence at least what each one
/// is worth.
pub proof fn law_notional_counts_every_position(es: &Vec<PortfolioEntry>, r: u128)
    requires
        call_ensures(total_notional, (es,), r),
    ensures
        r == if worth(es@, es@.len() as int) <= u128::MAX {
            worth(es@, es@.len() as int)
        } else {
            u128::MAX as int
        },
        forall|k: int|
            0 <= k < es@.len() ==> r == u128::MAX || (#[trigger] es@[k]).position.size_lots
                * es@[k].market.mark_price_ticks * es@[k].market.params.tick_size <= r,
{
    let s = es@;
    lemma_notional_is_worth(s, 0, 0);
    assert forall|k: int| 0 <= k < s.len() implies r == u128::MAX || (
    #[trigger] s[k]).position.size_lots * s[k].market.mark_price_ticks
        * s[k].market.params.tick_size <= r by {
        lemma_worth_grows(s, 0, k);
        lemma_worth_grows(s, k + 1, s.len() as int);
        assert(worth(s, k + 1) == worth(s, k) + s[k].position.size_lots
            * s[k].market.mark_price_ticks * s[k].market.params.tick_size);
    }
}

/// Another position never lowers the notional.
pub proof fn law_notional_grows_with_positions(
    es: &Vec<PortfolioEntry>,
    more: &Vec<PortfolioEntry>,
    r: u128,
    r_more: u128,
)
    requires
        es@.is_prefix_of(more@),
        call_ensures(total_notional, (es,), r),
        call_ensures(total_notional, (more,), r_more),
    ensures
        r <= r_more,
{
    lemma_notional_is_worth(es@, 0, 0);
    lemma_notional_is_worth(more@, 0, 0);
    assert forall|k: int| 0 <= k < es@.len() implies es@[k] == more@[k] by {
        assert(es@ == more@.take(es@.len() as int));
    }
    lemma_worth_prefix(es@, more@, es@.len() as int);
    lemma_worth_grows(more@, es@.len() as int, more@.len() as int);
}

/// The positions shown with a request are what they have to be: accounts of this
/// program that belong to the trader and stand at the addresses which their markets
/// and the trader account determine, all open, no market twice; and with a `target`,
/// none of them isolated or in the target's market.
pub open spec fn all_shown_properly(
    es: Seq<PortfolioEntry>,
    trader: Pubkey,
    b: Binding,
    target: Option<Pubkey>,
) -> bool {
    &&& forall|k: int|
        0 <= k < es.len() ==> {
            let e = #[trigger] es[k];
            &&& e.market_owned && e.position_owned
            &&& e.position.trader == trader
            &&& e.position.market == e.market_key
            &&& e.position.size_lots > 0
            &&& program_address(
                seq![
                    b.position_seed@,
                    key_bytes(e.market_key),
                    key_bytes(b.trader_state_key),
                    seq![e.position.bump],
                ],
                b.program_id,
            ) == Some(e.position_key)
            &&& target matches Some(t) ==> e.market_key != t && e.position.collateral_quote_lots
                == 0
        }
    &&& forall|j: int, k: int|
        0 <= j < k < es.len() ==> (#[trigger] es[j]).market_key != (#[trigger] es[k]).market_key
}

/// A walk that finds no fault has seen only proper entries, and the other way round.
pub proof fn lemma_walk_finds_faults(
    es: Seq<PortfolioEntry>,
    i: int,
    trader: Pubkey,
    b: Binding,
    foreign: FlashBookError,
    target: Option<Pubkey>,
)
    requires
        0 <= i <= es.len(),
    ensures
        all_shown_properly(es, trader, b, target) ==> portfolio_refusal(
            es,
            i,
            trader,
            b,
            foreign,
            target,
        ) is None,
        portfolio_refusal(es, i, trader, b, foreign, target) is None ==> forall|k: int|
            i <= k < es.len() ==> {
                let e = #[trigger] es[k];
                &&& e.market_owned && e.position_owned
                &&& e.position.trader == trader
                &&& e.position.market == e.market_key
                &&& e.position.size_lots > 0
                &&& program_address(
                    seq![
                        b.position_seed@,
                        key_bytes(e.market_key),
                        key_bytes(b.trader_state_key),
                        seq![e.position.bump],
                    ],
                    b.program_id,
                ) == Some(e.position_key)
                &&& target matches Some(t) ==> e.market_key != t
                    && e.position.collateral_quote_lots == 0
                &&& forall|j: int| 0 <= j < k ==> (#[trigger] es[j]).market_key != e.market_key
            },
    decreases es.len() - i,
{
    if i < es.len() {
        lemma_walk_finds_faults(es, i + 1, trader, b, foreign, target);
        if market_among(es, i, es[i].market_key) {
            let j = choose|j: int| 0 <= j < i && (#[trigger] es[j]).market_key == es[i].market_key;
            assert(!all_shown_properly(es, trader, b, target));
        }
    }
}

/// A portfolio is taken exactly if all its entries are shown properly, and the margin
/// engine is asked about every one of them, in the given order, with its own market at
/// the mark price and the margin ratio in question.
pub proof fn law_portfolio_is_asked_about_in_full(
    es: &Vec<PortfolioEntry>,
    trader: Pubkey,
    b: &Binding,
    foreign: FlashBookError,
    target: Option<Pubkey>,
    initial: bool,
    r: Result<Portfolio, FlashBookError>,
)
    requires
        call_ensures(collect_bound_portfolio, (es, trader, b, foreign, target, initial), r),
    ensures
        r is Ok <==> all_shown_properly(es@, trader, *b, target),
        r matches Ok(p) ==> p.positions@.len() == es@.len() && p.markets@.len() == es@.len()
            && forall|k: int|
            0 <= k < es@.len() ==> {
                let e = #[trigger] es@[k];
                let s = p.positions@[k];
                let m = p.markets@[k];
                &&& s.market == e.market_key && m.market == e.market_key
                &&& s.side == (if e.position.side == 0 {
                    Side::Long
                } else {
                    Side::Short
                })
                &&& s.size_lots == e.position.size_lots
                &&& s.entry_price_ticks == e.position.entry_price_ticks
                &&& s.cum_funding_index_at_entry == e.position.cum_funding_index_at_entry
                &&& s.collateral_quote_lots == e.position.collateral_quote_lots
                &&& m.mark_price_ticks == e.market.mark_price_ticks
                &&& m.cum_funding_index == e.market.cum_funding_index
                &&& m.margin_bps == (if initial {
                    e.market.params.initial_margin_ratio_bps
                } else {
                    e.market.params.maintenance_margin_ratio_bps
                })
                &&& m.tick_size == e.market.params.tick_size
                &&& m.concentration_threshold_lots == e.market.params.concentration_threshold_lots
                &&& m.concentration_extra_mmr_bps == e.market.params.concentration_extra_mmr_bps
            },
{
    lemma_walk_finds_faults(es@, 0, trader, *b, foreign, target);
}

/// With open positions collateral is paid out only as long as what is left covers the
/// margin that the engine requires and a tenth of what all positions are worth, and
/// only if every open position was shown. Nothing but the paid amount changes.
pub proof fn law_partial_withdrawal_keeps_positions_backed(
    s: &mut TraderStateAccount,
    trader: Pubkey,
    es: &Vec<PortfolioEntry>,
    b: &Binding,
    amount: u64,
    assessment: Assessment,
    r: Result<PartialCollateralWithdrawnEvent, FlashBookError>,
)
    requires
        call_ensures(partial_withdraw_collateral, (s, trader, es, b, amount, assessment), r),
        worth(es@, es@.len() as int) <= u64::MAX,
    ensures
        ({
            let left = old(s).collateral_quote_lots - amount;
            let required = if es@.len() == 0 {
                0
            } else {
                assessment->Ok_0.required_quote_lots
            };
            let tenth = worth(es@, es@.len() as int) / 10;
            &&& r is Ok <==> {
                &&& old(s).trader == trader
                &&& 0 < amount <= old(s).collateral_quote_lots
                &&& es@.len() == old(s).open_positions
                &&& all_shown_properly(es@, trader, *b, None)
                &&& es@.len() == 0 || assessment is Ok
                &&& left >= required
                &&& left >= tenth
            }
            &&& r is Ok ==> *final(s) == (TraderStateAccount {
                collateral_quote_lots: left as u64,
                ..*old(s)
            })
            &&& r is Err ==> *final(s) == *old(s)
            &&& r matches Ok(e) ==> e.trader == trader && e.amount == amount && e.new_balance
                == left && e.im_required == required && e.notional_floor == tenth
                && e.applied_floor == (if required >= tenth {
                required as int
            } else {
                tenth
            })
        }),
{
    lemma_walk_finds_faults(es@, 0, trader, *b, FlashBookError::Unauthorized, None);
    lemma_notional_is_worth(es@, 0, 0);
    lemma_worth_grows(es@, 0, es@.len() as int);
    let w = worth(es@, es@.len() as int);
    assert(w * 1_000 / 10_000 == w / 10) by (nonlinear_arith)
        requires
            0 <= w,
    ;
    assert(w * 1_000 <= u128::MAX);
}

/// A sweep moves its amount from one account to the other: both have to be the
/// signer's to use, and the giving account stays healthy. Nothing else changes.
pub proof fn law_sweep_moves_its_amount(
    a: &mut SweepCollateral,
    es: &Vec<PortfolioEntry>,
    b: &Binding,
    amount: u64,
    assessment: Assessment,
    r: Result<CollateralSweptEvent, FlashBookError>,
)
    requires
        call_ensures(sweep_collateral, (a, es, b, amount, assessment), r),
    ensures
        ({
            let f = old(a).from_state;
            let t = old(a).to_state;
            let who = old(a).authority;
            &&& r is Ok <==> {
                &&& 0 < amount <= f.collateral_quote_lots
                &&& old(a).from_key != old(a).to_key
                &&& who == f.trader || (f.delegate != (Pubkey { hi: 0, lo: 0 }) && who
                    == f.delegate)
                &&& who == t.trader || (t.delegate != (Pubkey { hi: 0, lo: 0 }) && who
                    == t.delegate)
                &&& f.open_positions > 0 ==> {
                    &&& es@.len() == f.open_positions
                    &&& all_shown_properly(es@, f.trader, *b, None)
                    &&& assessment matches Ok(m) && m.is_healthy
                }
                &&& t.collateral_quote_lots + amount <= u64::MAX
            }
            &&& r is Err ==> *final(a) == *old(a)
            &&& r is Ok ==> *final(a) == (SweepCollateral {
                from_state: TraderStateAccount {
                    collateral_quote_lots: (f.collateral_quote_lots - amount) as u64,
                    ..f
                },
                to_state: TraderStateAccount {
                    collateral_quote_lots: (t.collateral_quote_lots + amount) as u64,
                    ..t
                },
                ..*old(a)
            })
            &&& r matches Ok(e) ==> e.authority == who && e.from == f.trader && e.to == t.trader
                && e.amount_quote_lots == amount
        }),
{
    lemma_walk_finds_faults(
        es@,
        0,
        old(a).from_state.trader,
        *b,
        FlashBookError::OutOfRange,
        None,
    );
}

/// A transfer to a sub-account moves its amount out of the main account, which has to
/// be without open positions, and changes nothing else.
pub proof fn law_transfer_to_sub_account(
    a: &mut TransferBetweenSubAccounts,
    sub_index: u8,
    amount: u64,
    r: Result<SubAccountTransferEvent, FlashBookError>,
)
    requires
        call_ensures(transfer_main_to_sub, (a, sub_index, amount), r),
    ensures
        r is Ok <==> old(a).main.trader == old(a).trader && old(a).sub_account.trader == old(a).trader && sub_index > 0 && 0 < amount <= old(a).main.collateral_quote_lots && old(a).main.open_positions == 0 && old(a).sub_account.collateral_quote_lots + amount <= u64::MAX,
        r is Err ==> *final(a) == *old(a),
        r is Ok ==> *final(a) == (TransferBetweenSubAccounts {
            main: TraderStateAccount {
                collateral_quote_lots: (old(a).main.collateral_quote_lots - amount) as u64,
                ..old(a).main
            },
            sub_account: TraderStateAccount {
                collateral_quote_lots: (old(a).sub_account.collateral_quote_lots + amount) as u64,
                ..old(a).sub_account
            },
            ..*old(a)
        }),
        r matches Ok(e) ==> e.trader == old(a).trader && e.sub_index == sub_index
            && e.amount_quote_lots == amount && e.direction == 0 && e.main_balance_after == final(a).main.collateral_quote_lots && e.sub_balance_after == final(a).sub_account.collateral_quote_lots,
{
}

/// A transfer from a sub-account moves its amount out of the sub-account, which has to
/// be without open positions, and changes nothing else.
pub proof fn law_transfer_to_main_account(
    a: &mut TransferBetweenSubAccounts,
    sub_index: u8,
    amount: u64,
    r: Result<SubAccountTransferEvent, FlashBookError>,
)
    requires
        call_ensures(transfer_sub_to_main, (a, sub_index, amount), r),
    ensures
        r is Ok <==> old(a).main.trader == old(a).trader && old(a).sub_account.trader == old(a).trader && sub_index > 0 && 0 < amount <= old(a).sub_account.collateral_quote_lots && old(a).sub_account.open_positions == 0 && old(a).main.collateral_quote_lots + amount <= u64::MAX,
        r is Err ==> *final(a) == *old(a),
        r is Ok ==> *final(a) == (TransferBetweenSubAccounts {
            main: TraderStateAccount {
                collateral_quote_lots: (old(a).main.collateral_quote_lots + amount) as u64,
                ..old(a).main
            },
            sub_account: TraderStateAccount {
                collateral_quote_lots: (old(a).sub_account.collateral_quote_lots - amount) as u64,
                ..old(a).sub_account
            },
            ..*old(a)
        }),
        r matches Ok(e) ==> e.trader == old(a).trader && e.sub_index == sub_index
            && e.amount_quote_lots == amount && e.direction == 1 && e.main_balance_after == final(a).main.collateral_quote_lots && e.sub_balance_after == final(a).sub_account.collateral_quote_lots,
{
}

/// The insurance fund pays its authority only what stays above the pause threshold and
/// what the vault holds, and keeps count of what it paid.
pub proof fn law_insurance_payout(
    f: &mut InsuranceFundAccount,
    signer: Pubkey,
    amount: u64,
    vault_amount: u64,
    r: Result<(), FlashBookError>,
)
    requires
        call_ensures(withdraw_insurance_fund, (f, signer, amount, vault_amount), r),
    ensures
        r is Ok <==> amount > 0 && old(f).authority == signer && old(f).balance_quote_lots - amount
            >= old(f).pause_threshold_quote_lots && amount <= vault_amount && old(f).total_payouts
            + amount <= u64::MAX,
        r is Err ==> *final(f) == *old(f),
        r is Ok ==> *final(f) == (InsuranceFundAccount {
            balance_quote_lots: (old(f).balance_quote_lots - amount) as u64,
            total_payouts: (old(f).total_payouts + amount) as u64,
            ..*old(f)
        }),
{
}

/// Only the authority moves the pause threshold, and nothing else moves with it.
pub proof fn law_pause_threshold(
    f: &mut InsuranceFundAccount,
    signer: Pubkey,
    threshold: u64,
    r: Result<InsurancePauseThresholdUpdatedEvent, FlashBookError>,
)
    requires
        call_ensures(set_insurance_pause_threshold, (f, signer, threshold), r),
    ensures
        r is Ok <==> old(f).authority == signer,
        r is Err ==> *final(f) == *old(f) && r == Err::<
            InsurancePauseThresholdUpdatedEvent,
            FlashBookError,
        >(FlashBookError::Unauthorized),
        r is Ok ==> *final(f) == (InsuranceFundAccount {
            pause_threshold_quote_lots: threshold,
            ..*old(f)
        }),
        r matches Ok(e) ==> e.previous_threshold_quote_lots == old(f).pause_threshold_quote_lots
            && e.new_threshold_quote_lots == threshold && e.current_balance_quote_lots == old(f).balance_quote_lots,
{
}

/// A risk report counts every position: the unrealized result is the sum over all of
/// them, as far as it fits, and the largest position is none smaller than any other.
pub proof fn law_risk_report_covers_every_position(
    ts: &TraderStateAccount,
    es: &Vec<PortfolioEntry>,
    assessment: Assessment,
    r: Result<PortfolioRiskEvent, FlashBookError>,
)
    requires
        call_ensures(view_portfolio_risk, (ts, es, assessment), r),
    ensures
        r is Ok <==> {
            &&& es@.len() == ts.open_positions
            &&& forall|k: int|
                0 <= k < es@.len() ==> (#[trigger] es@[k]).market_owned && es@[k].position_owned
                    && es@[k].position.trader == ts.trader && es@[k].position.market
                    == es@[k].market_key
            &&& es@.len() == 0 || assessment is Ok
        },
        r matches Ok(e) ==> {
            &&& e.trader == ts.trader
            &&& e.collateral_quote_lots == ts.collateral_quote_lots
            &&& e.open_positions == ts.open_positions
            &&& forall|k: int|
                0 <= k < es@.len() ==> {
                    let n = (#[trigger] es@[k]).position.size_lots * es@[k].market.mark_price_ticks
                        * es@[k].market.params.tick_size;
                    e.largest_position_notional_quote_lots == u64::MAX || n
                        <= e.largest_position_notional_quote_lots
                }
            &&& e.largest_position_notional_quote_lots > 0 ==> exists|k: int|
                0 <= k < es@.len() && (#[trigger] es@[k]).market_key == e.largest_position_market
                    && es@[k].position.size_lots * es@[k].market.mark_price_ticks
                    * es@[k].market.params.tick_size >= e.largest_position_notional_quote_lots
            &&& es@.len() > 0 ==> e.required_margin_quote_lots
                == assessment->Ok_0.required_quote_lots && e.worst_scenario_idx
                == assessment->Ok_0.worst_scenario_idx
            &&& es@.len() == 0 ==> e.required_margin_quote_lots == 0
                && e.unrealized_pnl_quote_lots == 0 && e.health_ratio_bps == u32::MAX
        },
{
    let s = es@;
    lemma_owners(s, 0, ts.trader, FlashBookError::OutOfRange);
    lemma_largest(s, 0, (0, Pubkey::none()));
    assert forall|k: int| 0 <= k < s.len() implies 0 <= (#[trigger] s[k]).position.size_lots
        * s[k].market.mark_price_ticks * s[k].market.params.tick_size && entry_notional(s[k])
        == sat_u128(
        s[k].position.size_lots * s[k].market.mark_price_ticks * s[k].market.params.tick_size,
    ) by {
        lemma_worth_of_one(
            s[k].position.size_lots,
            s[k].market.mark_price_ticks,
            s[k].market.params.tick_size,
        );
    }
}

/// A walk over owners passes exactly if each entry does.
pub proof fn lemma_owners(es: Seq<PortfolioEntry>, i: int, trader: Pubkey, foreign: FlashBookError)
    requires
        0 <= i <= es.len(),
    ensures
        owners_refusal(es, i, trader, foreign) is None <==> forall|k: int|
            i <= k < es.len() ==> (#[trigger] es[k]).market_owned && es[k].position_owned
                && es[k].position.trader == trader && es[k].position.market == es[k].market_key,
    decreases es.len() - i,
{
    if i < es.len() {
        lemma_owners(es, i + 1, trader, foreign);
    }
}

/// The largest entry is one of those seen, and none seen is larger.
pub proof fn lemma_largest(es: Seq<PortfolioEntry>, i: int, best: (int, Pubkey))
    requires
        0 <= i <= es.len(),
    ensures
        ({
            let l = largest_from(es, i, best);
            &&& l.0 >= best.0
            &&& forall|k: int| i <= k < es.len() ==> entry_notional(#[trigger] es[k]) <= l.0
            &&& l == best || exists|k: int|
                i <= k < es.len() && l == (entry_notional(#[trigger] es[k]), es[k].market_key)
        }),
    decreases es.len() - i,
{
    if i < es.len() {
        let next = if entry_notional(es[i]) > best.0 {
            (entry_notional(es[i]), es[i].market_key)
        } else {
            best
        };
        lemma_largest(es, i + 1, next);
    }
}

} // verus!
