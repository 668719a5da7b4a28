//! What a fill costs and who receives it.
use vstd::prelude::*;

use crate::constants::{BPS_DENOM, MAX_FEE_DISCOUNT_BPS};
use crate::math::{
    clamp_u128_to_u64, max_int, min_int, min_u128, min_u64, sat_u128, sat_u64, saturating_mul_u128,
};

verus! {

/// `x` basis points of `amount`, rounded down.
pub open spec fn bps_of(amount: int, bps: int) -> int {
    amount * bps / (BPS_DENOM as int)
}

/// `amount * bps`, at most `u128::MAX`, in whole units.
pub open spec fn sat_bps_of(amount: int, bps: int) -> int {
    sat_u128(amount * bps) / (BPS_DENOM as int)
}

/// The low 64 bits of a non-negative number.
pub open spec fn low_u64(x: int) -> int {
    x % 0x1_0000_0000_0000_0000
}

/// `sat_bps_of`, computed.
pub fn saturating_bps_of(amount: u128, bps: u128) -> (r: u128)
    ensures
        r == sat_bps_of(amount as int, bps as int),
        r * BPS_DENOM <= u128::MAX,
{
    let p: u128 = saturating_mul_u128(amount, bps);
    proof {
        assert((p / 10_000u128) * 10_000 <= p) by (nonlinear_arith);
    }
    p / (BPS_DENOM as u128)
}

/// `bps` basis points of a `u64`.
pub fn bps_of_u64(amount: u64, bps: u32) -> (r: u128)
    ensures
        r == bps_of(amount as int, bps as int),
{
    proof {
        assert(amount * bps <= u64::MAX * u32::MAX) by (nonlinear_arith)
            requires
                amount <= u64::MAX,
                bps <= u32::MAX,
        ;
        assert(0 <= amount * bps) by (nonlinear_arith)
            requires
                amount >= 0,
                bps >= 0,
        ;
    }
    (amount as u128) * (bps as u128) / (BPS_DENOM as u128)
}

/// The low 64 bits of `v`.
pub fn truncate_u128_to_u64(v: u128) -> (r: u64)
    ensures
        r == low_u64(v as int),
{
    (v % 0x1_0000_0000_0000_0000u128) as u64
}

/// What one fill costs its two sides.
#[derive(Clone, Copy, Debug, PartialEq, Eq, Structural)]
pub struct FillFees {
    /// What the taker pays.
    pub taker_fee: u64,
    /// What a taker with a discount above 100% has earned. It is paid as far as the
    /// fill's contribution to the insurance fund goes.
    pub taker_rebate: u128,
    /// What the maker is paid.
    pub maker_rebate: u64,
    /// What a maker with a negative rate pays.
    pub maker_fee: u64,
    /// What is left for the protocol.
    pub net_fee: u64,
}

/// Fees of a fill over `notional`. A discount beyond 100% turns the taker's fee
/// into a rebate; a negative maker rate turns the maker's rebate into a fee; the
/// maker's rebate never exceeds what the taker pays.
pub open spec fn fees_for_fill(
    notional: int,
    taker_fee_bps: int,
    discount_bps: int,
    maker_rate_bps: int,
) -> FillFees {
    let base = sat_bps_of(notional, taker_fee_bps);
    let discount = min_int(discount_bps, MAX_FEE_DISCOUNT_BPS as int);
    let taker_fee = bps_of(base, max_int(BPS_DENOM - discount, 0));
    let taker_rebate = bps_of(base, max_int(discount - BPS_DENOM, 0));
    let maker_rebate = min_int(sat_bps_of(notional, max_int(maker_rate_bps, 0)), taker_fee);
    let maker_fee = sat_bps_of(notional, max_int(-maker_rate_bps, 0));
    FillFees {
        taker_fee: sat_u64(taker_fee) as u64,
        taker_rebate: taker_rebate as u128,
        maker_rebate: sat_u64(maker_rebate) as u64,
        maker_fee: sat_u64(maker_fee) as u64,
        net_fee: sat_u64(
            sat_u64(sat_u64(taker_fee) + sat_u64(maker_fee)) - sat_u64(maker_rebate),
        ) as u64,
    }
}

/// Computes the fees of a fill.
pub fn compute_fill_fees(
    notional: u128,
    taker_fee_bps: u32,
    discount_bps: u32,
    maker_rate_bps: i64,
) -> (r: FillFees)
    requires
        i64::MIN < maker_rate_bps,
    ensures
        r == fees_for_fill(
            notional as int,
            taker_fee_bps as int,
            discount_bps as int,
            maker_rate_bps as int,
        ),
{
    let base: u128 = saturating_bps_of(notional, taker_fee_bps as u128);
    let discount: u64 = if discount_bps > MAX_FEE_DISCOUNT_BPS {
        MAX_FEE_DISCOUNT_BPS as u64
    } else {
        discount_bps as u64
    };
    let kept: u64 = if discount <= BPS_DENOM {
        BPS_DENOM - discount
    } else {
        0
    };
    let extra: u64 = if discount <= BPS_DENOM {
        0
    } else {
        discount - BPS_DENOM
    };
    proof {
        assert(0 <= base * kept <= base * 10_000) by (nonlinear_arith)
            requires
                0 <= base,
                0 <= kept <= 10_000,
        ;
        assert(0 <= base * extra <= base * 10_000) by (nonlinear_arith)
            requires
                0 <= base,
                0 <= extra <= 10_000,
        ;
    }
    let taker_fee_wide: u128 = base * (kept as u128) / (BPS_DENOM as u128);
    let taker_rebate: u128 = base * (extra as u128) / (BPS_DENOM as u128);
    let rate_up: u128 = if maker_rate_bps >= 0 {
        maker_rate_bps as u128
    } else {
        0
    };
    let rate_down: u128 = if maker_rate_bps >= 0 {
        0
    } else {
        (-maker_rate_bps) as u128
    };
    let maker_rebate_wide: u128 = min_u128(saturating_bps_of(notional, rate_up), taker_fee_wide);
    let maker_fee_wide: u128 = saturating_bps_of(notional, rate_down);
    let taker_fee: u64 = clamp_u128_to_u64(taker_fee_wide);
    let maker_rebate: u64 = clamp_u128_to_u64(maker_rebate_wide);
    let maker_fee: u64 = clamp_u128_to_u64(maker_fee_wide);
    FillFees {
        taker_fee,
        taker_rebate,
        maker_rebate,
        maker_fee,
        net_fee: taker_fee.saturating_add(maker_fee).saturating_sub(maker_rebate),
    }
}

/// A maker is never paid more than the taker pays.
pub proof fn law_maker_rebate_within_taker_fee(
    notional: int,
    taker_fee_bps: int,
    discount_bps: int,
    maker_rate_bps: int,
)
    requires
        0 <= notional,
        0 <= taker_fee_bps,
        0 <= discount_bps,
    ensures
        ({
            let f = fees_for_fill(notional, taker_fee_bps, discount_bps, maker_rate_bps);
            f.maker_rebate <= f.taker_fee
        }),
{
    let base = sat_bps_of(notional, taker_fee_bps);
    let discount = min_int(discount_bps, MAX_FEE_DISCOUNT_BPS as int);
    let kept = max_int(BPS_DENOM - discount, 0);
    assert(0 <= base * kept) by (nonlinear_arith)
        requires
            0 <= base,
            0 <= kept,
    ;
}

/// What the two sides pay is what the maker is paid plus what is left for the
/// protocol: a fill creates and destroys nothing, as long as the fees fit.
pub proof fn law_fill_fees_balance(
    notional: int,
    taker_fee_bps: int,
    discount_bps: int,
    maker_rate_bps: int,
)
    requires
        0 <= notional,
        0 <= taker_fee_bps,
        0 <= discount_bps,
        ({
            let f = fees_for_fill(notional, taker_fee_bps, discount_bps, maker_rate_bps);
            f.taker_fee + f.maker_fee <= u64::MAX
        }),
    ensures
        ({
            let f = fees_for_fill(notional, taker_fee_bps, discount_bps, maker_rate_bps);
            f.taker_fee + f.maker_fee == f.maker_rebate + f.net_fee
        }),
{
    law_maker_rebate_within_taker_fee(notional, taker_fee_bps, discount_bps, maker_rate_bps);
    let f = fees_for_fill(notional, taker_fee_bps, discount_bps, maker_rate_bps);
    let base = sat_bps_of(notional, taker_fee_bps);
    let discount = min_int(discount_bps, MAX_FEE_DISCOUNT_BPS as int);
    let kept = max_int(BPS_DENOM - discount, 0);
    assert(0 <= base * kept) by (nonlinear_arith)
        requires
            0 <= base,
            0 <= kept,
    ;
    assert(0 <= notional * max_int(-maker_rate_bps, 0)) by (nonlinear_arith)
        requires
            0 <= notional,
            0 <= max_int(-maker_rate_bps, 0),
    ;
}

/// A taker never both pays a fee and is paid a rebate, and neither does a maker.
pub proof fn law_fee_or_rebate(
    notional: int,
    taker_fee_bps: int,
    discount_bps: int,
    maker_rate_bps: int,
)
    requires
        0 <= notional,
        0 <= taker_fee_bps,
        0 <= discount_bps,
    ensures
        ({
            let f = fees_for_fill(notional, taker_fee_bps, discount_bps, maker_rate_bps);
            (f.taker_fee == 0 || f.taker_rebate == 0) && (f.maker_fee == 0 || f.maker_rebate == 0)
        }),
{
    let base = sat_bps_of(notional, taker_fee_bps);
    assert(base * 0 == 0 && notional * 0 == 0);
    let discount = min_int(discount_bps, MAX_FEE_DISCOUNT_BPS as int);
    let kept = max_int(BPS_DENOM - discount, 0);
    assert(0 <= base * kept) by (nonlinear_arith)
        requires
            0 <= base,
            0 <= kept,
    ;
}

/// What a taker whose discount exceeds 100% is paid of its rebate: no more than the
/// insurance fund's share of the protocol's fee.
pub open spec fn rebate_paid(net_fee: u64, share_bps: u32, taker_rebate: u128) -> u64 {
    sat_u64(min_int(taker_rebate as int, bps_of(net_fee as int, share_bps as int))) as u64
}

/// Computes what a taker is paid of its rebate.
pub fn compute_rebate_paid(net_fee: u64, share_bps: u32, taker_rebate: u128) -> (r: u64)
    ensures
        r == rebate_paid(net_fee, share_bps, taker_rebate),
{
    clamp_u128_to_u64(min_u128(taker_rebate, bps_of_u64(net_fee, share_bps)))
}

/// Part of the protocol's fee that goes to the insurance fund: its share, less
/// what of it goes to a taker whose discount exceeds 100%.
pub open spec fn insurance_contribution(net_fee: u64, share_bps: u32, taker_rebate: u128) -> u64 {
    sat_u64(bps_of(net_fee as int, share_bps as int) - taker_rebate) as u64
}

/// Computes the insurance fund's part of the protocol's fee.
pub fn compute_insurance_contribution(net_fee: u64, share_bps: u32, taker_rebate: u128) -> (r: u64)
    ensures
        r == insurance_contribution(net_fee, share_bps, taker_rebate),
{
    clamp_u128_to_u64(bps_of_u64(net_fee, share_bps).saturating_sub(taker_rebate))
}

/// A tax on a fill while order flow is toxic: at most `max_bps` of the notional,
/// in proportion to the toxicity signal, and never more than the taker holds.
pub open spec fn toxicity_tax(notional: int, max_bps: int, vpin_bps: int, available: u64) -> u64 {
    min_int(
        sat_u64(
            sat_u128(sat_u128(notional * max_bps) * vpin_bps) / (BPS_DENOM as int) / (
            BPS_DENOM as int),
        ),
        available as int,
    ) as u64
}

/// Computes the toxicity tax.
pub fn compute_toxicity_tax(notional: u128, max_bps: u32, vpin_bps: u32, available: u64) -> (r: u64)
    ensures
        r == toxicity_tax(notional as int, max_bps as int, vpin_bps as int, available),
{
    let scaled: u128 = saturating_mul_u128(
        saturating_mul_u128(notional, max_bps as u128),
        vpin_bps as u128,
    );
    let tax: u64 = clamp_u128_to_u64(scaled / (BPS_DENOM as u128) / (BPS_DENOM as u128));
    min_u64(tax, available)
}

/// How a tax is split: the insurance fund's part, and the rest for the maker.
pub open spec fn tax_split(tax: u64, insurance_bps: u32) -> (u64, u64) {
    let to_insurance = low_u64(bps_of(tax as int, insurance_bps as int));
    (to_insurance as u64, sat_u64(tax - to_insurance) as u64)
}

/// Splits a tax between the insurance fund and the maker.
pub fn split_tax(tax: u64, insurance_bps: u32) -> (r: (u64, u64))
    ensures
        r == tax_split(tax, insurance_bps),
{
    let to_insurance: u64 = truncate_u128_to_u64(bps_of_u64(tax, insurance_bps));
    (to_insurance, tax.saturating_sub(to_insurance))
}

/// With a share of at most 100% the two parts of a tax add up to the tax.
pub proof fn law_tax_split_conserves(tax: u64, insurance_bps: u32)
    requires
        insurance_bps <= BPS_DENOM,
    ensures
        tax_split(tax, insurance_bps).0 + tax_split(tax, insurance_bps).1 == tax,
{
    assert(tax * insurance_bps <= tax * 10_000) by (nonlinear_arith)
        requires
            0 <= tax,
            insurance_bps <= 10_000,
    ;
    assert(0 <= tax * insurance_bps) by (nonlinear_arith)
        requires
            0 <= tax,
            0 <= insurance_bps,
    ;
}

/// The part of a fee that is owed to a third party.
pub open spec fn fee_share(net_fee: u64, bps: u32) -> u64 {
    low_u64(bps_of(net_fee as int, bps as int)) as u64
}

/// Computes the part of a fee that is owed to a third party.
pub fn compute_fee_share(net_fee: u64, bps: u32) -> (r: u64)
    ensures
        r == fee_share(net_fee, bps),
{
    truncate_u128_to_u64(bps_of_u64(net_fee, bps))
}

} // verus!
