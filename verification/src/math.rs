//! Integer arithmetic that saturates, clamps or reports.
use vstd::prelude::*;

verus! {

/// The `u64` nearest to `x`.
pub open spec fn sat_u64(x: int) -> int {
    if x < 0 {
        0
    } else if x > u64::MAX {
        u64::MAX as int
    } else {
        x
    }
}

/// The `u32` nearest to `x`.
pub open spec fn sat_u32(x: int) -> int {
    if x < 0 {
        0
    } else if x > u32::MAX {
        u32::MAX as int
    } else {
        x
    }
}

/// The `u128` nearest to `x`.
pub open spec fn sat_u128(x: int) -> int {
    if x < 0 {
        0
    } else if x > u128::MAX {
        u128::MAX as int
    } else {
        x
    }
}

/// The `i64` nearest to `x`.
pub open spec fn sat_i64(x: int) -> int {
    if x < i64::MIN {
        i64::MIN as int
    } else if x > i64::MAX {
        i64::MAX as int
    } else {
        x
    }
}

/// The `i128` nearest to `x`.
pub open spec fn sat_i128(x: int) -> int {
    if x < i128::MIN {
        i128::MIN as int
    } else if x > i128::MAX {
        i128::MAX as int
    } else {
        x
    }
}

/// The smaller of two integers.
pub open spec fn min_int(a: int, b: int) -> int {
    if a <= b {
        a
    } else {
        b
    }
}

/// The larger of two integers.
pub open spec fn max_int(a: int, b: int) -> int {
    if a >= b {
        a
    } else {
        b
    }
}

/// The distance of `x` from zero.
pub open spec fn abs_int(x: int) -> int {
    if x >= 0 {
        x
    } else {
        -x
    }
}

/// Division that drops the fraction, towards zero.
pub open spec fn div_trunc(a: int, b: int) -> int {
    if (a >= 0) == (b >= 0) {
        abs_int(a) / abs_int(b)
    } else {
        -(abs_int(a) / abs_int(b))
    }
}

/// `a * b`, at most `u128::MAX`.
pub fn saturating_mul_u128(a: u128, b: u128) -> (r: u128)
    ensures
        r == sat_u128(a * b),
{
    proof {
        vstd::arithmetic::mul::lemma_mul_nonnegative(a as int, b as int);
    }
    match a.checked_mul(b) {
        Some(p) => p,
        None => u128::MAX,
    }
}

/// `a + b`, kept in the range of `i64`.
pub fn saturating_add_i64(a: i64, b: i64) -> (r: i64)
    ensures
        r == sat_i64(a + b),
{
    clamp_i128_to_i64(a as i128 + b as i128)
}

/// `a + b`, kept in the range of `i128`.
pub fn saturating_add_i128(a: i128, b: i128) -> (r: i128)
    ensures
        r == sat_i128(a + b),
{
    match a.checked_add(b) {
        Some(s) => s,
        None => if b >= 0 {
            i128::MAX
        } else {
            i128::MIN
        },
    }
}

/// `a * b`, kept in the range of `i128`.
pub fn saturating_mul_i128(a: i128, b: i128) -> (r: i128)
    ensures
        r == sat_i128(a * b),
{
    match a.checked_mul(b) {
        Some(p) => p,
        None => {
            if (a >= 0) == (b >= 0) {
                proof {
                    assert(a * b >= 0) by (nonlinear_arith)
                        requires
                            (a >= 0) == (b >= 0),
                    ;
                }
                i128::MAX
            } else {
                proof {
                    assert(a * b <= 0) by (nonlinear_arith)
                        requires
                            (a >= 0) != (b >= 0),
                    ;
                }
                i128::MIN
            }
        },
    }
}

/// The `i64` nearest to `v`.
pub fn clamp_i128_to_i64(v: i128) -> (r: i64)
    ensures
        r == sat_i64(v as int),
{
    if v > i64::MAX as i128 {
        i64::MAX
    } else if v < i64::MIN as i128 {
        i64::MIN
    } else {
        v as i64
    }
}

/// The `u64` nearest to `v`.
pub fn clamp_u128_to_u64(v: u128) -> (r: u64)
    ensures
        r == sat_u64(v as int),
{
    if v > u64::MAX as u128 {
        u64::MAX
    } else {
        v as u64
    }
}

/// The `u32` nearest to `v`.
pub fn clamp_u128_to_u32(v: u128) -> (r: u32)
    ensures
        r == sat_u32(v as int),
{
    if v > u32::MAX as u128 {
        u32::MAX
    } else {
        v as u32
    }
}

/// The `u32` nearest to `v`.
pub fn clamp_u64_to_u32(v: u64) -> (r: u32)
    ensures
        r == sat_u32(v as int),
{
    if v > u32::MAX as u64 {
        u32::MAX
    } else {
        v as u32
    }
}

/// The smaller of two numbers.
pub fn min_u64(a: u64, b: u64) -> (r: u64)
    ensures
        r == min_int(a as int, b as int),
{
    if a <= b {
        a
    } else {
        b
    }
}

/// The larger of two numbers.
pub fn max_u64(a: u64, b: u64) -> (r: u64)
    ensures
        r == max_int(a as int, b as int),
{
    if a >= b {
        a
    } else {
        b
    }
}

/// The smaller of two numbers.
pub fn min_u128(a: u128, b: u128) -> (r: u128)
    ensures
        r == min_int(a as int, b as int),
{
    if a <= b {
        a
    } else {
        b
    }
}

/// `x` as a timestamp: seconds before the epoch count as zero.
pub fn unix_seconds(t: i64) -> (r: u64)
    ensures
        r == max_int(t as int, 0),
{
    if t > 0 {
        t as u64
    } else {
        0
    }
}

/// The low 32 bits of a number.
pub open spec fn low_u32(x: u64) -> u32 {
    (x % 0x1_0000_0000) as u32
}

/// Takes the low 32 bits of a number.
pub fn truncate_u64_to_u32(v: u64) -> (r: u32)
    ensures
        r == low_u32(v),
{
    (v % 0x1_0000_0000) as u32
}

/// The `i64` that differs from `x` by a multiple of 2^64.
pub open spec fn wrapped_i64(x: int) -> int {
    let m = x % 0x1_0000_0000_0000_0000;
    if m > i64::MAX {
        m - 0x1_0000_0000_0000_0000
    } else {
        m
    }
}

/// `v` read as a signed number.
pub fn reinterpret_i64(v: u64) -> (r: i64)
    ensures
        r == wrapped_i64(v as int),
{
    if v <= i64::MAX as u64 {
        v as i64
    } else {
        (v as i128 - 0x1_0000_0000_0000_0000i128) as i64
    }
}

/// `-v` read as a signed number.
pub fn negated_i64(v: u64) -> (r: i64)
    ensures
        r == wrapped_i64(-(v as int)),
{
    if v == 0 {
        0
    } else {
        reinterpret_i64(u64::MAX - v + 1)
    }
}

} // verus!
