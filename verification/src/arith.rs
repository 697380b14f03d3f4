//! Saturating and clamping integer helpers with exact specifications.

use vstd::prelude::*;

verus! {

/// Clamps a mathematical integer into the `i64` range.
pub open spec fn clamp_i64(x: int) -> int {
    if x > i64::MAX as int {
        i64::MAX as int
    } else if x < i64::MIN as int {
        i64::MIN as int
    } else {
        x
    }
}

/// Clamps a mathematical integer into the `u64` range.
pub open spec fn clamp_u64(x: int) -> int {
    if x > u64::MAX as int {
        u64::MAX as int
    } else if x < 0 {
        0
    } else {
        x
    }
}

/// Clamps a mathematical integer into the `u128` range.
pub open spec fn clamp_u128(x: int) -> int {
    if x > u128::MAX as int {
        u128::MAX as int
    } else if x < 0 {
        0
    } else {
        x
    }
}

/// Clamps a mathematical integer into the `i128` range.
pub open spec fn clamp_i128(x: int) -> int {
    if x > i128::MAX as int {
        i128::MAX as int
    } else if x < i128::MIN as int {
        i128::MIN as int
    } else {
        x
    }
}

/// Smaller of two integers.
pub open spec fn min_int(a: int, b: int) -> int {
    if a <= b { a } else { b }
}

/// Larger of two integers.
pub open spec fn max_int(a: int, b: int) -> int {
    if a >= b { a } else { b }
}

/// Saturating `i64` addition.
pub fn sat_add_i64(a: i64, b: i64) -> (r: i64)
    ensures
        r == clamp_i64(a + b),
{
    match a.checked_add(b) {
        Some(v) => v,
        None => if b > 0 { i64::MAX } else { i64::MIN },
    }
}

/// Saturating `i64` subtraction.
pub fn sat_sub_i64(a: i64, b: i64) -> (r: i64)
    ensures
        r == clamp_i64(a - b),
{
    match a.checked_sub(b) {
        Some(v) => v,
        None => if b < 0 { i64::MAX } else { i64::MIN },
    }
}

/// Saturating `i64` multiplication.
pub fn sat_mul_i64(a: i64, b: i64) -> (r: i64)
    ensures
        r == clamp_i64(a * b),
{
    assert(-0x4000_0000_0000_0000_0000_0000_0000_0000 <= (a as int) * (b as int)
        <= 0x4000_0000_0000_0000_0000_0000_0000_0000) by (nonlinear_arith)
        requires
            i64::MIN <= a <= i64::MAX,
            i64::MIN <= b <= i64::MAX,
    ;
    let wide: i128 = (a as i128) * (b as i128);
    clamp_i128_to_i64(wide)
}

/// Saturating `u64` multiplication.
pub fn sat_mul_u64(a: u64, b: u64) -> (r: u64)
    ensures
        r == clamp_u64(a * b),
{
    match a.checked_mul(b) {
        Some(v) => v,
        None => u64::MAX,
    }
}

/// Saturating `u128` addition.
pub fn sat_add_u128(a: u128, b: u128) -> (r: u128)
    ensures
        r == clamp_u128(a + b),
{
    a.saturating_add(b)
}

/// Saturating `u128` multiplication.
pub fn sat_mul_u128(a: u128, b: u128) -> (r: u128)
    ensures
        r == clamp_u128(a * b),
{
    match a.checked_mul(b) {
        Some(v) => v,
        None => u128::MAX,
    }
}

/// Saturating `i128` multiplication.
pub fn sat_mul_i128(a: i128, b: i128) -> (r: i128)
    ensures
        r == clamp_i128(a * b),
{
    match a.checked_mul(b) {
        Some(v) => v,
        None => {
            if (a > 0 && b > 0) || (a < 0 && b < 0) {
                assert(a * b > 0) by (nonlinear_arith)
                    requires (a > 0 && b > 0) || (a < 0 && b < 0);
                i128::MAX
            } else {
                assert(a * b <= 0) by (nonlinear_arith)
                    requires !((a > 0 && b > 0) || (a < 0 && b < 0));
                i128::MIN
            }
        },
    }
}

/// Saturating `i128` subtraction.
pub fn sat_sub_i128(a: i128, b: i128) -> (r: i128)
    ensures
        r == clamp_i128(a - b),
{
    match a.checked_sub(b) {
        Some(v) => v,
        None => if b < 0 { i128::MAX } else { i128::MIN },
    }
}

/// Saturating `i128` addition.
pub fn sat_add_i128(a: i128, b: i128) -> (r: i128)
    ensures
        r == clamp_i128(a + b),
{
    match a.checked_add(b) {
        Some(v) => v,
        None => if b > 0 { i128::MAX } else { i128::MIN },
    }
}

/// Clamps an `i128` into the `i64` range.
pub fn clamp_i128_to_i64(v: i128) -> (r: i64)
    ensures
        r == clamp_i64(v as int),
{
    if v > i64::MAX as i128 {
        i64::MAX
    } else if v < i64::MIN as i128 {
        i64::MIN
    } else {
        v as i64
    }
}

/// Converts an `i128` to `i64`, falling back to `i64::MAX` when it does not fit.
pub fn i128_to_i64_or_max(v: i128) -> (r: i64)
    ensures
        r == (if i64::MIN <= v <= i64::MAX { v as int } else { i64::MAX as int }),
{
    if i64::MIN as i128 <= v && v <= i64::MAX as i128 {
        v as i64
    } else {
        i64::MAX
    }
}

/// Smaller of two `i64` values.
pub fn min_i64(a: i64, b: i64) -> (r: i64)
    ensures
        r == min_int(a as int, b as int),
{
    if a <= b { a } else { b }
}

/// Larger of two `i64` values.
pub fn max_i64(a: i64, b: i64) -> (r: i64)
    ensures
        r == max_int(a as int, b as int),
{
    if a >= b { a } else { b }
}

/// Smaller of two `u64` values.
pub fn min_u64(a: u64, b: u64) -> (r: u64)
    ensures
        r == min_int(a as int, b as int),
{
    if a <= b { a } else { b }
}

/// Larger of two `u64` values.
pub fn max_u64(a: u64, b: u64) -> (r: u64)
    ensures
        r == max_int(a as int, b as int),
{
    if a >= b { a } else { b }
}

/// Non-negative part of an `i64` widened to `u128`.
pub open spec fn spec_i64_to_u128(v: i64) -> int {
    if v > 0 { v as int } else { 0 }
}

/// Widens the non-negative part of `value`, mapping negatives to zero.
pub fn i64_to_u128(value: i64) -> (r: u128)
    ensures
        r == spec_i64_to_u128(value),
{
    if value > 0 { value as u128 } else { 0 }
}

/// Converts a `usize` to `u64`, saturating.
pub fn usize_to_u64(value: usize) -> (r: u64)
    ensures
        r == clamp_u64(value as int),
{
    if value as u128 > u64::MAX as u128 { u64::MAX } else { value as u64 }
}

/// Truncating (round toward zero) division, as Rust's `/` on signed
/// integers, for a positive divisor.
pub open spec fn tdiv(a: int, b: int) -> int {
    if a >= 0 { a / b } else { -((-a) / b) }
}

/// Truncating remainder, as Rust's `%` on signed integers, for a positive
/// divisor.
pub open spec fn trem(a: int, b: int) -> int {
    if a >= 0 { a % b } else { -((-a) % b) }
}

/// `i64::try_from(v).unwrap_or(i64::MAX)`.
pub open spec fn or_max_i64(v: int) -> int {
    if i64::MIN <= v <= i64::MAX { v } else { i64::MAX as int }
}

/// Clamps into `[lo, hi]`.
pub open spec fn clamp_int(v: int, lo: int, hi: int) -> int {
    if v < lo { lo } else if v > hi { hi } else { v }
}

/// `a + b`, saturated at `usize::MAX`.
pub open spec fn spec_sat_add_usize(a: usize, b: usize) -> usize {
    if a + b > usize::MAX {
        usize::MAX
    } else {
        (a + b) as usize
    }
}

/// `a - b`, saturated at zero.
pub open spec fn spec_sat_sub_usize(a: usize, b: usize) -> usize {
    if a < b {
        0
    } else {
        (a - b) as usize
    }
}

} // verus!
