//! Integer formulas shared by the execution algorithms: ceilings, basis
//! points, slippage and tick snapping.

use vstd::prelude::*;
use crate::arith::{clamp_i128, clamp_int, i128_to_i64_or_max, max_int, min_int, or_max_i64, spec_i64_to_u128, tdiv, trem};
use crate::algo_model::AlgoError;
use crate::ids::{all_ascii_bytes, FixedAscii};
use crate::orders::{OrderPrice, OrderSide};
use vstd::string::{is_ascii, is_ascii_spec_bytes, StringSliceAdditionalSpecFns};

verus! {

/// Ceiling division of unsigned integers.
pub open spec fn spec_div_ceil(lhs: int, rhs: int) -> int {
    lhs / rhs + if lhs % rhs == 0 { 0int } else { 1int }
}

/// Ceiling division of `u64` values.
pub fn div_ceil_u64(lhs: u64, rhs: u64) -> (r: u64)
    requires
        rhs > 0,
    ensures
        r == spec_div_ceil(lhs as int, rhs as int),
{
    let q = lhs / rhs;
    if lhs % rhs == 0 {
        q
    } else {
        assert(rhs > 1);
        assert(q < u64::MAX) by (nonlinear_arith)
            requires
                q == lhs / rhs,
                rhs > 1,
        ;
        q + 1
    }
}

/// Truncating-quotient ceiling of `i128` values: one more than the
/// truncated quotient when the remainder is non-zero.
pub open spec fn spec_div_ceil_trunc(lhs: int, rhs: int) -> int {
    tdiv(lhs, rhs) + if trem(lhs, rhs) != 0 { 1int } else { 0int }
}

/// Ceiling division of `i128` values (truncating quotient, plus one on a
/// non-zero remainder).
pub fn div_ceil_i128(lhs: i128, rhs: i128) -> (r: i128)
    requires
        rhs > 0,
    ensures
        r == spec_div_ceil_trunc(lhs as int, rhs as int),
{
    let q = lhs / rhs;
    if lhs % rhs != 0 {
        assert(rhs > 1);
        assert(tdiv(lhs as int, rhs as int) < i128::MAX) by (nonlinear_arith)
            requires
                rhs > 1,
                i128::MIN <= lhs <= i128::MAX,
        ;
        q + 1
    } else {
        q
    }
}

/// Participation quantity: `volume * bps / 10_000`, or `i64::MAX` when it
/// does not fit.
pub open spec fn spec_participation_qty(volume: int, bps: int) -> int {
    or_max_i64(tdiv(volume * bps, 10_000))
}

/// Quantity allowed by a participation rate in basis points.
pub fn participation_qty(volume: i64, bps: u16) -> (r: i64)
    ensures
        r == spec_participation_qty(volume as int, bps as int),
{
    proof {
        lemma_mul_bounds_i64_u64(volume as int, bps as int);
    }
    let value = (volume as i128) * (bps as i128);
    i128_to_i64_or_max(value / 10_000)
}

proof fn lemma_mul_bounds_i64_u64(a: int, b: int)
    requires
        i64::MIN <= a <= i64::MAX,
        0 <= b <= u64::MAX,
    ensures
        -0x8000_0000_0000_0000_0000_0000_0000_0000 <= a * b <= 0x7fff_ffff_ffff_ffff_ffff_ffff_ffff_ffff,
{
    assert(-0x8000_0000_0000_0000_0000_0000_0000_0000 <= a * b <= 0x7fff_ffff_ffff_ffff_ffff_ffff_ffff_ffff) by (nonlinear_arith)
        requires
            i64::MIN <= a <= i64::MAX,
            0 <= b <= u64::MAX,
    ;
}

/// Target quantity of a cumulative VWAP weight.
pub open spec fn spec_vwap_target_qty(parent_qty: int, cumulative: int, total: int) -> int {
    or_max_i64(tdiv(parent_qty * cumulative, total))
}

/// Parent quantity scaled by `cumulative_weight / total_weight`.
pub fn vwap_target_qty(parent_qty: i64, cumulative_weight: u64, total_weight: u64) -> (r: i64)
    requires
        total_weight > 0,
    ensures
        r == spec_vwap_target_qty(parent_qty as int, cumulative_weight as int, total_weight as int),
{
    proof {
        lemma_mul_bounds_i64_u64(parent_qty as int, cumulative_weight as int);
    }
    let value = (parent_qty as i128) * (cumulative_weight as i128);
    i128_to_i64_or_max(value / (total_weight as i128))
}

/// Elapsed fraction of `[start, end]` at `now`, in basis points.
pub open spec fn spec_elapsed_bps(start: int, end: int, now: int) -> int {
    if now <= start {
        0
    } else if now >= end {
        10_000
    } else {
        min_int((now - start) * 10_000 / max_int(end - start, 1), 10_000)
    }
}

/// Elapsed schedule in basis points.
pub fn elapsed_bps(start_ns: u64, end_ns: u64, now_ns: u64) -> (r: u16)
    ensures
        r == spec_elapsed_bps(start_ns as int, end_ns as int, now_ns as int),
{
    if now_ns <= start_ns {
        return 0;
    }
    if now_ns >= end_ns {
        return 10_000;
    }
    let elapsed = now_ns - start_ns;
    let total = end_ns - start_ns;
    let total = if total == 0 { 1 } else { total };
    assert((elapsed as int) * 10_000 <= u128::MAX) by (nonlinear_arith)
        requires elapsed <= u64::MAX;
    let v = ((elapsed as u128) * 10_000) / (total as u128);
    if v > 10_000 { 10_000 } else { v as u16 }
}

/// `value * bps / 10_000`, saturating at `u32::MAX`.
pub open spec fn spec_scale_bps_u32(value: int, bps: int) -> int {
    min_int(value * bps / 10_000, u32::MAX as int)
}

/// Scales a count by basis points.
pub fn scale_bps_u32(value: u32, bps: u32) -> (r: u32)
    ensures
        r == spec_scale_bps_u32(value as int, bps as int),
{
    assert((value as int) * (bps as int) <= u128::MAX) by (nonlinear_arith)
        requires value <= u32::MAX, bps <= u32::MAX;
    let scaled = ((value as u128) * (bps as u128)) / 10_000;
    if scaled > u32::MAX as u128 { u32::MAX } else { scaled as u32 }
}

/// `quantity * bps / 10_000` (truncating), or `i64::MAX` when it does not
/// fit.
pub open spec fn spec_scale_qty_bps(quantity: int, bps: int) -> int {
    or_max_i64(tdiv(quantity * bps, 10_000))
}

/// Scales a quantity by basis points.
pub fn scale_qty_bps(quantity: i64, bps: u32) -> (r: i64)
    ensures
        r == spec_scale_qty_bps(quantity as int, bps as int),
{
    proof {
        lemma_mul_bounds_i64_u64(quantity as int, bps as int);
    }
    let scaled = ((quantity as i128) * (bps as i128)) / 10_000;
    i128_to_i64_or_max(scaled)
}

/// Child quantity as basis points of market volume; zero for non-positive
/// inputs.
pub open spec fn spec_participation_bps(child_qty: int, market_volume: int) -> int {
    if child_qty <= 0 || market_volume <= 0 {
        0
    } else {
        min_int(child_qty * 10_000 / market_volume, u32::MAX as int)
    }
}

/// Participation of a child in observed volume, in basis points.
pub fn participation_bps(child_qty: i64, market_volume: i64) -> (r: u32)
    ensures
        r == spec_participation_bps(child_qty as int, market_volume as int),
{
    if child_qty <= 0 || market_volume <= 0 {
        return 0;
    }
    let bps = ((child_qty as i128) * 10_000) / (market_volume as i128);
    if bps > u32::MAX as i128 { u32::MAX } else { bps as u32 }
}

/// Distance of `price` from `reference` in basis points of the reference;
/// `u32::MAX` for non-positive prices.
pub open spec fn spec_price_distance_bps(price: int, reference: int) -> int {
    if price <= 0 || reference <= 0 {
        u32::MAX as int
    } else {
        min_int(
            (if price >= reference { price - reference } else { reference - price }) * 10_000
                / reference,
            u32::MAX as int,
        )
    }
}

/// Price distance in basis points.
pub fn price_distance_bps(price: OrderPrice, reference: OrderPrice) -> (r: u32)
    ensures
        r == spec_price_distance_bps(price.0 as int, reference.0 as int),
{
    if price.0 <= 0 || reference.0 <= 0 {
        return u32::MAX;
    }
    let distance: u64 = if price.0 >= reference.0 {
        (price.0 - reference.0) as u64
    } else {
        (reference.0 - price.0) as u64
    };
    let bps = ((distance as u128) * 10_000) / (reference.0 as u128);
    if bps > u32::MAX as u128 { u32::MAX } else { bps as u32 }
}

/// Completed quantity as basis points of target, within `[0, 10_000]`.
pub open spec fn spec_completion_bps(completed: int, target: int) -> int {
    if completed <= 0 || target <= 0 {
        0
    } else {
        min_int(completed * 10_000 / target, 10_000)
    }
}

/// Completion in basis points of target quantity.
pub fn completion_bps(completed_qty: i64, target_qty: i64) -> (r: u16)
    ensures
        r == spec_completion_bps(completed_qty as int, target_qty as int),
{
    if completed_qty <= 0 || target_qty <= 0 {
        return 0;
    }
    let bps = ((completed_qty as i128) * 10_000) / (target_qty as i128);
    if bps > 10_000 { 10_000 } else { bps as u16 }
}

/// Average price of a notional over a quantity; zero without fills.
pub open spec fn spec_average_price(notional: int, quantity: int) -> int {
    if notional == 0 || quantity <= 0 {
        0
    } else {
        min_int(notional / quantity, i64::MAX as int)
    }
}

/// Average price from cumulative notional.
pub fn average_price_from_notional(notional: u128, quantity: i64) -> (r: OrderPrice)
    ensures
        r.0 == spec_average_price(notional as int, quantity as int),
{
    if notional == 0 || quantity <= 0 {
        return OrderPrice(0);
    }
    let avg = notional / (quantity as u128);
    if avg > i64::MAX as u128 { OrderPrice(i64::MAX) } else { OrderPrice(avg as i64) }
}

/// Side-aware slippage of `average` against `benchmark`, in basis points
/// clamped to `i32`; positive means worse than the benchmark.
pub open spec fn spec_side_slippage_bps(side: OrderSide, average: int, benchmark: int) -> int {
    if average <= 0 || benchmark <= 0 {
        0
    } else {
        let raw = match side {
            OrderSide::Buy => average - benchmark,
            OrderSide::Sell => benchmark - average,
        };
        clamp_int(tdiv(raw * 10_000, benchmark), i32::MIN as int, i32::MAX as int)
    }
}

/// Side-aware slippage in basis points.
pub fn side_slippage_bps(side: OrderSide, average_price: OrderPrice, benchmark: OrderPrice) -> (r:
    i32)
    ensures
        r == spec_side_slippage_bps(side, average_price.0 as int, benchmark.0 as int),
{
    if average_price.0 <= 0 || benchmark.0 <= 0 {
        return 0;
    }
    let raw: i128 = match side {
        OrderSide::Buy => (average_price.0 as i128) - (benchmark.0 as i128),
        OrderSide::Sell => (benchmark.0 as i128) - (average_price.0 as i128),
    };
    let bps = (raw * 10_000) / (benchmark.0 as i128);
    if bps < i32::MIN as i128 {
        i32::MIN
    } else if bps > i32::MAX as i128 {
        i32::MAX
    } else {
        bps as i32
    }
}

/// Slippage against an optional benchmark (zero when unset).
pub open spec fn spec_optional_slippage_bps(side: OrderSide, average: int, benchmark: int) -> int {
    if benchmark <= 0 { 0 } else { spec_side_slippage_bps(side, average, benchmark) }
}

/// Slippage against an optional benchmark.
pub fn optional_slippage_bps(side: OrderSide, average_price: OrderPrice, benchmark: OrderPrice) -> (r:
    i32)
    ensures
        r == spec_optional_slippage_bps(side, average_price.0 as int, benchmark.0 as int),
{
    if benchmark.0 <= 0 {
        0
    } else {
        side_slippage_bps(side, average_price, benchmark)
    }
}

/// Mean latency of the samples, saturating at `u64::MAX`; zero without
/// samples.
pub open spec fn spec_average_latency(total: int, samples: int) -> int {
    if samples == 0 { 0 } else { min_int(total / samples, u64::MAX as int) }
}

/// Average latency in nanoseconds.
pub fn average_latency_ns(total_latency_ns: u128, samples: u64) -> (r: u64)
    ensures
        r == spec_average_latency(total_latency_ns as int, samples as int),
{
    if samples == 0 {
        return 0;
    }
    let avg = total_latency_ns / (samples as u128);
    if avg > u64::MAX as u128 { u64::MAX } else { avg as u64 }
}

/// `quantity * 10_000 / bps` (truncating), `i64::MAX` when it does not fit,
/// zero for a zero rate.
pub open spec fn spec_scale_qty_inverse_bps(quantity: int, bps: int) -> int {
    if bps == 0 { 0 } else { or_max_i64(tdiv(quantity * 10_000, bps)) }
}

/// Inverse basis-point scaling of a quantity.
pub fn scale_qty_inverse_bps(quantity: i64, bps: u32) -> (r: i64)
    ensures
        r == spec_scale_qty_inverse_bps(quantity as int, bps as int),
{
    if bps == 0 {
        return 0;
    }
    let scaled = ((quantity as i128) * 10_000) / (bps as i128);
    i128_to_i64_or_max(scaled)
}

/// Edge of selling at `sell * ratio` against buying at `buy`, in basis
/// points of the buy price; `i32::MIN` for unusable inputs.
pub open spec fn spec_spread_edge_bps(buy: int, sell: int, ratio: int) -> int {
    if buy <= 0 || sell <= 0 || ratio == 0 {
        i32::MIN as int
    } else {
        clamp_int(
            tdiv((sell * ratio / 10_000 - buy) * 10_000, buy),
            i32::MIN as int,
            i32::MAX as int,
        )
    }
}

/// Spread edge in basis points.
pub fn spread_edge_bps(buy_price: OrderPrice, sell_price: OrderPrice, ratio_bps: u32) -> (r: i32)
    ensures
        r == spec_spread_edge_bps(buy_price.0 as int, sell_price.0 as int, ratio_bps as int),
{
    if buy_price.0 <= 0 || sell_price.0 <= 0 || ratio_bps == 0 {
        return i32::MIN;
    }
    assert((sell_price.0 as int) * (ratio_bps as int) <= 0x7fff_ffff_ffff_ffff_ffff_ffff_ffff) by (nonlinear_arith)
        requires 0 < sell_price.0 <= i64::MAX, 0 < ratio_bps <= u32::MAX;
    let scaled_sell = ((sell_price.0 as i128) * (ratio_bps as i128)) / 10_000;
    assert(scaled_sell <= 0x7fff_ffff_ffff_ffff_ffff_ffff_ffff);
    let edge = ((scaled_sell - (buy_price.0 as i128)) * 10_000) / (buy_price.0 as i128);
    if edge < i32::MIN as i128 {
        i32::MIN
    } else if edge > i32::MAX as i128 {
        i32::MAX
    } else {
        edge as i32
    }
}

/// Probability that a child behind `queue_ahead` fills from the expected
/// take, in basis points within `[0, 10_000]`.
pub open spec fn spec_queue_fill_probability_bps(queue_ahead: int, child: int, take: int) -> int {
    if child <= 0 || take <= 0 {
        0
    } else {
        let required = clamp_int(max_int(queue_ahead, 0) + child, i64::MIN as int, i64::MAX as int);
        if required <= 0 {
            10_000
        } else {
            min_int(take * 10_000 / required, 10_000)
        }
    }
}

/// Fill probability of a passive child in basis points.
pub fn queue_fill_probability_bps(queue_ahead_qty: i64, child_qty: i64, expected_take_qty: i64) -> (r:
    u16)
    ensures
        r == spec_queue_fill_probability_bps(
            queue_ahead_qty as int,
            child_qty as int,
            expected_take_qty as int,
        ),
{
    if child_qty <= 0 || expected_take_qty <= 0 {
        return 0;
    }
    let ahead = if queue_ahead_qty > 0 { queue_ahead_qty } else { 0 };
    let required = crate::arith::sat_add_i64(ahead, child_qty);
    if required <= 0 {
        return 10_000;
    }
    let bps = ((expected_take_qty as i128) * 10_000) / (required as i128);
    if bps > 10_000 { 10_000 } else { bps as u16 }
}

/// Available quantity as basis points of target, within `[0, 10_000]`.
pub open spec fn spec_route_liquidity_bps(available: int, target: int) -> int {
    if available <= 0 || target <= 0 { 0 } else { min_int(available * 10_000 / target, 10_000) }
}

/// Liquidity score of a route.
pub fn route_liquidity_bps(available_qty: i64, target_qty: i64) -> (r: u16)
    ensures
        r == spec_route_liquidity_bps(available_qty as int, target_qty as int),
{
    if available_qty <= 0 || target_qty <= 0 {
        return 0;
    }
    let bps = ((available_qty as i128) * 10_000) / (target_qty as i128);
    if bps > 10_000 { 10_000 } else { bps as u16 }
}

/// Side-aware price penalty against the best price, in basis points within
/// `[0, 10_000]`; the full penalty for non-positive prices.
pub open spec fn spec_route_price_penalty_bps(side: OrderSide, price: int, best: int) -> int {
    if price <= 0 || best <= 0 {
        10_000
    } else {
        let ticks = match side {
            OrderSide::Buy => price - best,
            OrderSide::Sell => best - price,
        };
        if ticks <= 0 { 0 } else { min_int(ticks * 10_000 / best, 10_000) }
    }
}

/// Price penalty of a route.
pub fn route_price_penalty_bps(side: OrderSide, price: OrderPrice, best_price: OrderPrice) -> (r:
    u16)
    ensures
        r == spec_route_price_penalty_bps(side, price.0 as int, best_price.0 as int),
{
    if price.0 <= 0 || best_price.0 <= 0 {
        return 10_000;
    }
    let ticks: i64 = match side {
        OrderSide::Buy => price.0 - best_price.0,
        OrderSide::Sell => best_price.0 - price.0,
    };
    if ticks <= 0 {
        return 0;
    }
    let bps = ((ticks as i128) * 10_000) / (best_price.0 as i128);
    if bps > 10_000 { 10_000 } else { bps as u16 }
}

/// True when `price` is no worse than the collar for the side.
pub open spec fn spec_price_inside_collar(side: OrderSide, price: int, collar: int) -> bool {
    match side {
        OrderSide::Buy => price <= collar,
        OrderSide::Sell => price >= collar,
    }
}

/// Side-aware collar check.
pub fn price_inside_collar(side: OrderSide, price: OrderPrice, collar: OrderPrice) -> (r: bool)
    ensures
        r == spec_price_inside_collar(side, price.0 as int, collar.0 as int),
{
    match side {
        OrderSide::Buy => price.0 <= collar.0,
        OrderSide::Sell => price.0 >= collar.0,
    }
}

/// Inventory as signed basis points of the maximum, within
/// `[-10_000, 10_000]`; zero without a maximum.
pub open spec fn spec_signed_inventory_ratio_bps(inventory: int, max_inventory: int) -> int {
    if max_inventory <= 0 {
        0
    } else {
        clamp_int(tdiv(inventory * 10_000, max_inventory), -10_000, 10_000)
    }
}

/// Signed inventory ratio in basis points.
pub fn signed_inventory_ratio_bps(inventory_qty: i64, max_inventory_qty: i64) -> (r: i32)
    ensures
        r == spec_signed_inventory_ratio_bps(inventory_qty as int, max_inventory_qty as int),
{
    if max_inventory_qty <= 0 {
        return 0;
    }
    let ratio = ((inventory_qty as i128) * 10_000) / (max_inventory_qty as i128);
    if ratio < -10_000 {
        -10_000
    } else if ratio > 10_000 {
        10_000
    } else {
        ratio as i32
    }
}

/// `value_bps * weight_bps / 10_000` (truncating), clamped to `i32`.
pub open spec fn spec_scale_signed_bps(value: int, weight: int) -> int {
    clamp_int(tdiv(value * weight, 10_000), i32::MIN as int, i32::MAX as int)
}

/// Scales signed basis points by a signed weight.
pub fn scale_signed_bps(value_bps: i32, weight_bps: i32) -> (r: i32)
    ensures
        r == spec_scale_signed_bps(value_bps as int, weight_bps as int),
{
    assert(-0x4000_0000_0000_0000 <= (value_bps as int) * (weight_bps as int) <= 0x4000_0000_0000_0000) by (nonlinear_arith)
        requires i32::MIN <= value_bps <= i32::MAX, i32::MIN <= weight_bps <= i32::MAX;
    let scaled = ((value_bps as i64) * (weight_bps as i64)) / 10_000;
    if scaled < i32::MIN as i64 {
        i32::MIN
    } else if scaled > i32::MAX as i64 {
        i32::MAX
    } else {
        scaled as i32
    }
}

/// `price` moved by `adjustment_bps` (truncating), at least 1, or `i64::MAX`
/// when it does not fit.
pub open spec fn spec_apply_price_bps(price: int, adjustment_bps: int) -> int {
    or_max_i64(max_int(price + tdiv(price * adjustment_bps, 10_000), 1))
}

/// Applies a basis-point adjustment to a price.
pub fn apply_price_bps(price: OrderPrice, adjustment_bps: i32) -> (r: OrderPrice)
    ensures
        r.0 == spec_apply_price_bps(price.0 as int, adjustment_bps as int),
{
    assert(-0x4000_0000_0000_0000_0000_0000 <= (price.0 as int) * (adjustment_bps as int) <= 0x4000_0000_0000_0000_0000_0000) by (nonlinear_arith)
        requires i64::MIN <= price.0 <= i64::MAX, i32::MIN <= adjustment_bps <= i32::MAX;
    let adjustment = ((price.0 as i128) * (adjustment_bps as i128)) / 10_000;
    let adjusted = (price.0 as i128) + adjustment;
    let adjusted = if adjusted < 1 { 1 } else { adjusted };
    OrderPrice(i128_to_i64_or_max(adjusted))
}

/// `price * bps / 10_000` (truncating), at least 1.
pub open spec fn spec_price_bps_to_ticks(price: int, bps: int) -> int {
    or_max_i64(max_int(tdiv(price * bps, 10_000), 1))
}

/// Converts basis points of a price into ticks.
pub fn price_bps_to_ticks(price: OrderPrice, bps: u16) -> (r: i64)
    ensures
        r == spec_price_bps_to_ticks(price.0 as int, bps as int),
{
    proof {
        lemma_mul_bounds_i64_u64(price.0 as int, bps as int);
    }
    let value = ((price.0 as i128) * (bps as i128)) / 10_000;
    let value = if value < 1 { 1 } else { value };
    i128_to_i64_or_max(value)
}

/// The truncating remainder, shifted into range, is the Euclidean remainder.
proof fn lemma_trem_euclid(a: int, b: int)
    requires
        b > 0,
    ensures
        (if trem(a, b) < 0 { trem(a, b) + b } else { trem(a, b) }) == a % b,
{
    if a < 0 {
        let m = (-a) % b;
        let q = (-a) / b;
        assert(-a == q * b + m && 0 <= m < b) by (nonlinear_arith)
            requires b > 0, m == (-a) % b, q == (-a) / b;
        if m == 0 {
            assert(a == (-q) * b + 0) by (nonlinear_arith)
                requires -a == q * b + m, m == 0;
            vstd::arithmetic::div_mod::lemma_fundamental_div_mod_converse(a, b, -q, 0);
        } else {
            assert(a == (-q - 1) * b + (b - m)) by (nonlinear_arith)
                requires -a == q * b + m;
            vstd::arithmetic::div_mod::lemma_fundamental_div_mod_converse(a, b, -q - 1, b - m);
        }
    }
}

/// `price` rounded down to a multiple of `tick`; unchanged without a tick.
pub open spec fn spec_snap_down(price: int, tick: int) -> int {
    if tick <= 0 { price } else { price - price % tick }
}

/// Rounds a price down to the tick grid.
pub fn snap_down_to_tick(price: i64, tick_size: i64) -> (r: i64)
    requires
        tick_size > 0 ==> (price as int) - (price as int) % (tick_size as int) >= i64::MIN,
    ensures
        r == spec_snap_down(price as int, tick_size as int),
{
    if tick_size <= 0 {
        return price;
    }
    let rem = price % tick_size;
    proof {
        lemma_trem_euclid(price as int, tick_size as int);
    }
    let rem = if rem < 0 { rem + tick_size } else { rem };
    price - rem
}

/// `price` rounded up to a multiple of `tick` (saturating); unchanged
/// without a tick.
pub open spec fn spec_snap_up(price: int, tick: int) -> int {
    if tick <= 0 {
        price
    } else if price % tick == 0 {
        price
    } else {
        crate::arith::clamp_i64(price + (tick - price % tick))
    }
}

/// Rounds a price up to the tick grid.
pub fn snap_up_to_tick(price: i64, tick_size: i64) -> (r: i64)
    ensures
        r == spec_snap_up(price as int, tick_size as int),
{
    if tick_size <= 0 {
        return price;
    }
    let rem = price % tick_size;
    proof {
        lemma_trem_euclid(price as int, tick_size as int);
    }
    let rem = if rem < 0 { rem + tick_size } else { rem };
    if rem == 0 {
        price
    } else {
        crate::arith::sat_add_i64(price, tick_size - rem)
    }
}

/// Adverse move of `reference` from `arrival` for the side, in basis points
/// of the arrival price saturating at `u16::MAX`.
pub open spec fn spec_adverse_move_bps(side: OrderSide, arrival: int, reference: int) -> int {
    let adverse = match side {
        OrderSide::Buy => crate::arith::clamp_i64(reference - arrival),
        OrderSide::Sell => crate::arith::clamp_i64(arrival - reference),
    };
    if adverse <= 0 || arrival <= 0 {
        0
    } else {
        min_int(adverse * 10_000 / arrival, u16::MAX as int)
    }
}

/// Adverse price move in basis points.
pub fn adverse_move_bps(side: OrderSide, arrival: OrderPrice, reference: OrderPrice) -> (r: u16)
    ensures
        r == spec_adverse_move_bps(side, arrival.0 as int, reference.0 as int),
{
    let adverse = match side {
        OrderSide::Buy => crate::arith::sat_sub_i64(reference.0, arrival.0),
        OrderSide::Sell => crate::arith::sat_sub_i64(arrival.0, reference.0),
    };
    if adverse <= 0 || arrival.0 <= 0 {
        return 0;
    }
    let bps = ((adverse as i128) * 10_000) / (arrival.0 as i128);
    if bps > u16::MAX as i128 { u16::MAX } else { bps as u16 }
}

/// Notional of a quantity at a price, saturating; negatives count as zero.
pub open spec fn spec_notional(qty: i64, price: i64) -> int {
    crate::arith::clamp_u128(spec_i64_to_u128(qty) * spec_i64_to_u128(price))
}

/// Saturating notional of a quantity at a price.
pub fn notional(qty: i64, price: i64) -> (r: u128)
    ensures
        r == spec_notional(qty, price),
{
    crate::arith::sat_mul_u128(crate::arith::i64_to_u128(qty), crate::arith::i64_to_u128(price))
}

/// Decimal ASCII digits of `n`, most significant first, without leading
/// zeros (`0` is the single digit `0`).
pub open spec fn spec_decimal_ascii(n: nat) -> Seq<u8>
    decreases n,
{
    if n < 10 {
        seq![(48 + n) as u8]
    } else {
        spec_decimal_ascii(n / 10).push((48 + n % 10) as u8)
    }
}

/// `10` to the power `k`.
pub open spec fn spec_pow10(k: nat) -> nat
    decreases k,
{
    if k == 0 {
        1
    } else {
        10 * spec_pow10((k - 1) as nat)
    }
}

/// The decimal digits are ASCII, and a number below `10^k` has at most `k`
/// of them.
pub proof fn lemma_decimal_ascii(n: nat, k: nat)
    requires
        k >= 1,
        n < spec_pow10(k),
    ensures
        1 <= spec_decimal_ascii(n).len() <= k,
        all_ascii_bytes(spec_decimal_ascii(n)),
    decreases n,
{
    if n >= 10 {
        let p = spec_pow10((k - 1) as nat);
        assert(k >= 2) by {
            if k == 1 {
                assert(spec_pow10(0) == 1);
            }
        }
        assert(n / 10 < p) by (nonlinear_arith)
            requires
                n < 10 * p,
        ;
        lemma_decimal_ascii(n / 10, (k - 1) as nat);
    }
}

/// Appends the decimal digits of `n` to `out`.
pub(crate) fn push_decimal(out: &mut Vec<u8>, n: u64)
    ensures
        final(out)@ == old(out)@ + spec_decimal_ascii(n as nat),
    decreases n,
{
    if n >= 10 {
        push_decimal(out, n / 10);
    }
    let digit: u8 = (n % 10) as u8;
    out.push(48 + digit);
    proof {
        assert(old(out)@ + spec_decimal_ascii(n as nat) =~= if n >= 10 {
            old(out)@ + spec_decimal_ascii((n / 10) as nat) + seq![(48 + n % 10) as u8]
        } else {
            old(out)@ + seq![(48 + n % 10) as u8]
        });
    }
}

/// Builds the deterministic identifier `prefix-index` in a field of
/// capacity `N`; refused with `GeneratedIdentifierTooLong` when it does not
/// fit.
pub fn fixed_id_with_index<const N: usize>(prefix: &str, index: u64) -> (r: Result<
    FixedAscii<N>,
    AlgoError,
>)
    requires
        is_ascii(prefix),
    ensures
        ({
            let text = prefix.spec_bytes() + seq![45u8] + spec_decimal_ascii(index as nat);
            if text.len() > N {
                r == Err::<FixedAscii<N>, AlgoError>(AlgoError::GeneratedIdentifierTooLong)
            } else {
                r matches Ok(id) && id.spec_bytes() == text && id == FixedAscii::<N>::spec_from_bytes(
                    text,
                )
            }
        }),
{
    let prefix_bytes = prefix.as_bytes();
    proof {
        is_ascii_spec_bytes(prefix);
        assert(spec_pow10(20) == 100_000_000_000_000_000_000nat) by {
            reveal_with_fuel(spec_pow10, 21);
        }
        lemma_decimal_ascii(index as nat, 20);
    }
    if prefix_bytes.len() >= N {
        return Err(AlgoError::GeneratedIdentifierTooLong);
    }
    let mut digits: Vec<u8> = Vec::new();
    push_decimal(&mut digits, index);
    assert(digits@ =~= spec_decimal_ascii(index as nat));
    if digits.len() > N - prefix_bytes.len() - 1 {
        return Err(AlgoError::GeneratedIdentifierTooLong);
    }
    let mut text: Vec<u8> = Vec::new();
    let mut i: usize = 0;
    while i < prefix_bytes.len()
        invariant
            i <= prefix_bytes@.len(),
            text@ == prefix_bytes@.take(i as int),
        decreases prefix_bytes@.len() - i,
    {
        text.push(prefix_bytes[i]);
        i = i + 1;
        assert(text@ =~= prefix_bytes@.take(i as int));
    }
    text.push(45u8);
    let mut j: usize = 0;
    while j < digits.len()
        invariant
            j <= digits@.len(),
            text@ == prefix_bytes@ + seq![45u8] + digits@.take(j as int),
        decreases digits@.len() - j,
    {
        proof {
            assert(prefix_bytes@.take(prefix_bytes@.len() as int) =~= prefix_bytes@);
        }
        text.push(digits[j]);
        j = j + 1;
        assert(text@ =~= prefix_bytes@ + seq![45u8] + digits@.take(j as int));
    }
    proof {
        assert(prefix_bytes@.take(prefix_bytes@.len() as int) =~= prefix_bytes@);
        assert(digits@.take(digits@.len() as int) =~= digits@);
        assert(text@ =~= prefix.spec_bytes() + seq![45u8] + spec_decimal_ascii(index as nat));
        assert forall|k: int| 0 <= k < text@.len() implies text@[k] < 128 by {
            if k < prefix_bytes@.len() {
                assert(text@[k] == prefix@[k] as u8);
            } else if k > prefix_bytes@.len() {
                assert(text@[k] == digits@[k - prefix_bytes@.len() - 1]);
            }
        }
    }
    Ok(FixedAscii::from_ascii_bytes(text.as_slice()))
}

} // verus!
