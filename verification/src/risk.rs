//! Deterministic pre-trade risk gate.

use vstd::prelude::*;
use crate::arith::{clamp_i128, sat_mul_i128};
use crate::ids::ExecutionText;
use crate::orders::{OrderRequest, AmendRequest, CancelRequest, OrderQty, OrderPrice, RiskRejectReason};

verus! {

/// Risk decision.
#[derive(Debug, Clone, Copy, PartialEq, Eq)]
pub struct RiskDecision {
    /// True when the request is allowed to route.
    pub allowed: bool,
    /// Structured reject reason.
    pub reason: RiskRejectReason,
    /// Bounded diagnostic text.
    pub text: ExecutionText,
}

impl RiskDecision {
    /// Creates an allow decision.
    pub fn allow() -> (r: Self)
        ensures
            r.allowed,
            r.reason == RiskRejectReason::NoReason,
            r.text@ == Seq::<char>::empty(),
    {
        Self { allowed: true, reason: RiskRejectReason::NoReason, text: ExecutionText::empty() }
    }

    /// Creates a reject decision.
    pub fn reject(reason: RiskRejectReason, text: ExecutionText) -> (r: Self)
        ensures
            !r.allowed,
            r.reason == reason,
            r.text == text,
    {
        Self { allowed: false, reason, text }
    }
}

/// Static risk limits for one route/account scope.
#[derive(Debug, Clone, Copy, PartialEq, Eq, Structural)]
pub struct RiskLimits {
    /// Kill switch flag.
    pub kill_switch: bool,
    /// Maximum quantity per order. Zero disables the check.
    pub max_order_qty: i64,
    /// Maximum notional per order. Zero disables the check.
    pub max_order_notional: i128,
    /// Maximum open orders. Zero disables the check.
    pub max_open_orders: u32,
    /// Maximum open notional. Zero disables the check.
    pub max_open_notional: i128,
    /// Allowed absolute distance from reference price. Zero disables the check.
    pub price_band_ticks: i64,
}

impl Default for RiskLimits {
    /// Deny-by-default limits: the kill switch is active.
    fn default() -> (r: Self)
        ensures
            r == (RiskLimits {
                kill_switch: true,
                max_order_qty: 0,
                max_order_notional: 0,
                max_open_orders: 0,
                max_open_notional: 0,
                price_band_ticks: 0,
            }),
    {
        Self {
            kill_switch: true,
            max_order_qty: 0,
            max_order_notional: 0,
            max_open_orders: 0,
            max_open_notional: 0,
            price_band_ticks: 0,
        }
    }
}

/// Runtime risk context supplied by the execution engine.
#[derive(Debug, Clone, Copy, PartialEq, Eq, Structural)]
pub struct RiskContext {
    /// Current open order count for the account/route scope.
    pub open_orders: u32,
    /// Current open notional for the account/route scope.
    pub open_notional: i128,
    /// Reference price used for price-band checks. Zero disables price-band checks.
    pub reference_price: OrderPrice,
    /// True when the client order id is already known.
    pub duplicate_client_order_id: bool,
    /// True when account is enabled.
    pub account_enabled: bool,
    /// True when route is enabled.
    pub route_enabled: bool,
    /// True when symbol is enabled.
    pub symbol_enabled: bool,
    /// True when order type is supported.
    pub order_type_supported: bool,
    /// True when time-in-force is supported.
    pub tif_supported: bool,
}

impl Default for RiskContext {
    /// A context in which nothing is enabled.
    fn default() -> (r: Self)
        ensures
            r == (RiskContext {
                open_orders: 0,
                open_notional: 0,
                reference_price: OrderPrice(0),
                duplicate_client_order_id: false,
                account_enabled: false,
                route_enabled: false,
                symbol_enabled: false,
                order_type_supported: false,
                tif_supported: false,
            }),
    {
        Self {
            open_orders: 0,
            open_notional: 0,
            reference_price: OrderPrice(0),
            duplicate_client_order_id: false,
            account_enabled: false,
            route_enabled: false,
            symbol_enabled: false,
            order_type_supported: false,
            tif_supported: false,
        }
    }
}

/// Pre-trade risk-check contract.
pub trait RiskCheck {
    /// Checks a new order request.
    fn check_new(&self, req: &OrderRequest, ctx: &RiskContext) -> RiskDecision;

    /// Checks an amend request.
    fn check_amend(&self, req: &AmendRequest, ctx: &RiskContext) -> RiskDecision;

    /// Checks a cancel request.
    fn check_cancel(&self, req: &CancelRequest, ctx: &RiskContext) -> RiskDecision;
}

/// Deterministic pre-trade risk gate.
#[derive(Debug, Clone, Copy, PartialEq, Eq, Structural)]
pub struct BasicRiskGate {
    limits: RiskLimits,
}

/// Reason of the first failing context check shared by new and amend
/// requests, or `None` when all pass.
pub open spec fn spec_common_reason(l: RiskLimits, c: RiskContext) -> RiskRejectReason {
    if l.kill_switch {
        RiskRejectReason::KillSwitch
    } else if !c.account_enabled {
        RiskRejectReason::AccountDisabled
    } else if !c.route_enabled {
        RiskRejectReason::RouteDisabled
    } else if !c.symbol_enabled {
        RiskRejectReason::SymbolDisabled
    } else if c.duplicate_client_order_id {
        RiskRejectReason::DuplicateClientOrderId
    } else if !c.order_type_supported {
        RiskRejectReason::UnsupportedOrderType
    } else if !c.tif_supported {
        RiskRejectReason::UnsupportedTimeInForce
    } else if l.max_open_orders > 0 && c.open_orders >= l.max_open_orders {
        RiskRejectReason::MaxOpenOrders
    } else if l.max_open_notional > 0 && c.open_notional >= l.max_open_notional {
        RiskRejectReason::MaxOpenNotional
    } else {
        RiskRejectReason::NoReason
    }
}

/// Absolute value of an integer.
pub open spec fn abs_int(x: int) -> int {
    if x < 0 { -x } else { x }
}

/// Reason of the first failing size/price check, or `None` when all pass.
pub open spec fn spec_size_price_reason(
    l: RiskLimits,
    qty: OrderQty,
    price: OrderPrice,
    c: RiskContext,
) -> RiskRejectReason {
    if l.max_order_qty > 0 && qty.0 > l.max_order_qty {
        RiskRejectReason::MaxOrderQty
    } else if l.max_order_notional > 0 && clamp_i128(qty.0 * price.0) > l.max_order_notional {
        RiskRejectReason::MaxOrderNotional
    } else if l.price_band_ticks > 0 && c.reference_price.0 > 0 && price.0 > 0 && abs_int(
        price.0 - c.reference_price.0,
    ) > l.price_band_ticks {
        RiskRejectReason::PriceBand
    } else {
        RiskRejectReason::NoReason
    }
}

/// Reason for a new or amend request with the given size and price.
pub open spec fn spec_order_reason(
    l: RiskLimits,
    qty: OrderQty,
    price: OrderPrice,
    c: RiskContext,
) -> RiskRejectReason {
    let common = spec_common_reason(l, c);
    if common != RiskRejectReason::NoReason {
        common
    } else {
        spec_size_price_reason(l, qty, price, c)
    }
}

/// Reason for a cancel request: only kill switch, account and route gate it.
pub open spec fn spec_cancel_reason(l: RiskLimits, c: RiskContext) -> RiskRejectReason {
    if l.kill_switch {
        RiskRejectReason::KillSwitch
    } else if !c.account_enabled {
        RiskRejectReason::AccountDisabled
    } else if !c.route_enabled {
        RiskRejectReason::RouteDisabled
    } else {
        RiskRejectReason::NoReason
    }
}

/// Diagnostic text attached to a rejection reason.
pub open spec fn spec_reason_text(reason: RiskRejectReason) -> Seq<char> {
    match reason {
        RiskRejectReason::NoReason => Seq::<char>::empty(),
        RiskRejectReason::KillSwitch => "kill switch active"@,
        RiskRejectReason::AccountDisabled => "account disabled"@,
        RiskRejectReason::RouteDisabled => "route disabled"@,
        RiskRejectReason::SymbolDisabled => "symbol disabled"@,
        RiskRejectReason::MaxOrderQty => "max order quantity exceeded"@,
        RiskRejectReason::MaxOrderNotional => "max order notional exceeded"@,
        RiskRejectReason::MaxOpenOrders => "max open orders exceeded"@,
        RiskRejectReason::MaxOpenNotional => "max open notional exceeded"@,
        RiskRejectReason::PriceBand => "price outside risk band"@,
        RiskRejectReason::DuplicateClientOrderId => "duplicate client order id"@,
        RiskRejectReason::UnsupportedOrderType => "unsupported order type"@,
        RiskRejectReason::UnsupportedTimeInForce => "unsupported time in force"@,
    }
}

/// The decision that a reason stands for: allowed exactly when the reason is
/// `None`, with the reason's diagnostic text.
pub open spec fn spec_decision_matches(d: RiskDecision, reason: RiskRejectReason) -> bool {
    &&& d.allowed == (reason == RiskRejectReason::NoReason)
    &&& d.reason == reason
    &&& d.text@ == spec_reason_text(reason)
}

/// Builds a decision for a reason.
fn decision_for(reason: RiskRejectReason) -> (r: RiskDecision)
    ensures
        spec_decision_matches(r, reason),
{
    match reason {
        RiskRejectReason::NoReason => RiskDecision::allow(),
        _ => RiskDecision::reject(reason, reason_text(reason)),
    }
}

/// Builds an identifier-sized text from an ASCII literal.
fn ascii_text(s: &str) -> (r: ExecutionText)
    requires
        vstd::string::is_ascii(s),
        s@.len() <= 128,
    ensures
        r@ == s@,
{
    proof {
        vstd::utf8::is_ascii_chars_encode_utf8(s@);
    }
    match ExecutionText::new(s) {
        Ok(t) => t,
        Err(_) => ExecutionText::empty(),
    }
}

/// Diagnostic text for a reason.
fn reason_text(reason: RiskRejectReason) -> (r: ExecutionText)
    ensures
        r@ == spec_reason_text(reason),
{
    match reason {
        RiskRejectReason::NoReason => ExecutionText::empty(),
        RiskRejectReason::KillSwitch => {
            proof { reveal_strlit("kill switch active"); }
            ascii_text("kill switch active")
        },
        RiskRejectReason::AccountDisabled => {
            proof { reveal_strlit("account disabled"); }
            ascii_text("account disabled")
        },
        RiskRejectReason::RouteDisabled => {
            proof { reveal_strlit("route disabled"); }
            ascii_text("route disabled")
        },
        RiskRejectReason::SymbolDisabled => {
            proof { reveal_strlit("symbol disabled"); }
            ascii_text("symbol disabled")
        },
        RiskRejectReason::MaxOrderQty => {
            proof { reveal_strlit("max order quantity exceeded"); }
            ascii_text("max order quantity exceeded")
        },
        RiskRejectReason::MaxOrderNotional => {
            proof { reveal_strlit("max order notional exceeded"); }
            ascii_text("max order notional exceeded")
        },
        RiskRejectReason::MaxOpenOrders => {
            proof { reveal_strlit("max open orders exceeded"); }
            ascii_text("max open orders exceeded")
        },
        RiskRejectReason::MaxOpenNotional => {
            proof { reveal_strlit("max open notional exceeded"); }
            ascii_text("max open notional exceeded")
        },
        RiskRejectReason::PriceBand => {
            proof { reveal_strlit("price outside risk band"); }
            ascii_text("price outside risk band")
        },
        RiskRejectReason::DuplicateClientOrderId => {
            proof { reveal_strlit("duplicate client order id"); }
            ascii_text("duplicate client order id")
        },
        RiskRejectReason::UnsupportedOrderType => {
            proof { reveal_strlit("unsupported order type"); }
            ascii_text("unsupported order type")
        },
        RiskRejectReason::UnsupportedTimeInForce => {
            proof { reveal_strlit("unsupported time in force"); }
            ascii_text("unsupported time in force")
        },
    }
}

impl BasicRiskGate {
    /// The configured limits.
    pub closed spec fn spec_limits(&self) -> RiskLimits {
        self.limits
    }

    /// Creates a risk gate from static limits.
    pub fn new(limits: RiskLimits) -> (r: Self)
        ensures
            r.spec_limits() == limits,
    {
        Self { limits }
    }

    /// Returns the configured limits.
    pub fn limits(&self) -> (r: RiskLimits)
        ensures
            r == self.spec_limits(),
    {
        self.limits
    }

    fn common_reason(&self, ctx: &RiskContext) -> (r: RiskRejectReason)
        ensures
            r == spec_common_reason(self.limits, *ctx),
    {
        if self.limits.kill_switch {
            return RiskRejectReason::KillSwitch;
        }
        if !ctx.account_enabled {
            return RiskRejectReason::AccountDisabled;
        }
        if !ctx.route_enabled {
            return RiskRejectReason::RouteDisabled;
        }
        if !ctx.symbol_enabled {
            return RiskRejectReason::SymbolDisabled;
        }
        if ctx.duplicate_client_order_id {
            return RiskRejectReason::DuplicateClientOrderId;
        }
        if !ctx.order_type_supported {
            return RiskRejectReason::UnsupportedOrderType;
        }
        if !ctx.tif_supported {
            return RiskRejectReason::UnsupportedTimeInForce;
        }
        if self.limits.max_open_orders > 0 && ctx.open_orders >= self.limits.max_open_orders {
            return RiskRejectReason::MaxOpenOrders;
        }
        if self.limits.max_open_notional > 0 && ctx.open_notional
            >= self.limits.max_open_notional {
            return RiskRejectReason::MaxOpenNotional;
        }
        RiskRejectReason::NoReason
    }

    fn size_price_reason(&self, qty: OrderQty, price: OrderPrice, ctx: &RiskContext) -> (r:
        RiskRejectReason)
        ensures
            r == spec_size_price_reason(self.limits, qty, price, *ctx),
    {
        if self.limits.max_order_qty > 0 && qty.0 > self.limits.max_order_qty {
            return RiskRejectReason::MaxOrderQty;
        }
        if self.limits.max_order_notional > 0 {
            let notional = sat_mul_i128(qty.0 as i128, price.0 as i128);
            if notional > self.limits.max_order_notional {
                return RiskRejectReason::MaxOrderNotional;
            }
        }
        if self.limits.price_band_ticks > 0 && ctx.reference_price.0 > 0 && price.0 > 0 {
            let diff = price.0 - ctx.reference_price.0;
            let distance = if diff < 0 { -diff } else { diff };
            if distance > self.limits.price_band_ticks {
                return RiskRejectReason::PriceBand;
            }
        }
        RiskRejectReason::NoReason
    }

    fn order_reason(&self, qty: OrderQty, price: OrderPrice, ctx: &RiskContext) -> (r:
        RiskRejectReason)
        ensures
            r == spec_order_reason(self.limits, qty, price, *ctx),
    {
        let common = self.common_reason(ctx);
        if common != RiskRejectReason::NoReason {
            return common;
        }
        self.size_price_reason(qty, price, ctx)
    }
}

impl RiskCheck for BasicRiskGate {
    fn check_new(&self, req: &OrderRequest, ctx: &RiskContext) -> (r: RiskDecision)
        ensures
            spec_decision_matches(
                r,
                spec_order_reason(self.spec_limits(), req.quantity, req.limit_price, *ctx),
            ),
    {
        decision_for(self.order_reason(req.quantity, req.limit_price, ctx))
    }

    fn check_amend(&self, req: &AmendRequest, ctx: &RiskContext) -> (r: RiskDecision)
        ensures
            spec_decision_matches(
                r,
                spec_order_reason(self.spec_limits(), req.quantity, req.limit_price, *ctx),
            ),
    {
        decision_for(self.order_reason(req.quantity, req.limit_price, ctx))
    }

    fn check_cancel(&self, req: &CancelRequest, ctx: &RiskContext) -> (r: RiskDecision)
        ensures
            spec_decision_matches(r, spec_cancel_reason(self.spec_limits(), *ctx)),
    {
        let reason = if self.limits.kill_switch {
            RiskRejectReason::KillSwitch
        } else if !ctx.account_enabled {
            RiskRejectReason::AccountDisabled
        } else if !ctx.route_enabled {
            RiskRejectReason::RouteDisabled
        } else {
            RiskRejectReason::NoReason
        };
        decision_for(reason)
    }
}

/// An active kill switch rejects every new, amend and cancel request with
/// the `KillSwitch` reason, whatever the request and context.
pub proof fn law_kill_switch_rejects_everything(
    l: RiskLimits,
    qty: OrderQty,
    price: OrderPrice,
    c: RiskContext,
)
    requires
        l.kill_switch,
    ensures
        spec_order_reason(l, qty, price, c) == RiskRejectReason::KillSwitch,
        spec_cancel_reason(l, c) == RiskRejectReason::KillSwitch,
{
}

/// A request that passes the new/amend checks also passes the cancel
/// checks: cancels are gated by a subset of the same conditions.
pub proof fn law_cancel_gate_is_weaker(
    l: RiskLimits,
    qty: OrderQty,
    price: OrderPrice,
    c: RiskContext,
)
    requires
        spec_order_reason(l, qty, price, c) == RiskRejectReason::NoReason,
    ensures
        spec_cancel_reason(l, c) == RiskRejectReason::NoReason,
{
}

/// The price band is the same on both sides of the reference: when every
/// earlier check passes, a new or amend request at a positive price against
/// a positive reference is rejected with `PriceBand` exactly when the price
/// lies more than `price_band_ticks` above or below the reference, and
/// allowed otherwise.
pub proof fn law_price_band_is_symmetric(
    l: RiskLimits,
    qty: OrderQty,
    price: OrderPrice,
    c: RiskContext,
)
    requires
        l.price_band_ticks > 0,
        c.reference_price.0 > 0,
        price.0 > 0,
        spec_common_reason(l, c) == RiskRejectReason::NoReason,
        !(l.max_order_qty > 0 && qty.0 > l.max_order_qty),
        !(l.max_order_notional > 0 && qty.0 * price.0 > l.max_order_notional),
    ensures
        (spec_order_reason(l, qty, price, c) == RiskRejectReason::PriceBand) <==> (price.0
            > c.reference_price.0 + l.price_band_ticks || price.0 < c.reference_price.0
            - l.price_band_ticks),
        (spec_order_reason(l, qty, price, c) == RiskRejectReason::NoReason) <==> (c.reference_price.0
            - l.price_band_ticks <= price.0 <= c.reference_price.0 + l.price_band_ticks),
{
    assert(i64::MIN * i64::MAX <= qty.0 * price.0 <= i64::MIN * i64::MIN) by (nonlinear_arith);
}

/// A new or amend request is allowed exactly when every limit holds: no
/// kill switch; account, route and symbol enabled; a fresh client order id;
/// a supported order type and time in force; open orders and open notional
/// below their limits; quantity and notional within theirs; and a price
/// within the band around the reference. Each limit set to zero, and a band
/// without a positive reference or price, does not restrict.
pub proof fn law_order_allowed_iff_within_limits(
    l: RiskLimits,
    qty: OrderQty,
    price: OrderPrice,
    c: RiskContext,
)
    ensures
        (spec_order_reason(l, qty, price, c) == RiskRejectReason::NoReason) <==> (!l.kill_switch
            && c.account_enabled && c.route_enabled && c.symbol_enabled
            && !c.duplicate_client_order_id && c.order_type_supported && c.tif_supported && (
        l.max_open_orders == 0 || c.open_orders < l.max_open_orders) && (l.max_open_notional <= 0
            || c.open_notional < l.max_open_notional) && (l.max_order_qty <= 0 || qty.0
            <= l.max_order_qty) && (l.max_order_notional <= 0 || qty.0 * price.0
            <= l.max_order_notional) && (l.price_band_ticks <= 0 || c.reference_price.0 <= 0
            || price.0 <= 0 || (c.reference_price.0 - l.price_band_ticks <= price.0
            <= c.reference_price.0 + l.price_band_ticks))),
        (spec_cancel_reason(l, c) == RiskRejectReason::NoReason) <==> (!l.kill_switch
            && c.account_enabled && c.route_enabled),
{
    assert(i64::MIN * i64::MAX <= qty.0 * price.0 <= i64::MIN * i64::MIN) by (nonlinear_arith);
}

/// Size limits come before the price band: when every context check passes,
/// a quantity above a positive maximum is rejected with `MaxOrderQty`, and
/// otherwise a notional above a positive maximum with `MaxOrderNotional`,
/// wherever the price lies.
pub proof fn law_size_limits_reject_first(
    l: RiskLimits,
    qty: OrderQty,
    price: OrderPrice,
    c: RiskContext,
)
    requires
        spec_common_reason(l, c) == RiskRejectReason::NoReason,
    ensures
        l.max_order_qty > 0 && qty.0 > l.max_order_qty ==> spec_order_reason(l, qty, price, c)
            == RiskRejectReason::MaxOrderQty,
        !(l.max_order_qty > 0 && qty.0 > l.max_order_qty) && l.max_order_notional > 0 && qty.0
            * price.0 > l.max_order_notional ==> spec_order_reason(l, qty, price, c)
            == RiskRejectReason::MaxOrderNotional,
{
    assert(i64::MIN * i64::MAX <= qty.0 * price.0 <= i64::MIN * i64::MIN) by (nonlinear_arith);
}

/// Each rejection reason of a new or amend request names the first failing
/// check, in the fixed order kill switch, account, route, symbol, duplicate
/// client order id, order type, time in force, open orders, open notional,
/// order quantity, order notional, price band: a reason is given only when
/// its own check fails and every check before it passes.
pub proof fn law_order_reason_is_first_failure(
    l: RiskLimits,
    qty: OrderQty,
    price: OrderPrice,
    c: RiskContext,
)
    ensures
        ({
            let r = spec_order_reason(l, qty, price, c);
            let ctx_ok = !l.kill_switch && c.account_enabled && c.route_enabled && c.symbol_enabled
                && !c.duplicate_client_order_id && c.order_type_supported && c.tif_supported;
            let open_ok = ctx_ok && !(l.max_open_orders > 0 && c.open_orders >= l.max_open_orders)
                && !(l.max_open_notional > 0 && c.open_notional >= l.max_open_notional);
            &&& (r == RiskRejectReason::KillSwitch) == l.kill_switch
            &&& (r == RiskRejectReason::AccountDisabled) == (!l.kill_switch && !c.account_enabled)
            &&& (r == RiskRejectReason::RouteDisabled) == (!l.kill_switch && c.account_enabled
                && !c.route_enabled)
            &&& (r == RiskRejectReason::SymbolDisabled) == (!l.kill_switch && c.account_enabled
                && c.route_enabled && !c.symbol_enabled)
            &&& (r == RiskRejectReason::DuplicateClientOrderId) == (!l.kill_switch
                && c.account_enabled && c.route_enabled && c.symbol_enabled
                && c.duplicate_client_order_id)
            &&& (r == RiskRejectReason::UnsupportedOrderType) == (!l.kill_switch
                && c.account_enabled && c.route_enabled && c.symbol_enabled
                && !c.duplicate_client_order_id && !c.order_type_supported)
            &&& (r == RiskRejectReason::UnsupportedTimeInForce) == (!l.kill_switch
                && c.account_enabled && c.route_enabled && c.symbol_enabled
                && !c.duplicate_client_order_id && c.order_type_supported && !c.tif_supported)
            &&& (r == RiskRejectReason::MaxOpenOrders) == (ctx_ok && l.max_open_orders > 0
                && c.open_orders >= l.max_open_orders)
            &&& (r == RiskRejectReason::MaxOpenNotional) == (ctx_ok && !(l.max_open_orders > 0
                && c.open_orders >= l.max_open_orders) && l.max_open_notional > 0 && c.open_notional
                >= l.max_open_notional)
            &&& (r == RiskRejectReason::MaxOrderQty) == (open_ok && l.max_order_qty > 0 && qty.0
                > l.max_order_qty)
            &&& (r == RiskRejectReason::MaxOrderNotional) == (open_ok && !(l.max_order_qty > 0
                && qty.0 > l.max_order_qty) && l.max_order_notional > 0 && qty.0 * price.0
                > l.max_order_notional)
        }),
{
    assert(i64::MIN * i64::MAX <= qty.0 * price.0 <= i64::MIN * i64::MIN) by (nonlinear_arith);
}

} // verus!
