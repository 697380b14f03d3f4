//! Two-sided quote planning around an inventory-skewed fair value.

use vstd::prelude::*;
use crate::algo_model::{
    spec_child_request, spec_parent_terminal, spec_parent_validate, AlgoError, ChildOrderId,
    ChildOrderPlan, ChildOrderStatus, ParentOrder,
};
use crate::algo_support::{
    apply_price_bps, price_bps_to_ticks, scale_bps_u32, scale_signed_bps,
    signed_inventory_ratio_bps, snap_down_to_tick, snap_up_to_tick, spec_apply_price_bps,
    spec_price_bps_to_ticks, spec_scale_bps_u32, spec_scale_signed_bps,
    spec_signed_inventory_ratio_bps, spec_snap_down, spec_snap_up,
};
use crate::arith::{clamp_i64, max_int, min_int, sat_add_i64, sat_mul_i64, sat_sub_i64, tdiv};
use crate::ids::ClientOrderId;
use crate::orders::{OrderPrice, OrderQty, OrderSide};

verus! {


broadcast use {
    crate::algo_model::group_parent_order,
    crate::algo_model::group_child_plan,
};

/// Market-making context supplied by the host quote model.
#[derive(Debug, Clone, Copy, PartialEq, Eq)]
pub struct MarketMakerContext {
    /// model fair value.
    pub fair_value: OrderPrice,
    /// current best bid.
    pub best_bid: OrderPrice,
    /// current best ask.
    pub best_ask: OrderPrice,
    /// signed inventory quantity.
    pub inventory_qty: OrderQty,
    /// absolute maximum inventory quantity.
    pub max_inventory_qty: OrderQty,
    /// volatility estimate in basis points.
    pub volatility_bps: u16,
    /// adverse-selection estimate in basis points.
    pub adverse_selection_bps: u16,
}

/// A usable quote context: positive fair value and uncrossed positive book,
/// positive inventory limit.
pub open spec fn spec_mm_context_ok(c: MarketMakerContext) -> bool {
    c.fair_value.0 > 0 && c.best_bid.0 > 0 && c.best_ask.0 > 0 && c.best_bid.0 < c.best_ask.0
        && c.max_inventory_qty.0 > 0
}

impl MarketMakerContext {
    /// Creates a context; non-positive or crossed prices or a non-positive
    /// inventory limit are `InvalidMarketMakingParameters`.
    #[allow(clippy::too_many_arguments)]
    pub fn new(
        fair_value: OrderPrice,
        best_bid: OrderPrice,
        best_ask: OrderPrice,
        inventory_qty: OrderQty,
        max_inventory_qty: OrderQty,
        volatility_bps: u16,
        adverse_selection_bps: u16,
    ) -> (r: Result<Self, AlgoError>)
        ensures
            ({
                let c = MarketMakerContext { fair_value, best_bid, best_ask, inventory_qty, max_inventory_qty, volatility_bps, adverse_selection_bps };
                if spec_mm_context_ok(c) {
                    r == Ok::<Self, AlgoError>(c)
                } else {
                    r == Err::<Self, AlgoError>(AlgoError::InvalidMarketMakingParameters)
                }
            }),
    {
        if fair_value.0 <= 0 || best_bid.0 <= 0 || best_ask.0 <= 0 || best_bid.0 >= best_ask.0
            || max_inventory_qty.0 <= 0 {
            return Err(AlgoError::InvalidMarketMakingParameters);
        }
        Ok(Self { fair_value, best_bid, best_ask, inventory_qty, max_inventory_qty, volatility_bps, adverse_selection_bps })
    }

    /// Returns model fair value.
    pub fn fair_value(&self) -> (r: OrderPrice)
        ensures
            r == self.fair_value,
    {
        self.fair_value
    }

    /// Returns current best bid.
    pub fn best_bid(&self) -> (r: OrderPrice)
        ensures
            r == self.best_bid,
    {
        self.best_bid
    }

    /// Returns current best ask.
    pub fn best_ask(&self) -> (r: OrderPrice)
        ensures
            r == self.best_ask,
    {
        self.best_ask
    }

    /// Returns signed inventory quantity.
    pub fn inventory_qty(&self) -> (r: OrderQty)
        ensures
            r == self.inventory_qty,
    {
        self.inventory_qty
    }

    /// Returns absolute maximum inventory quantity.
    pub fn max_inventory_qty(&self) -> (r: OrderQty)
        ensures
            r == self.max_inventory_qty,
    {
        self.max_inventory_qty
    }

    /// Returns volatility estimate in basis points.
    pub fn volatility_bps(&self) -> (r: u16)
        ensures
            r == self.volatility_bps,
    {
        self.volatility_bps
    }

    /// Returns adverse-selection estimate in basis points.
    pub fn adverse_selection_bps(&self) -> (r: u16)
        ensures
            r == self.adverse_selection_bps,
    {
        self.adverse_selection_bps
    }
}

/// Market-making quote configuration.
#[derive(Debug, Clone, Copy, PartialEq, Eq)]
pub struct MarketMakerConfig {
    /// tick size in normalized price units.
    pub tick_size: OrderPrice,
    /// quote quantity.
    pub quote_qty: OrderQty,
    /// base spread in basis points.
    pub base_spread_bps: u16,
    /// minimum spread in ticks.
    pub min_spread_ticks: u16,
    /// maximum spread in basis points.
    pub max_spread_bps: u16,
    /// inventory skew strength in basis points.
    pub inventory_skew_bps: u16,
    /// volatility spread weight in basis points.
    pub volatility_weight_bps: u16,
    /// adverse-selection spread weight in basis points.
    pub adverse_selection_weight_bps: u16,
}

/// Usable quote controls: positive tick and quantity, at least one tick of
/// spread, spreads within `10_000` with the base within the cap.
pub open spec fn spec_mm_config_ok(c: MarketMakerConfig) -> bool {
    c.tick_size.0 > 0 && c.quote_qty.0 > 0 && c.min_spread_ticks != 0 && c.base_spread_bps
        <= 10_000 && c.max_spread_bps <= 10_000 && c.base_spread_bps <= c.max_spread_bps
}

impl MarketMakerConfig {
    /// Creates a configuration; invalid controls are
    /// `InvalidMarketMakingParameters`.
    #[allow(clippy::too_many_arguments)]
    pub fn new(
        tick_size: OrderPrice,
        quote_qty: OrderQty,
        base_spread_bps: u16,
        min_spread_ticks: u16,
        max_spread_bps: u16,
        inventory_skew_bps: u16,
        volatility_weight_bps: u16,
        adverse_selection_weight_bps: u16,
    ) -> (r: Result<Self, AlgoError>)
        ensures
            ({
                let c = MarketMakerConfig { tick_size, quote_qty, base_spread_bps, min_spread_ticks, max_spread_bps, inventory_skew_bps, volatility_weight_bps, adverse_selection_weight_bps };
                if spec_mm_config_ok(c) {
                    r == Ok::<Self, AlgoError>(c)
                } else {
                    r == Err::<Self, AlgoError>(AlgoError::InvalidMarketMakingParameters)
                }
            }),
    {
        if tick_size.0 <= 0 || quote_qty.0 <= 0 || min_spread_ticks == 0 || base_spread_bps
            > 10_000 || max_spread_bps > 10_000 || base_spread_bps > max_spread_bps {
            return Err(AlgoError::InvalidMarketMakingParameters);
        }
        Ok(Self { tick_size, quote_qty, base_spread_bps, min_spread_ticks, max_spread_bps, inventory_skew_bps, volatility_weight_bps, adverse_selection_weight_bps })
    }

    /// Returns tick size in normalized price units.
    pub fn tick_size(&self) -> (r: OrderPrice)
        ensures
            r == self.tick_size,
    {
        self.tick_size
    }

    /// Returns quote quantity.
    pub fn quote_qty(&self) -> (r: OrderQty)
        ensures
            r == self.quote_qty,
    {
        self.quote_qty
    }

    /// Returns base spread in basis points.
    pub fn base_spread_bps(&self) -> (r: u16)
        ensures
            r == self.base_spread_bps,
    {
        self.base_spread_bps
    }

    /// Returns minimum spread in ticks.
    pub fn min_spread_ticks(&self) -> (r: u16)
        ensures
            r == self.min_spread_ticks,
    {
        self.min_spread_ticks
    }

    /// Returns maximum spread in basis points.
    pub fn max_spread_bps(&self) -> (r: u16)
        ensures
            r == self.max_spread_bps,
    {
        self.max_spread_bps
    }

    /// Returns inventory skew strength in basis points.
    pub fn inventory_skew_bps(&self) -> (r: u16)
        ensures
            r == self.inventory_skew_bps,
    {
        self.inventory_skew_bps
    }

    /// Returns volatility spread weight in basis points.
    pub fn volatility_weight_bps(&self) -> (r: u16)
        ensures
            r == self.volatility_weight_bps,
    {
        self.volatility_weight_bps
    }

    /// Returns adverse-selection spread weight in basis points.
    pub fn adverse_selection_weight_bps(&self) -> (r: u16)
        ensures
            r == self.adverse_selection_weight_bps,
    {
        self.adverse_selection_weight_bps
    }
}

impl Default for MarketMakerConfig {
    fn default() -> (r: Self)
        ensures
            r == (MarketMakerConfig {
                tick_size: OrderPrice(1),
                quote_qty: OrderQty(1),
                base_spread_bps: 10,
                min_spread_ticks: 1,
                max_spread_bps: 1_000,
                inventory_skew_bps: 1_000,
                volatility_weight_bps: 5_000,
                adverse_selection_weight_bps: 5_000,
            }),
    {
        Self {
            tick_size: OrderPrice(1),
            quote_qty: OrderQty(1),
            base_spread_bps: 10,
            min_spread_ticks: 1,
            max_spread_bps: 1_000,
            inventory_skew_bps: 1_000,
            volatility_weight_bps: 5_000,
            adverse_selection_weight_bps: 5_000,
        }
    }
}

/// Market-making quote estimate.
#[derive(Debug, Clone, Copy, PartialEq, Eq)]
pub struct MarketMakerQuoteEstimate {
    /// inventory-skewed fair value.
    pub adjusted_fair_value: OrderPrice,
    /// bid quote price.
    pub bid_price: OrderPrice,
    /// ask quote price.
    pub ask_price: OrderPrice,
    /// selected spread in basis points.
    pub spread_bps: u16,
    /// true when a bid quote is allowed.
    pub quote_bid: bool,
    /// true when an ask quote is allowed.
    pub quote_ask: bool,
}

impl MarketMakerQuoteEstimate {
    /// Returns inventory-skewed fair value.
    pub fn adjusted_fair_value(&self) -> (r: OrderPrice)
        ensures
            r == self.adjusted_fair_value,
    {
        self.adjusted_fair_value
    }

    /// Returns bid quote price.
    pub fn bid_price(&self) -> (r: OrderPrice)
        ensures
            r == self.bid_price,
    {
        self.bid_price
    }

    /// Returns ask quote price.
    pub fn ask_price(&self) -> (r: OrderPrice)
        ensures
            r == self.ask_price,
    {
        self.ask_price
    }

    /// Returns selected spread in basis points.
    pub fn spread_bps(&self) -> (r: u16)
        ensures
            r == self.spread_bps,
    {
        self.spread_bps
    }

    /// Returns true when a bid quote is allowed.
    pub fn quote_bid(&self) -> (r: bool)
        ensures
            r == self.quote_bid,
    {
        self.quote_bid
    }

    /// Returns true when an ask quote is allowed.
    pub fn quote_ask(&self) -> (r: bool)
        ensures
            r == self.quote_ask,
    {
        self.quote_ask
    }
}

/// Market-making quote decision.
#[derive(Debug, Clone, Copy, PartialEq, Eq)]
pub struct MarketMakerQuoteDecision {
    /// the quote estimate.
    pub estimate: MarketMakerQuoteEstimate,
    /// optional bid child order plan.
    pub bid: Option<ChildOrderPlan>,
    /// optional ask child order plan.
    pub ask: Option<ChildOrderPlan>,
}

impl MarketMakerQuoteDecision {
    /// Returns the quote estimate.
    pub fn estimate(&self) -> (r: MarketMakerQuoteEstimate)
        ensures
            r == self.estimate,
    {
        self.estimate
    }

    /// Returns optional bid child order plan.
    pub fn bid(&self) -> (r: Option<ChildOrderPlan>)
        ensures
            r == self.bid,
    {
        self.bid
    }

    /// Returns optional ask child order plan.
    pub fn ask(&self) -> (r: Option<ChildOrderPlan>)
        ensures
            r == self.ask,
    {
        self.ask
    }
}

/// `u16` sum, saturating.
pub open spec fn spec_sat_add_u16(a: int, b: int) -> int {
    min_int(a + b, u16::MAX as int)
}

/// Quote spread: the base widened by weighted volatility and adverse
/// selection (each saturating at `u16::MAX`), capped at the maximum.
pub open spec fn spec_mm_spread_bps(config: MarketMakerConfig, c: MarketMakerContext) -> int {
    let s1 = spec_sat_add_u16(
        config.base_spread_bps as int,
        min_int(
            spec_scale_bps_u32(c.volatility_bps as int, config.volatility_weight_bps as int),
            u16::MAX as int,
        ),
    );
    let s2 = spec_sat_add_u16(
        s1,
        min_int(
            spec_scale_bps_u32(
                c.adverse_selection_bps as int,
                config.adverse_selection_weight_bps as int,
            ),
            u16::MAX as int,
        ),
    );
    min_int(s2, config.max_spread_bps as int)
}

/// Fair value skewed against inventory: long inventory lowers it, short
/// raises it, in proportion to the inventory ratio and skew strength.
pub open spec fn spec_mm_adjusted_fair(config: MarketMakerConfig, c: MarketMakerContext) -> int {
    let ratio = spec_signed_inventory_ratio_bps(c.inventory_qty.0 as int, c.max_inventory_qty.0 as int);
    let skew = spec_scale_signed_bps(ratio, config.inventory_skew_bps as int);
    spec_apply_price_bps(c.fair_value.0 as int, -skew)
}

/// Half spread in price units: half of the spread's price (at least the
/// minimum tick spread), and at least one tick.
pub open spec fn spec_mm_half(config: MarketMakerConfig, adjusted: int, spread: int) -> int {
    let min_spread = clamp_i64(config.tick_size.0 * config.min_spread_ticks);
    let spread_price = max_int(spec_price_bps_to_ticks(adjusted, spread), min_spread);
    max_int(spread_price / 2, config.tick_size.0 as int)
}

/// The quote estimate: bid a half spread below the skewed fair value
/// rounded down to the tick (at least one tick), ask a half spread above
/// rounded up (at least one tick above the bid); a side is quoted only
/// while inventory is inside its limit on that side.
pub open spec fn spec_mm_estimate(
    config: MarketMakerConfig,
    template: ParentOrder,
    c: MarketMakerContext,
) -> Result<MarketMakerQuoteEstimate, AlgoError> {
    match spec_parent_validate(template) {
        Err(e) => Err(e),
        Ok(_) => if !(config.tick_size.0 > 0 && config.quote_qty.0 > 0 && config.base_spread_bps
            <= config.max_spread_bps && spec_mm_context_ok(c)) {
            Err(AlgoError::InvalidMarketMakingParameters)
        } else {
            let adjusted = spec_mm_adjusted_fair(config, c);
            let spread = spec_mm_spread_bps(config, c);
            let half = spec_mm_half(config, adjusted, spread);
            let tick = config.tick_size.0 as int;
            let bid = spec_snap_down(clamp_i64(adjusted - half), tick);
            let ask = spec_snap_up(clamp_i64(adjusted + half), tick);
            Ok(
                MarketMakerQuoteEstimate {
                    adjusted_fair_value: OrderPrice(adjusted as i64),
                    bid_price: OrderPrice(max_int(bid, tick) as i64),
                    ask_price: OrderPrice(max_int(ask, clamp_i64(bid + tick)) as i64),
                    spread_bps: spread as u16,
                    quote_bid: c.inventory_qty.0 < c.max_inventory_qty.0,
                    quote_ask: c.inventory_qty.0 > -c.max_inventory_qty.0,
                },
            )
        },
    }
}

/// A quote child of the template on `side` at `price`.
pub open spec fn spec_mm_quote(
    config: MarketMakerConfig,
    template: ParentOrder,
    side: OrderSide,
    child_id: ChildOrderId,
    client_order_id: ClientOrderId,
    price: OrderPrice,
    now_ns: u64,
    ts_recv_ns: u64,
) -> Result<ChildOrderPlan, AlgoError> {
    let request = spec_child_request(
        template,
        template.spec_route_id(),
        side,
        client_order_id,
        config.quote_qty,
        price,
        ts_recv_ns,
    );
    match request.spec_validate() {
        Err(e) => Err(AlgoError::Core(e)),
        Ok(_) => Ok(
            ChildOrderPlan::spec_from_parts(
                child_id,
                template.spec_id(),
                request,
                now_ns,
                ChildOrderStatus::Planned,
            ),
        ),
    }
}

/// The quote decision: a terminal template is `ParentTerminal`; else the
/// estimate with a bid and an ask child on each quoted side.
pub open spec fn spec_mm_plan(
    config: MarketMakerConfig,
    template: ParentOrder,
    now_ns: u64,
    c: MarketMakerContext,
    bid_child_id: ChildOrderId,
    bid_client_order_id: ClientOrderId,
    ask_child_id: ChildOrderId,
    ask_client_order_id: ClientOrderId,
    ts_recv_ns: u64,
) -> Result<MarketMakerQuoteDecision, AlgoError> {
    if spec_parent_terminal(template.spec_status()) {
        Err(AlgoError::ParentTerminal)
    } else {
        match spec_mm_estimate(config, template, c) {
            Err(e) => Err(e),
            Ok(est) => {
                let bid = if est.quote_bid {
                    match spec_mm_quote(
                        config,
                        template,
                        OrderSide::Buy,
                        bid_child_id,
                        bid_client_order_id,
                        est.bid_price,
                        now_ns,
                        ts_recv_ns,
                    ) {
                        Err(e) => Err(e),
                        Ok(p) => Ok(Some(p)),
                    }
                } else {
                    Ok(None)
                };
                let ask = if est.quote_ask {
                    match spec_mm_quote(
                        config,
                        template,
                        OrderSide::Sell,
                        ask_child_id,
                        ask_client_order_id,
                        est.ask_price,
                        now_ns,
                        ts_recv_ns,
                    ) {
                        Err(e) => Err(e),
                        Ok(p) => Ok(Some(p)),
                    }
                } else {
                    Ok(None)
                };
                match bid {
                    Err(e) => Err(e),
                    Ok(b) => match ask {
                        Err(e) => Err(e),
                        Ok(a) => Ok(MarketMakerQuoteDecision { estimate: est, bid: b, ask: a }),
                    },
                }
            },
        }
    }
}

/// Rounding `p` down to a multiple of `t` stays in range when `p` lies at
/// most a half spread below a positive price and the half spread is at most
/// `2^62` or exactly the tick.
proof fn lemma_snap_down_fits(p: int, t: int, h: int)
    requires
        0 < t <= i64::MAX,
        i64::MIN <= p <= i64::MAX,
        p >= 1 - h,
        0 < h,
        h <= 0x4000_0000_0000_0000 || h == t,
    ensures
        p - p % t >= i64::MIN,
{
    let q = p / t;
    let m = p % t;
    assert(p == q * t + m && 0 <= m < t) by (nonlinear_arith)
        requires
            t > 0,
            q == p / t,
            m == p % t,
    ;
    if t <= 0x4000_0000_0000_0000 {
        if h <= 0x4000_0000_0000_0000 {
            assert(p - m >= i64::MIN);
        } else {
            assert(p - m >= i64::MIN);
        }
    } else {
        assert(p > -t);
        assert(q >= -1) by (nonlinear_arith)
            requires
                p == q * t + m,
                0 <= m < t,
                p > -t,
                t > 0,
        ;
        assert(q * t >= -t) by (nonlinear_arith)
            requires
                q >= -1,
                t > 0,
        ;
    }
}

/// Deterministic market-making quote planner.
#[derive(Debug, Clone, Copy, PartialEq, Eq)]
pub struct MarketMakerPlanner {
    /// Planner configuration.
    pub config: MarketMakerConfig,
}

impl MarketMakerPlanner {
    /// Creates a market-making planner.
    pub fn new(config: MarketMakerConfig) -> (r: Self)
        ensures
            r.config == config,
    {
        Self { config }
    }

    /// Returns planner configuration.
    pub fn config(&self) -> (r: MarketMakerConfig)
        ensures
            r == self.config,
    {
        self.config
    }

    /// Estimates bid/ask quote prices and inventory-side quote suppression.
    pub fn estimate(&self, template: &ParentOrder, context: MarketMakerContext) -> (r: Result<
        MarketMakerQuoteEstimate,
        AlgoError,
    >)
        ensures
            r == spec_mm_estimate(self.config, *template, context),
    {
        match template.validate() {
            Err(e) => {
                return Err(e);
            },
            Ok(()) => {},
        }
        let config = self.config;
        if config.tick_size.0 <= 0 || config.quote_qty.0 <= 0 || config.base_spread_bps
            > config.max_spread_bps || context.fair_value.0 <= 0 || context.best_bid.0 <= 0
            || context.best_ask.0 <= 0 || context.best_bid.0 >= context.best_ask.0
            || context.max_inventory_qty.0 <= 0 {
            return Err(AlgoError::InvalidMarketMakingParameters);
        }
        let ratio = signed_inventory_ratio_bps(context.inventory_qty.0, context.max_inventory_qty.0);
        let skew = scale_signed_bps(ratio, config.inventory_skew_bps as i32);
        assert(-65_535 <= (ratio as int) * (config.inventory_skew_bps as int) / 10_000 <= 65_535)
            by (nonlinear_arith)
            requires
                -10_000 <= ratio <= 10_000,
                0 <= config.inventory_skew_bps <= 65_535,
        ;
        let adjusted = apply_price_bps(context.fair_value, -skew);
        let vol = scale_bps_u32(context.volatility_bps as u32, config.volatility_weight_bps as u32);
        let vol16: u16 = if vol > u16::MAX as u32 {
            u16::MAX
        } else {
            vol as u16
        };
        let adverse = scale_bps_u32(
            context.adverse_selection_bps as u32,
            config.adverse_selection_weight_bps as u32,
        );
        let adverse16: u16 = if adverse > u16::MAX as u32 {
            u16::MAX
        } else {
            adverse as u16
        };
        let mut spread = config.base_spread_bps.saturating_add(vol16);
        spread = spread.saturating_add(adverse16);
        if spread > config.max_spread_bps {
            spread = config.max_spread_bps;
        }
        let min_spread = sat_mul_i64(config.tick_size.0, config.min_spread_ticks as i64);
        let by_bps = price_bps_to_ticks(adjusted, spread);
        let spread_price = if by_bps >= min_spread {
            by_bps
        } else {
            min_spread
        };
        let halved = spread_price / 2;
        let half = if halved >= config.tick_size.0 {
            halved
        } else {
            config.tick_size.0
        };
        let lower = sat_sub_i64(adjusted.0, half);
        proof {
            assert(adjusted.0 >= 1);
            assert(spread_price >= 1);
            lemma_snap_down_fits(lower as int, config.tick_size.0 as int, half as int);
        }
        let bid = snap_down_to_tick(lower, config.tick_size.0);
        let ask = snap_up_to_tick(sat_add_i64(adjusted.0, half), config.tick_size.0);
        let quote_bid = context.inventory_qty.0 < context.max_inventory_qty.0;
        let quote_ask = context.inventory_qty.0 > -context.max_inventory_qty.0;
        let bid_price = if bid >= config.tick_size.0 {
            bid
        } else {
            config.tick_size.0
        };
        let above_bid = sat_add_i64(bid, config.tick_size.0);
        let ask_price = if ask >= above_bid {
            ask
        } else {
            above_bid
        };
        Ok(
            MarketMakerQuoteEstimate {
                adjusted_fair_value: adjusted,
                bid_price: OrderPrice(bid_price),
                ask_price: OrderPrice(ask_price),
                spread_bps: spread,
                quote_bid,
                quote_ask,
            },
        )
    }

    /// Plans bid and ask child quote orders.
    #[allow(clippy::too_many_arguments)]
    pub fn plan_quotes(
        &self,
        template: &ParentOrder,
        now_ns: u64,
        context: MarketMakerContext,
        bid_child_id: ChildOrderId,
        bid_client_order_id: ClientOrderId,
        ask_child_id: ChildOrderId,
        ask_client_order_id: ClientOrderId,
        ts_recv_ns: u64,
    ) -> (r: Result<MarketMakerQuoteDecision, AlgoError>)
        ensures
            r == spec_mm_plan(
                self.config,
                *template,
                now_ns,
                context,
                bid_child_id,
                bid_client_order_id,
                ask_child_id,
                ask_client_order_id,
                ts_recv_ns,
            ),
    {
        if template.status().is_terminal() {
            return Err(AlgoError::ParentTerminal);
        }
        let estimate = match self.estimate(template, context) {
            Err(e) => {
                return Err(e);
            },
            Ok(est) => est,
        };
        let bid = if estimate.quote_bid {
            let request = template.build_order_request_for_side_at_price(
                OrderSide::Buy,
                bid_client_order_id,
                self.config.quote_qty,
                estimate.bid_price,
                ts_recv_ns,
            );
            match ChildOrderPlan::new(bid_child_id, template.id(), request, now_ns) {
                Err(e) => {
                    return Err(e);
                },
                Ok(plan) => Some(plan),
            }
        } else {
            None
        };
        let ask = if estimate.quote_ask {
            let request = template.build_order_request_for_side_at_price(
                OrderSide::Sell,
                ask_client_order_id,
                self.config.quote_qty,
                estimate.ask_price,
                ts_recv_ns,
            );
            match ChildOrderPlan::new(ask_child_id, template.id(), request, now_ns) {
                Err(e) => {
                    return Err(e);
                },
                Ok(plan) => Some(plan),
            }
        } else {
            None
        };
        Ok(MarketMakerQuoteDecision { estimate, bid, ask })
    }
}

/// Quotes never cross: the ask is above the bid by at least a tick, both
/// are at least one tick, and a side at its inventory limit is not quoted.
pub proof fn law_mm_quotes_uncrossed(
    config: MarketMakerConfig,
    template: ParentOrder,
    c: MarketMakerContext,
)
    requires
        spec_mm_estimate(config, template, c) is Ok,
    ensures
        ({
            let e = spec_mm_estimate(config, template, c)->Ok_0;
            &&& e.bid_price.0 >= config.tick_size.0
            &&& e.ask_price.0 >= e.bid_price.0 || e.ask_price.0 == i64::MAX
            &&& c.inventory_qty.0 >= c.max_inventory_qty.0 ==> !e.quote_bid
            &&& c.inventory_qty.0 <= -c.max_inventory_qty.0 ==> !e.quote_ask
        }),
{
}

} // verus!
