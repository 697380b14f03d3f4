//! Smart order routing: route scoring and greedy allocation of one child
//! quantity across route candidates.

use vstd::prelude::*;
use crate::algo_model::{
    spec_child_request, AlgoError, AlgoProgress, ChildOrderId, ChildOrderPlan, ChildOrderStatus,
    ParentOrder,
};
use crate::algo_slicing::{plan_gate, spec_plan_gate};
use crate::algo_support::{
    route_liquidity_bps, route_price_penalty_bps, spec_route_liquidity_bps,
    spec_route_price_penalty_bps,
};
use crate::arith::{clamp_i64, min_int, sat_add_i64, sat_sub_i64};
use crate::ids::{ClientOrderId, RouteId};
use crate::orders::{OrderPrice, OrderQty, OrderSide, OrderType};

verus! {


broadcast use {
    crate::algo_model::group_parent_order,
    crate::algo_model::group_child_plan,
};

/// Route availability state.
#[derive(Debug, Clone, Copy, PartialEq, Eq, Hash, Structural)]
#[non_exhaustive]
pub enum SorRouteStatus {
    /// Route is available for new child orders.
    Available,
    /// Route is blocked by policy, risk, or operator action.
    Blocked,
    /// Route is degraded and should be skipped by default routing.
    Degraded,
    /// Route is temporarily cooling down after rejects, disconnects, or throttles.
    Cooldown,
}

impl SorRouteStatus {
    /// Returns true when the route can receive a new child order.
    pub fn is_routable(self) -> (r: bool)
        ensures
            r == (self == SorRouteStatus::Available),
    {
        match self {
            SorRouteStatus::Available => true,
            _ => false,
        }
    }

    /// Wire code of the status (available 1 through cooldown 4).
    pub fn code(self) -> (r: u8)
        ensures
            r == (match self {
                SorRouteStatus::Available => 1u8,
                SorRouteStatus::Blocked => 2u8,
                SorRouteStatus::Degraded => 3u8,
                SorRouteStatus::Cooldown => 4u8,
            }),
    {
        match self {
            SorRouteStatus::Available => 1,
            SorRouteStatus::Blocked => 2,
            SorRouteStatus::Degraded => 3,
            SorRouteStatus::Cooldown => 4,
        }
    }
}

/// Order-type capability advertised by a route.
#[derive(Debug, Clone, Copy, PartialEq, Eq)]
pub struct SorRouteCapability {
    /// Limit and stop-limit orders are supported.
    pub supports_limit: bool,
    /// Market and stop orders are supported.
    pub supports_market: bool,
}

/// Whether a capability covers an order type.
pub open spec fn spec_supports(c: SorRouteCapability, t: OrderType) -> bool {
    match t {
        OrderType::Limit | OrderType::StopLimit => c.supports_limit,
        OrderType::Market | OrderType::Stop => c.supports_market,
    }
}

impl SorRouteCapability {
    /// Creates route order-type capability flags.
    pub fn new(supports_limit: bool, supports_market: bool) -> (r: Self)
        ensures
            r == (SorRouteCapability { supports_limit, supports_market }),
    {
        Self { supports_limit, supports_market }
    }

    /// Returns true when limit orders are supported.
    pub fn supports_limit(&self) -> (r: bool)
        ensures
            r == self.supports_limit,
    {
        self.supports_limit
    }

    /// Returns true when market orders are supported.
    pub fn supports_market(&self) -> (r: bool)
        ensures
            r == self.supports_market,
    {
        self.supports_market
    }

    /// Returns true when the route accepts `order_type`.
    pub fn supports_order_type(&self, order_type: OrderType) -> (r: bool)
        ensures
            r == spec_supports(*self, order_type),
    {
        match order_type {
            OrderType::Limit | OrderType::StopLimit => self.supports_limit,
            OrderType::Market | OrderType::Stop => self.supports_market,
        }
    }
}

impl Default for SorRouteCapability {
    fn default() -> (r: Self)
        ensures
            r == (SorRouteCapability { supports_limit: true, supports_market: true }),
    {
        Self::new(true, true)
    }
}

/// Route quality metrics used for scoring.
#[derive(Debug, Clone, Copy, PartialEq, Eq)]
pub struct SorRouteMetrics {
    /// Fee (positive) or rebate (negative) in basis points.
    pub fee_bps: i16,
    /// Route latency estimate in microseconds.
    pub latency_us: u32,
    /// Recent reject rate in basis points.
    pub reject_rate_bps: u16,
    /// Estimated fill probability in basis points.
    pub fill_probability_bps: u16,
    /// Toxicity estimate in basis points.
    pub toxicity_bps: u16,
    /// Market-data quality score in basis points.
    pub data_quality_bps: u16,
}

/// Neutral metrics: no fee, latency, rejects or toxicity; certain fills and
/// full data quality.
pub open spec fn spec_default_metrics() -> SorRouteMetrics {
    SorRouteMetrics {
        fee_bps: 0,
        latency_us: 0,
        reject_rate_bps: 0,
        fill_probability_bps: 10_000,
        toxicity_bps: 0,
        data_quality_bps: 10_000,
    }
}

impl SorRouteMetrics {
    /// Creates route metrics; a fee outside `[-10_000, 10_000]` or a basis
    /// point value above `10_000` is `InvalidSorParameters`.
    pub fn new(
        fee_bps: i16,
        latency_us: u32,
        reject_rate_bps: u16,
        fill_probability_bps: u16,
        toxicity_bps: u16,
        data_quality_bps: u16,
    ) -> (r: Result<Self, AlgoError>)
        ensures
            if fee_bps < -10_000 || fee_bps > 10_000 || reject_rate_bps > 10_000
                || fill_probability_bps > 10_000 || toxicity_bps > 10_000 || data_quality_bps
                > 10_000 {
                r == Err::<Self, AlgoError>(AlgoError::InvalidSorParameters)
            } else {
                r == Ok::<Self, AlgoError>(
                    SorRouteMetrics {
                        fee_bps,
                        latency_us,
                        reject_rate_bps,
                        fill_probability_bps,
                        toxicity_bps,
                        data_quality_bps,
                    },
                )
            },
    {
        if fee_bps < -10_000 || fee_bps > 10_000 || reject_rate_bps > 10_000
            || fill_probability_bps > 10_000 || toxicity_bps > 10_000 || data_quality_bps > 10_000 {
            return Err(AlgoError::InvalidSorParameters);
        }
        Ok(
            Self {
                fee_bps,
                latency_us,
                reject_rate_bps,
                fill_probability_bps,
                toxicity_bps,
                data_quality_bps,
            },
        )
    }

    /// Returns fee or rebate estimate in basis points.
    pub fn fee_bps(&self) -> (r: i16)
        ensures
            r == self.fee_bps,
    {
        self.fee_bps
    }

    /// Returns route latency estimate in microseconds.
    pub fn latency_us(&self) -> (r: u32)
        ensures
            r == self.latency_us,
    {
        self.latency_us
    }

    /// Returns recent route reject rate in basis points.
    pub fn reject_rate_bps(&self) -> (r: u16)
        ensures
            r == self.reject_rate_bps,
    {
        self.reject_rate_bps
    }

    /// Returns estimated route fill probability in basis points.
    pub fn fill_probability_bps(&self) -> (r: u16)
        ensures
            r == self.fill_probability_bps,
    {
        self.fill_probability_bps
    }

    /// Returns route toxicity estimate in basis points.
    pub fn toxicity_bps(&self) -> (r: u16)
        ensures
            r == self.toxicity_bps,
    {
        self.toxicity_bps
    }

    /// Returns market-data quality score in basis points.
    pub fn data_quality_bps(&self) -> (r: u16)
        ensures
            r == self.data_quality_bps,
    {
        self.data_quality_bps
    }
}

impl Default for SorRouteMetrics {
    fn default() -> (r: Self)
        ensures
            r == spec_default_metrics(),
    {
        Self {
            fee_bps: 0,
            latency_us: 0,
            reject_rate_bps: 0,
            fill_probability_bps: 10_000,
            toxicity_bps: 0,
            data_quality_bps: 10_000,
        }
    }
}

/// Routable liquidity candidate.
#[derive(Debug, Clone, Copy, PartialEq, Eq)]
pub struct SorRouteCandidate {
    /// Route identifier.
    pub route_id: RouteId,
    /// Route price.
    pub price: OrderPrice,
    /// Available route quantity.
    pub available_qty: OrderQty,
    /// Route status.
    pub status: SorRouteStatus,
    /// Route capability flags.
    pub capability: SorRouteCapability,
    /// Route metrics.
    pub metrics: SorRouteMetrics,
}

impl SorRouteCandidate {
    /// Creates an available candidate with full capabilities and neutral
    /// metrics; a non-positive price or quantity is `InvalidSorParameters`.
    pub fn new(route_id: RouteId, price: OrderPrice, available_qty: OrderQty) -> (r: Result<
        Self,
        AlgoError,
    >)
        ensures
            if price.0 <= 0 || available_qty.0 <= 0 {
                r == Err::<Self, AlgoError>(AlgoError::InvalidSorParameters)
            } else {
                r == Ok::<Self, AlgoError>(
                    SorRouteCandidate {
                        route_id,
                        price,
                        available_qty,
                        status: SorRouteStatus::Available,
                        capability: SorRouteCapability { supports_limit: true, supports_market: true },
                        metrics: spec_default_metrics(),
                    },
                )
            },
    {
        if price.0 <= 0 || available_qty.0 <= 0 {
            return Err(AlgoError::InvalidSorParameters);
        }
        Ok(
            Self {
                route_id,
                price,
                available_qty,
                status: SorRouteStatus::Available,
                capability: SorRouteCapability::new(true, true),
                metrics: SorRouteMetrics {
                    fee_bps: 0,
                    latency_us: 0,
                    reject_rate_bps: 0,
                    fill_probability_bps: 10_000,
                    toxicity_bps: 0,
                    data_quality_bps: 10_000,
                },
            },
        )
    }

    /// Returns a copy with route status updated.
    pub fn with_status(self, status: SorRouteStatus) -> (r: Self)
        ensures
            r == (SorRouteCandidate { status, ..self }),
    {
        SorRouteCandidate { status, ..self }
    }

    /// Returns a copy with capability updated.
    pub fn with_capability(self, capability: SorRouteCapability) -> (r: Self)
        ensures
            r == (SorRouteCandidate { capability, ..self }),
    {
        SorRouteCandidate { capability, ..self }
    }

    /// Returns a copy with route metrics updated.
    pub fn with_metrics(self, metrics: SorRouteMetrics) -> (r: Self)
        ensures
            r == (SorRouteCandidate { metrics, ..self }),
    {
        SorRouteCandidate { metrics, ..self }
    }

    /// Returns route identifier.
    pub fn route_id(&self) -> (r: RouteId)
        ensures
            r == self.route_id,
    {
        self.route_id
    }

    /// Returns route price.
    pub fn price(&self) -> (r: OrderPrice)
        ensures
            r == self.price,
    {
        self.price
    }

    /// Returns available route quantity.
    pub fn available_qty(&self) -> (r: OrderQty)
        ensures
            r == self.available_qty,
    {
        self.available_qty
    }

    /// Returns route status.
    pub fn status(&self) -> (r: SorRouteStatus)
        ensures
            r == self.status,
    {
        self.status
    }

    /// Returns route capability flags.
    pub fn capability(&self) -> (r: SorRouteCapability)
        ensures
            r == self.capability,
    {
        self.capability
    }

    /// Returns route metrics.
    pub fn metrics(&self) -> (r: SorRouteMetrics)
        ensures
            r == self.metrics,
    {
        self.metrics
    }
}

/// Integer score weights.
#[derive(Debug, Clone, Copy, PartialEq, Eq)]
pub struct SorScoreWeights {
    /// Price weight.
    pub price_weight: u16,
    /// Liquidity weight.
    pub liquidity_weight: u16,
    /// Fee weight.
    pub fee_weight: u16,
    /// Latency weight.
    pub latency_weight: u16,
    /// Reject-rate weight.
    pub reject_weight: u16,
    /// Fill-probability weight.
    pub fill_weight: u16,
    /// Toxicity weight.
    pub toxicity_weight: u16,
    /// Data-quality weight.
    pub data_quality_weight: u16,
}

impl SorScoreWeights {
    /// Creates score weights.
    #[allow(clippy::too_many_arguments)]
    pub fn new(
        price_weight: u16,
        liquidity_weight: u16,
        fee_weight: u16,
        latency_weight: u16,
        reject_weight: u16,
        fill_weight: u16,
        toxicity_weight: u16,
        data_quality_weight: u16,
    ) -> (r: Self)
        ensures
            r == (SorScoreWeights {
                price_weight,
                liquidity_weight,
                fee_weight,
                latency_weight,
                reject_weight,
                fill_weight,
                toxicity_weight,
                data_quality_weight,
            }),
    {
        Self {
            price_weight,
            liquidity_weight,
            fee_weight,
            latency_weight,
            reject_weight,
            fill_weight,
            toxicity_weight,
            data_quality_weight,
        }
    }

    /// Returns price weight.
    pub fn price_weight(&self) -> (r: u16)
        ensures
            r == self.price_weight,
    {
        self.price_weight
    }

    /// Returns liquidity weight.
    pub fn liquidity_weight(&self) -> (r: u16)
        ensures
            r == self.liquidity_weight,
    {
        self.liquidity_weight
    }

    /// Returns fee weight.
    pub fn fee_weight(&self) -> (r: u16)
        ensures
            r == self.fee_weight,
    {
        self.fee_weight
    }

    /// Returns latency weight.
    pub fn latency_weight(&self) -> (r: u16)
        ensures
            r == self.latency_weight,
    {
        self.latency_weight
    }

    /// Returns reject-rate weight.
    pub fn reject_weight(&self) -> (r: u16)
        ensures
            r == self.reject_weight,
    {
        self.reject_weight
    }

    /// Returns fill-probability weight.
    pub fn fill_weight(&self) -> (r: u16)
        ensures
            r == self.fill_weight,
    {
        self.fill_weight
    }

    /// Returns toxicity weight.
    pub fn toxicity_weight(&self) -> (r: u16)
        ensures
            r == self.toxicity_weight,
    {
        self.toxicity_weight
    }

    /// Returns data-quality weight.
    pub fn data_quality_weight(&self) -> (r: u16)
        ensures
            r == self.data_quality_weight,
    {
        self.data_quality_weight
    }
}

impl Default for SorScoreWeights {
    fn default() -> (r: Self)
        ensures
            r == (SorScoreWeights {
                price_weight: 8,
                liquidity_weight: 2,
                fee_weight: 2,
                latency_weight: 1,
                reject_weight: 3,
                fill_weight: 3,
                toxicity_weight: 4,
                data_quality_weight: 1,
            }),
    {
        Self::new(8, 2, 2, 1, 3, 3, 4, 1)
    }
}

/// Smart-order-router configuration.
#[derive(Debug, Clone, Copy, PartialEq, Eq)]
pub struct SorConfig {
    max_route_count: usize,
    weights: SorScoreWeights,
}

impl SorConfig {
    #[verifier::type_invariant]
    spec fn inv(self) -> bool {
        self.max_route_count > 0
    }

    /// Maximum number of routes allocated in one decision.
    pub closed spec fn spec_max_route_count(self) -> usize {
        self.max_route_count
    }

    /// Score weights.
    pub closed spec fn spec_weights(self) -> SorScoreWeights {
        self.weights
    }

    /// Creates a configuration; a zero route count is `InvalidSorParameters`.
    pub fn new(max_route_count: usize, weights: SorScoreWeights) -> (r: Result<Self, AlgoError>)
        ensures
            if max_route_count == 0 {
                r == Err::<Self, AlgoError>(AlgoError::InvalidSorParameters)
            } else {
                r matches Ok(c) && c.spec_max_route_count() == max_route_count && c.spec_weights()
                    == weights
            },
    {
        if max_route_count == 0 {
            return Err(AlgoError::InvalidSorParameters);
        }
        Ok(Self { max_route_count, weights })
    }

    /// Returns maximum number of routes to allocate in one decision.
    pub fn max_route_count(&self) -> (r: usize)
        ensures
            r == self.spec_max_route_count(),
    {
        self.max_route_count
    }

    /// Returns score weights.
    pub fn weights(&self) -> (r: SorScoreWeights)
        ensures
            r == self.spec_weights(),
    {
        self.weights
    }
}

impl Default for SorConfig {
    fn default() -> (r: Self)
        ensures
            r.spec_max_route_count() == 4,
            r.spec_weights() == (SorScoreWeights {
                price_weight: 8,
                liquidity_weight: 2,
                fee_weight: 2,
                latency_weight: 1,
                reject_weight: 3,
                fill_weight: 3,
                toxicity_weight: 4,
                data_quality_weight: 1,
            }),
    {
        Self { max_route_count: 4, weights: SorScoreWeights::default() }
    }
}

/// Scored child allocation.
#[derive(Debug, Clone, Copy, PartialEq, Eq)]
pub struct SorChildAllocation {
    /// Route score used for selection.
    pub score: i64,
    /// Planned child order for the selected route.
    pub plan: ChildOrderPlan,
}

impl SorChildAllocation {
    /// Returns route score used for selection.
    pub fn score(&self) -> (r: i64)
        ensures
            r == self.score,
    {
        self.score
    }

    /// Returns planned child order for the selected route.
    pub fn plan(&self) -> (r: ChildOrderPlan)
        ensures
            r == self.plan,
    {
        self.plan
    }
}

/// Fixed-capacity SOR decision holding at most `N` allocations.
#[derive(Debug, PartialEq, Eq)]
pub struct SorDecision<const N: usize> {
    allocations: Vec<SorChildAllocation>,
    considered_routes: usize,
    blocked_routes: usize,
}

impl<const N: usize> SorDecision<N> {
    #[verifier::type_invariant]
    spec fn inv(&self) -> bool {
        self.allocations@.len() <= N
    }

    /// Allocations in selected order.
    pub closed spec fn spec_allocations(&self) -> Seq<SorChildAllocation> {
        self.allocations@
    }

    /// Number of considered candidates.
    pub closed spec fn spec_considered(&self) -> usize {
        self.considered_routes
    }

    /// Number of skipped (non-routable) candidates.
    pub closed spec fn spec_blocked(&self) -> usize {
        self.blocked_routes
    }

    /// Creates an empty decision over `considered_routes` candidates.
    pub fn new(considered_routes: usize) -> (r: Self)
        ensures
            r.spec_allocations().len() == 0,
            r.spec_considered() == considered_routes,
            r.spec_blocked() == 0,
    {
        Self { allocations: Vec::new(), considered_routes, blocked_routes: 0 }
    }

    /// Returns allocation count.
    pub fn len(&self) -> (r: usize)
        ensures
            r == self.spec_allocations().len(),
            r <= N,
    {
        proof {
            use_type_invariant(self);
        }
        self.allocations.len()
    }

    /// Returns true when no allocations were produced.
    pub fn is_empty(&self) -> (r: bool)
        ensures
            r == (self.spec_allocations().len() == 0),
    {
        self.allocations.len() == 0
    }

    /// Returns number of considered route candidates.
    pub fn considered_routes(&self) -> (r: usize)
        ensures
            r == self.spec_considered(),
    {
        self.considered_routes
    }

    /// Returns number of skipped routes.
    pub fn blocked_routes(&self) -> (r: usize)
        ensures
            r == self.spec_blocked(),
    {
        self.blocked_routes
    }

    /// Iterates over the allocations in selected order.
    pub fn allocations(&self) -> (r: std::slice::Iter<'_, SorChildAllocation>)
        ensures
            vstd::std_specs::iter::IteratorSpec::remaining(&r) == self.spec_allocations().as_ref(),
    {
        broadcast use vstd::std_specs::slice::axiom_spec_slice_iter;

        self.allocations.as_slice().iter()
    }

    /// Returns the allocations as a slice.
    pub fn allocation_list(&self) -> (r: &[SorChildAllocation])
        ensures
            r@ == self.spec_allocations(),
    {
        self.allocations.as_slice()
    }

    fn push(&mut self, allocation: SorChildAllocation)
        requires
            old(self).spec_allocations().len() < N,
        ensures
            final(self).spec_allocations() == old(self).spec_allocations().push(allocation),
            final(self).spec_considered() == old(self).spec_considered(),
            final(self).spec_blocked() == old(self).spec_blocked(),
    {
        let mut allocations: Vec<SorChildAllocation> = Vec::new();
        std::mem::swap(&mut allocations, &mut self.allocations);
        allocations.push(allocation);
        self.allocations = allocations;
    }

    fn mark_blocked(&mut self)
        ensures
            final(self).spec_allocations() == old(self).spec_allocations(),
            final(self).spec_considered() == old(self).spec_considered(),
            final(self).spec_blocked() == spec_sat_inc(old(self).spec_blocked()),
    {
        proof {
            use_type_invariant(&*self);
        }
        self.blocked_routes = self.blocked_routes.saturating_add(1);
    }
}

/// `n + 1`, saturating at `usize::MAX`.
pub open spec fn spec_sat_inc(n: usize) -> usize {
    if n == usize::MAX {
        n
    } else {
        (n + 1) as usize
    }
}

/// Route score: fill probability, liquidity against the maximum clip and
/// data quality add; price penalty against the best price, fee, latency
/// (per 100 µs), rejects and toxicity subtract, each weighted, saturating
/// at every step. `None` for a route that is not routable, does not accept
/// the parent's order type, or has no positive price or quantity.
pub open spec fn spec_score_route(
    weights: SorScoreWeights,
    parent: ParentOrder,
    c: SorRouteCandidate,
    best_price: OrderPrice,
) -> Option<i64> {
    if c.status != SorRouteStatus::Available || !spec_supports(c.capability, parent.spec_order_type())
        || c.available_qty.0 <= 0 || c.price.0 <= 0 {
        None
    } else {
        let m = c.metrics;
        let liquidity = spec_route_liquidity_bps(c.available_qty.0 as int, parent.spec_max_clip().0 as int);
        let penalty = spec_route_price_penalty_bps(parent.spec_side(), c.price.0 as int, best_price.0 as int);
        let s1 = clamp_i64(0 + m.fill_probability_bps * weights.fill_weight);
        let s2 = clamp_i64(s1 + liquidity * weights.liquidity_weight);
        let s3 = clamp_i64(s2 + m.data_quality_bps * weights.data_quality_weight);
        let s4 = clamp_i64(s3 - penalty * weights.price_weight);
        let s5 = clamp_i64(s4 - m.fee_bps * weights.fee_weight);
        let s6 = clamp_i64(s5 - (m.latency_us / 100) * weights.latency_weight);
        let s7 = clamp_i64(s6 - m.reject_rate_bps * weights.reject_weight);
        let s8 = clamp_i64(s7 - m.toxicity_bps * weights.toxicity_weight);
        Some(s8 as i64)
    }
}

/// Whether a level cannot be routed for the parent: not available, not
/// supporting the order type, without quantity, or without a price.
pub open spec fn spec_level_unroutable(parent: ParentOrder, c: SorRouteCandidate) -> bool {
    c.status != SorRouteStatus::Available || !spec_supports(c.capability, parent.spec_order_type())
        || c.available_qty.0 <= 0 || c.price.0 <= 0
}

/// The number of the first `k` levels that cannot be routed, saturating at
/// `usize::MAX`.
pub open spec fn spec_unroutable_count(
    parent: ParentOrder,
    cands: Seq<SorRouteCandidate>,
    k: int,
) -> usize
    decreases k,
{
    if k <= 0 {
        0
    } else if spec_level_unroutable(parent, cands[k - 1]) {
        spec_sat_inc(spec_unroutable_count(parent, cands, k - 1))
    } else {
        spec_unroutable_count(parent, cands, k - 1)
    }
}

/// Best routable price among candidates: lowest for a buy, highest for a
/// sell; `None` when no candidate is routable with positive price and
/// quantity.
pub open spec fn spec_best_sor_price(side: OrderSide, cands: Seq<SorRouteCandidate>) -> Option<
    i64,
>
    decreases cands.len(),
{
    if cands.len() == 0 {
        None
    } else {
        let prev = spec_best_sor_price(side, cands.drop_last());
        let c = cands.last();
        if c.status != SorRouteStatus::Available || c.price.0 <= 0 || c.available_qty.0 <= 0 {
            prev
        } else {
            match prev {
                None => Some(c.price.0),
                Some(best) => Some(
                    match side {
                        OrderSide::Buy => min_int(best as int, c.price.0 as int) as i64,
                        OrderSide::Sell => if best >= c.price.0 {
                            best
                        } else {
                            c.price.0
                        },
                    },
                ),
            }
        }
    }
}

/// Best routable price of the candidates.
pub fn best_sor_price(side: OrderSide, candidates: &[SorRouteCandidate]) -> (r: Option<OrderPrice>)
    ensures
        match spec_best_sor_price(side, candidates@) {
            None => r is None,
            Some(p) => r == Some(OrderPrice(p)),
        },
{
    let mut best: Option<i64> = None;
    let mut i: usize = 0;
    while i < candidates.len()
        invariant
            i <= candidates@.len(),
            best == spec_best_sor_price(side, candidates@.take(i as int)),
        decreases candidates@.len() - i,
    {
        proof {
            assert(candidates@.take(i as int + 1).drop_last() =~= candidates@.take(i as int));
        }
        let c = candidates[i];
        if c.status.is_routable() && c.price.0 > 0 && c.available_qty.0 > 0 {
            best = match best {
                None => Some(c.price.0),
                Some(current) => Some(
                    match side {
                        OrderSide::Buy => if current <= c.price.0 {
                            current
                        } else {
                            c.price.0
                        },
                        OrderSide::Sell => if current >= c.price.0 {
                            current
                        } else {
                            c.price.0
                        },
                    },
                ),
            };
        }
        i = i + 1;
    }
    proof {
        assert(candidates@.take(i as int) =~= candidates@);
    }
    match best {
        None => None,
        Some(p) => Some(OrderPrice(p)),
    }
}

/// Some allocation already routes to `route`.
pub open spec fn spec_route_taken(allocs: Seq<SorChildAllocation>, route: RouteId) -> bool {
    exists|i: int| 0 <= i < allocs.len() && (#[trigger] allocs[i]).plan.spec_request().route_id@ == route@
}

/// Returns true when the decision already routes to `route_id`.
pub fn decision_has_route<const N: usize>(decision: &SorDecision<N>, route_id: &RouteId) -> (r:
    bool)
    ensures
        r == spec_route_taken(decision.spec_allocations(), *route_id),
{
    let list = decision.allocation_list();
    let mut i: usize = 0;
    while i < list.len()
        invariant
            i <= list@.len(),
            list@ == decision.spec_allocations(),
            forall|j: int| 0 <= j < i ==> (#[trigger] list@[j]).plan.spec_request().route_id@ != route_id@,
        decreases list@.len() - i,
    {
        if list[i].plan.request().route_id.same_text(route_id) {
            return true;
        }
        i = i + 1;
    }
    false
}

/// Scan of the first `k` candidates for the best untaken route: the index
/// and score of the first strictly best score (starting below every score),
/// and the blocked count, raised for each non-routable untaken candidate
/// while nothing is allocated.
pub open spec fn spec_sor_scan(
    weights: SorScoreWeights,
    parent: ParentOrder,
    best_price: OrderPrice,
    cands: Seq<SorRouteCandidate>,
    allocs: Seq<SorChildAllocation>,
    k: int,
    blocked: usize,
) -> (Option<int>, i64, usize)
    decreases k,
{
    if k <= 0 {
        (None, i64::MIN, blocked)
    } else {
        let (bi, bs, bl) = spec_sor_scan(weights, parent, best_price, cands, allocs, k - 1, blocked);
        let c = cands[k - 1];
        if spec_route_taken(allocs, c.route_id) {
            (bi, bs, bl)
        } else {
            match spec_score_route(weights, parent, c, best_price) {
                None => (bi, bs, if allocs.len() == 0 {
                    spec_sat_inc(bl)
                } else {
                    bl
                }),
                Some(s) => if s > bs {
                    (Some(k - 1), s, bl)
                } else {
                    (bi, bs, bl)
                },
            }
        }
    }
}

/// Allocation rounds: while quantity is left and the route limit is not
/// reached, allocate the best untaken route as much as it offers (within
/// what is left), unless that is below the minimum clip on a slice that is
/// not final; stop when no route scores. Each round uses the next caller
/// identifiers. The result is the allocations, blocked count and quantity
/// left, or the error of an invalid child request.
pub open spec fn spec_sor_rounds(
    weights: SorScoreWeights,
    parent: ParentOrder,
    progress: AlgoProgress,
    now_ns: u64,
    cands: Seq<SorRouteCandidate>,
    child_ids: Seq<ChildOrderId>,
    client_ids: Seq<ClientOrderId>,
    ts_recv_ns: u64,
    best_price: OrderPrice,
    limit: int,
    allocs: Seq<SorChildAllocation>,
    blocked: usize,
    leaves: i64,
) -> Result<(Seq<SorChildAllocation>, usize, i64), AlgoError>
    decreases limit - allocs.len(),
{
    if leaves <= 0 || allocs.len() >= limit {
        Ok((allocs, blocked, leaves))
    } else {
        let (bi, bs, bl) = spec_sor_scan(
            weights,
            parent,
            best_price,
            cands,
            allocs,
            cands.len() as int,
            blocked,
        );
        match bi {
            None => Ok((allocs, bl, leaves)),
            Some(i) => {
                let c = cands[i];
                let qty = min_int(leaves as int, c.available_qty.0 as int);
                let final_slice = clamp_i64(progress.released_qty.0 + qty) >= parent.spec_total_qty().0
                    || now_ns >= parent.spec_end_ns();
                if qty < parent.spec_min_clip().0 && !final_slice {
                    Ok((allocs, bl, leaves))
                } else {
                    let request = spec_child_request(
                        parent,
                        c.route_id,
                        parent.spec_side(),
                        client_ids[allocs.len() as int],
                        OrderQty(qty as i64),
                        c.price,
                        ts_recv_ns,
                    );
                    match request.spec_validate() {
                        Err(e) => Err(AlgoError::Core(e)),
                        Ok(_) => spec_sor_rounds(
                            weights,
                            parent,
                            progress,
                            now_ns,
                            cands,
                            child_ids,
                            client_ids,
                            ts_recv_ns,
                            best_price,
                            limit,
                            allocs.push(
                                SorChildAllocation {
                                    score: bs,
                                    plan: ChildOrderPlan::spec_from_parts(
                                        child_ids[allocs.len() as int],
                                        parent.spec_id(),
                                        request,
                                        now_ns,
                                        ChildOrderStatus::Planned,
                                    ),
                                },
                            ),
                            bl,
                            clamp_i64(leaves - qty) as i64,
                        ),
                    }
                }
            },
        }
    }
}

/// The SOR plan: allocations, considered and blocked counts, or an error.
pub open spec fn spec_sor_plan(
    config: SorConfig,
    cap: usize,
    parent: ParentOrder,
    progress: AlgoProgress,
    now_ns: u64,
    cands: Seq<SorRouteCandidate>,
    child_ids: Seq<ChildOrderId>,
    client_ids: Seq<ClientOrderId>,
    ts_recv_ns: u64,
) -> Result<(Seq<SorChildAllocation>, usize, usize), AlgoError> {
    match spec_plan_gate(parent, progress) {
        Err(e) => Err(e),
        Ok(_) => if child_ids.len() < cap || client_ids.len() < cap {
            Err(AlgoError::InvalidSorParameters)
        } else if now_ns < parent.spec_start_ns() || progress.completed_qty.0 >= progress.target_qty.0
            || cands.len() == 0 {
            Ok((Seq::empty(), cands.len() as usize, 0))
        } else {
            match spec_best_sor_price(parent.spec_side(), cands) {
                None => Ok((Seq::empty(), cands.len() as usize, 0)),
                Some(best) => match spec_sor_rounds(
                    config.spec_weights(),
                    parent,
                    progress,
                    now_ns,
                    cands,
                    child_ids,
                    client_ids,
                    ts_recv_ns,
                    OrderPrice(best),
                    min_int(config.spec_max_route_count() as int, cap as int),
                    Seq::empty(),
                    0,
                    min_int(
                        clamp_i64(parent.spec_total_qty().0 - progress.released_qty.0),
                        parent.spec_max_clip().0 as int,
                    ) as i64,
                ) {
                    Err(e) => Err(e),
                    Ok((allocs, blocked, _left)) => Ok((allocs, cands.len() as usize, blocked)),
                },
            }
        },
    }
}

/// A score component times its weight.
pub(crate) fn weighted(value: i64, weight: u16) -> (r: i64)
    requires
        -0x1_0000_0000 <= value <= 0x1_0000_0000,
    ensures
        r == value * weight,
{
    assert(-0x1_0000_0000_0000 <= value * weight <= 0x1_0000_0000_0000) by (nonlinear_arith)
        requires
            -0x1_0000_0000 <= value <= 0x1_0000_0000,
            0 <= weight <= 0xffff,
    ;
    value * (weight as i64)
}

/// Deterministic smart-order-router planner.
#[derive(Debug, Clone, Copy, PartialEq, Eq)]
pub struct SorPlanner {
    /// Planner configuration.
    pub config: SorConfig,
}

impl SorPlanner {
    /// Creates a SOR planner.
    pub fn new(config: SorConfig) -> (r: Self)
        ensures
            r.config == config,
    {
        Self { config }
    }

    /// Returns planner configuration.
    pub fn config(&self) -> (r: SorConfig)
        ensures
            r == self.config,
    {
        self.config
    }

    /// Scores one route candidate for a parent order; higher is preferred.
    pub fn score_route(
        &self,
        parent: &ParentOrder,
        candidate: SorRouteCandidate,
        best_price: OrderPrice,
    ) -> (r: Option<i64>)
        ensures
            r == spec_score_route(self.config.spec_weights(), *parent, candidate, best_price),
    {
        if !candidate.status.is_routable() || !candidate.capability.supports_order_type(
            parent.order_type(),
        ) || candidate.available_qty.0 <= 0 || candidate.price.0 <= 0 {
            return None;
        }
        let w = self.config.weights();
        let m = candidate.metrics;
        let liquidity = route_liquidity_bps(candidate.available_qty.0, parent.max_clip().0);
        let penalty = route_price_penalty_bps(parent.side(), candidate.price, best_price);
        let latency = m.latency_us / 100;
        let fee = weighted(m.fee_bps as i64, w.fee_weight);
        let mut score: i64 = 0;
        score = sat_add_i64(score, weighted(m.fill_probability_bps as i64, w.fill_weight));
        score = sat_add_i64(score, weighted(liquidity as i64, w.liquidity_weight));
        score = sat_add_i64(score, weighted(m.data_quality_bps as i64, w.data_quality_weight));
        score = sat_sub_i64(score, weighted(penalty as i64, w.price_weight));
        score = sat_sub_i64(score, fee);
        score = sat_sub_i64(score, weighted(latency as i64, w.latency_weight));
        score = sat_sub_i64(score, weighted(m.reject_rate_bps as i64, w.reject_weight));
        score = sat_sub_i64(score, weighted(m.toxicity_bps as i64, w.toxicity_weight));
        Some(score)
    }

    /// Scans the candidates for the best untaken route, raising the blocked
    /// count while the decision is empty.
    fn scan<const N: usize>(
        &self,
        parent: &ParentOrder,
        candidates: &[SorRouteCandidate],
        best_price: OrderPrice,
        decision: &mut SorDecision<N>,
    ) -> (r: (Option<usize>, i64))
        ensures
            ({
                let (bi, bs, bl) = spec_sor_scan(
                    self.config.spec_weights(),
                    *parent,
                    best_price,
                    candidates@,
                    old(decision).spec_allocations(),
                    candidates@.len() as int,
                    old(decision).spec_blocked(),
                );
                &&& final(decision).spec_allocations() == old(decision).spec_allocations()
                &&& final(decision).spec_considered() == old(decision).spec_considered()
                &&& final(decision).spec_blocked() == bl
                &&& r.1 == bs
                &&& match bi {
                    None => r.0 is None,
                    Some(i) => r.0 == Some(i as usize),
                }
                &&& (bi matches Some(i) ==> 0 <= i < candidates@.len())
            }),
    {
        let ghost allocs = decision.spec_allocations();
        let ghost blocked0 = decision.spec_blocked();
        let mut best_index: Option<usize> = None;
        let mut best_score: i64 = i64::MIN;
        let mut index: usize = 0;
        while index < candidates.len()
            invariant
                index <= candidates@.len(),
                decision.spec_allocations() == allocs,
                decision.spec_considered() == old(decision).spec_considered(),
                allocs == old(decision).spec_allocations(),
                blocked0 == old(decision).spec_blocked(),
                ({
                    let (bi, bs, bl) = spec_sor_scan(
                        self.config.spec_weights(),
                        *parent,
                        best_price,
                        candidates@,
                        allocs,
                        index as int,
                        blocked0,
                    );
                    &&& decision.spec_blocked() == bl
                    &&& best_score == bs
                    &&& match bi {
                        None => best_index is None,
                        Some(i) => best_index == Some(i as usize),
                    }
                    &&& (bi matches Some(i) ==> 0 <= i < index)
                }),
            decreases candidates@.len() - index,
        {
            let candidate = candidates[index];
            if !decision_has_route(decision, &candidate.route_id) {
                match self.score_route(parent, candidate, best_price) {
                    None => {
                        if decision.is_empty() {
                            decision.mark_blocked();
                        }
                    },
                    Some(score) => {
                        if score > best_score {
                            best_score = score;
                            best_index = Some(index);
                        }
                    },
                }
            }
            index = index + 1;
        }
        (best_index, best_score)
    }

    /// Plans route allocations for one child-routing decision, using the
    /// caller's identifiers in order; at least `N` of each must be supplied.
    #[allow(clippy::too_many_arguments)]
    pub fn plan_routes<const N: usize>(
        &self,
        parent: &ParentOrder,
        progress: AlgoProgress,
        now_ns: u64,
        candidates: &[SorRouteCandidate],
        child_ids: &[ChildOrderId],
        client_order_ids: &[ClientOrderId],
        ts_recv_ns: u64,
    ) -> (r: Result<SorDecision<N>, AlgoError>)
        ensures
            match spec_sor_plan(
                self.config,
                N,
                *parent,
                progress,
                now_ns,
                candidates@,
                child_ids@,
                client_order_ids@,
                ts_recv_ns,
            ) {
                Err(e) => r == Err::<SorDecision<N>, AlgoError>(e),
                Ok((allocs, considered, blocked)) => r matches Ok(d) && d.spec_allocations()
                    == allocs && d.spec_considered() == considered && d.spec_blocked() == blocked,
            },
    {
        match plan_gate(parent, &progress) {
            Err(e) => {
                return Err(e);
            },
            Ok(()) => {},
        }
        if child_ids.len() < N || client_order_ids.len() < N {
            return Err(AlgoError::InvalidSorParameters);
        }
        if now_ns < parent.start_ns() || progress.is_complete() || candidates.len() == 0 {
            return Ok(SorDecision::new(candidates.len()));
        }
        let mut decision = SorDecision::<N>::new(candidates.len());
        let unreleased = sat_sub_i64(parent.total_qty().0, progress.released_qty.0);
        let mut leaves = if unreleased <= parent.max_clip().0 {
            unreleased
        } else {
            parent.max_clip().0
        };
        let route_limit = if self.config.max_route_count() <= N {
            self.config.max_route_count()
        } else {
            N
        };
        let best_price = match best_sor_price(parent.side(), candidates) {
            None => {
                return Ok(decision);
            },
            Some(p) => p,
        };
        proof {
            assert(decision.spec_allocations() =~= Seq::<SorChildAllocation>::empty());
        }
        let ghost weights = self.config.spec_weights();
        let ghost target = spec_sor_rounds(
            weights,
            *parent,
            progress,
            now_ns,
            candidates@,
            child_ids@,
            client_order_ids@,
            ts_recv_ns,
            best_price,
            route_limit as int,
            Seq::empty(),
            0,
            leaves,
        );
        loop
            invariant_except_break
                target == spec_sor_rounds(
                    weights,
                    *parent,
                    progress,
                    now_ns,
                    candidates@,
                    child_ids@,
                    client_order_ids@,
                    ts_recv_ns,
                    best_price,
                    route_limit as int,
                    decision.spec_allocations(),
                    decision.spec_blocked(),
                    leaves,
                ),
            invariant
                spec_sor_plan(
                    self.config,
                    N,
                    *parent,
                    progress,
                    now_ns,
                    candidates@,
                    child_ids@,
                    client_order_ids@,
                    ts_recv_ns,
                ) == (match target {
                    Err(e) => Err(e),
                    Ok((a, b, _l)) => Ok((a, candidates@.len() as usize, b)),
                }),
                weights == self.config.spec_weights(),
                route_limit <= N,
                N <= child_ids@.len(),
                N <= client_order_ids@.len(),
                decision.spec_allocations().len() <= route_limit,
                decision.spec_considered() == candidates@.len(),
            ensures
                target == Ok::<(Seq<SorChildAllocation>, usize, i64), AlgoError>(
                    (decision.spec_allocations(), decision.spec_blocked(), leaves),
                ),
            decreases route_limit - decision.spec_allocations().len(),
        {
            if leaves <= 0 || decision.len() >= route_limit {
                break;
            }
            let (best_index, best_score) = self.scan(parent, candidates, best_price, &mut decision);
            let index = match best_index {
                None => {
                    break;
                },
                Some(i) => i,
            };
            let candidate = candidates[index];
            let qty = if leaves <= candidate.available_qty.0 {
                leaves
            } else {
                candidate.available_qty.0
            };
            let final_slice = sat_add_i64(progress.released_qty.0, qty) >= parent.total_qty().0
                || now_ns >= parent.end_ns();
            if qty < parent.min_clip().0 && !final_slice {
                break;
            }
            let slot = decision.len();
            let request = parent.build_order_request_for_route_at_price(
                candidate.route_id,
                client_order_ids[slot],
                OrderQty(qty),
                candidate.price,
                ts_recv_ns,
            );
            let plan = match ChildOrderPlan::new(child_ids[slot], parent.id(), request, now_ns) {
                Err(e) => {
                    return Err(e);
                },
                Ok(plan) => plan,
            };
            decision.push(SorChildAllocation { score: best_score, plan });
            leaves = sat_sub_i64(leaves, qty);
        }
        Ok(decision)
    }
}

/// Total child quantity of a list of allocations.
pub open spec fn spec_allocated_qty(allocs: Seq<SorChildAllocation>) -> int
    decreases allocs.len(),
{
    if allocs.len() == 0 {
        0
    } else {
        spec_allocated_qty(allocs.drop_last()) + allocs.last().plan.spec_request().quantity.0
    }
}

/// No route is allocated twice.
pub open spec fn spec_routes_distinct(allocs: Seq<SorChildAllocation>) -> bool {
    forall|i: int, j: int|
        0 <= i < j < allocs.len() ==> (#[trigger] allocs[i]).plan.spec_request().route_id@
            != (#[trigger] allocs[j]).plan.spec_request().route_id@
}

/// What the allocation rounds keep: distinct routes, positive quantities
/// within each route's offer, and the quantity left plus the quantity
/// allocated equal to the starting quantity.
pub open spec fn spec_rounds_inv(
    cands: Seq<SorRouteCandidate>,
    allocs: Seq<SorChildAllocation>,
    leaves: i64,
    start: int,
) -> bool {
    &&& spec_routes_distinct(allocs)
    &&& forall|i: int|
        0 <= i < allocs.len() ==> 0 < (#[trigger] allocs[i]).plan.spec_request().quantity.0
    &&& spec_allocated_qty(allocs) + leaves == start
    &&& (leaves >= 0 || allocs.len() == 0)
}

/// The scan only picks an untaken candidate that scores, with that score.
proof fn lemma_scan_picks_scored(
    weights: SorScoreWeights,
    parent: ParentOrder,
    best_price: OrderPrice,
    cands: Seq<SorRouteCandidate>,
    allocs: Seq<SorChildAllocation>,
    k: int,
    blocked: usize,
)
    requires
        k <= cands.len(),
    ensures
        ({
            let (bi, bs, _bl) = spec_sor_scan(weights, parent, best_price, cands, allocs, k, blocked);
            bi matches Some(i) ==> {
                &&& 0 <= i < k
                &&& !spec_route_taken(allocs, cands[i].route_id)
                &&& spec_score_route(weights, parent, cands[i], best_price) == Some(bs)
            }
        }),
    decreases k,
{
    if k > 0 {
        lemma_scan_picks_scored(weights, parent, best_price, cands, allocs, k - 1, blocked);
    }
}

/// The allocation rounds keep their invariant and never exceed the limit.
proof fn lemma_rounds_sound(
    weights: SorScoreWeights,
    parent: ParentOrder,
    progress: AlgoProgress,
    now_ns: u64,
    cands: Seq<SorRouteCandidate>,
    child_ids: Seq<ChildOrderId>,
    client_ids: Seq<ClientOrderId>,
    ts_recv_ns: u64,
    best_price: OrderPrice,
    limit: int,
    allocs: Seq<SorChildAllocation>,
    blocked: usize,
    leaves: i64,
    start: int,
)
    requires
        spec_rounds_inv(cands, allocs, leaves, start),
        allocs.len() <= limit || allocs.len() == 0,
    ensures
        spec_sor_rounds(
            weights,
            parent,
            progress,
            now_ns,
            cands,
            child_ids,
            client_ids,
            ts_recv_ns,
            best_price,
            limit,
            allocs,
            blocked,
            leaves,
        ) matches Ok((a, _b, l)) ==> spec_rounds_inv(cands, a, l, start) && (a.len() <= limit
            || a.len() == 0) && allocs.len() <= a.len(),
    decreases limit - allocs.len(),
{
    if !(leaves <= 0 || allocs.len() >= limit) {
        let (bi, bs, bl) = spec_sor_scan(
            weights,
            parent,
            best_price,
            cands,
            allocs,
            cands.len() as int,
            blocked,
        );
        lemma_scan_picks_scored(
            weights,
            parent,
            best_price,
            cands,
            allocs,
            cands.len() as int,
            blocked,
        );
        if let Some(i) = bi {
            let c = cands[i];
            let qty = min_int(leaves as int, c.available_qty.0 as int);
            let request = spec_child_request(
                parent,
                c.route_id,
                parent.spec_side(),
                client_ids[allocs.len() as int],
                OrderQty(qty as i64),
                c.price,
                ts_recv_ns,
            );
            let next = allocs.push(
                SorChildAllocation {
                    score: bs,
                    plan: ChildOrderPlan::spec_from_parts(
                        child_ids[allocs.len() as int],
                        parent.spec_id(),
                        request,
                        now_ns,
                        ChildOrderStatus::Planned,
                    ),
                },
            );
            assert(next.drop_last() =~= allocs);
            assert(spec_routes_distinct(next)) by {
                assert forall|x: int, y: int| 0 <= x < y < next.len() implies (
                #[trigger] next[x]).plan.spec_request().route_id@ != (
                #[trigger] next[y]).plan.spec_request().route_id@ by {
                    if y == allocs.len() {
                        assert(next[x] == allocs[x]);
                        if allocs[x].plan.spec_request().route_id@ == c.route_id@ {
                            assert(spec_route_taken(allocs, c.route_id));
                        }
                    } else {
                        assert(next[x] == allocs[x]);
                        assert(next[y] == allocs[y]);
                    }
                }
            }
            assert forall|x: int| 0 <= x < next.len() implies 0 < (
            #[trigger] next[x]).plan.spec_request().quantity.0 by {
                if x < allocs.len() {
                    assert(next[x] == allocs[x]);
                }
            }
            lemma_rounds_sound(
                weights,
                parent,
                progress,
                now_ns,
                cands,
                child_ids,
                client_ids,
                ts_recv_ns,
                best_price,
                limit,
                next,
                bl,
                clamp_i64(leaves - qty) as i64,
                start,
            );
        }
    }
}

/// Smart order routing never allocates a route twice, allocates only
/// positive quantities, never more routes than the configured count and the
/// decision capacity, and in total never more than the unreleased quantity
/// or the maximum clip.
pub proof fn law_sor_allocations_sound(
    config: SorConfig,
    cap: usize,
    parent: ParentOrder,
    progress: AlgoProgress,
    now_ns: u64,
    cands: Seq<SorRouteCandidate>,
    child_ids: Seq<ChildOrderId>,
    client_ids: Seq<ClientOrderId>,
    ts_recv_ns: u64,
)
    requires
        spec_sor_plan(
            config,
            cap,
            parent,
            progress,
            now_ns,
            cands,
            child_ids,
            client_ids,
            ts_recv_ns,
        ) is Ok,
    ensures
        ({
            let allocs = spec_sor_plan(
                config,
                cap,
                parent,
                progress,
                now_ns,
                cands,
                child_ids,
                client_ids,
                ts_recv_ns,
            )->Ok_0.0;
            &&& spec_routes_distinct(allocs)
            &&& forall|i: int| 0 <= i < allocs.len() ==> 0 < (#[trigger] allocs[i]).plan.spec_request().quantity.0
            &&& allocs.len() <= config.spec_max_route_count()
            &&& allocs.len() <= cap
            &&& allocs.len() > 0 ==> spec_allocated_qty(allocs) <= clamp_i64(
                parent.spec_total_qty().0 - progress.released_qty.0,
            )
            &&& allocs.len() > 0 ==> spec_allocated_qty(allocs) <= parent.spec_max_clip().0
        }),
{
    if spec_plan_gate(parent, progress) is Ok && !(child_ids.len() < cap || client_ids.len() < cap)
        && !(now_ns < parent.spec_start_ns() || progress.completed_qty.0 >= progress.target_qty.0
        || cands.len() == 0) {
        if let Some(best) = spec_best_sor_price(parent.spec_side(), cands) {
            let start = min_int(
                clamp_i64(parent.spec_total_qty().0 - progress.released_qty.0),
                parent.spec_max_clip().0 as int,
            );
            lemma_rounds_sound(
                config.spec_weights(),
                parent,
                progress,
                now_ns,
                cands,
                child_ids,
                client_ids,
                ts_recv_ns,
                OrderPrice(best),
                min_int(config.spec_max_route_count() as int, cap as int),
                Seq::empty(),
                0,
                start as i64,
                start,
            );
        }
    }
}

/// With nothing allocated yet, the scan counts each unroutable candidate
/// once; once something is allocated, it keeps the count.
proof fn lemma_sor_scan_blocked(
    weights: SorScoreWeights,
    parent: ParentOrder,
    best_price: OrderPrice,
    cands: Seq<SorRouteCandidate>,
    allocs: Seq<SorChildAllocation>,
    k: int,
    blocked: usize,
)
    ensures
        allocs.len() == 0 && blocked == 0 ==> spec_sor_scan(
            weights,
            parent,
            best_price,
            cands,
            allocs,
            k,
            blocked,
        ).2 == spec_unroutable_count(parent, cands, k),
        allocs.len() > 0 ==> spec_sor_scan(weights, parent, best_price, cands, allocs, k, blocked).2
            == blocked,
    decreases k,
{
    if k > 0 {
        lemma_sor_scan_blocked(weights, parent, best_price, cands, allocs, k - 1, blocked);
        let c = cands[k - 1];
        assert(spec_score_route(weights, parent, c, best_price) is None <==> spec_level_unroutable(
            parent,
            c,
        ));
    }
}

/// The allocation rounds report each unroutable candidate once as blocked
/// as soon as anything is allocated.
proof fn lemma_sor_rounds_blocked(
    weights: SorScoreWeights,
    parent: ParentOrder,
    progress: AlgoProgress,
    now_ns: u64,
    cands: Seq<SorRouteCandidate>,
    child_ids: Seq<ChildOrderId>,
    client_ids: Seq<ClientOrderId>,
    ts_recv_ns: u64,
    best_price: OrderPrice,
    limit: int,
    allocs: Seq<SorChildAllocation>,
    blocked: usize,
    leaves: i64,
)
    requires
        (allocs.len() == 0 && blocked == 0) || (allocs.len() > 0 && blocked
            == spec_unroutable_count(parent, cands, cands.len() as int)),
    ensures
        spec_sor_rounds(
            weights,
            parent,
            progress,
            now_ns,
            cands,
            child_ids,
            client_ids,
            ts_recv_ns,
            best_price,
            limit,
            allocs,
            blocked,
            leaves,
        ) matches Ok(t) ==> (t.0.len() > 0 ==> t.1 == spec_unroutable_count(
            parent,
            cands,
            cands.len() as int,
        )),
    decreases limit - allocs.len(),
{
    if !(leaves <= 0 || allocs.len() >= limit) {
        lemma_sor_scan_blocked(
            weights,
            parent,
            best_price,
            cands,
            allocs,
            cands.len() as int,
            blocked,
        );
        let (bi, bs, bl) = spec_sor_scan(
            weights,
            parent,
            best_price,
            cands,
            allocs,
            cands.len() as int,
            blocked,
        );
        if let Some(i) = bi {
            let c = cands[i];
            let qty = min_int(leaves as int, c.available_qty.0 as int);
            let final_slice = clamp_i64(progress.released_qty.0 + qty) >= parent.spec_total_qty().0
                || now_ns >= parent.spec_end_ns();
            if !(qty < parent.spec_min_clip().0 && !final_slice) {
                let request = spec_child_request(
                    parent,
                    c.route_id,
                    parent.spec_side(),
                    client_ids[allocs.len() as int],
                    OrderQty(qty as i64),
                    c.price,
                    ts_recv_ns,
                );
                if request.spec_validate() is Ok {
                    lemma_sor_rounds_blocked(
                        weights,
                        parent,
                        progress,
                        now_ns,
                        cands,
                        child_ids,
                        client_ids,
                        ts_recv_ns,
                        best_price,
                        limit,
                        allocs.push(
                            SorChildAllocation {
                                score: bs,
                                plan: ChildOrderPlan::spec_from_parts(
                                    child_ids[allocs.len() as int],
                                    parent.spec_id(),
                                    request,
                                    now_ns,
                                    ChildOrderStatus::Planned,
                                ),
                            },
                        ),
                        bl,
                        clamp_i64(leaves - qty) as i64,
                    );
                }
            }
        }
    }
}

/// A routing plan counts each candidate that cannot be routed (not
/// available, not supporting the order type, without quantity or without
/// price) once: whenever it allocates a route, its blocked count is the
/// number of such candidates, saturating at `usize::MAX`.
pub proof fn law_sor_blocked_counts_each_route_once(
    config: SorConfig,
    cap: usize,
    parent: ParentOrder,
    progress: AlgoProgress,
    now_ns: u64,
    cands: Seq<SorRouteCandidate>,
    child_ids: Seq<ChildOrderId>,
    client_ids: Seq<ClientOrderId>,
    ts_recv_ns: u64,
)
    ensures
        spec_sor_plan(
            config,
            cap,
            parent,
            progress,
            now_ns,
            cands,
            child_ids,
            client_ids,
            ts_recv_ns,
        ) matches Ok(t) ==> (t.0.len() > 0 ==> t.2 == spec_unroutable_count(
            parent,
            cands,
            cands.len() as int,
        )),
{
    if let Some(best) = spec_best_sor_price(parent.spec_side(), cands) {
        lemma_sor_rounds_blocked(
            config.spec_weights(),
            parent,
            progress,
            now_ns,
            cands,
            child_ids,
            client_ids,
            ts_recv_ns,
            OrderPrice(best),
            min_int(config.spec_max_route_count() as int, cap as int),
            Seq::empty(),
            0,
            min_int(
                clamp_i64(parent.spec_total_qty().0 - progress.released_qty.0),
                parent.spec_max_clip().0 as int,
            ) as i64,
        );
    }
}

/// Liquidity and price-penalty scores lie between zero and `10_000`.
proof fn lemma_liquidity_penalty_bounds(available: int, target: int, side: OrderSide, price: int, best: int)
    ensures
        0 <= spec_route_liquidity_bps(available, target) <= 10_000,
        0 <= spec_route_price_penalty_bps(side, price, best) <= 10_000,
{
    if available > 0 && target > 0 {
        assert(available * 10_000 / target >= 0) by (nonlinear_arith)
            requires available > 0, target > 0;
    }
    if price > 0 && best > 0 {
        let ticks = match side {
            OrderSide::Buy => price - best,
            OrderSide::Sell => best - price,
        };
        if ticks > 0 {
            assert(ticks * 10_000 / best >= 0) by (nonlinear_arith)
                requires ticks > 0, best > 0;
        }
    }
}

/// Fees are a penalty: two candidates that differ only in their fee score
/// apart by exactly the fee difference times the fee weight, the dearer
/// one lower (every component is bounded, so no step saturates).
pub proof fn law_sor_fee_is_a_penalty(
    weights: SorScoreWeights,
    parent: ParentOrder,
    c: SorRouteCandidate,
    fee_bps: i16,
    best_price: OrderPrice,
)
    requires
        spec_score_route(weights, parent, c, best_price) is Some,
    ensures
        ({
            let d = SorRouteCandidate {
                metrics: SorRouteMetrics { fee_bps, ..c.metrics },
                ..c
            };
            spec_score_route(weights, parent, d, best_price) matches Some(sd) && sd == spec_score_route(
                weights,
                parent,
                c,
                best_price,
            )->Some_0 - (fee_bps - c.metrics.fee_bps) * weights.fee_weight
        }),
{
    let d = SorRouteCandidate { metrics: SorRouteMetrics { fee_bps, ..c.metrics }, ..c };
    let liquidity = spec_route_liquidity_bps(
        c.available_qty.0 as int,
        parent.spec_max_clip().0 as int,
    );
    let penalty = spec_route_price_penalty_bps(parent.spec_side(), c.price.0 as int, best_price.0 as int);
    lemma_liquidity_penalty_bounds(c.available_qty.0 as int, parent.spec_max_clip().0 as int, parent.spec_side(), c.price.0 as int, best_price.0 as int);
    let m = c.metrics;
    let w = weights;
    assert(0 <= m.fill_probability_bps * w.fill_weight <= 0xffff * 0xffff) by (nonlinear_arith)
        requires m.fill_probability_bps <= 0xffff, w.fill_weight <= 0xffff;
    assert(0 <= liquidity * w.liquidity_weight <= 10_000 * 0xffff) by (nonlinear_arith)
        requires 0 <= liquidity <= 10_000, w.liquidity_weight <= 0xffff;
    assert(0 <= m.data_quality_bps * w.data_quality_weight <= 0xffff * 0xffff) by (nonlinear_arith)
        requires m.data_quality_bps <= 0xffff, w.data_quality_weight <= 0xffff;
    assert(0 <= penalty * w.price_weight <= 10_000 * 0xffff) by (nonlinear_arith)
        requires 0 <= penalty <= 10_000, w.price_weight <= 0xffff;
    assert(-0x8000 * 0xffff <= m.fee_bps * w.fee_weight <= 0x7fff * 0xffff) by (nonlinear_arith)
        requires -0x8000 <= m.fee_bps <= 0x7fff, w.fee_weight <= 0xffff;
    assert(-0x8000 * 0xffff <= fee_bps * w.fee_weight <= 0x7fff * 0xffff) by (nonlinear_arith)
        requires -0x8000 <= fee_bps <= 0x7fff, w.fee_weight <= 0xffff;
    assert(0 <= (m.latency_us / 100) * w.latency_weight <= 0xffff_ffff * 0xffff) by (nonlinear_arith)
        requires m.latency_us <= 0xffff_ffff, w.latency_weight <= 0xffff;
    assert(0 <= m.reject_rate_bps * w.reject_weight <= 0xffff * 0xffff) by (nonlinear_arith)
        requires m.reject_rate_bps <= 0xffff, w.reject_weight <= 0xffff;
    assert(0 <= m.toxicity_bps * w.toxicity_weight <= 0xffff * 0xffff) by (nonlinear_arith)
        requires m.toxicity_bps <= 0xffff, w.toxicity_weight <= 0xffff;
    assert(fee_bps * w.fee_weight - m.fee_bps * w.fee_weight == (fee_bps - m.fee_bps) * w.fee_weight)
        by (nonlinear_arith);
    assert(d.status == c.status && d.capability == c.capability && d.available_qty == c.available_qty && d.price == c.price);
}

/// A candidate can be scored exactly when it can be routed, and its score
/// is then the weighted sum of its fill probability, liquidity and data
/// quality, less the weighted price penalty, fee, latency (in units of
/// 100 microseconds), reject rate and toxicity; the sum never saturates.
pub proof fn law_sor_score_is_weighted_sum(
    weights: SorScoreWeights,
    parent: ParentOrder,
    c: SorRouteCandidate,
    best_price: OrderPrice,
)
    ensures
        spec_score_route(weights, parent, c, best_price) is None <==> spec_level_unroutable(
            parent,
            c,
        ),
        !spec_level_unroutable(parent, c) ==> ({
            let m = c.metrics;
            let liquidity = spec_route_liquidity_bps(
                c.available_qty.0 as int,
                parent.spec_max_clip().0 as int,
            );
            let penalty = spec_route_price_penalty_bps(
                parent.spec_side(),
                c.price.0 as int,
                best_price.0 as int,
            );
            spec_score_route(weights, parent, c, best_price)->Some_0 == m.fill_probability_bps
                * weights.fill_weight + liquidity * weights.liquidity_weight + m.data_quality_bps
                * weights.data_quality_weight - penalty * weights.price_weight - m.fee_bps
                * weights.fee_weight - (m.latency_us / 100) * weights.latency_weight
                - m.reject_rate_bps * weights.reject_weight - m.toxicity_bps
                * weights.toxicity_weight
        }),
{
    let liquidity = spec_route_liquidity_bps(
        c.available_qty.0 as int,
        parent.spec_max_clip().0 as int,
    );
    let penalty = spec_route_price_penalty_bps(parent.spec_side(), c.price.0 as int, best_price.0 as int);
    lemma_liquidity_penalty_bounds(c.available_qty.0 as int, parent.spec_max_clip().0 as int, parent.spec_side(), c.price.0 as int, best_price.0 as int);
    let m = c.metrics;
    let w = weights;
    assert(0 <= m.fill_probability_bps * w.fill_weight <= 0xffff * 0xffff) by (nonlinear_arith)
        requires m.fill_probability_bps <= 0xffff, w.fill_weight <= 0xffff;
    assert(0 <= liquidity * w.liquidity_weight <= 10_000 * 0xffff) by (nonlinear_arith)
        requires 0 <= liquidity <= 10_000, w.liquidity_weight <= 0xffff;
    assert(0 <= m.data_quality_bps * w.data_quality_weight <= 0xffff * 0xffff) by (nonlinear_arith)
        requires m.data_quality_bps <= 0xffff, w.data_quality_weight <= 0xffff;
    assert(0 <= penalty * w.price_weight <= 10_000 * 0xffff) by (nonlinear_arith)
        requires 0 <= penalty <= 10_000, w.price_weight <= 0xffff;
    assert(-0x8000 * 0xffff <= m.fee_bps * w.fee_weight <= 0x7fff * 0xffff) by (nonlinear_arith)
        requires -0x8000 <= m.fee_bps <= 0x7fff, w.fee_weight <= 0xffff;
    assert(0 <= (m.latency_us / 100) * w.latency_weight <= 0xffff_ffff * 0xffff) by (nonlinear_arith)
        requires m.latency_us <= 0xffff_ffff, w.latency_weight <= 0xffff;
    assert(0 <= m.reject_rate_bps * w.reject_weight <= 0xffff * 0xffff) by (nonlinear_arith)
        requires m.reject_rate_bps <= 0xffff, w.reject_weight <= 0xffff;
    assert(0 <= m.toxicity_bps * w.toxicity_weight <= 0xffff * 0xffff) by (nonlinear_arith)
        requires m.toxicity_bps <= 0xffff, w.toxicity_weight <= 0xffff;
}

/// Route selection takes the best score: scanning the first `k`
/// candidates yields one that is untaken and scores exactly the reported
/// best score, and no untaken candidate among them scores higher (the
/// first of equal best scores wins; with none chosen, the reported score
/// stays the lowest possible).
pub proof fn law_sor_scan_picks_best_score(
    weights: SorScoreWeights,
    parent: ParentOrder,
    best_price: OrderPrice,
    cands: Seq<SorRouteCandidate>,
    allocs: Seq<SorChildAllocation>,
    k: int,
    blocked: usize,
)
    requires
        0 <= k <= cands.len(),
    ensures
        ({
            let (bi, bs, _bl) = spec_sor_scan(weights, parent, best_price, cands, allocs, k, blocked);
            &&& bi is None ==> bs == i64::MIN
            &&& bi matches Some(i) ==> (0 <= i < k && !spec_route_taken(allocs, cands[i].route_id)
                && spec_score_route(weights, parent, cands[i], best_price) == Some(bs))
            &&& forall|j: int|
                0 <= j < k && !spec_route_taken(allocs, cands[j].route_id) && (
                #[trigger] spec_score_route(weights, parent, cands[j], best_price)) is Some
                    ==> spec_score_route(weights, parent, cands[j], best_price)->Some_0 <= bs
            &&& forall|j: int|
                0 <= j < k && !spec_route_taken(allocs, cands[j].route_id) && (bi matches Some(
                    i,
                ) && j < i) ==> !(#[trigger] spec_score_route(
                    weights,
                    parent,
                    cands[j],
                    best_price,
                ) == Some(bs))
        }),
    decreases k,
{
    if k > 0 {
        law_sor_scan_picks_best_score(weights, parent, best_price, cands, allocs, k - 1, blocked);
    }
}

} // verus!
