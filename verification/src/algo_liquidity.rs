//! Liquidity-seeking route selection: probes and liquidity-taking children
//! across venues, scored on top of smart-order-router scores.

use vstd::prelude::*;
use crate::algo_model::{
    spec_child_request, AlgoError, AlgoProgress, ChildOrderId, ChildOrderPlan, ChildOrderStatus,
    ParentOrder,
};
use crate::algo_slicing::{plan_gate, spec_plan_gate};
use crate::algo_sor::{
    spec_sat_inc, spec_score_route, weighted, SorConfig, SorPlanner, SorRouteCandidate, SorRouteStatus,
};
use crate::arith::{clamp_i64, min_int, sat_add_i64, sat_sub_i64};
use crate::ids::{ClientOrderId, RouteId};
use crate::orders::{OrderPrice, OrderQty, OrderSide};

verus! {


broadcast use {
    crate::algo_model::group_parent_order,
    crate::algo_model::group_child_plan,
};

/// Liquidity-seeking action selected for one route.
#[derive(Debug, Clone, Copy, PartialEq, Eq, Hash, Structural)]
#[non_exhaustive]
pub enum LiquiditySeekingAction {
    /// Skip the route for this decision.
    Skip,
    /// Send a small probe child order.
    Probe,
    /// Send a larger liquidity-taking child order.
    Take,
}

impl LiquiditySeekingAction {
    /// Returns true when this action releases a child order.
    pub fn releases_child(self) -> (r: bool)
        ensures
            r == (self != LiquiditySeekingAction::Skip),
    {
        match self {
            LiquiditySeekingAction::Skip => false,
            _ => true,
        }
    }

    /// Wire code of the action (skip 1, probe 2, take 3).
    pub fn code(self) -> (r: u8)
        ensures
            r == (match self {
                LiquiditySeekingAction::Skip => 1u8,
                LiquiditySeekingAction::Probe => 2u8,
                LiquiditySeekingAction::Take => 3u8,
            }),
    {
        match self {
            LiquiditySeekingAction::Skip => 1,
            LiquiditySeekingAction::Probe => 2,
            LiquiditySeekingAction::Take => 3,
        }
    }
}

/// Liquidity-seeking candidate derived from a routable venue.
#[derive(Debug, Clone, Copy, PartialEq, Eq)]
pub struct LiquiditySeekingCandidate {
    /// Embedded route candidate.
    pub route: SorRouteCandidate,
    /// Hidden-liquidity estimate in basis points.
    pub hidden_liquidity_bps: u16,
    /// Price-improvement estimate in basis points.
    pub price_improvement_bps: u16,
    /// Minimum executable quantity requirement.
    pub minimum_quantity: OrderQty,
}

impl LiquiditySeekingCandidate {
    /// Creates a candidate; a basis-point estimate above `10_000` or a
    /// negative minimum quantity is `InvalidLiquiditySeekingParameters`.
    pub fn new(
        route: SorRouteCandidate,
        hidden_liquidity_bps: u16,
        price_improvement_bps: u16,
        minimum_quantity: OrderQty,
    ) -> (r: Result<Self, AlgoError>)
        ensures
            if hidden_liquidity_bps > 10_000 || price_improvement_bps > 10_000
                || minimum_quantity.0 < 0 {
                r == Err::<Self, AlgoError>(AlgoError::InvalidLiquiditySeekingParameters)
            } else {
                r == Ok::<Self, AlgoError>(
                    LiquiditySeekingCandidate {
                        route,
                        hidden_liquidity_bps,
                        price_improvement_bps,
                        minimum_quantity,
                    },
                )
            },
    {
        if hidden_liquidity_bps > 10_000 || price_improvement_bps > 10_000 || minimum_quantity.0
            < 0 {
            return Err(AlgoError::InvalidLiquiditySeekingParameters);
        }
        Ok(Self { route, hidden_liquidity_bps, price_improvement_bps, minimum_quantity })
    }

    /// Returns embedded SOR route candidate.
    pub fn route(&self) -> (r: SorRouteCandidate)
        ensures
            r == self.route,
    {
        self.route
    }

    /// Returns hidden-liquidity estimate in basis points.
    pub fn hidden_liquidity_bps(&self) -> (r: u16)
        ensures
            r == self.hidden_liquidity_bps,
    {
        self.hidden_liquidity_bps
    }

    /// Returns price-improvement estimate in basis points.
    pub fn price_improvement_bps(&self) -> (r: u16)
        ensures
            r == self.price_improvement_bps,
    {
        self.price_improvement_bps
    }

    /// Returns minimum executable quantity requirement.
    pub fn minimum_quantity(&self) -> (r: OrderQty)
        ensures
            r == self.minimum_quantity,
    {
        self.minimum_quantity
    }
}

/// Configuration for liquidity-seeking route selection.
#[derive(Debug, Clone, Copy, PartialEq, Eq)]
pub struct LiquiditySeekingConfig {
    /// Maximum route allocations per decision.
    pub max_routes: usize,
    /// Probe child quantity.
    pub probe_qty: OrderQty,
    /// Minimum score required for route selection.
    pub min_score: i64,
    /// Fill-probability threshold for take behavior.
    pub sweep_fill_probability_bps: u16,
    /// Maximum tolerated venue toxicity.
    pub max_toxicity_bps: u16,
    /// Hidden-liquidity score weight.
    pub hidden_liquidity_weight: u16,
    /// Price-improvement score weight.
    pub price_improvement_weight: u16,
}

impl LiquiditySeekingConfig {
    /// Creates a configuration; no routes, a non-positive probe or a
    /// threshold above `10_000` is `InvalidLiquiditySeekingParameters`.
    pub fn new(
        max_routes: usize,
        probe_qty: OrderQty,
        min_score: i64,
        sweep_fill_probability_bps: u16,
        max_toxicity_bps: u16,
        hidden_liquidity_weight: u16,
        price_improvement_weight: u16,
    ) -> (r: Result<Self, AlgoError>)
        ensures
            if max_routes == 0 || probe_qty.0 <= 0 || sweep_fill_probability_bps > 10_000
                || max_toxicity_bps > 10_000 {
                r == Err::<Self, AlgoError>(AlgoError::InvalidLiquiditySeekingParameters)
            } else {
                r == Ok::<Self, AlgoError>(
                    LiquiditySeekingConfig {
                        max_routes,
                        probe_qty,
                        min_score,
                        sweep_fill_probability_bps,
                        max_toxicity_bps,
                        hidden_liquidity_weight,
                        price_improvement_weight,
                    },
                )
            },
    {
        if max_routes == 0 || probe_qty.0 <= 0 || sweep_fill_probability_bps > 10_000
            || max_toxicity_bps > 10_000 {
            return Err(AlgoError::InvalidLiquiditySeekingParameters);
        }
        Ok(
            Self {
                max_routes,
                probe_qty,
                min_score,
                sweep_fill_probability_bps,
                max_toxicity_bps,
                hidden_liquidity_weight,
                price_improvement_weight,
            },
        )
    }

    /// Returns maximum route allocations per decision.
    pub fn max_routes(&self) -> (r: usize)
        ensures
            r == self.max_routes,
    {
        self.max_routes
    }

    /// Returns probe child quantity.
    pub fn probe_qty(&self) -> (r: OrderQty)
        ensures
            r == self.probe_qty,
    {
        self.probe_qty
    }

    /// Returns minimum score required for route selection.
    pub fn min_score(&self) -> (r: i64)
        ensures
            r == self.min_score,
    {
        self.min_score
    }

    /// Returns fill-probability threshold for take behavior.
    pub fn sweep_fill_probability_bps(&self) -> (r: u16)
        ensures
            r == self.sweep_fill_probability_bps,
    {
        self.sweep_fill_probability_bps
    }

    /// Returns maximum tolerated venue toxicity.
    pub fn max_toxicity_bps(&self) -> (r: u16)
        ensures
            r == self.max_toxicity_bps,
    {
        self.max_toxicity_bps
    }

    /// Returns hidden-liquidity score weight.
    pub fn hidden_liquidity_weight(&self) -> (r: u16)
        ensures
            r == self.hidden_liquidity_weight,
    {
        self.hidden_liquidity_weight
    }

    /// Returns price-improvement score weight.
    pub fn price_improvement_weight(&self) -> (r: u16)
        ensures
            r == self.price_improvement_weight,
    {
        self.price_improvement_weight
    }
}

impl Default for LiquiditySeekingConfig {
    fn default() -> (r: Self)
        ensures
            r == (LiquiditySeekingConfig {
                max_routes: 4,
                probe_qty: OrderQty(1),
                min_score: 0,
                sweep_fill_probability_bps: 7_500,
                max_toxicity_bps: 1_500,
                hidden_liquidity_weight: 3,
                price_improvement_weight: 4,
            }),
    {
        Self {
            max_routes: 4,
            probe_qty: OrderQty(1),
            min_score: 0,
            sweep_fill_probability_bps: 7_500,
            max_toxicity_bps: 1_500,
            hidden_liquidity_weight: 3,
            price_improvement_weight: 4,
        }
    }
}

/// One liquidity-seeking allocation.
#[derive(Debug, Clone, Copy, PartialEq, Eq)]
pub struct LiquiditySeekingAllocation {
    /// Selected action.
    pub action: LiquiditySeekingAction,
    /// Route score.
    pub score: i64,
    /// Planned child order.
    pub plan: ChildOrderPlan,
}

impl LiquiditySeekingAllocation {
    /// Returns selected action.
    pub fn action(&self) -> (r: LiquiditySeekingAction)
        ensures
            r == self.action,
    {
        self.action
    }

    /// Returns route score.
    pub fn score(&self) -> (r: i64)
        ensures
            r == self.score,
    {
        self.score
    }

    /// Returns planned child order.
    pub fn plan(&self) -> (r: ChildOrderPlan)
        ensures
            r == self.plan,
    {
        self.plan
    }
}

/// Fixed-capacity liquidity-seeking decision holding at most `N`
/// allocations.
#[derive(Debug, PartialEq, Eq)]
pub struct LiquiditySeekingDecision<const N: usize> {
    allocations: Vec<LiquiditySeekingAllocation>,
    considered_routes: usize,
    skipped_routes: usize,
}

impl<const N: usize> LiquiditySeekingDecision<N> {
    #[verifier::type_invariant]
    spec fn inv(&self) -> bool {
        self.allocations@.len() <= N
    }

    /// Allocations in selected order.
    pub closed spec fn spec_allocations(&self) -> Seq<LiquiditySeekingAllocation> {
        self.allocations@
    }

    /// Number of considered candidates.
    pub closed spec fn spec_considered(&self) -> usize {
        self.considered_routes
    }

    /// Number of skipped candidates.
    pub closed spec fn spec_skipped(&self) -> usize {
        self.skipped_routes
    }

    /// Creates an empty decision over `considered_routes` candidates.
    pub fn new(considered_routes: usize) -> (r: Self)
        ensures
            r.spec_allocations().len() == 0,
            r.spec_considered() == considered_routes,
            r.spec_skipped() == 0,
    {
        Self { allocations: Vec::new(), considered_routes, skipped_routes: 0 }
    }

    /// Returns allocation count.
    pub fn len(&self) -> (r: usize)
        ensures
            r == self.spec_allocations().len(),
            r <= N,
    {
        proof {
            use_type_invariant(self);
        }
        self.allocations.len()
    }

    /// Returns true when no allocations were produced.
    pub fn is_empty(&self) -> (r: bool)
        ensures
            r == (self.spec_allocations().len() == 0),
    {
        self.allocations.len() == 0
    }

    /// Returns number of route candidates considered.
    pub fn considered_routes(&self) -> (r: usize)
        ensures
            r == self.spec_considered(),
    {
        self.considered_routes
    }

    /// Returns number of skipped route candidates.
    pub fn skipped_routes(&self) -> (r: usize)
        ensures
            r == self.spec_skipped(),
    {
        self.skipped_routes
    }

    /// Iterates over the allocations in selected order.
    pub fn allocations(&self) -> (r: std::slice::Iter<'_, LiquiditySeekingAllocation>)
        ensures
            vstd::std_specs::iter::IteratorSpec::remaining(&r) == self.spec_allocations().as_ref(),
    {
        broadcast use vstd::std_specs::slice::axiom_spec_slice_iter;

        self.allocations.as_slice().iter()
    }

    /// Returns the allocations as a slice.
    pub fn allocation_list(&self) -> (r: &[LiquiditySeekingAllocation])
        ensures
            r@ == self.spec_allocations(),
    {
        self.allocations.as_slice()
    }

    fn push(&mut self, allocation: LiquiditySeekingAllocation)
        requires
            old(self).spec_allocations().len() < N,
        ensures
            final(self).spec_allocations() == old(self).spec_allocations().push(allocation),
            final(self).spec_considered() == old(self).spec_considered(),
            final(self).spec_skipped() == old(self).spec_skipped(),
    {
        let mut allocations: Vec<LiquiditySeekingAllocation> = Vec::new();
        std::mem::swap(&mut allocations, &mut self.allocations);
        allocations.push(allocation);
        self.allocations = allocations;
    }

    fn mark_skipped(&mut self)
        ensures
            final(self).spec_allocations() == old(self).spec_allocations(),
            final(self).spec_considered() == old(self).spec_considered(),
            final(self).spec_skipped() == spec_sat_inc(old(self).spec_skipped()),
    {
        proof {
            use_type_invariant(&*self);
        }
        self.skipped_routes = self.skipped_routes.saturating_add(1);
    }
}

/// Best routable price among the candidates' routes (lowest to buy,
/// highest to sell).
pub open spec fn spec_best_liquidity_price(
    side: OrderSide,
    cands: Seq<LiquiditySeekingCandidate>,
) -> Option<i64>
    decreases cands.len(),
{
    if cands.len() == 0 {
        None
    } else {
        let prev = spec_best_liquidity_price(side, cands.drop_last());
        let c = cands.last().route;
        if c.status != SorRouteStatus::Available || c.price.0 <= 0 || c.available_qty.0 <= 0 {
            prev
        } else {
            match prev {
                None => Some(c.price.0),
                Some(best) => Some(
                    match side {
                        OrderSide::Buy => min_int(best as int, c.price.0 as int) as i64,
                        OrderSide::Sell => if best >= c.price.0 {
                            best
                        } else {
                            c.price.0
                        },
                    },
                ),
            }
        }
    }
}

/// Best routable price of the candidates.
pub fn best_liquidity_price(side: OrderSide, candidates: &[LiquiditySeekingCandidate]) -> (r:
    Option<OrderPrice>)
    ensures
        match spec_best_liquidity_price(side, candidates@) {
            None => r is None,
            Some(p) => r == Some(OrderPrice(p)),
        },
{
    let mut best: Option<i64> = None;
    let mut i: usize = 0;
    while i < candidates.len()
        invariant
            i <= candidates@.len(),
            best == spec_best_liquidity_price(side, candidates@.take(i as int)),
        decreases candidates@.len() - i,
    {
        proof {
            assert(candidates@.take(i as int + 1).drop_last() =~= candidates@.take(i as int));
        }
        let c = candidates[i].route;
        if c.status.is_routable() && c.price.0 > 0 && c.available_qty.0 > 0 {
            best = match best {
                None => Some(c.price.0),
                Some(current) => Some(
                    match side {
                        OrderSide::Buy => if current <= c.price.0 {
                            current
                        } else {
                            c.price.0
                        },
                        OrderSide::Sell => if current >= c.price.0 {
                            current
                        } else {
                            c.price.0
                        },
                    },
                ),
            };
        }
        i = i + 1;
    }
    proof {
        assert(candidates@.take(i as int) =~= candidates@);
    }
    match best {
        None => None,
        Some(p) => Some(OrderPrice(p)),
    }
}

/// Some allocation already routes to `route`.
pub open spec fn spec_liquidity_route_taken(
    allocs: Seq<LiquiditySeekingAllocation>,
    route: RouteId,
) -> bool {
    exists|i: int| 0 <= i < allocs.len() && (#[trigger] allocs[i]).plan.spec_request().route_id@ == route@
}

/// Returns true when the decision already routes to `route_id`.
pub fn liquidity_decision_has_route<const N: usize>(
    decision: &LiquiditySeekingDecision<N>,
    route_id: &RouteId,
) -> (r: bool)
    ensures
        r == spec_liquidity_route_taken(decision.spec_allocations(), *route_id),
{
    let list = decision.allocation_list();
    let mut i: usize = 0;
    while i < list.len()
        invariant
            i <= list@.len(),
            list@ == decision.spec_allocations(),
            forall|j: int| 0 <= j < i ==> (#[trigger] list@[j]).plan.spec_request().route_id@ != route_id@,
        decreases list@.len() - i,
    {
        if list[i].plan.request().route_id.same_text(route_id) {
            return true;
        }
        i = i + 1;
    }
    false
}

/// Candidate score: `None` for a toxic route, one offering less than its
/// minimum quantity, or one the router will not score; else the router
/// score plus the weighted hidden-liquidity and price-improvement
/// estimates, saturating.
pub open spec fn spec_score_candidate(
    config: LiquiditySeekingConfig,
    sor_config: SorConfig,
    parent: ParentOrder,
    c: LiquiditySeekingCandidate,
    best_price: OrderPrice,
) -> Option<i64> {
    if c.route.metrics.toxicity_bps > config.max_toxicity_bps || c.route.available_qty.0
        < c.minimum_quantity.0 {
        None
    } else {
        match spec_score_route(sor_config.spec_weights(), parent, c.route, best_price) {
            None => None,
            Some(s) => {
                let s1 = clamp_i64(s + c.hidden_liquidity_bps * config.hidden_liquidity_weight);
                Some(
                    clamp_i64(s1 + c.price_improvement_bps * config.price_improvement_weight) as i64,
                )
            },
        }
    }
}

/// Scan of the first `k` candidates for the best untaken route scoring at
/// least the minimum score, with the skipped count raised for each untaken
/// unscored candidate while nothing is allocated.
pub open spec fn spec_liquidity_scan(
    config: LiquiditySeekingConfig,
    sor_config: SorConfig,
    parent: ParentOrder,
    best_price: OrderPrice,
    cands: Seq<LiquiditySeekingCandidate>,
    allocs: Seq<LiquiditySeekingAllocation>,
    k: int,
    skipped: usize,
) -> (Option<int>, i64, usize)
    decreases k,
{
    if k <= 0 {
        (None, i64::MIN, skipped)
    } else {
        let (bi, bs, sk) = spec_liquidity_scan(
            config,
            sor_config,
            parent,
            best_price,
            cands,
            allocs,
            k - 1,
            skipped,
        );
        let c = cands[k - 1];
        if spec_liquidity_route_taken(allocs, c.route.route_id) {
            (bi, bs, sk)
        } else {
            match spec_score_candidate(config, sor_config, parent, c, best_price) {
                None => (bi, bs, if allocs.len() == 0 {
                    spec_sat_inc(sk)
                } else {
                    sk
                }),
                Some(s) => if s >= config.min_score && s > bs {
                    (Some(k - 1), s, sk)
                } else {
                    (bi, bs, sk)
                },
            }
        }
    }
}

/// Take when the route's fill probability reaches the threshold, else probe.
pub open spec fn spec_liquidity_action(
    config: LiquiditySeekingConfig,
    c: LiquiditySeekingCandidate,
) -> LiquiditySeekingAction {
    if c.route.metrics.fill_probability_bps >= config.sweep_fill_probability_bps {
        LiquiditySeekingAction::Take
    } else {
        LiquiditySeekingAction::Probe
    }
}

/// Allocation rounds: while quantity is left and the route limit is not
/// reached, send the best route a take (its whole offer) or a probe, within
/// what is left; a child below the minimum clip on a slice that is not
/// final is skipped and ends the rounds, as does a non-positive quantity.
pub open spec fn spec_liquidity_rounds(
    config: LiquiditySeekingConfig,
    sor_config: SorConfig,
    cap: usize,
    parent: ParentOrder,
    progress: AlgoProgress,
    now_ns: u64,
    cands: Seq<LiquiditySeekingCandidate>,
    child_ids: Seq<ChildOrderId>,
    client_ids: Seq<ClientOrderId>,
    ts_recv_ns: u64,
    best_price: OrderPrice,
    limit: int,
    allocs: Seq<LiquiditySeekingAllocation>,
    skipped: usize,
    leaves: i64,
) -> Result<(Seq<LiquiditySeekingAllocation>, usize, i64), AlgoError>
    decreases limit - allocs.len(),
{
    if leaves <= 0 || allocs.len() >= limit {
        Ok((allocs, skipped, leaves))
    } else {
        let (bi, bs, sk) = spec_liquidity_scan(
            config,
            sor_config,
            parent,
            best_price,
            cands,
            allocs,
            cands.len() as int,
            skipped,
        );
        match bi {
            None => Ok((allocs, sk, leaves)),
            Some(i) => if allocs.len() == cap {
                Err(AlgoError::DecisionFull { capacity: cap })
            } else {
                let c = cands[i];
                let action = spec_liquidity_action(config, c);
                let desired = if action == LiquiditySeekingAction::Take {
                    c.route.available_qty.0
                } else {
                    config.probe_qty.0
                };
                let qty = min_int(
                    min_int(desired as int, c.route.available_qty.0 as int),
                    leaves as int,
                );
                let final_slice = clamp_i64(progress.released_qty.0 + qty) >= parent.spec_total_qty().0
                    || now_ns >= parent.spec_end_ns();
                if qty < parent.spec_min_clip().0 && !final_slice {
                    Ok((allocs, spec_sat_inc(sk), leaves))
                } else if qty <= 0 {
                    Ok((allocs, sk, leaves))
                } else {
                    let request = spec_child_request(
                        parent,
                        c.route.route_id,
                        parent.spec_side(),
                        client_ids[allocs.len() as int],
                        OrderQty(qty as i64),
                        c.route.price,
                        ts_recv_ns,
                    );
                    match request.spec_validate() {
                        Err(e) => Err(AlgoError::Core(e)),
                        Ok(_) => spec_liquidity_rounds(
                            config,
                            sor_config,
                            cap,
                            parent,
                            progress,
                            now_ns,
                            cands,
                            child_ids,
                            client_ids,
                            ts_recv_ns,
                            best_price,
                            limit,
                            allocs.push(
                                LiquiditySeekingAllocation {
                                    action,
                                    score: bs,
                                    plan: ChildOrderPlan::spec_from_parts(
                                        child_ids[allocs.len() as int],
                                        parent.spec_id(),
                                        request,
                                        now_ns,
                                        ChildOrderStatus::Planned,
                                    ),
                                },
                            ),
                            sk,
                            clamp_i64(leaves - qty) as i64,
                        ),
                    }
                }
            },
        }
    }
}

/// The liquidity-seeking plan: allocations, considered and skipped counts,
/// or an error.
pub open spec fn spec_liquidity_plan(
    config: LiquiditySeekingConfig,
    sor_config: SorConfig,
    cap: usize,
    parent: ParentOrder,
    progress: AlgoProgress,
    now_ns: u64,
    cands: Seq<LiquiditySeekingCandidate>,
    child_ids: Seq<ChildOrderId>,
    client_ids: Seq<ClientOrderId>,
    ts_recv_ns: u64,
) -> Result<(Seq<LiquiditySeekingAllocation>, usize, usize), AlgoError> {
    match spec_plan_gate(parent, progress) {
        Err(e) => Err(e),
        Ok(_) => if child_ids.len() < cap || client_ids.len() < cap {
            Err(AlgoError::InvalidLiquiditySeekingParameters)
        } else if now_ns < parent.spec_start_ns() || progress.completed_qty.0 >= progress.target_qty.0
            || cands.len() == 0 {
            Ok((Seq::empty(), cands.len() as usize, 0))
        } else {
            match spec_best_liquidity_price(parent.spec_side(), cands) {
                None => Ok((Seq::empty(), cands.len() as usize, 0)),
                Some(best) => match spec_liquidity_rounds(
                    config,
                    sor_config,
                    cap,
                    parent,
                    progress,
                    now_ns,
                    cands,
                    child_ids,
                    client_ids,
                    ts_recv_ns,
                    OrderPrice(best),
                    min_int(config.max_routes as int, cap as int),
                    Seq::empty(),
                    0,
                    min_int(
                        clamp_i64(parent.spec_total_qty().0 - progress.released_qty.0),
                        parent.spec_max_clip().0 as int,
                    ) as i64,
                ) {
                    Err(e) => Err(e),
                    Ok((allocs, skipped, _left)) => Ok((allocs, cands.len() as usize, skipped)),
                },
            }
        },
    }
}

/// Deterministic liquidity-seeking planner.
#[derive(Debug, Clone, Copy, PartialEq, Eq)]
pub struct LiquiditySeekingPlanner {
    /// Planner configuration.
    pub config: LiquiditySeekingConfig,
    /// Router used for the base route score.
    pub sor: SorPlanner,
}

impl LiquiditySeekingPlanner {
    /// Creates a liquidity-seeking planner.
    pub fn new(config: LiquiditySeekingConfig, sor_config: SorConfig) -> (r: Self)
        ensures
            r.config == config,
            r.sor.config == sor_config,
    {
        Self { config, sor: SorPlanner::new(sor_config) }
    }

    /// Returns planner configuration.
    pub fn config(&self) -> (r: LiquiditySeekingConfig)
        ensures
            r == self.config,
    {
        self.config
    }

    /// Scores one liquidity-seeking candidate; higher is preferred.
    pub fn score_candidate(
        &self,
        parent: &ParentOrder,
        candidate: LiquiditySeekingCandidate,
        best_price: OrderPrice,
    ) -> (r: Option<i64>)
        ensures
            r == spec_score_candidate(self.config, self.sor.config, *parent, candidate, best_price),
    {
        if candidate.route.metrics.toxicity_bps > self.config.max_toxicity_bps
            || candidate.route.available_qty.0 < candidate.minimum_quantity.0 {
            return None;
        }
        let base = match self.sor.score_route(parent, candidate.route, best_price) {
            None => {
                return None;
            },
            Some(s) => s,
        };
        let hidden = weighted(
            candidate.hidden_liquidity_bps as i64,
            self.config.hidden_liquidity_weight,
        );
        let improvement = weighted(
            candidate.price_improvement_bps as i64,
            self.config.price_improvement_weight,
        );
        let score = sat_add_i64(base, hidden);
        Some(sat_add_i64(score, improvement))
    }

    fn scan<const N: usize>(
        &self,
        parent: &ParentOrder,
        candidates: &[LiquiditySeekingCandidate],
        best_price: OrderPrice,
        decision: &mut LiquiditySeekingDecision<N>,
    ) -> (r: (Option<usize>, i64))
        ensures
            ({
                let (bi, bs, sk) = spec_liquidity_scan(
                    self.config,
                    self.sor.config,
                    *parent,
                    best_price,
                    candidates@,
                    old(decision).spec_allocations(),
                    candidates@.len() as int,
                    old(decision).spec_skipped(),
                );
                &&& final(decision).spec_allocations() == old(decision).spec_allocations()
                &&& final(decision).spec_considered() == old(decision).spec_considered()
                &&& final(decision).spec_skipped() == sk
                &&& r.1 == bs
                &&& match bi {
                    None => r.0 is None,
                    Some(i) => r.0 == Some(i as usize),
                }
                &&& (bi matches Some(i) ==> 0 <= i < candidates@.len())
            }),
    {
        let ghost allocs = decision.spec_allocations();
        let ghost skipped0 = decision.spec_skipped();
        let mut best_index: Option<usize> = None;
        let mut best_score: i64 = i64::MIN;
        let mut index: usize = 0;
        while index < candidates.len()
            invariant
                index <= candidates@.len(),
                decision.spec_allocations() == allocs,
                decision.spec_considered() == old(decision).spec_considered(),
                allocs == old(decision).spec_allocations(),
                skipped0 == old(decision).spec_skipped(),
                ({
                    let (bi, bs, sk) = spec_liquidity_scan(
                        self.config,
                        self.sor.config,
                        *parent,
                        best_price,
                        candidates@,
                        allocs,
                        index as int,
                        skipped0,
                    );
                    &&& decision.spec_skipped() == sk
                    &&& best_score == bs
                    &&& match bi {
                        None => best_index is None,
                        Some(i) => best_index == Some(i as usize),
                    }
                    &&& (bi matches Some(i) ==> 0 <= i < index)
                }),
            decreases candidates@.len() - index,
        {
            let candidate = candidates[index];
            if !liquidity_decision_has_route(decision, &candidate.route.route_id) {
                match self.score_candidate(parent, candidate, best_price) {
                    None => {
                        if decision.is_empty() {
                            decision.mark_skipped();
                        }
                    },
                    Some(score) => {
                        if score >= self.config.min_score && score > best_score {
                            best_score = score;
                            best_index = Some(index);
                        }
                    },
                }
            }
            index = index + 1;
        }
        (best_index, best_score)
    }

    /// Plans route probes or larger liquidity-taking child orders, using the
    /// caller's identifiers in order; at least `N` of each must be supplied.
    #[allow(clippy::too_many_arguments)]
    pub fn plan_liquidity<const N: usize>(
        &self,
        parent: &ParentOrder,
        progress: AlgoProgress,
        now_ns: u64,
        candidates: &[LiquiditySeekingCandidate],
        child_ids: &[ChildOrderId],
        client_order_ids: &[ClientOrderId],
        ts_recv_ns: u64,
    ) -> (r: Result<LiquiditySeekingDecision<N>, AlgoError>)
        ensures
            match spec_liquidity_plan(
                self.config,
                self.sor.config,
                N,
                *parent,
                progress,
                now_ns,
                candidates@,
                child_ids@,
                client_order_ids@,
                ts_recv_ns,
            ) {
                Err(e) => r == Err::<LiquiditySeekingDecision<N>, AlgoError>(e),
                Ok((allocs, considered, skipped)) => r matches Ok(d) && d.spec_allocations()
                    == allocs && d.spec_considered() == considered && d.spec_skipped() == skipped,
            },
    {
        match plan_gate(parent, &progress) {
            Err(e) => {
                return Err(e);
            },
            Ok(()) => {},
        }
        if child_ids.len() < N || client_order_ids.len() < N {
            return Err(AlgoError::InvalidLiquiditySeekingParameters);
        }
        if now_ns < parent.start_ns() || progress.is_complete() || candidates.len() == 0 {
            return Ok(LiquiditySeekingDecision::new(candidates.len()));
        }
        let mut decision = LiquiditySeekingDecision::<N>::new(candidates.len());
        let unreleased = sat_sub_i64(parent.total_qty().0, progress.released_qty.0);
        let mut leaves = if unreleased <= parent.max_clip().0 {
            unreleased
        } else {
            parent.max_clip().0
        };
        let route_limit = if self.config.max_routes <= N {
            self.config.max_routes
        } else {
            N
        };
        let best_price = match best_liquidity_price(parent.side(), candidates) {
            None => {
                return Ok(decision);
            },
            Some(p) => p,
        };
        proof {
            assert(decision.spec_allocations() =~= Seq::<LiquiditySeekingAllocation>::empty());
        }
        let ghost target = spec_liquidity_rounds(
            self.config,
            self.sor.config,
            N,
            *parent,
            progress,
            now_ns,
            candidates@,
            child_ids@,
            client_order_ids@,
            ts_recv_ns,
            best_price,
            route_limit as int,
            Seq::empty(),
            0,
            leaves,
        );
        loop
            invariant_except_break
                target == spec_liquidity_rounds(
                    self.config,
                    self.sor.config,
                    N,
                    *parent,
                    progress,
                    now_ns,
                    candidates@,
                    child_ids@,
                    client_order_ids@,
                    ts_recv_ns,
                    best_price,
                    route_limit as int,
                    decision.spec_allocations(),
                    decision.spec_skipped(),
                    leaves,
                ),
            invariant
                spec_liquidity_plan(
                    self.config,
                    self.sor.config,
                    N,
                    *parent,
                    progress,
                    now_ns,
                    candidates@,
                    child_ids@,
                    client_order_ids@,
                    ts_recv_ns,
                ) == (match target {
                    Err(e) => Err(e),
                    Ok((a, b, _l)) => Ok((a, candidates@.len() as usize, b)),
                }),
                route_limit <= N,
                N <= child_ids@.len(),
                N <= client_order_ids@.len(),
                decision.spec_allocations().len() <= route_limit,
                decision.spec_considered() == candidates@.len(),
            ensures
                target == Ok::<(Seq<LiquiditySeekingAllocation>, usize, i64), AlgoError>(
                    (decision.spec_allocations(), decision.spec_skipped(), leaves),
                ),
            decreases route_limit - decision.spec_allocations().len(),
        {
            if leaves <= 0 || decision.len() >= route_limit {
                break;
            }
            let (best_index, best_score) = self.scan(parent, candidates, best_price, &mut decision);
            let index = match best_index {
                None => {
                    break;
                },
                Some(i) => i,
            };
            if decision.len() == N {
                return Err(AlgoError::DecisionFull { capacity: N });
            }
            let candidate = candidates[index];
            let take = candidate.route.metrics.fill_probability_bps
                >= self.config.sweep_fill_probability_bps;
            let action = if take {
                LiquiditySeekingAction::Take
            } else {
                LiquiditySeekingAction::Probe
            };
            let desired = if take {
                candidate.route.available_qty.0
            } else {
                self.config.probe_qty.0
            };
            let offered = if desired <= candidate.route.available_qty.0 {
                desired
            } else {
                candidate.route.available_qty.0
            };
            let qty = if offered <= leaves {
                offered
            } else {
                leaves
            };
            let final_slice = sat_add_i64(progress.released_qty.0, qty) >= parent.total_qty().0
                || now_ns >= parent.end_ns();
            if qty < parent.min_clip().0 && !final_slice {
                decision.mark_skipped();
                break;
            }
            if qty <= 0 {
                break;
            }
            let slot = decision.len();
            let request = parent.build_order_request_for_route_at_price(
                candidate.route.route_id,
                client_order_ids[slot],
                OrderQty(qty),
                candidate.route.price,
                ts_recv_ns,
            );
            let plan = match ChildOrderPlan::new(child_ids[slot], parent.id(), request, now_ns) {
                Err(e) => {
                    return Err(e);
                },
                Ok(plan) => plan,
            };
            decision.push(LiquiditySeekingAllocation { action, score: best_score, plan });
            leaves = sat_sub_i64(leaves, qty);
        }
        Ok(decision)
    }
}

/// Total quantity of the allocations.
pub open spec fn spec_liquidity_allocated_qty(allocs: Seq<LiquiditySeekingAllocation>) -> int
    decreases allocs.len(),
{
    if allocs.len() == 0 {
        0
    } else {
        spec_liquidity_allocated_qty(allocs.drop_last()) + allocs.last().plan.spec_request().quantity.0
    }
}

/// No route is allocated twice.
pub open spec fn spec_liquidity_routes_distinct(allocs: Seq<LiquiditySeekingAllocation>) -> bool {
    forall|i: int, j: int|
        0 <= i < j < allocs.len() ==> (#[trigger] allocs[i]).plan.spec_request().route_id@
            != (#[trigger] allocs[j]).plan.spec_request().route_id@
}

/// What the allocation rounds keep: distinct routes, positive quantities,
/// and the quantity left plus the quantity allocated equal to the start.
pub open spec fn spec_liquidity_rounds_inv(
    allocs: Seq<LiquiditySeekingAllocation>,
    leaves: i64,
    start: int,
) -> bool {
    &&& spec_liquidity_routes_distinct(allocs)
    &&& forall|i: int|
        0 <= i < allocs.len() ==> 0 < (#[trigger] allocs[i]).plan.spec_request().quantity.0
    &&& spec_liquidity_allocated_qty(allocs) + leaves == start
    &&& (leaves >= 0 || allocs.len() == 0)
}

/// The scan only picks an untaken candidate.
proof fn lemma_liquidity_scan_untaken(
    config: LiquiditySeekingConfig,
    sor_config: SorConfig,
    parent: ParentOrder,
    best_price: OrderPrice,
    cands: Seq<LiquiditySeekingCandidate>,
    allocs: Seq<LiquiditySeekingAllocation>,
    k: int,
    skipped: usize,
)
    requires
        k <= cands.len(),
    ensures
        ({
            let (bi, _bs, _sk) = spec_liquidity_scan(
                config,
                sor_config,
                parent,
                best_price,
                cands,
                allocs,
                k,
                skipped,
            );
            bi matches Some(i) ==> 0 <= i < k && !spec_liquidity_route_taken(
                allocs,
                cands[i].route.route_id,
            )
        }),
    decreases k,
{
    if k > 0 {
        lemma_liquidity_scan_untaken(
            config,
            sor_config,
            parent,
            best_price,
            cands,
            allocs,
            k - 1,
            skipped,
        );
    }
}

/// The liquidity rounds keep their invariant and never exceed the limit.
proof fn lemma_liquidity_rounds_sound(
    config: LiquiditySeekingConfig,
    sor_config: SorConfig,
    cap: usize,
    parent: ParentOrder,
    progress: AlgoProgress,
    now_ns: u64,
    cands: Seq<LiquiditySeekingCandidate>,
    child_ids: Seq<ChildOrderId>,
    client_ids: Seq<ClientOrderId>,
    ts_recv_ns: u64,
    best_price: OrderPrice,
    limit: int,
    allocs: Seq<LiquiditySeekingAllocation>,
    skipped: usize,
    leaves: i64,
    start: int,
)
    requires
        spec_liquidity_rounds_inv(allocs, leaves, start),
        allocs.len() <= limit || allocs.len() == 0,
    ensures
        spec_liquidity_rounds(
            config,
            sor_config,
            cap,
            parent,
            progress,
            now_ns,
            cands,
            child_ids,
            client_ids,
            ts_recv_ns,
            best_price,
            limit,
            allocs,
            skipped,
            leaves,
        ) matches Ok((a, _s, l)) ==> spec_liquidity_rounds_inv(a, l, start) && (a.len() <= limit
            || a.len() == 0) && allocs.len() <= a.len(),
    decreases limit - allocs.len(),
{
    if !(leaves <= 0 || allocs.len() >= limit) {
        let (bi, bs, sk) = spec_liquidity_scan(
            config,
            sor_config,
            parent,
            best_price,
            cands,
            allocs,
            cands.len() as int,
            skipped,
        );
        lemma_liquidity_scan_untaken(
            config,
            sor_config,
            parent,
            best_price,
            cands,
            allocs,
            cands.len() as int,
            skipped,
        );
        if let Some(i) = bi {
            if allocs.len() != cap {
                let c = cands[i];
                let action = spec_liquidity_action(config, c);
                let desired = if action == LiquiditySeekingAction::Take {
                    c.route.available_qty.0
                } else {
                    config.probe_qty.0
                };
                let qty = min_int(
                    min_int(desired as int, c.route.available_qty.0 as int),
                    leaves as int,
                );
                let final_slice = clamp_i64(progress.released_qty.0 + qty) >= parent.spec_total_qty().0
                    || now_ns >= parent.spec_end_ns();
                if !(qty < parent.spec_min_clip().0 && !final_slice) && qty > 0 {
                    let request = spec_child_request(
                        parent,
                        c.route.route_id,
                        parent.spec_side(),
                        client_ids[allocs.len() as int],
                        OrderQty(qty as i64),
                        c.route.price,
                        ts_recv_ns,
                    );
                    let next = allocs.push(
                        LiquiditySeekingAllocation {
                            action,
                            score: bs,
                            plan: ChildOrderPlan::spec_from_parts(
                                child_ids[allocs.len() as int],
                                parent.spec_id(),
                                request,
                                now_ns,
                                ChildOrderStatus::Planned,
                            ),
                        },
                    );
                    assert(next.drop_last() =~= allocs);
                    assert(spec_liquidity_routes_distinct(next)) by {
                        assert forall|x: int, y: int| 0 <= x < y < next.len() implies (
                        #[trigger] next[x]).plan.spec_request().route_id@ != (
                        #[trigger] next[y]).plan.spec_request().route_id@ by {
                            if y == allocs.len() {
                                assert(next[x] == allocs[x]);
                                if allocs[x].plan.spec_request().route_id@ == c.route.route_id@ {
                                    assert(spec_liquidity_route_taken(allocs, c.route.route_id));
                                }
                            } else {
                                assert(next[x] == allocs[x]);
                                assert(next[y] == allocs[y]);
                            }
                        }
                    }
                    assert forall|x: int| 0 <= x < next.len() implies 0 < (
                    #[trigger] next[x]).plan.spec_request().quantity.0 by {
                        if x < allocs.len() {
                            assert(next[x] == allocs[x]);
                        }
                    }
                    lemma_liquidity_rounds_sound(
                        config,
                        sor_config,
                        cap,
                        parent,
                        progress,
                        now_ns,
                        cands,
                        child_ids,
                        client_ids,
                        ts_recv_ns,
                        best_price,
                        limit,
                        next,
                        sk,
                        clamp_i64(leaves - qty) as i64,
                        start,
                    );
                }
            }
        }
    }
}

/// Liquidity seeking never allocates a route twice, allocates only positive
/// quantities, never more routes than configured or than the decision
/// capacity, and in total never more than the unreleased quantity or the
/// maximum clip.
pub proof fn law_liquidity_allocations_sound(
    config: LiquiditySeekingConfig,
    sor_config: SorConfig,
    cap: usize,
    parent: ParentOrder,
    progress: AlgoProgress,
    now_ns: u64,
    cands: Seq<LiquiditySeekingCandidate>,
    child_ids: Seq<ChildOrderId>,
    client_ids: Seq<ClientOrderId>,
    ts_recv_ns: u64,
)
    requires
        spec_liquidity_plan(
            config,
            sor_config,
            cap,
            parent,
            progress,
            now_ns,
            cands,
            child_ids,
            client_ids,
            ts_recv_ns,
        ) is Ok,
    ensures
        ({
            let allocs = spec_liquidity_plan(
                config,
                sor_config,
                cap,
                parent,
                progress,
                now_ns,
                cands,
                child_ids,
                client_ids,
                ts_recv_ns,
            )->Ok_0.0;
            &&& spec_liquidity_routes_distinct(allocs)
            &&& forall|i: int| 0 <= i < allocs.len() ==> 0 < (#[trigger] allocs[i]).plan.spec_request().quantity.0
            &&& allocs.len() <= config.max_routes
            &&& allocs.len() <= cap
            &&& allocs.len() > 0 ==> spec_liquidity_allocated_qty(allocs) <= clamp_i64(
                parent.spec_total_qty().0 - progress.released_qty.0,
            )
            &&& allocs.len() > 0 ==> spec_liquidity_allocated_qty(allocs) <= parent.spec_max_clip().0
        }),
{
    if spec_plan_gate(parent, progress) is Ok && !(child_ids.len() < cap || client_ids.len() < cap)
        && !(now_ns < parent.spec_start_ns() || progress.completed_qty.0 >= progress.target_qty.0
        || cands.len() == 0) {
        if let Some(best) = spec_best_liquidity_price(parent.spec_side(), cands) {
            let start = min_int(
                clamp_i64(parent.spec_total_qty().0 - progress.released_qty.0),
                parent.spec_max_clip().0 as int,
            );
            lemma_liquidity_rounds_sound(
                config,
                sor_config,
                cap,
                parent,
                progress,
                now_ns,
                cands,
                child_ids,
                client_ids,
                ts_recv_ns,
                OrderPrice(best),
                min_int(config.max_routes as int, cap as int),
                Seq::empty(),
                0,
                start as i64,
                start,
            );
        }
    }
}

} // verus!
