//! Aggressive sweep: take displayed liquidity level by level, best price
//! first, up to a side-aware price collar.

use vstd::prelude::*;
use crate::algo_model::{
    spec_child_request, AlgoError, AlgoProgress, ChildOrderId, ChildOrderPlan, ChildOrderStatus,
    ParentOrder,
};
use crate::algo_slicing::{plan_gate, spec_plan_gate};
use crate::algo_sor::{
    spec_level_unroutable, spec_sat_inc, spec_supports, spec_unroutable_count, SorRouteCandidate,
    SorRouteStatus,
};
use crate::algo_support::{price_inside_collar, spec_price_inside_collar};
use crate::arith::{
    clamp_i128, clamp_i64, i128_to_i64_or_max, min_int, or_max_i64, sat_add_i128, sat_add_i64,
    sat_sub_i64, tdiv,
};
use crate::ids::{ClientOrderId, RouteId};
use crate::orders::{OrderPrice, OrderQty, OrderSide};

verus! {


broadcast use {
    crate::algo_model::group_parent_order,
    crate::algo_model::group_child_plan,
};

/// Aggressive sweep configuration.
#[derive(Debug, Clone, Copy, PartialEq, Eq)]
pub struct SweepConfig {
    max_routes: usize,
    price_collar: OrderPrice,
    min_fill_qty: OrderQty,
}

impl SweepConfig {
    #[verifier::type_invariant]
    spec fn inv(self) -> bool {
        self.max_routes > 0 && self.price_collar.0 > 0 && self.min_fill_qty.0 >= 0
    }

    /// Maximum route/level allocations per decision.
    pub closed spec fn spec_max_routes(self) -> usize {
        self.max_routes
    }

    /// Side-aware price collar.
    pub closed spec fn spec_price_collar(self) -> OrderPrice {
        self.price_collar
    }

    /// Minimum total fill quantity required for a non-empty decision.
    pub closed spec fn spec_min_fill_qty(self) -> OrderQty {
        self.min_fill_qty
    }

    /// Creates a configuration; no routes, a non-positive collar or a
    /// negative minimum fill is `InvalidSweepParameters`.
    pub fn new(max_routes: usize, price_collar: OrderPrice, min_fill_qty: OrderQty) -> (r: Result<
        Self,
        AlgoError,
    >)
        ensures
            if max_routes == 0 || price_collar.0 <= 0 || min_fill_qty.0 < 0 {
                r == Err::<Self, AlgoError>(AlgoError::InvalidSweepParameters)
            } else {
                r matches Ok(c) && c.spec_max_routes() == max_routes && c.spec_price_collar()
                    == price_collar && c.spec_min_fill_qty() == min_fill_qty
            },
    {
        if max_routes == 0 || price_collar.0 <= 0 || min_fill_qty.0 < 0 {
            return Err(AlgoError::InvalidSweepParameters);
        }
        Ok(Self { max_routes, price_collar, min_fill_qty })
    }

    /// Returns maximum route/level allocations per decision.
    pub fn max_routes(&self) -> (r: usize)
        ensures
            r == self.spec_max_routes(),
    {
        self.max_routes
    }

    /// Returns side-aware price collar.
    pub fn price_collar(&self) -> (r: OrderPrice)
        ensures
            r == self.spec_price_collar(),
    {
        self.price_collar
    }

    /// Returns minimum total fill quantity required for a non-empty decision.
    pub fn min_fill_qty(&self) -> (r: OrderQty)
        ensures
            r == self.spec_min_fill_qty(),
    {
        self.min_fill_qty
    }
}

/// One aggressive sweep allocation.
#[derive(Debug, Clone, Copy, PartialEq, Eq)]
pub struct SweepAllocation {
    /// Planned child order for this sweep level.
    pub plan: ChildOrderPlan,
}

impl SweepAllocation {
    /// Returns planned child order for this sweep level.
    pub fn plan(&self) -> (r: ChildOrderPlan)
        ensures
            r == self.plan,
    {
        self.plan
    }
}

/// Total quantity and average price after adding `qty` at `price`: the
/// notional of the average times the total plus the new fill (saturating),
/// divided by the new total (truncating) when it is positive.
pub open spec fn spec_sweep_accumulate(total: i64, average: i64, price: i64, qty: i64) -> (
    i64,
    i64,
) {
    let notional = clamp_i128(average * total + price * qty);
    let new_total = clamp_i64(total + qty);
    (
        new_total as i64,
        if new_total > 0 {
            or_max_i64(tdiv(notional, new_total)) as i64
        } else {
            average
        },
    )
}

/// Fixed-capacity sweep decision holding at most `N` allocations.
#[derive(Debug, PartialEq, Eq)]
pub struct SweepDecision<const N: usize> {
    allocations: Vec<SweepAllocation>,
    considered_levels: usize,
    skipped_levels: usize,
    total_qty: OrderQty,
    average_price: OrderPrice,
    collar_reached: bool,
}

impl<const N: usize> SweepDecision<N> {
    #[verifier::type_invariant]
    spec fn inv(&self) -> bool {
        self.allocations@.len() <= N
    }

    /// Allocations in selected order.
    pub closed spec fn spec_allocations(&self) -> Seq<SweepAllocation> {
        self.allocations@
    }

    /// Considered levels.
    pub closed spec fn spec_considered(&self) -> usize {
        self.considered_levels
    }

    /// Skipped levels.
    pub closed spec fn spec_skipped(&self) -> usize {
        self.skipped_levels
    }

    /// Total planned quantity.
    pub closed spec fn spec_total(&self) -> i64 {
        self.total_qty.0
    }

    /// Average planned price.
    pub closed spec fn spec_average(&self) -> i64 {
        self.average_price.0
    }

    /// Some level lay outside the collar.
    pub closed spec fn spec_collar(&self) -> bool {
        self.collar_reached
    }

    /// Creates an empty sweep decision.
    pub fn new(considered_levels: usize) -> (r: Self)
        ensures
            r.spec_allocations().len() == 0,
            r.spec_considered() == considered_levels,
            r.spec_skipped() == 0,
            r.spec_total() == 0,
            r.spec_average() == 0,
            !r.spec_collar(),
    {
        Self {
            allocations: Vec::new(),
            considered_levels,
            skipped_levels: 0,
            total_qty: OrderQty(0),
            average_price: OrderPrice(0),
            collar_reached: false,
        }
    }

    /// Returns allocation count.
    pub fn len(&self) -> (r: usize)
        ensures
            r == self.spec_allocations().len(),
            r <= N,
    {
        proof {
            use_type_invariant(self);
        }
        self.allocations.len()
    }

    /// Returns true when no allocations were produced.
    pub fn is_empty(&self) -> (r: bool)
        ensures
            r == (self.spec_allocations().len() == 0),
    {
        self.allocations.len() == 0
    }

    /// Returns considered book/route levels.
    pub fn considered_levels(&self) -> (r: usize)
        ensures
            r == self.spec_considered(),
    {
        self.considered_levels
    }

    /// Returns skipped book/route levels.
    pub fn skipped_levels(&self) -> (r: usize)
        ensures
            r == self.spec_skipped(),
    {
        self.skipped_levels
    }

    /// Returns total planned sweep quantity.
    pub fn total_qty(&self) -> (r: OrderQty)
        ensures
            r.0 == self.spec_total(),
    {
        self.total_qty
    }

    /// Returns average planned sweep price.
    pub fn average_price(&self) -> (r: OrderPrice)
        ensures
            r.0 == self.spec_average(),
    {
        self.average_price
    }

    /// Returns true when at least one candidate was outside the price collar.
    pub fn collar_reached(&self) -> (r: bool)
        ensures
            r == self.spec_collar(),
    {
        self.collar_reached
    }

    /// Iterates over the allocations in selected order.
    pub fn allocations(&self) -> (r: std::slice::Iter<'_, SweepAllocation>)
        ensures
            vstd::std_specs::iter::IteratorSpec::remaining(&r) == self.spec_allocations().as_ref(),
    {
        broadcast use vstd::std_specs::slice::axiom_spec_slice_iter;

        self.allocations.as_slice().iter()
    }

    /// Returns the allocations as a slice.
    pub fn allocation_list(&self) -> (r: &[SweepAllocation])
        ensures
            r@ == self.spec_allocations(),
    {
        self.allocations.as_slice()
    }

    fn push(&mut self, allocation: SweepAllocation)
        requires
            old(self).spec_allocations().len() < N,
        ensures
            final(self).spec_allocations() == old(self).spec_allocations().push(allocation),
            final(self).spec_considered() == old(self).spec_considered(),
            final(self).spec_skipped() == old(self).spec_skipped(),
            final(self).spec_collar() == old(self).spec_collar(),
            (final(self).spec_total(), final(self).spec_average()) == spec_sweep_accumulate(
                old(self).spec_total(),
                old(self).spec_average(),
                allocation.plan.spec_request().limit_price.0,
                allocation.plan.spec_request().quantity.0,
            ),
    {
        let qty = allocation.plan.request().quantity.0;
        let price = allocation.plan.request().limit_price.0;
        proof {
            assert(-0x4000_0000_0000_0000_0000_0000_0000_0000 <= self.average_price.0
                * self.total_qty.0 <= 0x4000_0000_0000_0000_0000_0000_0000_0000) by (nonlinear_arith)
                requires
                    i64::MIN <= self.average_price.0 <= i64::MAX,
                    i64::MIN <= self.total_qty.0 <= i64::MAX,
            ;
            assert(-0x4000_0000_0000_0000_0000_0000_0000_0000 <= price * qty
                <= 0x4000_0000_0000_0000_0000_0000_0000_0000) by (nonlinear_arith)
                requires
                    i64::MIN <= price <= i64::MAX,
                    i64::MIN <= qty <= i64::MAX,
            ;
        }
        let previous = (self.average_price.0 as i128) * (self.total_qty.0 as i128);
        let notional = sat_add_i128(previous, (price as i128) * (qty as i128));
        let total = sat_add_i64(self.total_qty.0, qty);
        self.total_qty = OrderQty(total);
        if total > 0 {
            self.average_price = OrderPrice(i128_to_i64_or_max(notional / (total as i128)));
        }
        let mut allocations: Vec<SweepAllocation> = Vec::new();
        std::mem::swap(&mut allocations, &mut self.allocations);
        allocations.push(allocation);
        self.allocations = allocations;
    }

    fn mark_skipped(&mut self)
        ensures
            final(self).spec_allocations() == old(self).spec_allocations(),
            final(self).spec_considered() == old(self).spec_considered(),
            final(self).spec_skipped() == spec_sat_inc(old(self).spec_skipped()),
            final(self).spec_total() == old(self).spec_total(),
            final(self).spec_average() == old(self).spec_average(),
            final(self).spec_collar() == old(self).spec_collar(),
    {
        proof {
            use_type_invariant(&*self);
        }
        self.skipped_levels = self.skipped_levels.saturating_add(1);
    }

    fn mark_collar_reached(&mut self)
        ensures
            final(self).spec_allocations() == old(self).spec_allocations(),
            final(self).spec_considered() == old(self).spec_considered(),
            final(self).spec_skipped() == old(self).spec_skipped(),
            final(self).spec_total() == old(self).spec_total(),
            final(self).spec_average() == old(self).spec_average(),
            final(self).spec_collar(),
    {
        proof {
            use_type_invariant(&*self);
        }
        self.collar_reached = true;
    }
}

/// Some allocation already takes the level `route` at `price`.
pub open spec fn spec_level_taken(allocs: Seq<SweepAllocation>, route: RouteId, price: i64) -> bool {
    exists|i: int|
        0 <= i < allocs.len() && (#[trigger] allocs[i]).plan.spec_request().route_id@ == route@
            && allocs[i].plan.spec_request().limit_price.0 == price
}

/// Returns true when the decision already takes the level `route_id` at
/// `price`.
pub fn sweep_decision_has_level<const N: usize>(
    decision: &SweepDecision<N>,
    route_id: &RouteId,
    price: OrderPrice,
) -> (r: bool)
    ensures
        r == spec_level_taken(decision.spec_allocations(), *route_id, price.0),
{
    let list = decision.allocation_list();
    let mut i: usize = 0;
    while i < list.len()
        invariant
            i <= list@.len(),
            list@ == decision.spec_allocations(),
            forall|j: int|
                0 <= j < i ==> !((#[trigger] list@[j]).plan.spec_request().route_id@ == route_id@
                    && list@[j].plan.spec_request().limit_price.0 == price.0),
        decreases list@.len() - i,
    {
        if list[i].plan.request().route_id.same_text(route_id) && list[i].plan.request().limit_price.0
            == price.0 {
            return true;
        }
        i = i + 1;
    }
    false
}

/// Starting best price of a scan: no buy is above it, no sell below it.
pub open spec fn spec_sweep_start_price(side: OrderSide) -> i64 {
    match side {
        OrderSide::Buy => i64::MAX,
        OrderSide::Sell => 0,
    }
}

/// Scan of the first `k` levels for the best untaken level inside the
/// collar (strictly lowest to buy, highest to sell); on the first pass
/// (before any level is taken) each unusable level raises the skipped
/// count once, and levels beyond the collar mark it reached.
pub open spec fn spec_sweep_scan(
    config: SweepConfig,
    parent: ParentOrder,
    cands: Seq<SorRouteCandidate>,
    allocs: Seq<SweepAllocation>,
    k: int,
    skipped: usize,
    collar: bool,
) -> (Option<int>, i64, usize, bool)
    decreases k,
{
    if k <= 0 {
        (None, spec_sweep_start_price(parent.spec_side()), skipped, collar)
    } else {
        let (bi, bp, sk, co) = spec_sweep_scan(config, parent, cands, allocs, k - 1, skipped, collar);
        let c = cands[k - 1];
        if spec_level_taken(allocs, c.route_id, c.price.0) {
            (bi, bp, sk, co)
        } else if c.status != SorRouteStatus::Available || !spec_supports(
            c.capability,
            parent.spec_order_type(),
        ) || c.available_qty.0 <= 0 || c.price.0 <= 0 {
            (bi, bp, if allocs.len() == 0 {
                spec_sat_inc(sk)
            } else {
                sk
            }, co)
        } else if !spec_price_inside_collar(
            parent.spec_side(),
            c.price.0 as int,
            config.spec_price_collar().0 as int,
        ) {
            (bi, bp, sk, true)
        } else if (match parent.spec_side() {
            OrderSide::Buy => c.price.0 < bp,
            OrderSide::Sell => c.price.0 > bp,
        }) {
            (Some(k - 1), c.price.0, sk, co)
        } else {
            (bi, bp, sk, co)
        }
    }
}

/// Sweep state: allocations, skipped count, collar flag, total quantity,
/// average price, quantity left.
pub type SweepState = (Seq<SweepAllocation>, usize, bool, i64, i64, i64);

/// Sweep rounds: while quantity is left and the limit is not reached, take
/// the best level as far as it offers within what is left.
pub open spec fn spec_sweep_rounds(
    config: SweepConfig,
    cap: usize,
    parent: ParentOrder,
    now_ns: u64,
    cands: Seq<SorRouteCandidate>,
    child_ids: Seq<ChildOrderId>,
    client_ids: Seq<ClientOrderId>,
    ts_recv_ns: u64,
    limit: int,
    s: SweepState,
) -> Result<SweepState, AlgoError>
    decreases limit - s.0.len(),
{
    let (allocs, skipped, collar, total, average, leaves) = s;
    if leaves <= 0 || allocs.len() >= limit {
        Ok(s)
    } else {
        let (bi, _bp, sk, co) = spec_sweep_scan(
            config,
            parent,
            cands,
            allocs,
            cands.len() as int,
            skipped,
            collar,
        );
        match bi {
            None => Ok((allocs, sk, co, total, average, leaves)),
            Some(i) => if allocs.len() == cap {
                Err(AlgoError::DecisionFull { capacity: cap })
            } else {
                let c = cands[i];
                let qty = min_int(c.available_qty.0 as int, leaves as int);
                if qty <= 0 {
                    Ok((allocs, sk, co, total, average, leaves))
                } else {
                    let request = spec_child_request(
                        parent,
                        c.route_id,
                        parent.spec_side(),
                        client_ids[allocs.len() as int],
                        OrderQty(qty as i64),
                        c.price,
                        ts_recv_ns,
                    );
                    match request.spec_validate() {
                        Err(e) => Err(AlgoError::Core(e)),
                        Ok(_) => {
                            let acc = spec_sweep_accumulate(total, average, c.price.0, qty as i64);
                            spec_sweep_rounds(
                                config,
                                cap,
                                parent,
                                now_ns,
                                cands,
                                child_ids,
                                client_ids,
                                ts_recv_ns,
                                limit,
                                (
                                    allocs.push(
                                        SweepAllocation {
                                            plan: ChildOrderPlan::spec_from_parts(
                                                child_ids[allocs.len() as int],
                                                parent.spec_id(),
                                                request,
                                                now_ns,
                                                ChildOrderStatus::Planned,
                                            ),
                                        },
                                    ),
                                    sk,
                                    co,
                                    acc.0,
                                    acc.1,
                                    clamp_i64(leaves - qty) as i64,
                                ),
                            )
                        },
                    }
                }
            },
        }
    }
}

/// The sweep plan: the final state with the considered count, an empty
/// decision when the total stays below the minimum fill, or an error.
pub open spec fn spec_sweep_plan(
    config: SweepConfig,
    cap: usize,
    parent: ParentOrder,
    progress: AlgoProgress,
    now_ns: u64,
    cands: Seq<SorRouteCandidate>,
    child_ids: Seq<ChildOrderId>,
    client_ids: Seq<ClientOrderId>,
    ts_recv_ns: u64,
) -> Result<(SweepState, usize), AlgoError> {
    let empty: SweepState = (Seq::empty(), 0usize, false, 0i64, 0i64, 0i64);
    match spec_plan_gate(parent, progress) {
        Err(e) => Err(e),
        Ok(_) => if child_ids.len() < cap || client_ids.len() < cap {
            Err(AlgoError::InvalidSweepParameters)
        } else if now_ns < parent.spec_start_ns() || progress.completed_qty.0 >= progress.target_qty.0
            || cands.len() == 0 {
            Ok((empty, cands.len() as usize))
        } else {
            match spec_sweep_rounds(
                config,
                cap,
                parent,
                now_ns,
                cands,
                child_ids,
                client_ids,
                ts_recv_ns,
                min_int(config.spec_max_routes() as int, cap as int),
                (
                    Seq::empty(),
                    0,
                    false,
                    0,
                    0,
                    min_int(
                        clamp_i64(parent.spec_total_qty().0 - progress.released_qty.0),
                        parent.spec_max_clip().0 as int,
                    ) as i64,
                ),
            ) {
                Err(e) => Err(e),
                Ok(s) => if s.3 < config.spec_min_fill_qty().0 {
                    Ok((empty, cands.len() as usize))
                } else {
                    Ok((s, cands.len() as usize))
                },
            }
        },
    }
}

/// A decision matches a sweep state and considered count.
pub open spec fn spec_sweep_decision_is<const N: usize>(
    d: SweepDecision<N>,
    s: SweepState,
    considered: usize,
) -> bool {
    &&& d.spec_allocations() == s.0
    &&& d.spec_skipped() == s.1
    &&& d.spec_collar() == s.2
    &&& d.spec_total() == s.3
    &&& d.spec_average() == s.4
    &&& d.spec_considered() == considered
}

/// Deterministic aggressive sweep planner.
#[derive(Debug, Clone, Copy, PartialEq, Eq)]
pub struct SweepPlanner {
    /// Planner configuration.
    pub config: SweepConfig,
}

impl SweepPlanner {
    /// Creates a sweep planner.
    pub fn new(config: SweepConfig) -> (r: Self)
        ensures
            r.config == config,
    {
        Self { config }
    }

    /// Returns planner configuration.
    pub fn config(&self) -> (r: SweepConfig)
        ensures
            r == self.config,
    {
        self.config
    }

    fn scan<const N: usize>(
        &self,
        parent: &ParentOrder,
        candidates: &[SorRouteCandidate],
        decision: &mut SweepDecision<N>,
    ) -> (r: Option<usize>)
        ensures
            ({
                let (bi, _bp, sk, co) = spec_sweep_scan(
                    self.config,
                    *parent,
                    candidates@,
                    old(decision).spec_allocations(),
                    candidates@.len() as int,
                    old(decision).spec_skipped(),
                    old(decision).spec_collar(),
                );
                &&& final(decision).spec_allocations() == old(decision).spec_allocations()
                &&& final(decision).spec_considered() == old(decision).spec_considered()
                &&& final(decision).spec_total() == old(decision).spec_total()
                &&& final(decision).spec_average() == old(decision).spec_average()
                &&& final(decision).spec_skipped() == sk
                &&& final(decision).spec_collar() == co
                &&& match bi {
                    None => r is None,
                    Some(i) => r == Some(i as usize),
                }
                &&& (bi matches Some(i) ==> 0 <= i < candidates@.len())
            }),
    {
        let ghost allocs = decision.spec_allocations();
        let ghost skipped0 = decision.spec_skipped();
        let ghost collar0 = decision.spec_collar();
        let mut best_index: Option<usize> = None;
        let mut best_price: i64 = match parent.side() {
            OrderSide::Buy => i64::MAX,
            OrderSide::Sell => 0,
        };
        let mut index: usize = 0;
        while index < candidates.len()
            invariant
                index <= candidates@.len(),
                decision.spec_allocations() == allocs,
                decision.spec_considered() == old(decision).spec_considered(),
                decision.spec_total() == old(decision).spec_total(),
                decision.spec_average() == old(decision).spec_average(),
                allocs == old(decision).spec_allocations(),
                skipped0 == old(decision).spec_skipped(),
                collar0 == old(decision).spec_collar(),
                ({
                    let (bi, bp, sk, co) = spec_sweep_scan(
                        self.config,
                        *parent,
                        candidates@,
                        allocs,
                        index as int,
                        skipped0,
                        collar0,
                    );
                    &&& decision.spec_skipped() == sk
                    &&& decision.spec_collar() == co
                    &&& best_price == bp
                    &&& match bi {
                        None => best_index is None,
                        Some(i) => best_index == Some(i as usize),
                    }
                    &&& (bi matches Some(i) ==> 0 <= i < index)
                }),
            decreases candidates@.len() - index,
        {
            let c = candidates[index];
            if !sweep_decision_has_level(decision, &c.route_id, c.price) {
                if !c.status.is_routable() || !c.capability.supports_order_type(parent.order_type())
                    || c.available_qty.0 <= 0 || c.price.0 <= 0 {
                    if decision.len() == 0 {
                        decision.mark_skipped();
                    }
                } else if !price_inside_collar(parent.side(), c.price, self.config.price_collar()) {
                    decision.mark_collar_reached();
                } else {
                    let better = match parent.side() {
                        OrderSide::Buy => c.price.0 < best_price,
                        OrderSide::Sell => c.price.0 > best_price,
                    };
                    if better {
                        best_price = c.price.0;
                        best_index = Some(index);
                    }
                }
            }
            index = index + 1;
        }
        best_index
    }

    /// Plans aggressive route/level child orders up to the price collar,
    /// using the caller's identifiers in order; at least `N` of each must be
    /// supplied. A sweep totalling less than the minimum fill is dropped.
    #[allow(clippy::too_many_arguments)]
    pub fn plan_sweep<const N: usize>(
        &self,
        parent: &ParentOrder,
        progress: AlgoProgress,
        now_ns: u64,
        candidates: &[SorRouteCandidate],
        child_ids: &[ChildOrderId],
        client_order_ids: &[ClientOrderId],
        ts_recv_ns: u64,
    ) -> (r: Result<SweepDecision<N>, AlgoError>)
        ensures
            match spec_sweep_plan(
                self.config,
                N,
                *parent,
                progress,
                now_ns,
                candidates@,
                child_ids@,
                client_order_ids@,
                ts_recv_ns,
            ) {
                Err(e) => r == Err::<SweepDecision<N>, AlgoError>(e),
                Ok((s, considered)) => r matches Ok(d) && spec_sweep_decision_is(d, s, considered),
            },
            r matches Ok(d) ==> (d.spec_allocations().len() > 0 ==> d.spec_skipped()
                == spec_unroutable_count(*parent, candidates@, candidates@.len() as int)),
            r matches Ok(d) ==> d.spec_skipped() == 0 || d.spec_skipped() == spec_unroutable_count(
                *parent,
                candidates@,
                candidates@.len() as int,
            ),
    {
        proof {
            lemma_sweep_plan_skipped(
                self.config,
                N,
                *parent,
                progress,
                now_ns,
                candidates@,
                child_ids@,
                client_order_ids@,
                ts_recv_ns,
            );
        }
        match plan_gate(parent, &progress) {
            Err(e) => {
                return Err(e);
            },
            Ok(()) => {},
        }
        if child_ids.len() < N || client_order_ids.len() < N {
            return Err(AlgoError::InvalidSweepParameters);
        }
        if now_ns < parent.start_ns() || progress.is_complete() || candidates.len() == 0 {
            let d = SweepDecision::new(candidates.len());
            proof {
                assert(d.spec_allocations() =~= Seq::<SweepAllocation>::empty());
            }
            return Ok(d);
        }
        let mut decision = SweepDecision::<N>::new(candidates.len());
        let unreleased = sat_sub_i64(parent.total_qty().0, progress.released_qty.0);
        let mut leaves = if unreleased <= parent.max_clip().0 {
            unreleased
        } else {
            parent.max_clip().0
        };
        let route_limit = if self.config.max_routes() <= N {
            self.config.max_routes()
        } else {
            N
        };
        proof {
            assert(decision.spec_allocations() =~= Seq::<SweepAllocation>::empty());
        }
        let ghost target = spec_sweep_rounds(
            self.config,
            N,
            *parent,
            now_ns,
            candidates@,
            child_ids@,
            client_order_ids@,
            ts_recv_ns,
            route_limit as int,
            (Seq::empty(), 0, false, 0, 0, leaves),
        );
        loop
            invariant_except_break
                target == spec_sweep_rounds(
                    self.config,
                    N,
                    *parent,
                    now_ns,
                    candidates@,
                    child_ids@,
                    client_order_ids@,
                    ts_recv_ns,
                    route_limit as int,
                    (
                        decision.spec_allocations(),
                        decision.spec_skipped(),
                        decision.spec_collar(),
                        decision.spec_total(),
                        decision.spec_average(),
                        leaves,
                    ),
                ),
            invariant
                spec_sweep_plan(
                    self.config,
                    N,
                    *parent,
                    progress,
                    now_ns,
                    candidates@,
                    child_ids@,
                    client_order_ids@,
                    ts_recv_ns,
                ) == (match target {
                    Err(e) => Err(e),
                    Ok(s) => if s.3 < self.config.spec_min_fill_qty().0 {
                        Ok(
                            (
                                (Seq::empty(), 0usize, false, 0i64, 0i64, 0i64),
                                candidates@.len() as usize,
                            ),
                        )
                    } else {
                        Ok((s, candidates@.len() as usize))
                    },
                }),
                route_limit <= N,
                N <= child_ids@.len(),
                N <= client_order_ids@.len(),
                decision.spec_allocations().len() <= route_limit,
                decision.spec_considered() == candidates@.len(),
            ensures
                target == Ok::<SweepState, AlgoError>(
                    (
                        decision.spec_allocations(),
                        decision.spec_skipped(),
                        decision.spec_collar(),
                        decision.spec_total(),
                        decision.spec_average(),
                        leaves,
                    ),
                ),
            decreases route_limit - decision.spec_allocations().len(),
        {
            if leaves <= 0 || decision.len() >= route_limit {
                break;
            }
            let index = match self.scan(parent, candidates, &mut decision) {
                None => {
                    break;
                },
                Some(i) => i,
            };
            if decision.len() == N {
                return Err(AlgoError::DecisionFull { capacity: N });
            }
            let candidate = candidates[index];
            let qty = if candidate.available_qty.0 <= leaves {
                candidate.available_qty.0
            } else {
                leaves
            };
            if qty <= 0 {
                break;
            }
            let slot = decision.len();
            let request = parent.build_order_request_for_route_at_price(
                candidate.route_id,
                client_order_ids[slot],
                OrderQty(qty),
                candidate.price,
                ts_recv_ns,
            );
            let plan = match ChildOrderPlan::new(child_ids[slot], parent.id(), request, now_ns) {
                Err(e) => {
                    return Err(e);
                },
                Ok(plan) => plan,
            };
            decision.push(SweepAllocation { plan });
            leaves = sat_sub_i64(leaves, qty);
        }
        if decision.total_qty.0 < self.config.min_fill_qty().0 {
            let d = SweepDecision::new(candidates.len());
            proof {
                assert(d.spec_allocations() =~= Seq::<SweepAllocation>::empty());
            }
            return Ok(d);
        }
        Ok(decision)
    }
}

/// Total quantity of the allocations.
pub open spec fn spec_sweep_allocated_qty(allocs: Seq<SweepAllocation>) -> int
    decreases allocs.len(),
{
    if allocs.len() == 0 {
        0
    } else {
        spec_sweep_allocated_qty(allocs.drop_last()) + allocs.last().plan.spec_request().quantity.0
    }
}

/// What the sweep rounds keep: levels taken once, positive quantities,
/// prices inside the collar, and quantity left plus allocated equal to the
/// start.
pub open spec fn spec_sweep_rounds_inv(
    config: SweepConfig,
    parent: ParentOrder,
    allocs: Seq<SweepAllocation>,
    leaves: i64,
    start: int,
) -> bool {
    &&& forall|i: int, j: int|
        0 <= i < j < allocs.len() ==> !((#[trigger] allocs[i]).plan.spec_request().route_id@ == (
        #[trigger] allocs[j]).plan.spec_request().route_id@ && allocs[i].plan.spec_request().limit_price.0
            == allocs[j].plan.spec_request().limit_price.0)
    &&& forall|i: int|
        0 <= i < allocs.len() ==> 0 < (#[trigger] allocs[i]).plan.spec_request().quantity.0
            && spec_price_inside_collar(
            parent.spec_side(),
            allocs[i].plan.spec_request().limit_price.0 as int,
            config.spec_price_collar().0 as int,
        )
    &&& spec_sweep_allocated_qty(allocs) + leaves == start
    &&& (leaves >= 0 || allocs.len() == 0)
}

/// The scan only picks an untaken level inside the collar, priced at the
/// picked price.
proof fn lemma_sweep_scan_picks(
    config: SweepConfig,
    parent: ParentOrder,
    cands: Seq<SorRouteCandidate>,
    allocs: Seq<SweepAllocation>,
    k: int,
    skipped: usize,
    collar: bool,
)
    requires
        k <= cands.len(),
    ensures
        ({
            let (bi, bp, _sk, _co) = spec_sweep_scan(config, parent, cands, allocs, k, skipped, collar);
            bi matches Some(i) ==> {
                &&& 0 <= i < k
                &&& !spec_level_taken(allocs, cands[i].route_id, cands[i].price.0)
                &&& spec_price_inside_collar(
                    parent.spec_side(),
                    cands[i].price.0 as int,
                    config.spec_price_collar().0 as int,
                )
            }
        }),
    decreases k,
{
    if k > 0 {
        lemma_sweep_scan_picks(config, parent, cands, allocs, k - 1, skipped, collar);
    }
}

/// The first pass counts each unroutable level once; later passes keep the
/// count.
proof fn lemma_sweep_scan_skipped(
    config: SweepConfig,
    parent: ParentOrder,
    cands: Seq<SorRouteCandidate>,
    allocs: Seq<SweepAllocation>,
    k: int,
    skipped: usize,
    collar: bool,
)
    ensures
        allocs.len() == 0 && skipped == 0 ==> spec_sweep_scan(
            config,
            parent,
            cands,
            allocs,
            k,
            skipped,
            collar,
        ).2 == spec_unroutable_count(parent, cands, k),
        allocs.len() > 0 ==> spec_sweep_scan(config, parent, cands, allocs, k, skipped, collar).2
            == skipped,
    decreases k,
{
    if k > 0 {
        lemma_sweep_scan_skipped(config, parent, cands, allocs, k - 1, skipped, collar);
    }
}

/// A sweep state whose skipped count is the count of unroutable levels, or
/// zero before any pass.
pub open spec fn spec_skipped_once(s: SweepState, count: usize) -> bool {
    (s.0.len() == 0 && (s.1 == 0 || s.1 == count)) || (s.0.len() > 0 && s.1 == count)
}

/// The sweep rounds count each unroutable level once.
proof fn lemma_sweep_rounds_skipped(
    config: SweepConfig,
    cap: usize,
    parent: ParentOrder,
    now_ns: u64,
    cands: Seq<SorRouteCandidate>,
    child_ids: Seq<ChildOrderId>,
    client_ids: Seq<ClientOrderId>,
    ts_recv_ns: u64,
    limit: int,
    s: SweepState,
)
    requires
        (s.0.len() == 0 && s.1 == 0) || (s.0.len() > 0 && s.1 == spec_unroutable_count(
            parent,
            cands,
            cands.len() as int,
        )),
    ensures
        spec_sweep_rounds(
            config,
            cap,
            parent,
            now_ns,
            cands,
            child_ids,
            client_ids,
            ts_recv_ns,
            limit,
            s,
        ) matches Ok(t) ==> spec_skipped_once(
            t,
            spec_unroutable_count(parent, cands, cands.len() as int),
        ),
    decreases limit - s.0.len(),
{
    let (allocs, skipped, collar, total, average, leaves) = s;
    if !(leaves <= 0 || allocs.len() >= limit) {
        lemma_sweep_scan_skipped(
            config,
            parent,
            cands,
            allocs,
            cands.len() as int,
            skipped,
            collar,
        );
        let (bi, _bp, sk, co) = spec_sweep_scan(
            config,
            parent,
            cands,
            allocs,
            cands.len() as int,
            skipped,
            collar,
        );
        if let Some(i) = bi {
            if allocs.len() != cap {
                let c = cands[i];
                let qty = min_int(c.available_qty.0 as int, leaves as int);
                if qty > 0 {
                    let request = spec_child_request(
                        parent,
                        c.route_id,
                        parent.spec_side(),
                        client_ids[allocs.len() as int],
                        OrderQty(qty as i64),
                        c.price,
                        ts_recv_ns,
                    );
                    if request.spec_validate() is Ok {
                        let acc = spec_sweep_accumulate(total, average, c.price.0, qty as i64);
                        lemma_sweep_rounds_skipped(
                            config,
                            cap,
                            parent,
                            now_ns,
                            cands,
                            child_ids,
                            client_ids,
                            ts_recv_ns,
                            limit,
                            (
                                allocs.push(
                                    SweepAllocation {
                                        plan: ChildOrderPlan::spec_from_parts(
                                            child_ids[allocs.len() as int],
                                            parent.spec_id(),
                                            request,
                                            now_ns,
                                            ChildOrderStatus::Planned,
                                        ),
                                    },
                                ),
                                sk,
                                co,
                                acc.0,
                                acc.1,
                                clamp_i64(leaves - qty) as i64,
                            ),
                        );
                    }
                }
            }
        }
    }
}

/// A sweep plan counts each unroutable level once: its skipped count is
/// zero when no level was examined, and otherwise the number of levels
/// that cannot be routed (saturating).
proof fn lemma_sweep_plan_skipped(
    config: SweepConfig,
    cap: usize,
    parent: ParentOrder,
    progress: AlgoProgress,
    now_ns: u64,
    cands: Seq<SorRouteCandidate>,
    child_ids: Seq<ChildOrderId>,
    client_ids: Seq<ClientOrderId>,
    ts_recv_ns: u64,
)
    ensures
        spec_sweep_plan(
            config,
            cap,
            parent,
            progress,
            now_ns,
            cands,
            child_ids,
            client_ids,
            ts_recv_ns,
        ) matches Ok((s, _)) ==> spec_skipped_once(
            s,
            spec_unroutable_count(parent, cands, cands.len() as int),
        ),
{
    lemma_sweep_rounds_skipped(
        config,
        cap,
        parent,
        now_ns,
        cands,
        child_ids,
        client_ids,
        ts_recv_ns,
        min_int(config.spec_max_routes() as int, cap as int),
        (
            Seq::empty(),
            0,
            false,
            0,
            0,
            min_int(
                clamp_i64(parent.spec_total_qty().0 - progress.released_qty.0),
                parent.spec_max_clip().0 as int,
            ) as i64,
        ),
    );
}

/// The sweep rounds keep their invariant and never exceed the limit.
proof fn lemma_sweep_rounds_sound(
    config: SweepConfig,
    cap: usize,
    parent: ParentOrder,
    now_ns: u64,
    cands: Seq<SorRouteCandidate>,
    child_ids: Seq<ChildOrderId>,
    client_ids: Seq<ClientOrderId>,
    ts_recv_ns: u64,
    limit: int,
    s: SweepState,
    start: int,
)
    requires
        spec_sweep_rounds_inv(config, parent, s.0, s.5, start),
        s.0.len() <= limit || s.0.len() == 0,
    ensures
        spec_sweep_rounds(
            config,
            cap,
            parent,
            now_ns,
            cands,
            child_ids,
            client_ids,
            ts_recv_ns,
            limit,
            s,
        ) matches Ok(t) ==> spec_sweep_rounds_inv(config, parent, t.0, t.5, start) && (t.0.len()
            <= limit || t.0.len() == 0),
    decreases limit - s.0.len(),
{
    let (allocs, skipped, collar, total, average, leaves) = s;
    if !(leaves <= 0 || allocs.len() >= limit) {
        let (bi, _bp, sk, co) = spec_sweep_scan(
            config,
            parent,
            cands,
            allocs,
            cands.len() as int,
            skipped,
            collar,
        );
        lemma_sweep_scan_picks(config, parent, cands, allocs, cands.len() as int, skipped, collar);
        if let Some(i) = bi {
            if allocs.len() != cap {
                let c = cands[i];
                let qty = min_int(c.available_qty.0 as int, leaves as int);
                if qty > 0 {
                    let request = spec_child_request(
                        parent,
                        c.route_id,
                        parent.spec_side(),
                        client_ids[allocs.len() as int],
                        OrderQty(qty as i64),
                        c.price,
                        ts_recv_ns,
                    );
                    let acc = spec_sweep_accumulate(total, average, c.price.0, qty as i64);
                    let next = allocs.push(
                        SweepAllocation {
                            plan: ChildOrderPlan::spec_from_parts(
                                child_ids[allocs.len() as int],
                                parent.spec_id(),
                                request,
                                now_ns,
                                ChildOrderStatus::Planned,
                            ),
                        },
                    );
                    assert(next.drop_last() =~= allocs);
                    assert forall|x: int, y: int| 0 <= x < y < next.len() implies !((
                    #[trigger] next[x]).plan.spec_request().route_id@ == (
                    #[trigger] next[y]).plan.spec_request().route_id@
                        && next[x].plan.spec_request().limit_price.0
                        == next[y].plan.spec_request().limit_price.0) by {
                        assert(next[x] == allocs[x]);
                        if y == allocs.len() {
                            if allocs[x].plan.spec_request().route_id@ == c.route_id@
                                && allocs[x].plan.spec_request().limit_price.0 == c.price.0 {
                                assert(spec_level_taken(allocs, c.route_id, c.price.0));
                            }
                        } else {
                            assert(next[y] == allocs[y]);
                        }
                    }
                    assert forall|x: int| 0 <= x < next.len() implies 0 < (
                    #[trigger] next[x]).plan.spec_request().quantity.0 && spec_price_inside_collar(
                        parent.spec_side(),
                        next[x].plan.spec_request().limit_price.0 as int,
                        config.spec_price_collar().0 as int,
                    ) by {
                        if x < allocs.len() {
                            assert(next[x] == allocs[x]);
                        }
                    }
                    lemma_sweep_rounds_sound(
                        config,
                        cap,
                        parent,
                        now_ns,
                        cands,
                        child_ids,
                        client_ids,
                        ts_recv_ns,
                        limit,
                        (next, sk, co, acc.0, acc.1, clamp_i64(leaves - qty) as i64),
                        start,
                    );
                }
            }
        }
    }
}

/// A sweep takes each level at most once, only positive quantities and
/// only prices inside the collar, never more levels than configured or
/// than the decision capacity, and in total never more than the unreleased
/// quantity or the maximum clip.
pub proof fn law_sweep_allocations_sound(
    config: SweepConfig,
    cap: usize,
    parent: ParentOrder,
    progress: AlgoProgress,
    now_ns: u64,
    cands: Seq<SorRouteCandidate>,
    child_ids: Seq<ChildOrderId>,
    client_ids: Seq<ClientOrderId>,
    ts_recv_ns: u64,
)
    requires
        spec_sweep_plan(
            config,
            cap,
            parent,
            progress,
            now_ns,
            cands,
            child_ids,
            client_ids,
            ts_recv_ns,
        ) is Ok,
    ensures
        ({
            let allocs = spec_sweep_plan(
                config,
                cap,
                parent,
                progress,
                now_ns,
                cands,
                child_ids,
                client_ids,
                ts_recv_ns,
            )->Ok_0.0.0;
            &&& forall|i: int|
                0 <= i < allocs.len() ==> 0 < (#[trigger] allocs[i]).plan.spec_request().quantity.0
                    && spec_price_inside_collar(
                    parent.spec_side(),
                    allocs[i].plan.spec_request().limit_price.0 as int,
                    config.spec_price_collar().0 as int,
                )
            &&& allocs.len() <= config.spec_max_routes()
            &&& allocs.len() <= cap
            &&& allocs.len() > 0 ==> spec_sweep_allocated_qty(allocs) <= clamp_i64(
                parent.spec_total_qty().0 - progress.released_qty.0,
            )
            &&& allocs.len() > 0 ==> spec_sweep_allocated_qty(allocs) <= parent.spec_max_clip().0
        }),
{
    if spec_plan_gate(parent, progress) is Ok && !(child_ids.len() < cap || client_ids.len() < cap)
        && !(now_ns < parent.spec_start_ns() || progress.completed_qty.0 >= progress.target_qty.0
        || cands.len() == 0) {
        let start = min_int(
            clamp_i64(parent.spec_total_qty().0 - progress.released_qty.0),
            parent.spec_max_clip().0 as int,
        );
        let s0: SweepState = (Seq::empty(), 0, false, 0, 0, start as i64);
        lemma_sweep_rounds_sound(
            config,
            cap,
            parent,
            now_ns,
            cands,
            child_ids,
            client_ids,
            ts_recv_ns,
            min_int(config.spec_max_routes() as int, cap as int),
            s0,
            start,
        );
    }
}

} // verus!
