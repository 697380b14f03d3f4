//! Multi-leg execution: synchronized basket slices and two-leg spreads.

use vstd::prelude::*;
use crate::algo_model::{
    spec_child_request, spec_parent_terminal, spec_parent_validate, AlgoError, AlgoProgress,
    ChildOrderId, ChildOrderPlan, ChildOrderStatus, ParentOrder,
};
use crate::algo_slicing::{clip_due_qty, spec_clip_qty};
use crate::algo_support::{
    elapsed_bps, scale_qty_bps, scale_qty_inverse_bps, spec_elapsed_bps, spec_scale_qty_bps,
    spec_scale_qty_inverse_bps, spec_spread_edge_bps, spread_edge_bps,
};
use crate::algo_sor::spec_sat_inc;
use crate::arith::{clamp_i64, max_int, min_int, sat_sub_i64};
use crate::ids::ClientOrderId;
use crate::orders::{OrderPrice, OrderQty, OrderSide};

verus! {


broadcast use {
    crate::algo_model::group_parent_order,
    crate::algo_model::group_child_plan,
};

/// Basket or spread leg role.
#[derive(Debug, Clone, Copy, PartialEq, Eq, Hash, Structural)]
#[non_exhaustive]
pub enum BasketLegRole {
    /// Primary alpha or exposure leg.
    Primary,
    /// Hedge leg intended to reduce exposure drift.
    Hedge,
    /// Offset leg in a spread or relative-value structure.
    Offset,
}

impl BasketLegRole {
    /// Wire code of the role (primary 1, hedge 2, offset 3).
    pub fn code(self) -> (r: u8)
        ensures
            r == (match self {
                BasketLegRole::Primary => 1u8,
                BasketLegRole::Hedge => 2u8,
                BasketLegRole::Offset => 3u8,
            }),
    {
        match self {
            BasketLegRole::Primary => 1,
            BasketLegRole::Hedge => 2,
            BasketLegRole::Offset => 3,
        }
    }
}

/// One parent order participating in a basket or spread execution.
#[derive(Debug, Clone, Copy, PartialEq, Eq)]
pub struct BasketLeg {
    /// Leg parent order.
    pub parent: ParentOrder,
    /// Leg role.
    pub role: BasketLegRole,
    /// Hedge ratio metadata in basis points.
    pub hedge_ratio_bps: i32,
}

impl BasketLeg {
    /// Creates a leg; an invalid parent is its validation error, a zero
    /// hedge ratio is `InvalidBasketParameters`.
    pub fn new(parent: ParentOrder, role: BasketLegRole, hedge_ratio_bps: i32) -> (r: Result<
        Self,
        AlgoError,
    >)
        ensures
            match spec_parent_validate(parent) {
                Err(e) => r == Err::<Self, AlgoError>(e),
                Ok(_) => if hedge_ratio_bps == 0 {
                    r == Err::<Self, AlgoError>(AlgoError::InvalidBasketParameters)
                } else {
                    r == Ok::<Self, AlgoError>(BasketLeg { parent, role, hedge_ratio_bps })
                },
            },
    {
        match parent.validate() {
            Err(e) => {
                return Err(e);
            },
            Ok(()) => {},
        }
        if hedge_ratio_bps == 0 {
            return Err(AlgoError::InvalidBasketParameters);
        }
        Ok(Self { parent, role, hedge_ratio_bps })
    }

    /// Returns the leg parent order.
    pub fn parent(&self) -> (r: ParentOrder)
        ensures
            r == self.parent,
    {
        self.parent
    }

    /// Returns leg role.
    pub fn role(&self) -> (r: BasketLegRole)
        ensures
            r == self.role,
    {
        self.role
    }

    /// Returns hedge ratio metadata in basis points.
    pub fn hedge_ratio_bps(&self) -> (r: i32)
        ensures
            r == self.hedge_ratio_bps,
    {
        self.hedge_ratio_bps
    }
}

/// Planned child allocation for one basket leg.
#[derive(Debug, Clone, Copy, PartialEq, Eq)]
pub struct BasketChildAllocation {
    /// Leg index in the caller's leg slice.
    pub leg_index: usize,
    /// Leg role.
    pub role: BasketLegRole,
    /// Cumulative target release quantity for the leg.
    pub target_release_qty: OrderQty,
    /// Planned child order.
    pub plan: ChildOrderPlan,
}

impl BasketChildAllocation {
    /// Returns leg index from the caller-provided leg slice.
    pub fn leg_index(&self) -> (r: usize)
        ensures
            r == self.leg_index,
    {
        self.leg_index
    }

    /// Returns leg role.
    pub fn role(&self) -> (r: BasketLegRole)
        ensures
            r == self.role,
    {
        self.role
    }

    /// Returns cumulative target release quantity for the leg.
    pub fn target_release_qty(&self) -> (r: OrderQty)
        ensures
            r == self.target_release_qty,
    {
        self.target_release_qty
    }

    /// Returns planned child order.
    pub fn plan(&self) -> (r: ChildOrderPlan)
        ensures
            r == self.plan,
    {
        self.plan
    }
}

/// Fixed-capacity basket decision holding at most `N` allocations.
#[derive(Debug, PartialEq, Eq)]
pub struct BasketDecision<const N: usize> {
    allocations: Vec<BasketChildAllocation>,
    considered_legs: usize,
    blocked_legs: usize,
}

impl<const N: usize> BasketDecision<N> {
    #[verifier::type_invariant]
    spec fn inv(&self) -> bool {
        self.allocations@.len() <= N
    }

    /// Allocations in leg order.
    pub closed spec fn spec_allocations(&self) -> Seq<BasketChildAllocation> {
        self.allocations@
    }

    /// Considered legs.
    pub closed spec fn spec_considered(&self) -> usize {
        self.considered_legs
    }

    /// Blocked legs.
    pub closed spec fn spec_blocked(&self) -> usize {
        self.blocked_legs
    }

    /// Creates an empty basket decision.
    pub fn new(considered_legs: usize) -> (r: Self)
        ensures
            r.spec_allocations().len() == 0,
            r.spec_considered() == considered_legs,
            r.spec_blocked() == 0,
    {
        Self { allocations: Vec::new(), considered_legs, blocked_legs: 0 }
    }

    /// Returns allocation count.
    pub fn len(&self) -> (r: usize)
        ensures
            r == self.spec_allocations().len(),
            r <= N,
    {
        proof {
            use_type_invariant(self);
        }
        self.allocations.len()
    }

    /// Returns true when no allocations were produced.
    pub fn is_empty(&self) -> (r: bool)
        ensures
            r == (self.spec_allocations().len() == 0),
    {
        self.allocations.len() == 0
    }

    /// Returns considered leg count.
    pub fn considered_legs(&self) -> (r: usize)
        ensures
            r == self.spec_considered(),
    {
        self.considered_legs
    }

    /// Returns blocked leg count.
    pub fn blocked_legs(&self) -> (r: usize)
        ensures
            r == self.spec_blocked(),
    {
        self.blocked_legs
    }

    /// Iterates over the allocations in leg order.
    pub fn allocations(&self) -> (r: std::slice::Iter<'_, BasketChildAllocation>)
        ensures
            vstd::std_specs::iter::IteratorSpec::remaining(&r) == self.spec_allocations().as_ref(),
    {
        broadcast use vstd::std_specs::slice::axiom_spec_slice_iter;

        self.allocations.as_slice().iter()
    }

    /// Returns the allocations as a slice.
    pub fn allocation_list(&self) -> (r: &[BasketChildAllocation])
        ensures
            r@ == self.spec_allocations(),
    {
        self.allocations.as_slice()
    }

    fn push(&mut self, allocation: BasketChildAllocation)
        requires
            old(self).spec_allocations().len() < N,
        ensures
            final(self).spec_allocations() == old(self).spec_allocations().push(allocation),
            final(self).spec_considered() == old(self).spec_considered(),
            final(self).spec_blocked() == old(self).spec_blocked(),
    {
        let mut allocations: Vec<BasketChildAllocation> = Vec::new();
        std::mem::swap(&mut allocations, &mut self.allocations);
        allocations.push(allocation);
        self.allocations = allocations;
    }

    fn mark_blocked(&mut self)
        ensures
            final(self).spec_allocations() == old(self).spec_allocations(),
            final(self).spec_considered() == old(self).spec_considered(),
            final(self).spec_blocked() == spec_sat_inc(old(self).spec_blocked()),
    {
        proof {
            use_type_invariant(&*self);
        }
        self.blocked_legs = self.blocked_legs.saturating_add(1);
    }
}

/// Target cumulative release of a leg: its total scaled by the elapsed share
/// of its schedule.
pub open spec fn spec_basket_target(parent: ParentOrder, now_ns: u64) -> int {
    spec_scale_qty_bps(
        parent.spec_total_qty().0 as int,
        spec_elapsed_bps(parent.spec_start_ns() as int, parent.spec_end_ns() as int, now_ns as int),
    )
}

/// One leg of the basket scan: an invalid parent or mismatched progress is
/// an error; a terminal leg is blocked; a leg not started, complete, or with
/// no clip due is passed over; else the leg's child, with the next caller
/// identifiers, unless the decision is full.
pub open spec fn spec_basket_step(
    cap: usize,
    leg_index: int,
    leg: BasketLeg,
    progress: AlgoProgress,
    now_ns: u64,
    child_ids: Seq<ChildOrderId>,
    client_ids: Seq<ClientOrderId>,
    ts_recv_ns: u64,
    allocs: Seq<BasketChildAllocation>,
    blocked: usize,
) -> Result<(Seq<BasketChildAllocation>, usize), AlgoError> {
    let parent = leg.parent;
    match spec_parent_validate(parent) {
        Err(e) => Err(e),
        Ok(_) => if spec_parent_terminal(parent.spec_status()) {
            Ok((allocs, spec_sat_inc(blocked)))
        } else if progress.parent_id@ != parent.spec_id()@ || progress.target_qty != parent.spec_total_qty() {
            Err(AlgoError::InvalidProgress)
        } else if now_ns < parent.spec_start_ns() || progress.completed_qty.0 >= progress.target_qty.0 {
            Ok((allocs, blocked))
        } else {
            let target = spec_basket_target(parent, now_ns);
            let due = clamp_i64(target - progress.released_qty.0);
            if due <= 0 {
                Ok((allocs, blocked))
            } else {
                match spec_clip_qty(parent, progress, due, now_ns) {
                    None => Ok((allocs, blocked)),
                    Some(q) => if allocs.len() == cap {
                        Err(AlgoError::DecisionFull { capacity: cap })
                    } else {
                        let request = spec_child_request(
                            parent,
                            parent.spec_route_id(),
                            parent.spec_side(),
                            client_ids[allocs.len() as int],
                            OrderQty(q),
                            parent.spec_limit_price(),
                            ts_recv_ns,
                        );
                        match request.spec_validate() {
                            Err(e) => Err(AlgoError::Core(e)),
                            Ok(_) => Ok(
                                (
                                    allocs.push(
                                        BasketChildAllocation {
                                            leg_index: leg_index as usize,
                                            role: leg.role,
                                            target_release_qty: OrderQty(target as i64),
                                            plan: ChildOrderPlan::spec_from_parts(
                                                child_ids[allocs.len() as int],
                                                parent.spec_id(),
                                                request,
                                                now_ns,
                                                ChildOrderStatus::Planned,
                                            ),
                                        },
                                    ),
                                    blocked,
                                ),
                            ),
                        }
                    },
                }
            }
        }
    }
}

/// The basket scan over the first `k` legs.
pub open spec fn spec_basket_fold(
    cap: usize,
    legs: Seq<BasketLeg>,
    progresses: Seq<AlgoProgress>,
    now_ns: u64,
    child_ids: Seq<ChildOrderId>,
    client_ids: Seq<ClientOrderId>,
    ts_recv_ns: u64,
    k: int,
) -> Result<(Seq<BasketChildAllocation>, usize), AlgoError>
    decreases k,
{
    if k <= 0 {
        Ok((Seq::empty(), 0usize))
    } else {
        match spec_basket_fold(cap, legs, progresses, now_ns, child_ids, client_ids, ts_recv_ns, k - 1) {
            Err(e) => Err(e),
            Ok((allocs, blocked)) => spec_basket_step(
                cap,
                k - 1,
                legs[k - 1],
                progresses[k - 1],
                now_ns,
                child_ids,
                client_ids,
                ts_recv_ns,
                allocs,
                blocked,
            ),
        }
    }
}

/// The basket plan: mismatched legs and progress, or too few identifiers
/// for the legs that fit, is `InvalidBasketParameters`; else the scan.
pub open spec fn spec_basket_plan(
    cap: usize,
    legs: Seq<BasketLeg>,
    progresses: Seq<AlgoProgress>,
    now_ns: u64,
    child_ids: Seq<ChildOrderId>,
    client_ids: Seq<ClientOrderId>,
    ts_recv_ns: u64,
) -> Result<(Seq<BasketChildAllocation>, usize), AlgoError> {
    let needed = min_int(legs.len() as int, cap as int);
    if legs.len() != progresses.len() || child_ids.len() < needed || client_ids.len() < needed {
        Err(AlgoError::InvalidBasketParameters)
    } else {
        spec_basket_fold(
            cap,
            legs,
            progresses,
            now_ns,
            child_ids,
            client_ids,
            ts_recv_ns,
            legs.len() as int,
        )
    }
}

/// Once the basket scan fails it fails the same way on every longer prefix.
proof fn lemma_basket_error_sticks(
    cap: usize,
    legs: Seq<BasketLeg>,
    progresses: Seq<AlgoProgress>,
    now_ns: u64,
    child_ids: Seq<ChildOrderId>,
    client_ids: Seq<ClientOrderId>,
    ts_recv_ns: u64,
    k: int,
    e: AlgoError,
)
    requires
        0 <= k <= legs.len(),
        spec_basket_fold(cap, legs, progresses, now_ns, child_ids, client_ids, ts_recv_ns, k)
            == Err::<(Seq<BasketChildAllocation>, usize), AlgoError>(e),
    ensures
        spec_basket_fold(
            cap,
            legs,
            progresses,
            now_ns,
            child_ids,
            client_ids,
            ts_recv_ns,
            legs.len() as int,
        ) == Err::<(Seq<BasketChildAllocation>, usize), AlgoError>(e),
    decreases legs.len() - k,
{
    if k < legs.len() {
        lemma_basket_error_sticks(
            cap,
            legs,
            progresses,
            now_ns,
            child_ids,
            client_ids,
            ts_recv_ns,
            k + 1,
            e,
        );
    }
}

/// Each leg's allocations come from that leg and never outnumber the legs
/// scanned so far.
proof fn lemma_basket_fold_bounds(
    cap: usize,
    legs: Seq<BasketLeg>,
    progresses: Seq<AlgoProgress>,
    now_ns: u64,
    child_ids: Seq<ChildOrderId>,
    client_ids: Seq<ClientOrderId>,
    ts_recv_ns: u64,
    k: int,
)
    requires
        0 <= k <= legs.len(),
    ensures
        spec_basket_fold(cap, legs, progresses, now_ns, child_ids, client_ids, ts_recv_ns, k) matches Ok(
            (allocs, _b),
        ) ==> allocs.len() <= k && allocs.len() <= cap,
    decreases k,
{
    if k > 0 {
        lemma_basket_fold_bounds(
            cap,
            legs,
            progresses,
            now_ns,
            child_ids,
            client_ids,
            ts_recv_ns,
            k - 1,
        );
    }
}

/// Deterministic synchronized basket/spread planner.
#[derive(Debug, Clone, Copy, PartialEq, Eq)]
pub struct BasketPlanner;

impl BasketPlanner {
    /// Creates a basket planner.
    pub fn new() -> (r: Self)
        ensures
            r == BasketPlanner,
    {
        BasketPlanner
    }

    /// Plans synchronized child slices: at most one child per due leg, each
    /// on its own schedule and clips, using the caller's identifiers in
    /// order.
    pub fn plan_synchronized_slice<const N: usize>(
        &self,
        legs: &[BasketLeg],
        progresses: &[AlgoProgress],
        now_ns: u64,
        child_ids: &[ChildOrderId],
        client_order_ids: &[ClientOrderId],
        ts_recv_ns: u64,
    ) -> (r: Result<BasketDecision<N>, AlgoError>)
        ensures
            match spec_basket_plan(
                N,
                legs@,
                progresses@,
                now_ns,
                child_ids@,
                client_order_ids@,
                ts_recv_ns,
            ) {
                Err(e) => r == Err::<BasketDecision<N>, AlgoError>(e),
                Ok((allocs, blocked)) => r matches Ok(d) && d.spec_allocations() == allocs
                    && d.spec_blocked() == blocked && d.spec_considered() == legs@.len(),
            },
    {
        let needed = if legs.len() <= N {
            legs.len()
        } else {
            N
        };
        if legs.len() != progresses.len() || child_ids.len() < needed || client_order_ids.len()
            < needed {
            return Err(AlgoError::InvalidBasketParameters);
        }
        let mut decision = BasketDecision::<N>::new(legs.len());
        proof {
            assert(decision.spec_allocations() =~= Seq::<BasketChildAllocation>::empty());
        }
        let mut index: usize = 0;
        while index < legs.len()
            invariant
                index <= legs@.len(),
                legs@.len() == progresses@.len(),
                child_ids@.len() >= min_int(legs@.len() as int, N as int),
                client_order_ids@.len() >= min_int(legs@.len() as int, N as int),
                decision.spec_considered() == legs@.len(),
                spec_basket_fold(
                    N,
                    legs@,
                    progresses@,
                    now_ns,
                    child_ids@,
                    client_order_ids@,
                    ts_recv_ns,
                    index as int,
                ) == Ok::<(Seq<BasketChildAllocation>, usize), AlgoError>(
                    (decision.spec_allocations(), decision.spec_blocked()),
                ),
            decreases legs@.len() - index,
        {
            proof {
                lemma_basket_fold_bounds(
                    N,
                    legs@,
                    progresses@,
                    now_ns,
                    child_ids@,
                    client_order_ids@,
                    ts_recv_ns,
                    index as int,
                );
            }
            let leg = legs[index];
            let progress = progresses[index];
            let parent = leg.parent;
            match parent.validate() {
                Err(e) => {
                    proof {
                        lemma_basket_error_sticks(
                            N,
                            legs@,
                            progresses@,
                            now_ns,
                            child_ids@,
                            client_order_ids@,
                            ts_recv_ns,
                            index as int + 1,
                            e,
                        );
                    }
                    return Err(e);
                },
                Ok(()) => {},
            }
            if parent.status().is_terminal() {
                decision.mark_blocked();
            } else if !progress.parent_id.same_text(&parent.id()) || progress.target_qty.0
                != parent.total_qty().0 {
                proof {
                    lemma_basket_error_sticks(
                        N,
                        legs@,
                        progresses@,
                        now_ns,
                        child_ids@,
                        client_order_ids@,
                        ts_recv_ns,
                        index as int + 1,
                        AlgoError::InvalidProgress,
                    );
                }
                return Err(AlgoError::InvalidProgress);
            } else if now_ns >= parent.start_ns() && !progress.is_complete() {
                let target = scale_qty_bps(
                    parent.total_qty().0,
                    elapsed_bps(parent.start_ns(), parent.end_ns(), now_ns) as u32,
                );
                let due_qty = sat_sub_i64(target, progress.released_qty.0);
                if due_qty > 0 {
                    match clip_due_qty(&parent, &progress, due_qty, now_ns) {
                        None => {},
                        Some(q) => {
                            if decision.len() == N {
                                proof {
                                    lemma_basket_error_sticks(
                                        N,
                                        legs@,
                                        progresses@,
                                        now_ns,
                                        child_ids@,
                                        client_order_ids@,
                                        ts_recv_ns,
                                        index as int + 1,
                                        AlgoError::DecisionFull { capacity: N },
                                    );
                                }
                                return Err(AlgoError::DecisionFull { capacity: N });
                            }
                            let slot = decision.len();
                            let request = parent.build_order_request(
                                client_order_ids[slot],
                                OrderQty(q),
                                ts_recv_ns,
                            );
                            let plan = match ChildOrderPlan::new(
                                child_ids[slot],
                                parent.id(),
                                request,
                                now_ns,
                            ) {
                                Err(e) => {
                                    proof {
                                        lemma_basket_error_sticks(
                                            N,
                                            legs@,
                                            progresses@,
                                            now_ns,
                                            child_ids@,
                                            client_order_ids@,
                                            ts_recv_ns,
                                            index as int + 1,
                                            e,
                                        );
                                    }
                                    return Err(e);
                                },
                                Ok(plan) => plan,
                            };
                            decision.push(
                                BasketChildAllocation {
                                    leg_index: index,
                                    role: leg.role,
                                    target_release_qty: OrderQty(target),
                                    plan,
                                },
                            );
                        },
                    }
                }
            }
            index = index + 1;
        }
        Ok(decision)
    }
}

impl Default for BasketPlanner {
    fn default() -> (r: Self) {
        BasketPlanner
    }
}

/// Two-leg spread execution configuration.
#[derive(Debug, Clone, Copy, PartialEq, Eq)]
pub struct SpreadConfig {
    /// Sell-leg ratio in basis points (`10_000` is one to one).
    pub ratio_bps: u32,
    /// Minimum required spread edge in basis points.
    pub min_edge_bps: i32,
}

impl SpreadConfig {
    /// Creates a configuration; a zero ratio is `InvalidSpreadParameters`.
    pub fn new(ratio_bps: u32, min_edge_bps: i32) -> (r: Result<Self, AlgoError>)
        ensures
            if ratio_bps == 0 {
                r == Err::<Self, AlgoError>(AlgoError::InvalidSpreadParameters)
            } else {
                r == Ok::<Self, AlgoError>(SpreadConfig { ratio_bps, min_edge_bps })
            },
    {
        if ratio_bps == 0 {
            return Err(AlgoError::InvalidSpreadParameters);
        }
        Ok(Self { ratio_bps, min_edge_bps })
    }

    /// Returns sell-leg ratio in basis points.
    pub fn ratio_bps(&self) -> (r: u32)
        ensures
            r == self.ratio_bps,
    {
        self.ratio_bps
    }

    /// Returns minimum required spread edge in basis points.
    pub fn min_edge_bps(&self) -> (r: i32)
        ensures
            r == self.min_edge_bps,
    {
        self.min_edge_bps
    }
}

/// Current executable two-leg spread prices.
#[derive(Debug, Clone, Copy, PartialEq, Eq)]
pub struct SpreadQuote {
    /// Executable buy-leg price.
    pub buy_price: OrderPrice,
    /// Executable sell-leg price.
    pub sell_price: OrderPrice,
}

impl SpreadQuote {
    /// Creates quote prices; a non-positive price is
    /// `InvalidSpreadParameters`.
    pub fn new(buy_price: OrderPrice, sell_price: OrderPrice) -> (r: Result<Self, AlgoError>)
        ensures
            if buy_price.0 <= 0 || sell_price.0 <= 0 {
                r == Err::<Self, AlgoError>(AlgoError::InvalidSpreadParameters)
            } else {
                r == Ok::<Self, AlgoError>(SpreadQuote { buy_price, sell_price })
            },
    {
        if buy_price.0 <= 0 || sell_price.0 <= 0 {
            return Err(AlgoError::InvalidSpreadParameters);
        }
        Ok(Self { buy_price, sell_price })
    }

    /// Returns executable buy-leg price.
    pub fn buy_price(&self) -> (r: OrderPrice)
        ensures
            r == self.buy_price,
    {
        self.buy_price
    }

    /// Returns executable sell-leg price.
    pub fn sell_price(&self) -> (r: OrderPrice)
        ensures
            r == self.sell_price,
    {
        self.sell_price
    }
}

/// Spread estimate.
#[derive(Debug, Clone, Copy, PartialEq, Eq)]
pub struct SpreadEstimate {
    /// Current spread edge in basis points.
    pub edge_bps: i32,
    /// Edge meets the configured threshold.
    pub executable: bool,
    /// Planned buy-leg quantity.
    pub buy_qty: OrderQty,
    /// Planned sell-leg quantity.
    pub sell_qty: OrderQty,
}

impl SpreadEstimate {
    /// Returns current spread edge in basis points.
    pub fn edge_bps(&self) -> (r: i32)
        ensures
            r == self.edge_bps,
    {
        self.edge_bps
    }

    /// Returns true when edge meets the configured threshold.
    pub fn executable(&self) -> (r: bool)
        ensures
            r == self.executable,
    {
        self.executable
    }

    /// Returns planned buy-leg quantity.
    pub fn buy_qty(&self) -> (r: OrderQty)
        ensures
            r == self.buy_qty,
    {
        self.buy_qty
    }

    /// Returns planned sell-leg quantity.
    pub fn sell_qty(&self) -> (r: OrderQty)
        ensures
            r == self.sell_qty,
    {
        self.sell_qty
    }
}

/// Two-leg spread decision.
#[derive(Debug, Clone, Copy, PartialEq, Eq)]
pub struct SpreadDecision {
    /// Estimate used by the decision.
    pub estimate: SpreadEstimate,
    /// Optional buy-leg child order.
    pub buy: Option<ChildOrderPlan>,
    /// Optional sell-leg child order.
    pub sell: Option<ChildOrderPlan>,
}

impl SpreadDecision {
    /// Returns estimate used by the decision.
    pub fn estimate(&self) -> (r: SpreadEstimate)
        ensures
            r == self.estimate,
    {
        self.estimate
    }

    /// Returns optional buy-leg child order.
    pub fn buy(&self) -> (r: Option<ChildOrderPlan>)
        ensures
            r == self.buy,
    {
        self.buy
    }

    /// Returns optional sell-leg child order.
    pub fn sell(&self) -> (r: Option<ChildOrderPlan>)
        ensures
            r == self.sell,
    {
        self.sell
    }
}

/// Leg checks: valid parents, neither terminal, a buy and a sell, each
/// progress matching its leg.
pub open spec fn spec_spread_legs(
    buy_parent: ParentOrder,
    buy_progress: AlgoProgress,
    sell_parent: ParentOrder,
    sell_progress: AlgoProgress,
) -> Result<(), AlgoError> {
    match spec_parent_validate(buy_parent) {
        Err(e) => Err(e),
        Ok(_) => match spec_parent_validate(sell_parent) {
            Err(e) => Err(e),
            Ok(_) => if spec_parent_terminal(buy_parent.spec_status()) || spec_parent_terminal(
                sell_parent.spec_status(),
            ) {
                Err(AlgoError::ParentTerminal)
            } else if buy_parent.spec_side() != OrderSide::Buy || sell_parent.spec_side() != OrderSide::Sell {
                Err(AlgoError::InvalidSpreadParameters)
            } else if buy_progress.parent_id@ != buy_parent.spec_id()@ || buy_progress.target_qty
                != buy_parent.spec_total_qty() || sell_progress.parent_id@ != sell_parent.spec_id()@
                || sell_progress.target_qty != sell_parent.spec_total_qty() {
                Err(AlgoError::InvalidProgress)
            } else {
                Ok(())
            },
        },
    }
}

/// Unreleased quantity of a leg capped by its maximum clip.
pub open spec fn spec_leg_leaves(parent: ParentOrder, progress: AlgoProgress) -> int {
    min_int(clamp_i64(parent.spec_total_qty().0 - progress.released_qty.0), parent.spec_max_clip().0 as int)
}

/// The spread estimate: the edge of the quote at the ratio, executable at
/// the minimum edge; the buy quantity is the buy leg's leaves bounded by
/// what the sell leg can match at the ratio, the sell quantity the buy
/// quantity at the ratio bounded by the sell leg's leaves.
pub open spec fn spec_spread_estimate(
    config: SpreadConfig,
    buy_parent: ParentOrder,
    buy_progress: AlgoProgress,
    sell_parent: ParentOrder,
    sell_progress: AlgoProgress,
    quote: SpreadQuote,
) -> Result<SpreadEstimate, AlgoError> {
    match spec_spread_legs(buy_parent, buy_progress, sell_parent, sell_progress) {
        Err(e) => Err(e),
        Ok(_) => {
            let edge = spec_spread_edge_bps(
                quote.buy_price.0 as int,
                quote.sell_price.0 as int,
                config.ratio_bps as int,
            );
            let buy_leaves = spec_leg_leaves(buy_parent, buy_progress);
            let sell_leaves = spec_leg_leaves(sell_parent, sell_progress);
            let buy_qty = min_int(
                buy_leaves,
                spec_scale_qty_inverse_bps(sell_leaves, config.ratio_bps as int),
            );
            let sell_qty = min_int(
                spec_scale_qty_bps(buy_qty, config.ratio_bps as int),
                sell_leaves,
            );
            Ok(
                SpreadEstimate {
                    edge_bps: edge as i32,
                    executable: edge >= config.min_edge_bps,
                    buy_qty: OrderQty(buy_qty as i64),
                    sell_qty: OrderQty(sell_qty as i64),
                },
            )
        },
    }
}

/// The spread decision: before both legs start or once either is complete,
/// the estimate marked not executable; without edge or below either leg's
/// minimum clip, the estimate alone; else a buy child at the buy price and
/// a sell child at the sell price.
pub open spec fn spec_spread_plan(
    config: SpreadConfig,
    buy_parent: ParentOrder,
    buy_progress: AlgoProgress,
    sell_parent: ParentOrder,
    sell_progress: AlgoProgress,
    now_ns: u64,
    quote: SpreadQuote,
    buy_child_id: ChildOrderId,
    buy_client_order_id: ClientOrderId,
    sell_child_id: ChildOrderId,
    sell_client_order_id: ClientOrderId,
    ts_recv_ns: u64,
) -> Result<SpreadDecision, AlgoError> {
    match spec_spread_estimate(config, buy_parent, buy_progress, sell_parent, sell_progress, quote) {
        Err(e) => Err(e),
        Ok(est) => if now_ns < max_int(buy_parent.spec_start_ns() as int, sell_parent.spec_start_ns() as int)
            || buy_progress.completed_qty.0 >= buy_progress.target_qty.0
            || sell_progress.completed_qty.0 >= sell_progress.target_qty.0 {
            Ok(
                SpreadDecision {
                    estimate: SpreadEstimate { executable: false, ..est },
                    buy: None,
                    sell: None,
                },
            )
        } else if !est.executable || est.buy_qty.0 < buy_parent.spec_min_clip().0 || est.sell_qty.0
            < sell_parent.spec_min_clip().0 {
            Ok(SpreadDecision { estimate: est, buy: None, sell: None })
        } else {
            let buy_request = spec_child_request(
                buy_parent,
                buy_parent.spec_route_id(),
                OrderSide::Buy,
                buy_client_order_id,
                est.buy_qty,
                quote.buy_price,
                ts_recv_ns,
            );
            let sell_request = spec_child_request(
                sell_parent,
                sell_parent.spec_route_id(),
                OrderSide::Sell,
                sell_client_order_id,
                est.sell_qty,
                quote.sell_price,
                ts_recv_ns,
            );
            match buy_request.spec_validate() {
                Err(e) => Err(AlgoError::Core(e)),
                Ok(_) => match sell_request.spec_validate() {
                    Err(e) => Err(AlgoError::Core(e)),
                    Ok(_) => Ok(
                        SpreadDecision {
                            estimate: est,
                            buy: Some(
                                ChildOrderPlan::spec_from_parts(
                                    buy_child_id,
                                    buy_parent.spec_id(),
                                    buy_request,
                                    now_ns,
                                    ChildOrderStatus::Planned,
                                ),
                            ),
                            sell: Some(
                                ChildOrderPlan::spec_from_parts(
                                    sell_child_id,
                                    sell_parent.spec_id(),
                                    sell_request,
                                    now_ns,
                                    ChildOrderStatus::Planned,
                                ),
                            ),
                        },
                    ),
                },
            }
        },
    }
}

/// Deterministic two-leg pairs/spread planner.
#[derive(Debug, Clone, Copy, PartialEq, Eq)]
pub struct SpreadPlanner {
    /// Planner configuration.
    pub config: SpreadConfig,
}

impl SpreadPlanner {
    /// Creates a spread planner.
    pub fn new(config: SpreadConfig) -> (r: Self)
        ensures
            r.config == config,
    {
        Self { config }
    }

    /// Returns planner configuration.
    pub fn config(&self) -> (r: SpreadConfig)
        ensures
            r == self.config,
    {
        self.config
    }

    /// Estimates edge and executable leg quantities.
    pub fn estimate(
        &self,
        buy_parent: &ParentOrder,
        buy_progress: AlgoProgress,
        sell_parent: &ParentOrder,
        sell_progress: AlgoProgress,
        quote: SpreadQuote,
    ) -> (r: Result<SpreadEstimate, AlgoError>)
        ensures
            r == spec_spread_estimate(
                self.config,
                *buy_parent,
                buy_progress,
                *sell_parent,
                sell_progress,
                quote,
            ),
    {
        match self.validate_legs(buy_parent, &buy_progress, sell_parent, &sell_progress) {
            Err(e) => {
                return Err(e);
            },
            Ok(()) => {},
        }
        let edge = spread_edge_bps(quote.buy_price, quote.sell_price, self.config.ratio_bps);
        let executable = edge >= self.config.min_edge_bps;
        let buy_unreleased = sat_sub_i64(buy_parent.total_qty().0, buy_progress.released_qty.0);
        let buy_leaves = if buy_unreleased <= buy_parent.max_clip().0 {
            buy_unreleased
        } else {
            buy_parent.max_clip().0
        };
        let sell_unreleased = sat_sub_i64(sell_parent.total_qty().0, sell_progress.released_qty.0);
        let sell_leaves = if sell_unreleased <= sell_parent.max_clip().0 {
            sell_unreleased
        } else {
            sell_parent.max_clip().0
        };
        let buy_from_sell = scale_qty_inverse_bps(sell_leaves, self.config.ratio_bps);
        let buy_qty = if buy_leaves <= buy_from_sell {
            buy_leaves
        } else {
            buy_from_sell
        };
        let scaled = scale_qty_bps(buy_qty, self.config.ratio_bps);
        let sell_qty = if scaled <= sell_leaves {
            scaled
        } else {
            sell_leaves
        };
        Ok(
            SpreadEstimate {
                edge_bps: edge,
                executable,
                buy_qty: OrderQty(buy_qty),
                sell_qty: OrderQty(sell_qty),
            },
        )
    }

    /// Plans synchronized buy/sell spread child orders.
    #[allow(clippy::too_many_arguments)]
    pub fn plan_spread(
        &self,
        buy_parent: &ParentOrder,
        buy_progress: AlgoProgress,
        sell_parent: &ParentOrder,
        sell_progress: AlgoProgress,
        now_ns: u64,
        quote: SpreadQuote,
        buy_child_id: ChildOrderId,
        buy_client_order_id: ClientOrderId,
        sell_child_id: ChildOrderId,
        sell_client_order_id: ClientOrderId,
        ts_recv_ns: u64,
    ) -> (r: Result<SpreadDecision, AlgoError>)
        ensures
            r == spec_spread_plan(
                self.config,
                *buy_parent,
                buy_progress,
                *sell_parent,
                sell_progress,
                now_ns,
                quote,
                buy_child_id,
                buy_client_order_id,
                sell_child_id,
                sell_client_order_id,
                ts_recv_ns,
            ),
    {
        let start = if buy_parent.start_ns() >= sell_parent.start_ns() {
            buy_parent.start_ns()
        } else {
            sell_parent.start_ns()
        };
        let estimate = match self.estimate(
            buy_parent,
            buy_progress,
            sell_parent,
            sell_progress,
            quote,
        ) {
            Err(e) => {
                return Err(e);
            },
            Ok(est) => est,
        };
        if now_ns < start || buy_progress.is_complete() || sell_progress.is_complete() {
            return Ok(
                SpreadDecision {
                    estimate: SpreadEstimate { executable: false, ..estimate },
                    buy: None,
                    sell: None,
                },
            );
        }
        if !estimate.executable || estimate.buy_qty.0 < buy_parent.min_clip().0
            || estimate.sell_qty.0 < sell_parent.min_clip().0 {
            return Ok(SpreadDecision { estimate, buy: None, sell: None });
        }
        let buy_request = buy_parent.build_order_request_for_side_at_price(
            OrderSide::Buy,
            buy_client_order_id,
            estimate.buy_qty,
            quote.buy_price,
            ts_recv_ns,
        );
        let sell_request = sell_parent.build_order_request_for_side_at_price(
            OrderSide::Sell,
            sell_client_order_id,
            estimate.sell_qty,
            quote.sell_price,
            ts_recv_ns,
        );
        let buy = match ChildOrderPlan::new(buy_child_id, buy_parent.id(), buy_request, now_ns) {
            Err(e) => {
                return Err(e);
            },
            Ok(plan) => plan,
        };
        let sell = match ChildOrderPlan::new(sell_child_id, sell_parent.id(), sell_request, now_ns) {
            Err(e) => {
                return Err(e);
            },
            Ok(plan) => plan,
        };
        Ok(SpreadDecision { estimate, buy: Some(buy), sell: Some(sell) })
    }

    fn validate_legs(
        &self,
        buy_parent: &ParentOrder,
        buy_progress: &AlgoProgress,
        sell_parent: &ParentOrder,
        sell_progress: &AlgoProgress,
    ) -> (r: Result<(), AlgoError>)
        ensures
            r == spec_spread_legs(*buy_parent, *buy_progress, *sell_parent, *sell_progress),
    {
        match buy_parent.validate() {
            Err(e) => {
                return Err(e);
            },
            Ok(()) => {},
        }
        match sell_parent.validate() {
            Err(e) => {
                return Err(e);
            },
            Ok(()) => {},
        }
        if buy_parent.status().is_terminal() || sell_parent.status().is_terminal() {
            return Err(AlgoError::ParentTerminal);
        }
        let sides_ok = match (buy_parent.side(), sell_parent.side()) {
            (OrderSide::Buy, OrderSide::Sell) => true,
            _ => false,
        };
        if !sides_ok {
            return Err(AlgoError::InvalidSpreadParameters);
        }
        if !buy_progress.parent_id.same_text(&buy_parent.id()) || buy_progress.target_qty.0
            != buy_parent.total_qty().0 || !sell_progress.parent_id.same_text(&sell_parent.id())
            || sell_progress.target_qty.0 != sell_parent.total_qty().0 {
            return Err(AlgoError::InvalidProgress);
        }
        Ok(())
    }
}

/// A spread releases both legs or neither, and never sells more than its
/// leg's leaves or buys more than its leg's leaves.
pub proof fn law_spread_legs_together(
    config: SpreadConfig,
    buy_parent: ParentOrder,
    buy_progress: AlgoProgress,
    sell_parent: ParentOrder,
    sell_progress: AlgoProgress,
    now_ns: u64,
    quote: SpreadQuote,
    buy_child_id: ChildOrderId,
    buy_client_order_id: ClientOrderId,
    sell_child_id: ChildOrderId,
    sell_client_order_id: ClientOrderId,
    ts_recv_ns: u64,
)
    requires
        spec_spread_plan(
            config,
            buy_parent,
            buy_progress,
            sell_parent,
            sell_progress,
            now_ns,
            quote,
            buy_child_id,
            buy_client_order_id,
            sell_child_id,
            sell_client_order_id,
            ts_recv_ns,
        ) is Ok,
    ensures
        ({
            let d = spec_spread_plan(
                config,
                buy_parent,
                buy_progress,
                sell_parent,
                sell_progress,
                now_ns,
                quote,
                buy_child_id,
                buy_client_order_id,
                sell_child_id,
                sell_client_order_id,
                ts_recv_ns,
            )->Ok_0;
            &&& (d.buy is Some <==> d.sell is Some)
            &&& d.buy is Some ==> d.estimate.executable
            &&& d.buy is Some ==> d.buy->Some_0.spec_request().quantity.0 <= spec_leg_leaves(
                buy_parent,
                buy_progress,
            )
            &&& d.sell is Some ==> d.sell->Some_0.spec_request().quantity.0 <= spec_leg_leaves(
                sell_parent,
                sell_progress,
            )
        }),
{
}

} // verus!
