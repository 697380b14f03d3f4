//! Deterministic fill simulation of generated child orders.

use vstd::prelude::*;
use vstd::string::StringSliceAdditionalSpecFns;
use crate::algo_model::{AlgoAction, AlgoDecision, AlgoError, ChildOrderId, ChildOrderPlan};
use crate::algo_support::{fixed_id_with_index, spec_decimal_ascii};
use crate::arith::{clamp_i64, clamp_u64, max_int, min_int, sat_add_i64, sat_sub_i64};
use crate::ids::{ClientOrderId, ExecutionId, ExecutionText, VenueOrderId};
use crate::orders::{
    ExecutionEvent, ExecutionType, OrderPrice, OrderQty, OrderStatus, RiskRejectReason,
};

verus! {

broadcast use crate::algo_model::group_child_plan;

/// Deterministic child-order simulation outcome.
#[derive(Debug, Clone, Copy, PartialEq, Eq, Hash, Structural)]
#[non_exhaustive]
pub enum AlgoSimOutcome {
    /// Child was fully filled.
    Filled,
    /// Child was partially filled and remaining quantity stays open.
    PartiallyFilled,
    /// Child was rejected.
    Rejected,
    /// Child was partially filled and remaining quantity was cancelled.
    CancelledRemainder,
    /// Child did not fill and remains resting.
    Resting,
}

impl AlgoSimOutcome {
    /// Wire code of the outcome (filled 1 through resting 5).
    pub fn code(self) -> (r: u8)
        ensures
            r == (match self {
                AlgoSimOutcome::Filled => 1u8,
                AlgoSimOutcome::PartiallyFilled => 2u8,
                AlgoSimOutcome::Rejected => 3u8,
                AlgoSimOutcome::CancelledRemainder => 4u8,
                AlgoSimOutcome::Resting => 5u8,
            }),
    {
        match self {
            AlgoSimOutcome::Filled => 1,
            AlgoSimOutcome::PartiallyFilled => 2,
            AlgoSimOutcome::Rejected => 3,
            AlgoSimOutcome::CancelledRemainder => 4,
            AlgoSimOutcome::Resting => 5,
        }
    }
}

/// Deterministic market/fill model for one simulation pass.
#[derive(Debug, Clone, Copy, PartialEq, Eq)]
pub struct AlgoSimMarket {
    /// Quantity the market can fill per child.
    pub(crate) available_qty: OrderQty,
    /// Price of simulated fills.
    pub(crate) fill_price: OrderPrice,
    /// Every child is rejected.
    pub(crate) reject: bool,
    /// Unfilled leaves are cancelled.
    pub(crate) cancel_unfilled: bool,
    /// Exchange-to-receive latency in nanoseconds.
    pub(crate) latency_ns: u64,
}

impl AlgoSimMarket {
    #[verifier::type_invariant]
    spec fn inv(self) -> bool {
        self.available_qty.0 >= 0 && (self.reject || self.fill_price.0 > 0)
    }

    /// Quantity the market can fill per child.
    pub closed spec fn spec_available_qty(self) -> OrderQty {
        self.available_qty
    }

    /// Price of simulated fills.
    pub closed spec fn spec_fill_price(self) -> OrderPrice {
        self.fill_price
    }

    /// Whether every child is rejected.
    pub closed spec fn spec_reject(self) -> bool {
        self.reject
    }

    /// Whether unfilled leaves are cancelled.
    pub closed spec fn spec_cancel_unfilled(self) -> bool {
        self.cancel_unfilled
    }

    /// Exchange-to-receive latency in nanoseconds.
    pub closed spec fn spec_latency_ns(self) -> u64 {
        self.latency_ns
    }

    /// Creates a market model; a negative quantity, or a non-rejecting model
    /// with a non-positive fill price, is `InvalidSimulationParameters`.
    pub fn new(
        available_qty: OrderQty,
        fill_price: OrderPrice,
        reject: bool,
        cancel_unfilled: bool,
        latency_ns: u64,
    ) -> (r: Result<Self, AlgoError>)
        ensures
            if available_qty.0 < 0 || (!reject && fill_price.0 <= 0) {
                r == Err::<Self, AlgoError>(AlgoError::InvalidSimulationParameters)
            } else {
                r matches Ok(m) && m.spec_available_qty() == available_qty && m.spec_fill_price()
                    == fill_price && m.spec_reject() == reject && m.spec_cancel_unfilled()
                    == cancel_unfilled && m.spec_latency_ns() == latency_ns
            },
    {
        if available_qty.0 < 0 || (!reject && fill_price.0 <= 0) {
            return Err(AlgoError::InvalidSimulationParameters);
        }
        Ok(Self { available_qty, fill_price, reject, cancel_unfilled, latency_ns })
    }

    /// Returns simulated available quantity.
    pub fn available_qty(&self) -> (r: OrderQty)
        ensures
            r == self.spec_available_qty(),
    {
        self.available_qty
    }

    /// Returns simulated fill price.
    pub fn fill_price(&self) -> (r: OrderPrice)
        ensures
            r == self.spec_fill_price(),
    {
        self.fill_price
    }

    /// Returns true when children should be rejected.
    pub fn reject(&self) -> (r: bool)
        ensures
            r == self.spec_reject(),
    {
        self.reject
    }

    /// Returns true when unfilled leaves should be cancelled.
    pub fn cancel_unfilled(&self) -> (r: bool)
        ensures
            r == self.spec_cancel_unfilled(),
    {
        self.cancel_unfilled
    }

    /// Returns simulated exchange-to-receive latency in nanoseconds.
    pub fn latency_ns(&self) -> (r: u64)
        ensures
            r == self.spec_latency_ns(),
    {
        self.latency_ns
    }
}

/// One simulated child-order result.
#[derive(Debug, Clone, Copy, PartialEq, Eq)]
pub struct AlgoSimStep {
    /// Simulation sequence.
    pub(crate) sequence: u64,
    /// Simulated child.
    pub(crate) child_id: ChildOrderId,
    /// Simulation outcome.
    pub(crate) outcome: AlgoSimOutcome,
    /// Filled quantity.
    pub(crate) filled_qty: OrderQty,
    /// Leaves quantity.
    pub(crate) leaves_qty: OrderQty,
    /// Fill price.
    pub(crate) fill_price: OrderPrice,
    /// Canonical simulated execution event.
    pub(crate) event: ExecutionEvent,
}

impl AlgoSimStep {
    /// Simulation sequence.
    pub closed spec fn spec_sequence(self) -> u64 {
        self.sequence
    }

    /// Simulated child.
    pub closed spec fn spec_child_id(self) -> ChildOrderId {
        self.child_id
    }

    /// Simulation outcome.
    pub closed spec fn spec_outcome(self) -> AlgoSimOutcome {
        self.outcome
    }

    /// Filled quantity.
    pub closed spec fn spec_filled_qty(self) -> OrderQty {
        self.filled_qty
    }

    /// Leaves quantity.
    pub closed spec fn spec_leaves_qty(self) -> OrderQty {
        self.leaves_qty
    }

    /// Fill price.
    pub closed spec fn spec_fill_price(self) -> OrderPrice {
        self.fill_price
    }

    /// Canonical simulated execution event.
    pub closed spec fn spec_event(self) -> ExecutionEvent {
        self.event
    }
    /// Returns simulation sequence.
    pub fn sequence(&self) -> (r: u64)
        ensures
            r == self.spec_sequence(),
    {
        self.sequence
    }

    /// Returns simulated child identifier.
    pub fn child_id(&self) -> (r: ChildOrderId)
        ensures
            r == self.spec_child_id(),
    {
        self.child_id
    }

    /// Returns simulation outcome.
    pub fn outcome(&self) -> (r: AlgoSimOutcome)
        ensures
            r == self.spec_outcome(),
    {
        self.outcome
    }

    /// Returns simulated filled quantity.
    pub fn filled_qty(&self) -> (r: OrderQty)
        ensures
            r == self.spec_filled_qty(),
    {
        self.filled_qty
    }

    /// Returns simulated leaves quantity.
    pub fn leaves_qty(&self) -> (r: OrderQty)
        ensures
            r == self.spec_leaves_qty(),
    {
        self.leaves_qty
    }

    /// Returns simulated fill price.
    pub fn fill_price(&self) -> (r: OrderPrice)
        ensures
            r == self.spec_fill_price(),
    {
        self.fill_price
    }

    /// Returns canonical simulated execution event.
    pub fn event(&self) -> (r: ExecutionEvent)
        ensures
            r == self.spec_event(),
    {
        self.event
    }
}

/// Quantity the market fills of a child: its quantity capped by the
/// available quantity, never negative; nothing when the market rejects.
pub open spec fn spec_sim_filled(market: AlgoSimMarket, child: ChildOrderPlan) -> int {
    if market.spec_reject() {
        0
    } else {
        max_int(min_int(child.spec_request().quantity.0 as int, market.spec_available_qty().0 as int), 0)
    }
}

/// Quantity left after the simulated fill.
pub open spec fn spec_sim_leaves(market: AlgoSimMarket, child: ChildOrderPlan) -> int {
    clamp_i64(child.spec_request().quantity.0 - spec_sim_filled(market, child))
}

/// Outcome, order status and report type of a simulated child.
pub open spec fn spec_sim_kind(market: AlgoSimMarket, child: ChildOrderPlan) -> (
    AlgoSimOutcome,
    OrderStatus,
    ExecutionType,
) {
    let filled = spec_sim_filled(market, child);
    let leaves = spec_sim_leaves(market, child);
    if market.spec_reject() {
        (AlgoSimOutcome::Rejected, OrderStatus::Rejected, ExecutionType::Reject)
    } else if filled == 0 && !market.spec_cancel_unfilled() {
        (AlgoSimOutcome::Resting, OrderStatus::New, ExecutionType::Ack)
    } else if filled == 0 {
        (AlgoSimOutcome::CancelledRemainder, OrderStatus::Cancelled, ExecutionType::CancelAck)
    } else if leaves == 0 {
        (AlgoSimOutcome::Filled, OrderStatus::Filled, ExecutionType::Trade)
    } else if market.spec_cancel_unfilled() {
        (AlgoSimOutcome::CancelledRemainder, OrderStatus::Cancelled, ExecutionType::Trade)
    } else {
        (AlgoSimOutcome::PartiallyFilled, OrderStatus::PartiallyFilled, ExecutionType::Trade)
    }
}

/// Price of a simulated fill, zero when nothing filled.
pub open spec fn spec_sim_price(market: AlgoSimMarket, child: ChildOrderPlan) -> OrderPrice {
    if spec_sim_filled(market, child) > 0 {
        market.spec_fill_price()
    } else {
        OrderPrice(0)
    }
}

/// Bytes of the generated identifier `prefix-sequence`.
pub open spec fn spec_sim_id(prefix: &str, sequence: u64) -> Seq<u8> {
    prefix.spec_bytes() + seq![45u8] + spec_decimal_ascii(sequence as nat)
}

/// `s` is the simulated result of `child` at `sequence` in `market`: venue
/// and execution ids `sim-venue-<sequence>` and `sim-exec-<sequence>`, the
/// request's identity, fill, leaves, prices and timestamps as the market
/// decides, and the report type and status of the outcome.
pub open spec fn spec_sim_step_ok(
    market: AlgoSimMarket,
    child: ChildOrderPlan,
    sequence: u64,
    s: AlgoSimStep,
) -> bool {
    let req = child.spec_request();
    let ev = s.spec_event();
    let kind = spec_sim_kind(market, child);
    let price = spec_sim_price(market, child);
    &&& s.spec_sequence() == sequence
    &&& s.spec_child_id() == child.spec_child_id()
    &&& s.spec_outcome() == kind.0
    &&& s.spec_filled_qty().0 == spec_sim_filled(market, child)
    &&& s.spec_leaves_qty().0 == spec_sim_leaves(market, child)
    &&& s.spec_fill_price() == price
    &&& ev.exec_type == kind.2
    &&& ev.order_status == kind.1
    &&& ev.client_order_id == req.client_order_id
    &&& ev.orig_client_order_id@ == Seq::<char>::empty()
    &&& ev.venue_order_id.spec_bytes() == spec_sim_id("sim-venue", sequence)
    &&& ev.execution_id.spec_bytes() == spec_sim_id("sim-exec", sequence)
    &&& ev.account_id == req.account_id
    &&& ev.route_id == req.route_id
    &&& ev.symbol == req.symbol
    &&& ev.last_qty.0 == spec_sim_filled(market, child)
    &&& ev.last_price == price
    &&& ev.cumulative_qty.0 == spec_sim_filled(market, child)
    &&& ev.leaves_qty.0 == spec_sim_leaves(market, child)
    &&& ev.average_price == price
    &&& ev.ts_exchange_ns == req.ts_recv_ns
    &&& ev.ts_recv_ns == clamp_u64(req.ts_recv_ns + market.spec_latency_ns())
    &&& ev.reason == (if market.spec_reject() {
        RiskRejectReason::PriceBand
    } else {
        RiskRejectReason::NoReason
    })
    &&& ev.text@ == Seq::<char>::empty()
}

/// The child submissions of a list of actions, in order.
pub open spec fn spec_submitted_children(actions: Seq<AlgoAction>) -> Seq<ChildOrderPlan>
    decreases actions.len(),
{
    if actions.len() == 0 {
        Seq::empty()
    } else {
        let prev = spec_submitted_children(actions.drop_last());
        match actions.last() {
            AlgoAction::SubmitChild(child) => prev.push(child),
            _ => prev,
        }
    }
}

/// Totals of simulating `children`: filled quantity (saturating), rejected
/// and cancelled-remainder counts (saturating).
pub open spec fn spec_sim_totals(market: AlgoSimMarket, children: Seq<ChildOrderPlan>) -> (
    i64,
    u64,
    u64,
)
    decreases children.len(),
{
    if children.len() == 0 {
        (0i64, 0u64, 0u64)
    } else {
        let (filled, rejected, cancelled) = spec_sim_totals(market, children.drop_last());
        let child = children.last();
        let outcome = spec_sim_kind(market, child).0;
        (
            clamp_i64(filled + spec_sim_filled(market, child)) as i64,
            if outcome == AlgoSimOutcome::Rejected {
                clamp_u64(rejected + 1) as u64
            } else {
                rejected
            },
            if outcome == AlgoSimOutcome::CancelledRemainder {
                clamp_u64(cancelled + 1) as u64
            } else {
                cancelled
            },
        )
    }
}

/// Fixed-capacity simulation report retaining at most `N` steps.
#[derive(Debug, PartialEq, Eq)]
pub struct AlgoSimReport<const N: usize> {
    steps: Vec<AlgoSimStep>,
    truncated: bool,
    total_filled_qty: OrderQty,
    rejected_children: u64,
    cancelled_children: u64,
}

/// The report is the simulation of `children` in `market`, the first at
/// sequence `first` and each next one sequence later (saturating): totals
/// over all children, the first `N` steps retained, truncated exactly when
/// more than `N` children were simulated.
pub open spec fn spec_sim_report_of<const N: usize>(
    r: AlgoSimReport<N>,
    market: AlgoSimMarket,
    children: Seq<ChildOrderPlan>,
    first: u64,
) -> bool {
    let totals = spec_sim_totals(market, children);
    &&& r.spec_total_filled_qty().0 == totals.0
    &&& r.spec_rejected_children() == totals.1
    &&& r.spec_cancelled_children() == totals.2
    &&& r.spec_truncated() == (children.len() > N)
    &&& r.spec_steps().len() == min_int(children.len() as int, N as int)
    &&& forall|i: int|
        0 <= i < r.spec_steps().len() ==> spec_sim_step_ok(
            market,
            children[i],
            clamp_u64(first + i) as u64,
            #[trigger] r.spec_steps()[i],
        )
}

impl<const N: usize> AlgoSimReport<N> {
    #[verifier::type_invariant]
    spec fn inv(&self) -> bool {
        self.steps@.len() <= N
    }

    /// Retained steps in insertion order.
    pub closed spec fn spec_steps(&self) -> Seq<AlgoSimStep> {
        self.steps@
    }

    /// Whether steps were dropped for lack of capacity.
    pub closed spec fn spec_truncated(&self) -> bool {
        self.truncated
    }

    /// Total filled quantity.
    pub closed spec fn spec_total_filled_qty(&self) -> OrderQty {
        self.total_filled_qty
    }

    /// Rejected child count.
    pub closed spec fn spec_rejected_children(&self) -> u64 {
        self.rejected_children
    }

    /// Cancelled child count.
    pub closed spec fn spec_cancelled_children(&self) -> u64 {
        self.cancelled_children
    }

    /// Creates an empty report.
    pub fn new() -> (r: Self)
        ensures
            r.spec_steps().len() == 0,
            !r.spec_truncated(),
            r.spec_total_filled_qty() == OrderQty(0),
            r.spec_rejected_children() == 0,
            r.spec_cancelled_children() == 0,
    {
        Self {
            steps: Vec::new(),
            truncated: false,
            total_filled_qty: OrderQty(0),
            rejected_children: 0,
            cancelled_children: 0,
        }
    }

    /// Returns retained simulation step count.
    pub fn len(&self) -> (r: usize)
        ensures
            r == self.spec_steps().len(),
            r <= N,
    {
        proof {
            use_type_invariant(self);
        }
        self.steps.len()
    }

    /// Returns true when no steps are retained.
    pub fn is_empty(&self) -> (r: bool)
        ensures
            r == (self.spec_steps().len() == 0),
    {
        self.steps.len() == 0
    }

    /// Returns true when more child submissions existed than report capacity.
    pub fn truncated(&self) -> (r: bool)
        ensures
            r == self.spec_truncated(),
    {
        self.truncated
    }

    /// Returns total simulated filled quantity.
    pub fn total_filled_qty(&self) -> (r: OrderQty)
        ensures
            r == self.spec_total_filled_qty(),
    {
        self.total_filled_qty
    }

    /// Returns rejected child count.
    pub fn rejected_children(&self) -> (r: u64)
        ensures
            r == self.spec_rejected_children(),
    {
        self.rejected_children
    }

    /// Returns cancelled child count.
    pub fn cancelled_children(&self) -> (r: u64)
        ensures
            r == self.spec_cancelled_children(),
    {
        self.cancelled_children
    }

    /// Iterates over the retained steps in insertion order.
    pub fn steps(&self) -> (r: std::slice::Iter<'_, AlgoSimStep>)
        ensures
            vstd::std_specs::iter::IteratorSpec::remaining(&r) == self.spec_steps().as_ref(),
    {
        broadcast use vstd::std_specs::slice::axiom_spec_slice_iter;

        self.steps.as_slice().iter()
    }

    /// Returns the retained steps as a slice.
    pub fn step_list(&self) -> (r: &[AlgoSimStep])
        ensures
            r@ == self.spec_steps(),
    {
        self.steps.as_slice()
    }

    /// Records one step: totals always count it, the step is retained while
    /// capacity remains, else the report is marked truncated.
    fn push(&mut self, step: AlgoSimStep)
        ensures
            final(self).spec_total_filled_qty().0 == clamp_i64(
                old(self).spec_total_filled_qty().0 + step.spec_filled_qty().0,
            ),
            final(self).spec_rejected_children() == if step.spec_outcome() == AlgoSimOutcome::Rejected {
                clamp_u64(old(self).spec_rejected_children() + 1) as u64
            } else {
                old(self).spec_rejected_children()
            },
            final(self).spec_cancelled_children() == if step.spec_outcome()
                == AlgoSimOutcome::CancelledRemainder {
                clamp_u64(old(self).spec_cancelled_children() + 1) as u64
            } else {
                old(self).spec_cancelled_children()
            },
            old(self).spec_steps().len() < N ==> final(self).spec_steps() == old(
                self,
            ).spec_steps().push(step) && final(self).spec_truncated() == old(
                self,
            ).spec_truncated(),
            old(self).spec_steps().len() == N ==> final(self).spec_steps() == old(
                self,
            ).spec_steps() && final(self).spec_truncated(),
    {
        proof {
            use_type_invariant(&*self);
        }
        self.total_filled_qty = OrderQty(sat_add_i64(self.total_filled_qty.0, step.filled_qty.0));
        match step.outcome {
            AlgoSimOutcome::Rejected => {
                self.rejected_children = self.rejected_children.saturating_add(1);
            },
            AlgoSimOutcome::CancelledRemainder => {
                self.cancelled_children = self.cancelled_children.saturating_add(1);
            },
            _ => {},
        }
        if self.steps.len() == N {
            self.truncated = true;
            return;
        }
        let mut steps: Vec<AlgoSimStep> = Vec::new();
        std::mem::swap(&mut steps, &mut self.steps);
        steps.push(step);
        self.steps = steps;
    }
}

impl<const N: usize> Default for AlgoSimReport<N> {
    fn default() -> (r: Self)
        ensures
            r.spec_steps().len() == 0,
            !r.spec_truncated(),
            r.spec_total_filled_qty() == OrderQty(0),
            r.spec_rejected_children() == 0,
            r.spec_cancelled_children() == 0,
    {
        Self::new()
    }
}

/// Deterministic simulator for generated child plans.
#[derive(Debug, Clone, Copy, PartialEq, Eq)]
pub struct AlgoSimulator {
    market: AlgoSimMarket,
}

impl AlgoSimulator {
    /// Market model.
    pub closed spec fn spec_market(self) -> AlgoSimMarket {
        self.market
    }

    /// Creates a simulator.
    pub fn new(market: AlgoSimMarket) -> (r: Self)
        ensures
            r.spec_market() == market,
    {
        Self { market }
    }

    /// Returns the market model.
    pub fn market(&self) -> (r: AlgoSimMarket)
        ensures
            r == self.spec_market(),
    {
        self.market
    }

    /// Simulates one child plan at `sequence`.
    pub fn simulate_child(&self, child: &ChildOrderPlan, sequence: u64) -> (r: Result<
        AlgoSimStep,
        AlgoError,
    >)
        ensures
            r matches Ok(s) && spec_sim_step_ok(self.spec_market(), *child, sequence, s),
    {
        let request = child.request();
        proof {
            reveal_strlit("sim-venue");
            reveal_strlit("sim-exec");
            vstd::string::is_ascii_spec_bytes("sim-venue");
            vstd::string::is_ascii_spec_bytes("sim-exec");
            assert(crate::algo_support::spec_pow10(20) == 100_000_000_000_000_000_000nat) by {
                reveal_with_fuel(crate::algo_support::spec_pow10, 21);
            }
            crate::algo_support::lemma_decimal_ascii(sequence as nat, 20);
        }
        let venue_order_id: VenueOrderId = match fixed_id_with_index("sim-venue", sequence) {
            Ok(id) => id,
            Err(e) => {
                return Err(e);
            },
        };
        let execution_id: ExecutionId = match fixed_id_with_index("sim-exec", sequence) {
            Ok(id) => id,
            Err(e) => {
                return Err(e);
            },
        };
        let ts_recv_ns = request.ts_recv_ns.saturating_add(self.market.latency_ns);
        if self.market.reject {
            let event = ExecutionEvent {
                exec_type: ExecutionType::Reject,
                order_status: OrderStatus::Rejected,
                client_order_id: request.client_order_id,
                orig_client_order_id: ClientOrderId::empty(),
                venue_order_id,
                execution_id,
                account_id: request.account_id,
                route_id: request.route_id,
                symbol: request.symbol,
                last_qty: OrderQty(0),
                last_price: OrderPrice(0),
                cumulative_qty: OrderQty(0),
                leaves_qty: request.quantity,
                average_price: OrderPrice(0),
                ts_exchange_ns: request.ts_recv_ns,
                ts_recv_ns,
                reason: RiskRejectReason::PriceBand,
                text: ExecutionText::empty(),
            };
            return Ok(
                AlgoSimStep {
                    sequence,
                    child_id: child.child_id(),
                    outcome: AlgoSimOutcome::Rejected,
                    filled_qty: OrderQty(0),
                    leaves_qty: request.quantity,
                    fill_price: OrderPrice(0),
                    event,
                },
            );
        }
        let capped = if request.quantity.0 <= self.market.available_qty.0 {
            request.quantity.0
        } else {
            self.market.available_qty.0
        };
        let filled_qty = if capped > 0 {
            capped
        } else {
            0
        };
        let leaves_qty = sat_sub_i64(request.quantity.0, filled_qty);
        let (outcome, status, exec_type) = if filled_qty == 0 && !self.market.cancel_unfilled {
            (AlgoSimOutcome::Resting, OrderStatus::New, ExecutionType::Ack)
        } else if filled_qty == 0 {
            (AlgoSimOutcome::CancelledRemainder, OrderStatus::Cancelled, ExecutionType::CancelAck)
        } else if leaves_qty == 0 {
            (AlgoSimOutcome::Filled, OrderStatus::Filled, ExecutionType::Trade)
        } else if self.market.cancel_unfilled {
            (AlgoSimOutcome::CancelledRemainder, OrderStatus::Cancelled, ExecutionType::Trade)
        } else {
            (AlgoSimOutcome::PartiallyFilled, OrderStatus::PartiallyFilled, ExecutionType::Trade)
        };
        let fill_price = if filled_qty > 0 {
            self.market.fill_price
        } else {
            OrderPrice(0)
        };
        let event = ExecutionEvent {
            exec_type,
            order_status: status,
            client_order_id: request.client_order_id,
            orig_client_order_id: ClientOrderId::empty(),
            venue_order_id,
            execution_id,
            account_id: request.account_id,
            route_id: request.route_id,
            symbol: request.symbol,
            last_qty: OrderQty(filled_qty),
            last_price: fill_price,
            cumulative_qty: OrderQty(filled_qty),
            leaves_qty: OrderQty(leaves_qty),
            average_price: fill_price,
            ts_exchange_ns: request.ts_recv_ns,
            ts_recv_ns,
            reason: RiskRejectReason::NoReason,
            text: ExecutionText::empty(),
        };
        Ok(
            AlgoSimStep {
                sequence,
                child_id: child.child_id(),
                outcome,
                filled_qty: OrderQty(filled_qty),
                leaves_qty: OrderQty(leaves_qty),
                fill_price,
                event,
            },
        )
    }

    /// Simulates every child submission of a decision, at consecutive
    /// sequences from `first_sequence` (saturating).
    pub fn simulate_decision<const REPORT_N: usize, const DECISION_N: usize>(
        &self,
        decision: &AlgoDecision<DECISION_N>,
        first_sequence: u64,
    ) -> (r: Result<AlgoSimReport<REPORT_N>, AlgoError>)
        ensures
            r matches Ok(rep) && spec_sim_report_of(
                rep,
                self.spec_market(),
                spec_submitted_children(decision.spec_actions()),
                first_sequence,
            ),
    {
        let mut report: AlgoSimReport<REPORT_N> = AlgoSimReport::new();
        let actions = decision.action_list();
        let mut sequence = first_sequence;
        let mut i: usize = 0;
        proof {
            assert(actions@.take(0) =~= Seq::<AlgoAction>::empty());
        }
        while i < actions.len()
            invariant
                i <= actions@.len(),
                actions@ == decision.spec_actions(),
                spec_sim_report_of(
                    report,
                    self.market,
                    spec_submitted_children(actions@.take(i as int)),
                    first_sequence,
                ),
                sequence == clamp_u64(
                    first_sequence + spec_submitted_children(actions@.take(i as int)).len(),
                ),
            decreases actions@.len() - i,
        {
            let ghost before = spec_submitted_children(actions@.take(i as int));
            proof {
                use_type_invariant(&report);
                assert(actions@.take(i as int + 1).drop_last() =~= actions@.take(i as int));
                assert(actions@.take(i as int + 1).last() == actions@[i as int]);
            }
            match &actions[i] {
                AlgoAction::SubmitChild(child) => {
                    let step = match self.simulate_child(child, sequence) {
                        Ok(s) => s,
                        Err(e) => {
                            return Err(e);
                        },
                    };
                    let ghost old_report = report;
                    report.push(step);
                    proof {
                        let after = before.push(*child);
                        assert(spec_submitted_children(actions@.take(i as int + 1)) == after);
                        assert(after.drop_last() =~= before);
                        assert forall|k: int| 0 <= k < report.spec_steps().len() implies
                            spec_sim_step_ok(
                            self.market,
                            after[k],
                            clamp_u64(first_sequence + k) as u64,
                            #[trigger] report.spec_steps()[k],
                        ) by {
                            if k < old_report.spec_steps().len() {
                                assert(report.spec_steps()[k] == old_report.spec_steps()[k]);
                            }
                        }
                    }
                    sequence = sequence.saturating_add(1);
                },
                _ => {},
            }
            i = i + 1;
        }
        proof {
            assert(actions@.take(i as int) =~= actions@);
        }
        Ok(report)
    }
}

} // verus!
