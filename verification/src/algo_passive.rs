//! Passive peg and queue-position planning.

use vstd::prelude::*;
use crate::algo_model::{
    spec_child_request, spec_parent_terminal, spec_parent_validate, AlgoError, AlgoProgress,
    ChildOrderId, ChildOrderPlan, ChildOrderStatus, ParentOrder,
};
use crate::algo_support::{
    elapsed_bps, queue_fill_probability_bps, spec_elapsed_bps, spec_queue_fill_probability_bps,
};
use crate::arith::{clamp_i64, max_int, min_int, sat_add_i64, sat_mul_i64, sat_sub_i64, tdiv};
use crate::ids::ClientOrderId;
use crate::orders::{OrderPrice, OrderQty, OrderSide};

verus! {


broadcast use {
    crate::algo_model::group_parent_order,
    crate::algo_model::group_child_plan,
};

/// Passive peg reference.
#[derive(Debug, Clone, Copy, PartialEq, Eq, Hash, Structural)]
#[non_exhaustive]
pub enum PassivePegMode {
    /// Quote at the same-side best price.
    SameSide,
    /// Quote at the midpoint when the spread allows it.
    Midpoint,
    /// Quote one passive tick inside the spread when possible.
    ImproveOneTick,
}

impl PassivePegMode {
    /// Wire code of the mode (same side 1, midpoint 2, improve 3).
    pub fn code(self) -> (r: u8)
        ensures
            r == (match self {
                PassivePegMode::SameSide => 1u8,
                PassivePegMode::Midpoint => 2u8,
                PassivePegMode::ImproveOneTick => 3u8,
            }),
    {
        match self {
            PassivePegMode::SameSide => 1,
            PassivePegMode::Midpoint => 2,
            PassivePegMode::ImproveOneTick => 3,
        }
    }
}

/// Passive queue action.
#[derive(Debug, Clone, Copy, PartialEq, Eq, Hash, Structural)]
#[non_exhaustive]
pub enum PassiveQueueAction {
    /// Do not release a child order for this decision.
    Wait,
    /// Join the selected passive queue.
    JoinQueue,
    /// Improve the selected passive price inside the spread.
    ImprovePrice,
    /// Cross the spread because the configured time budget is exhausted.
    CrossSpread,
}

impl PassiveQueueAction {
    /// Returns true when the action releases a child order.
    pub fn releases_child(self) -> (r: bool)
        ensures
            r == (self != PassiveQueueAction::Wait),
    {
        match self {
            PassiveQueueAction::Wait => false,
            _ => true,
        }
    }

    /// Wire code of the action (wait 1 through cross 4).
    pub fn code(self) -> (r: u8)
        ensures
            r == (match self {
                PassiveQueueAction::Wait => 1u8,
                PassiveQueueAction::JoinQueue => 2u8,
                PassiveQueueAction::ImprovePrice => 3u8,
                PassiveQueueAction::CrossSpread => 4u8,
            }),
    {
        match self {
            PassiveQueueAction::Wait => 1,
            PassiveQueueAction::JoinQueue => 2,
            PassiveQueueAction::ImprovePrice => 3,
            PassiveQueueAction::CrossSpread => 4,
        }
    }
}

/// Market context for passive queue planning.
#[derive(Debug, Clone, Copy, PartialEq, Eq)]
pub struct PassiveQueueContext {
    /// Current best bid.
    pub best_bid: OrderPrice,
    /// Current best ask.
    pub best_ask: OrderPrice,
    /// Estimated quantity ahead at the candidate queue.
    pub queue_ahead_qty: OrderQty,
    /// Expected contra-side trade quantity at the candidate queue.
    pub expected_take_qty: OrderQty,
    /// Adverse-selection estimate in basis points.
    pub adverse_selection_bps: u16,
}

/// A usable book: positive, uncrossed best prices and non-negative queue
/// quantities.
pub open spec fn spec_passive_context_ok(c: PassiveQueueContext) -> bool {
    &&& c.best_bid.0 > 0
    &&& c.best_ask.0 > 0
    &&& c.best_bid.0 < c.best_ask.0
    &&& c.queue_ahead_qty.0 >= 0
    &&& c.expected_take_qty.0 >= 0
}

impl PassiveQueueContext {
    /// Creates passive queue market context; non-positive or crossed prices,
    /// or negative queue quantities, are `InvalidPassiveQueueParameters`.
    pub fn new(
        best_bid: OrderPrice,
        best_ask: OrderPrice,
        queue_ahead_qty: OrderQty,
        expected_take_qty: OrderQty,
        adverse_selection_bps: u16,
    ) -> (r: Result<Self, AlgoError>)
        ensures
            ({
                let c = PassiveQueueContext {
                    best_bid,
                    best_ask,
                    queue_ahead_qty,
                    expected_take_qty,
                    adverse_selection_bps,
                };
                if spec_passive_context_ok(c) {
                    r == Ok::<Self, AlgoError>(c)
                } else {
                    r == Err::<Self, AlgoError>(AlgoError::InvalidPassiveQueueParameters)
                }
            }),
    {
        if best_bid.0 <= 0 || best_ask.0 <= 0 || best_bid.0 >= best_ask.0 || queue_ahead_qty.0 < 0
            || expected_take_qty.0 < 0 {
            return Err(AlgoError::InvalidPassiveQueueParameters);
        }
        Ok(Self { best_bid, best_ask, queue_ahead_qty, expected_take_qty, adverse_selection_bps })
    }

    /// Returns the current best bid.
    pub fn best_bid(&self) -> (r: OrderPrice)
        ensures
            r == self.best_bid,
    {
        self.best_bid
    }

    /// Returns the current best ask.
    pub fn best_ask(&self) -> (r: OrderPrice)
        ensures
            r == self.best_ask,
    {
        self.best_ask
    }

    /// Returns estimated quantity ahead at the candidate queue.
    pub fn queue_ahead_qty(&self) -> (r: OrderQty)
        ensures
            r == self.queue_ahead_qty,
    {
        self.queue_ahead_qty
    }

    /// Returns expected contra-side trade quantity at the candidate queue.
    pub fn expected_take_qty(&self) -> (r: OrderQty)
        ensures
            r == self.expected_take_qty,
    {
        self.expected_take_qty
    }

    /// Returns adverse-selection estimate in basis points.
    pub fn adverse_selection_bps(&self) -> (r: u16)
        ensures
            r == self.adverse_selection_bps,
    {
        self.adverse_selection_bps
    }
}

/// Configuration for passive queue planning.
#[derive(Debug, Clone, Copy, PartialEq, Eq)]
pub struct PassiveQueueConfig {
    /// Peg mode.
    pub peg_mode: PassivePegMode,
    /// Tick size in normalized price units.
    pub tick_size: OrderPrice,
    /// Minimum fill probability in basis points.
    pub min_fill_probability_bps: u16,
    /// Maximum tolerated adverse selection in basis points.
    pub max_adverse_selection_bps: u16,
    /// Fill-probability threshold below which improvement is preferred.
    pub improve_when_fill_below_bps: u16,
    /// Maximum passive improvement ticks.
    pub max_improvement_ticks: u16,
    /// The planner may cross the spread after the time threshold.
    pub allow_cross: bool,
    /// Elapsed parent interval threshold for crossing.
    pub cross_after_elapsed_bps: u16,
}

/// The conservative defaults for a peg mode and tick size.
pub open spec fn spec_passive_config(peg_mode: PassivePegMode, tick_size: OrderPrice) -> PassiveQueueConfig {
    PassiveQueueConfig {
        peg_mode,
        tick_size,
        min_fill_probability_bps: 2_500,
        max_adverse_selection_bps: 250,
        improve_when_fill_below_bps: 1_500,
        max_improvement_ticks: 1,
        allow_cross: false,
        cross_after_elapsed_bps: 9_500,
    }
}

impl PassiveQueueConfig {
    /// Creates a configuration with conservative defaults; a non-positive
    /// tick size is `InvalidPassiveQueueParameters`.
    pub fn new(peg_mode: PassivePegMode, tick_size: OrderPrice) -> (r: Result<Self, AlgoError>)
        ensures
            if tick_size.0 <= 0 {
                r == Err::<Self, AlgoError>(AlgoError::InvalidPassiveQueueParameters)
            } else {
                r == Ok::<Self, AlgoError>(spec_passive_config(peg_mode, tick_size))
            },
    {
        if tick_size.0 <= 0 {
            return Err(AlgoError::InvalidPassiveQueueParameters);
        }
        Ok(
            Self {
                peg_mode,
                tick_size,
                min_fill_probability_bps: 2_500,
                max_adverse_selection_bps: 250,
                improve_when_fill_below_bps: 1_500,
                max_improvement_ticks: 1,
                allow_cross: false,
                cross_after_elapsed_bps: 9_500,
            },
        )
    }

    /// Returns a copy with queue thresholds; a value above `10_000` is
    /// `InvalidPassiveQueueParameters`.
    pub fn with_thresholds(
        self,
        min_fill_probability_bps: u16,
        max_adverse_selection_bps: u16,
        improve_when_fill_below_bps: u16,
    ) -> (r: Result<Self, AlgoError>)
        ensures
            if min_fill_probability_bps > 10_000 || max_adverse_selection_bps > 10_000
                || improve_when_fill_below_bps > 10_000 {
                r == Err::<Self, AlgoError>(AlgoError::InvalidPassiveQueueParameters)
            } else {
                r == Ok::<Self, AlgoError>(
                    PassiveQueueConfig {
                        min_fill_probability_bps,
                        max_adverse_selection_bps,
                        improve_when_fill_below_bps,
                        ..self
                    },
                )
            },
    {
        if min_fill_probability_bps > 10_000 || max_adverse_selection_bps > 10_000
            || improve_when_fill_below_bps > 10_000 {
            return Err(AlgoError::InvalidPassiveQueueParameters);
        }
        Ok(
            PassiveQueueConfig {
                min_fill_probability_bps,
                max_adverse_selection_bps,
                improve_when_fill_below_bps,
                ..self
            },
        )
    }

    /// Returns a copy with maximum inside-spread improvement ticks.
    pub fn with_max_improvement_ticks(self, max_improvement_ticks: u16) -> (r: Self)
        ensures
            r == (PassiveQueueConfig { max_improvement_ticks, ..self }),
    {
        PassiveQueueConfig { max_improvement_ticks, ..self }
    }

    /// Returns a copy with crossing behavior; an elapsed threshold above
    /// `10_000` is `InvalidPassiveQueueParameters`.
    pub fn with_crossing(self, allow_cross: bool, cross_after_elapsed_bps: u16) -> (r: Result<
        Self,
        AlgoError,
    >)
        ensures
            if cross_after_elapsed_bps > 10_000 {
                r == Err::<Self, AlgoError>(AlgoError::InvalidPassiveQueueParameters)
            } else {
                r == Ok::<Self, AlgoError>(
                    PassiveQueueConfig { allow_cross, cross_after_elapsed_bps, ..self },
                )
            },
    {
        if cross_after_elapsed_bps > 10_000 {
            return Err(AlgoError::InvalidPassiveQueueParameters);
        }
        Ok(PassiveQueueConfig { allow_cross, cross_after_elapsed_bps, ..self })
    }

    /// Returns peg mode.
    pub fn peg_mode(&self) -> (r: PassivePegMode)
        ensures
            r == self.peg_mode,
    {
        self.peg_mode
    }

    /// Returns tick size in normalized price units.
    pub fn tick_size(&self) -> (r: OrderPrice)
        ensures
            r == self.tick_size,
    {
        self.tick_size
    }

    /// Returns minimum fill probability in basis points.
    pub fn min_fill_probability_bps(&self) -> (r: u16)
        ensures
            r == self.min_fill_probability_bps,
    {
        self.min_fill_probability_bps
    }

    /// Returns maximum tolerated adverse selection in basis points.
    pub fn max_adverse_selection_bps(&self) -> (r: u16)
        ensures
            r == self.max_adverse_selection_bps,
    {
        self.max_adverse_selection_bps
    }

    /// Returns fill-probability threshold below which improvement is preferred.
    pub fn improve_when_fill_below_bps(&self) -> (r: u16)
        ensures
            r == self.improve_when_fill_below_bps,
    {
        self.improve_when_fill_below_bps
    }

    /// Returns maximum passive improvement ticks.
    pub fn max_improvement_ticks(&self) -> (r: u16)
        ensures
            r == self.max_improvement_ticks,
    {
        self.max_improvement_ticks
    }

    /// Returns true when the planner may cross the spread after the time
    /// threshold.
    pub fn allow_cross(&self) -> (r: bool)
        ensures
            r == self.allow_cross,
    {
        self.allow_cross
    }

    /// Returns elapsed parent interval threshold for crossing.
    pub fn cross_after_elapsed_bps(&self) -> (r: u16)
        ensures
            r == self.cross_after_elapsed_bps,
    {
        self.cross_after_elapsed_bps
    }
}

impl Default for PassiveQueueConfig {
    fn default() -> (r: Self)
        ensures
            r == spec_passive_config(PassivePegMode::SameSide, OrderPrice(1)),
    {
        Self {
            peg_mode: PassivePegMode::SameSide,
            tick_size: OrderPrice(1),
            min_fill_probability_bps: 2_500,
            max_adverse_selection_bps: 250,
            improve_when_fill_below_bps: 1_500,
            max_improvement_ticks: 1,
            allow_cross: false,
            cross_after_elapsed_bps: 9_500,
        }
    }
}

/// Passive queue planning estimate.
#[derive(Debug, Clone, Copy, PartialEq, Eq)]
pub struct PassiveQueueEstimate {
    /// Selected passive queue action.
    pub action: PassiveQueueAction,
    /// Selected limit price.
    pub candidate_price: OrderPrice,
    /// Estimated fill probability in basis points.
    pub fill_probability_bps: u16,
    /// Elapsed parent interval in basis points.
    pub elapsed_bps: u16,
    /// Candidate child quantity used for the estimate.
    pub candidate_qty: OrderQty,
}

impl PassiveQueueEstimate {
    /// Returns selected passive queue action.
    pub fn action(&self) -> (r: PassiveQueueAction)
        ensures
            r == self.action,
    {
        self.action
    }

    /// Returns selected limit price.
    pub fn candidate_price(&self) -> (r: OrderPrice)
        ensures
            r == self.candidate_price,
    {
        self.candidate_price
    }

    /// Returns estimated fill probability in basis points.
    pub fn fill_probability_bps(&self) -> (r: u16)
        ensures
            r == self.fill_probability_bps,
    {
        self.fill_probability_bps
    }

    /// Returns elapsed parent interval in basis points.
    pub fn elapsed_bps(&self) -> (r: u16)
        ensures
            r == self.elapsed_bps,
    {
        self.elapsed_bps
    }

    /// Returns candidate child quantity used for the estimate.
    pub fn candidate_qty(&self) -> (r: OrderQty)
        ensures
            r == self.candidate_qty,
    {
        self.candidate_qty
    }
}

/// Passive queue decision with an optional child order plan.
#[derive(Debug, Clone, Copy, PartialEq, Eq)]
pub struct PassiveQueueDecision {
    /// The estimate that drove the decision.
    pub estimate: PassiveQueueEstimate,
    /// The optional child order plan.
    pub child: Option<ChildOrderPlan>,
}

impl PassiveQueueDecision {
    /// Returns the estimate that drove the decision.
    pub fn estimate(&self) -> (r: PassiveQueueEstimate)
        ensures
            r == self.estimate,
    {
        self.estimate
    }

    /// Returns the selected action.
    pub fn action(&self) -> (r: PassiveQueueAction)
        ensures
            r == self.estimate.action,
    {
        self.estimate.action
    }

    /// Returns the optional child order plan.
    pub fn child(&self) -> (r: Option<ChildOrderPlan>)
        ensures
            r == self.child,
    {
        self.child
    }
}

/// Candidate passive quantity: the unreleased quantity capped by the maximum
/// clip, or all of it on a final slice below the minimum clip; zero when
/// nothing is unreleased.
pub open spec fn spec_passive_candidate_qty(
    parent: ParentOrder,
    progress: AlgoProgress,
    now_ns: u64,
) -> int {
    let leaves = clamp_i64(parent.spec_total_qty().0 - progress.released_qty.0);
    if leaves <= 0 {
        0
    } else {
        let qty = min_int(leaves, parent.spec_max_clip().0 as int);
        let final_slice = clamp_i64(progress.released_qty.0 + qty) >= parent.spec_total_qty().0 || now_ns
            >= parent.spec_end_ns();
        if qty < parent.spec_min_clip().0 && final_slice {
            leaves
        } else {
            qty
        }
    }
}

/// Computes the candidate passive quantity.
pub fn passive_candidate_qty(parent: &ParentOrder, progress: &AlgoProgress, now_ns: u64) -> (r:
    OrderQty)
    ensures
        r.0 == spec_passive_candidate_qty(*parent, *progress, now_ns),
{
    let leaves = sat_sub_i64(parent.total_qty().0, progress.released_qty.0);
    if leaves <= 0 {
        return OrderQty(0);
    }
    let qty = if leaves <= parent.max_clip().0 {
        leaves
    } else {
        parent.max_clip().0
    };
    let final_slice = sat_add_i64(progress.released_qty.0, qty) >= parent.total_qty().0 || now_ns
        >= parent.end_ns();
    if qty < parent.min_clip().0 && final_slice {
        OrderQty(leaves)
    } else {
        OrderQty(qty)
    }
}

/// Tick-aligned midpoint on the passive side of the mid.
pub open spec fn spec_midpoint_price(side: OrderSide, bid: i64, ask: i64, tick: i64) -> int {
    let mid = clamp_i64(bid + tdiv(clamp_i64(ask - bid), 2));
    match side {
        OrderSide::Buy => clamp_i64(bid + clamp_i64(tdiv(clamp_i64(mid - bid), tick as int) * tick)),
        OrderSide::Sell => clamp_i64(
            ask - clamp_i64(tdiv(clamp_i64(ask - mid), tick as int) * tick),
        ),
    }
}

/// Computes the tick-aligned midpoint price.
pub fn midpoint_price(side: OrderSide, context: &PassiveQueueContext, tick_size: OrderPrice) -> (r:
    OrderPrice)
    requires
        tick_size.0 > 0,
    ensures
        r.0 == spec_midpoint_price(side, context.best_bid.0, context.best_ask.0, tick_size.0),
{
    let bid = context.best_bid.0;
    let ask = context.best_ask.0;
    let spread = sat_sub_i64(ask, bid);
    let mid = sat_add_i64(bid, spread / 2);
    match side {
        OrderSide::Buy => {
            let ticks = sat_sub_i64(mid, bid) / tick_size.0;
            OrderPrice(sat_add_i64(bid, sat_mul_i64(ticks, tick_size.0)))
        },
        OrderSide::Sell => {
            let ticks = sat_sub_i64(ask, mid) / tick_size.0;
            OrderPrice(sat_sub_i64(ask, sat_mul_i64(ticks, tick_size.0)))
        },
    }
}

/// Price improved by the configured ticks (at least one) without crossing:
/// a buy at most one tick below the ask, a sell at least one above the bid.
pub open spec fn spec_improved_price(
    config: PassiveQueueConfig,
    side: OrderSide,
    c: PassiveQueueContext,
) -> int {
    let ticks = max_int(config.max_improvement_ticks as int, 1);
    let improvement = clamp_i64(config.tick_size.0 * ticks);
    match side {
        OrderSide::Buy => min_int(
            clamp_i64(c.best_bid.0 + improvement),
            clamp_i64(c.best_ask.0 - config.tick_size.0),
        ),
        OrderSide::Sell => max_int(
            clamp_i64(c.best_ask.0 - improvement),
            clamp_i64(c.best_bid.0 + config.tick_size.0),
        ),
    }
}

/// Price of the peg mode.
pub open spec fn spec_base_price(
    config: PassiveQueueConfig,
    side: OrderSide,
    c: PassiveQueueContext,
) -> int {
    match config.peg_mode {
        PassivePegMode::SameSide => match side {
            OrderSide::Buy => c.best_bid.0 as int,
            OrderSide::Sell => c.best_ask.0 as int,
        },
        PassivePegMode::Midpoint => spec_midpoint_price(
            side,
            c.best_bid.0,
            c.best_ask.0,
            config.tick_size.0,
        ),
        PassivePegMode::ImproveOneTick => spec_improved_price(config, side, c),
    }
}

/// Improvement is possible when ticks are allowed, the spread is wider
/// than a tick, and the improved price differs from the peg price.
pub open spec fn spec_can_improve(
    config: PassiveQueueConfig,
    side: OrderSide,
    c: PassiveQueueContext,
) -> bool {
    config.max_improvement_ticks != 0 && clamp_i64(c.best_ask.0 - c.best_bid.0)
        > config.tick_size.0 && spec_improved_price(config, side, c) != spec_base_price(
        config,
        side,
        c,
    )
}

/// Action choice: wait on excessive adverse selection; cross once allowed
/// and the elapsed threshold is reached; improve when fill probability is
/// low, improvement is possible and the end has not come; join when fill
/// probability suffices or the peg is not same-side; else wait.
pub open spec fn spec_select_action(
    config: PassiveQueueConfig,
    parent: ParentOrder,
    now_ns: u64,
    c: PassiveQueueContext,
    fill: int,
    elapsed: int,
) -> PassiveQueueAction {
    if c.adverse_selection_bps > config.max_adverse_selection_bps {
        PassiveQueueAction::Wait
    } else if config.allow_cross && elapsed >= config.cross_after_elapsed_bps {
        PassiveQueueAction::CrossSpread
    } else if fill < config.improve_when_fill_below_bps && spec_can_improve(
        config,
        parent.spec_side(),
        c,
    ) && now_ns < parent.spec_end_ns() {
        PassiveQueueAction::ImprovePrice
    } else if fill >= config.min_fill_probability_bps || config.peg_mode
        != PassivePegMode::SameSide {
        PassiveQueueAction::JoinQueue
    } else {
        PassiveQueueAction::Wait
    }
}

/// Limit price of an action: the peg price to wait or join, the improved
/// price to improve, the contra best to cross.
pub open spec fn spec_price_for_action(
    config: PassiveQueueConfig,
    side: OrderSide,
    c: PassiveQueueContext,
    action: PassiveQueueAction,
) -> int {
    match action {
        PassiveQueueAction::ImprovePrice => spec_improved_price(config, side, c),
        PassiveQueueAction::CrossSpread => match side {
            OrderSide::Buy => c.best_ask.0 as int,
            OrderSide::Sell => c.best_bid.0 as int,
        },
        _ => spec_base_price(config, side, c),
    }
}

/// Configuration and context usable together.
pub open spec fn spec_passive_inputs_ok(config: PassiveQueueConfig, c: PassiveQueueContext) -> bool {
    &&& config.tick_size.0 > 0
    &&& config.min_fill_probability_bps <= 10_000
    &&& config.max_adverse_selection_bps <= 10_000
    &&& config.improve_when_fill_below_bps <= 10_000
    &&& config.cross_after_elapsed_bps <= 10_000
    &&& spec_passive_context_ok(c)
}

/// The passive estimate, or the error of invalid inputs.
pub open spec fn spec_passive_estimate(
    config: PassiveQueueConfig,
    parent: ParentOrder,
    progress: AlgoProgress,
    now_ns: u64,
    c: PassiveQueueContext,
) -> Result<PassiveQueueEstimate, AlgoError> {
    match spec_parent_validate(parent) {
        Err(e) => Err(e),
        Ok(_) => if !spec_passive_inputs_ok(config, c) {
            Err(AlgoError::InvalidPassiveQueueParameters)
        } else if progress.parent_id@ != parent.spec_id()@ || progress.target_qty != parent.spec_total_qty() {
            Err(AlgoError::InvalidProgress)
        } else {
            let qty = spec_passive_candidate_qty(parent, progress, now_ns);
            let fill = spec_queue_fill_probability_bps(
                c.queue_ahead_qty.0 as int,
                qty,
                c.expected_take_qty.0 as int,
            );
            let elapsed = spec_elapsed_bps(
                parent.spec_start_ns() as int,
                parent.spec_end_ns() as int,
                now_ns as int,
            );
            let action = spec_select_action(config, parent, now_ns, c, fill, elapsed);
            Ok(
                PassiveQueueEstimate {
                    action,
                    candidate_price: OrderPrice(
                        spec_price_for_action(config, parent.spec_side(), c, action) as i64,
                    ),
                    fill_probability_bps: fill as u16,
                    elapsed_bps: elapsed as u16,
                    candidate_qty: OrderQty(qty as i64),
                },
            )
        },
    }
}

/// The passive decision: a terminal parent is `ParentTerminal`; before the
/// start or once complete, the estimate with a wait; a child when the
/// action releases one, the quantity is positive, and it reaches the
/// minimum clip or finishes the slice; else the estimate (a wait when below
/// the minimum clip).
pub open spec fn spec_passive_plan(
    config: PassiveQueueConfig,
    parent: ParentOrder,
    progress: AlgoProgress,
    now_ns: u64,
    c: PassiveQueueContext,
    child_id: ChildOrderId,
    client_order_id: ClientOrderId,
    ts_recv_ns: u64,
) -> Result<PassiveQueueDecision, AlgoError> {
    if spec_parent_terminal(parent.spec_status()) {
        Err(AlgoError::ParentTerminal)
    } else {
        match spec_passive_estimate(config, parent, progress, now_ns, c) {
            Err(e) => Err(e),
            Ok(est) => if now_ns < parent.spec_start_ns() || progress.completed_qty.0
                >= progress.target_qty.0 {
                Ok(
                    PassiveQueueDecision {
                        estimate: PassiveQueueEstimate { action: PassiveQueueAction::Wait, ..est },
                        child: None,
                    },
                )
            } else if est.action == PassiveQueueAction::Wait || est.candidate_qty.0 <= 0 {
                Ok(PassiveQueueDecision { estimate: est, child: None })
            } else if est.candidate_qty.0 < parent.spec_min_clip().0 && !(clamp_i64(
                progress.released_qty.0 + est.candidate_qty.0,
            ) >= parent.spec_total_qty().0 || now_ns >= parent.spec_end_ns()) {
                Ok(
                    PassiveQueueDecision {
                        estimate: PassiveQueueEstimate { action: PassiveQueueAction::Wait, ..est },
                        child: None,
                    },
                )
            } else {
                let request = spec_child_request(
                    parent,
                    parent.spec_route_id(),
                    parent.spec_side(),
                    client_order_id,
                    est.candidate_qty,
                    est.candidate_price,
                    ts_recv_ns,
                );
                match request.spec_validate() {
                    Err(e) => Err(AlgoError::Core(e)),
                    Ok(_) => Ok(
                        PassiveQueueDecision {
                            estimate: est,
                            child: Some(
                                ChildOrderPlan::spec_from_parts(
                                    child_id,
                                    parent.spec_id(),
                                    request,
                                    now_ns,
                                    ChildOrderStatus::Planned,
                                ),
                            ),
                        },
                    ),
                }
            },
        }
    }
}

/// Deterministic passive peg and queue-position planner.
#[derive(Debug, Clone, Copy, PartialEq, Eq)]
pub struct PassiveQueuePlanner {
    /// Planner configuration.
    pub config: PassiveQueueConfig,
}

impl PassiveQueuePlanner {
    /// Creates a passive queue planner.
    pub fn new(config: PassiveQueueConfig) -> (r: Self)
        ensures
            r.config == config,
    {
        Self { config }
    }

    /// Returns planner configuration.
    pub fn config(&self) -> (r: PassiveQueueConfig)
        ensures
            r == self.config,
    {
        self.config
    }

    /// Estimates passive queue action, price, fill probability, and quantity.
    pub fn estimate(
        &self,
        parent: &ParentOrder,
        progress: AlgoProgress,
        now_ns: u64,
        context: PassiveQueueContext,
    ) -> (r: Result<PassiveQueueEstimate, AlgoError>)
        ensures
            r == spec_passive_estimate(self.config, *parent, progress, now_ns, context),
    {
        match parent.validate() {
            Err(e) => {
                return Err(e);
            },
            Ok(()) => {},
        }
        if !self.inputs_ok(&context) {
            return Err(AlgoError::InvalidPassiveQueueParameters);
        }
        if !progress.parent_id.same_text(&parent.id()) || progress.target_qty.0 != parent.total_qty().0 {
            return Err(AlgoError::InvalidProgress);
        }
        let candidate_qty = passive_candidate_qty(parent, &progress, now_ns);
        let fill_probability_bps = queue_fill_probability_bps(
            context.queue_ahead_qty.0,
            candidate_qty.0,
            context.expected_take_qty.0,
        );
        let elapsed = elapsed_bps(parent.start_ns(), parent.end_ns(), now_ns);
        let action = self.select_action(parent, now_ns, &context, fill_probability_bps, elapsed);
        let candidate_price = self.price_for_action(parent.side(), &context, action);
        Ok(
            PassiveQueueEstimate {
                action,
                candidate_price,
                fill_probability_bps,
                elapsed_bps: elapsed,
                candidate_qty,
            },
        )
    }

    /// Plans one passive queue child decision.
    #[allow(clippy::too_many_arguments)]
    pub fn plan_passive_slice(
        &self,
        parent: &ParentOrder,
        progress: AlgoProgress,
        now_ns: u64,
        context: PassiveQueueContext,
        child_id: ChildOrderId,
        client_order_id: ClientOrderId,
        ts_recv_ns: u64,
    ) -> (r: Result<PassiveQueueDecision, AlgoError>)
        ensures
            r == spec_passive_plan(
                self.config,
                *parent,
                progress,
                now_ns,
                context,
                child_id,
                client_order_id,
                ts_recv_ns,
            ),
    {
        if parent.status().is_terminal() {
            return Err(AlgoError::ParentTerminal);
        }
        let estimate = match self.estimate(parent, progress, now_ns, context) {
            Err(e) => {
                return Err(e);
            },
            Ok(est) => est,
        };
        if now_ns < parent.start_ns() || progress.is_complete() {
            return Ok(
                PassiveQueueDecision {
                    estimate: PassiveQueueEstimate { action: PassiveQueueAction::Wait, ..estimate },
                    child: None,
                },
            );
        }
        if !estimate.action.releases_child() || estimate.candidate_qty.0 <= 0 {
            return Ok(PassiveQueueDecision { estimate, child: None });
        }
        let final_slice = sat_add_i64(progress.released_qty.0, estimate.candidate_qty.0)
            >= parent.total_qty().0 || now_ns >= parent.end_ns();
        if estimate.candidate_qty.0 < parent.min_clip().0 && !final_slice {
            return Ok(
                PassiveQueueDecision {
                    estimate: PassiveQueueEstimate { action: PassiveQueueAction::Wait, ..estimate },
                    child: None,
                },
            );
        }
        let request = parent.build_order_request_at_price(
            client_order_id,
            estimate.candidate_qty,
            estimate.candidate_price,
            ts_recv_ns,
        );
        match ChildOrderPlan::new(child_id, parent.id(), request, now_ns) {
            Ok(plan) => Ok(PassiveQueueDecision { estimate, child: Some(plan) }),
            Err(e) => Err(e),
        }
    }

    fn inputs_ok(&self, context: &PassiveQueueContext) -> (r: bool)
        ensures
            r == spec_passive_inputs_ok(self.config, *context),
    {
        !(self.config.tick_size.0 <= 0 || self.config.min_fill_probability_bps > 10_000
            || self.config.max_adverse_selection_bps > 10_000
            || self.config.improve_when_fill_below_bps > 10_000
            || self.config.cross_after_elapsed_bps > 10_000 || context.best_bid.0 <= 0
            || context.best_ask.0 <= 0 || context.best_bid.0 >= context.best_ask.0
            || context.queue_ahead_qty.0 < 0 || context.expected_take_qty.0 < 0)
    }

    fn select_action(
        &self,
        parent: &ParentOrder,
        now_ns: u64,
        context: &PassiveQueueContext,
        fill_probability_bps: u16,
        elapsed: u16,
    ) -> (r: PassiveQueueAction)
        requires
            self.config.tick_size.0 > 0,
        ensures
            r == spec_select_action(
                self.config,
                *parent,
                now_ns,
                *context,
                fill_probability_bps as int,
                elapsed as int,
            ),
    {
        if context.adverse_selection_bps > self.config.max_adverse_selection_bps {
            return PassiveQueueAction::Wait;
        }
        if self.config.allow_cross && elapsed >= self.config.cross_after_elapsed_bps {
            return PassiveQueueAction::CrossSpread;
        }
        if fill_probability_bps < self.config.improve_when_fill_below_bps && self.can_improve(
            parent.side(),
            context,
        ) && now_ns < parent.end_ns() {
            return PassiveQueueAction::ImprovePrice;
        }
        let same_side = match self.config.peg_mode {
            PassivePegMode::SameSide => true,
            _ => false,
        };
        if fill_probability_bps >= self.config.min_fill_probability_bps || !same_side {
            return PassiveQueueAction::JoinQueue;
        }
        PassiveQueueAction::Wait
    }

    fn price_for_action(
        &self,
        side: OrderSide,
        context: &PassiveQueueContext,
        action: PassiveQueueAction,
    ) -> (r: OrderPrice)
        requires
            self.config.tick_size.0 > 0,
        ensures
            r.0 == spec_price_for_action(self.config, side, *context, action),
    {
        match action {
            PassiveQueueAction::ImprovePrice => self.improved_price(side, context),
            PassiveQueueAction::CrossSpread => match side {
                OrderSide::Buy => context.best_ask,
                OrderSide::Sell => context.best_bid,
            },
            _ => self.base_price(side, context),
        }
    }

    fn base_price(&self, side: OrderSide, context: &PassiveQueueContext) -> (r: OrderPrice)
        requires
            self.config.tick_size.0 > 0,
        ensures
            r.0 == spec_base_price(self.config, side, *context),
    {
        match self.config.peg_mode {
            PassivePegMode::SameSide => match side {
                OrderSide::Buy => context.best_bid,
                OrderSide::Sell => context.best_ask,
            },
            PassivePegMode::Midpoint => midpoint_price(side, context, self.config.tick_size),
            PassivePegMode::ImproveOneTick => self.improved_price(side, context),
        }
    }

    fn improved_price(&self, side: OrderSide, context: &PassiveQueueContext) -> (r: OrderPrice)
        ensures
            r.0 == spec_improved_price(self.config, side, *context),
    {
        let ticks: i64 = if self.config.max_improvement_ticks >= 1 {
            self.config.max_improvement_ticks as i64
        } else {
            1
        };
        let improvement = sat_mul_i64(self.config.tick_size.0, ticks);
        match side {
            OrderSide::Buy => {
                let max_passive = sat_sub_i64(context.best_ask.0, self.config.tick_size.0);
                let raised = sat_add_i64(context.best_bid.0, improvement);
                OrderPrice(
                    if raised <= max_passive {
                        raised
                    } else {
                        max_passive
                    },
                )
            },
            OrderSide::Sell => {
                let min_passive = sat_add_i64(context.best_bid.0, self.config.tick_size.0);
                let lowered = sat_sub_i64(context.best_ask.0, improvement);
                OrderPrice(
                    if lowered >= min_passive {
                        lowered
                    } else {
                        min_passive
                    },
                )
            },
        }
    }

    fn can_improve(&self, side: OrderSide, context: &PassiveQueueContext) -> (r: bool)
        requires
            self.config.tick_size.0 > 0,
        ensures
            r == spec_can_improve(self.config, side, *context),
    {
        if self.config.max_improvement_ticks == 0 {
            return false;
        }
        let spread = sat_sub_i64(context.best_ask.0, context.best_bid.0);
        if spread <= self.config.tick_size.0 {
            return false;
        }
        self.improved_price(side, context).0 != self.base_price(side, context).0
    }
}

/// A passive child is released only by a releasing action: its price is the
/// estimate's price and its quantity the positive candidate quantity, which
/// never exceeds the unreleased quantity.
pub proof fn law_passive_child_matches_estimate(
    config: PassiveQueueConfig,
    parent: ParentOrder,
    progress: AlgoProgress,
    now_ns: u64,
    c: PassiveQueueContext,
    child_id: ChildOrderId,
    client_order_id: ClientOrderId,
    ts_recv_ns: u64,
)
    requires
        spec_passive_plan(
            config,
            parent,
            progress,
            now_ns,
            c,
            child_id,
            client_order_id,
            ts_recv_ns,
        ) matches Ok(d) && d.child is Some,
    ensures
        ({
            let d = spec_passive_plan(
                config,
                parent,
                progress,
                now_ns,
                c,
                child_id,
                client_order_id,
                ts_recv_ns,
            )->Ok_0;
            let p = d.child->Some_0;
            &&& d.estimate.action != PassiveQueueAction::Wait
            &&& p.spec_request().limit_price == d.estimate.candidate_price
            &&& p.spec_request().quantity == d.estimate.candidate_qty
            &&& 0 < p.spec_request().quantity.0 <= clamp_i64(
                parent.spec_total_qty().0 - progress.released_qty.0,
            )
        }),
{
}

} // verus!
