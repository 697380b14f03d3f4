//! Pre-submit risk policy for algorithm child orders: limits, host context,
//! bounded violation reports and the checks that fill them.

use vstd::prelude::*;
use crate::algo_model::{
    spec_parent_status_code, spec_parent_terminal, spec_parent_validate, AlgoAction, AlgoDecision,
    AlgoError, AlgoProgress, ChildOrderId, ChildOrderPlan, ParentOrder,
};
use crate::algo_support::{
    notional, participation_bps, price_distance_bps, spec_notional, spec_participation_bps,
    spec_price_distance_bps,
};
use crate::arith::{clamp_i64, i64_to_u128, sat_add_i64, spec_i64_to_u128};
use crate::orders::{OrderPrice, OrderQty};

verus! {


broadcast use {
    crate::algo_model::group_parent_order,
    crate::algo_model::group_child_plan,
};

/// Algorithm risk-policy outcome.
#[derive(Debug, Clone, Copy, PartialEq, Eq, Hash, Structural)]
#[non_exhaustive]
pub enum AlgoRiskOutcome {
    /// All configured checks passed.
    Allow,
    /// One or more configured limits blocked submission.
    Block,
    /// Kill switch or operator pause requires immediate halt semantics.
    KillSwitch,
}

impl AlgoRiskOutcome {
    /// Wire code of the outcome (allow 1, block 2, kill switch 3).
    pub fn code(self) -> (r: u8)
        ensures
            r == (match self {
                AlgoRiskOutcome::Allow => 1u8,
                AlgoRiskOutcome::Block => 2u8,
                AlgoRiskOutcome::KillSwitch => 3u8,
            }),
    {
        match self {
            AlgoRiskOutcome::Allow => 1,
            AlgoRiskOutcome::Block => 2,
            AlgoRiskOutcome::KillSwitch => 3,
        }
    }
}

/// Algorithm risk violation category.
#[derive(Debug, Clone, Copy, PartialEq, Eq, Hash, Structural)]
#[non_exhaustive]
pub enum AlgoRiskViolationKind {
    /// Kill switch is active.
    KillSwitchActive,
    /// Operator pause is active.
    OperatorPaused,
    /// Parent order is terminal.
    ParentTerminal,
    /// Parent/progress/child relationship is inconsistent.
    InvalidProgress,
    /// Market data is stale.
    StaleMarketData,
    /// Route is degraded.
    RouteDegraded,
    /// Persistence/journaling path is degraded.
    PersistenceDegraded,
    /// Parent quantity exceeds configured maximum.
    ParentQuantityExceeded,
    /// Child quantity exceeds configured maximum.
    ChildQuantityExceeded,
    /// Child notional exceeds configured maximum.
    ChildNotionalExceeded,
    /// Child price is outside configured collar.
    PriceCollarExceeded,
    /// Child would exceed configured participation cap.
    ParticipationExceeded,
    /// Open child quantity would exceed configured limit.
    OpenQuantityExceeded,
    /// Decision contains too many child submissions.
    ChildrenPerDecisionExceeded,
    /// Caller-reported child order rate exceeds configured limit.
    ChildOrderRateExceeded,
    /// Generated child request failed canonical OMS validation.
    InvalidChildPlan,
}

/// Wire code of a violation kind (kill switch 1 through invalid child plan 16).
pub open spec fn spec_violation_code(k: AlgoRiskViolationKind) -> u8 {
    match k {
        AlgoRiskViolationKind::KillSwitchActive => 1,
        AlgoRiskViolationKind::OperatorPaused => 2,
        AlgoRiskViolationKind::ParentTerminal => 3,
        AlgoRiskViolationKind::InvalidProgress => 4,
        AlgoRiskViolationKind::StaleMarketData => 5,
        AlgoRiskViolationKind::RouteDegraded => 6,
        AlgoRiskViolationKind::PersistenceDegraded => 7,
        AlgoRiskViolationKind::ParentQuantityExceeded => 8,
        AlgoRiskViolationKind::ChildQuantityExceeded => 9,
        AlgoRiskViolationKind::ChildNotionalExceeded => 10,
        AlgoRiskViolationKind::PriceCollarExceeded => 11,
        AlgoRiskViolationKind::ParticipationExceeded => 12,
        AlgoRiskViolationKind::OpenQuantityExceeded => 13,
        AlgoRiskViolationKind::ChildrenPerDecisionExceeded => 14,
        AlgoRiskViolationKind::ChildOrderRateExceeded => 15,
        AlgoRiskViolationKind::InvalidChildPlan => 16,
    }
}

impl AlgoRiskViolationKind {
    /// Wire code of the violation kind.
    pub fn code(self) -> (r: u8)
        ensures
            r == spec_violation_code(self),
    {
        match self {
            AlgoRiskViolationKind::KillSwitchActive => 1,
            AlgoRiskViolationKind::OperatorPaused => 2,
            AlgoRiskViolationKind::ParentTerminal => 3,
            AlgoRiskViolationKind::InvalidProgress => 4,
            AlgoRiskViolationKind::StaleMarketData => 5,
            AlgoRiskViolationKind::RouteDegraded => 6,
            AlgoRiskViolationKind::PersistenceDegraded => 7,
            AlgoRiskViolationKind::ParentQuantityExceeded => 8,
            AlgoRiskViolationKind::ChildQuantityExceeded => 9,
            AlgoRiskViolationKind::ChildNotionalExceeded => 10,
            AlgoRiskViolationKind::PriceCollarExceeded => 11,
            AlgoRiskViolationKind::ParticipationExceeded => 12,
            AlgoRiskViolationKind::OpenQuantityExceeded => 13,
            AlgoRiskViolationKind::ChildrenPerDecisionExceeded => 14,
            AlgoRiskViolationKind::ChildOrderRateExceeded => 15,
            AlgoRiskViolationKind::InvalidChildPlan => 16,
        }
    }
}

/// Kill-switch and operator-pause violations demand halt semantics.
pub open spec fn spec_is_halt_kind(k: AlgoRiskViolationKind) -> bool {
    k == AlgoRiskViolationKind::KillSwitchActive || k == AlgoRiskViolationKind::OperatorPaused
}

/// Outcome after recording one more violation of `kind`.
pub open spec fn spec_stronger_risk_outcome(
    current: AlgoRiskOutcome,
    kind: AlgoRiskViolationKind,
) -> AlgoRiskOutcome {
    if spec_is_halt_kind(kind) || current == AlgoRiskOutcome::KillSwitch {
        AlgoRiskOutcome::KillSwitch
    } else {
        AlgoRiskOutcome::Block
    }
}

/// Escalates an outcome by one violation.
pub fn stronger_risk_outcome(current: AlgoRiskOutcome, kind: AlgoRiskViolationKind) -> (r:
    AlgoRiskOutcome)
    ensures
        r == spec_stronger_risk_outcome(current, kind),
{
    match kind {
        AlgoRiskViolationKind::KillSwitchActive | AlgoRiskViolationKind::OperatorPaused => {
            return AlgoRiskOutcome::KillSwitch;
        },
        _ => {},
    }
    match current {
        AlgoRiskOutcome::KillSwitch => AlgoRiskOutcome::KillSwitch,
        _ => AlgoRiskOutcome::Block,
    }
}

/// One algorithm risk violation retained in a report.
#[derive(Debug, Clone, Copy, PartialEq, Eq)]
pub struct AlgoRiskViolation {
    /// Violation category.
    pub kind: AlgoRiskViolationKind,
    /// Child the violation concerns, when child-specific.
    pub child_id: Option<ChildOrderId>,
    /// Measured value.
    pub measured: u128,
    /// Configured limit.
    pub limit: u128,
}

impl AlgoRiskViolation {
    /// Creates a violation.
    pub fn new(
        kind: AlgoRiskViolationKind,
        child_id: Option<ChildOrderId>,
        measured: u128,
        limit: u128,
    ) -> (r: Self)
        ensures
            r == (AlgoRiskViolation { kind, child_id, measured, limit }),
    {
        Self { kind, child_id, measured, limit }
    }

    /// Returns violation category.
    pub fn kind(&self) -> (r: AlgoRiskViolationKind)
        ensures
            r == self.kind,
    {
        self.kind
    }

    /// Returns associated child identifier when the violation is child-specific.
    pub fn child_id(&self) -> (r: Option<ChildOrderId>)
        ensures
            r == self.child_id,
    {
        self.child_id
    }

    /// Returns measured value.
    pub fn measured(&self) -> (r: u128)
        ensures
            r == self.measured,
    {
        self.measured
    }

    /// Returns configured limit.
    pub fn limit(&self) -> (r: u128)
        ensures
            r == self.limit,
    {
        self.limit
    }
}

/// Algorithm risk limits. Zero-valued limits are disabled; basis-point limits
/// are at most `10_000` (100 percent).
#[derive(Debug, Clone, Copy, PartialEq, Eq)]
pub struct AlgoRiskLimits {
    /// Maximum parent quantity, zero when disabled.
    pub max_parent_qty: OrderQty,
    /// Maximum child quantity, zero when disabled.
    pub max_child_qty: OrderQty,
    /// Maximum child notional, zero when disabled.
    pub max_child_notional: u128,
    /// Maximum participation in basis points, zero when disabled.
    pub max_participation_bps: u16,
    /// Price collar in basis points, zero when disabled.
    pub price_collar_bps: u16,
    /// Maximum open child quantity, zero when disabled.
    pub max_open_qty: OrderQty,
    /// Maximum child submissions per decision, zero when disabled.
    pub max_children_per_decision: u16,
    /// Maximum child submissions in the caller's rate window, zero when disabled.
    pub max_child_orders_in_window: u32,
}

/// The limits with every optional control disabled.
pub open spec fn spec_unbounded_limits() -> AlgoRiskLimits {
    AlgoRiskLimits {
        max_parent_qty: OrderQty(0),
        max_child_qty: OrderQty(0),
        max_child_notional: 0,
        max_participation_bps: 0,
        price_collar_bps: 0,
        max_open_qty: OrderQty(0),
        max_children_per_decision: 0,
        max_child_orders_in_window: 0,
    }
}

impl AlgoRiskLimits {
    /// Creates limits; negative quantities or basis-point limits above
    /// `10_000` are refused with `InvalidRiskParameters`.
    #[allow(clippy::too_many_arguments)]
    pub fn new(
        max_parent_qty: OrderQty,
        max_child_qty: OrderQty,
        max_child_notional: u128,
        max_participation_bps: u16,
        price_collar_bps: u16,
        max_open_qty: OrderQty,
        max_children_per_decision: u16,
        max_child_orders_in_window: u32,
    ) -> (r: Result<Self, AlgoError>)
        ensures
            if max_parent_qty.0 < 0 || max_child_qty.0 < 0 || max_open_qty.0 < 0
                || max_participation_bps > 10_000 || price_collar_bps > 10_000 {
                r == Err::<Self, AlgoError>(AlgoError::InvalidRiskParameters)
            } else {
                r == Ok::<Self, AlgoError>(
                    AlgoRiskLimits {
                        max_parent_qty,
                        max_child_qty,
                        max_child_notional,
                        max_participation_bps,
                        price_collar_bps,
                        max_open_qty,
                        max_children_per_decision,
                        max_child_orders_in_window,
                    },
                )
            },
    {
        if max_parent_qty.0 < 0 || max_child_qty.0 < 0 || max_open_qty.0 < 0
            || max_participation_bps > 10_000 || price_collar_bps > 10_000 {
            return Err(AlgoError::InvalidRiskParameters);
        }
        Ok(
            Self {
                max_parent_qty,
                max_child_qty,
                max_child_notional,
                max_participation_bps,
                price_collar_bps,
                max_open_qty,
                max_children_per_decision,
                max_child_orders_in_window,
            },
        )
    }

    /// Returns limits with all optional controls disabled.
    pub fn unbounded() -> (r: Self)
        ensures
            r == spec_unbounded_limits(),
    {
        Self {
            max_parent_qty: OrderQty(0),
            max_child_qty: OrderQty(0),
            max_child_notional: 0,
            max_participation_bps: 0,
            price_collar_bps: 0,
            max_open_qty: OrderQty(0),
            max_children_per_decision: 0,
            max_child_orders_in_window: 0,
        }
    }

    /// Returns maximum parent quantity, or zero when disabled.
    pub fn max_parent_qty(&self) -> (r: OrderQty)
        ensures
            r == self.max_parent_qty,
    {
        self.max_parent_qty
    }

    /// Returns maximum child quantity, or zero when disabled.
    pub fn max_child_qty(&self) -> (r: OrderQty)
        ensures
            r == self.max_child_qty,
    {
        self.max_child_qty
    }

    /// Returns maximum child notional, or zero when disabled.
    pub fn max_child_notional(&self) -> (r: u128)
        ensures
            r == self.max_child_notional,
    {
        self.max_child_notional
    }

    /// Returns maximum participation in basis points, or zero when disabled.
    pub fn max_participation_bps(&self) -> (r: u16)
        ensures
            r == self.max_participation_bps,
    {
        self.max_participation_bps
    }

    /// Returns price collar in basis points, or zero when disabled.
    pub fn price_collar_bps(&self) -> (r: u16)
        ensures
            r == self.price_collar_bps,
    {
        self.price_collar_bps
    }

    /// Returns maximum open child quantity, or zero when disabled.
    pub fn max_open_qty(&self) -> (r: OrderQty)
        ensures
            r == self.max_open_qty,
    {
        self.max_open_qty
    }

    /// Returns maximum child submissions per decision, or zero when disabled.
    pub fn max_children_per_decision(&self) -> (r: u16)
        ensures
            r == self.max_children_per_decision,
    {
        self.max_children_per_decision
    }

    /// Returns maximum child submissions in the caller's rate window, or zero
    /// when disabled.
    pub fn max_child_orders_in_window(&self) -> (r: u32)
        ensures
            r == self.max_child_orders_in_window,
    {
        self.max_child_orders_in_window
    }
}

impl Default for AlgoRiskLimits {
    fn default() -> (r: Self)
        ensures
            r == spec_unbounded_limits(),
    {
        Self::unbounded()
    }
}

/// Host-supplied risk context for one algorithm decision.
#[derive(Debug, Clone, Copy, PartialEq, Eq)]
pub struct AlgoRiskContext {
    /// Reference price used for collar checks.
    pub reference_price: OrderPrice,
    /// Observed market volume used for participation checks.
    pub observed_market_volume: OrderQty,
    /// Currently open child order count supplied by the host.
    pub open_child_orders: u32,
    /// Child order count in the caller's rate-limit window.
    pub child_orders_in_window: u32,
    /// Market data is stale.
    pub stale_market_data: bool,
    /// Route is degraded.
    pub route_degraded: bool,
    /// Persistence is degraded.
    pub persistence_degraded: bool,
    /// Kill switch is active.
    pub kill_switch_active: bool,
    /// Operator pause is active.
    pub operator_paused: bool,
}

impl AlgoRiskContext {
    /// Creates a quiet context around a positive reference price; a
    /// non-positive price is refused with `InvalidRiskParameters`.
    pub fn new(reference_price: OrderPrice) -> (r: Result<Self, AlgoError>)
        ensures
            if reference_price.0 <= 0 {
                r == Err::<Self, AlgoError>(AlgoError::InvalidRiskParameters)
            } else {
                r == Ok::<Self, AlgoError>(
                    AlgoRiskContext {
                        reference_price,
                        observed_market_volume: OrderQty(0),
                        open_child_orders: 0,
                        child_orders_in_window: 0,
                        stale_market_data: false,
                        route_degraded: false,
                        persistence_degraded: false,
                        kill_switch_active: false,
                        operator_paused: false,
                    },
                )
            },
    {
        if reference_price.0 <= 0 {
            return Err(AlgoError::InvalidRiskParameters);
        }
        Ok(
            Self {
                reference_price,
                observed_market_volume: OrderQty(0),
                open_child_orders: 0,
                child_orders_in_window: 0,
                stale_market_data: false,
                route_degraded: false,
                persistence_degraded: false,
                kill_switch_active: false,
                operator_paused: false,
            },
        )
    }

    /// Returns the reference price used for collar checks.
    pub fn reference_price(&self) -> (r: OrderPrice)
        ensures
            r == self.reference_price,
    {
        self.reference_price
    }

    /// Returns observed market volume used for participation checks.
    pub fn observed_market_volume(&self) -> (r: OrderQty)
        ensures
            r == self.observed_market_volume,
    {
        self.observed_market_volume
    }

    /// Returns currently open child order count supplied by the host.
    pub fn open_child_orders(&self) -> (r: u32)
        ensures
            r == self.open_child_orders,
    {
        self.open_child_orders
    }

    /// Returns child order count in the caller's rate-limit window.
    pub fn child_orders_in_window(&self) -> (r: u32)
        ensures
            r == self.child_orders_in_window,
    {
        self.child_orders_in_window
    }

    /// Returns true when market data should block child release.
    pub fn stale_market_data(&self) -> (r: bool)
        ensures
            r == self.stale_market_data,
    {
        self.stale_market_data
    }

    /// Returns true when route degradation should block child release.
    pub fn route_degraded(&self) -> (r: bool)
        ensures
            r == self.route_degraded,
    {
        self.route_degraded
    }

    /// Returns true when persistence degradation should block child release.
    pub fn persistence_degraded(&self) -> (r: bool)
        ensures
            r == self.persistence_degraded,
    {
        self.persistence_degraded
    }

    /// Returns true when kill switch is active.
    pub fn kill_switch_active(&self) -> (r: bool)
        ensures
            r == self.kill_switch_active,
    {
        self.kill_switch_active
    }

    /// Returns true when operator pause is active.
    pub fn operator_paused(&self) -> (r: bool)
        ensures
            r == self.operator_paused,
    {
        self.operator_paused
    }

    /// Returns a copy with observed market volume.
    pub fn with_observed_market_volume(self, volume: OrderQty) -> (r: Self)
        ensures
            r == (AlgoRiskContext { observed_market_volume: volume, ..self }),
    {
        AlgoRiskContext { observed_market_volume: volume, ..self }
    }

    /// Returns a copy with currently open child order count.
    pub fn with_open_child_orders(self, count: u32) -> (r: Self)
        ensures
            r == (AlgoRiskContext { open_child_orders: count, ..self }),
    {
        AlgoRiskContext { open_child_orders: count, ..self }
    }

    /// Returns a copy with child order count in the caller's rate window.
    pub fn with_child_orders_in_window(self, count: u32) -> (r: Self)
        ensures
            r == (AlgoRiskContext { child_orders_in_window: count, ..self }),
    {
        AlgoRiskContext { child_orders_in_window: count, ..self }
    }

    /// Returns a copy with stale market-data flag.
    pub fn with_stale_market_data(self, value: bool) -> (r: Self)
        ensures
            r == (AlgoRiskContext { stale_market_data: value, ..self }),
    {
        AlgoRiskContext { stale_market_data: value, ..self }
    }

    /// Returns a copy with route-degraded flag.
    pub fn with_route_degraded(self, value: bool) -> (r: Self)
        ensures
            r == (AlgoRiskContext { route_degraded: value, ..self }),
    {
        AlgoRiskContext { route_degraded: value, ..self }
    }

    /// Returns a copy with persistence-degraded flag.
    pub fn with_persistence_degraded(self, value: bool) -> (r: Self)
        ensures
            r == (AlgoRiskContext { persistence_degraded: value, ..self }),
    {
        AlgoRiskContext { persistence_degraded: value, ..self }
    }

    /// Returns a copy with kill-switch flag.
    pub fn with_kill_switch_active(self, value: bool) -> (r: Self)
        ensures
            r == (AlgoRiskContext { kill_switch_active: value, ..self }),
    {
        AlgoRiskContext { kill_switch_active: value, ..self }
    }

    /// Returns a copy with operator-pause flag.
    pub fn with_operator_paused(self, value: bool) -> (r: Self)
        ensures
            r == (AlgoRiskContext { operator_paused: value, ..self }),
    {
        AlgoRiskContext { operator_paused: value, ..self }
    }
}

/// Outcome of recording the violations `vs` in order into an allow report.
pub open spec fn spec_fold_outcome(vs: Seq<AlgoRiskViolation>) -> AlgoRiskOutcome
    decreases vs.len(),
{
    if vs.len() == 0 {
        AlgoRiskOutcome::Allow
    } else {
        spec_stronger_risk_outcome(spec_fold_outcome(vs.drop_last()), vs.last().kind)
    }
}

/// The violations a report of capacity `cap` retains of `vs`: the first `cap`.
pub open spec fn spec_retained(vs: Seq<AlgoRiskViolation>, cap: nat) -> Seq<AlgoRiskViolation> {
    if vs.len() <= cap {
        vs
    } else {
        vs.take(cap as int)
    }
}

/// Fixed-capacity risk report retaining at most `N` violations.
#[derive(Debug, PartialEq, Eq)]
pub struct AlgoRiskReport<const N: usize> {
    outcome: AlgoRiskOutcome,
    violations: Vec<AlgoRiskViolation>,
    truncated: bool,
}

/// A report is the result of recording `vs`, in order, into an empty report:
/// its outcome folds every violation, it retains the first `N`, and it is
/// truncated exactly when more than `N` occurred.
pub open spec fn spec_report_of<const N: usize>(
    r: AlgoRiskReport<N>,
    vs: Seq<AlgoRiskViolation>,
) -> bool {
    &&& r.spec_outcome() == spec_fold_outcome(vs)
    &&& r.spec_violations() == spec_retained(vs, N as nat)
    &&& r.spec_truncated() == (vs.len() > N)
}

impl<const N: usize> AlgoRiskReport<N> {
    #[verifier::type_invariant]
    spec fn inv(&self) -> bool {
        self.violations@.len() <= N
    }

    /// The recorded outcome.
    pub closed spec fn spec_outcome(&self) -> AlgoRiskOutcome {
        self.outcome
    }

    /// The retained violations in insertion order.
    pub closed spec fn spec_violations(&self) -> Seq<AlgoRiskViolation> {
        self.violations@
    }

    /// Whether violations were dropped for lack of capacity.
    pub closed spec fn spec_truncated(&self) -> bool {
        self.truncated
    }

    /// Creates an empty allow report.
    pub fn new() -> (r: Self)
        ensures
            spec_report_of(r, Seq::empty()),
    {
        Self { outcome: AlgoRiskOutcome::Allow, violations: Vec::new(), truncated: false }
    }

    /// Returns risk outcome.
    pub fn outcome(&self) -> (r: AlgoRiskOutcome)
        ensures
            r == self.spec_outcome(),
    {
        self.outcome
    }

    /// Returns true when submission is allowed.
    pub fn is_allowed(&self) -> (r: bool)
        ensures
            r == (self.spec_outcome() == AlgoRiskOutcome::Allow),
    {
        match self.outcome {
            AlgoRiskOutcome::Allow => true,
            _ => false,
        }
    }

    /// Returns retained violation count.
    pub fn len(&self) -> (r: usize)
        ensures
            r == self.spec_violations().len(),
            r <= N,
    {
        proof {
            use_type_invariant(self);
        }
        self.violations.len()
    }

    /// Returns true when no retained violations are present.
    pub fn is_empty(&self) -> (r: bool)
        ensures
            r == (self.spec_violations().len() == 0),
    {
        self.violations.len() == 0
    }

    /// Returns true when more violations occurred than the report retained.
    pub fn truncated(&self) -> (r: bool)
        ensures
            r == self.spec_truncated(),
    {
        self.truncated
    }

    /// Iterates over the retained violations in insertion order.
    pub fn violations(&self) -> (r: std::slice::Iter<'_, AlgoRiskViolation>)
        ensures
            vstd::std_specs::iter::IteratorSpec::remaining(&r) == self.spec_violations().as_ref(),
    {
        broadcast use vstd::std_specs::slice::axiom_spec_slice_iter;

        self.violations.as_slice().iter()
    }

    /// Returns the retained violations as a slice.
    pub fn violation_list(&self) -> (r: &[AlgoRiskViolation])
        ensures
            r@ == self.spec_violations(),
    {
        self.violations.as_slice()
    }

    /// Returns the first retained violation.
    pub fn first_violation(&self) -> (r: Option<&AlgoRiskViolation>)
        ensures
            r == (if self.spec_violations().len() > 0 {
                Some(&self.spec_violations()[0])
            } else {
                None
            }),
    {
        if self.violations.len() > 0 {
            Some(&self.violations[0])
        } else {
            None
        }
    }

    /// Records one violation: the outcome escalates, and the violation is
    /// retained while capacity remains, else the report is marked truncated.
    pub(crate) fn push(&mut self, violation: AlgoRiskViolation, Ghost(vs): Ghost<
        Seq<AlgoRiskViolation>,
    >)
        requires
            spec_report_of(*old(self), vs),
        ensures
            spec_report_of(*final(self), vs.push(violation)),
    {
        proof {
            use_type_invariant(&*self);
            assert(vs.push(violation).drop_last() =~= vs);
        }
        let outcome = stronger_risk_outcome(self.outcome, violation.kind);
        if self.violations.len() == N {
            self.outcome = outcome;
            self.truncated = true;
            proof {
                assert(spec_retained(vs.push(violation), N as nat) =~= self.violations@);
            }
            return;
        }
        let mut retained: Vec<AlgoRiskViolation> = Vec::new();
        std::mem::swap(&mut retained, &mut self.violations);
        retained.push(violation);
        self.violations = retained;
        self.outcome = outcome;
        proof {
            assert(spec_retained(vs.push(violation), N as nat) =~= self.violations@);
        }
    }

    /// Records `violation` only when `condition` holds.
    fn push_if(&mut self, condition: bool, violation: AlgoRiskViolation, Ghost(vs): Ghost<
        Seq<AlgoRiskViolation>,
    >)
        requires
            spec_report_of(*old(self), vs),
        ensures
            spec_report_of(*final(self), vs + spec_opt(condition, violation)),
    {
        if condition {
            self.push(violation, Ghost(vs));
            proof {
                assert(vs + spec_opt(condition, violation) =~= vs.push(violation));
            }
        } else {
            proof {
                assert(vs + spec_opt(condition, violation) =~= vs);
            }
        }
    }
}

impl<const N: usize> Clone for AlgoRiskReport<N> {
    fn clone(&self) -> (r: Self)
        ensures
            r.spec_outcome() == self.spec_outcome(),
            r.spec_violations() == self.spec_violations(),
            r.spec_truncated() == self.spec_truncated(),
    {
        proof {
            use_type_invariant(self);
        }
        let mut violations: Vec<AlgoRiskViolation> = Vec::new();
        let mut i: usize = 0;
        while i < self.violations.len()
            invariant
                i <= self.violations@.len(),
                violations@ == self.violations@.take(i as int),
            decreases self.violations@.len() - i,
        {
            violations.push(self.violations[i]);
            i = i + 1;
            assert(violations@ =~= self.violations@.take(i as int));
        }
        assert(self.violations@.take(i as int) =~= self.violations@);
        Self { outcome: self.outcome, violations, truncated: self.truncated }
    }
}

impl<const N: usize> Default for AlgoRiskReport<N> {
    fn default() -> (r: Self)
        ensures
            spec_report_of(r, Seq::empty()),
    {
        Self::new()
    }
}

/// `v` alone when `c` holds, else nothing.
pub open spec fn spec_opt(c: bool, v: AlgoRiskViolation) -> Seq<AlgoRiskViolation> {
    if c {
        seq![v]
    } else {
        Seq::empty()
    }
}

/// A violation with integer measured value and limit.
pub open spec fn spec_violation(
    kind: AlgoRiskViolationKind,
    child_id: Option<ChildOrderId>,
    measured: int,
    limit: int,
) -> AlgoRiskViolation {
    AlgoRiskViolation { kind, child_id, measured: measured as u128, limit: limit as u128 }
}

/// A progress record belongs to a parent when identifier and target agree.
pub open spec fn spec_progress_matches(parent: ParentOrder, progress: AlgoProgress) -> bool {
    progress.parent_id@ == parent.spec_id()@ && progress.target_qty == parent.spec_total_qty()
}

/// Violations of the parent-level checks: terminal parent, parent quantity.
pub open spec fn spec_static_violations(
    limits: AlgoRiskLimits,
    parent: ParentOrder,
) -> Seq<AlgoRiskViolation> {
    spec_opt(
        spec_parent_terminal(parent.spec_status()),
        spec_violation(
            AlgoRiskViolationKind::ParentTerminal,
            None,
            spec_parent_status_code(parent.spec_status()) as int,
            0,
        ),
    ) + spec_opt(
        limits.max_parent_qty.0 > 0 && parent.spec_total_qty().0 > limits.max_parent_qty.0,
        spec_violation(
            AlgoRiskViolationKind::ParentQuantityExceeded,
            None,
            spec_i64_to_u128(parent.spec_total_qty().0),
            spec_i64_to_u128(limits.max_parent_qty.0),
        ),
    )
}

/// Violations raised by the host context flags, in a fixed order.
pub open spec fn spec_dynamic_violations(context: AlgoRiskContext) -> Seq<AlgoRiskViolation> {
    spec_opt(
        context.kill_switch_active,
        spec_violation(AlgoRiskViolationKind::KillSwitchActive, None, 1, 0),
    ) + spec_opt(
        context.operator_paused,
        spec_violation(AlgoRiskViolationKind::OperatorPaused, None, 1, 0),
    ) + spec_opt(
        context.stale_market_data,
        spec_violation(AlgoRiskViolationKind::StaleMarketData, None, 1, 0),
    ) + spec_opt(
        context.route_degraded,
        spec_violation(AlgoRiskViolationKind::RouteDegraded, None, 1, 0),
    ) + spec_opt(
        context.persistence_degraded,
        spec_violation(AlgoRiskViolationKind::PersistenceDegraded, None, 1, 0),
    )
}

/// Window count after adding `count` children, saturating at `u32::MAX`.
pub open spec fn spec_projected_window(context: AlgoRiskContext, count: u16) -> int {
    if context.child_orders_in_window + count > u32::MAX {
        u32::MAX as int
    } else {
        context.child_orders_in_window + count
    }
}

/// Violations of the per-decision child count and the rate window.
pub open spec fn spec_count_violations(
    limits: AlgoRiskLimits,
    count: u16,
    context: AlgoRiskContext,
) -> Seq<AlgoRiskViolation> {
    spec_opt(
        limits.max_children_per_decision > 0 && count > limits.max_children_per_decision,
        spec_violation(
            AlgoRiskViolationKind::ChildrenPerDecisionExceeded,
            None,
            count as int,
            limits.max_children_per_decision as int,
        ),
    ) + spec_opt(
        limits.max_child_orders_in_window > 0 && spec_projected_window(context, count)
            > limits.max_child_orders_in_window,
        spec_violation(
            AlgoRiskViolationKind::ChildOrderRateExceeded,
            None,
            spec_projected_window(context, count),
            limits.max_child_orders_in_window as int,
        ),
    )
}

/// Violation of the open-quantity limit by `open_qty`.
pub open spec fn spec_open_qty_violations(
    limits: AlgoRiskLimits,
    open_qty: i64,
    child_id: Option<ChildOrderId>,
) -> Seq<AlgoRiskViolation> {
    spec_opt(
        limits.max_open_qty.0 > 0 && open_qty > limits.max_open_qty.0,
        spec_violation(
            AlgoRiskViolationKind::OpenQuantityExceeded,
            child_id,
            spec_i64_to_u128(open_qty),
            spec_i64_to_u128(limits.max_open_qty.0),
        ),
    )
}

/// Violations of a valid child's own limits: quantity, notional, price
/// collar and participation.
pub open spec fn spec_child_basic_violations(
    limits: AlgoRiskLimits,
    child: ChildOrderPlan,
    context: AlgoRiskContext,
) -> Seq<AlgoRiskViolation> {
    let q = child.spec_request().quantity.0;
    let cid = Some(child.spec_child_id());
    let notional = spec_notional(q, child.spec_request().limit_price.0);
    let distance = spec_price_distance_bps(
        child.spec_request().limit_price.0 as int,
        context.reference_price.0 as int,
    );
    let participation = spec_participation_bps(q as int, context.observed_market_volume.0 as int);
    spec_opt(
        limits.max_child_qty.0 > 0 && q > limits.max_child_qty.0,
        spec_violation(
            AlgoRiskViolationKind::ChildQuantityExceeded,
            cid,
            spec_i64_to_u128(q),
            spec_i64_to_u128(limits.max_child_qty.0),
        ),
    ) + spec_opt(
        limits.max_child_notional > 0 && notional > limits.max_child_notional,
        spec_violation(
            AlgoRiskViolationKind::ChildNotionalExceeded,
            cid,
            notional,
            limits.max_child_notional as int,
        ),
    ) + spec_opt(
        limits.price_collar_bps > 0 && distance > limits.price_collar_bps,
        spec_violation(
            AlgoRiskViolationKind::PriceCollarExceeded,
            cid,
            distance,
            limits.price_collar_bps as int,
        ),
    ) + spec_opt(
        limits.max_participation_bps > 0 && context.observed_market_volume.0 > 0 && participation
            > limits.max_participation_bps,
        spec_violation(
            AlgoRiskViolationKind::ParticipationExceeded,
            cid,
            participation,
            limits.max_participation_bps as int,
        ),
    )
}

/// Violations of a valid child: its own limits, then the count checks and
/// the open quantity after the child.
pub open spec fn spec_child_limit_violations(
    limits: AlgoRiskLimits,
    progress: AlgoProgress,
    child: ChildOrderPlan,
    context: AlgoRiskContext,
    count: u16,
) -> Seq<AlgoRiskViolation> {
    spec_child_basic_violations(limits, child, context) + spec_count_violations(
        limits,
        count,
        context,
    ) + spec_open_qty_violations(
        limits,
        clamp_i64(progress.open_qty.0 + child.spec_request().quantity.0) as i64,
        Some(child.spec_child_id()),
    )
}

/// The child check: a child of another parent is `InvalidProgress`, an
/// invalid request is its core error, else the child's limit violations.
pub open spec fn spec_child_check(
    limits: AlgoRiskLimits,
    parent: ParentOrder,
    progress: AlgoProgress,
    child: ChildOrderPlan,
    context: AlgoRiskContext,
    count: u16,
) -> Result<Seq<AlgoRiskViolation>, AlgoError> {
    if child.spec_parent_id()@ != parent.spec_id()@ {
        Err(AlgoError::InvalidProgress)
    } else {
        match child.spec_request().spec_validate() {
            Err(e) => Err(AlgoError::Core(e)),
            Ok(_) => Ok(spec_child_limit_violations(limits, progress, child, context, count)),
        }
    }
}

/// The parent checks shared by child and decision evaluation: an invalid
/// parent or mismatched progress is an error, else the parent-level and
/// context violations.
pub open spec fn spec_prelude(
    limits: AlgoRiskLimits,
    parent: ParentOrder,
    progress: AlgoProgress,
    context: AlgoRiskContext,
) -> Result<Seq<AlgoRiskViolation>, AlgoError> {
    match spec_parent_validate(parent) {
        Err(e) => Err(e),
        Ok(_) => if !spec_progress_matches(parent, progress) {
            Err(AlgoError::InvalidProgress)
        } else {
            Ok(spec_static_violations(limits, parent) + spec_dynamic_violations(context))
        },
    }
}

/// All violations of evaluating one child, or the error that stops it.
pub open spec fn spec_evaluate_child(
    limits: AlgoRiskLimits,
    parent: ParentOrder,
    progress: AlgoProgress,
    child: ChildOrderPlan,
    context: AlgoRiskContext,
) -> Result<Seq<AlgoRiskViolation>, AlgoError> {
    match spec_prelude(limits, parent, progress, context) {
        Err(e) => Err(e),
        Ok(pre) => match spec_child_check(limits, parent, progress, child, context, 1) {
            Err(e) => Err(e),
            Ok(cv) => Ok(pre + cv),
        },
    }
}

/// One action of a decision: a child submission raises the child count
/// (saturating), is checked, and adds to the planned open quantity
/// (saturating); other actions change nothing.
pub open spec fn spec_decision_step(
    limits: AlgoRiskLimits,
    parent: ParentOrder,
    progress: AlgoProgress,
    context: AlgoRiskContext,
    state: (Seq<AlgoRiskViolation>, u16, i64),
    action: AlgoAction,
) -> Result<(Seq<AlgoRiskViolation>, u16, i64), AlgoError> {
    let (vs, count, open) = state;
    match action {
        AlgoAction::SubmitChild(child) => {
            let next = if count == u16::MAX {
                count
            } else {
                (count + 1) as u16
            };
            match spec_child_check(limits, parent, progress, child, context, next) {
                Err(e) => Err(e),
                Ok(cv) => Ok((vs + cv, next, clamp_i64(open + child.spec_request().quantity.0) as i64)),
            }
        },
        _ => Ok(state),
    }
}

/// Folds the child submissions of `actions`: the violations so far, the
/// child count and the planned open quantity.
pub open spec fn spec_decision_fold(
    limits: AlgoRiskLimits,
    parent: ParentOrder,
    progress: AlgoProgress,
    context: AlgoRiskContext,
    actions: Seq<AlgoAction>,
) -> Result<(Seq<AlgoRiskViolation>, u16, i64), AlgoError>
    decreases actions.len(),
{
    if actions.len() == 0 {
        Ok((Seq::empty(), 0u16, progress.open_qty.0))
    } else {
        match spec_decision_fold(limits, parent, progress, context, actions.drop_last()) {
            Err(e) => Err(e),
            Ok(state) => spec_decision_step(limits, parent, progress, context, state, actions.last()),
        }
    }
}

/// All violations of evaluating a decision, or the error that stops it.
pub open spec fn spec_evaluate_decision(
    limits: AlgoRiskLimits,
    parent: ParentOrder,
    progress: AlgoProgress,
    actions: Seq<AlgoAction>,
    context: AlgoRiskContext,
) -> Result<Seq<AlgoRiskViolation>, AlgoError> {
    match spec_prelude(limits, parent, progress, context) {
        Err(e) => Err(e),
        Ok(pre) => match spec_decision_fold(limits, parent, progress, context, actions) {
            Err(e) => Err(e),
            Ok((vs, _count, open)) => Ok(
                pre + vs + spec_open_qty_violations(limits, open, None),
            ),
        },
    }
}

/// Additive algorithm risk policy for validating child plans before OMS submit.
#[derive(Debug, Clone, Copy, PartialEq, Eq)]
pub struct AlgoRiskPolicy {
    /// Configured limits.
    pub limits: AlgoRiskLimits,
}

impl AlgoRiskPolicy {
    /// Creates a policy from limits.
    pub fn new(limits: AlgoRiskLimits) -> (r: Self)
        ensures
            r.limits == limits,
    {
        Self { limits }
    }

    /// Returns configured limits.
    pub fn limits(&self) -> (r: AlgoRiskLimits)
        ensures
            r == self.limits,
    {
        self.limits
    }

    /// Evaluates one planned child order: the report records every violation
    /// in check order; an invalid parent, progress or child is an error.
    pub fn evaluate_child<const N: usize>(
        &self,
        parent: &ParentOrder,
        progress: AlgoProgress,
        child: &ChildOrderPlan,
        context: AlgoRiskContext,
    ) -> (r: Result<AlgoRiskReport<N>, AlgoError>)
        ensures
            match spec_evaluate_child(self.limits, *parent, progress, *child, context) {
                Err(e) => r == Err::<AlgoRiskReport<N>, AlgoError>(e),
                Ok(vs) => r is Ok && spec_report_of(r->Ok_0, vs),
            },
    {
        let mut report: AlgoRiskReport<N> = AlgoRiskReport::new();
        match self.prelude(&mut report, parent, progress, context) {
            Err(e) => {
                return Err(e);
            },
            Ok(()) => {},
        }
        let ghost pre = spec_prelude(self.limits, *parent, progress, context)->Ok_0;
        match self.check_child(&mut report, parent, progress, child, context, 1, Ghost(pre)) {
            Err(e) => Err(e),
            Ok(()) => Ok(report),
        }
    }

    /// Evaluates all child submissions inside one decision: child checks in
    /// action order with a running child count, then the planned open
    /// quantity of the whole decision.
    #[verifier::rlimit(40)]
    pub fn evaluate_decision<const REPORT_N: usize, const DECISION_N: usize>(
        &self,
        parent: &ParentOrder,
        progress: AlgoProgress,
        decision: &AlgoDecision<DECISION_N>,
        context: AlgoRiskContext,
    ) -> (r: Result<AlgoRiskReport<REPORT_N>, AlgoError>)
        ensures
            match spec_evaluate_decision(
                self.limits,
                *parent,
                progress,
                decision.spec_actions(),
                context,
            ) {
                Err(e) => r == Err::<AlgoRiskReport<REPORT_N>, AlgoError>(e),
                Ok(vs) => r is Ok && spec_report_of(r->Ok_0, vs),
            },
    {
        let mut report: AlgoRiskReport<REPORT_N> = AlgoRiskReport::new();
        match self.prelude(&mut report, parent, progress, context) {
            Err(e) => {
                return Err(e);
            },
            Ok(()) => {},
        }
        let ghost pre = spec_prelude(self.limits, *parent, progress, context)->Ok_0;
        let actions = decision.action_list();
        let mut child_count: u16 = 0;
        let mut planned_open_qty: i64 = progress.open_qty.0;
        let ghost mut vs: Seq<AlgoRiskViolation> = Seq::empty();
        let mut i: usize = 0;
        proof {
            assert(pre + vs =~= pre);
        }
        while i < actions.len()
            invariant
                i <= actions@.len(),
                actions@ == decision.spec_actions(),
                spec_report_of(report, pre + vs),
                spec_decision_fold(self.limits, *parent, progress, context, actions@.take(i as int))
                    == Ok::<(Seq<AlgoRiskViolation>, u16, i64), AlgoError>(
                    (vs, child_count, planned_open_qty),
                ),
                spec_prelude(self.limits, *parent, progress, context) == Ok::<
                    Seq<AlgoRiskViolation>,
                    AlgoError,
                >(pre),
            decreases actions@.len() - i,
        {
            proof {
                assert(actions@.take(i as int + 1).drop_last() =~= actions@.take(i as int));
                assert(actions@.take(i as int + 1).last() == actions@[i as int]);
            }
            match self.decision_step(
                &mut report,
                parent,
                progress,
                context,
                &actions[i],
                child_count,
                planned_open_qty,
                Ghost(pre),
                Ghost(vs),
            ) {
                Err(e) => {
                    proof {
                        lemma_fold_error_sticks(
                            self.limits,
                            *parent,
                            progress,
                            context,
                            actions@,
                            i as int + 1,
                            e,
                        );
                    }
                    return Err(e);
                },
                Ok((count, open)) => {
                    proof {
                        vs = spec_decision_fold(
                            self.limits,
                            *parent,
                            progress,
                            context,
                            actions@.take(i as int + 1),
                        )->Ok_0.0;
                    }
                    child_count = count;
                    planned_open_qty = open;
                },
            }
            i = i + 1;
        }
        proof {
            assert(actions@.take(i as int) =~= actions@);
        }
        self.check_open_qty(&mut report, planned_open_qty, None, Ghost(pre + vs));
        Ok(report)
    }

    /// One action of a decision evaluation.
    #[allow(clippy::too_many_arguments)]
    fn decision_step<const N: usize>(
        &self,
        report: &mut AlgoRiskReport<N>,
        parent: &ParentOrder,
        progress: AlgoProgress,
        context: AlgoRiskContext,
        action: &AlgoAction,
        count: u16,
        open: i64,
        Ghost(pre): Ghost<Seq<AlgoRiskViolation>>,
        Ghost(vs): Ghost<Seq<AlgoRiskViolation>>,
    ) -> (r: Result<(u16, i64), AlgoError>)
        requires
            spec_report_of(*old(report), pre + vs),
        ensures
            match spec_decision_step(
                self.limits,
                *parent,
                progress,
                context,
                (vs, count, open),
                *action,
            ) {
                Err(e) => r == Err::<(u16, i64), AlgoError>(e),
                Ok((vs2, count2, open2)) => r == Ok::<(u16, i64), AlgoError>((count2, open2))
                    && spec_report_of(*final(report), pre + vs2),
            },
    {
        match action {
            AlgoAction::SubmitChild(child) => {
                let next = if count == u16::MAX {
                    count
                } else {
                    count + 1
                };
                match self.check_child(report, parent, progress, child, context, next, Ghost(pre + vs)) {
                    Err(e) => Err(e),
                    Ok(()) => {
                        proof {
                            let cv = spec_child_check(
                                self.limits,
                                *parent,
                                progress,
                                *child,
                                context,
                                next,
                            )->Ok_0;
                            assert(pre + vs + cv =~= pre + (vs + cv));
                        }
                        Ok((next, sat_add_i64(open, child.request().quantity.0)))
                    },
                }
            },
            _ => Ok((count, open)),
        }
    }

    /// Parent validation, progress match, parent-level and context checks.
    fn prelude<const N: usize>(
        &self,
        report: &mut AlgoRiskReport<N>,
        parent: &ParentOrder,
        progress: AlgoProgress,
        context: AlgoRiskContext,
    ) -> (r: Result<(), AlgoError>)
        requires
            spec_report_of(*old(report), Seq::empty()),
        ensures
            match spec_prelude(self.limits, *parent, progress, context) {
                Err(e) => r == Err::<(), AlgoError>(e),
                Ok(pre) => r is Ok && spec_report_of(*final(report), pre),
            },
    {
        match parent.validate() {
            Err(e) => {
                return Err(e);
            },
            Ok(()) => {},
        }
        if !progress.parent_id.same_text(&parent.id()) || progress.target_qty.0
            != parent.total_qty().0 {
            return Err(AlgoError::InvalidProgress);
        }
        let ghost v0: Seq<AlgoRiskViolation> = Seq::empty();
        let terminal = parent.status().is_terminal();
        report.push_if(
            terminal,
            AlgoRiskViolation::new(
                AlgoRiskViolationKind::ParentTerminal,
                None,
                parent.status().code() as u128,
                0,
            ),
            Ghost(v0),
        );
        let ghost v1 = v0 + spec_opt(
            terminal,
            spec_violation(
                AlgoRiskViolationKind::ParentTerminal,
                None,
                spec_parent_status_code(parent.spec_status()) as int,
                0,
            ),
        );
        let over = self.limits.max_parent_qty.0 > 0 && parent.total_qty().0
            > self.limits.max_parent_qty.0;
        report.push_if(
            over,
            AlgoRiskViolation::new(
                AlgoRiskViolationKind::ParentQuantityExceeded,
                None,
                i64_to_u128(parent.total_qty().0),
                i64_to_u128(self.limits.max_parent_qty.0),
            ),
            Ghost(v1),
        );
        let ghost v2 = v1 + spec_opt(
            over,
            spec_violation(
                AlgoRiskViolationKind::ParentQuantityExceeded,
                None,
                spec_i64_to_u128(parent.spec_total_qty().0),
                spec_i64_to_u128(self.limits.max_parent_qty.0),
            ),
        );
        proof {
            assert(v2 =~= spec_static_violations(self.limits, *parent));
        }
        self.check_dynamic_context(report, context, Ghost(v2));
        Ok(())
    }

    /// Context flags, in the fixed order kill switch, pause, stale data,
    /// route, persistence.
    fn check_dynamic_context<const N: usize>(
        &self,
        report: &mut AlgoRiskReport<N>,
        context: AlgoRiskContext,
        Ghost(vs): Ghost<Seq<AlgoRiskViolation>>,
    )
        requires
            spec_report_of(*old(report), vs),
        ensures
            spec_report_of(*final(report), vs + spec_dynamic_violations(context)),
    {
        let ghost k = spec_opt(
            context.kill_switch_active,
            spec_violation(AlgoRiskViolationKind::KillSwitchActive, None, 1, 0),
        );
        let ghost p = spec_opt(
            context.operator_paused,
            spec_violation(AlgoRiskViolationKind::OperatorPaused, None, 1, 0),
        );
        let ghost s = spec_opt(
            context.stale_market_data,
            spec_violation(AlgoRiskViolationKind::StaleMarketData, None, 1, 0),
        );
        let ghost d = spec_opt(
            context.route_degraded,
            spec_violation(AlgoRiskViolationKind::RouteDegraded, None, 1, 0),
        );
        report.push_if(
            context.kill_switch_active,
            AlgoRiskViolation::new(AlgoRiskViolationKind::KillSwitchActive, None, 1, 0),
            Ghost(vs),
        );
        report.push_if(
            context.operator_paused,
            AlgoRiskViolation::new(AlgoRiskViolationKind::OperatorPaused, None, 1, 0),
            Ghost(vs + k),
        );
        report.push_if(
            context.stale_market_data,
            AlgoRiskViolation::new(AlgoRiskViolationKind::StaleMarketData, None, 1, 0),
            Ghost(vs + k + p),
        );
        report.push_if(
            context.route_degraded,
            AlgoRiskViolation::new(AlgoRiskViolationKind::RouteDegraded, None, 1, 0),
            Ghost(vs + k + p + s),
        );
        report.push_if(
            context.persistence_degraded,
            AlgoRiskViolation::new(AlgoRiskViolationKind::PersistenceDegraded, None, 1, 0),
            Ghost(vs + k + p + s + d),
        );
        proof {
            assert(vs + k + p + s + d + spec_opt(
                context.persistence_degraded,
                spec_violation(AlgoRiskViolationKind::PersistenceDegraded, None, 1, 0),
            ) =~= vs + spec_dynamic_violations(context));
        }
    }

    /// Checks one child against the limits with `count` children so far in
    /// the decision.
    #[allow(clippy::too_many_arguments)]
    fn check_child<const N: usize>(
        &self,
        report: &mut AlgoRiskReport<N>,
        parent: &ParentOrder,
        progress: AlgoProgress,
        child: &ChildOrderPlan,
        context: AlgoRiskContext,
        count: u16,
        Ghost(vs): Ghost<Seq<AlgoRiskViolation>>,
    ) -> (r: Result<(), AlgoError>)
        requires
            spec_report_of(*old(report), vs),
        ensures
            match spec_child_check(self.limits, *parent, progress, *child, context, count) {
                Err(e) => r == Err::<(), AlgoError>(e),
                Ok(cv) => r is Ok && spec_report_of(*final(report), vs + cv),
            },
    {
        if !child.parent_id().same_text(&parent.id()) {
            return Err(AlgoError::InvalidProgress);
        }
        match child.request().validate() {
            Err(e) => {
                return Err(AlgoError::Core(e));
            },
            Ok(()) => {},
        }
        let limits = self.limits;
        let quantity = child.request().quantity.0;
        let cid = Some(child.child_id());
        self.check_child_limits(report, child, context, Ghost(vs));
        let ghost abcd = spec_child_basic_violations(limits, *child, context);
        self.check_child_count(report, count, context, Ghost(vs + abcd));
        let ghost e = spec_count_violations(limits, count, context);
        let open = sat_add_i64(progress.open_qty.0, quantity);
        self.check_open_qty(report, open, cid, Ghost(vs + abcd + e));
        proof {
            let f = spec_open_qty_violations(limits, open, cid);
            assert(vs + abcd + e + f =~= vs + spec_child_limit_violations(
                limits,
                progress,
                *child,
                context,
                count,
            ));
        }
        Ok(())
    }

    /// Quantity, notional, collar and participation checks of one child.
    fn check_child_limits<const N: usize>(
        &self,
        report: &mut AlgoRiskReport<N>,
        child: &ChildOrderPlan,
        context: AlgoRiskContext,
        Ghost(vs): Ghost<Seq<AlgoRiskViolation>>,
    )
        requires
            spec_report_of(*old(report), vs),
        ensures
            spec_report_of(
                *final(report),
                vs + spec_child_basic_violations(self.limits, *child, context),
            ),
    {
        let limits = self.limits;
        let quantity = child.request().quantity.0;
        let cid = Some(child.child_id());
        let over_qty = limits.max_child_qty.0 > 0 && quantity > limits.max_child_qty.0;
        let ghost a = spec_opt(
            over_qty,
            spec_violation(
                AlgoRiskViolationKind::ChildQuantityExceeded,
                cid,
                spec_i64_to_u128(quantity),
                spec_i64_to_u128(limits.max_child_qty.0),
            ),
        );
        report.push_if(
            over_qty,
            AlgoRiskViolation::new(
                AlgoRiskViolationKind::ChildQuantityExceeded,
                cid,
                i64_to_u128(quantity),
                i64_to_u128(limits.max_child_qty.0),
            ),
            Ghost(vs),
        );
        let child_notional = notional(quantity, child.request().limit_price.0);
        let over_notional = limits.max_child_notional > 0 && child_notional
            > limits.max_child_notional;
        let ghost b = spec_opt(
            over_notional,
            spec_violation(
                AlgoRiskViolationKind::ChildNotionalExceeded,
                cid,
                child_notional as int,
                limits.max_child_notional as int,
            ),
        );
        report.push_if(
            over_notional,
            AlgoRiskViolation::new(
                AlgoRiskViolationKind::ChildNotionalExceeded,
                cid,
                child_notional,
                limits.max_child_notional,
            ),
            Ghost(vs + a),
        );
        let distance = price_distance_bps(child.request().limit_price, context.reference_price);
        let over_collar = limits.price_collar_bps > 0 && distance > limits.price_collar_bps as u32;
        let ghost c = spec_opt(
            over_collar,
            spec_violation(
                AlgoRiskViolationKind::PriceCollarExceeded,
                cid,
                distance as int,
                limits.price_collar_bps as int,
            ),
        );
        report.push_if(
            over_collar,
            AlgoRiskViolation::new(
                AlgoRiskViolationKind::PriceCollarExceeded,
                cid,
                distance as u128,
                limits.price_collar_bps as u128,
            ),
            Ghost(vs + a + b),
        );
        let participation = participation_bps(quantity, context.observed_market_volume.0);
        let over_participation = limits.max_participation_bps > 0
            && context.observed_market_volume.0 > 0 && participation
            > limits.max_participation_bps as u32;
        let ghost d = spec_opt(
            over_participation,
            spec_violation(
                AlgoRiskViolationKind::ParticipationExceeded,
                cid,
                participation as int,
                limits.max_participation_bps as int,
            ),
        );
        report.push_if(
            over_participation,
            AlgoRiskViolation::new(
                AlgoRiskViolationKind::ParticipationExceeded,
                cid,
                participation as u128,
                limits.max_participation_bps as u128,
            ),
            Ghost(vs + a + b + c),
        );
        proof {
            assert(vs + a + b + c + d =~= vs + spec_child_basic_violations(limits, *child, context));
        }
    }

    /// Per-decision child count and rate-window checks.
    fn check_child_count<const N: usize>(
        &self,
        report: &mut AlgoRiskReport<N>,
        count: u16,
        context: AlgoRiskContext,
        Ghost(vs): Ghost<Seq<AlgoRiskViolation>>,
    )
        requires
            spec_report_of(*old(report), vs),
        ensures
            spec_report_of(*final(report), vs + spec_count_violations(self.limits, count, context)),
    {
        let limits = self.limits;
        let over_count = limits.max_children_per_decision > 0 && count
            > limits.max_children_per_decision;
        let ghost a = spec_opt(
            over_count,
            spec_violation(
                AlgoRiskViolationKind::ChildrenPerDecisionExceeded,
                None,
                count as int,
                limits.max_children_per_decision as int,
            ),
        );
        report.push_if(
            over_count,
            AlgoRiskViolation::new(
                AlgoRiskViolationKind::ChildrenPerDecisionExceeded,
                None,
                count as u128,
                limits.max_children_per_decision as u128,
            ),
            Ghost(vs),
        );
        let projected = context.child_orders_in_window.saturating_add(count as u32);
        let over_rate = limits.max_child_orders_in_window > 0 && projected
            > limits.max_child_orders_in_window;
        report.push_if(
            over_rate,
            AlgoRiskViolation::new(
                AlgoRiskViolationKind::ChildOrderRateExceeded,
                None,
                projected as u128,
                limits.max_child_orders_in_window as u128,
            ),
            Ghost(vs + a),
        );
        proof {
            assert(vs + a + spec_opt(
                over_rate,
                spec_violation(
                    AlgoRiskViolationKind::ChildOrderRateExceeded,
                    None,
                    projected as int,
                    limits.max_child_orders_in_window as int,
                ),
            ) =~= vs + spec_count_violations(limits, count, context));
        }
    }

    /// Open-quantity limit check.
    fn check_open_qty<const N: usize>(
        &self,
        report: &mut AlgoRiskReport<N>,
        open_qty: i64,
        child_id: Option<ChildOrderId>,
        Ghost(vs): Ghost<Seq<AlgoRiskViolation>>,
    )
        requires
            spec_report_of(*old(report), vs),
        ensures
            spec_report_of(
                *final(report),
                vs + spec_open_qty_violations(self.limits, open_qty, child_id),
            ),
    {
        let over = self.limits.max_open_qty.0 > 0 && open_qty > self.limits.max_open_qty.0;
        report.push_if(
            over,
            AlgoRiskViolation::new(
                AlgoRiskViolationKind::OpenQuantityExceeded,
                child_id,
                i64_to_u128(open_qty),
                i64_to_u128(self.limits.max_open_qty.0),
            ),
            Ghost(vs),
        );
    }
}

impl Default for AlgoRiskPolicy {
    fn default() -> (r: Self)
        ensures
            r.limits == spec_unbounded_limits(),
    {
        Self::new(AlgoRiskLimits::unbounded())
    }
}

/// Once the decision fold fails on a prefix it fails the same way on every
/// longer prefix.
proof fn lemma_fold_error_sticks(
    limits: AlgoRiskLimits,
    parent: ParentOrder,
    progress: AlgoProgress,
    context: AlgoRiskContext,
    actions: Seq<AlgoAction>,
    k: int,
    e: AlgoError,
)
    requires
        0 <= k <= actions.len(),
        spec_decision_fold(limits, parent, progress, context, actions.take(k)) == Err::<
            (Seq<AlgoRiskViolation>, u16, i64),
            AlgoError,
        >(e),
    ensures
        spec_decision_fold(limits, parent, progress, context, actions) == Err::<
            (Seq<AlgoRiskViolation>, u16, i64),
            AlgoError,
        >(e),
    decreases actions.len() - k,
{
    if k < actions.len() {
        assert(actions.take(k + 1).drop_last() =~= actions.take(k));
        lemma_fold_error_sticks(limits, parent, progress, context, actions, k + 1, e);
    } else {
        assert(actions.take(k) =~= actions);
    }
}

/// A report's outcome is `Allow` exactly when no violation was recorded.
pub proof fn lemma_outcome_allow_iff_no_violation(vs: Seq<AlgoRiskViolation>)
    ensures
        (spec_fold_outcome(vs) == AlgoRiskOutcome::Allow) == (vs.len() == 0),
    decreases vs.len(),
{
    if vs.len() > 0 {
        lemma_outcome_allow_iff_no_violation(vs.drop_last());
    }
}

/// Recording a kill-switch or operator-pause violation anywhere makes the
/// outcome `KillSwitch`, whatever else is recorded before or after.
pub proof fn lemma_halt_violation_forces_kill_switch(vs: Seq<AlgoRiskViolation>, i: int)
    requires
        0 <= i < vs.len(),
        spec_is_halt_kind(vs[i].kind),
    ensures
        spec_fold_outcome(vs) == AlgoRiskOutcome::KillSwitch,
    decreases vs.len(),
{
    if i < vs.len() - 1 {
        lemma_halt_violation_forces_kill_switch(vs.drop_last(), i);
    }
}

/// An active kill switch or operator pause always answers a child evaluation
/// that succeeds with the `KillSwitch` outcome.
pub proof fn law_kill_switch_halts_child(
    limits: AlgoRiskLimits,
    parent: ParentOrder,
    progress: AlgoProgress,
    child: ChildOrderPlan,
    context: AlgoRiskContext,
)
    requires
        context.kill_switch_active || context.operator_paused,
        spec_evaluate_child(limits, parent, progress, child, context) is Ok,
    ensures
        spec_fold_outcome(spec_evaluate_child(limits, parent, progress, child, context)->Ok_0)
            == AlgoRiskOutcome::KillSwitch,
{
    let pre = spec_prelude(limits, parent, progress, context)->Ok_0;
    let cv = spec_child_check(limits, parent, progress, child, context, 1)->Ok_0;
    let st = spec_static_violations(limits, parent);
    let vs = pre + cv;
    let i = st.len() as int;
    assert(pre == st + spec_dynamic_violations(context));
    assert(vs[i] == pre[i]);
    lemma_halt_violation_forces_kill_switch(vs, i);
}

/// An active kill switch or operator pause always answers a decision
/// evaluation that succeeds with the `KillSwitch` outcome.
#[verifier::spinoff_prover]
pub proof fn law_kill_switch_halts_decision(
    limits: AlgoRiskLimits,
    parent: ParentOrder,
    progress: AlgoProgress,
    actions: Seq<AlgoAction>,
    context: AlgoRiskContext,
)
    requires
        context.kill_switch_active || context.operator_paused,
        spec_evaluate_decision(limits, parent, progress, actions, context) is Ok,
    ensures
        spec_fold_outcome(spec_evaluate_decision(limits, parent, progress, actions, context)->Ok_0)
            == AlgoRiskOutcome::KillSwitch,
{
    let pre = spec_prelude(limits, parent, progress, context)->Ok_0;
    let st = spec_static_violations(limits, parent);
    let fold = spec_decision_fold(limits, parent, progress, context, actions)->Ok_0;
    let rest = fold.0 + spec_open_qty_violations(limits, fold.2, None);
    let vs = spec_evaluate_decision(limits, parent, progress, actions, context)->Ok_0;
    let i = st.len() as int;
    assert(vs == pre + fold.0 + spec_open_qty_violations(limits, fold.2, None));
    assert(pre + fold.0 + spec_open_qty_violations(limits, fold.2, None) =~= pre + rest);
    assert(pre == st + spec_dynamic_violations(context));
    assert(spec_is_halt_kind(pre[i].kind));
    assert((pre + rest)[i] == pre[i]);
    lemma_halt_violation_forces_kill_switch(vs, i);
}

/// A report never retains more violations than its capacity, and it is
/// marked truncated exactly when more were recorded.
pub proof fn law_report_is_bounded<const N: usize>(
    r: AlgoRiskReport<N>,
    vs: Seq<AlgoRiskViolation>,
)
    requires
        spec_report_of(r, vs),
    ensures
        r.spec_violations().len() <= N,
        r.spec_violations().len() <= vs.len(),
        r.spec_truncated() <==> r.spec_violations().len() < vs.len(),
        forall|i: int| 0 <= i < r.spec_violations().len() ==> r.spec_violations()[i] == vs[i],
{
}

} // verus!
