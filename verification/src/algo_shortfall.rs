//! Implementation-shortfall scheduling: release faster when the price moves
//! against the parent, volatility or spread rise, slower under impact.

use vstd::prelude::*;
use crate::algo_model::{
    spec_parent_terminal, spec_parent_validate, AlgoError, AlgoProgress, ChildOrderId,
    ChildOrderPlan, ParentOrder,
};
use crate::algo_slicing::{plan_due, spec_plan_due};
use crate::algo_support::{
    adverse_move_bps, elapsed_bps, scale_bps_u32, scale_qty_bps, spec_adverse_move_bps,
    spec_elapsed_bps, spec_scale_bps_u32, spec_scale_qty_bps,
};
use crate::arith::{clamp_i64, min_int, sat_add_i64, sat_sub_i64};
use crate::ids::ClientOrderId;
use crate::orders::{OrderPrice, OrderQty};

verus! {

broadcast use crate::algo_model::group_parent_order;

/// Market context for implementation-shortfall planning.
#[derive(Debug, Clone, Copy, PartialEq, Eq)]
pub struct ImplementationShortfallContext {
    /// the arrival benchmark price.
    pub arrival_price: OrderPrice,
    /// the current decision/reference price.
    pub reference_price: OrderPrice,
    /// estimated short-horizon volatility in basis points.
    pub volatility_bps: u16,
    /// current spread in basis points.
    pub spread_bps: u16,
    /// temporary market-impact estimate in basis points.
    pub temporary_impact_bps: u16,
}

impl ImplementationShortfallContext {
    /// Creates a context; a non-positive price is
    /// `InvalidShortfallParameters`.
    pub fn new(
        arrival_price: OrderPrice,
        reference_price: OrderPrice,
        volatility_bps: u16,
        spread_bps: u16,
        temporary_impact_bps: u16,
    ) -> (r: Result<Self, AlgoError>)
        ensures
            if arrival_price.0 <= 0 || reference_price.0 <= 0 {
                r == Err::<Self, AlgoError>(AlgoError::InvalidShortfallParameters)
            } else {
                r == Ok::<Self, AlgoError>(
                    ImplementationShortfallContext {
                        arrival_price,
                        reference_price,
                        volatility_bps,
                        spread_bps,
                        temporary_impact_bps,
                    },
                )
            },
    {
        if arrival_price.0 <= 0 || reference_price.0 <= 0 {
            return Err(AlgoError::InvalidShortfallParameters);
        }
        Ok(Self { arrival_price, reference_price, volatility_bps, spread_bps, temporary_impact_bps })
    }

    /// Returns the arrival benchmark price.
    pub fn arrival_price(&self) -> (r: OrderPrice)
        ensures
            r == self.arrival_price,
    {
        self.arrival_price
    }

    /// Returns the current decision/reference price.
    pub fn reference_price(&self) -> (r: OrderPrice)
        ensures
            r == self.reference_price,
    {
        self.reference_price
    }

    /// Returns estimated short-horizon volatility in basis points.
    pub fn volatility_bps(&self) -> (r: u16)
        ensures
            r == self.volatility_bps,
    {
        self.volatility_bps
    }

    /// Returns current spread in basis points.
    pub fn spread_bps(&self) -> (r: u16)
        ensures
            r == self.spread_bps,
    {
        self.spread_bps
    }

    /// Returns temporary market-impact estimate in basis points.
    pub fn temporary_impact_bps(&self) -> (r: u16)
        ensures
            r == self.temporary_impact_bps,
    {
        self.temporary_impact_bps
    }
}

/// Configuration for implementation-shortfall planning.
#[derive(Debug, Clone, Copy, PartialEq, Eq)]
pub struct ImplementationShortfallConfig {
    /// base urgency in basis points.
    pub base_urgency_bps: u16,
    /// maximum urgency in basis points.
    pub max_urgency_bps: u16,
    /// volatility urgency weight in basis points.
    pub volatility_weight_bps: u16,
    /// spread urgency weight in basis points.
    pub spread_weight_bps: u16,
    /// adverse move urgency weight in basis points.
    pub adverse_move_weight_bps: u16,
    /// temporary impact patience weight in basis points.
    pub impact_weight_bps: u16,
}

impl ImplementationShortfallConfig {
    /// Creates a configuration; an urgency above `10_000` or a base above the
    /// cap is `InvalidShortfallParameters`.
    pub fn new(
        base_urgency_bps: u16,
        max_urgency_bps: u16,
        volatility_weight_bps: u16,
        spread_weight_bps: u16,
        adverse_move_weight_bps: u16,
        impact_weight_bps: u16,
    ) -> (r: Result<Self, AlgoError>)
        ensures
            if base_urgency_bps > 10_000 || max_urgency_bps > 10_000 || base_urgency_bps
                > max_urgency_bps {
                r == Err::<Self, AlgoError>(AlgoError::InvalidShortfallParameters)
            } else {
                r == Ok::<Self, AlgoError>(
                    ImplementationShortfallConfig {
                        base_urgency_bps,
                        max_urgency_bps,
                        volatility_weight_bps,
                        spread_weight_bps,
                        adverse_move_weight_bps,
                        impact_weight_bps,
                    },
                )
            },
    {
        if base_urgency_bps > 10_000 || max_urgency_bps > 10_000 || base_urgency_bps
            > max_urgency_bps {
            return Err(AlgoError::InvalidShortfallParameters);
        }
        Ok(
            Self {
                base_urgency_bps,
                max_urgency_bps,
                volatility_weight_bps,
                spread_weight_bps,
                adverse_move_weight_bps,
                impact_weight_bps,
            },
        )
    }

    /// Returns base urgency in basis points.
    pub fn base_urgency_bps(&self) -> (r: u16)
        ensures
            r == self.base_urgency_bps,
    {
        self.base_urgency_bps
    }

    /// Returns maximum urgency in basis points.
    pub fn max_urgency_bps(&self) -> (r: u16)
        ensures
            r == self.max_urgency_bps,
    {
        self.max_urgency_bps
    }

    /// Returns volatility urgency weight in basis points.
    pub fn volatility_weight_bps(&self) -> (r: u16)
        ensures
            r == self.volatility_weight_bps,
    {
        self.volatility_weight_bps
    }

    /// Returns spread urgency weight in basis points.
    pub fn spread_weight_bps(&self) -> (r: u16)
        ensures
            r == self.spread_weight_bps,
    {
        self.spread_weight_bps
    }

    /// Returns adverse move urgency weight in basis points.
    pub fn adverse_move_weight_bps(&self) -> (r: u16)
        ensures
            r == self.adverse_move_weight_bps,
    {
        self.adverse_move_weight_bps
    }

    /// Returns temporary impact patience weight in basis points.
    pub fn impact_weight_bps(&self) -> (r: u16)
        ensures
            r == self.impact_weight_bps,
    {
        self.impact_weight_bps
    }
}

impl Default for ImplementationShortfallConfig {
    fn default() -> (r: Self)
        ensures
            r == (ImplementationShortfallConfig {
                base_urgency_bps: 1_000,
                max_urgency_bps: 7_500,
                volatility_weight_bps: 5_000,
                spread_weight_bps: 2_500,
                adverse_move_weight_bps: 7_500,
                impact_weight_bps: 3_000,
            }),
    {
        Self {
            base_urgency_bps: 1_000,
            max_urgency_bps: 7_500,
            volatility_weight_bps: 5_000,
            spread_weight_bps: 2_500,
            adverse_move_weight_bps: 7_500,
            impact_weight_bps: 3_000,
        }
    }
}

/// Implementation-shortfall planning estimate.
#[derive(Debug, Clone, Copy, PartialEq, Eq)]
pub struct ImplementationShortfallEstimate {
    /// elapsed parent interval in basis points.
    pub elapsed_bps: u16,
    /// adverse move from arrival price in basis points.
    pub adverse_move_bps: u16,
    /// urgency used for the decision in basis points.
    pub urgency_bps: u16,
    /// target cumulative released quantity.
    pub target_release_qty: OrderQty,
}

impl ImplementationShortfallEstimate {
    /// Returns elapsed parent interval in basis points.
    pub fn elapsed_bps(&self) -> (r: u16)
        ensures
            r == self.elapsed_bps,
    {
        self.elapsed_bps
    }

    /// Returns adverse move from arrival price in basis points.
    pub fn adverse_move_bps(&self) -> (r: u16)
        ensures
            r == self.adverse_move_bps,
    {
        self.adverse_move_bps
    }

    /// Returns urgency used for the decision in basis points.
    pub fn urgency_bps(&self) -> (r: u16)
        ensures
            r == self.urgency_bps,
    {
        self.urgency_bps
    }

    /// Returns target cumulative released quantity.
    pub fn target_release_qty(&self) -> (r: OrderQty)
        ensures
            r == self.target_release_qty,
    {
        self.target_release_qty
    }
}

/// Urgency: the base plus weighted volatility, spread and adverse move,
/// less weighted temporary impact, bounded to `[0, max]`.
pub open spec fn spec_urgency_bps(
    config: ImplementationShortfallConfig,
    context: ImplementationShortfallContext,
    adverse: int,
) -> int {
    let raw = config.base_urgency_bps + spec_scale_bps_u32(
        context.volatility_bps as int,
        config.volatility_weight_bps as int,
    ) + spec_scale_bps_u32(context.spread_bps as int, config.spread_weight_bps as int)
        + spec_scale_bps_u32(adverse, config.adverse_move_weight_bps as int) - spec_scale_bps_u32(
        context.temporary_impact_bps as int,
        config.impact_weight_bps as int,
    );
    if raw < 0 {
        0
    } else if raw > config.max_urgency_bps {
        config.max_urgency_bps as int
    } else {
        raw
    }
}

/// The shortfall estimate: the released target is the elapsed share plus
/// the urgency's share of the remaining time, of the parent total.
pub open spec fn spec_shortfall_estimate(
    config: ImplementationShortfallConfig,
    parent: ParentOrder,
    progress: AlgoProgress,
    now_ns: u64,
    context: ImplementationShortfallContext,
) -> Result<ImplementationShortfallEstimate, AlgoError> {
    match spec_parent_validate(parent) {
        Err(e) => Err(e),
        Ok(_) => if progress.parent_id@ != parent.spec_id()@ || progress.target_qty != parent.spec_total_qty() {
            Err(AlgoError::InvalidProgress)
        } else if context.arrival_price.0 <= 0 || context.reference_price.0 <= 0 {
            Err(AlgoError::InvalidShortfallParameters)
        } else {
            let elapsed = spec_elapsed_bps(
                parent.spec_start_ns() as int,
                parent.spec_end_ns() as int,
                now_ns as int,
            );
            let adverse = spec_adverse_move_bps(
                parent.spec_side(),
                context.arrival_price.0 as int,
                context.reference_price.0 as int,
            );
            let urgency = spec_urgency_bps(config, context, adverse);
            let target_bps = elapsed + spec_scale_bps_u32(10_000 - elapsed, urgency);
            Ok(
                ImplementationShortfallEstimate {
                    elapsed_bps: elapsed as u16,
                    adverse_move_bps: adverse as u16,
                    urgency_bps: urgency as u16,
                    target_release_qty: OrderQty(
                        spec_scale_qty_bps(
                            parent.spec_total_qty().0 as int,
                            min_int(target_bps, 10_000),
                        ) as i64,
                    ),
                },
            )
        },
    }
}

/// The shortfall plan: the released target less what was released is due.
pub open spec fn spec_shortfall_plan(
    config: ImplementationShortfallConfig,
    parent: ParentOrder,
    progress: AlgoProgress,
    now_ns: u64,
    context: ImplementationShortfallContext,
    child_id: ChildOrderId,
    client_order_id: ClientOrderId,
    ts_recv_ns: u64,
) -> Result<Option<ChildOrderPlan>, AlgoError> {
    if spec_parent_terminal(parent.spec_status()) {
        Err(AlgoError::ParentTerminal)
    } else if now_ns < parent.spec_start_ns() || progress.completed_qty.0 >= progress.target_qty.0 {
        Ok(None)
    } else {
        match spec_shortfall_estimate(config, parent, progress, now_ns, context) {
            Err(e) => Err(e),
            Ok(est) => spec_plan_due(
                parent,
                progress,
                clamp_i64(est.target_release_qty.0 - progress.released_qty.0),
                now_ns,
                child_id,
                client_order_id,
                ts_recv_ns,
            ),
        }
    }
}

/// Deterministic implementation-shortfall planner.
#[derive(Debug, Clone, Copy, PartialEq, Eq)]
pub struct ImplementationShortfallPlanner {
    /// Planner configuration.
    pub config: ImplementationShortfallConfig,
}

impl ImplementationShortfallPlanner {
    /// Creates an implementation-shortfall planner.
    pub fn new(config: ImplementationShortfallConfig) -> (r: Self)
        ensures
            r.config == config,
    {
        Self { config }
    }

    /// Returns planner configuration.
    pub fn config(&self) -> (r: ImplementationShortfallConfig)
        ensures
            r == self.config,
    {
        self.config
    }

    /// Estimates the current implementation-shortfall target.
    pub fn estimate(
        &self,
        parent: &ParentOrder,
        progress: AlgoProgress,
        now_ns: u64,
        context: ImplementationShortfallContext,
    ) -> (r: Result<ImplementationShortfallEstimate, AlgoError>)
        ensures
            r == spec_shortfall_estimate(self.config, *parent, progress, now_ns, context),
    {
        match parent.validate() {
            Err(e) => {
                return Err(e);
            },
            Ok(()) => {},
        }
        if !progress.parent_id.same_text(&parent.id()) || progress.target_qty.0 != parent.total_qty().0 {
            return Err(AlgoError::InvalidProgress);
        }
        if context.arrival_price.0 <= 0 || context.reference_price.0 <= 0 {
            return Err(AlgoError::InvalidShortfallParameters);
        }
        let elapsed = elapsed_bps(parent.start_ns(), parent.end_ns(), now_ns);
        let adverse = adverse_move_bps(parent.side(), context.arrival_price, context.reference_price);
        let urgency = self.urgency_bps(&context, adverse);
        let remaining: u16 = 10_000 - elapsed;
        let share = scale_bps_u32(remaining as u32, urgency as u32);
        assert((remaining as int) * (urgency as int) / 10_000 <= 65_535) by (nonlinear_arith)
            requires
                0 <= remaining <= 10_000,
                0 <= urgency <= 65_535,
        ;
        let target_bps = (elapsed as u32) + share;
        let capped = if target_bps <= 10_000 {
            target_bps
        } else {
            10_000
        };
        let target = scale_qty_bps(parent.total_qty().0, capped);
        Ok(
            ImplementationShortfallEstimate {
                elapsed_bps: elapsed,
                adverse_move_bps: adverse,
                urgency_bps: urgency,
                target_release_qty: OrderQty(target),
            },
        )
    }

    /// Plans one implementation-shortfall child slice.
    #[allow(clippy::too_many_arguments)]
    pub fn plan_shortfall_slice(
        &self,
        parent: &ParentOrder,
        progress: AlgoProgress,
        now_ns: u64,
        context: ImplementationShortfallContext,
        child_id: ChildOrderId,
        client_order_id: ClientOrderId,
        ts_recv_ns: u64,
    ) -> (r: Result<Option<ChildOrderPlan>, AlgoError>)
        ensures
            r == spec_shortfall_plan(
                self.config,
                *parent,
                progress,
                now_ns,
                context,
                child_id,
                client_order_id,
                ts_recv_ns,
            ),
    {
        if parent.status().is_terminal() {
            return Err(AlgoError::ParentTerminal);
        }
        if now_ns < parent.start_ns() || progress.is_complete() {
            return Ok(None);
        }
        let estimate = match self.estimate(parent, progress, now_ns, context) {
            Err(e) => {
                return Err(e);
            },
            Ok(est) => est,
        };
        let due_qty = sat_sub_i64(estimate.target_release_qty.0, progress.released_qty.0);
        plan_due(parent, &progress, due_qty, now_ns, child_id, client_order_id, ts_recv_ns)
    }

    fn urgency_bps(&self, context: &ImplementationShortfallContext, adverse: u16) -> (r: u16)
        ensures
            r == spec_urgency_bps(self.config, *context, adverse as int),
    {
        let mut urgency: i64 = self.config.base_urgency_bps as i64;
        urgency = urgency + (scale_bps_u32(
            context.volatility_bps as u32,
            self.config.volatility_weight_bps as u32,
        ) as i64);
        urgency = urgency + (scale_bps_u32(
            context.spread_bps as u32,
            self.config.spread_weight_bps as u32,
        ) as i64);
        urgency = urgency + (scale_bps_u32(
            adverse as u32,
            self.config.adverse_move_weight_bps as u32,
        ) as i64);
        urgency = urgency - (scale_bps_u32(
            context.temporary_impact_bps as u32,
            self.config.impact_weight_bps as u32,
        ) as i64);
        if urgency < 0 {
            0
        } else if urgency > self.config.max_urgency_bps as i64 {
            self.config.max_urgency_bps
        } else {
            urgency as u16
        }
    }
}

/// The released target never exceeds the parent total, and grows with
/// urgency at a given time: an estimate's target is within `[0, total]`
/// for a valid parent.
pub proof fn law_shortfall_target_within_total(
    config: ImplementationShortfallConfig,
    parent: ParentOrder,
    progress: AlgoProgress,
    now_ns: u64,
    context: ImplementationShortfallContext,
)
    requires
        spec_shortfall_estimate(config, parent, progress, now_ns, context) is Ok,
        parent.spec_total_qty().0 > 0,
    ensures
        0 <= spec_shortfall_estimate(config, parent, progress, now_ns, context)->Ok_0.target_release_qty.0
            <= parent.spec_total_qty().0,
{
    let elapsed = spec_elapsed_bps(parent.spec_start_ns() as int, parent.spec_end_ns() as int, now_ns as int);
    let adverse = spec_adverse_move_bps(
        parent.spec_side(),
        context.arrival_price.0 as int,
        context.reference_price.0 as int,
    );
    let urgency = spec_urgency_bps(config, context, adverse);
    let t = min_int(elapsed + spec_scale_bps_u32(10_000 - elapsed, urgency), 10_000);
    let q = parent.spec_total_qty().0 as int;
    assert(0 <= elapsed <= 10_000);
    assert(0 <= t <= 10_000);
    assert(0 <= q * t <= q * 10_000) by (nonlinear_arith)
        requires
            0 <= t <= 10_000,
            q > 0,
    ;
    assert(q * t / 10_000 <= q) by (nonlinear_arith)
        requires
            0 <= q * t <= q * 10_000,
            q > 0,
    ;
}

} // verus!
