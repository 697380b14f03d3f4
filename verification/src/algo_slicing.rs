//! Schedule-driven slice planners: TWAP, percentage of volume, VWAP curve
//! and synthetic iceberg replenishment.

use vstd::prelude::*;
use crate::algo_model::{
    spec_child_request, spec_parent_terminal, spec_parent_validate, AlgoError, AlgoProgress,
    ChildOrderId, ChildOrderPlan, ChildOrderStatus, ParentOrder,
};
use crate::algo_support::{
    div_ceil_i128, div_ceil_u64, participation_qty, spec_div_ceil, spec_div_ceil_trunc,
    spec_participation_qty, spec_vwap_target_qty, vwap_target_qty,
};
use crate::arith::{clamp_i64, clamp_u64, max_int, min_int, or_max_i64, sat_add_i64, sat_sub_i64};
use crate::ids::ClientOrderId;
use crate::orders::OrderQty;

verus! {


broadcast use {
    crate::algo_model::group_parent_order,
    crate::algo_model::group_child_plan,
};

/// The checks every planner makes first: an invalid parent is its
/// validation error, a terminal parent is `ParentTerminal`, progress of
/// another parent or target is `InvalidProgress`.
pub open spec fn spec_plan_gate(parent: ParentOrder, progress: AlgoProgress) -> Result<
    (),
    AlgoError,
> {
    match spec_parent_validate(parent) {
        Err(e) => Err(e),
        Ok(_) => if spec_parent_terminal(parent.spec_status()) {
            Err(AlgoError::ParentTerminal)
        } else if progress.parent_id@ != parent.spec_id()@ || progress.target_qty != parent.spec_total_qty() {
            Err(AlgoError::InvalidProgress)
        } else {
            Ok(())
        },
    }
}

/// Runs the planner gate.
pub fn plan_gate(parent: &ParentOrder, progress: &AlgoProgress) -> (r: Result<(), AlgoError>)
    ensures
        r == spec_plan_gate(*parent, *progress),
{
    match parent.validate() {
        Err(e) => {
            return Err(e);
        },
        Ok(()) => {},
    }
    if parent.status().is_terminal() {
        return Err(AlgoError::ParentTerminal);
    }
    if !progress.parent_id.same_text(&parent.id()) || progress.target_qty.0 != parent.total_qty().0 {
        return Err(AlgoError::InvalidProgress);
    }
    Ok(())
}

/// Child quantity for a due quantity: capped by the maximum clip and the
/// unreleased quantity; nothing when below the minimum clip on a slice that
/// is not final (it would not finish the parent and the end has not come),
/// or when not positive.
pub open spec fn spec_clip_qty(
    parent: ParentOrder,
    progress: AlgoProgress,
    due: int,
    now_ns: u64,
) -> Option<i64> {
    let leaves = clamp_i64(parent.spec_total_qty().0 - progress.released_qty.0);
    let q = min_int(min_int(due, parent.spec_max_clip().0 as int), leaves);
    let final_slice = clamp_i64(progress.released_qty.0 + q) >= parent.spec_total_qty().0 || now_ns
        >= parent.spec_end_ns();
    if q < parent.spec_min_clip().0 && !final_slice {
        None
    } else if q <= 0 {
        None
    } else {
        Some(q as i64)
    }
}

/// Clips a due quantity into a child quantity.
pub fn clip_due_qty(parent: &ParentOrder, progress: &AlgoProgress, due_qty: i64, now_ns: u64) -> (r:
    Option<i64>)
    ensures
        r == spec_clip_qty(*parent, *progress, due_qty as int, now_ns),
{
    let leaves = sat_sub_i64(parent.total_qty().0, progress.released_qty.0);
    let mut q = if due_qty <= parent.max_clip().0 {
        due_qty
    } else {
        parent.max_clip().0
    };
    if leaves < q {
        q = leaves;
    }
    let final_slice = sat_add_i64(progress.released_qty.0, q) >= parent.total_qty().0 || now_ns
        >= parent.end_ns();
    if q < parent.min_clip().0 && !final_slice {
        return None;
    }
    if q <= 0 {
        return None;
    }
    Some(q)
}

/// The planned child of `quantity` at the parent's route, side and limit,
/// due at `now_ns`; an invalid request is its core error.
pub open spec fn spec_emit_child(
    parent: ParentOrder,
    child_id: ChildOrderId,
    client_order_id: ClientOrderId,
    quantity: i64,
    now_ns: u64,
    ts_recv_ns: u64,
) -> Result<Option<ChildOrderPlan>, AlgoError> {
    let request = spec_child_request(
        parent,
        parent.spec_route_id(),
        parent.spec_side(),
        client_order_id,
        OrderQty(quantity),
        parent.spec_limit_price(),
        ts_recv_ns,
    );
    match request.spec_validate() {
        Err(e) => Err(AlgoError::Core(e)),
        Ok(_) => Ok(
            Some(
                ChildOrderPlan::spec_from_parts(
                    child_id,
                    parent.spec_id(),
                    request,
                    now_ns,
                    ChildOrderStatus::Planned,
                ),
            ),
        ),
    }
}

/// Builds the planned child of `quantity`.
pub fn emit_child(
    parent: &ParentOrder,
    child_id: ChildOrderId,
    client_order_id: ClientOrderId,
    quantity: i64,
    now_ns: u64,
    ts_recv_ns: u64,
) -> (r: Result<Option<ChildOrderPlan>, AlgoError>)
    ensures
        r == spec_emit_child(*parent, child_id, client_order_id, quantity, now_ns, ts_recv_ns),
{
    let request = parent.build_order_request(client_order_id, OrderQty(quantity), ts_recv_ns);
    match ChildOrderPlan::new(child_id, parent.id(), request, now_ns) {
        Ok(plan) => Ok(Some(plan)),
        Err(e) => Err(e),
    }
}

/// The plan for a due quantity: nothing when not positive, else the clipped
/// child when one is due.
pub open spec fn spec_plan_due(
    parent: ParentOrder,
    progress: AlgoProgress,
    due: int,
    now_ns: u64,
    child_id: ChildOrderId,
    client_order_id: ClientOrderId,
    ts_recv_ns: u64,
) -> Result<Option<ChildOrderPlan>, AlgoError> {
    if due <= 0 {
        Ok(None)
    } else {
        match spec_clip_qty(parent, progress, due, now_ns) {
            None => Ok(None),
            Some(q) => spec_emit_child(parent, child_id, client_order_id, q, now_ns, ts_recv_ns),
        }
    }
}

/// Plans the child for a due quantity.
#[allow(clippy::too_many_arguments)]
pub(crate) fn plan_due(
    parent: &ParentOrder,
    progress: &AlgoProgress,
    due_qty: i64,
    now_ns: u64,
    child_id: ChildOrderId,
    client_order_id: ClientOrderId,
    ts_recv_ns: u64,
) -> (r: Result<Option<ChildOrderPlan>, AlgoError>)
    ensures
        r == spec_plan_due(
            *parent,
            *progress,
            due_qty as int,
            now_ns,
            child_id,
            client_order_id,
            ts_recv_ns,
        ),
{
    if due_qty <= 0 {
        return Ok(None);
    }
    match clip_due_qty(parent, progress, due_qty, now_ns) {
        None => Ok(None),
        Some(q) => emit_child(parent, child_id, client_order_id, q, now_ns, ts_recv_ns),
    }
}

/// A planned child is positive, within the maximum clip, and never releases
/// more than the parent's total quantity.
pub proof fn lemma_plan_due_bounds(
    parent: ParentOrder,
    progress: AlgoProgress,
    due: int,
    now_ns: u64,
    child_id: ChildOrderId,
    client_order_id: ClientOrderId,
    ts_recv_ns: u64,
)
    requires
        spec_plan_due(parent, progress, due, now_ns, child_id, client_order_id, ts_recv_ns) matches Ok(
            Some(_),
        ),
    ensures
        ({
            let p = spec_plan_due(
                parent,
                progress,
                due,
                now_ns,
                child_id,
                client_order_id,
                ts_recv_ns,
            )->Ok_0->Some_0;
            &&& 0 < p.spec_request().quantity.0 <= parent.spec_max_clip().0
            &&& p.spec_request().quantity.0 <= due
            &&& progress.released_qty.0 + p.spec_request().quantity.0 <= parent.spec_total_qty().0
            &&& p.spec_parent_id() == parent.spec_id()
            &&& p.spec_child_id() == child_id
        }),
{
}

/// Deterministic TWAP slice planner.
#[derive(Debug, Clone, Copy, PartialEq, Eq)]
pub struct TwapSlicePlanner {
    slice_interval_ns: u64,
}

/// Quantity due by `now_ns` on an even schedule: the parent interval is cut
/// into slices of the planner interval (at least one), and the share of the
/// slices started by now, rounded up, is due, less what was released.
pub open spec fn spec_twap_due(
    interval: u64,
    parent: ParentOrder,
    progress: AlgoProgress,
    now_ns: u64,
) -> int {
    let span = max_int(parent.spec_end_ns() - parent.spec_start_ns(), 0);
    let total_slices = max_int(spec_div_ceil(span, interval as int), 1);
    let elapsed = max_int(min_int(now_ns as int, parent.spec_end_ns() as int) - parent.spec_start_ns(), 0);
    let due_slices = min_int(clamp_u64(elapsed / (interval as int) + 1), total_slices);
    let desired = or_max_i64(spec_div_ceil_trunc(parent.spec_total_qty().0 * due_slices, total_slices));
    clamp_i64(desired - progress.released_qty.0)
}

/// The TWAP plan at `now_ns`.
pub open spec fn spec_twap_plan(
    interval: u64,
    parent: ParentOrder,
    progress: AlgoProgress,
    now_ns: u64,
    child_id: ChildOrderId,
    client_order_id: ClientOrderId,
    ts_recv_ns: u64,
) -> Result<Option<ChildOrderPlan>, AlgoError> {
    match spec_plan_gate(parent, progress) {
        Err(e) => Err(e),
        Ok(_) => if progress.released_qty.0 > parent.spec_total_qty().0 || progress.completed_qty.0
            > parent.spec_total_qty().0 {
            Err(AlgoError::InvalidProgress)
        } else if now_ns < parent.spec_start_ns() || progress.completed_qty.0 >= progress.target_qty.0 {
            Ok(None)
        } else {
            spec_plan_due(
                parent,
                progress,
                spec_twap_due(interval, parent, progress, now_ns),
                now_ns,
                child_id,
                client_order_id,
                ts_recv_ns,
            )
        },
    }
}

impl TwapSlicePlanner {
    /// The slice interval.
    pub closed spec fn spec_interval(&self) -> u64 {
        self.slice_interval_ns
    }

    #[verifier::type_invariant]
    spec fn inv(&self) -> bool {
        self.slice_interval_ns > 0
    }

    /// Creates a TWAP planner; a zero interval is `InvalidSliceInterval`.
    pub fn try_new(slice_interval_ns: u64) -> (r: Result<Self, AlgoError>)
        ensures
            slice_interval_ns == 0 ==> r == Err::<Self, AlgoError>(
                AlgoError::InvalidSliceInterval,
            ),
            slice_interval_ns > 0 ==> (r matches Ok(p) && p.spec_interval() == slice_interval_ns),
    {
        if slice_interval_ns == 0 {
            return Err(AlgoError::InvalidSliceInterval);
        }
        Ok(Self { slice_interval_ns })
    }

    /// Creates a TWAP planner from a positive interval.
    pub fn new(slice_interval_ns: u64) -> (r: Self)
        requires
            slice_interval_ns > 0,
        ensures
            r.spec_interval() == slice_interval_ns,
    {
        Self { slice_interval_ns }
    }

    /// Returns the configured slice interval.
    pub fn slice_interval_ns(&self) -> (r: u64)
        ensures
            r == self.spec_interval(),
            r > 0,
    {
        proof {
            use_type_invariant(self);
        }
        self.slice_interval_ns
    }

    /// Plans one due child slice for `now_ns`; `None` when nothing is due.
    #[allow(clippy::too_many_arguments)]
    pub fn plan_due_slice(
        &self,
        parent: &ParentOrder,
        progress: AlgoProgress,
        now_ns: u64,
        child_id: ChildOrderId,
        client_order_id: ClientOrderId,
        ts_recv_ns: u64,
    ) -> (r: Result<Option<ChildOrderPlan>, AlgoError>)
        ensures
            r == spec_twap_plan(
                self.spec_interval(),
                *parent,
                progress,
                now_ns,
                child_id,
                client_order_id,
                ts_recv_ns,
            ),
    {
        proof {
            use_type_invariant(self);
        }
        match plan_gate(parent, &progress) {
            Err(e) => {
                return Err(e);
            },
            Ok(()) => {},
        }
        if progress.released_qty.0 > parent.total_qty().0 || progress.completed_qty.0
            > parent.total_qty().0 {
            return Err(AlgoError::InvalidProgress);
        }
        if now_ns < parent.start_ns() || progress.is_complete() {
            return Ok(None);
        }
        let interval = self.slice_interval_ns;
        let span = if parent.end_ns() >= parent.start_ns() {
            parent.end_ns() - parent.start_ns()
        } else {
            0
        };
        let slices = div_ceil_u64(span, interval);
        let total_slices = if slices >= 1 {
            slices
        } else {
            1
        };
        let capped_now = if now_ns <= parent.end_ns() {
            now_ns
        } else {
            parent.end_ns()
        };
        let elapsed = if capped_now >= parent.start_ns() {
            capped_now - parent.start_ns()
        } else {
            0
        };
        let started = (elapsed / interval).saturating_add(1);
        let due_slices = if started <= total_slices {
            started
        } else {
            total_slices
        };
        proof {
            assert(-0x8000_0000_0000_0000_0000_0000_0000_0000 <= parent.spec_total_qty().0 * due_slices
                <= 0x7fff_ffff_ffff_ffff_ffff_ffff_ffff_ffff) by (nonlinear_arith)
                requires
                    i64::MIN <= parent.spec_total_qty().0 <= i64::MAX,
                    0 <= due_slices <= u64::MAX,
            ;
        }
        let desired = div_ceil_i128(
            (parent.total_qty().0 as i128) * (due_slices as i128),
            total_slices as i128,
        );
        let desired_qty: i64 = if desired > i64::MAX as i128 || desired < i64::MIN as i128 {
            i64::MAX
        } else {
            desired as i64
        };
        let due_qty = sat_sub_i64(desired_qty, progress.released_qty.0);
        plan_due(parent, &progress, due_qty, now_ns, child_id, client_order_id, ts_recv_ns)
    }
}

/// Deterministic percentage-of-volume child slice planner.
#[derive(Debug, Clone, Copy, PartialEq, Eq)]
pub struct PovSlicePlanner {
    target_participation_bps: u16,
    max_participation_bps: u16,
}

/// Quantity due at a participation target against observed volume, capped
/// by the effective maximum rate and the parent total, less what was
/// released.
pub open spec fn spec_pov_due(
    target_bps: u16,
    effective_max_bps: u16,
    parent: ParentOrder,
    progress: AlgoProgress,
    volume: i64,
) -> int {
    let desired = min_int(spec_participation_qty(volume as int, target_bps as int), parent.spec_total_qty().0 as int);
    let allowed = min_int(
        spec_participation_qty(volume as int, effective_max_bps as int),
        parent.spec_total_qty().0 as int,
    );
    clamp_i64(min_int(desired, allowed) - progress.released_qty.0)
}

/// The planner cap narrowed by the parent's participation cap when set.
pub open spec fn spec_effective_max_bps(max_bps: u16, parent: ParentOrder) -> u16 {
    if parent.spec_participation_cap_bps() == 0 {
        max_bps
    } else {
        min_int(max_bps as int, parent.spec_participation_cap_bps() as int) as u16
    }
}

/// The POV plan against `volume` at `now_ns`.
pub open spec fn spec_pov_plan(
    target_bps: u16,
    max_bps: u16,
    parent: ParentOrder,
    progress: AlgoProgress,
    volume: OrderQty,
    now_ns: u64,
    child_id: ChildOrderId,
    client_order_id: ClientOrderId,
    ts_recv_ns: u64,
) -> Result<Option<ChildOrderPlan>, AlgoError> {
    let effective = spec_effective_max_bps(max_bps, parent);
    match spec_plan_gate(parent, progress) {
        Err(e) => Err(e),
        Ok(_) => if volume.0 <= 0 || now_ns < parent.spec_start_ns() || progress.completed_qty.0
            >= progress.target_qty.0 {
            Ok(None)
        } else if target_bps == 0 || effective == 0 || target_bps > effective {
            Err(AlgoError::InvalidParticipationRate)
        } else {
            spec_plan_due(
                parent,
                progress,
                spec_pov_due(target_bps, effective, parent, progress, volume.0),
                now_ns,
                child_id,
                client_order_id,
                ts_recv_ns,
            )
        },
    }
}

impl PovSlicePlanner {
    /// The target participation.
    pub closed spec fn spec_target(&self) -> u16 {
        self.target_participation_bps
    }

    /// The maximum participation.
    pub closed spec fn spec_max(&self) -> u16 {
        self.max_participation_bps
    }

    #[verifier::type_invariant]
    spec fn inv(&self) -> bool {
        0 < self.target_participation_bps <= self.max_participation_bps
    }

    /// Creates a POV planner; a zero target or cap, or a target above the
    /// cap, is `InvalidParticipationRate`.
    pub fn try_new(target_participation_bps: u16, max_participation_bps: u16) -> (r: Result<
        Self,
        AlgoError,
    >)
        ensures
            if target_participation_bps == 0 || max_participation_bps == 0
                || target_participation_bps > max_participation_bps {
                r == Err::<Self, AlgoError>(AlgoError::InvalidParticipationRate)
            } else {
                r matches Ok(p) && p.spec_target() == target_participation_bps && p.spec_max()
                    == max_participation_bps
            },
    {
        if target_participation_bps == 0 || max_participation_bps == 0
            || target_participation_bps > max_participation_bps {
            return Err(AlgoError::InvalidParticipationRate);
        }
        Ok(Self { target_participation_bps, max_participation_bps })
    }

    /// Creates a POV planner from a positive target within the cap.
    pub fn new(target_participation_bps: u16, max_participation_bps: u16) -> (r: Self)
        requires
            0 < target_participation_bps <= max_participation_bps,
        ensures
            r.spec_target() == target_participation_bps,
            r.spec_max() == max_participation_bps,
    {
        Self { target_participation_bps, max_participation_bps }
    }

    /// Returns target participation in basis points.
    pub fn target_participation_bps(&self) -> (r: u16)
        ensures
            r == self.spec_target(),
    {
        self.target_participation_bps
    }

    /// Returns maximum participation in basis points.
    pub fn max_participation_bps(&self) -> (r: u16)
        ensures
            r == self.spec_max(),
    {
        self.max_participation_bps
    }

    /// Plans one child slice from cumulative observed market volume; `None`
    /// when no volume was observed or nothing is due.
    #[allow(clippy::too_many_arguments)]
    pub fn plan_volume_slice(
        &self,
        parent: &ParentOrder,
        progress: AlgoProgress,
        observed_market_volume: OrderQty,
        now_ns: u64,
        child_id: ChildOrderId,
        client_order_id: ClientOrderId,
        ts_recv_ns: u64,
    ) -> (r: Result<Option<ChildOrderPlan>, AlgoError>)
        ensures
            r == spec_pov_plan(
                self.spec_target(),
                self.spec_max(),
                *parent,
                progress,
                observed_market_volume,
                now_ns,
                child_id,
                client_order_id,
                ts_recv_ns,
            ),
    {
        match plan_gate(parent, &progress) {
            Err(e) => {
                return Err(e);
            },
            Ok(()) => {},
        }
        if observed_market_volume.0 <= 0 || now_ns < parent.start_ns() || progress.is_complete() {
            return Ok(None);
        }
        let effective_max_bps = if parent.participation_cap_bps() == 0 {
            self.max_participation_bps
        } else if self.max_participation_bps <= parent.participation_cap_bps() {
            self.max_participation_bps
        } else {
            parent.participation_cap_bps()
        };
        if self.target_participation_bps == 0 || effective_max_bps == 0
            || self.target_participation_bps > effective_max_bps {
            return Err(AlgoError::InvalidParticipationRate);
        }
        let target = participation_qty(observed_market_volume.0, self.target_participation_bps);
        let desired = if target <= parent.total_qty().0 {
            target
        } else {
            parent.total_qty().0
        };
        let cap = participation_qty(observed_market_volume.0, effective_max_bps);
        let max_allowed = if cap <= parent.total_qty().0 {
            cap
        } else {
            parent.total_qty().0
        };
        let bounded = if desired <= max_allowed {
            desired
        } else {
            max_allowed
        };
        let due_qty = sat_sub_i64(bounded, progress.released_qty.0);
        plan_due(parent, &progress, due_qty, now_ns, child_id, client_order_id, ts_recv_ns)
    }
}

/// Borrowed cumulative volume curve for VWAP planning: a non-empty,
/// non-decreasing list of cumulative weights with a positive total, one per
/// bucket of a positive interval from a start time.
#[derive(Debug, Clone, Copy, PartialEq, Eq)]
pub struct VwapVolumeCurve<'a> {
    start_ns: u64,
    bucket_interval_ns: u64,
    cumulative_weights: &'a [u64],
}

/// A valid curve: positive interval, at least one weight, a positive last
/// weight, and weights that never regress.
pub open spec fn spec_curve_valid(interval: u64, weights: Seq<u64>) -> bool {
    &&& interval > 0
    &&& weights.len() > 0
    &&& weights.last() > 0
    &&& forall|i: int, j: int| 0 <= i <= j < weights.len() ==> weights[i] <= weights[j]
}

impl<'a> VwapVolumeCurve<'a> {
    #[verifier::type_invariant]
    spec fn inv(&self) -> bool {
        spec_curve_valid(self.bucket_interval_ns, self.cumulative_weights@)
    }

    /// Curve start time.
    pub closed spec fn spec_start(&self) -> u64 {
        self.start_ns
    }

    /// Bucket interval.
    pub closed spec fn spec_interval(&self) -> u64 {
        self.bucket_interval_ns
    }

    /// Cumulative weights.
    pub closed spec fn spec_weights(&self) -> Seq<u64> {
        self.cumulative_weights@
    }

    /// Creates a curve; a zero interval, no weights, a zero total or a
    /// regressing weight is `InvalidVolumeProfile`.
    pub fn new(start_ns: u64, bucket_interval_ns: u64, cumulative_weights: &'a [u64]) -> (r:
        Result<Self, AlgoError>)
        ensures
            spec_curve_valid(bucket_interval_ns, cumulative_weights@) ==> (r matches Ok(c)
                && c.spec_start() == start_ns && c.spec_interval() == bucket_interval_ns
                && c.spec_weights() == cumulative_weights@),
            !spec_curve_valid(bucket_interval_ns, cumulative_weights@) ==> r == Err::<
                Self,
                AlgoError,
            >(AlgoError::InvalidVolumeProfile),
    {
        if bucket_interval_ns == 0 || cumulative_weights.len() == 0 {
            return Err(AlgoError::InvalidVolumeProfile);
        }
        let total = cumulative_weights[cumulative_weights.len() - 1];
        if total == 0 {
            return Err(AlgoError::InvalidVolumeProfile);
        }
        let mut previous: u64 = 0;
        let mut i: usize = 0;
        while i < cumulative_weights.len()
            invariant
                i <= cumulative_weights@.len(),
                bucket_interval_ns > 0,
                cumulative_weights@.len() > 0,
                cumulative_weights@.last() > 0,
                i == 0 ==> previous == 0,
                i > 0 ==> previous == cumulative_weights@[i - 1],
                forall|a: int, b: int|
                    0 <= a <= b < i ==> cumulative_weights@[a] <= cumulative_weights@[b],
            decreases cumulative_weights@.len() - i,
        {
            let weight = cumulative_weights[i];
            if weight < previous {
                proof {
                    assert(i > 0);
                    assert(cumulative_weights@[i - 1] > cumulative_weights@[i as int]);
                }
                return Err(AlgoError::InvalidVolumeProfile);
            }
            previous = weight;
            i = i + 1;
        }
        Ok(Self { start_ns, bucket_interval_ns, cumulative_weights })
    }

    /// Returns curve start timestamp.
    pub fn start_ns(&self) -> (r: u64)
        ensures
            r == self.spec_start(),
    {
        self.start_ns
    }

    /// Returns bucket interval in nanoseconds.
    pub fn bucket_interval_ns(&self) -> (r: u64)
        ensures
            r == self.spec_interval(),
    {
        self.bucket_interval_ns
    }

    /// Returns cumulative profile weights.
    pub fn cumulative_weights(&self) -> (r: &'a [u64])
        ensures
            r@ == self.spec_weights(),
    {
        self.cumulative_weights
    }

    /// Returns total curve weight: the last cumulative weight.
    pub fn total_weight(&self) -> (r: u64)
        ensures
            r == self.spec_weights().last(),
            r > 0,
    {
        proof {
            use_type_invariant(self);
        }
        self.cumulative_weights[self.cumulative_weights.len() - 1]
    }

    /// Cumulative weight reached by `now_ns`: zero before the start, else the
    /// weight of the current bucket, the last one past the end.
    pub fn cumulative_weight_at(&self, now_ns: u64) -> (r: u64)
        ensures
            r == spec_curve_weight_at(
                self.spec_start(),
                self.spec_interval(),
                self.spec_weights(),
                now_ns,
            ),
    {
        proof {
            use_type_invariant(self);
        }
        if now_ns < self.start_ns {
            return 0;
        }
        let index = (now_ns - self.start_ns) / self.bucket_interval_ns;
        let last = self.cumulative_weights.len() - 1;
        if index >= last as u64 {
            self.cumulative_weights[last]
        } else {
            self.cumulative_weights[index as usize]
        }
    }
}

/// Cumulative curve weight at `now_ns`.
pub open spec fn spec_curve_weight_at(
    start: u64,
    interval: u64,
    weights: Seq<u64>,
    now_ns: u64,
) -> u64 {
    if now_ns < start {
        0
    } else {
        weights[min_int((now_ns - start) / (interval as int), weights.len() - 1)]
    }
}

/// Deterministic VWAP child slice planner.
#[derive(Debug, Clone, Copy, PartialEq, Eq)]
pub struct VwapSlicePlanner<'a> {
    /// The volume curve.
    pub curve: VwapVolumeCurve<'a>,
}

/// The VWAP plan at `now_ns`: the curve's share of the parent, less what was
/// released, is due.
pub open spec fn spec_vwap_plan(
    curve: VwapVolumeCurve,
    parent: ParentOrder,
    progress: AlgoProgress,
    now_ns: u64,
    child_id: ChildOrderId,
    client_order_id: ClientOrderId,
    ts_recv_ns: u64,
) -> Result<Option<ChildOrderPlan>, AlgoError> {
    let weight = spec_curve_weight_at(
        curve.spec_start(),
        curve.spec_interval(),
        curve.spec_weights(),
        now_ns,
    );
    match spec_plan_gate(parent, progress) {
        Err(e) => Err(e),
        Ok(_) => if now_ns < parent.spec_start_ns() || progress.completed_qty.0 >= progress.target_qty.0 {
            Ok(None)
        } else if weight == 0 {
            Ok(None)
        } else {
            spec_plan_due(
                parent,
                progress,
                clamp_i64(
                    spec_vwap_target_qty(
                        parent.spec_total_qty().0 as int,
                        weight as int,
                        curve.spec_weights().last() as int,
                    ) - progress.released_qty.0,
                ),
                now_ns,
                child_id,
                client_order_id,
                ts_recv_ns,
            )
        },
    }
}

impl<'a> VwapSlicePlanner<'a> {
    /// Creates a VWAP planner from a validated volume curve.
    pub fn new(curve: VwapVolumeCurve<'a>) -> (r: Self)
        ensures
            r.curve == curve,
    {
        Self { curve }
    }

    /// Returns the borrowed volume curve.
    pub fn curve(&self) -> (r: VwapVolumeCurve<'a>)
        ensures
            r == self.curve,
    {
        self.curve
    }

    /// Plans one child slice from the expected cumulative volume curve.
    #[allow(clippy::too_many_arguments)]
    pub fn plan_curve_slice(
        &self,
        parent: &ParentOrder,
        progress: AlgoProgress,
        now_ns: u64,
        child_id: ChildOrderId,
        client_order_id: ClientOrderId,
        ts_recv_ns: u64,
    ) -> (r: Result<Option<ChildOrderPlan>, AlgoError>)
        ensures
            r == spec_vwap_plan(
                self.curve,
                *parent,
                progress,
                now_ns,
                child_id,
                client_order_id,
                ts_recv_ns,
            ),
    {
        match plan_gate(parent, &progress) {
            Err(e) => {
                return Err(e);
            },
            Ok(()) => {},
        }
        if now_ns < parent.start_ns() || progress.is_complete() {
            return Ok(None);
        }
        let weight = self.curve.cumulative_weight_at(now_ns);
        if weight == 0 {
            return Ok(None);
        }
        let desired = vwap_target_qty(parent.total_qty().0, weight, self.curve.total_weight());
        let due_qty = sat_sub_i64(desired, progress.released_qty.0);
        plan_due(parent, &progress, due_qty, now_ns, child_id, client_order_id, ts_recv_ns)
    }
}

/// Deterministic synthetic iceberg replenishment planner.
#[derive(Debug, Clone, Copy, PartialEq, Eq)]
pub struct IcebergSlicePlanner {
    display_qty: OrderQty,
    replenish_threshold: OrderQty,
}

/// The iceberg plan at `now_ns`: a display-sized child once open quantity
/// has fallen to the threshold and quantity remains unreleased.
pub open spec fn spec_iceberg_plan(
    display: OrderQty,
    threshold: OrderQty,
    parent: ParentOrder,
    progress: AlgoProgress,
    now_ns: u64,
    child_id: ChildOrderId,
    client_order_id: ClientOrderId,
    ts_recv_ns: u64,
) -> Result<Option<ChildOrderPlan>, AlgoError> {
    match spec_plan_gate(parent, progress) {
        Err(e) => Err(e),
        Ok(_) => if now_ns < parent.spec_start_ns() || progress.completed_qty.0 >= progress.target_qty.0
            || progress.open_qty.0 > threshold.0 {
            Ok(None)
        } else if clamp_i64(parent.spec_total_qty().0 - progress.released_qty.0) <= 0 {
            Ok(None)
        } else {
            spec_plan_due(
                parent,
                progress,
                display.0 as int,
                now_ns,
                child_id,
                client_order_id,
                ts_recv_ns,
            )
        },
    }
}

impl IcebergSlicePlanner {
    /// The displayed child quantity.
    pub closed spec fn spec_display(&self) -> OrderQty {
        self.display_qty
    }

    /// The replenishment threshold.
    pub closed spec fn spec_threshold(&self) -> OrderQty {
        self.replenish_threshold
    }

    #[verifier::type_invariant]
    spec fn inv(&self) -> bool {
        self.display_qty.0 > 0 && 0 <= self.replenish_threshold.0 <= self.display_qty.0
    }

    /// Creates an iceberg planner; a non-positive display, a negative
    /// threshold or one above the display is `InvalidDisplayQuantity`.
    pub fn try_new(display_qty: OrderQty, replenish_threshold: OrderQty) -> (r: Result<
        Self,
        AlgoError,
    >)
        ensures
            if display_qty.0 <= 0 || replenish_threshold.0 < 0 || replenish_threshold.0
                > display_qty.0 {
                r == Err::<Self, AlgoError>(AlgoError::InvalidDisplayQuantity)
            } else {
                r matches Ok(p) && p.spec_display() == display_qty && p.spec_threshold()
                    == replenish_threshold
            },
    {
        if display_qty.0 <= 0 || replenish_threshold.0 < 0 || replenish_threshold.0
            > display_qty.0 {
            return Err(AlgoError::InvalidDisplayQuantity);
        }
        Ok(Self { display_qty, replenish_threshold })
    }

    /// Creates an iceberg planner from a positive display and a threshold
    /// within it.
    pub fn new(display_qty: OrderQty, replenish_threshold: OrderQty) -> (r: Self)
        requires
            display_qty.0 > 0,
            0 <= replenish_threshold.0 <= display_qty.0,
        ensures
            r.spec_display() == display_qty,
            r.spec_threshold() == replenish_threshold,
    {
        Self { display_qty, replenish_threshold }
    }

    /// Returns the target displayed child quantity.
    pub fn display_qty(&self) -> (r: OrderQty)
        ensures
            r == self.spec_display(),
    {
        self.display_qty
    }

    /// Returns the open-quantity threshold at or below which replenishment is
    /// due.
    pub fn replenish_threshold(&self) -> (r: OrderQty)
        ensures
            r == self.spec_threshold(),
    {
        self.replenish_threshold
    }

    /// Plans one synthetic iceberg replenishment child.
    #[allow(clippy::too_many_arguments)]
    pub fn plan_replenishment(
        &self,
        parent: &ParentOrder,
        progress: AlgoProgress,
        now_ns: u64,
        child_id: ChildOrderId,
        client_order_id: ClientOrderId,
        ts_recv_ns: u64,
    ) -> (r: Result<Option<ChildOrderPlan>, AlgoError>)
        ensures
            r == spec_iceberg_plan(
                self.spec_display(),
                self.spec_threshold(),
                *parent,
                progress,
                now_ns,
                child_id,
                client_order_id,
                ts_recv_ns,
            ),
    {
        match plan_gate(parent, &progress) {
            Err(e) => {
                return Err(e);
            },
            Ok(()) => {},
        }
        if now_ns < parent.start_ns() || progress.is_complete() || progress.open_qty.0
            > self.replenish_threshold.0 {
            return Ok(None);
        }
        let leaves = sat_sub_i64(parent.total_qty().0, progress.released_qty.0);
        if leaves <= 0 {
            return Ok(None);
        }
        plan_due(
            parent,
            &progress,
            self.display_qty.0,
            now_ns,
            child_id,
            client_order_id,
            ts_recv_ns,
        )
    }
}

/// A TWAP plan never over-releases: every child it returns is positive,
/// within the maximum clip, belongs to the parent, and keeps released
/// quantity within the parent total.
pub proof fn law_twap_child_within_parent(
    interval: u64,
    parent: ParentOrder,
    progress: AlgoProgress,
    now_ns: u64,
    child_id: ChildOrderId,
    client_order_id: ClientOrderId,
    ts_recv_ns: u64,
)
    requires
        spec_twap_plan(
            interval,
            parent,
            progress,
            now_ns,
            child_id,
            client_order_id,
            ts_recv_ns,
        ) matches Ok(Some(_)),
    ensures
        ({
            let p = spec_twap_plan(
                interval,
                parent,
                progress,
                now_ns,
                child_id,
                client_order_id,
                ts_recv_ns,
            )->Ok_0->Some_0;
            &&& 0 < p.spec_request().quantity.0 <= parent.spec_max_clip().0
            &&& progress.released_qty.0 + p.spec_request().quantity.0 <= parent.spec_total_qty().0
            &&& p.spec_parent_id() == parent.spec_id()
        }),
{
    lemma_plan_due_bounds(
        parent,
        progress,
        spec_twap_due(interval, parent, progress, now_ns),
        now_ns,
        child_id,
        client_order_id,
        ts_recv_ns,
    );
}

/// A VWAP plan never over-releases: every child it returns is positive,
/// within the maximum clip, no more than the curve's target still
/// unreleased, belongs to the parent, and keeps released quantity within
/// the parent total.
pub proof fn law_vwap_child_within_parent(
    curve: VwapVolumeCurve,
    parent: ParentOrder,
    progress: AlgoProgress,
    now_ns: u64,
    child_id: ChildOrderId,
    client_order_id: ClientOrderId,
    ts_recv_ns: u64,
)
    requires
        spec_vwap_plan(
            curve,
            parent,
            progress,
            now_ns,
            child_id,
            client_order_id,
            ts_recv_ns,
        ) matches Ok(Some(_)),
    ensures
        ({
            let p = spec_vwap_plan(
                curve,
                parent,
                progress,
                now_ns,
                child_id,
                client_order_id,
                ts_recv_ns,
            )->Ok_0->Some_0;
            let weight = spec_curve_weight_at(
                curve.spec_start(),
                curve.spec_interval(),
                curve.spec_weights(),
                now_ns,
            );
            &&& 0 < p.spec_request().quantity.0 <= parent.spec_max_clip().0
            &&& p.spec_request().quantity.0 <= spec_vwap_target_qty(
                parent.spec_total_qty().0 as int,
                weight as int,
                curve.spec_weights().last() as int,
            ) - progress.released_qty.0
            &&& progress.released_qty.0 + p.spec_request().quantity.0 <= parent.spec_total_qty().0
            &&& p.spec_parent_id() == parent.spec_id()
        }),
{
    let weight = spec_curve_weight_at(
        curve.spec_start(),
        curve.spec_interval(),
        curve.spec_weights(),
        now_ns,
    );
    lemma_plan_due_bounds(
        parent,
        progress,
        clamp_i64(
            spec_vwap_target_qty(
                parent.spec_total_qty().0 as int,
                weight as int,
                curve.spec_weights().last() as int,
            ) - progress.released_qty.0,
        ) as int,
        now_ns,
        child_id,
        client_order_id,
        ts_recv_ns,
    );
}

/// A POV child never exceeds the maximum clip, the participation-bounded
/// quantity still due, or the parent total.
pub proof fn law_pov_child_within_parent(
    target_bps: u16,
    max_bps: u16,
    parent: ParentOrder,
    progress: AlgoProgress,
    volume: OrderQty,
    now_ns: u64,
    child_id: ChildOrderId,
    client_order_id: ClientOrderId,
    ts_recv_ns: u64,
)
    requires
        spec_pov_plan(
            target_bps,
            max_bps,
            parent,
            progress,
            volume,
            now_ns,
            child_id,
            client_order_id,
            ts_recv_ns,
        ) matches Ok(Some(_)),
    ensures
        ({
            let p = spec_pov_plan(
                target_bps,
                max_bps,
                parent,
                progress,
                volume,
                now_ns,
                child_id,
                client_order_id,
                ts_recv_ns,
            )->Ok_0->Some_0;
            &&& 0 < p.spec_request().quantity.0 <= parent.spec_max_clip().0
            &&& p.spec_request().quantity.0 <= spec_pov_due(
                target_bps,
                spec_effective_max_bps(max_bps, parent),
                parent,
                progress,
                volume.0,
            )
            &&& progress.released_qty.0 + p.spec_request().quantity.0 <= parent.spec_total_qty().0
        }),
{
    lemma_plan_due_bounds(
        parent,
        progress,
        spec_pov_due(
            target_bps,
            spec_effective_max_bps(max_bps, parent),
            parent,
            progress,
            volume.0,
        ),
        now_ns,
        child_id,
        client_order_id,
        ts_recv_ns,
    );
}

/// An iceberg child never shows more than the display quantity, and never
/// releases more than the parent total.
pub proof fn law_iceberg_child_within_display(
    display: OrderQty,
    threshold: OrderQty,
    parent: ParentOrder,
    progress: AlgoProgress,
    now_ns: u64,
    child_id: ChildOrderId,
    client_order_id: ClientOrderId,
    ts_recv_ns: u64,
)
    requires
        spec_iceberg_plan(
            display,
            threshold,
            parent,
            progress,
            now_ns,
            child_id,
            client_order_id,
            ts_recv_ns,
        ) matches Ok(Some(_)),
    ensures
        ({
            let p = spec_iceberg_plan(
                display,
                threshold,
                parent,
                progress,
                now_ns,
                child_id,
                client_order_id,
                ts_recv_ns,
            )->Ok_0->Some_0;
            &&& 0 < p.spec_request().quantity.0 <= display.0
            &&& p.spec_request().quantity.0 <= parent.spec_max_clip().0
            &&& progress.released_qty.0 + p.spec_request().quantity.0 <= parent.spec_total_qty().0
            &&& progress.open_qty.0 <= threshold.0
        }),
{
    lemma_plan_due_bounds(
        parent,
        progress,
        display.0 as int,
        now_ns,
        child_id,
        client_order_id,
        ts_recv_ns,
    );
}

/// An iceberg is replenished exactly when its open quantity has fallen to
/// the threshold. For a started, incomplete parent that passes the planner
/// gate and still has quantity to release: open quantity above the
/// threshold plans nothing; at or below it, when the display-sized clip
/// `min(display, max clip, unreleased)` meets the minimum clip, the planner
/// does not answer "nothing", and a planned child shows exactly that clip.
pub proof fn law_iceberg_replenishes_at_threshold(
    display: OrderQty,
    threshold: OrderQty,
    parent: ParentOrder,
    progress: AlgoProgress,
    now_ns: u64,
    child_id: ChildOrderId,
    client_order_id: ClientOrderId,
    ts_recv_ns: u64,
)
    requires
        display.0 > 0,
        spec_plan_gate(parent, progress) is Ok,
        now_ns >= parent.spec_start_ns(),
        progress.completed_qty.0 < progress.target_qty.0,
        0 <= progress.released_qty.0 < parent.spec_total_qty().0,
    ensures
        ({
            let plan = spec_iceberg_plan(
                display,
                threshold,
                parent,
                progress,
                now_ns,
                child_id,
                client_order_id,
                ts_recv_ns,
            );
            let clip = min_int(
                min_int(display.0 as int, parent.spec_max_clip().0 as int),
                parent.spec_total_qty().0 - progress.released_qty.0,
            );
            &&& progress.open_qty.0 > threshold.0 ==> plan == Ok::<
                Option<ChildOrderPlan>,
                AlgoError,
            >(None)
            &&& (progress.open_qty.0 <= threshold.0 && clip >= parent.spec_min_clip().0) ==> !(
            plan matches Ok(None))
            &&& progress.open_qty.0 <= threshold.0 ==> (plan matches Ok(Some(p))
                ==> p.spec_request().quantity.0 == clip)
        }),
{
}

/// An iceberg plans nothing before the parent starts, once the parent is
/// complete, or when nothing remains to release; and a parent refused by
/// the planner gate is refused with that same error.
pub proof fn law_iceberg_idle_cases(
    display: OrderQty,
    threshold: OrderQty,
    parent: ParentOrder,
    progress: AlgoProgress,
    now_ns: u64,
    child_id: ChildOrderId,
    client_order_id: ClientOrderId,
    ts_recv_ns: u64,
)
    ensures
        ({
            let plan = spec_iceberg_plan(
                display,
                threshold,
                parent,
                progress,
                now_ns,
                child_id,
                client_order_id,
                ts_recv_ns,
            );
            &&& spec_plan_gate(parent, progress) matches Err(e) ==> plan == Err::<
                Option<ChildOrderPlan>,
                AlgoError,
            >(e)
            &&& (spec_plan_gate(parent, progress) is Ok && (now_ns < parent.spec_start_ns()
                || progress.completed_qty.0 >= progress.target_qty.0 || progress.released_qty.0
                >= parent.spec_total_qty().0)) ==> plan == Ok::<Option<ChildOrderPlan>, AlgoError>(
                None,
            )
        }),
{
}

} // verus!
