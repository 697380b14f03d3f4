//! Execution metrics and transaction-cost analysis of an algorithm parent.

use vstd::prelude::*;
use crate::algo_model::{spec_parent_validate, AlgoError, ChildOrderPlan, ParentOrder, ParentOrderId};
use crate::algo_support::{
    average_price_from_notional, average_latency_ns, completion_bps, notional,
    optional_slippage_bps, side_slippage_bps, spec_average_latency, spec_average_price,
    spec_completion_bps, spec_notional, spec_optional_slippage_bps, spec_side_slippage_bps,
};
use crate::arith::{clamp_i64, clamp_u64, clamp_u128, max_int, min_int, sat_add_i64};
use crate::orders::{ExecutionEvent, OrderPrice, OrderQty, OrderSide, OrderStatus};

verus! {


broadcast use {
    crate::algo_model::group_parent_order,
    crate::algo_model::group_child_plan,
};

/// Optional TCA benchmark prices for an algorithm parent.
#[derive(Debug, Clone, Copy, PartialEq, Eq)]
pub struct AlgoTcaBenchmark {
    /// Arrival/decision price.
    pub arrival_price: OrderPrice,
    /// VWAP benchmark price, zero when unavailable.
    pub vwap_price: OrderPrice,
    /// TWAP benchmark price, zero when unavailable.
    pub twap_price: OrderPrice,
}

impl AlgoTcaBenchmark {
    /// Creates benchmark prices; a non-positive arrival price or a negative
    /// optional benchmark is `InvalidMetricsParameters`.
    pub fn new(arrival_price: OrderPrice, vwap_price: OrderPrice, twap_price: OrderPrice) -> (r:
        Result<Self, AlgoError>)
        ensures
            if arrival_price.0 <= 0 || vwap_price.0 < 0 || twap_price.0 < 0 {
                r == Err::<Self, AlgoError>(AlgoError::InvalidMetricsParameters)
            } else {
                r == Ok::<Self, AlgoError>(AlgoTcaBenchmark { arrival_price, vwap_price, twap_price })
            },
    {
        if arrival_price.0 <= 0 || vwap_price.0 < 0 || twap_price.0 < 0 {
            return Err(AlgoError::InvalidMetricsParameters);
        }
        Ok(Self { arrival_price, vwap_price, twap_price })
    }

    /// Returns arrival/decision price.
    pub fn arrival_price(&self) -> (r: OrderPrice)
        ensures
            r == self.arrival_price,
    {
        self.arrival_price
    }

    /// Returns VWAP benchmark price, or zero when unavailable.
    pub fn vwap_price(&self) -> (r: OrderPrice)
        ensures
            r == self.vwap_price,
    {
        self.vwap_price
    }

    /// Returns TWAP benchmark price, or zero when unavailable.
    pub fn twap_price(&self) -> (r: OrderPrice)
        ensures
            r == self.twap_price,
    {
        self.twap_price
    }
}

/// Snapshot of algorithm execution metrics and TCA fields.
#[derive(Debug, Clone, Copy, PartialEq, Eq)]
pub struct AlgoMetricsSnapshot {
    /// parent identifier.
    pub parent_id: ParentOrderId,
    /// target parent quantity.
    pub target_qty: OrderQty,
    /// submitted child count.
    pub submitted_children: u64,
    /// child count with at least one fill.
    pub filled_children: u64,
    /// rejected child count.
    pub rejected_children: u64,
    /// cancelled child count.
    pub cancelled_children: u64,
    /// completed quantity.
    pub completed_qty: OrderQty,
    /// completion in basis points of target quantity.
    pub completion_bps: u16,
    /// average execution price, or zero when no fills exist.
    pub average_price: OrderPrice,
    /// side-aware arrival slippage in basis points.
    pub arrival_slippage_bps: i32,
    /// side-aware VWAP slippage in basis points, zero without a VWAP benchmark.
    pub vwap_slippage_bps: i32,
    /// side-aware TWAP slippage in basis points, zero without a TWAP benchmark.
    pub twap_slippage_bps: i32,
    /// first child submit timestamp.
    pub first_submit_ns: u64,
    /// last execution-event receive timestamp.
    pub last_event_ns: u64,
    /// average event latency in nanoseconds.
    pub average_latency_ns: u64,
}

impl AlgoMetricsSnapshot {
    /// Returns parent identifier.
    pub fn parent_id(&self) -> (r: ParentOrderId)
        ensures
            r == self.parent_id,
    {
        self.parent_id
    }

    /// Returns target parent quantity.
    pub fn target_qty(&self) -> (r: OrderQty)
        ensures
            r == self.target_qty,
    {
        self.target_qty
    }

    /// Returns submitted child count.
    pub fn submitted_children(&self) -> (r: u64)
        ensures
            r == self.submitted_children,
    {
        self.submitted_children
    }

    /// Returns child count with at least one fill.
    pub fn filled_children(&self) -> (r: u64)
        ensures
            r == self.filled_children,
    {
        self.filled_children
    }

    /// Returns rejected child count.
    pub fn rejected_children(&self) -> (r: u64)
        ensures
            r == self.rejected_children,
    {
        self.rejected_children
    }

    /// Returns cancelled child count.
    pub fn cancelled_children(&self) -> (r: u64)
        ensures
            r == self.cancelled_children,
    {
        self.cancelled_children
    }

    /// Returns completed quantity.
    pub fn completed_qty(&self) -> (r: OrderQty)
        ensures
            r == self.completed_qty,
    {
        self.completed_qty
    }

    /// Returns completion in basis points of target quantity.
    pub fn completion_bps(&self) -> (r: u16)
        ensures
            r == self.completion_bps,
    {
        self.completion_bps
    }

    /// Returns average execution price, or zero when no fills exist.
    pub fn average_price(&self) -> (r: OrderPrice)
        ensures
            r == self.average_price,
    {
        self.average_price
    }

    /// Returns side-aware arrival slippage in basis points.
    pub fn arrival_slippage_bps(&self) -> (r: i32)
        ensures
            r == self.arrival_slippage_bps,
    {
        self.arrival_slippage_bps
    }

    /// Returns side-aware VWAP slippage in basis points, zero without a VWAP benchmark.
    pub fn vwap_slippage_bps(&self) -> (r: i32)
        ensures
            r == self.vwap_slippage_bps,
    {
        self.vwap_slippage_bps
    }

    /// Returns side-aware TWAP slippage in basis points, zero without a TWAP benchmark.
    pub fn twap_slippage_bps(&self) -> (r: i32)
        ensures
            r == self.twap_slippage_bps,
    {
        self.twap_slippage_bps
    }

    /// Returns first child submit timestamp.
    pub fn first_submit_ns(&self) -> (r: u64)
        ensures
            r == self.first_submit_ns,
    {
        self.first_submit_ns
    }

    /// Returns last execution-event receive timestamp.
    pub fn last_event_ns(&self) -> (r: u64)
        ensures
            r == self.last_event_ns,
    {
        self.last_event_ns
    }

    /// Returns average event latency in nanoseconds.
    pub fn average_latency_ns(&self) -> (r: u64)
        ensures
            r == self.average_latency_ns,
    {
        self.average_latency_ns
    }
}

/// Allocation-free accumulator for algo execution metrics and TCA.
#[derive(Debug, Clone, Copy, PartialEq, Eq)]
pub struct AlgoMetricsAccumulator {
    /// Parent identifier.
    pub parent_id: ParentOrderId,
    /// Parent side.
    pub side: OrderSide,
    /// Target parent quantity.
    pub target_qty: OrderQty,
    /// Benchmark prices.
    pub benchmarks: AlgoTcaBenchmark,
    /// Submitted child count.
    pub submitted_children: u64,
    /// Child reports with a fill.
    pub filled_children: u64,
    /// Rejected child count.
    pub rejected_children: u64,
    /// Cancelled or expired child count.
    pub cancelled_children: u64,
    /// Completed quantity, capped at the target.
    pub completed_qty: OrderQty,
    /// Notional of all fills.
    pub cumulative_notional: u128,
    /// First submit timestamp, zero before any submission.
    pub first_submit_ns: u64,
    /// Latest event receive timestamp.
    pub last_event_ns: u64,
    /// Sum of event latencies.
    pub total_latency_ns: u128,
    /// Number of latency samples.
    pub latency_samples: u64,
}

/// Metrics after one child submission: counted, and the earliest submit
/// time kept (zero meaning none yet).
pub open spec fn spec_metrics_on_submit(
    m: AlgoMetricsAccumulator,
    child: ChildOrderPlan,
) -> AlgoMetricsAccumulator {
    let ts = child.spec_request().ts_recv_ns;
    AlgoMetricsAccumulator {
        submitted_children: clamp_u64(m.submitted_children + 1) as u64,
        first_submit_ns: if m.first_submit_ns == 0 || ts < m.first_submit_ns {
            ts
        } else {
            m.first_submit_ns
        },
        ..m
    }
}

/// Metrics after one execution event: latest receive time, latency of
/// events received no earlier than sent, rejected and cancelled/expired
/// counts, and for a fill its count, completed quantity (capped at target)
/// and notional, all saturating.
pub open spec fn spec_metrics_on_event(
    m: AlgoMetricsAccumulator,
    e: ExecutionEvent,
) -> AlgoMetricsAccumulator {
    let timed = AlgoMetricsAccumulator {
        last_event_ns: max_int(m.last_event_ns as int, e.ts_recv_ns as int) as u64,
        total_latency_ns: if e.ts_recv_ns >= e.ts_exchange_ns {
            clamp_u128(m.total_latency_ns + (e.ts_recv_ns - e.ts_exchange_ns)) as u128
        } else {
            m.total_latency_ns
        },
        latency_samples: if e.ts_recv_ns >= e.ts_exchange_ns {
            clamp_u64(m.latency_samples + 1) as u64
        } else {
            m.latency_samples
        },
        ..m
    };
    let counted = AlgoMetricsAccumulator {
        rejected_children: if e.order_status == OrderStatus::Rejected {
            clamp_u64(timed.rejected_children + 1) as u64
        } else {
            timed.rejected_children
        },
        cancelled_children: if e.order_status == OrderStatus::Cancelled || e.order_status
            == OrderStatus::Expired {
            clamp_u64(timed.cancelled_children + 1) as u64
        } else {
            timed.cancelled_children
        },
        ..timed
    };
    if e.last_qty.0 > 0 {
        AlgoMetricsAccumulator {
            filled_children: clamp_u64(counted.filled_children + 1) as u64,
            completed_qty: OrderQty(
                min_int(
                    clamp_i64(counted.completed_qty.0 + e.last_qty.0),
                    counted.target_qty.0 as int,
                ) as i64,
            ),
            cumulative_notional: clamp_u128(
                counted.cumulative_notional + spec_notional(e.last_qty.0, e.last_price.0),
            ) as u128,
            ..counted
        }
    } else {
        counted
    }
}

/// The snapshot of an accumulator: counts as accumulated, completion and
/// average price from completed quantity and notional, and slippage of the
/// average price against each benchmark.
pub open spec fn spec_metrics_snapshot(m: AlgoMetricsAccumulator) -> AlgoMetricsSnapshot {
    let average = spec_average_price(m.cumulative_notional as int, m.completed_qty.0 as int);
    AlgoMetricsSnapshot {
        parent_id: m.parent_id,
        target_qty: m.target_qty,
        submitted_children: m.submitted_children,
        filled_children: m.filled_children,
        rejected_children: m.rejected_children,
        cancelled_children: m.cancelled_children,
        completed_qty: m.completed_qty,
        completion_bps: spec_completion_bps(m.completed_qty.0 as int, m.target_qty.0 as int) as u16,
        average_price: OrderPrice(average as i64),
        arrival_slippage_bps: spec_side_slippage_bps(
            m.side,
            average,
            m.benchmarks.arrival_price.0 as int,
        ) as i32,
        vwap_slippage_bps: spec_optional_slippage_bps(
            m.side,
            average,
            m.benchmarks.vwap_price.0 as int,
        ) as i32,
        twap_slippage_bps: spec_optional_slippage_bps(
            m.side,
            average,
            m.benchmarks.twap_price.0 as int,
        ) as i32,
        first_submit_ns: m.first_submit_ns,
        last_event_ns: m.last_event_ns,
        average_latency_ns: spec_average_latency(
            m.total_latency_ns as int,
            m.latency_samples as int,
        ) as u64,
    }
}

impl AlgoMetricsAccumulator {
    /// Creates an empty accumulator for a valid parent order; an invalid
    /// parent is its validation error.
    pub fn new(parent: &ParentOrder, benchmarks: AlgoTcaBenchmark) -> (r: Result<Self, AlgoError>)
        ensures
            match spec_parent_validate(*parent) {
                Err(e) => r == Err::<Self, AlgoError>(e),
                Ok(_) => r == Ok::<Self, AlgoError>(
                    AlgoMetricsAccumulator {
                        parent_id: parent.spec_id(),
                        side: parent.spec_side(),
                        target_qty: parent.spec_total_qty(),
                        benchmarks,
                        submitted_children: 0,
                        filled_children: 0,
                        rejected_children: 0,
                        cancelled_children: 0,
                        completed_qty: OrderQty(0),
                        cumulative_notional: 0,
                        first_submit_ns: 0,
                        last_event_ns: 0,
                        total_latency_ns: 0,
                        latency_samples: 0,
                    },
                ),
            },
    {
        match parent.validate() {
            Err(e) => {
                return Err(e);
            },
            Ok(()) => {},
        }
        Ok(
            Self {
                parent_id: parent.id(),
                side: parent.side(),
                target_qty: parent.total_qty(),
                benchmarks,
                submitted_children: 0,
                filled_children: 0,
                rejected_children: 0,
                cancelled_children: 0,
                completed_qty: OrderQty(0),
                cumulative_notional: 0,
                first_submit_ns: 0,
                last_event_ns: 0,
                total_latency_ns: 0,
                latency_samples: 0,
            },
        )
    }

    /// Records one child submission.
    pub fn on_child_submitted(&mut self, child: &ChildOrderPlan)
        ensures
            *final(self) == spec_metrics_on_submit(*old(self), *child),
    {
        self.submitted_children = self.submitted_children.saturating_add(1);
        let ts = child.request().ts_recv_ns;
        if self.first_submit_ns == 0 || ts < self.first_submit_ns {
            self.first_submit_ns = ts;
        }
    }

    /// Folds one canonical execution event into metrics.
    pub fn on_execution_event(&mut self, event: &ExecutionEvent)
        ensures
            *final(self) == spec_metrics_on_event(*old(self), *event),
    {
        if event.ts_recv_ns > self.last_event_ns {
            self.last_event_ns = event.ts_recv_ns;
        }
        if event.ts_recv_ns >= event.ts_exchange_ns {
            self.total_latency_ns = self.total_latency_ns.saturating_add(
                (event.ts_recv_ns - event.ts_exchange_ns) as u128,
            );
            self.latency_samples = self.latency_samples.saturating_add(1);
        }
        match event.order_status {
            OrderStatus::Rejected => {
                self.rejected_children = self.rejected_children.saturating_add(1);
            },
            OrderStatus::Cancelled | OrderStatus::Expired => {
                self.cancelled_children = self.cancelled_children.saturating_add(1);
            },
            _ => {},
        }
        if event.last_qty.0 > 0 {
            self.filled_children = self.filled_children.saturating_add(1);
            let done = sat_add_i64(self.completed_qty.0, event.last_qty.0);
            self.completed_qty = OrderQty(
                if done <= self.target_qty.0 {
                    done
                } else {
                    self.target_qty.0
                },
            );
            self.cumulative_notional = self.cumulative_notional.saturating_add(
                notional(event.last_qty.0, event.last_price.0),
            );
        }
    }

    /// Returns current metrics snapshot.
    pub fn snapshot(&self) -> (r: AlgoMetricsSnapshot)
        ensures
            r == spec_metrics_snapshot(*self),
    {
        let average_price = average_price_from_notional(
            self.cumulative_notional,
            self.completed_qty.0,
        );
        AlgoMetricsSnapshot {
            parent_id: self.parent_id,
            target_qty: self.target_qty,
            submitted_children: self.submitted_children,
            filled_children: self.filled_children,
            rejected_children: self.rejected_children,
            cancelled_children: self.cancelled_children,
            completed_qty: self.completed_qty,
            completion_bps: completion_bps(self.completed_qty.0, self.target_qty.0),
            average_price,
            arrival_slippage_bps: side_slippage_bps(
                self.side,
                average_price,
                self.benchmarks.arrival_price,
            ),
            vwap_slippage_bps: optional_slippage_bps(
                self.side,
                average_price,
                self.benchmarks.vwap_price,
            ),
            twap_slippage_bps: optional_slippage_bps(
                self.side,
                average_price,
                self.benchmarks.twap_price,
            ),
            first_submit_ns: self.first_submit_ns,
            last_event_ns: self.last_event_ns,
            average_latency_ns: average_latency_ns(self.total_latency_ns, self.latency_samples),
        }
    }
}

/// Folding an execution event never lets completed quantity pass the target
/// or fall, and never decreases a counter.
pub proof fn law_metrics_event_monotone(m: AlgoMetricsAccumulator, e: ExecutionEvent)
    requires
        0 <= m.completed_qty.0 <= m.target_qty.0,
    ensures
        ({
            let n = spec_metrics_on_event(m, e);
            &&& m.completed_qty.0 <= n.completed_qty.0 <= n.target_qty.0
            &&& n.target_qty == m.target_qty
            &&& m.filled_children <= n.filled_children
            &&& m.rejected_children <= n.rejected_children
            &&& m.cancelled_children <= n.cancelled_children
            &&& m.submitted_children == n.submitted_children
            &&& m.cumulative_notional <= n.cumulative_notional
            &&& m.last_event_ns <= n.last_event_ns
        }),
{
}

} // verus!
