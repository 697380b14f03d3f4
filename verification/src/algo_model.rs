//! Parent/child order model of the execution algorithms: statuses, errors,
//! parent orders, child plans, progress folding and bounded decisions.

use vstd::prelude::*;
use vstd::std_specs::convert::FromSpecImpl;
use crate::text::{decimal_string, spec_decimal_text};
use crate::arith::{clamp_i64, max_int, min_int, sat_add_i64, sat_sub_i64, clamp_u64};
use crate::ids::{AccountId, ClientOrderId, ExecutionCoreError, FixedAscii, RouteId, StrategyId};
use crate::orders::{
    spec_status_terminal, spec_validate_shape, ExecutionEvent, ExecutionSymbol, OrderPrice,
    OrderQty, OrderRequest, OrderSide, OrderStatus, OrderType, TimeInForce,
};

verus! {

/// Default maximum number of actions retained in a decision.
pub const DEFAULT_ALGO_DECISION_CAPACITY: usize = 16;

/// Default maximum number of retained violations in a risk report.
pub const DEFAULT_ALGO_RISK_VIOLATION_CAPACITY: usize = 16;

/// Current algorithm checkpoint schema version.
pub const ALGO_CHECKPOINT_SCHEMA_VERSION: u16 = 1;

/// Algorithm parent-order identifier.
pub type ParentOrderId = FixedAscii<40>;

/// Algorithm child-order identifier.
pub type ChildOrderId = FixedAscii<40>;

/// Strategy intent identifier.
pub type AlgoIntentId = FixedAscii<40>;

/// Running algorithm instance identifier.
pub type AlgoInstanceId = FixedAscii<40>;

/// Execution-algorithm status for a parent order.
#[derive(Debug, Clone, Copy, PartialEq, Eq, Hash, Structural)]
#[non_exhaustive]
pub enum ParentOrderStatus {
    /// Parent order has been accepted locally but is not yet active.
    Pending,
    /// Parent order is actively releasing child orders.
    Active,
    /// Parent order is paused by policy, operator, or market condition.
    Paused,
    /// Parent order completed its target quantity.
    Completed,
    /// Parent order was cancelled before completion.
    Cancelled,
    /// Parent order was rejected before activation.
    Rejected,
    /// Parent order expired before completion.
    Expired,
    /// Parent order failed and requires operator or recovery action.
    Failed,
    /// Parent order is being recovered from journal/checkpoint state.
    Recovering,
}

/// Terminal parent statuses: no further child release.
pub open spec fn spec_parent_terminal(s: ParentOrderStatus) -> bool {
    s == ParentOrderStatus::Completed || s == ParentOrderStatus::Cancelled || s
        == ParentOrderStatus::Rejected || s == ParentOrderStatus::Expired || s
        == ParentOrderStatus::Failed
}

/// Wire code of a parent status (pending 1 through recovering 9).
pub open spec fn spec_parent_status_code(s: ParentOrderStatus) -> u8 {
    match s {
        ParentOrderStatus::Pending => 1,
        ParentOrderStatus::Active => 2,
        ParentOrderStatus::Paused => 3,
        ParentOrderStatus::Completed => 4,
        ParentOrderStatus::Cancelled => 5,
        ParentOrderStatus::Rejected => 6,
        ParentOrderStatus::Expired => 7,
        ParentOrderStatus::Failed => 8,
        ParentOrderStatus::Recovering => 9,
    }
}

impl ParentOrderStatus {
    /// Returns true when no further child-order release is expected.
    pub fn is_terminal(self) -> (r: bool)
        ensures
            r == spec_parent_terminal(self),
    {
        match self {
            ParentOrderStatus::Completed | ParentOrderStatus::Cancelled
            | ParentOrderStatus::Rejected | ParentOrderStatus::Expired
            | ParentOrderStatus::Failed => true,
            _ => false,
        }
    }

    /// Returns the wire code of the status.
    pub fn code(self) -> (r: u8)
        ensures
            r == spec_parent_status_code(self),
    {
        match self {
            ParentOrderStatus::Pending => 1,
            ParentOrderStatus::Active => 2,
            ParentOrderStatus::Paused => 3,
            ParentOrderStatus::Completed => 4,
            ParentOrderStatus::Cancelled => 5,
            ParentOrderStatus::Rejected => 6,
            ParentOrderStatus::Expired => 7,
            ParentOrderStatus::Failed => 8,
            ParentOrderStatus::Recovering => 9,
        }
    }
}

/// Execution-algorithm status for a child order.
#[derive(Debug, Clone, Copy, PartialEq, Eq, Hash, Structural)]
#[non_exhaustive]
pub enum ChildOrderStatus {
    /// Child order is planned but not yet submitted to the OMS.
    Planned,
    /// Child order was submitted to the OMS.
    Submitted,
    /// Child order was accepted by the venue.
    Accepted,
    /// Child order is partially filled.
    PartiallyFilled,
    /// Child order is fully filled.
    Filled,
    /// Child cancel is pending.
    PendingCancel,
    /// Child order was cancelled.
    Cancelled,
    /// Child replace is pending.
    PendingReplace,
    /// Child order was rejected.
    Rejected,
    /// Child order expired.
    Expired,
    /// Child order state is unknown after recovery/reconciliation.
    Unknown,
}

/// Child status corresponding to an OMS order status.
pub open spec fn spec_child_status_from(status: OrderStatus) -> ChildOrderStatus {
    match status {
        OrderStatus::PendingNew => ChildOrderStatus::Submitted,
        OrderStatus::New => ChildOrderStatus::Accepted,
        OrderStatus::PartiallyFilled => ChildOrderStatus::PartiallyFilled,
        OrderStatus::Filled => ChildOrderStatus::Filled,
        OrderStatus::PendingCancel => ChildOrderStatus::PendingCancel,
        OrderStatus::Cancelled => ChildOrderStatus::Cancelled,
        OrderStatus::PendingReplace => ChildOrderStatus::PendingReplace,
        OrderStatus::Replaced => ChildOrderStatus::PendingReplace,
        OrderStatus::Rejected => ChildOrderStatus::Rejected,
        OrderStatus::Expired => ChildOrderStatus::Expired,
        OrderStatus::Suspended => ChildOrderStatus::Unknown,
        OrderStatus::Unknown => ChildOrderStatus::Unknown,
    }
}

/// Terminal child statuses.
pub open spec fn spec_child_terminal(s: ChildOrderStatus) -> bool {
    s == ChildOrderStatus::Filled || s == ChildOrderStatus::Cancelled || s
        == ChildOrderStatus::Rejected || s == ChildOrderStatus::Expired
}

impl ChildOrderStatus {
    /// Maps a canonical OMS order status into a child-order status.
    pub fn from_order_status(status: OrderStatus) -> (r: Self)
        ensures
            r == spec_child_status_from(status),
    {
        match status {
            OrderStatus::PendingNew => ChildOrderStatus::Submitted,
            OrderStatus::New => ChildOrderStatus::Accepted,
            OrderStatus::PartiallyFilled => ChildOrderStatus::PartiallyFilled,
            OrderStatus::Filled => ChildOrderStatus::Filled,
            OrderStatus::PendingCancel => ChildOrderStatus::PendingCancel,
            OrderStatus::Cancelled => ChildOrderStatus::Cancelled,
            OrderStatus::PendingReplace | OrderStatus::Replaced => ChildOrderStatus::PendingReplace,
            OrderStatus::Rejected => ChildOrderStatus::Rejected,
            OrderStatus::Expired => ChildOrderStatus::Expired,
            OrderStatus::Suspended | OrderStatus::Unknown => ChildOrderStatus::Unknown,
        }
    }

    /// Returns true when no further venue activity is expected.
    pub fn is_terminal(self) -> (r: bool)
        ensures
            r == spec_child_terminal(self),
    {
        match self {
            ChildOrderStatus::Filled | ChildOrderStatus::Cancelled | ChildOrderStatus::Rejected
            | ChildOrderStatus::Expired => true,
            _ => false,
        }
    }
}

/// Execution-algorithm error.
#[derive(Debug, Clone, Copy, PartialEq, Eq, Structural)]
#[non_exhaustive]
pub enum AlgoError {
    /// Core execution-domain validation failed.
    Core(ExecutionCoreError),
    /// Parent start time must be strictly before end time.
    InvalidTimeWindow,
    /// Slice interval must be positive.
    InvalidSliceInterval,
    /// Minimum clip must be positive and no larger than maximum clip.
    InvalidClipBounds,
    /// Parent order is terminal and cannot release more child orders.
    ParentTerminal,
    /// Progress quantities are internally inconsistent.
    InvalidProgress,
    /// Algorithm risk limits or context are invalid.
    InvalidRiskParameters,
    /// Algorithm checkpoint or recovery state is invalid.
    InvalidRecoveryState,
    /// Algorithm simulation inputs are invalid.
    InvalidSimulationParameters,
    /// Algorithm metrics or benchmark inputs are invalid.
    InvalidMetricsParameters,
    /// Algorithm configuration is invalid.
    InvalidConfigParameters,
    /// Fixed-capacity decision buffer is full.
    DecisionFull {
        /// Configured decision capacity.
        capacity: usize,
    },
    /// Deterministic replay generated an identifier that exceeded capacity.
    GeneratedIdentifierTooLong,
    /// Participation rate must be positive and no greater than the cap.
    InvalidParticipationRate,
    /// VWAP volume profile is empty, non-monotonic, or has zero total weight.
    InvalidVolumeProfile,
    /// Iceberg display quantity or replenish threshold is invalid.
    InvalidDisplayQuantity,
    /// Passive queue configuration or market context is invalid.
    InvalidPassiveQueueParameters,
    /// Smart-order-router configuration or route candidate is invalid.
    InvalidSorParameters,
    /// Liquidity-seeking configuration or candidate is invalid.
    InvalidLiquiditySeekingParameters,
    /// Sweep/aggressive-take configuration or candidate is invalid.
    InvalidSweepParameters,
    /// Basket or spread leg configuration is invalid.
    InvalidBasketParameters,
    /// Pairs/spread configuration or quote context is invalid.
    InvalidSpreadParameters,
    /// Market-making configuration or quote context is invalid.
    InvalidMarketMakingParameters,
    /// Implementation shortfall configuration or market context is invalid.
    InvalidShortfallParameters,
}

impl AlgoError {
    /// The human-readable description of the error; a core error reads as
    /// that error.
    pub open spec fn spec_text(&self) -> Seq<char> {
        match self {
            AlgoError::Core(e) => e.spec_text(),
            AlgoError::DecisionFull { capacity } => "algorithm decision capacity "@
                + spec_decimal_text(*capacity as nat) + " is full"@,
            AlgoError::InvalidTimeWindow => "parent start time must be before end time"@,
            AlgoError::InvalidSliceInterval => "slice interval must be positive"@,
            AlgoError::InvalidClipBounds => "minimum clip must be positive and <= maximum clip"@,
            AlgoError::ParentTerminal => "terminal parent cannot release child orders"@,
            AlgoError::InvalidProgress => "algorithm progress is inconsistent"@,
            AlgoError::InvalidRiskParameters => "invalid algorithm risk parameters"@,
            AlgoError::InvalidRecoveryState => "invalid algorithm recovery state"@,
            AlgoError::InvalidSimulationParameters => "invalid algorithm simulation parameters"@,
            AlgoError::InvalidMetricsParameters => "invalid algorithm metrics parameters"@,
            AlgoError::InvalidConfigParameters => "invalid algorithm config parameters"@,
            AlgoError::GeneratedIdentifierTooLong => "generated identifier is too long"@,
            AlgoError::InvalidParticipationRate => "participation rate must be positive and <= cap"@,
            AlgoError::InvalidVolumeProfile => "invalid VWAP volume profile"@,
            AlgoError::InvalidDisplayQuantity => "invalid iceberg display quantity"@,
            AlgoError::InvalidPassiveQueueParameters => "invalid passive queue parameters"@,
            AlgoError::InvalidSorParameters => "invalid SOR parameters"@,
            AlgoError::InvalidLiquiditySeekingParameters => "invalid liquidity-seeking parameters"@,
            AlgoError::InvalidSweepParameters => "invalid sweep parameters"@,
            AlgoError::InvalidBasketParameters => "invalid basket parameters"@,
            AlgoError::InvalidSpreadParameters => "invalid spread parameters"@,
            AlgoError::InvalidMarketMakingParameters => "invalid market-making parameters"@,
            AlgoError::InvalidShortfallParameters => "invalid implementation shortfall parameters"@,
        }
    }

    /// Renders the human-readable description of the error.
    pub fn to_string(&self) -> (r: String)
        ensures
            r@ == self.spec_text(),
    {
        match self {
            AlgoError::Core(e) => e.to_string(),
            AlgoError::DecisionFull { capacity } => {
                let digits = decimal_string(*capacity as u64);
                String::from_str("algorithm decision capacity ").concat(digits.as_str()).concat(
                    " is full",
                )
            },
            AlgoError::InvalidTimeWindow => String::from_str("parent start time must be before end time"),
            AlgoError::InvalidSliceInterval => String::from_str("slice interval must be positive"),
            AlgoError::InvalidClipBounds => String::from_str("minimum clip must be positive and <= maximum clip"),
            AlgoError::ParentTerminal => String::from_str("terminal parent cannot release child orders"),
            AlgoError::InvalidProgress => String::from_str("algorithm progress is inconsistent"),
            AlgoError::InvalidRiskParameters => String::from_str("invalid algorithm risk parameters"),
            AlgoError::InvalidRecoveryState => String::from_str("invalid algorithm recovery state"),
            AlgoError::InvalidSimulationParameters => String::from_str("invalid algorithm simulation parameters"),
            AlgoError::InvalidMetricsParameters => String::from_str("invalid algorithm metrics parameters"),
            AlgoError::InvalidConfigParameters => String::from_str("invalid algorithm config parameters"),
            AlgoError::GeneratedIdentifierTooLong => String::from_str("generated identifier is too long"),
            AlgoError::InvalidParticipationRate => String::from_str("participation rate must be positive and <= cap"),
            AlgoError::InvalidVolumeProfile => String::from_str("invalid VWAP volume profile"),
            AlgoError::InvalidDisplayQuantity => String::from_str("invalid iceberg display quantity"),
            AlgoError::InvalidPassiveQueueParameters => String::from_str("invalid passive queue parameters"),
            AlgoError::InvalidSorParameters => String::from_str("invalid SOR parameters"),
            AlgoError::InvalidLiquiditySeekingParameters => String::from_str("invalid liquidity-seeking parameters"),
            AlgoError::InvalidSweepParameters => String::from_str("invalid sweep parameters"),
            AlgoError::InvalidBasketParameters => String::from_str("invalid basket parameters"),
            AlgoError::InvalidSpreadParameters => String::from_str("invalid spread parameters"),
            AlgoError::InvalidMarketMakingParameters => String::from_str("invalid market-making parameters"),
            AlgoError::InvalidShortfallParameters => String::from_str("invalid implementation shortfall parameters"),
        }
    }
}

impl From<ExecutionCoreError> for AlgoError {
    fn from(value: ExecutionCoreError) -> (r: Self) {
        AlgoError::Core(value)
    }
}

impl FromSpecImpl<ExecutionCoreError> for AlgoError {
    open spec fn obeys_from_spec() -> bool {
        true
    }

    open spec fn from_spec(v: ExecutionCoreError) -> Self {
        AlgoError::Core(v)
    }
}

/// Parent order controlled by an execution algorithm.
#[derive(Debug, Clone, Copy, PartialEq, Eq)]
pub struct ParentOrder {
    pub(crate) id: ParentOrderId,
    pub(crate) account_id: AccountId,
    pub(crate) route_id: RouteId,
    pub(crate) strategy_id: StrategyId,
    pub(crate) symbol: ExecutionSymbol,
    pub(crate) side: OrderSide,
    pub(crate) order_type: OrderType,
    pub(crate) time_in_force: TimeInForce,
    pub(crate) total_qty: OrderQty,
    pub(crate) limit_price: OrderPrice,
    pub(crate) stop_price: OrderPrice,
    pub(crate) start_ns: u64,
    pub(crate) end_ns: u64,
    pub(crate) min_clip: OrderQty,
    pub(crate) max_clip: OrderQty,
    pub(crate) participation_cap_bps: u16,
    pub(crate) status: ParentOrderStatus,
}

/// Validation of a parent's schedule, clips and order shape.
pub open spec fn spec_parent_validate(p: ParentOrder) -> Result<(), AlgoError> {
    if p.spec_start_ns() >= p.spec_end_ns() {
        Err(AlgoError::InvalidTimeWindow)
    } else if p.spec_min_clip().0 <= 0 || p.spec_max_clip().0 <= 0 || p.spec_min_clip().0
        > p.spec_max_clip().0 {
        Err(AlgoError::InvalidClipBounds)
    } else {
        match spec_validate_shape(
            p.spec_total_qty(),
            p.spec_order_type(),
            p.spec_limit_price(),
            p.spec_stop_price(),
        ) {
            Err(e) => Err(AlgoError::Core(e)),
            Ok(_) => Ok(()),
        }
    }
}

/// The child request a parent builds for a route, side, quantity and price.
pub open spec fn spec_child_request(
    p: ParentOrder,
    route_id: RouteId,
    side: OrderSide,
    client_order_id: ClientOrderId,
    quantity: OrderQty,
    limit_price: OrderPrice,
    ts_recv_ns: u64,
) -> OrderRequest {
    OrderRequest {
        client_order_id,
        account_id: p.spec_account_id(),
        route_id,
        strategy_id: p.spec_strategy_id(),
        symbol: p.spec_symbol(),
        side,
        order_type: p.spec_order_type(),
        time_in_force: p.spec_time_in_force(),
        quantity,
        limit_price,
        stop_price: p.spec_stop_price(),
        ts_exchange_ns: 0,
        ts_recv_ns,
    }
}

impl ParentOrder {
    /// The parent's `id`.
    pub closed spec fn spec_id(&self) -> ParentOrderId {
        self.id
    }

    /// The parent's `account_id`.
    pub closed spec fn spec_account_id(&self) -> AccountId {
        self.account_id
    }

    /// The parent's `route_id`.
    pub closed spec fn spec_route_id(&self) -> RouteId {
        self.route_id
    }

    /// The parent's `strategy_id`.
    pub closed spec fn spec_strategy_id(&self) -> StrategyId {
        self.strategy_id
    }

    /// The parent's `symbol`.
    pub closed spec fn spec_symbol(&self) -> ExecutionSymbol {
        self.symbol
    }

    /// The parent's `side`.
    pub closed spec fn spec_side(&self) -> OrderSide {
        self.side
    }

    /// The parent's `order_type`.
    pub closed spec fn spec_order_type(&self) -> OrderType {
        self.order_type
    }

    /// The parent's `time_in_force`.
    pub closed spec fn spec_time_in_force(&self) -> TimeInForce {
        self.time_in_force
    }

    /// The parent's `total_qty`.
    pub closed spec fn spec_total_qty(&self) -> OrderQty {
        self.total_qty
    }

    /// The parent's `limit_price`.
    pub closed spec fn spec_limit_price(&self) -> OrderPrice {
        self.limit_price
    }

    /// The parent's `stop_price`.
    pub closed spec fn spec_stop_price(&self) -> OrderPrice {
        self.stop_price
    }

    /// The parent's `start_ns`.
    pub closed spec fn spec_start_ns(&self) -> u64 {
        self.start_ns
    }

    /// The parent's `end_ns`.
    pub closed spec fn spec_end_ns(&self) -> u64 {
        self.end_ns
    }

    /// The parent's `min_clip`.
    pub closed spec fn spec_min_clip(&self) -> OrderQty {
        self.min_clip
    }

    /// The parent's `max_clip`.
    pub closed spec fn spec_max_clip(&self) -> OrderQty {
        self.max_clip
    }

    /// The parent's `participation_cap_bps`.
    pub closed spec fn spec_participation_cap_bps(&self) -> u16 {
        self.participation_cap_bps
    }

    /// The parent's `status`.
    pub closed spec fn spec_status(&self) -> ParentOrderStatus {
        self.status
    }

    /// The active parent order made of the given fields.
    pub closed spec fn spec_new(
        id: ParentOrderId,
        account_id: AccountId,
        route_id: RouteId,
        strategy_id: StrategyId,
        symbol: ExecutionSymbol,
        side: OrderSide,
        order_type: OrderType,
        time_in_force: TimeInForce,
        total_qty: OrderQty,
        limit_price: OrderPrice,
        stop_price: OrderPrice,
        start_ns: u64,
        end_ns: u64,
        min_clip: OrderQty,
        max_clip: OrderQty,
        participation_cap_bps: u16,
    ) -> ParentOrder {
        ParentOrder {
            id,
            account_id,
            route_id,
            strategy_id,
            symbol,
            side,
            order_type,
            time_in_force,
            total_qty,
            limit_price,
            stop_price,
            start_ns,
            end_ns,
            min_clip,
            max_clip,
            participation_cap_bps,
            status: ParentOrderStatus::Active,
        }
    }

    /// The same parent order with another lifecycle status.
    pub closed spec fn spec_with_status(self, status: ParentOrderStatus) -> ParentOrder {
        ParentOrder { status, ..self }
    }

    /// Creates an active parent order, validated as `validate` does.
    #[allow(clippy::too_many_arguments)]
    pub fn new(
        id: ParentOrderId,
        account_id: AccountId,
        route_id: RouteId,
        strategy_id: StrategyId,
        symbol: ExecutionSymbol,
        side: OrderSide,
        order_type: OrderType,
        time_in_force: TimeInForce,
        total_qty: OrderQty,
        limit_price: OrderPrice,
        stop_price: OrderPrice,
        start_ns: u64,
        end_ns: u64,
        min_clip: OrderQty,
        max_clip: OrderQty,
        participation_cap_bps: u16,
    ) -> (r: Result<Self, AlgoError>)
        ensures
            ({
                let p = ParentOrder::spec_new(
                    id,
                    account_id,
                    route_id,
                    strategy_id,
                    symbol,
                    side,
                    order_type,
                    time_in_force,
                    total_qty,
                    limit_price,
                    stop_price,
                    start_ns,
                    end_ns,
                    min_clip,
                    max_clip,
                    participation_cap_bps,
                );
                match spec_parent_validate(p) {
                    Ok(_) => r == Ok::<Self, AlgoError>(p),
                    Err(e) => r == Err::<Self, AlgoError>(e),
                }
            }),
    {
        let parent = Self {
            id,
            account_id,
            route_id,
            strategy_id,
            symbol,
            side,
            order_type,
            time_in_force,
            total_qty,
            limit_price,
            stop_price,
            start_ns,
            end_ns,
            min_clip,
            max_clip,
            participation_cap_bps,
            status: ParentOrderStatus::Active,
        };
        match parent.validate() {
            Ok(()) => Ok(parent),
            Err(e) => Err(e),
        }
    }

    /// Validates parent order shape and schedule.
    pub fn validate(&self) -> (r: Result<(), AlgoError>)
        ensures
            r == spec_parent_validate(*self),
    {
        if self.start_ns >= self.end_ns {
            return Err(AlgoError::InvalidTimeWindow);
        }
        if self.min_clip.0 <= 0 || self.max_clip.0 <= 0 || self.min_clip.0 > self.max_clip.0 {
            return Err(AlgoError::InvalidClipBounds);
        }
        let request = self.build_order_request(ClientOrderId::empty(), self.total_qty, 0);
        match request.validate() {
            Ok(()) => Ok(()),
            Err(e) => Err(AlgoError::Core(e)),
        }
    }

    /// Returns the parent identifier.
    pub fn id(&self) -> (r: ParentOrderId)
        ensures
            r == self.spec_id(),
    {
        self.id
    }

    /// Returns the account identifier.
    pub fn account_id(&self) -> (r: AccountId)
        ensures
            r == self.spec_account_id(),
    {
        self.account_id
    }

    /// Returns the default route identifier for child orders.
    pub fn route_id(&self) -> (r: RouteId)
        ensures
            r == self.spec_route_id(),
    {
        self.route_id
    }

    /// Returns the strategy attribution identifier.
    pub fn strategy_id(&self) -> (r: StrategyId)
        ensures
            r == self.spec_strategy_id(),
    {
        self.strategy_id
    }

    /// Returns the execution symbol.
    pub fn symbol(&self) -> (r: ExecutionSymbol)
        ensures
            r == self.spec_symbol(),
    {
        self.symbol
    }

    /// Returns the order side.
    pub fn side(&self) -> (r: OrderSide)
        ensures
            r == self.spec_side(),
    {
        self.side
    }

    /// Returns the child order type.
    pub fn order_type(&self) -> (r: OrderType)
        ensures
            r == self.spec_order_type(),
    {
        self.order_type
    }

    /// Returns the child time-in-force.
    pub fn time_in_force(&self) -> (r: TimeInForce)
        ensures
            r == self.spec_time_in_force(),
    {
        self.time_in_force
    }

    /// Returns the target total quantity.
    pub fn total_qty(&self) -> (r: OrderQty)
        ensures
            r == self.spec_total_qty(),
    {
        self.total_qty
    }

    /// Returns the parent limit price.
    pub fn limit_price(&self) -> (r: OrderPrice)
        ensures
            r == self.spec_limit_price(),
    {
        self.limit_price
    }

    /// Returns the parent stop price.
    pub fn stop_price(&self) -> (r: OrderPrice)
        ensures
            r == self.spec_stop_price(),
    {
        self.stop_price
    }

    /// Returns the algorithm start timestamp.
    pub fn start_ns(&self) -> (r: u64)
        ensures
            r == self.spec_start_ns(),
    {
        self.start_ns
    }

    /// Returns the algorithm end timestamp.
    pub fn end_ns(&self) -> (r: u64)
        ensures
            r == self.spec_end_ns(),
    {
        self.end_ns
    }

    /// Returns the minimum child clip.
    pub fn min_clip(&self) -> (r: OrderQty)
        ensures
            r == self.spec_min_clip(),
    {
        self.min_clip
    }

    /// Returns the maximum child clip.
    pub fn max_clip(&self) -> (r: OrderQty)
        ensures
            r == self.spec_max_clip(),
    {
        self.max_clip
    }

    /// Returns the optional participation cap in basis points, or zero when
    /// unset.
    pub fn participation_cap_bps(&self) -> (r: u16)
        ensures
            r == self.spec_participation_cap_bps(),
    {
        self.participation_cap_bps
    }

    /// Returns the parent lifecycle status.
    pub fn status(&self) -> (r: ParentOrderStatus)
        ensures
            r == self.spec_status(),
    {
        self.status
    }

    /// Returns a copy with a different lifecycle status.
    pub fn with_status(self, status: ParentOrderStatus) -> (r: Self)
        ensures
            r == self.spec_with_status(status),
    {
        ParentOrder { status, ..self }
    }

    /// Builds a child request at the parent's route, side and limit price.
    pub fn build_order_request(&self, client_order_id: ClientOrderId, quantity: OrderQty, ts_recv_ns: u64) -> (r:
        OrderRequest)
        ensures
            r == spec_child_request(
                *self,
                self.spec_route_id(),
                self.spec_side(),
                client_order_id,
                quantity,
                self.spec_limit_price(),
                ts_recv_ns,
            ),
    {
        self.build_order_request_for_route_at_price(
            self.route_id,
            client_order_id,
            quantity,
            self.limit_price,
            ts_recv_ns,
        )
    }

    /// Builds a child request at the parent's route and side and `limit_price`.
    pub fn build_order_request_at_price(
        &self,
        client_order_id: ClientOrderId,
        quantity: OrderQty,
        limit_price: OrderPrice,
        ts_recv_ns: u64,
    ) -> (r: OrderRequest)
        ensures
            r == spec_child_request(
                *self,
                self.spec_route_id(),
                self.spec_side(),
                client_order_id,
                quantity,
                limit_price,
                ts_recv_ns,
            ),
    {
        self.build_order_request_for_route_at_price(
            self.route_id,
            client_order_id,
            quantity,
            limit_price,
            ts_recv_ns,
        )
    }

    /// Builds a child request on `route_id` at `limit_price`.
    pub fn build_order_request_for_route_at_price(
        &self,
        route_id: RouteId,
        client_order_id: ClientOrderId,
        quantity: OrderQty,
        limit_price: OrderPrice,
        ts_recv_ns: u64,
    ) -> (r: OrderRequest)
        ensures
            r == spec_child_request(
                *self,
                route_id,
                self.spec_side(),
                client_order_id,
                quantity,
                limit_price,
                ts_recv_ns,
            ),
    {
        OrderRequest {
            client_order_id,
            account_id: self.account_id,
            route_id,
            strategy_id: self.strategy_id,
            symbol: self.symbol,
            side: self.side,
            order_type: self.order_type,
            time_in_force: self.time_in_force,
            quantity,
            limit_price,
            stop_price: self.stop_price,
            ts_exchange_ns: 0,
            ts_recv_ns,
        }
    }

    /// Builds a child request for `side` at `limit_price` on the parent's
    /// route.
    pub fn build_order_request_for_side_at_price(
        &self,
        side: OrderSide,
        client_order_id: ClientOrderId,
        quantity: OrderQty,
        limit_price: OrderPrice,
        ts_recv_ns: u64,
    ) -> (r: OrderRequest)
        ensures
            r == spec_child_request(
                *self,
                self.spec_route_id(),
                side,
                client_order_id,
                quantity,
                limit_price,
                ts_recv_ns,
            ),
    {
        OrderRequest {
            client_order_id,
            account_id: self.account_id,
            route_id: self.route_id,
            strategy_id: self.strategy_id,
            symbol: self.symbol,
            side,
            order_type: self.order_type,
            time_in_force: self.time_in_force,
            quantity,
            limit_price,
            stop_price: self.stop_price,
            ts_exchange_ns: 0,
            ts_recv_ns,
        }
    }
}

/// A parent made by `spec_new` has exactly the given fields and is active.
pub broadcast proof fn lemma_parent_new_parts(
    id: ParentOrderId,
    account_id: AccountId,
    route_id: RouteId,
    strategy_id: StrategyId,
    symbol: ExecutionSymbol,
    side: OrderSide,
    order_type: OrderType,
    time_in_force: TimeInForce,
    total_qty: OrderQty,
    limit_price: OrderPrice,
    stop_price: OrderPrice,
    start_ns: u64,
    end_ns: u64,
    min_clip: OrderQty,
    max_clip: OrderQty,
    participation_cap_bps: u16,
)
    ensures
        ({
            let p = #[trigger] ParentOrder::spec_new(
                id,
                account_id,
                route_id,
                strategy_id,
                symbol,
                side,
                order_type,
                time_in_force,
                total_qty,
                limit_price,
                stop_price,
                start_ns,
                end_ns,
                min_clip,
                max_clip,
                participation_cap_bps,
            );
            &&& p.spec_id() == id
            &&& p.spec_account_id() == account_id
            &&& p.spec_route_id() == route_id
            &&& p.spec_strategy_id() == strategy_id
            &&& p.spec_symbol() == symbol
            &&& p.spec_side() == side
            &&& p.spec_order_type() == order_type
            &&& p.spec_time_in_force() == time_in_force
            &&& p.spec_total_qty() == total_qty
            &&& p.spec_limit_price() == limit_price
            &&& p.spec_stop_price() == stop_price
            &&& p.spec_start_ns() == start_ns
            &&& p.spec_end_ns() == end_ns
            &&& p.spec_min_clip() == min_clip
            &&& p.spec_max_clip() == max_clip
            &&& p.spec_participation_cap_bps() == participation_cap_bps
            &&& p.spec_status() == ParentOrderStatus::Active
        }),
{
}

/// Changing the status changes nothing else.
pub broadcast proof fn lemma_parent_with_status(p: ParentOrder, status: ParentOrderStatus)
    ensures
        ({
            let q = #[trigger] p.spec_with_status(status);
            &&& q.spec_id() == p.spec_id()
            &&& q.spec_account_id() == p.spec_account_id()
            &&& q.spec_route_id() == p.spec_route_id()
            &&& q.spec_strategy_id() == p.spec_strategy_id()
            &&& q.spec_symbol() == p.spec_symbol()
            &&& q.spec_side() == p.spec_side()
            &&& q.spec_order_type() == p.spec_order_type()
            &&& q.spec_time_in_force() == p.spec_time_in_force()
            &&& q.spec_total_qty() == p.spec_total_qty()
            &&& q.spec_limit_price() == p.spec_limit_price()
            &&& q.spec_stop_price() == p.spec_stop_price()
            &&& q.spec_start_ns() == p.spec_start_ns()
            &&& q.spec_end_ns() == p.spec_end_ns()
            &&& q.spec_min_clip() == p.spec_min_clip()
            &&& q.spec_max_clip() == p.spec_max_clip()
            &&& q.spec_participation_cap_bps() == p.spec_participation_cap_bps()
            &&& q.spec_status() == status
        }),
{
}

/// Parents with the same fields are equal.
pub proof fn lemma_parent_ext(a: ParentOrder, b: ParentOrder)
    requires
        a.spec_id() == b.spec_id(),
        a.spec_account_id() == b.spec_account_id(),
        a.spec_route_id() == b.spec_route_id(),
        a.spec_strategy_id() == b.spec_strategy_id(),
        a.spec_symbol() == b.spec_symbol(),
        a.spec_side() == b.spec_side(),
        a.spec_order_type() == b.spec_order_type(),
        a.spec_time_in_force() == b.spec_time_in_force(),
        a.spec_total_qty() == b.spec_total_qty(),
        a.spec_limit_price() == b.spec_limit_price(),
        a.spec_stop_price() == b.spec_stop_price(),
        a.spec_start_ns() == b.spec_start_ns(),
        a.spec_end_ns() == b.spec_end_ns(),
        a.spec_min_clip() == b.spec_min_clip(),
        a.spec_max_clip() == b.spec_max_clip(),
        a.spec_participation_cap_bps() == b.spec_participation_cap_bps(),
        a.spec_status() == b.spec_status(),
    ensures
        a == b,
{
}

/// Facts about parents made of fields.
pub broadcast group group_parent_order {
    lemma_parent_new_parts,
    lemma_parent_with_status,
}

/// Planned child order generated by an execution algorithm.
#[derive(Debug, Clone, Copy, PartialEq, Eq)]
pub struct ChildOrderPlan {
    pub(crate) child_id: ChildOrderId,
    pub(crate) parent_id: ParentOrderId,
    pub(crate) request: OrderRequest,
    pub(crate) due_ns: u64,
    pub(crate) status: ChildOrderStatus,
}

impl ChildOrderPlan {
    #[verifier::type_invariant]
    spec fn inv(self) -> bool {
        self.request.spec_validate() is Ok
    }

    /// The plan made of the given identifiers, request, release time and
    /// status.
    pub closed spec fn spec_from_parts(
        child_id: ChildOrderId,
        parent_id: ParentOrderId,
        request: OrderRequest,
        due_ns: u64,
        status: ChildOrderStatus,
    ) -> ChildOrderPlan {
        ChildOrderPlan { child_id, parent_id, request, due_ns, status }
    }

    /// The child identifier.
    pub closed spec fn spec_child_id(&self) -> ChildOrderId {
        self.child_id
    }

    /// The parent identifier.
    pub closed spec fn spec_parent_id(&self) -> ParentOrderId {
        self.parent_id
    }

    /// The canonical OMS order request.
    pub closed spec fn spec_request(&self) -> OrderRequest {
        self.request
    }

    /// The planned release timestamp.
    pub closed spec fn spec_due_ns(&self) -> u64 {
        self.due_ns
    }

    /// The child lifecycle status.
    pub closed spec fn spec_status(&self) -> ChildOrderStatus {
        self.status
    }

    /// Creates a planned child order; an invalid request is refused with its
    /// core error.
    pub fn new(child_id: ChildOrderId, parent_id: ParentOrderId, request: OrderRequest, due_ns: u64) -> (r:
        Result<Self, AlgoError>)
        ensures
            match request.spec_validate() {
                Ok(_) => r == Ok::<Self, AlgoError>(
                    ChildOrderPlan::spec_from_parts(
                        child_id,
                        parent_id,
                        request,
                        due_ns,
                        ChildOrderStatus::Planned,
                    ),
                ),
                Err(e) => r == Err::<Self, AlgoError>(AlgoError::Core(e)),
            },
    {
        match request.validate() {
            Ok(()) => Ok(
                Self { child_id, parent_id, request, due_ns, status: ChildOrderStatus::Planned },
            ),
            Err(e) => Err(AlgoError::Core(e)),
        }
    }

    /// Returns the child identifier.
    pub fn child_id(&self) -> (r: ChildOrderId)
        ensures
            r == self.spec_child_id(),
    {
        self.child_id
    }

    /// Returns the parent identifier.
    pub fn parent_id(&self) -> (r: ParentOrderId)
        ensures
            r == self.spec_parent_id(),
    {
        self.parent_id
    }

    /// Returns the canonical OMS order request.
    pub fn request(&self) -> (r: &OrderRequest)
        ensures
            *r == self.spec_request(),
            r.spec_validate() is Ok,
    {
        proof {
            use_type_invariant(self);
        }
        &self.request
    }

    /// Returns the planned release timestamp.
    pub fn due_ns(&self) -> (r: u64)
        ensures
            r == self.spec_due_ns(),
    {
        self.due_ns
    }

    /// Returns the child lifecycle status.
    pub fn status(&self) -> (r: ChildOrderStatus)
        ensures
            r == self.spec_status(),
    {
        self.status
    }

    /// Returns a copy with a different lifecycle status.
    pub fn with_status(self, status: ChildOrderStatus) -> (r: Self)
        ensures
            r == ChildOrderPlan::spec_from_parts(
                self.spec_child_id(),
                self.spec_parent_id(),
                self.spec_request(),
                self.spec_due_ns(),
                status,
            ),
    {
        proof {
            use_type_invariant(&self);
        }
        ChildOrderPlan { status, ..self }
    }
}

/// A plan made of parts has exactly those parts.
pub broadcast proof fn lemma_child_plan_parts(
    child_id: ChildOrderId,
    parent_id: ParentOrderId,
    request: OrderRequest,
    due_ns: u64,
    status: ChildOrderStatus,
)
    ensures
        ({
            let p = #[trigger] ChildOrderPlan::spec_from_parts(
                child_id,
                parent_id,
                request,
                due_ns,
                status,
            );
            &&& p.spec_child_id() == child_id
            &&& p.spec_parent_id() == parent_id
            &&& p.spec_request() == request
            &&& p.spec_due_ns() == due_ns
            &&& p.spec_status() == status
        }),
{
}

/// Facts about plans made of parts.
pub broadcast group group_child_plan {
    lemma_child_plan_parts,
}

/// Aggregate parent execution progress.
#[derive(Debug, Clone, Copy, PartialEq, Eq)]
pub struct AlgoProgress {
    pub parent_id: ParentOrderId,
    pub target_qty: OrderQty,
    pub released_qty: OrderQty,
    pub completed_qty: OrderQty,
    pub open_qty: OrderQty,
    pub rejected_children: u64,
    pub terminal_children: u64,
}

/// Progress after folding an execution event: fills add to completed
/// quantity (capped at target) and leave the open estimate; terminal events
/// are counted and cap the open estimate at the event's leaves.
pub open spec fn spec_progress_on_event(p: AlgoProgress, e: ExecutionEvent) -> AlgoProgress {
    let after_fill = if e.last_qty.0 > 0 {
        AlgoProgress {
            completed_qty: OrderQty(
                min_int(clamp_i64(p.completed_qty.0 + e.last_qty.0), p.target_qty.0 as int) as i64,
            ),
            open_qty: OrderQty(clamp_i64(p.open_qty.0 - e.last_qty.0) as i64),
            ..p
        }
    } else {
        p
    };
    if spec_status_terminal(e.order_status) {
        AlgoProgress {
            terminal_children: clamp_u64(after_fill.terminal_children + 1) as u64,
            rejected_children: if e.order_status == OrderStatus::Rejected {
                clamp_u64(after_fill.rejected_children + 1) as u64
            } else {
                after_fill.rejected_children
            },
            open_qty: OrderQty(
                min_int(after_fill.open_qty.0 as int, max_int(e.leaves_qty.0 as int, 0)) as i64,
            ),
            ..after_fill
        }
    } else {
        after_fill
    }
}

/// Progress after releasing a planned child: released and open quantity
/// grow by the child's quantity (saturating); a child of another parent, or
/// one that would release more than the target, is `InvalidProgress`.
pub open spec fn spec_release(p: AlgoProgress, plan: ChildOrderPlan) -> Result<
    AlgoProgress,
    AlgoError,
> {
    let released = clamp_i64(p.released_qty.0 + plan.spec_request().quantity.0);
    if plan.spec_parent_id()@ != p.parent_id@ || released > p.target_qty.0 {
        Err(AlgoError::InvalidProgress)
    } else {
        Ok(
            AlgoProgress {
                released_qty: OrderQty(released as i64),
                open_qty: OrderQty(clamp_i64(p.open_qty.0 + plan.spec_request().quantity.0) as i64),
                ..p
            },
        )
    }
}

impl AlgoProgress {
    /// Creates empty progress for a parent order.
    pub fn new(parent_id: ParentOrderId, target_qty: OrderQty) -> (r: Self)
        ensures
            r == (AlgoProgress {
                parent_id,
                target_qty,
                released_qty: OrderQty(0),
                completed_qty: OrderQty(0),
                open_qty: OrderQty(0),
                rejected_children: 0,
                terminal_children: 0,
            }),
    {
        Self {
            parent_id,
            target_qty,
            released_qty: OrderQty(0),
            completed_qty: OrderQty(0),
            open_qty: OrderQty(0),
            rejected_children: 0,
            terminal_children: 0,
        }
    }

    /// Returns the parent identifier.
    pub fn parent_id(&self) -> (r: ParentOrderId)
        ensures
            r == self.parent_id,
    {
        self.parent_id
    }

    /// Returns target parent quantity.
    pub fn target_qty(&self) -> (r: OrderQty)
        ensures
            r == self.target_qty,
    {
        self.target_qty
    }

    /// Returns quantity released as child orders.
    pub fn released_qty(&self) -> (r: OrderQty)
        ensures
            r == self.released_qty,
    {
        self.released_qty
    }

    /// Returns quantity fully executed.
    pub fn completed_qty(&self) -> (r: OrderQty)
        ensures
            r == self.completed_qty,
    {
        self.completed_qty
    }

    /// Returns currently open child quantity estimate.
    pub fn open_qty(&self) -> (r: OrderQty)
        ensures
            r == self.open_qty,
    {
        self.open_qty
    }

    /// Returns rejected child count.
    pub fn rejected_children(&self) -> (r: u64)
        ensures
            r == self.rejected_children,
    {
        self.rejected_children
    }

    /// Returns terminal child count.
    pub fn terminal_children(&self) -> (r: u64)
        ensures
            r == self.terminal_children,
    {
        self.terminal_children
    }

    /// Returns unreleased target quantity.
    pub fn unreleased_qty(&self) -> (r: OrderQty)
        ensures
            r.0 == clamp_i64(self.target_qty.0 - self.released_qty.0),
    {
        OrderQty(sat_sub_i64(self.target_qty.0, self.released_qty.0))
    }

    /// Returns true when completed quantity reached target quantity.
    pub fn is_complete(&self) -> (r: bool)
        ensures
            r == (self.completed_qty.0 >= self.target_qty.0),
    {
        self.completed_qty.0 >= self.target_qty.0
    }

    /// Records a planned child release; a child of another parent, or one
    /// that would release more than the target, is refused with
    /// `InvalidProgress` and leaves the progress unchanged.
    pub fn on_child_released(&mut self, plan: &ChildOrderPlan) -> (r: Result<(), AlgoError>)
        ensures
            match spec_release(*old(self), *plan) {
                Err(e) => r == Err::<(), AlgoError>(e) && *final(self) == *old(self),
                Ok(p) => r is Ok && *final(self) == p,
            },
    {
        if !plan.parent_id.same_text(&self.parent_id) {
            return Err(AlgoError::InvalidProgress);
        }
        let qty = plan.request.quantity.0;
        let released = sat_add_i64(self.released_qty.0, qty);
        if released > self.target_qty.0 {
            return Err(AlgoError::InvalidProgress);
        }
        self.released_qty = OrderQty(released);
        self.open_qty = OrderQty(sat_add_i64(self.open_qty.0, qty));
        Ok(())
    }

    /// Folds a canonical OMS execution event into parent progress.
    pub fn on_execution_event(&mut self, event: &ExecutionEvent)
        ensures
            *final(self) == spec_progress_on_event(*old(self), *event),
    {
        if event.last_qty.0 > 0 {
            let done = sat_add_i64(self.completed_qty.0, event.last_qty.0);
            self.completed_qty = OrderQty(if done <= self.target_qty.0 { done } else { self.target_qty.0 });
            self.open_qty = OrderQty(sat_sub_i64(self.open_qty.0, event.last_qty.0));
        }
        if event.order_status.is_terminal() {
            self.terminal_children = self.terminal_children.saturating_add(1);
            if event.order_status == OrderStatus::Rejected {
                self.rejected_children = self.rejected_children.saturating_add(1);
            }
            let leaves = if event.leaves_qty.0 > 0 { event.leaves_qty.0 } else { 0 };
            self.open_qty = OrderQty(if self.open_qty.0 <= leaves { self.open_qty.0 } else { leaves });
        }
    }
}

/// Execution-algorithm action.
#[derive(Debug, Clone, Copy, PartialEq, Eq)]
#[non_exhaustive]
pub enum AlgoAction {
    /// Submit a planned child order through the OMS.
    SubmitChild(ChildOrderPlan),
    /// Pause the parent order.
    PauseParent {
        /// Parent to pause.
        parent_id: ParentOrderId,
    },
    /// Mark the parent order complete.
    CompleteParent {
        /// Parent to complete.
        parent_id: ParentOrderId,
    },
    /// Escalate the parent for risk or operator handling.
    EscalateRisk {
        /// Parent requiring attention.
        parent_id: ParentOrderId,
    },
}

/// Fixed-capacity algorithm decision holding at most `N` actions.
#[derive(Debug, PartialEq, Eq)]
pub struct AlgoDecision<const N: usize> {
    pub(crate) decision_seq: u64,
    pub(crate) actions: Vec<AlgoAction>,
}

impl<const N: usize> AlgoDecision<N> {
    #[verifier::type_invariant]
    spec fn inv(&self) -> bool {
        self.actions@.len() <= N
    }

    /// The retained actions in insertion order.
    pub closed spec fn spec_actions(&self) -> Seq<AlgoAction> {
        self.actions@
    }

    /// The caller-assigned decision sequence.
    pub closed spec fn spec_seq(&self) -> u64 {
        self.decision_seq
    }

    /// Creates an empty decision.
    pub fn new(decision_seq: u64) -> (r: Self)
        ensures
            r.spec_seq() == decision_seq,
            r.spec_actions() == Seq::<AlgoAction>::empty(),
    {
        Self { decision_seq, actions: Vec::new() }
    }

    /// Returns the monotonic decision sequence assigned by the caller.
    pub fn decision_seq(&self) -> (r: u64)
        ensures
            r == self.spec_seq(),
    {
        self.decision_seq
    }

    /// Returns the number of retained actions.
    pub fn len(&self) -> (r: usize)
        ensures
            r == self.spec_actions().len(),
            r <= N,
    {
        proof {
            use_type_invariant(self);
        }
        self.actions.len()
    }

    /// Returns true when no actions are present.
    pub fn is_empty(&self) -> (r: bool)
        ensures
            r == (self.spec_actions().len() == 0),
    {
        self.actions.len() == 0
    }

    /// Adds an action; a full decision refuses it with `DecisionFull` and is
    /// unchanged.
    pub fn push(&mut self, action: AlgoAction) -> (r: Result<(), AlgoError>)
        ensures
            final(self).spec_seq() == old(self).spec_seq(),
            old(self).spec_actions().len() == N ==> r == Err::<(), AlgoError>(
                AlgoError::DecisionFull { capacity: N },
            ) && final(self).spec_actions() == old(self).spec_actions(),
            old(self).spec_actions().len() < N ==> r is Ok && final(self).spec_actions() == old(
                self).spec_actions().push(action),
    {
        proof {
            use_type_invariant(&*self);
        }
        if self.actions.len() == N {
            return Err(AlgoError::DecisionFull { capacity: N });
        }
        let mut actions: Vec<AlgoAction> = Vec::new();
        std::mem::swap(&mut actions, &mut self.actions);
        actions.push(action);
        self.actions = actions;
        Ok(())
    }

    /// Returns the actions in insertion order.
    pub fn action_list(&self) -> (r: &[AlgoAction])
        ensures
            r@ == self.spec_actions(),
    {
        self.actions.as_slice()
    }

    /// Iterates over the actions in insertion order.
    pub fn actions(&self) -> (r: std::slice::Iter<'_, AlgoAction>)
        ensures
            vstd::std_specs::iter::IteratorSpec::remaining(&r) == self.spec_actions().as_ref(),
    {
        broadcast use vstd::std_specs::slice::axiom_spec_slice_iter;
        self.actions.as_slice().iter()
    }
}

impl<const N: usize> Clone for AlgoDecision<N> {
    fn clone(&self) -> (r: Self)
        ensures
            r.spec_seq() == self.spec_seq(),
            r.spec_actions() == self.spec_actions(),
    {
        proof {
            use_type_invariant(self);
        }
        let mut actions: Vec<AlgoAction> = Vec::new();
        let mut i: usize = 0;
        while i < self.actions.len()
            invariant
                i <= self.actions@.len(),
                actions@ == self.actions@.take(i as int),
            decreases self.actions@.len() - i,
        {
            actions.push(self.actions[i]);
            i = i + 1;
            assert(actions@ =~= self.actions@.take(i as int));
        }
        assert(self.actions@.take(i as int) =~= self.actions@);
        Self { decision_seq: self.decision_seq, actions }
    }
}

impl<const N: usize> Default for AlgoDecision<N> {
    fn default() -> (r: Self)
        ensures
            r.spec_seq() == 0,
            r.spec_actions() == Seq::<AlgoAction>::empty(),
    {
        Self::new(0)
    }
}

} // verus!
