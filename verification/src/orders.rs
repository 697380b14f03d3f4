//! Orders, execution events and the deterministic order state machine.

use vstd::prelude::*;
use crate::ids::{spec_ascii_id_error, ExecutionCoreError, ClientOrderId, VenueOrderId, ExecutionId, AccountId, RouteId, StrategyId, VenueId, InstrumentId, ExecutionText};

verus! {

/// Execution symbol in venue-native format.
#[derive(Debug, Clone, Copy, PartialEq, Eq, Hash, Default)]
pub struct ExecutionSymbol {
    /// Venue/exchange identifier.
    pub venue: VenueId,
    /// Venue-native instrument symbol.
    pub instrument: InstrumentId,
}

impl ExecutionSymbol {
    /// Creates a symbol from ASCII venue and instrument identifiers.
    ///
    /// The venue is validated first; its error wins over the instrument's.
    pub fn new(venue: &str, instrument: &str) -> (r: Result<Self, ExecutionCoreError>)
        ensures
            match (spec_ascii_id_error(venue, 16), spec_ascii_id_error(instrument, 32)) {
                (Some(e), _) => r == Err::<Self, ExecutionCoreError>(e),
                (None, Some(e)) => r == Err::<Self, ExecutionCoreError>(e),
                (None, None) => r matches Ok(s) && s.venue@ == venue@ && s.instrument@
                    == instrument@,
            },
    {
        let v = match VenueId::new(venue) {
            Ok(v) => v,
            Err(e) => return Err(e),
        };
        let i = match InstrumentId::new(instrument) {
            Ok(i) => i,
            Err(e) => return Err(e),
        };
        Ok(Self { venue: v, instrument: i })
    }

    /// Structural equality of venue and instrument text.
    pub fn same_as(&self, other: &Self) -> (r: bool)
        ensures
            r == (self.venue@ == other.venue@ && self.instrument@ == other.instrument@),
    {
        self.venue.same_text(&other.venue) && self.instrument.same_text(&other.instrument)
    }
}

/// Integer-normalized order quantity.
#[derive(Debug, Clone, Copy, PartialEq, Eq, PartialOrd, Ord, Default, Hash, Structural)]
pub struct OrderQty(pub i64);

impl OrderQty {
    /// Creates a positive order quantity; fails with `InvalidQuantity` when
    /// `value <= 0`.
    pub fn new(value: i64) -> (r: Result<Self, ExecutionCoreError>)
        ensures
            value <= 0 ==> r == Err::<Self, ExecutionCoreError>(
                ExecutionCoreError::InvalidQuantity,
            ),
            value > 0 ==> r == Ok::<Self, ExecutionCoreError>(OrderQty(value)),
    {
        if value <= 0 {
            return Err(ExecutionCoreError::InvalidQuantity);
        }
        Ok(OrderQty(value))
    }
}

/// Integer-normalized order price.
#[derive(Debug, Clone, Copy, PartialEq, Eq, PartialOrd, Ord, Default, Hash, Structural)]
pub struct OrderPrice(pub i64);

impl OrderPrice {
    /// Creates a positive order price; fails with `InvalidPrice` when
    /// `value <= 0`.
    pub fn new(value: i64) -> (r: Result<Self, ExecutionCoreError>)
        ensures
            value <= 0 ==> r == Err::<Self, ExecutionCoreError>(ExecutionCoreError::InvalidPrice),
            value > 0 ==> r == Ok::<Self, ExecutionCoreError>(OrderPrice(value)),
    {
        if value <= 0 {
            return Err(ExecutionCoreError::InvalidPrice);
        }
        Ok(OrderPrice(value))
    }
}

/// Buy/sell order side.
#[derive(Debug, Clone, Copy, PartialEq, Eq, Hash, Structural)]
pub enum OrderSide {
    /// Buy order.
    Buy,
    /// Sell order.
    Sell,
}

impl OrderSide {
    /// Wire code of the side (buy 1, sell 2).
    pub fn code(self) -> (r: u8)
        ensures
            r == (match self {
                OrderSide::Buy => 1u8,
                OrderSide::Sell => 2u8,
            }),
    {
        match self {
            OrderSide::Buy => 1,
            OrderSide::Sell => 2,
        }
    }
}

/// Supported canonical order types.
#[derive(Debug, Clone, Copy, PartialEq, Eq, Hash, Structural)]
pub enum OrderType {
    /// Market order.
    Market,
    /// Limit order.
    Limit,
    /// Stop order.
    Stop,
    /// Stop-limit order.
    StopLimit,
}

/// Time-in-force policy.
#[derive(Debug, Clone, Copy, PartialEq, Eq, Hash, Structural)]
pub enum TimeInForce {
    /// Day order.
    Day,
    /// Good-till-cancelled order.
    Gtc,
    /// Immediate-or-cancel order.
    Ioc,
    /// Fill-or-kill order.
    Fok,
    /// Good-till-date order.
    Gtd,
}

/// FIX-style canonical order status.
#[derive(Debug, Clone, Copy, PartialEq, Eq, Hash, Structural)]
pub enum OrderStatus {
    /// Local request is pending submission/acknowledgement.
    PendingNew,
    /// Venue accepted the live order.
    New,
    /// Order has at least one fill and remaining leaves quantity.
    PartiallyFilled,
    /// Order is fully filled.
    Filled,
    /// Cancel request is pending.
    PendingCancel,
    /// Order is cancelled.
    Cancelled,
    /// Cancel/replace request is pending.
    PendingReplace,
    /// Order was replaced.
    Replaced,
    /// Order was rejected.
    Rejected,
    /// Order expired.
    Expired,
    /// Order is suspended.
    Suspended,
    /// Order state could not be reconciled.
    Unknown,
}

/// Terminal order statuses: no further venue activity is expected.
pub open spec fn spec_status_terminal(s: OrderStatus) -> bool {
    s == OrderStatus::Filled || s == OrderStatus::Cancelled || s == OrderStatus::Rejected || s
        == OrderStatus::Expired
}

impl OrderStatus {
    /// Returns true when no further venue activity is expected.
    pub fn is_terminal(self) -> (r: bool)
        ensures
            r == spec_status_terminal(self),
    {
        match self {
            OrderStatus::Filled | OrderStatus::Cancelled | OrderStatus::Rejected
            | OrderStatus::Expired => true,
            _ => false,
        }
    }

    /// Wire code of the status (pending-new 1 through unknown 12).
    pub fn code(self) -> (r: u8)
        ensures
            1 <= r <= 12,
            r == spec_order_status_code(self),
    {
        match self {
            OrderStatus::PendingNew => 1,
            OrderStatus::New => 2,
            OrderStatus::PartiallyFilled => 3,
            OrderStatus::Filled => 4,
            OrderStatus::PendingCancel => 5,
            OrderStatus::Cancelled => 6,
            OrderStatus::PendingReplace => 7,
            OrderStatus::Replaced => 8,
            OrderStatus::Rejected => 9,
            OrderStatus::Expired => 10,
            OrderStatus::Suspended => 11,
            OrderStatus::Unknown => 12,
        }
    }
}

/// Wire code of an order status.
pub open spec fn spec_order_status_code(s: OrderStatus) -> u8 {
    match s {
        OrderStatus::PendingNew => 1,
        OrderStatus::New => 2,
        OrderStatus::PartiallyFilled => 3,
        OrderStatus::Filled => 4,
        OrderStatus::PendingCancel => 5,
        OrderStatus::Cancelled => 6,
        OrderStatus::PendingReplace => 7,
        OrderStatus::Replaced => 8,
        OrderStatus::Rejected => 9,
        OrderStatus::Expired => 10,
        OrderStatus::Suspended => 11,
        OrderStatus::Unknown => 12,
    }
}

/// Canonical execution report purpose.
#[derive(Debug, Clone, Copy, PartialEq, Eq, Hash, Structural)]
pub enum ExecutionType {
    /// Order accepted.
    Ack,
    /// Order rejected.
    Reject,
    /// Trade/fill report.
    Trade,
    /// Cancel request accepted or pending.
    CancelPending,
    /// Cancel completed.
    CancelAck,
    /// Cancel request rejected.
    CancelReject,
    /// Replace request accepted or pending.
    ReplacePending,
    /// Replace completed.
    ReplaceAck,
    /// Replace request rejected.
    ReplaceReject,
    /// Order expired.
    Expire,
    /// Status-only report.
    Status,
    /// Recovered or restated state.
    Restated,
    /// Adapter degradation report.
    AdapterDegraded,
}

/// New order request.
#[derive(Debug, Clone, Copy, PartialEq, Eq)]
pub struct OrderRequest {
    /// Client order id.
    pub client_order_id: ClientOrderId,
    /// Trading account.
    pub account_id: AccountId,
    /// Execution route.
    pub route_id: RouteId,
    /// Strategy attribution id.
    pub strategy_id: StrategyId,
    /// Target symbol.
    pub symbol: ExecutionSymbol,
    /// Order side.
    pub side: OrderSide,
    /// Order type.
    pub order_type: OrderType,
    /// Time-in-force.
    pub time_in_force: TimeInForce,
    /// Requested quantity.
    pub quantity: OrderQty,
    /// Limit price, or zero for orders without limit price.
    pub limit_price: OrderPrice,
    /// Stop price, or zero for orders without stop price.
    pub stop_price: OrderPrice,
    /// Exchange/session timestamp in nanoseconds when known.
    pub ts_exchange_ns: u64,
    /// Local receive/create timestamp in nanoseconds.
    pub ts_recv_ns: u64,
}

/// Basic order-shape validation: positive quantity, positive limit price for
/// limit-priced types, positive stop price for stop types.
pub open spec fn spec_validate_shape(
    quantity: OrderQty,
    order_type: OrderType,
    limit_price: OrderPrice,
    stop_price: OrderPrice,
) -> Result<(), ExecutionCoreError> {
    if quantity.0 <= 0 {
        Err(ExecutionCoreError::InvalidQuantity)
    } else if (order_type == OrderType::Limit || order_type == OrderType::StopLimit)
        && limit_price.0 <= 0 {
        Err(ExecutionCoreError::InvalidPrice)
    } else if (order_type == OrderType::Stop || order_type == OrderType::StopLimit)
        && stop_price.0 <= 0 {
        Err(ExecutionCoreError::InvalidPrice)
    } else {
        Ok(())
    }
}

impl OrderRequest {
    /// Validation outcome of this request.
    pub open spec fn spec_validate(&self) -> Result<(), ExecutionCoreError> {
        spec_validate_shape(self.quantity, self.order_type, self.limit_price, self.stop_price)
    }

    /// Validates basic order shape.
    pub fn validate(&self) -> (r: Result<(), ExecutionCoreError>)
        ensures
            r == self.spec_validate(),
    {
        if self.quantity.0 <= 0 {
            return Err(ExecutionCoreError::InvalidQuantity);
        }
        let limit_priced = match self.order_type {
            OrderType::Limit | OrderType::StopLimit => true,
            _ => false,
        };
        let stop_priced = match self.order_type {
            OrderType::Stop | OrderType::StopLimit => true,
            _ => false,
        };
        if limit_priced && self.limit_price.0 <= 0 {
            Err(ExecutionCoreError::InvalidPrice)
        } else if stop_priced && self.stop_price.0 <= 0 {
            Err(ExecutionCoreError::InvalidPrice)
        } else {
            Ok(())
        }
    }
}

/// Cancel request.
#[derive(Debug, Clone, Copy, PartialEq, Eq)]
pub struct CancelRequest {
    /// New client id for the cancel request.
    pub client_order_id: ClientOrderId,
    /// Last accepted client order id being cancelled.
    pub orig_client_order_id: ClientOrderId,
    /// Venue order id when known.
    pub venue_order_id: VenueOrderId,
    /// Trading account.
    pub account_id: AccountId,
    /// Execution route.
    pub route_id: RouteId,
    /// Target symbol.
    pub symbol: ExecutionSymbol,
    /// Local request timestamp in nanoseconds.
    pub ts_recv_ns: u64,
}

/// Amend/cancel-replace request.
#[derive(Debug, Clone, Copy, PartialEq, Eq)]
pub struct AmendRequest {
    /// New client id for the replacement request.
    pub client_order_id: ClientOrderId,
    /// Last accepted client order id being replaced.
    pub orig_client_order_id: ClientOrderId,
    /// Venue order id when known.
    pub venue_order_id: VenueOrderId,
    /// Trading account.
    pub account_id: AccountId,
    /// Execution route.
    pub route_id: RouteId,
    /// Target symbol.
    pub symbol: ExecutionSymbol,
    /// Replacement quantity.
    pub quantity: OrderQty,
    /// Replacement limit price.
    pub limit_price: OrderPrice,
    /// Local request timestamp in nanoseconds.
    pub ts_recv_ns: u64,
}

/// Structured risk rejection reason.
#[derive(Debug, Clone, Copy, PartialEq, Eq, Hash, Structural)]
pub enum RiskRejectReason {
    /// No rejection.
    NoReason,
    /// Kill switch is active.
    KillSwitch,
    /// Account is not enabled.
    AccountDisabled,
    /// Route is not enabled.
    RouteDisabled,
    /// Symbol is not enabled.
    SymbolDisabled,
    /// Quantity exceeds configured max.
    MaxOrderQty,
    /// Notional exceeds configured max.
    MaxOrderNotional,
    /// Open order count exceeds configured max.
    MaxOpenOrders,
    /// Open notional exceeds configured max.
    MaxOpenNotional,
    /// Price is outside configured band.
    PriceBand,
    /// Client order id is already in use.
    DuplicateClientOrderId,
    /// Order type is unsupported on the route.
    UnsupportedOrderType,
    /// Time-in-force is unsupported on the route.
    UnsupportedTimeInForce,
}

/// Canonical execution event.
#[derive(Debug, Clone, Copy, PartialEq, Eq)]
pub struct ExecutionEvent {
    /// Execution report type.
    pub exec_type: ExecutionType,
    /// Current order status after applying the event.
    pub order_status: OrderStatus,
    /// Current client order id.
    pub client_order_id: ClientOrderId,
    /// Original client order id for cancel/replace flows.
    pub orig_client_order_id: ClientOrderId,
    /// Venue order id.
    pub venue_order_id: VenueOrderId,
    /// Execution/fill id.
    pub execution_id: ExecutionId,
    /// Account id.
    pub account_id: AccountId,
    /// Route id.
    pub route_id: RouteId,
    /// Symbol.
    pub symbol: ExecutionSymbol,
    /// Last fill quantity.
    pub last_qty: OrderQty,
    /// Last fill price.
    pub last_price: OrderPrice,
    /// Cumulative filled quantity.
    pub cumulative_qty: OrderQty,
    /// Remaining quantity.
    pub leaves_qty: OrderQty,
    /// Average fill price.
    pub average_price: OrderPrice,
    /// Exchange/session timestamp in nanoseconds.
    pub ts_exchange_ns: u64,
    /// Local receive timestamp in nanoseconds.
    pub ts_recv_ns: u64,
    /// Structured rejection/degradation reason.
    pub reason: RiskRejectReason,
    /// Bounded diagnostic text.
    pub text: ExecutionText,
}

impl ExecutionEvent {
    /// Creates an accepted event from a new order request.
    pub fn accepted(req: &OrderRequest, venue_order_id: VenueOrderId) -> (r: Self)
        ensures
            r.exec_type == ExecutionType::Ack,
            r.order_status == OrderStatus::New,
            r.client_order_id == req.client_order_id,
            r.orig_client_order_id@ == Seq::<char>::empty(),
            r.venue_order_id == venue_order_id,
            r.execution_id@ == Seq::<char>::empty(),
            r.account_id == req.account_id,
            r.route_id == req.route_id,
            r.symbol == req.symbol,
            r.last_qty == OrderQty(0),
            r.last_price == OrderPrice(0),
            r.cumulative_qty == OrderQty(0),
            r.leaves_qty == req.quantity,
            r.average_price == OrderPrice(0),
            r.ts_exchange_ns == req.ts_exchange_ns,
            r.ts_recv_ns == req.ts_recv_ns,
            r.reason == RiskRejectReason::NoReason,
            r.text@ == Seq::<char>::empty(),
    {
        Self {
            exec_type: ExecutionType::Ack,
            order_status: OrderStatus::New,
            client_order_id: req.client_order_id,
            orig_client_order_id: ClientOrderId::empty(),
            venue_order_id,
            execution_id: ExecutionId::empty(),
            account_id: req.account_id,
            route_id: req.route_id,
            symbol: req.symbol,
            last_qty: OrderQty(0),
            last_price: OrderPrice(0),
            cumulative_qty: OrderQty(0),
            leaves_qty: req.quantity,
            average_price: OrderPrice(0),
            ts_exchange_ns: req.ts_exchange_ns,
            ts_recv_ns: req.ts_recv_ns,
            reason: RiskRejectReason::NoReason,
            text: ExecutionText::empty(),
        }
    }

    /// Creates a structured local rejection event from a request.
    pub fn rejected(req: &OrderRequest, reason: RiskRejectReason, text: ExecutionText) -> (r:
        Self)
        ensures
            r.exec_type == ExecutionType::Reject,
            r.order_status == OrderStatus::Rejected,
            r.client_order_id == req.client_order_id,
            r.orig_client_order_id@ == Seq::<char>::empty(),
            r.venue_order_id@ == Seq::<char>::empty(),
            r.execution_id@ == Seq::<char>::empty(),
            r.account_id == req.account_id,
            r.route_id == req.route_id,
            r.symbol == req.symbol,
            r.last_qty == OrderQty(0),
            r.last_price == OrderPrice(0),
            r.cumulative_qty == OrderQty(0),
            r.leaves_qty == req.quantity,
            r.average_price == OrderPrice(0),
            r.ts_exchange_ns == req.ts_exchange_ns,
            r.ts_recv_ns == req.ts_recv_ns,
            r.reason == reason,
            r.text == text,
    {
        Self {
            exec_type: ExecutionType::Reject,
            order_status: OrderStatus::Rejected,
            client_order_id: req.client_order_id,
            orig_client_order_id: ClientOrderId::empty(),
            venue_order_id: VenueOrderId::empty(),
            execution_id: ExecutionId::empty(),
            account_id: req.account_id,
            route_id: req.route_id,
            symbol: req.symbol,
            last_qty: OrderQty(0),
            last_price: OrderPrice(0),
            cumulative_qty: OrderQty(0),
            leaves_qty: req.quantity,
            average_price: OrderPrice(0),
            ts_exchange_ns: req.ts_exchange_ns,
            ts_recv_ns: req.ts_recv_ns,
            reason,
            text,
        }
    }
}

/// Current order state.
#[derive(Debug, Clone, Copy, PartialEq, Eq)]
pub struct OrderState {
    /// Current client order id.
    pub client_order_id: ClientOrderId,
    /// Last accepted client order id.
    pub last_accepted_client_order_id: ClientOrderId,
    /// Venue order id.
    pub venue_order_id: VenueOrderId,
    /// Account id.
    pub account_id: AccountId,
    /// Route id.
    pub route_id: RouteId,
    /// Symbol.
    pub symbol: ExecutionSymbol,
    /// Side.
    pub side: OrderSide,
    /// Current order status.
    pub status: OrderStatus,
    /// Original order quantity.
    pub order_qty: OrderQty,
    /// Cumulative filled quantity.
    pub cumulative_qty: OrderQty,
    /// Remaining quantity.
    pub leaves_qty: OrderQty,
    /// Average fill price.
    pub average_price: OrderPrice,
    /// Last state update timestamp in nanoseconds.
    pub updated_ns: u64,
}

impl OrderState {
    /// Creates local pending-new state from a request.
    pub fn pending_new(req: &OrderRequest) -> (r: Self)
        ensures
            r.client_order_id == req.client_order_id,
            r.last_accepted_client_order_id == req.client_order_id,
            r.venue_order_id@ == Seq::<char>::empty(),
            r.account_id == req.account_id,
            r.route_id == req.route_id,
            r.symbol == req.symbol,
            r.side == req.side,
            r.status == OrderStatus::PendingNew,
            r.order_qty == req.quantity,
            r.cumulative_qty == OrderQty(0),
            r.leaves_qty == req.quantity,
            r.average_price == OrderPrice(0),
            r.updated_ns == req.ts_recv_ns,
    {
        Self {
            client_order_id: req.client_order_id,
            last_accepted_client_order_id: req.client_order_id,
            venue_order_id: VenueOrderId::empty(),
            account_id: req.account_id,
            route_id: req.route_id,
            symbol: req.symbol,
            side: req.side,
            status: OrderStatus::PendingNew,
            order_qty: req.quantity,
            cumulative_qty: OrderQty(0),
            leaves_qty: req.quantity,
            average_price: OrderPrice(0),
            updated_ns: req.ts_recv_ns,
        }
    }
}

/// The state after applying `event` to `s`, or the error that refuses it.
pub open spec fn spec_apply(s: OrderState, e: ExecutionEvent) -> Result<
    OrderState,
    ExecutionCoreError,
> {
    if spec_status_terminal(s.status) && e.exec_type != ExecutionType::Status {
        Err(ExecutionCoreError::InvalidTransition)
    } else {
        match e.exec_type {
            ExecutionType::Ack => if s.status != OrderStatus::PendingNew {
                Err(ExecutionCoreError::InvalidTransition)
            } else {
                Ok(
                    OrderState {
                        status: OrderStatus::New,
                        venue_order_id: e.venue_order_id,
                        leaves_qty: e.leaves_qty,
                        updated_ns: e.ts_recv_ns,
                        ..s
                    },
                )
            },
            ExecutionType::Reject => Ok(spec_apply_terminal(s, e, OrderStatus::Rejected)),
            ExecutionType::Trade => if e.cumulative_qty.0 > s.order_qty.0 {
                Err(ExecutionCoreError::InvalidTransition)
            } else {
                Ok(
                    OrderState {
                        cumulative_qty: e.cumulative_qty,
                        leaves_qty: e.leaves_qty,
                        average_price: e.average_price,
                        status: if e.leaves_qty.0 == 0 {
                            OrderStatus::Filled
                        } else {
                            OrderStatus::PartiallyFilled
                        },
                        updated_ns: e.ts_recv_ns,
                        ..s
                    },
                )
            },
            ExecutionType::CancelPending => spec_apply_pending(s, e, OrderStatus::PendingCancel),
            ExecutionType::CancelAck => Ok(spec_apply_terminal(s, e, OrderStatus::Cancelled)),
            ExecutionType::ReplacePending => spec_apply_pending(s, e, OrderStatus::PendingReplace),
            ExecutionType::ReplaceAck => if s.status != OrderStatus::PendingReplace {
                Err(ExecutionCoreError::InvalidTransition)
            } else {
                Ok(
                    OrderState {
                        client_order_id: e.client_order_id,
                        last_accepted_client_order_id: e.client_order_id,
                        status: OrderStatus::Replaced,
                        order_qty: OrderQty((e.cumulative_qty.0 + e.leaves_qty.0) as i64),
                        cumulative_qty: e.cumulative_qty,
                        leaves_qty: e.leaves_qty,
                        average_price: e.average_price,
                        updated_ns: e.ts_recv_ns,
                        ..s
                    },
                )
            },
            ExecutionType::Expire => Ok(spec_apply_terminal(s, e, OrderStatus::Expired)),
            _ => Ok(spec_apply_status(s, e)),
        }
    }
}

/// Terminal transition: take the fill fields of the event.
pub open spec fn spec_apply_terminal(s: OrderState, e: ExecutionEvent, status: OrderStatus) -> OrderState {
    OrderState {
        status,
        cumulative_qty: e.cumulative_qty,
        leaves_qty: e.leaves_qty,
        average_price: e.average_price,
        updated_ns: e.ts_recv_ns,
        ..s
    }
}

/// Pending transition: refused while another request is pending.
pub open spec fn spec_apply_pending(s: OrderState, e: ExecutionEvent, status: OrderStatus) -> Result<
    OrderState,
    ExecutionCoreError,
> {
    if s.status == OrderStatus::PendingNew || s.status == OrderStatus::PendingCancel || s.status
        == OrderStatus::PendingReplace {
        Err(ExecutionCoreError::InvalidTransition)
    } else {
        Ok(OrderState { status, updated_ns: e.ts_recv_ns, ..s })
    }
}

/// Status-only transition: unknown and suspended statuses are taken, cancel
/// and replace rejections restore the reported status, others only touch the
/// timestamp.
pub open spec fn spec_apply_status(s: OrderState, e: ExecutionEvent) -> OrderState {
    OrderState {
        status: if e.order_status == OrderStatus::Unknown {
            OrderStatus::Unknown
        } else if e.order_status == OrderStatus::Suspended {
            OrderStatus::Suspended
        } else if e.exec_type == ExecutionType::CancelReject || e.exec_type
            == ExecutionType::ReplaceReject {
            e.order_status
        } else {
            s.status
        },
        updated_ns: e.ts_recv_ns,
        ..s
    }
}

/// True when applying `e` to `s` cannot overflow the replacement quantity.
pub open spec fn spec_apply_in_range(s: OrderState, e: ExecutionEvent) -> bool {
    (s.status == OrderStatus::PendingReplace && e.exec_type == ExecutionType::ReplaceAck) ==> (
    i64::MIN <= e.cumulative_qty.0 + e.leaves_qty.0 <= i64::MAX)
}

/// Deterministic order state machine.
#[derive(Debug, Clone, Copy, PartialEq, Eq)]
pub struct OrderStateMachine {
    state: OrderState,
}

impl View for OrderStateMachine {
    type V = OrderState;

    closed spec fn view(&self) -> OrderState {
        self.state
    }
}

impl OrderStateMachine {
    /// Creates a state machine from an order request.
    pub fn new(req: &OrderRequest) -> (r: Self)
        ensures
            spec_is_pending_new(r@, *req),
    {
        Self { state: OrderState::pending_new(req) }
    }

    /// Returns the current order state.
    pub fn state(&self) -> (r: &OrderState)
        ensures
            *r == self@,
    {
        &self.state
    }

    /// Applies an execution event; on error the state is unchanged.
    pub fn apply(&mut self, event: &ExecutionEvent) -> (r: Result<(), ExecutionCoreError>)
        requires
            spec_apply_in_range(old(self)@, *event),
        ensures
            match spec_apply(old(self)@, *event) {
                Ok(next) => r is Ok && final(self)@ == next,
                Err(e) => r == Err::<(), ExecutionCoreError>(e) && final(self)@ == old(self)@,
            },
    {
        if self.state.status.is_terminal() && event.exec_type != ExecutionType::Status {
            return Err(ExecutionCoreError::InvalidTransition);
        }
        match event.exec_type {
            ExecutionType::Ack => {
                if self.state.status != OrderStatus::PendingNew {
                    return Err(ExecutionCoreError::InvalidTransition);
                }
                self.state.status = OrderStatus::New;
                self.state.venue_order_id = event.venue_order_id;
                self.state.leaves_qty = event.leaves_qty;
                self.state.updated_ns = event.ts_recv_ns;
                Ok(())
            },
            ExecutionType::Reject => self.apply_terminal(event, OrderStatus::Rejected),
            ExecutionType::Trade => {
                if event.cumulative_qty.0 > self.state.order_qty.0 {
                    return Err(ExecutionCoreError::InvalidTransition);
                }
                self.state.cumulative_qty = event.cumulative_qty;
                self.state.leaves_qty = event.leaves_qty;
                self.state.average_price = event.average_price;
                self.state.status = if event.leaves_qty.0 == 0 {
                    OrderStatus::Filled
                } else {
                    OrderStatus::PartiallyFilled
                };
                self.state.updated_ns = event.ts_recv_ns;
                Ok(())
            },
            ExecutionType::CancelPending => self.apply_pending(event, OrderStatus::PendingCancel),
            ExecutionType::CancelAck => self.apply_terminal(event, OrderStatus::Cancelled),
            ExecutionType::ReplacePending => self.apply_pending(
                event,
                OrderStatus::PendingReplace,
            ),
            ExecutionType::ReplaceAck => {
                if self.state.status != OrderStatus::PendingReplace {
                    return Err(ExecutionCoreError::InvalidTransition);
                }
                self.state.client_order_id = event.client_order_id;
                self.state.last_accepted_client_order_id = event.client_order_id;
                self.state.status = OrderStatus::Replaced;
                self.state.order_qty = OrderQty(event.cumulative_qty.0 + event.leaves_qty.0);
                self.state.cumulative_qty = event.cumulative_qty;
                self.state.leaves_qty = event.leaves_qty;
                self.state.average_price = event.average_price;
                self.state.updated_ns = event.ts_recv_ns;
                Ok(())
            },
            ExecutionType::Expire => self.apply_terminal(event, OrderStatus::Expired),
            _ => {
                self.apply_status(event);
                Ok(())
            },
        }
    }

    fn apply_terminal(&mut self, event: &ExecutionEvent, status: OrderStatus) -> (r: Result<
        (),
        ExecutionCoreError,
    >)
        ensures
            r is Ok,
            final(self)@ == spec_apply_terminal(old(self)@, *event, status),
    {
        self.state.status = status;
        self.state.cumulative_qty = event.cumulative_qty;
        self.state.leaves_qty = event.leaves_qty;
        self.state.average_price = event.average_price;
        self.state.updated_ns = event.ts_recv_ns;
        Ok(())
    }

    fn apply_pending(&mut self, event: &ExecutionEvent, status: OrderStatus) -> (r: Result<
        (),
        ExecutionCoreError,
    >)
        ensures
            match spec_apply_pending(old(self)@, *event, status) {
                Ok(next) => r is Ok && final(self)@ == next,
                Err(e) => r == Err::<(), ExecutionCoreError>(e) && final(self)@ == old(self)@,
            },
    {
        match self.state.status {
            OrderStatus::PendingNew | OrderStatus::PendingCancel | OrderStatus::PendingReplace => {
                return Err(ExecutionCoreError::InvalidTransition);
            },
            _ => {},
        }
        self.state.status = status;
        self.state.updated_ns = event.ts_recv_ns;
        Ok(())
    }

    fn apply_status(&mut self, event: &ExecutionEvent)
        ensures
            final(self)@ == spec_apply_status(old(self)@, *event),
    {
        if event.order_status == OrderStatus::Unknown {
            self.state.status = OrderStatus::Unknown;
        } else if event.order_status == OrderStatus::Suspended {
            self.state.status = OrderStatus::Suspended;
        } else if event.exec_type == ExecutionType::CancelReject || event.exec_type
            == ExecutionType::ReplaceReject {
            self.state.status = event.order_status;
        }
        self.state.updated_ns = event.ts_recv_ns;
    }
}

/// True when `s` is the pending-new state of `req`.
pub open spec fn spec_is_pending_new(s: OrderState, req: OrderRequest) -> bool {
    &&& s.client_order_id == req.client_order_id
    &&& s.last_accepted_client_order_id == req.client_order_id
    &&& s.venue_order_id@ == Seq::<char>::empty()
    &&& s.account_id == req.account_id
    &&& s.route_id == req.route_id
    &&& s.symbol == req.symbol
    &&& s.side == req.side
    &&& s.status == OrderStatus::PendingNew
    &&& s.order_qty == req.quantity
    &&& s.cumulative_qty == OrderQty(0)
    &&& s.leaves_qty == req.quantity
    &&& s.average_price == OrderPrice(0)
    &&& s.updated_ns == req.ts_recv_ns
}

/// A terminal order (filled, cancelled, rejected or expired) refuses every
/// event but a status report.
pub proof fn law_terminal_orders_refuse_activity(s: OrderState, e: ExecutionEvent)
    requires
        spec_status_terminal(s.status),
        e.exec_type != ExecutionType::Status,
    ensures
        spec_apply(s, e) == Err::<OrderState, ExecutionCoreError>(
            ExecutionCoreError::InvalidTransition,
        ),
{
}

/// An accepted event never changes the order's account, route, symbol or
/// side, and only an acknowledgement changes its venue order id.
pub proof fn law_apply_keeps_order_identity(s: OrderState, e: ExecutionEvent)
    requires
        spec_apply(s, e) is Ok,
    ensures
        spec_apply(s, e)->Ok_0.account_id == s.account_id,
        spec_apply(s, e)->Ok_0.route_id == s.route_id,
        spec_apply(s, e)->Ok_0.symbol == s.symbol,
        spec_apply(s, e)->Ok_0.side == s.side,
        e.exec_type != ExecutionType::Ack ==> spec_apply(s, e)->Ok_0.venue_order_id
            == s.venue_order_id,
{
}

/// An accepted fill never reports more filled quantity than the order has.
pub proof fn law_trade_within_order_qty(s: OrderState, e: ExecutionEvent)
    requires
        e.exec_type == ExecutionType::Trade,
        spec_apply(s, e) is Ok,
    ensures
        spec_apply(s, e)->Ok_0.cumulative_qty.0 <= spec_apply(s, e)->Ok_0.order_qty.0,
        spec_apply(s, e)->Ok_0.order_qty == s.order_qty,
{
}

/// Status reports, restatements, degradations and cancel/replace rejections
/// never change the order's quantities, price or client ids.
pub proof fn law_status_reports_keep_fills(s: OrderState, e: ExecutionEvent)
    requires
        e.exec_type == ExecutionType::Status || e.exec_type == ExecutionType::Restated
            || e.exec_type == ExecutionType::AdapterDegraded || e.exec_type
            == ExecutionType::CancelReject || e.exec_type == ExecutionType::ReplaceReject,
        spec_apply(s, e) is Ok,
    ensures
        spec_apply(s, e)->Ok_0.order_qty == s.order_qty,
        spec_apply(s, e)->Ok_0.cumulative_qty == s.cumulative_qty,
        spec_apply(s, e)->Ok_0.leaves_qty == s.leaves_qty,
        spec_apply(s, e)->Ok_0.average_price == s.average_price,
        spec_apply(s, e)->Ok_0.client_order_id == s.client_order_id,
{
}

/// A replacement keeps what was already filled: acknowledging a pending
/// replace makes the order's quantity the reported filled quantity plus the
/// reported leaves, so the leaves are exactly what remains of the new order
/// quantity after the fills, and a later fill up to that quantity is
/// accepted.
pub proof fn law_replace_ack_counts_prior_fills(s: OrderState, e: ExecutionEvent, t: ExecutionEvent)
    requires
        s.status == OrderStatus::PendingReplace,
        e.exec_type == ExecutionType::ReplaceAck,
        spec_apply_in_range(s, e),
        t.exec_type == ExecutionType::Trade,
        t.cumulative_qty.0 <= e.cumulative_qty.0 + e.leaves_qty.0,
    ensures
        spec_apply(s, e) matches Ok(n) && n.status == OrderStatus::Replaced && n.order_qty.0
            == e.cumulative_qty.0 + e.leaves_qty.0 && n.cumulative_qty == e.cumulative_qty
            && n.leaves_qty.0 == n.order_qty.0 - n.cumulative_qty.0 && spec_apply(n, t) is Ok,
{
}

/// What each event does to a live (not terminal) order. An acknowledgement
/// is accepted only while the order is pending new and makes it `New` with
/// the venue's order id and leaves. A rejection, cancel acknowledgement or
/// expiry always ends the order (`Rejected`, `Cancelled`, `Expired`) with
/// the reported filled and leaves quantities. A fill is accepted exactly
/// when its cumulative quantity does not exceed the order quantity; it
/// takes the reported fills and makes the order `Filled` when nothing is
/// left, else `PartiallyFilled`, keeping the order quantity. A cancel or
/// replace request is accepted exactly when no other request is pending,
/// and only changes the status. A replace acknowledgement is accepted only
/// while a replace is pending.
pub proof fn law_live_order_transitions(s: OrderState, e: ExecutionEvent)
    requires
        !spec_status_terminal(s.status),
        spec_apply_in_range(s, e),
    ensures
        e.exec_type == ExecutionType::Ack ==> ((spec_apply(s, e) is Ok) <==> s.status
            == OrderStatus::PendingNew),
        e.exec_type == ExecutionType::Ack && s.status == OrderStatus::PendingNew ==> spec_apply(
            s,
            e,
        )->Ok_0.status == OrderStatus::New && spec_apply(s, e)->Ok_0.venue_order_id
            == e.venue_order_id && spec_apply(s, e)->Ok_0.leaves_qty == e.leaves_qty,
        e.exec_type == ExecutionType::Reject ==> (spec_apply(s, e) matches Ok(n) && n.status
            == OrderStatus::Rejected && n.cumulative_qty == e.cumulative_qty && n.leaves_qty
            == e.leaves_qty),
        e.exec_type == ExecutionType::CancelAck ==> (spec_apply(s, e) matches Ok(n) && n.status
            == OrderStatus::Cancelled && n.cumulative_qty == e.cumulative_qty && n.leaves_qty
            == e.leaves_qty),
        e.exec_type == ExecutionType::Expire ==> (spec_apply(s, e) matches Ok(n) && n.status
            == OrderStatus::Expired && n.cumulative_qty == e.cumulative_qty && n.leaves_qty
            == e.leaves_qty),
        e.exec_type == ExecutionType::Trade ==> ((spec_apply(s, e) is Ok) <==> e.cumulative_qty.0
            <= s.order_qty.0),
        e.exec_type == ExecutionType::Trade && e.cumulative_qty.0 <= s.order_qty.0 ==> ({
            let n = spec_apply(s, e)->Ok_0;
            &&& n.cumulative_qty == e.cumulative_qty
            &&& n.leaves_qty == e.leaves_qty
            &&& n.average_price == e.average_price
            &&& n.order_qty == s.order_qty
            &&& (n.status == OrderStatus::Filled) == (e.leaves_qty.0 == 0)
            &&& (e.leaves_qty.0 != 0 ==> n.status == OrderStatus::PartiallyFilled)
        }),
        (e.exec_type == ExecutionType::CancelPending || e.exec_type
            == ExecutionType::ReplacePending) ==> ((spec_apply(s, e) is Ok) <==> (s.status
            != OrderStatus::PendingNew && s.status != OrderStatus::PendingCancel && s.status
            != OrderStatus::PendingReplace)),
        e.exec_type == ExecutionType::CancelPending && spec_apply(s, e) is Ok ==> spec_apply(
            s,
            e,
        )->Ok_0.status == OrderStatus::PendingCancel && spec_apply(s, e)->Ok_0.order_qty
            == s.order_qty && spec_apply(s, e)->Ok_0.cumulative_qty == s.cumulative_qty
            && spec_apply(s, e)->Ok_0.leaves_qty == s.leaves_qty,
        e.exec_type == ExecutionType::ReplacePending && spec_apply(s, e) is Ok ==> spec_apply(
            s,
            e,
        )->Ok_0.status == OrderStatus::PendingReplace && spec_apply(s, e)->Ok_0.order_qty
            == s.order_qty && spec_apply(s, e)->Ok_0.cumulative_qty == s.cumulative_qty
            && spec_apply(s, e)->Ok_0.leaves_qty == s.leaves_qty,
        e.exec_type == ExecutionType::ReplaceAck ==> ((spec_apply(s, e) is Ok) <==> s.status
            == OrderStatus::PendingReplace),
{
}

} // verus!
