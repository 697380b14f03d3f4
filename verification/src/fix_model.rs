//! FIX session configuration, normalized report payloads, encode contexts and
//! the error types of the FIX bridge.

use vstd::prelude::*;
use crate::text::{decimal_string, spec_decimal_text};
use crate::ids::{
    spec_ascii_id_error, AccountId, ClientOrderId, ExecutionCoreError, ExecutionId,
    ExecutionText, FixedAscii, RouteId, VenueId, VenueOrderId,
};
use crate::orders::{ExecutionSymbol, OrderPrice, OrderQty, OrderSide, OrderType, TimeInForce};

verus! {

/// A FIX tag number. The tag numbers used by the bridge are the `*_TAG`
/// constants of this module.
#[derive(Debug, Clone, Copy, PartialEq, Eq, Hash, Structural)]
pub struct FixTag(pub u32);

/// `Account(1)`.
pub const ACCOUNT_TAG: u32 = 1;

/// `AvgPx(6)`.
pub const AVG_PX_TAG: u32 = 6;

/// `ClOrdID(11)`.
pub const CL_ORD_ID_TAG: u32 = 11;

/// `CumQty(14)`.
pub const CUM_QTY_TAG: u32 = 14;

/// `ExecID(17)`.
pub const EXEC_ID_TAG: u32 = 17;

/// `LastPx(31)`.
pub const LAST_PX_TAG: u32 = 31;

/// `LastQty(32)`.
pub const LAST_QTY_TAG: u32 = 32;

/// `MsgSeqNum(34)`.
pub const MSG_SEQ_NUM_TAG: u32 = 34;

/// `OrderID(37)`.
pub const ORDER_ID_TAG: u32 = 37;

/// `OrdStatus(39)`.
pub const ORD_STATUS_TAG: u32 = 39;

/// `OrigClOrdID(41)`.
pub const ORIG_CL_ORD_ID_TAG: u32 = 41;

/// `Symbol(55)`.
pub const SYMBOL_TAG: u32 = 55;

/// `Text(58)`.
pub const TEXT_TAG: u32 = 58;

/// `TransactTime(60)`.
pub const TRANSACT_TIME_TAG: u32 = 60;

/// `CxlRejReason(102)`.
pub const CXL_REJ_REASON_TAG: u32 = 102;

/// `ExecType(150)`.
pub const EXEC_TYPE_TAG: u32 = 150;

/// `LeavesQty(151)`.
pub const LEAVES_QTY_TAG: u32 = 151;

/// `CxlRejResponseTo(434)`.
pub const CXL_REJ_RESPONSE_TO_TAG: u32 = 434;

/// FIX sender/target configuration.
#[derive(Debug, Clone, Copy, PartialEq, Eq)]
pub struct FixSessionConfig {
    /// FIX begin string, such as `FIX.4.4`.
    pub begin_string: FixedAscii<16>,
    /// SenderCompID.
    pub sender_comp_id: FixedAscii<32>,
    /// TargetCompID.
    pub target_comp_id: FixedAscii<32>,
    /// Heartbeat interval in seconds.
    pub heartbeat_secs: u16,
}

impl FixSessionConfig {
    /// Creates a FIX session config from ASCII fields; the first field that
    /// is too long or not ASCII, in argument order, gives the error.
    pub fn new(
        begin_string: &str,
        sender_comp_id: &str,
        target_comp_id: &str,
        heartbeat_secs: u16,
    ) -> (r: Result<Self, ExecutionCoreError>)
        ensures
            match (
                spec_ascii_id_error(begin_string, 16),
                spec_ascii_id_error(sender_comp_id, 32),
                spec_ascii_id_error(target_comp_id, 32),
            ) {
                (Some(e), _, _) => r == Err::<Self, ExecutionCoreError>(e),
                (None, Some(e), _) => r == Err::<Self, ExecutionCoreError>(e),
                (None, None, Some(e)) => r == Err::<Self, ExecutionCoreError>(e),
                (None, None, None) => r matches Ok(c) && c.begin_string@ == begin_string@
                    && c.sender_comp_id@ == sender_comp_id@ && c.target_comp_id@
                    == target_comp_id@ && c.heartbeat_secs == heartbeat_secs,
            },
    {
        let begin = match FixedAscii::<16>::new(begin_string) {
            Ok(v) => v,
            Err(e) => return Err(e),
        };
        let sender = match FixedAscii::<32>::new(sender_comp_id) {
            Ok(v) => v,
            Err(e) => return Err(e),
        };
        let target = match FixedAscii::<32>::new(target_comp_id) {
            Ok(v) => v,
            Err(e) => return Err(e),
        };
        Ok(Self {
            begin_string: begin,
            sender_comp_id: sender,
            target_comp_id: target,
            heartbeat_secs,
        })
    }
}

/// FIX ExecType values normalized for mapping.
#[derive(Debug, Clone, Copy, PartialEq, Eq, Structural)]
pub enum FixExecType {
    /// New/accepted.
    New,
    /// Rejected.
    Rejected,
    /// Trade.
    Trade,
    /// Pending cancel.
    PendingCancel,
    /// Canceled.
    Canceled,
    /// Pending replace.
    PendingReplace,
    /// Replaced.
    Replaced,
    /// Expired.
    Expired,
    /// Restated/status.
    Restated,
}

impl FixExecType {
    /// Stable numeric code of the value.
    pub fn code(self) -> (r: u8)
        ensures
            1 <= r <= 9,
            r == match self {
                FixExecType::New => 1u8,
                FixExecType::Rejected => 2,
                FixExecType::Trade => 3,
                FixExecType::PendingCancel => 4,
                FixExecType::Canceled => 5,
                FixExecType::PendingReplace => 6,
                FixExecType::Replaced => 7,
                FixExecType::Expired => 8,
                FixExecType::Restated => 9,
            },
    {
        match self {
            FixExecType::New => 1,
            FixExecType::Rejected => 2,
            FixExecType::Trade => 3,
            FixExecType::PendingCancel => 4,
            FixExecType::Canceled => 5,
            FixExecType::PendingReplace => 6,
            FixExecType::Replaced => 7,
            FixExecType::Expired => 8,
            FixExecType::Restated => 9,
        }
    }
}

/// FIX OrdStatus values normalized for mapping.
#[derive(Debug, Clone, Copy, PartialEq, Eq, Structural)]
pub enum FixOrdStatus {
    /// New.
    New,
    /// Partially filled.
    PartiallyFilled,
    /// Filled.
    Filled,
    /// Done for day.
    DoneForDay,
    /// Canceled.
    Canceled,
    /// Replaced.
    Replaced,
    /// Pending cancel.
    PendingCancel,
    /// Stopped.
    Stopped,
    /// Rejected.
    Rejected,
    /// Suspended.
    Suspended,
    /// Pending new.
    PendingNew,
    /// Expired.
    Expired,
    /// Pending replace.
    PendingReplace,
}

impl FixOrdStatus {
    /// Stable numeric code of the value.
    pub fn code(self) -> (r: u8)
        ensures
            1 <= r <= 13,
            r == match self {
                FixOrdStatus::New => 1u8,
                FixOrdStatus::PartiallyFilled => 2,
                FixOrdStatus::Filled => 3,
                FixOrdStatus::DoneForDay => 4,
                FixOrdStatus::Canceled => 5,
                FixOrdStatus::Replaced => 6,
                FixOrdStatus::PendingCancel => 7,
                FixOrdStatus::Stopped => 8,
                FixOrdStatus::Rejected => 9,
                FixOrdStatus::Suspended => 10,
                FixOrdStatus::PendingNew => 11,
                FixOrdStatus::Expired => 12,
                FixOrdStatus::PendingReplace => 13,
            },
    {
        match self {
            FixOrdStatus::New => 1,
            FixOrdStatus::PartiallyFilled => 2,
            FixOrdStatus::Filled => 3,
            FixOrdStatus::DoneForDay => 4,
            FixOrdStatus::Canceled => 5,
            FixOrdStatus::Replaced => 6,
            FixOrdStatus::PendingCancel => 7,
            FixOrdStatus::Stopped => 8,
            FixOrdStatus::Rejected => 9,
            FixOrdStatus::Suspended => 10,
            FixOrdStatus::PendingNew => 11,
            FixOrdStatus::Expired => 12,
            FixOrdStatus::PendingReplace => 13,
        }
    }
}

/// FIX CxlRejResponseTo values normalized for mapping.
#[derive(Debug, Clone, Copy, PartialEq, Eq, Structural)]
pub enum FixCancelRejectResponseTo {
    /// Response to OrderCancelRequest `<F>`.
    OrderCancelRequest,
    /// Response to OrderCancelReplaceRequest `<G>`.
    OrderCancelReplaceRequest,
}

impl FixCancelRejectResponseTo {
    /// Stable numeric code of the value.
    pub fn code(self) -> (r: u8)
        ensures
            r == match self {
                FixCancelRejectResponseTo::OrderCancelRequest => 1u8,
                FixCancelRejectResponseTo::OrderCancelReplaceRequest => 2,
            },
    {
        match self {
            FixCancelRejectResponseTo::OrderCancelRequest => 1,
            FixCancelRejectResponseTo::OrderCancelReplaceRequest => 2,
        }
    }
}

/// Minimal FIX execution-report payload after transport parsing.
#[derive(Debug, Clone, Copy, PartialEq, Eq)]
pub struct FixExecutionReport {
    /// ExecType value.
    pub exec_type: FixExecType,
    /// OrdStatus value.
    pub ord_status: FixOrdStatus,
    /// ClOrdID.
    pub cl_ord_id: ClientOrderId,
    /// OrigClOrdID.
    pub orig_cl_ord_id: ClientOrderId,
    /// OrderID.
    pub order_id: VenueOrderId,
    /// ExecID.
    pub exec_id: ExecutionId,
    /// Account.
    pub account_id: AccountId,
    /// Route id associated with the session.
    pub route_id: RouteId,
    /// Symbol.
    pub symbol: ExecutionSymbol,
    /// LastQty.
    pub last_qty: OrderQty,
    /// LastPx.
    pub last_price: OrderPrice,
    /// CumQty.
    pub cumulative_qty: OrderQty,
    /// LeavesQty.
    pub leaves_qty: OrderQty,
    /// AvgPx.
    pub average_price: OrderPrice,
    /// TransactTime in nanoseconds when available.
    pub ts_exchange_ns: u64,
    /// Local receive timestamp in nanoseconds.
    pub ts_recv_ns: u64,
    /// Text.
    pub text: ExecutionText,
}

/// Minimal FIX OrderCancelReject payload after transport parsing.
#[derive(Debug, Clone, Copy, PartialEq, Eq)]
pub struct FixOrderCancelReject {
    /// Cancel-reject response target.
    pub response_to: FixCancelRejectResponseTo,
    /// Current order status reported by the venue.
    pub ord_status: FixOrdStatus,
    /// ClOrdID of the rejected cancel or replace request.
    pub cl_ord_id: ClientOrderId,
    /// OrigClOrdID identifying the order that was being cancelled/replaced.
    pub orig_cl_ord_id: ClientOrderId,
    /// Venue order id when provided.
    pub order_id: VenueOrderId,
    /// Account.
    pub account_id: AccountId,
    /// Route id associated with the session.
    pub route_id: RouteId,
    /// Symbol when provided by the counterparty.
    pub symbol: ExecutionSymbol,
    /// Raw CxlRejReason(102) value when provided.
    pub cxl_rej_reason: u64,
    /// TransactTime in nanoseconds when available.
    pub ts_exchange_ns: u64,
    /// Local receive timestamp in nanoseconds.
    pub ts_recv_ns: u64,
    /// Text.
    pub text: ExecutionText,
}

/// A scale clamped to at least one.
pub open spec fn spec_clamp_scale(scale: i64) -> i64 {
    if scale < 1 {
        1
    } else {
        scale
    }
}

/// Context required to map raw FIX execution reports into canonical OMS fields.
#[derive(Debug, Clone, Copy, PartialEq, Eq)]
pub struct FixReportParseConfig {
    /// Default account used when `Account(1)` is absent.
    pub account_id: AccountId,
    /// Route associated with this FIX session.
    pub route_id: RouteId,
    /// Venue/exchange identifier assigned to parsed `Symbol(55)` values.
    pub venue: VenueId,
    /// Decimal scale for quantity fields. For example, `100` maps `1.25` to
    /// `OrderQty(125)`.
    pub quantity_scale: i64,
    /// Decimal scale for price fields. For example, `10` maps `65000.5` to
    /// `OrderPrice(650005)`.
    pub price_scale: i64,
}

impl FixReportParseConfig {
    /// Creates a parse config with unit quantity and price scales.
    pub fn new(account_id: AccountId, route_id: RouteId, venue: VenueId) -> (r: Self)
        ensures
            r == (Self { account_id, route_id, venue, quantity_scale: 1, price_scale: 1 }),
    {
        Self { account_id, route_id, venue, quantity_scale: 1, price_scale: 1 }
    }

    /// Sets the quantity scale. Values lower than one are clamped to one.
    pub fn with_quantity_scale(self, quantity_scale: i64) -> (r: Self)
        ensures
            r == (Self { quantity_scale: spec_clamp_scale(quantity_scale), ..self }),
    {
        let mut out = self;
        out.quantity_scale = if quantity_scale < 1 {
            1
        } else {
            quantity_scale
        };
        out
    }

    /// Sets the price scale. Values lower than one are clamped to one.
    pub fn with_price_scale(self, price_scale: i64) -> (r: Self)
        ensures
            r == (Self { price_scale: spec_clamp_scale(price_scale), ..self }),
    {
        let mut out = self;
        out.price_scale = if price_scale < 1 {
            1
        } else {
            price_scale
        };
        out
    }
}

/// Context required to encode canonical OMS requests as FIX order-entry frames.
#[derive(Debug, Clone, Copy, PartialEq, Eq, Structural)]
pub struct FixRequestEncodeConfig {
    /// Decimal scale for quantity fields. For example, `100` maps
    /// `OrderQty(125)` to `1.25`.
    pub quantity_scale: i64,
    /// Decimal scale for price fields. For example, `10` maps
    /// `OrderPrice(650005)` to `65000.5`.
    pub price_scale: i64,
}

impl FixRequestEncodeConfig {
    /// Creates a request encode config with unit quantity and price scales.
    pub fn new() -> (r: Self)
        ensures
            r == (Self { quantity_scale: 1, price_scale: 1 }),
    {
        Self { quantity_scale: 1, price_scale: 1 }
    }

    /// Sets the quantity scale. Values lower than one are clamped to one.
    pub fn with_quantity_scale(self, quantity_scale: i64) -> (r: Self)
        ensures
            r == (Self { quantity_scale: spec_clamp_scale(quantity_scale), ..self }),
    {
        let mut out = self;
        out.quantity_scale = if quantity_scale < 1 {
            1
        } else {
            quantity_scale
        };
        out
    }

    /// Sets the price scale. Values lower than one are clamped to one.
    pub fn with_price_scale(self, price_scale: i64) -> (r: Self)
        ensures
            r == (Self { price_scale: spec_clamp_scale(price_scale), ..self }),
    {
        let mut out = self;
        out.price_scale = if price_scale < 1 {
            1
        } else {
            price_scale
        };
        out
    }
}

impl Default for FixRequestEncodeConfig {
    fn default() -> (r: Self)
        ensures
            r == (Self { quantity_scale: 1, price_scale: 1 }),
    {
        Self::new()
    }
}

/// Extra fields required to encode a canonical cancel request as FIX.
#[derive(Debug, Clone, Copy, PartialEq, Eq)]
pub struct FixCancelEncodeContext<'a> {
    /// Side of the original order.
    pub side: OrderSide,
    /// FIX wire-format `TransactTime(60)` bytes.
    pub transact_time: &'a [u8],
}

impl<'a> FixCancelEncodeContext<'a> {
    /// Creates cancel encode context.
    pub fn new(side: OrderSide, transact_time: &'a [u8]) -> (r: Self)
        ensures
            r.side == side,
            r.transact_time@ == transact_time@,
    {
        Self { side, transact_time }
    }
}

/// Extra fields required to encode a canonical amend request as FIX.
#[derive(Debug, Clone, Copy, PartialEq, Eq)]
pub struct FixAmendEncodeContext<'a> {
    /// Side of the original order.
    pub side: OrderSide,
    /// Replacement FIX order type.
    pub order_type: OrderType,
    /// Replacement time-in-force.
    pub time_in_force: TimeInForce,
    /// FIX wire-format `TransactTime(60)` bytes.
    pub transact_time: &'a [u8],
}

impl<'a> FixAmendEncodeContext<'a> {
    /// Creates amend encode context.
    pub fn new(
        side: OrderSide,
        order_type: OrderType,
        time_in_force: TimeInForce,
        transact_time: &'a [u8],
    ) -> (r: Self)
        ensures
            r.side == side,
            r.order_type == order_type,
            r.time_in_force == time_in_force,
            r.transact_time@ == transact_time@,
    {
        Self { side, order_type, time_in_force, transact_time }
    }
}

/// Extra fields required to encode a stop/stop-limit amend request as FIX.
#[derive(Debug, Clone, Copy, PartialEq, Eq)]
pub struct FixStopAmendEncodeContext<'a> {
    /// Side of the original order.
    pub side: OrderSide,
    /// Replacement FIX order type. Must be stop or stop-limit.
    pub order_type: OrderType,
    /// Replacement time-in-force.
    pub time_in_force: TimeInForce,
    /// Replacement stop price.
    pub stop_price: OrderPrice,
    /// FIX wire-format `TransactTime(60)` bytes.
    pub transact_time: &'a [u8],
}

impl<'a> FixStopAmendEncodeContext<'a> {
    /// Creates stop-amend encode context.
    pub fn new(
        side: OrderSide,
        order_type: OrderType,
        time_in_force: TimeInForce,
        stop_price: OrderPrice,
        transact_time: &'a [u8],
    ) -> (r: Self)
        ensures
            r.side == side,
            r.order_type == order_type,
            r.time_in_force == time_in_force,
            r.stop_price == stop_price,
            r.transact_time@ == transact_time@,
    {
        Self { side, order_type, time_in_force, stop_price, transact_time }
    }
}

/// Errors returned while preparing canonical OMS requests as FIX frames.
#[derive(Debug, Clone, Copy, PartialEq, Eq, Structural)]
pub enum FixRequestEncodeError {
    /// Quantity scale or price scale is not a positive power of ten.
    InvalidScale,
    /// Quantity must be positive.
    InvalidQuantity,
    /// Price must be positive for this order type.
    InvalidPrice,
    /// The canonical order type needs fields this bridge does not encode yet.
    UnsupportedOrderType,
}

impl FixRequestEncodeError {
    /// The human-readable description of the error.
    pub open spec fn spec_text(&self) -> Seq<char> {
        match self {
            FixRequestEncodeError::InvalidScale => "FIX request encode scale must be a power of ten"@,
            FixRequestEncodeError::InvalidQuantity => "FIX request quantity must be positive"@,
            FixRequestEncodeError::InvalidPrice => "FIX request price must be positive"@,
            FixRequestEncodeError::UnsupportedOrderType =>
                "FIX request order type requires fields not encoded by this bridge"@,
        }
    }

    /// Renders the human-readable description of the error.
    pub fn to_string(&self) -> (r: String)
        ensures
            r@ == self.spec_text(),
    {
        match self {
            FixRequestEncodeError::InvalidScale => String::from_str(
                "FIX request encode scale must be a power of ten",
            ),
            FixRequestEncodeError::InvalidQuantity => String::from_str(
                "FIX request quantity must be positive",
            ),
            FixRequestEncodeError::InvalidPrice => String::from_str(
                "FIX request price must be positive",
            ),
            FixRequestEncodeError::UnsupportedOrderType => String::from_str(
                "FIX request order type requires fields not encoded by this bridge",
            ),
        }
    }
}

/// Errors returned while converting a parsed FIX report.
#[derive(Debug, Clone, Copy, PartialEq, Eq, Structural)]
pub enum FixReportParseError {
    /// The message does not have the expected message type.
    InvalidMsgType,
    /// A required tag is missing.
    MissingTag(FixTag),
    /// `ExecType(150)` is not supported by the mapper.
    InvalidExecType,
    /// `OrdStatus(39)` is not supported by the mapper.
    InvalidOrdStatus,
    /// `CxlRejResponseTo(434)` is not supported by the mapper.
    InvalidCancelRejectResponseTo,
    /// A fixed ASCII canonical field could not be built from this tag.
    InvalidAscii {
        /// Source FIX tag.
        tag: FixTag,
        /// Underlying execution-core validation error.
        source: ExecutionCoreError,
    },
    /// A numeric field could not be parsed or scaled.
    InvalidNumber(FixTag),
}

impl FixReportParseError {
    /// The human-readable description of the error; a tag reads as its
    /// number.
    pub open spec fn spec_text(&self) -> Seq<char> {
        match self {
            FixReportParseError::InvalidMsgType => "FIX message is not an ExecutionReport(35=8)"@,
            FixReportParseError::MissingTag(tag) => "FIX execution report is missing tag "@
                + spec_decimal_text(tag.0 as nat),
            FixReportParseError::InvalidExecType => "FIX ExecType(150) is unsupported"@,
            FixReportParseError::InvalidOrdStatus => "FIX OrdStatus(39) is unsupported"@,
            FixReportParseError::InvalidCancelRejectResponseTo =>
                "FIX CxlRejResponseTo(434) is unsupported"@,
            FixReportParseError::InvalidAscii { tag, source } => "FIX tag "@ + spec_decimal_text(
                tag.0 as nat,
            ) + " cannot be converted to fixed ASCII: "@ + source.spec_text(),
            FixReportParseError::InvalidNumber(tag) => "FIX numeric tag "@ + spec_decimal_text(
                tag.0 as nat,
            ) + " is invalid"@,
        }
    }

    /// Renders the human-readable description of the error.
    pub fn to_string(&self) -> (r: String)
        ensures
            r@ == self.spec_text(),
    {
        match self {
            FixReportParseError::InvalidMsgType => String::from_str(
                "FIX message is not an ExecutionReport(35=8)",
            ),
            FixReportParseError::MissingTag(tag) => {
                let digits = decimal_string(tag.0 as u64);
                String::from_str("FIX execution report is missing tag ").concat(digits.as_str())
            },
            FixReportParseError::InvalidExecType => String::from_str(
                "FIX ExecType(150) is unsupported",
            ),
            FixReportParseError::InvalidOrdStatus => String::from_str(
                "FIX OrdStatus(39) is unsupported",
            ),
            FixReportParseError::InvalidCancelRejectResponseTo => String::from_str(
                "FIX CxlRejResponseTo(434) is unsupported",
            ),
            FixReportParseError::InvalidAscii { tag, source } => {
                let digits = decimal_string(tag.0 as u64);
                let cause = source.to_string();
                String::from_str("FIX tag ").concat(digits.as_str()).concat(
                    " cannot be converted to fixed ASCII: ",
                ).concat(cause.as_str())
            },
            FixReportParseError::InvalidNumber(tag) => {
                let digits = decimal_string(tag.0 as u64);
                String::from_str("FIX numeric tag ").concat(digits.as_str()).concat(" is invalid")
            },
        }
    }
}

/// One tag/value field of a FIX message.
#[derive(Debug, Clone, PartialEq, Eq)]
pub struct FixField {
    /// Tag number.
    pub tag: u32,
    /// Raw value bytes.
    pub value: Vec<u8>,
}

/// The message type and fields of one validated FIX message, in wire order.
#[derive(Debug, Clone, PartialEq, Eq)]
pub struct FixMessageFields {
    /// `MsgType(35)` value when present.
    pub msg_type: Option<Vec<u8>>,
    /// Body fields in wire order.
    pub fields: Vec<FixField>,
}

/// The value of the first field of `fields` with tag `tag`.
pub open spec fn spec_field_value(fields: Seq<FixField>, tag: u32) -> Option<Seq<u8>>
    decreases fields.len(),
{
    if fields.len() == 0 {
        None
    } else if fields[0].tag == tag {
        Some(fields[0].value@)
    } else {
        spec_field_value(fields.drop_first(), tag)
    }
}

impl FixMessageFields {
    /// The `MsgType(35)` bytes, if present.
    pub open spec fn spec_msg_type(&self) -> Option<Seq<u8>> {
        match self.msg_type {
            Some(v) => Some(v@),
            None => None,
        }
    }

    /// The value of the first field with `tag`.
    pub open spec fn spec_get(&self, tag: FixTag) -> Option<Seq<u8>> {
        spec_field_value(self.fields@, tag.0)
    }

    /// Creates a message from its type and fields.
    pub fn new(msg_type: Option<Vec<u8>>, fields: Vec<FixField>) -> (r: Self)
        ensures
            r.msg_type == msg_type,
            r.fields == fields,
    {
        Self { msg_type, fields }
    }

    /// Returns the `MsgType(35)` bytes, if present.
    pub fn msg_type(&self) -> (r: Option<&[u8]>)
        ensures
            match r {
                Some(v) => self.spec_msg_type() == Some(v@),
                None => self.spec_msg_type() is None,
            },
    {
        match &self.msg_type {
            Some(v) => Some(v.as_slice()),
            None => None,
        }
    }

    /// Returns the value of the first field with `tag`.
    pub fn get(&self, tag: FixTag) -> (r: Option<&[u8]>)
        ensures
            match r {
                Some(v) => self.spec_get(tag) == Some(v@),
                None => self.spec_get(tag) is None,
            },
    {
        let mut i: usize = 0;
        assert(self.fields@.skip(0) =~= self.fields@);
        while i < self.fields.len()
            invariant
                i <= self.fields@.len(),
                spec_field_value(self.fields@, tag.0) == spec_field_value(
                    self.fields@.skip(i as int),
                    tag.0,
                ),
            decreases self.fields@.len() - i,
        {
            assert(self.fields@.skip(i as int).drop_first() =~= self.fields@.skip(i + 1));
            if self.fields[i].tag == tag.0 {
                return Some(self.fields[i].value.as_slice());
            }
            i = i + 1;
        }
        assert(self.fields@.skip(i as int).len() == 0);
        None
    }
}

/// FIX `Side(54)` values used by order entry.
#[derive(Debug, Clone, Copy, PartialEq, Eq, Structural)]
pub enum FixOrderSide {
    /// `1`: buy.
    Buy,
    /// `2`: sell.
    Sell,
}

impl FixOrderSide {
    /// The wire value of the side.
    pub fn wire_value(self) -> (r: u8)
        ensures
            r == match self {
                FixOrderSide::Buy => 49u8,
                FixOrderSide::Sell => 50u8,
            },
    {
        match self {
            FixOrderSide::Buy => 49,
            FixOrderSide::Sell => 50,
        }
    }
}

/// FIX `OrdType(40)` values used by order entry.
#[derive(Debug, Clone, Copy, PartialEq, Eq, Structural)]
pub enum FixOrdType {
    /// `1`: market.
    Market,
    /// `2`: limit.
    Limit,
    /// `3`: stop.
    Stop,
    /// `4`: stop limit.
    StopLimit,
}

impl FixOrdType {
    /// The wire value of the order type.
    pub fn wire_value(self) -> (r: u8)
        ensures
            r == match self {
                FixOrdType::Market => 49u8,
                FixOrdType::Limit => 50u8,
                FixOrdType::Stop => 51u8,
                FixOrdType::StopLimit => 52u8,
            },
    {
        match self {
            FixOrdType::Market => 49,
            FixOrdType::Limit => 50,
            FixOrdType::Stop => 51,
            FixOrdType::StopLimit => 52,
        }
    }
}

/// FIX `TimeInForce(59)` values used by order entry.
#[derive(Debug, Clone, Copy, PartialEq, Eq, Structural)]
pub enum FixTimeInForce {
    /// `0`: day.
    Day,
    /// `1`: good till cancel.
    GoodTillCancel,
    /// `3`: immediate or cancel.
    ImmediateOrCancel,
    /// `4`: fill or kill.
    FillOrKill,
    /// `6`: good till date.
    GoodTillDate,
}

impl FixTimeInForce {
    /// The wire value of the time in force.
    pub fn wire_value(self) -> (r: u8)
        ensures
            r == match self {
                FixTimeInForce::Day => 48u8,
                FixTimeInForce::GoodTillCancel => 49u8,
                FixTimeInForce::ImmediateOrCancel => 51u8,
                FixTimeInForce::FillOrKill => 52u8,
                FixTimeInForce::GoodTillDate => 54u8,
            },
    {
        match self {
            FixTimeInForce::Day => 48,
            FixTimeInForce::GoodTillCancel => 49,
            FixTimeInForce::ImmediateOrCancel => 51,
            FixTimeInForce::FillOrKill => 52,
            FixTimeInForce::GoodTillDate => 54,
        }
    }
}

/// The application fields of a FIX NewOrderSingle `<D>`, ready for the
/// session layer to frame.
#[derive(Debug, Clone, PartialEq, Eq)]
pub struct FixNewOrderSingleFields {
    /// `ClOrdID(11)`.
    pub cl_ord_id: Vec<u8>,
    /// `Symbol(55)`.
    pub symbol: Vec<u8>,
    /// `Side(54)`.
    pub side: FixOrderSide,
    /// `TransactTime(60)`.
    pub transact_time: Vec<u8>,
    /// `OrderQty(38)`, decimal text.
    pub order_qty: Vec<u8>,
    /// `OrdType(40)`.
    pub ord_type: FixOrdType,
    /// `Account(1)`.
    pub account: Vec<u8>,
    /// `TimeInForce(59)`.
    pub time_in_force: FixTimeInForce,
    /// `Price(44)`, decimal text, when the order type carries one.
    pub price: Option<Vec<u8>>,
    /// `StopPx(99)`, decimal text, when the order type carries one.
    pub stop_px: Option<Vec<u8>>,
}

/// The application fields of a FIX OrderCancelRequest `<F>`.
#[derive(Debug, Clone, PartialEq, Eq)]
pub struct FixOrderCancelFields {
    /// `OrigClOrdID(41)`.
    pub orig_cl_ord_id: Vec<u8>,
    /// `ClOrdID(11)`.
    pub cl_ord_id: Vec<u8>,
    /// `Symbol(55)`.
    pub symbol: Vec<u8>,
    /// `Side(54)`.
    pub side: FixOrderSide,
    /// `TransactTime(60)`.
    pub transact_time: Vec<u8>,
    /// `Account(1)`.
    pub account: Vec<u8>,
}

/// The application fields of a FIX OrderCancelReplaceRequest `<G>`.
#[derive(Debug, Clone, PartialEq, Eq)]
pub struct FixOrderCancelReplaceFields {
    /// `OrigClOrdID(41)`.
    pub orig_cl_ord_id: Vec<u8>,
    /// `ClOrdID(11)`.
    pub cl_ord_id: Vec<u8>,
    /// `Symbol(55)`.
    pub symbol: Vec<u8>,
    /// `Side(54)`.
    pub side: FixOrderSide,
    /// `TransactTime(60)`.
    pub transact_time: Vec<u8>,
    /// `OrderQty(38)`, decimal text.
    pub order_qty: Vec<u8>,
    /// `OrdType(40)`.
    pub ord_type: FixOrdType,
    /// `Account(1)`.
    pub account: Vec<u8>,
    /// `TimeInForce(59)`.
    pub time_in_force: FixTimeInForce,
    /// `Price(44)`, decimal text, when the order type carries one.
    pub price: Option<Vec<u8>>,
    /// `StopPx(99)`, decimal text, when the order type carries one.
    pub stop_px: Option<Vec<u8>>,
}

} // verus!
