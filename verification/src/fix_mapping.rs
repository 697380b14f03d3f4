//! Mapping between FIX application messages and canonical OMS values:
//! report parsing, order-entry field preparation and event mapping.

use vstd::prelude::*;
use crate::fix_model::{
    FixAmendEncodeContext, FixCancelEncodeContext, FixCancelRejectResponseTo, FixExecType,
    FixOrdStatus,
    FixExecutionReport, FixMessageFields, FixNewOrderSingleFields, FixOrderCancelFields,
    FixOrderCancelReject, FixOrderCancelReplaceFields, FixReportParseConfig,
    FixReportParseError, FixRequestEncodeConfig, FixRequestEncodeError,
    FixStopAmendEncodeContext, FixTag, ACCOUNT_TAG, AVG_PX_TAG, CL_ORD_ID_TAG, CUM_QTY_TAG,
    CXL_REJ_REASON_TAG, CXL_REJ_RESPONSE_TO_TAG, EXEC_ID_TAG, EXEC_TYPE_TAG, LAST_PX_TAG,
    LAST_QTY_TAG, LEAVES_QTY_TAG, ORDER_ID_TAG, ORD_STATUS_TAG, ORIG_CL_ORD_ID_TAG, SYMBOL_TAG,
    TEXT_TAG, TRANSACT_TIME_TAG,
};
use crate::fix_support::{
    encode_order_price, encode_order_stop_price, encode_scaled, fixed_from_bytes,
    fixed_optional, fixed_required, map_exec_type, map_order_type_to_fix, map_ord_status,
    map_side_to_fix, map_tif_to_fix, parse_cancel_reject_response_to, parse_exec_type,
    parse_optional_scaled, parse_optional_u64, parse_ord_status, required, spec_encode_order_price,
    spec_encode_order_stop_price, spec_encode_scaled, spec_fixed_from_bytes, spec_fixed_optional,
    spec_fixed_required, spec_map_exec_type, spec_map_order_type_to_fix, spec_map_ord_status,
    spec_map_side_to_fix, spec_map_tif_to_fix, spec_opt_bytes, spec_parse_cancel_reject_response_to,
    spec_parse_exec_type, spec_parse_optional_scaled, spec_parse_optional_u64,
    spec_parse_ord_status, spec_required, ScaledField,
};
use crate::ids::{AccountId, ExecutionId, ExecutionText, FixedAscii, InstrumentId};
use crate::orders::{
    spec_apply, spec_status_terminal, AmendRequest, CancelRequest, ExecutionEvent,
    ExecutionSymbol, ExecutionType, OrderPrice, OrderQty, OrderRequest, OrderSide, OrderState,
    OrderStatus, OrderType, RiskRejectReason, TimeInForce,
};

verus! {

/// The account of a report: its `Account(1)` field when present, else the
/// configured default.
pub open spec fn spec_report_account(message: FixMessageFields, config: FixReportParseConfig) -> Result<
    AccountId,
    FixReportParseError,
> {
    match message.spec_get(FixTag(ACCOUNT_TAG)) {
        Some(a) => spec_fixed_from_bytes::<32>(FixTag(ACCOUNT_TAG), a),
        None => Ok(config.account_id),
    }
}

/// The numeric fields of an execution report, in field order: last qty,
/// last price, cumulative qty, leaves qty, average price, transact time.
pub open spec fn spec_report_numbers(message: FixMessageFields, config: FixReportParseConfig) -> Result<
    (i64, i64, i64, i64, i64, u64),
    FixReportParseError,
> {
    match spec_parse_optional_scaled(message, FixTag(LAST_QTY_TAG), config.quantity_scale) {
        Err(e) => Err(e),
        Ok(last_qty) => match spec_parse_optional_scaled(
            message,
            FixTag(LAST_PX_TAG),
            config.price_scale,
        ) {
            Err(e) => Err(e),
            Ok(last_px) => match spec_parse_optional_scaled(
                message,
                FixTag(CUM_QTY_TAG),
                config.quantity_scale,
            ) {
                Err(e) => Err(e),
                Ok(cum_qty) => match spec_parse_optional_scaled(
                    message,
                    FixTag(LEAVES_QTY_TAG),
                    config.quantity_scale,
                ) {
                    Err(e) => Err(e),
                    Ok(leaves_qty) => match spec_parse_optional_scaled(
                        message,
                        FixTag(AVG_PX_TAG),
                        config.price_scale,
                    ) {
                        Err(e) => Err(e),
                        Ok(avg_px) => match spec_parse_optional_u64(
                            message,
                            FixTag(TRANSACT_TIME_TAG),
                        ) {
                            Err(e) => Err(e),
                            Ok(ts) => Ok((last_qty, last_px, cum_qty, leaves_qty, avg_px, ts)),
                        },
                    },
                },
            },
        },
    }
}

/// The identifier fields of an execution report, in field order: ClOrdID,
/// OrigClOrdID, OrderID, ExecID, account, symbol.
pub open spec fn spec_report_ids(message: FixMessageFields, config: FixReportParseConfig) -> Result<
    (FixedAscii<40>, FixedAscii<40>, FixedAscii<48>, FixedAscii<48>, AccountId, InstrumentId),
    FixReportParseError,
> {
    match spec_fixed_required::<40>(message, FixTag(CL_ORD_ID_TAG)) {
        Err(e) => Err(e),
        Ok(cl) => match spec_fixed_optional::<40>(message, FixTag(ORIG_CL_ORD_ID_TAG)) {
            Err(e) => Err(e),
            Ok(orig) => match spec_fixed_required::<48>(message, FixTag(ORDER_ID_TAG)) {
                Err(e) => Err(e),
                Ok(order_id) => match spec_fixed_required::<48>(message, FixTag(EXEC_ID_TAG)) {
                    Err(e) => Err(e),
                    Ok(exec_id) => match spec_report_account(message, config) {
                        Err(e) => Err(e),
                        Ok(account) => match spec_fixed_required::<32>(
                            message,
                            FixTag(SYMBOL_TAG),
                        ) {
                            Err(e) => Err(e),
                            Ok(instrument) => Ok(
                                (cl, orig, order_id, exec_id, account, instrument),
                            ),
                        },
                    },
                },
            },
        },
    }
}

/// The normalized execution report of `message`, or the first error met in
/// field order: message type `8`, ExecType, OrdStatus, identifiers, numeric
/// fields, then Text.
pub open spec fn spec_parse_execution_report(
    message: FixMessageFields,
    config: FixReportParseConfig,
    ts_recv_ns: u64,
) -> Result<FixExecutionReport, FixReportParseError> {
    if message.spec_msg_type() != Some(seq![56u8]) {
        Err(FixReportParseError::InvalidMsgType)
    } else {
        match spec_required(message, FixTag(EXEC_TYPE_TAG)) {
            Err(e) => Err(e),
            Ok(et) => match spec_parse_exec_type(et) {
                Err(e) => Err(e),
                Ok(exec_type) => match spec_required(message, FixTag(ORD_STATUS_TAG)) {
                    Err(e) => Err(e),
                    Ok(os) => match spec_parse_ord_status(os) {
                        Err(e) => Err(e),
                        Ok(ord_status) => match spec_report_ids(message, config) {
                            Err(e) => Err(e),
                            Ok((cl, orig, order_id, exec_id, account, instrument)) => match spec_report_numbers(
                                message,
                                config,
                            ) {
                                Err(e) => Err(e),
                                Ok((lq, lp, cq, lv, ap, ts)) => match spec_fixed_optional::<128>(
                                    message,
                                    FixTag(TEXT_TAG),
                                ) {
                                    Err(e) => Err(e),
                                    Ok(text) => Ok(
                                        FixExecutionReport {
                                            exec_type,
                                            ord_status,
                                            cl_ord_id: cl,
                                            orig_cl_ord_id: orig,
                                            order_id,
                                            exec_id,
                                            account_id: account,
                                            route_id: config.route_id,
                                            symbol: ExecutionSymbol {
                                                venue: config.venue,
                                                instrument,
                                            },
                                            last_qty: OrderQty(lq),
                                            last_price: OrderPrice(lp),
                                            cumulative_qty: OrderQty(cq),
                                            leaves_qty: OrderQty(lv),
                                            average_price: OrderPrice(ap),
                                            ts_exchange_ns: ts,
                                            ts_recv_ns,
                                            text,
                                        },
                                    ),
                                },
                            },
                        },
                    },
                },
            },
        }
    }
}

/// Parses a validated FIX `ExecutionReport(35=8)` into a normalized report;
/// see [`spec_parse_execution_report`]. Quantity and price fields are scaled
/// by the configured scales.
pub fn parse_execution_report(
    message: &FixMessageFields,
    config: FixReportParseConfig,
    ts_recv_ns: u64,
) -> (r: Result<FixExecutionReport, FixReportParseError>)
    ensures
        r == spec_parse_execution_report(*message, config, ts_recv_ns),
{
    match message.msg_type() {
        Some(t) => {
            if !(t.len() == 1 && t[0] == 56) {
                proof {
                    assert(t@ != seq![56u8]) by {
                        if t@ == seq![56u8] {
                            assert(t@[0] == 56u8);
                        }
                    }
                }
                return Err(FixReportParseError::InvalidMsgType);
            }
            assert(t@ =~= seq![56u8]);
        },
        None => return Err(FixReportParseError::InvalidMsgType),
    }
    let exec_type = match required(message, FixTag(EXEC_TYPE_TAG)) {
        Err(e) => return Err(e),
        Ok(v) => match parse_exec_type(v) {
            Err(e) => return Err(e),
            Ok(x) => x,
        },
    };
    let ord_status = match required(message, FixTag(ORD_STATUS_TAG)) {
        Err(e) => return Err(e),
        Ok(v) => match parse_ord_status(v) {
            Err(e) => return Err(e),
            Ok(x) => x,
        },
    };
    let cl_ord_id = match fixed_required::<40>(message, FixTag(CL_ORD_ID_TAG)) {
        Err(e) => return Err(e),
        Ok(x) => x,
    };
    let orig_cl_ord_id = match fixed_optional::<40>(message, FixTag(ORIG_CL_ORD_ID_TAG)) {
        Err(e) => return Err(e),
        Ok(x) => x,
    };
    let order_id = match fixed_required::<48>(message, FixTag(ORDER_ID_TAG)) {
        Err(e) => return Err(e),
        Ok(x) => x,
    };
    let exec_id = match fixed_required::<48>(message, FixTag(EXEC_ID_TAG)) {
        Err(e) => return Err(e),
        Ok(x) => x,
    };
    let account_id = match message.get(FixTag(ACCOUNT_TAG)) {
        Some(account) => match fixed_from_bytes::<32>(FixTag(ACCOUNT_TAG), account) {
            Err(e) => return Err(e),
            Ok(x) => x,
        },
        None => config.account_id,
    };
    let instrument = match fixed_required::<32>(message, FixTag(SYMBOL_TAG)) {
        Err(e) => return Err(e),
        Ok(x) => x,
    };
    let last_qty = match parse_optional_scaled(
        message,
        FixTag(LAST_QTY_TAG),
        config.quantity_scale,
    ) {
        Err(e) => return Err(e),
        Ok(x) => x,
    };
    let last_price = match parse_optional_scaled(message, FixTag(LAST_PX_TAG), config.price_scale) {
        Err(e) => return Err(e),
        Ok(x) => x,
    };
    let cumulative_qty = match parse_optional_scaled(
        message,
        FixTag(CUM_QTY_TAG),
        config.quantity_scale,
    ) {
        Err(e) => return Err(e),
        Ok(x) => x,
    };
    let leaves_qty = match parse_optional_scaled(
        message,
        FixTag(LEAVES_QTY_TAG),
        config.quantity_scale,
    ) {
        Err(e) => return Err(e),
        Ok(x) => x,
    };
    let average_price = match parse_optional_scaled(
        message,
        FixTag(AVG_PX_TAG),
        config.price_scale,
    ) {
        Err(e) => return Err(e),
        Ok(x) => x,
    };
    let ts_exchange_ns = match parse_optional_u64(message, FixTag(TRANSACT_TIME_TAG)) {
        Err(e) => return Err(e),
        Ok(x) => x,
    };
    let text = match fixed_optional::<128>(message, FixTag(TEXT_TAG)) {
        Err(e) => return Err(e),
        Ok(x) => x,
    };
    Ok(FixExecutionReport {
        exec_type,
        ord_status,
        cl_ord_id,
        orig_cl_ord_id,
        order_id,
        exec_id,
        account_id,
        route_id: config.route_id,
        symbol: ExecutionSymbol { venue: config.venue, instrument },
        last_qty: OrderQty(last_qty),
        last_price: OrderPrice(last_price),
        cumulative_qty: OrderQty(cumulative_qty),
        leaves_qty: OrderQty(leaves_qty),
        average_price: OrderPrice(average_price),
        ts_exchange_ns,
        ts_recv_ns,
        text,
    })
}

/// The normalized cancel reject of `message`, or the first error met in
/// field order: message type `9`, CxlRejResponseTo, OrdStatus, ClOrdID,
/// OrigClOrdID, account, Symbol, OrderID, CxlRejReason, TransactTime, Text.
pub open spec fn spec_parse_order_cancel_reject(
    message: FixMessageFields,
    config: FixReportParseConfig,
    ts_recv_ns: u64,
) -> Result<FixOrderCancelReject, FixReportParseError> {
    if message.spec_msg_type() != Some(seq![57u8]) {
        Err(FixReportParseError::InvalidMsgType)
    } else {
        match spec_required(message, FixTag(CXL_REJ_RESPONSE_TO_TAG)) {
            Err(e) => Err(e),
            Ok(rt) => match spec_parse_cancel_reject_response_to(rt) {
                Err(e) => Err(e),
                Ok(response_to) => match spec_required(message, FixTag(ORD_STATUS_TAG)) {
                    Err(e) => Err(e),
                    Ok(os) => match spec_parse_ord_status(os) {
                        Err(e) => Err(e),
                        Ok(ord_status) => match spec_fixed_required::<40>(
                            message,
                            FixTag(CL_ORD_ID_TAG),
                        ) {
                            Err(e) => Err(e),
                            Ok(cl) => match spec_fixed_required::<40>(
                                message,
                                FixTag(ORIG_CL_ORD_ID_TAG),
                            ) {
                                Err(e) => Err(e),
                                Ok(orig) => match spec_report_account(message, config) {
                                    Err(e) => Err(e),
                                    Ok(account) => match spec_fixed_optional::<32>(
                                        message,
                                        FixTag(SYMBOL_TAG),
                                    ) {
                                        Err(e) => Err(e),
                                        Ok(instrument) => spec_cancel_reject_tail(
                                            message,
                                            config,
                                            ts_recv_ns,
                                            response_to,
                                            ord_status,
                                            cl,
                                            orig,
                                            account,
                                            instrument,
                                        ),
                                    },
                                },
                            },
                        },
                    },
                },
            },
        }
    }
}

/// The remaining fields of a cancel reject after its identifiers.
pub open spec fn spec_cancel_reject_tail(
    message: FixMessageFields,
    config: FixReportParseConfig,
    ts_recv_ns: u64,
    response_to: FixCancelRejectResponseTo,
    ord_status: crate::fix_model::FixOrdStatus,
    cl: FixedAscii<40>,
    orig: FixedAscii<40>,
    account: AccountId,
    instrument: InstrumentId,
) -> Result<FixOrderCancelReject, FixReportParseError> {
    match spec_fixed_optional::<48>(message, FixTag(ORDER_ID_TAG)) {
        Err(e) => Err(e),
        Ok(order_id) => match spec_parse_optional_u64(message, FixTag(CXL_REJ_REASON_TAG)) {
            Err(e) => Err(e),
            Ok(reason) => match spec_parse_optional_u64(message, FixTag(TRANSACT_TIME_TAG)) {
                Err(e) => Err(e),
                Ok(ts) => match spec_fixed_optional::<128>(message, FixTag(TEXT_TAG)) {
                    Err(e) => Err(e),
                    Ok(text) => Ok(
                        FixOrderCancelReject {
                            response_to,
                            ord_status,
                            cl_ord_id: cl,
                            orig_cl_ord_id: orig,
                            order_id,
                            account_id: account,
                            route_id: config.route_id,
                            symbol: ExecutionSymbol { venue: config.venue, instrument },
                            cxl_rej_reason: reason,
                            ts_exchange_ns: ts,
                            ts_recv_ns,
                            text,
                        },
                    ),
                },
            },
        },
    }
}

/// Parses a validated FIX `OrderCancelReject(35=9)` into a normalized
/// report; see [`spec_parse_order_cancel_reject`].
pub fn parse_order_cancel_reject(
    message: &FixMessageFields,
    config: FixReportParseConfig,
    ts_recv_ns: u64,
) -> (r: Result<FixOrderCancelReject, FixReportParseError>)
    ensures
        r == spec_parse_order_cancel_reject(*message, config, ts_recv_ns),
{
    match message.msg_type() {
        Some(t) => {
            if !(t.len() == 1 && t[0] == 57) {
                proof {
                    assert(t@ != seq![57u8]) by {
                        if t@ == seq![57u8] {
                            assert(t@[0] == 57u8);
                        }
                    }
                }
                return Err(FixReportParseError::InvalidMsgType);
            }
            assert(t@ =~= seq![57u8]);
        },
        None => return Err(FixReportParseError::InvalidMsgType),
    }
    let response_to = match required(message, FixTag(CXL_REJ_RESPONSE_TO_TAG)) {
        Err(e) => return Err(e),
        Ok(v) => match parse_cancel_reject_response_to(v) {
            Err(e) => return Err(e),
            Ok(x) => x,
        },
    };
    let ord_status = match required(message, FixTag(ORD_STATUS_TAG)) {
        Err(e) => return Err(e),
        Ok(v) => match parse_ord_status(v) {
            Err(e) => return Err(e),
            Ok(x) => x,
        },
    };
    let cl_ord_id = match fixed_required::<40>(message, FixTag(CL_ORD_ID_TAG)) {
        Err(e) => return Err(e),
        Ok(x) => x,
    };
    let orig_cl_ord_id = match fixed_required::<40>(message, FixTag(ORIG_CL_ORD_ID_TAG)) {
        Err(e) => return Err(e),
        Ok(x) => x,
    };
    let account_id = match message.get(FixTag(ACCOUNT_TAG)) {
        Some(account) => match fixed_from_bytes::<32>(FixTag(ACCOUNT_TAG), account) {
            Err(e) => return Err(e),
            Ok(x) => x,
        },
        None => config.account_id,
    };
    let instrument = match fixed_optional::<32>(message, FixTag(SYMBOL_TAG)) {
        Err(e) => return Err(e),
        Ok(x) => x,
    };
    let order_id = match fixed_optional::<48>(message, FixTag(ORDER_ID_TAG)) {
        Err(e) => return Err(e),
        Ok(x) => x,
    };
    let cxl_rej_reason = match parse_optional_u64(message, FixTag(CXL_REJ_REASON_TAG)) {
        Err(e) => return Err(e),
        Ok(x) => x,
    };
    let ts_exchange_ns = match parse_optional_u64(message, FixTag(TRANSACT_TIME_TAG)) {
        Err(e) => return Err(e),
        Ok(x) => x,
    };
    let text = match fixed_optional::<128>(message, FixTag(TEXT_TAG)) {
        Err(e) => return Err(e),
        Ok(x) => x,
    };
    Ok(FixOrderCancelReject {
        response_to,
        ord_status,
        cl_ord_id,
        orig_cl_ord_id,
        order_id,
        account_id,
        route_id: config.route_id,
        symbol: ExecutionSymbol { venue: config.venue, instrument },
        cxl_rej_reason,
        ts_exchange_ns,
        ts_recv_ns,
        text,
    })
}

/// Copies a byte slice into a vector.
fn bytes_to_vec(bytes: &[u8]) -> (r: Vec<u8>)
    ensures
        r@ == bytes@,
{
    let mut out: Vec<u8> = Vec::new();
    let mut i: usize = 0;
    while i < bytes.len()
        invariant
            i <= bytes@.len(),
            out@ == bytes@.take(i as int),
        decreases bytes@.len() - i,
    {
        out.push(bytes[i]);
        i = i + 1;
        assert(out@ =~= bytes@.take(i as int));
    }
    assert(bytes@.take(i as int) =~= bytes@);
    out
}

/// The order quantity, price and stop-price texts of a new order, or the
/// first error among them.
pub open spec fn spec_order_request_texts(
    config: FixRequestEncodeConfig,
    request: OrderRequest,
) -> Result<(Seq<u8>, Option<Seq<u8>>, Option<Seq<u8>>), FixRequestEncodeError> {
    match spec_encode_scaled(request.quantity.0, config.quantity_scale, ScaledField::Quantity) {
        Err(e) => Err(e),
        Ok(qty) => match spec_encode_order_price(request.order_type, request.limit_price, config) {
            Err(e) => Err(e),
            Ok(price) => match spec_encode_order_stop_price(
                request.order_type,
                request.stop_price,
                config,
            ) {
                Err(e) => Err(e),
                Ok(stop) => Ok((qty, price, stop)),
            },
        },
    }
}

/// Whether `r` is the NewOrderSingle `<D>` preparation of `request`: the
/// first error of [`spec_order_request_texts`], else the fields with the
/// quantity and price texts, the request's identifiers, and the mapped
/// side, order type and time in force.
pub open spec fn spec_new_order_single_result(
    config: FixRequestEncodeConfig,
    request: OrderRequest,
    transact_time: Seq<u8>,
    r: Result<FixNewOrderSingleFields, FixRequestEncodeError>,
) -> bool {
    match spec_order_request_texts(config, request) {
        Err(e) => r == Err::<FixNewOrderSingleFields, FixRequestEncodeError>(e),
        Ok((qty, price, stop)) => r matches Ok(f) && f.order_qty@ == qty && spec_opt_bytes(f.price)
            == price && spec_opt_bytes(f.stop_px) == stop && f.cl_ord_id@
            == request.client_order_id.spec_bytes() && f.symbol@
            == request.symbol.instrument.spec_bytes() && f.side == spec_map_side_to_fix(
            request.side,
        ) && f.transact_time@ == transact_time && f.ord_type == spec_map_order_type_to_fix(
            request.order_type,
        ) && f.account@ == request.account_id.spec_bytes() && f.time_in_force
            == spec_map_tif_to_fix(request.time_in_force),
    }
}

/// Prepares the NewOrderSingle `<D>` fields of a canonical new-order
/// request: quantity and prices become decimal text at the configured
/// scales; see [`spec_order_request_texts`] for the errors.
pub fn encode_order_request(
    config: FixRequestEncodeConfig,
    request: &OrderRequest,
    transact_time: &[u8],
) -> (r: Result<FixNewOrderSingleFields, FixRequestEncodeError>)
    ensures
        spec_new_order_single_result(config, *request, transact_time@, r),
{
    let qty = match encode_scaled(request.quantity.0, config.quantity_scale, ScaledField::Quantity) {
        Ok(t) => t,
        Err(e) => return Err(e),
    };
    let price = match encode_order_price(request.order_type, request.limit_price, config) {
        Ok(t) => t,
        Err(e) => return Err(e),
    };
    let stop_px = match encode_order_stop_price(request.order_type, request.stop_price, config) {
        Ok(t) => t,
        Err(e) => return Err(e),
    };
    let ord_type = match map_order_type_to_fix(request.order_type) {
        Ok(t) => t,
        Err(e) => return Err(e),
    };
    Ok(FixNewOrderSingleFields {
        cl_ord_id: bytes_to_vec(request.client_order_id.as_bytes()),
        symbol: bytes_to_vec(request.symbol.instrument.as_bytes()),
        side: map_side_to_fix(request.side),
        transact_time: bytes_to_vec(transact_time),
        order_qty: qty,
        ord_type,
        account: bytes_to_vec(request.account_id.as_bytes()),
        time_in_force: map_tif_to_fix(request.time_in_force),
        price,
        stop_px,
    })
}

/// Whether `r` are the OrderCancelRequest `<F>` fields of `request` for an
/// order on `side`.
pub open spec fn spec_cancel_fields(
    request: CancelRequest,
    side: OrderSide,
    transact_time: Seq<u8>,
    r: FixOrderCancelFields,
) -> bool {
    &&& r.orig_cl_ord_id@ == request.orig_client_order_id.spec_bytes()
    &&& r.cl_ord_id@ == request.client_order_id.spec_bytes()
    &&& r.symbol@ == request.symbol.instrument.spec_bytes()
    &&& r.side == spec_map_side_to_fix(side)
    &&& r.transact_time@ == transact_time
    &&& r.account@ == request.account_id.spec_bytes()
}

/// Prepares the OrderCancelRequest `<F>` fields of a canonical cancel
/// request; the side comes from the caller's order context.
pub fn encode_cancel_request(
    request: &CancelRequest,
    context: FixCancelEncodeContext<'_>,
) -> (r: FixOrderCancelFields)
    ensures
        spec_cancel_fields(*request, context.side, context.transact_time@, r),
{
    FixOrderCancelFields {
        orig_cl_ord_id: bytes_to_vec(request.orig_client_order_id.as_bytes()),
        cl_ord_id: bytes_to_vec(request.client_order_id.as_bytes()),
        symbol: bytes_to_vec(request.symbol.instrument.as_bytes()),
        side: map_side_to_fix(context.side),
        transact_time: bytes_to_vec(context.transact_time),
        account: bytes_to_vec(request.account_id.as_bytes()),
    }
}

/// True for the order types that carry a stop price.
pub open spec fn spec_is_stop_type(order_type: OrderType) -> bool {
    order_type == OrderType::Stop || order_type == OrderType::StopLimit
}

/// The quantity and price texts of an amend, or the first error: the
/// quantity, the price, then `UnsupportedOrderType` for stop types.
pub open spec fn spec_amend_texts(
    config: FixRequestEncodeConfig,
    request: AmendRequest,
    order_type: OrderType,
) -> Result<(Seq<u8>, Option<Seq<u8>>), FixRequestEncodeError> {
    match spec_encode_scaled(request.quantity.0, config.quantity_scale, ScaledField::Quantity) {
        Err(e) => Err(e),
        Ok(qty) => match spec_encode_order_price(order_type, request.limit_price, config) {
            Err(e) => Err(e),
            Ok(price) => if spec_is_stop_type(order_type) {
                Err(FixRequestEncodeError::UnsupportedOrderType)
            } else {
                Ok((qty, price))
            },
        },
    }
}

/// Whether `r` is the OrderCancelReplaceRequest `<G>` preparation of a
/// non-stop amend of an order on `side` with `order_type` and
/// `time_in_force`: the first error of [`spec_amend_texts`], else the
/// fields without a stop price.
pub open spec fn spec_amend_result(
    config: FixRequestEncodeConfig,
    request: AmendRequest,
    side: OrderSide,
    order_type: OrderType,
    time_in_force: TimeInForce,
    transact_time: Seq<u8>,
    r: Result<FixOrderCancelReplaceFields, FixRequestEncodeError>,
) -> bool {
    match spec_amend_texts(config, request, order_type) {
        Err(e) => r == Err::<FixOrderCancelReplaceFields, FixRequestEncodeError>(e),
        Ok((qty, price)) => r matches Ok(f) && f.order_qty@ == qty && spec_opt_bytes(f.price)
            == price && f.stop_px is None && f.orig_cl_ord_id@
            == request.orig_client_order_id.spec_bytes() && f.cl_ord_id@
            == request.client_order_id.spec_bytes() && f.symbol@
            == request.symbol.instrument.spec_bytes() && f.side == spec_map_side_to_fix(side)
            && f.transact_time@ == transact_time && f.ord_type == spec_map_order_type_to_fix(
            order_type,
        ) && f.account@ == request.account_id.spec_bytes() && f.time_in_force
            == spec_map_tif_to_fix(time_in_force),
    }
}

/// Prepares the OrderCancelReplaceRequest `<G>` fields of a canonical amend
/// request; side, order type and time in force come from the caller's
/// order context, and stop types are refused (see
/// [`encode_stop_amend_request`]).
pub fn encode_amend_request(
    config: FixRequestEncodeConfig,
    request: &AmendRequest,
    context: FixAmendEncodeContext<'_>,
) -> (r: Result<FixOrderCancelReplaceFields, FixRequestEncodeError>)
    ensures
        spec_amend_result(
            config,
            *request,
            context.side,
            context.order_type,
            context.time_in_force,
            context.transact_time@,
            r,
        ),
{
    let qty = match encode_scaled(request.quantity.0, config.quantity_scale, ScaledField::Quantity) {
        Ok(t) => t,
        Err(e) => return Err(e),
    };
    let price = match encode_order_price(context.order_type, request.limit_price, config) {
        Ok(t) => t,
        Err(e) => return Err(e),
    };
    match context.order_type {
        OrderType::Stop | OrderType::StopLimit => {
            return Err(FixRequestEncodeError::UnsupportedOrderType);
        },
        _ => {},
    }
    let ord_type = match map_order_type_to_fix(context.order_type) {
        Ok(t) => t,
        Err(e) => return Err(e),
    };
    Ok(FixOrderCancelReplaceFields {
        orig_cl_ord_id: bytes_to_vec(request.orig_client_order_id.as_bytes()),
        cl_ord_id: bytes_to_vec(request.client_order_id.as_bytes()),
        symbol: bytes_to_vec(request.symbol.instrument.as_bytes()),
        side: map_side_to_fix(context.side),
        transact_time: bytes_to_vec(context.transact_time),
        order_qty: qty,
        ord_type,
        account: bytes_to_vec(request.account_id.as_bytes()),
        time_in_force: map_tif_to_fix(context.time_in_force),
        price,
        stop_px: None,
    })
}

/// The quantity, price and stop-price texts of a stop amend, or the first
/// error: `UnsupportedOrderType` for a type without a stop, then the
/// quantity, the price and the stop price.
pub open spec fn spec_stop_amend_texts(
    config: FixRequestEncodeConfig,
    request: AmendRequest,
    order_type: OrderType,
    stop_price: OrderPrice,
) -> Result<(Seq<u8>, Option<Seq<u8>>, Seq<u8>), FixRequestEncodeError> {
    if !spec_is_stop_type(order_type) {
        Err(FixRequestEncodeError::UnsupportedOrderType)
    } else {
        match spec_encode_scaled(request.quantity.0, config.quantity_scale, ScaledField::Quantity) {
            Err(e) => Err(e),
            Ok(qty) => match spec_encode_order_price(order_type, request.limit_price, config) {
                Err(e) => Err(e),
                Ok(price) => match spec_encode_scaled(
                    stop_price.0,
                    config.price_scale,
                    ScaledField::Price,
                ) {
                    Err(e) => Err(e),
                    Ok(stop) => Ok((qty, price, stop)),
                },
            },
        }
    }
}

/// Whether `r` is the OrderCancelReplaceRequest `<G>` preparation of a
/// stop or stop-limit amend: the first error of
/// [`spec_stop_amend_texts`], else the fields with the stop price text.
pub open spec fn spec_stop_amend_result(
    config: FixRequestEncodeConfig,
    request: AmendRequest,
    side: OrderSide,
    order_type: OrderType,
    time_in_force: TimeInForce,
    stop_price: OrderPrice,
    transact_time: Seq<u8>,
    r: Result<FixOrderCancelReplaceFields, FixRequestEncodeError>,
) -> bool {
    match spec_stop_amend_texts(config, request, order_type, stop_price) {
        Err(e) => r == Err::<FixOrderCancelReplaceFields, FixRequestEncodeError>(e),
        Ok((qty, price, stop)) => r matches Ok(f) && f.order_qty@ == qty && spec_opt_bytes(f.price)
            == price && spec_opt_bytes(f.stop_px) == Some(stop) && f.orig_cl_ord_id@
            == request.orig_client_order_id.spec_bytes() && f.cl_ord_id@
            == request.client_order_id.spec_bytes() && f.symbol@
            == request.symbol.instrument.spec_bytes() && f.side == spec_map_side_to_fix(side)
            && f.transact_time@ == transact_time && f.ord_type == spec_map_order_type_to_fix(
            order_type,
        ) && f.account@ == request.account_id.spec_bytes() && f.time_in_force
            == spec_map_tif_to_fix(time_in_force),
    }
}

/// Prepares the OrderCancelReplaceRequest `<G>` fields of a stop or
/// stop-limit amend, whose stop price comes from `context`.
pub fn encode_stop_amend_request(
    config: FixRequestEncodeConfig,
    request: &AmendRequest,
    context: FixStopAmendEncodeContext<'_>,
) -> (r: Result<FixOrderCancelReplaceFields, FixRequestEncodeError>)
    ensures
        spec_stop_amend_result(
            config,
            *request,
            context.side,
            context.order_type,
            context.time_in_force,
            context.stop_price,
            context.transact_time@,
            r,
        ),
{
    match context.order_type {
        OrderType::Stop | OrderType::StopLimit => {},
        _ => {
            return Err(FixRequestEncodeError::UnsupportedOrderType);
        },
    }
    let qty = match encode_scaled(request.quantity.0, config.quantity_scale, ScaledField::Quantity) {
        Ok(t) => t,
        Err(e) => return Err(e),
    };
    let price = match encode_order_price(context.order_type, request.limit_price, config) {
        Ok(t) => t,
        Err(e) => return Err(e),
    };
    let stop_px = match encode_order_stop_price(context.order_type, context.stop_price, config) {
        Ok(Some(t)) => t,
        Ok(None) => return Err(FixRequestEncodeError::InvalidPrice),
        Err(e) => return Err(e),
    };
    let ord_type = match map_order_type_to_fix(context.order_type) {
        Ok(t) => t,
        Err(e) => return Err(e),
    };
    Ok(FixOrderCancelReplaceFields {
        orig_cl_ord_id: bytes_to_vec(request.orig_client_order_id.as_bytes()),
        cl_ord_id: bytes_to_vec(request.client_order_id.as_bytes()),
        symbol: bytes_to_vec(request.symbol.instrument.as_bytes()),
        side: map_side_to_fix(context.side),
        transact_time: bytes_to_vec(context.transact_time),
        order_qty: qty,
        ord_type,
        account: bytes_to_vec(request.account_id.as_bytes()),
        time_in_force: map_tif_to_fix(context.time_in_force),
        price,
        stop_px: Some(stop_px),
    })
}

/// The canonical event of a normalized execution report: rejections carry
/// `UnsupportedOrderType`, every other report no reason.
pub open spec fn spec_map_execution_report(report: FixExecutionReport) -> ExecutionEvent {
    ExecutionEvent {
        exec_type: spec_map_exec_type(report.exec_type),
        order_status: spec_map_ord_status(report.ord_status),
        client_order_id: report.cl_ord_id,
        orig_client_order_id: report.orig_cl_ord_id,
        venue_order_id: report.order_id,
        execution_id: report.exec_id,
        account_id: report.account_id,
        route_id: report.route_id,
        symbol: report.symbol,
        last_qty: report.last_qty,
        last_price: report.last_price,
        cumulative_qty: report.cumulative_qty,
        leaves_qty: report.leaves_qty,
        average_price: report.average_price,
        ts_exchange_ns: report.ts_exchange_ns,
        ts_recv_ns: report.ts_recv_ns,
        reason: if report.exec_type == FixExecType::Rejected {
            RiskRejectReason::UnsupportedOrderType
        } else {
            RiskRejectReason::NoReason
        },
        text: report.text,
    }
}

/// Maps a parsed FIX execution report into a canonical execution event.
pub fn map_execution_report(report: &FixExecutionReport) -> (r: ExecutionEvent)
    ensures
        r == spec_map_execution_report(*report),
{
    ExecutionEvent {
        exec_type: map_exec_type(report.exec_type),
        order_status: map_ord_status(report.ord_status),
        client_order_id: report.cl_ord_id,
        orig_client_order_id: report.orig_cl_ord_id,
        venue_order_id: report.order_id,
        execution_id: report.exec_id,
        account_id: report.account_id,
        route_id: report.route_id,
        symbol: report.symbol,
        last_qty: report.last_qty,
        last_price: report.last_price,
        cumulative_qty: report.cumulative_qty,
        leaves_qty: report.leaves_qty,
        average_price: report.average_price,
        ts_exchange_ns: report.ts_exchange_ns,
        ts_recv_ns: report.ts_recv_ns,
        reason: match report.exec_type {
            FixExecType::Rejected => RiskRejectReason::UnsupportedOrderType,
            _ => RiskRejectReason::NoReason,
        },
        text: report.text,
    }
}

/// The canonical event of a normalized cancel reject: a cancel or replace
/// reject with no fill values, no execution id and no reason.
pub open spec fn spec_map_order_cancel_reject(report: FixOrderCancelReject) -> ExecutionEvent {
    ExecutionEvent {
        exec_type: match report.response_to {
            FixCancelRejectResponseTo::OrderCancelRequest => ExecutionType::CancelReject,
            FixCancelRejectResponseTo::OrderCancelReplaceRequest => ExecutionType::ReplaceReject,
        },
        order_status: spec_map_ord_status(report.ord_status),
        client_order_id: report.cl_ord_id,
        orig_client_order_id: report.orig_cl_ord_id,
        venue_order_id: report.order_id,
        execution_id: ExecutionId::spec_from_bytes(Seq::empty()),
        account_id: report.account_id,
        route_id: report.route_id,
        symbol: report.symbol,
        last_qty: OrderQty(0),
        last_price: OrderPrice(0),
        cumulative_qty: OrderQty(0),
        leaves_qty: OrderQty(0),
        average_price: OrderPrice(0),
        ts_exchange_ns: report.ts_exchange_ns,
        ts_recv_ns: report.ts_recv_ns,
        reason: RiskRejectReason::NoReason,
        text: report.text,
    }
}

/// Maps a parsed FIX OrderCancelReject into a canonical execution event.
pub fn map_order_cancel_reject(report: &FixOrderCancelReject) -> (r: ExecutionEvent)
    ensures
        r == spec_map_order_cancel_reject(*report),
{
    let empty: [u8; 0] = [];
    assert(empty@ =~= Seq::<u8>::empty());
    ExecutionEvent {
        exec_type: match report.response_to {
            FixCancelRejectResponseTo::OrderCancelRequest => ExecutionType::CancelReject,
            FixCancelRejectResponseTo::OrderCancelReplaceRequest => ExecutionType::ReplaceReject,
        },
        order_status: map_ord_status(report.ord_status),
        client_order_id: report.cl_ord_id,
        orig_client_order_id: report.orig_cl_ord_id,
        venue_order_id: report.order_id,
        execution_id: ExecutionId::from_ascii_bytes(empty.as_slice()),
        account_id: report.account_id,
        route_id: report.route_id,
        symbol: report.symbol,
        last_qty: OrderQty(0),
        last_price: OrderPrice(0),
        cumulative_qty: OrderQty(0),
        leaves_qty: OrderQty(0),
        average_price: OrderPrice(0),
        ts_exchange_ns: report.ts_exchange_ns,
        ts_recv_ns: report.ts_recv_ns,
        reason: RiskRejectReason::NoReason,
        text: report.text,
    }
}

/// The event of an execution report carries the report's execution type
/// through the fixed FIX `ExecType(150)` table: new is an acknowledgement,
/// rejected a rejection, trade a trade, pending cancel and canceled the
/// cancel pending and acknowledgement, pending replace and replaced the
/// replace pending and acknowledgement, expired an expiry and restated a
/// restatement.
pub proof fn law_report_exec_type_table(report: FixExecutionReport)
    ensures
        spec_map_execution_report(report).exec_type == match report.exec_type {
            FixExecType::New => ExecutionType::Ack,
            FixExecType::Rejected => ExecutionType::Reject,
            FixExecType::Trade => ExecutionType::Trade,
            FixExecType::PendingCancel => ExecutionType::CancelPending,
            FixExecType::Canceled => ExecutionType::CancelAck,
            FixExecType::PendingReplace => ExecutionType::ReplacePending,
            FixExecType::Replaced => ExecutionType::ReplaceAck,
            FixExecType::Expired => ExecutionType::Expire,
            FixExecType::Restated => ExecutionType::Restated,
        },
{
}

/// An expiry report ends the order: the event of an `Expired` execution
/// report, applied to any order that is not yet terminal, is accepted and
/// leaves the order `Expired` with the report's filled and leaves
/// quantities.
pub proof fn law_expired_report_ends_order(report: FixExecutionReport, s: OrderState)
    requires
        report.exec_type == FixExecType::Expired,
        !spec_status_terminal(s.status),
    ensures
        spec_apply(s, spec_map_execution_report(report)) matches Ok(n) && n.status
            == OrderStatus::Expired && spec_status_terminal(n.status) && n.cumulative_qty
            == report.cumulative_qty && n.leaves_qty == report.leaves_qty,
{
}

/// The event of an execution report carries the report's `OrdStatus(39)`
/// through the fixed table (done for day, stopped and suspended all
/// suspend the order; the others keep their name), copies the report's
/// identifiers, quantities, prices and timestamps unchanged, and gives a
/// reason exactly for a rejection.
pub proof fn law_report_status_and_fields(report: FixExecutionReport)
    ensures
        spec_map_execution_report(report).order_status == match report.ord_status {
            FixOrdStatus::New => OrderStatus::New,
            FixOrdStatus::PartiallyFilled => OrderStatus::PartiallyFilled,
            FixOrdStatus::Filled => OrderStatus::Filled,
            FixOrdStatus::DoneForDay => OrderStatus::Suspended,
            FixOrdStatus::Canceled => OrderStatus::Cancelled,
            FixOrdStatus::Replaced => OrderStatus::Replaced,
            FixOrdStatus::PendingCancel => OrderStatus::PendingCancel,
            FixOrdStatus::Stopped => OrderStatus::Suspended,
            FixOrdStatus::Rejected => OrderStatus::Rejected,
            FixOrdStatus::Suspended => OrderStatus::Suspended,
            FixOrdStatus::PendingNew => OrderStatus::PendingNew,
            FixOrdStatus::Expired => OrderStatus::Expired,
            FixOrdStatus::PendingReplace => OrderStatus::PendingReplace,
        },
        spec_map_execution_report(report).client_order_id == report.cl_ord_id,
        spec_map_execution_report(report).orig_client_order_id == report.orig_cl_ord_id,
        spec_map_execution_report(report).venue_order_id == report.order_id,
        spec_map_execution_report(report).execution_id == report.exec_id,
        spec_map_execution_report(report).last_qty == report.last_qty,
        spec_map_execution_report(report).last_price == report.last_price,
        spec_map_execution_report(report).cumulative_qty == report.cumulative_qty,
        spec_map_execution_report(report).leaves_qty == report.leaves_qty,
        spec_map_execution_report(report).average_price == report.average_price,
        spec_map_execution_report(report).ts_exchange_ns == report.ts_exchange_ns,
        spec_map_execution_report(report).ts_recv_ns == report.ts_recv_ns,
        (spec_map_execution_report(report).reason != RiskRejectReason::NoReason)
            <==> report.exec_type == FixExecType::Rejected,
{
}

/// A cancel reject leaves the order as it was: its event is a cancel reject
/// for a cancel request and a replace reject for a cancel/replace request,
/// and applied to a live order it is accepted, keeps every quantity, the
/// price and the client ids, and restores the status the venue reports.
pub proof fn law_cancel_reject_keeps_order(report: FixOrderCancelReject, s: OrderState)
    requires
        !spec_status_terminal(s.status),
    ensures
        spec_map_order_cancel_reject(report).exec_type == match report.response_to {
            FixCancelRejectResponseTo::OrderCancelRequest => ExecutionType::CancelReject,
            FixCancelRejectResponseTo::OrderCancelReplaceRequest => ExecutionType::ReplaceReject,
        },
        spec_apply(s, spec_map_order_cancel_reject(report)) matches Ok(n) && n.order_qty
            == s.order_qty && n.cumulative_qty == s.cumulative_qty && n.leaves_qty == s.leaves_qty
            && n.average_price == s.average_price && n.client_order_id == s.client_order_id
            && n.status == spec_map_ord_status(report.ord_status),
{
}

} // verus!
