use orderflow_execution::fix_mapping::{
    encode_amend_request, encode_cancel_request, encode_order_request, encode_stop_amend_request,
    map_execution_report, map_order_cancel_reject, parse_execution_report,
    parse_order_cancel_reject,
};
use orderflow_execution::fix_model::{
    FixAmendEncodeContext, FixCancelEncodeContext, FixCancelRejectResponseTo, FixExecType,
    FixExecutionReport, FixField, FixMessageFields, FixOrdStatus, FixReportParseConfig,
    FixReportParseError, FixRequestEncodeConfig, FixRequestEncodeError, FixSessionConfig,
    FixStopAmendEncodeContext, FixTag, ACCOUNT_TAG, AVG_PX_TAG, CL_ORD_ID_TAG, CUM_QTY_TAG,
    CXL_REJ_REASON_TAG, CXL_REJ_RESPONSE_TO_TAG, EXEC_ID_TAG, EXEC_TYPE_TAG, LAST_PX_TAG,
    LAST_QTY_TAG, LEAVES_QTY_TAG, ORDER_ID_TAG, ORD_STATUS_TAG, ORIG_CL_ORD_ID_TAG, SYMBOL_TAG,
    TEXT_TAG, TRANSACT_TIME_TAG,
};
use orderflow_execution::fix_shell::{FixExecutionAdapter, LatencyClass};
use orderflow_execution::fix_support::parse_exec_type;
use orderflow_execution::{
    AmendRequest, CancelRequest, ClientOrderId, ExecutionSymbol, ExecutionText, ExecutionType,
    FixedAscii, InstrumentId, OrderPrice, OrderQty, OrderRequest, OrderSide, OrderStatus,
    OrderType, RiskRejectReason, TimeInForce, VenueOrderId,
};

fn id<const N: usize>(value: &str) -> FixedAscii<N> {
    FixedAscii::new(value).unwrap()
}

fn parse_config() -> FixReportParseConfig {
    FixReportParseConfig::new(id("ACC"), id("FIX"), id("BINANCE"))
        .with_quantity_scale(100)
        .with_price_scale(10)
}

fn message(msg_type: &[u8], fields: &[(u32, &[u8])]) -> FixMessageFields {
    FixMessageFields::new(
        Some(msg_type.to_vec()),
        fields
            .iter()
            .map(|(tag, value)| FixField {
                tag: *tag,
                value: value.to_vec(),
            })
            .collect(),
    )
}

#[test]
fn maps_trade_report_to_execution_event() {
    let report = FixExecutionReport {
        exec_type: FixExecType::Trade,
        ord_status: FixOrdStatus::PartiallyFilled,
        cl_ord_id: id("C1"),
        orig_cl_ord_id: ClientOrderId::empty(),
        order_id: id("V1"),
        exec_id: id("E1"),
        account_id: id("ACC"),
        route_id: id("FIX"),
        symbol: ExecutionSymbol::new("CME", "ESM6").unwrap(),
        last_qty: OrderQty(5),
        last_price: OrderPrice(5000),
        cumulative_qty: OrderQty(5),
        leaves_qty: OrderQty(5),
        average_price: OrderPrice(5000),
        ts_exchange_ns: 1,
        ts_recv_ns: 2,
        text: ExecutionText::empty(),
    };

    let event = map_execution_report(&report);
    assert_eq!(event.exec_type, ExecutionType::Trade);
    assert_eq!(event.order_status, OrderStatus::PartiallyFilled);
    assert_eq!(event.cumulative_qty, OrderQty(5));
}

#[test]
fn parses_fix_execution_report_from_message_view() {
    let message = message(
        b"8",
        &[
            (EXEC_TYPE_TAG, b"1".as_slice()),
            (ORD_STATUS_TAG, b"1".as_slice()),
            (CL_ORD_ID_TAG, b"C1".as_slice()),
            (ORDER_ID_TAG, b"V1".as_slice()),
            (EXEC_ID_TAG, b"E1".as_slice()),
            (SYMBOL_TAG, b"BTCUSDT".as_slice()),
            (LAST_QTY_TAG, b"1.25".as_slice()),
            (LAST_PX_TAG, b"65000.5".as_slice()),
            (CUM_QTY_TAG, b"1.25".as_slice()),
            (LEAVES_QTY_TAG, b"0.75".as_slice()),
            (AVG_PX_TAG, b"65000.5".as_slice()),
            (TRANSACT_TIME_TAG, b"1784275200000000000".as_slice()),
            (TEXT_TAG, b"partial".as_slice()),
        ],
    );
    let report =
        parse_execution_report(&message, parse_config(), 1784275200000000100).expect("map");

    assert_eq!(report.exec_type, FixExecType::Trade);
    assert_eq!(report.ord_status, FixOrdStatus::PartiallyFilled);
    assert_eq!(report.cl_ord_id, id("C1"));
    assert_eq!(report.order_id, id("V1"));
    assert_eq!(report.exec_id, id("E1"));
    assert_eq!(report.account_id, id("ACC"));
    assert_eq!(report.route_id, id("FIX"));
    assert_eq!(report.symbol.venue, id("BINANCE"));
    assert_eq!(report.symbol.instrument, id("BTCUSDT"));
    assert_eq!(report.last_qty, OrderQty(125));
    assert_eq!(report.last_price, OrderPrice(650005));
    assert_eq!(report.cumulative_qty, OrderQty(125));
    assert_eq!(report.leaves_qty, OrderQty(75));
    assert_eq!(report.average_price, OrderPrice(650005));
    assert_eq!(report.ts_exchange_ns, 1_784_275_200_000_000_000);
    assert_eq!(report.ts_recv_ns, 1_784_275_200_000_000_100);
    assert_eq!(report.text, id("partial"));
}

#[test]
fn parses_account_from_fix_when_present() {
    let message = message(
        b"8",
        &[
            (EXEC_TYPE_TAG, b"0".as_slice()),
            (ORD_STATUS_TAG, b"0".as_slice()),
            (CL_ORD_ID_TAG, b"C1".as_slice()),
            (ORDER_ID_TAG, b"V1".as_slice()),
            (EXEC_ID_TAG, b"E1".as_slice()),
            (SYMBOL_TAG, b"BTCUSDT".as_slice()),
            (1, b"SUBACC".as_slice()),
        ],
    );
    let report = parse_execution_report(&message, parse_config(), 10).expect("map");
    assert_eq!(report.account_id, id("SUBACC"));
    assert_eq!(report.exec_type, FixExecType::New);
    assert_eq!(report.ord_status, FixOrdStatus::New);
}

#[test]
fn parses_order_cancel_reject_from_message_view() {
    let message = message(
        b"9",
        &[
            (ORDER_ID_TAG, b"V1".as_slice()),
            (CL_ORD_ID_TAG, b"CANCEL-1".as_slice()),
            (ORIG_CL_ORD_ID_TAG, b"C1".as_slice()),
            (ORD_STATUS_TAG, b"0".as_slice()),
            (CXL_REJ_RESPONSE_TO_TAG, b"1".as_slice()),
            (CXL_REJ_REASON_TAG, b"1".as_slice()),
            (SYMBOL_TAG, b"BTCUSDT".as_slice()),
            (TRANSACT_TIME_TAG, b"1784275200000000000".as_slice()),
            (TEXT_TAG, b"too late".as_slice()),
        ],
    );
    let report = parse_order_cancel_reject(&message, parse_config(), 1_784_275_200_000_000_100)
        .expect("cancel reject");

    assert_eq!(
        report.response_to,
        FixCancelRejectResponseTo::OrderCancelRequest
    );
    assert_eq!(report.ord_status, FixOrdStatus::New);
    assert_eq!(report.cl_ord_id, id("CANCEL-1"));
    assert_eq!(report.orig_cl_ord_id, id("C1"));
    assert_eq!(report.order_id, id("V1"));
    assert_eq!(report.account_id, id("ACC"));
    assert_eq!(report.route_id, id("FIX"));
    assert_eq!(report.symbol.venue, id("BINANCE"));
    assert_eq!(report.symbol.instrument, id("BTCUSDT"));
    assert_eq!(report.cxl_rej_reason, 1);
    assert_eq!(report.ts_exchange_ns, 1_784_275_200_000_000_000);
    assert_eq!(report.ts_recv_ns, 1_784_275_200_000_000_100);
    assert_eq!(report.text, id("too late"));

    let event = map_order_cancel_reject(&report);
    assert_eq!(event.exec_type, ExecutionType::CancelReject);
    assert_eq!(event.order_status, OrderStatus::New);
    assert_eq!(event.client_order_id, id("CANCEL-1"));
    assert_eq!(event.orig_client_order_id, id("C1"));
    assert_eq!(event.reason, RiskRejectReason::NoReason);
}

#[test]
fn maps_order_cancel_replace_reject() {
    let message = message(
        b"9",
        &[
            (CL_ORD_ID_TAG, b"REPLACE-1".as_slice()),
            (ORIG_CL_ORD_ID_TAG, b"C1".as_slice()),
            (ORD_STATUS_TAG, b"0".as_slice()),
            (CXL_REJ_RESPONSE_TO_TAG, b"2".as_slice()),
            (ACCOUNT_TAG, b"SUBACC".as_slice()),
        ],
    );
    let report = parse_order_cancel_reject(&message, parse_config(), 10).expect("map");
    let event = map_order_cancel_reject(&report);

    assert_eq!(
        report.response_to,
        FixCancelRejectResponseTo::OrderCancelReplaceRequest
    );
    assert_eq!(report.account_id, id("SUBACC"));
    assert_eq!(event.exec_type, ExecutionType::ReplaceReject);
    assert_eq!(event.venue_order_id, VenueOrderId::empty());
    assert_eq!(event.symbol.instrument, InstrumentId::empty());
}

#[test]
fn rejects_invalid_cancel_reject_response_to() {
    let message = message(
        b"9",
        &[
            (CL_ORD_ID_TAG, b"CANCEL-1".as_slice()),
            (ORIG_CL_ORD_ID_TAG, b"C1".as_slice()),
            (ORD_STATUS_TAG, b"0".as_slice()),
            (CXL_REJ_RESPONSE_TO_TAG, b"9".as_slice()),
        ],
    );
    assert_eq!(
        parse_order_cancel_reject(&message, parse_config(), 0),
        Err(FixReportParseError::InvalidCancelRejectResponseTo)
    );
}

#[test]
fn rejects_missing_required_report_tag() {
    let message = message(
        b"8",
        &[
            (EXEC_TYPE_TAG, b"0".as_slice()),
            (ORD_STATUS_TAG, b"0".as_slice()),
        ],
    );
    assert_eq!(
        parse_execution_report(&message, parse_config(), 0),
        Err(FixReportParseError::MissingTag(FixTag(CL_ORD_ID_TAG)))
    );
}

#[test]
fn rejects_unrepresentable_decimal_scale() {
    let message = message(
        b"8",
        &[
            (EXEC_TYPE_TAG, b"1".as_slice()),
            (ORD_STATUS_TAG, b"1".as_slice()),
            (CL_ORD_ID_TAG, b"C1".as_slice()),
            (ORDER_ID_TAG, b"V1".as_slice()),
            (EXEC_ID_TAG, b"E1".as_slice()),
            (SYMBOL_TAG, b"BTCUSDT".as_slice()),
            (LAST_QTY_TAG, b"1.234".as_slice()),
        ],
    );
    assert_eq!(
        parse_execution_report(&message, parse_config(), 0),
        Err(FixReportParseError::InvalidNumber(FixTag(LAST_QTY_TAG)))
    );
}

#[test]
fn encodes_order_request_to_fix_new_order_single() {
    let request = OrderRequest {
        client_order_id: id("C1"),
        account_id: id("ACC"),
        route_id: id("FIX"),
        strategy_id: id("S1"),
        symbol: ExecutionSymbol::new("BINANCE", "BTCUSDT").unwrap(),
        side: OrderSide::Buy,
        order_type: OrderType::Limit,
        time_in_force: TimeInForce::Day,
        quantity: OrderQty(125),
        limit_price: OrderPrice(650005),
        stop_price: OrderPrice(0),
        ts_exchange_ns: 0,
        ts_recv_ns: 10,
    };
    let config = FixRequestEncodeConfig::new()
        .with_quantity_scale(100)
        .with_price_scale(10);
    let fields =
        encode_order_request(config, &request, b"20260717-12:00:00.000").expect("encode");

    assert_eq!(fields.cl_ord_id, b"C1".to_vec());
    assert_eq!(fields.account, b"ACC".to_vec());
    assert_eq!(fields.symbol, b"BTCUSDT".to_vec());
    assert_eq!(fields.side.wire_value(), b'1');
    assert_eq!(fields.order_qty, b"1.25".to_vec());
    assert_eq!(fields.price, Some(b"65000.5".to_vec()));
    assert_eq!(fields.time_in_force.wire_value(), b'0');
}

#[test]
fn encodes_stop_limit_order_request_to_fix_new_order_single() {
    let request = OrderRequest {
        client_order_id: id("C2"),
        account_id: id("ACC"),
        route_id: id("FIX"),
        strategy_id: id("S1"),
        symbol: ExecutionSymbol::new("BINANCE", "BTCUSDT").unwrap(),
        side: OrderSide::Sell,
        order_type: OrderType::StopLimit,
        time_in_force: TimeInForce::Gtc,
        quantity: OrderQty(100),
        limit_price: OrderPrice(650005),
        stop_price: OrderPrice(649505),
        ts_exchange_ns: 0,
        ts_recv_ns: 10,
    };
    let config = FixRequestEncodeConfig::new()
        .with_quantity_scale(100)
        .with_price_scale(10);
    let fields =
        encode_order_request(config, &request, b"20260717-12:00:00.000").expect("encode");

    assert_eq!(fields.cl_ord_id, b"C2".to_vec());
    assert_eq!(fields.side.wire_value(), b'2');
    assert_eq!(fields.ord_type.wire_value(), b'4');
    assert_eq!(fields.order_qty, b"1".to_vec());
    assert_eq!(fields.price, Some(b"65000.5".to_vec()));
    assert_eq!(fields.stop_px, Some(b"64950.5".to_vec()));
    assert_eq!(fields.time_in_force.wire_value(), b'1');
}

#[test]
fn encodes_cancel_request_with_explicit_side_context() {
    let request = CancelRequest {
        client_order_id: id("CXL-1"),
        orig_client_order_id: id("C1"),
        venue_order_id: id("V1"),
        account_id: id("ACC"),
        route_id: id("FIX"),
        symbol: ExecutionSymbol::new("BINANCE", "BTCUSDT").unwrap(),
        ts_recv_ns: 10,
    };
    let context = FixCancelEncodeContext::new(OrderSide::Sell, b"20260717-12:00:01.000");
    let fields = encode_cancel_request(&request, context);

    assert_eq!(fields.orig_cl_ord_id, b"C1".to_vec());
    assert_eq!(fields.cl_ord_id, b"CXL-1".to_vec());
    assert_eq!(fields.account, b"ACC".to_vec());
    assert_eq!(fields.side.wire_value(), b'2');
}

#[test]
fn encodes_amend_request_with_explicit_order_context() {
    let request = AmendRequest {
        client_order_id: id("RPL-1"),
        orig_client_order_id: id("C1"),
        venue_order_id: id("V1"),
        account_id: id("ACC"),
        route_id: id("FIX"),
        symbol: ExecutionSymbol::new("BINANCE", "BTCUSDT").unwrap(),
        quantity: OrderQty(200),
        limit_price: OrderPrice(650100),
        ts_recv_ns: 10,
    };
    let config = FixRequestEncodeConfig::new()
        .with_quantity_scale(100)
        .with_price_scale(10);
    let context = FixAmendEncodeContext::new(
        OrderSide::Buy,
        OrderType::Limit,
        TimeInForce::Gtc,
        b"20260717-12:00:02.000",
    );
    let fields = encode_amend_request(config, &request, context).expect("encode");

    assert_eq!(fields.orig_cl_ord_id, b"C1".to_vec());
    assert_eq!(fields.cl_ord_id, b"RPL-1".to_vec());
    assert_eq!(fields.account, b"ACC".to_vec());
    assert_eq!(fields.order_qty, b"2".to_vec());
    assert_eq!(fields.price, Some(b"65010".to_vec()));
    assert_eq!(fields.time_in_force.wire_value(), b'1');
}

#[test]
fn encodes_stop_amend_request_with_explicit_stop_context() {
    let request = AmendRequest {
        client_order_id: id("RPL-STP"),
        orig_client_order_id: id("C1"),
        venue_order_id: id("V1"),
        account_id: id("ACC"),
        route_id: id("FIX"),
        symbol: ExecutionSymbol::new("BINANCE", "BTCUSDT").unwrap(),
        quantity: OrderQty(200),
        limit_price: OrderPrice(650100),
        ts_recv_ns: 10,
    };
    let config = FixRequestEncodeConfig::new()
        .with_quantity_scale(100)
        .with_price_scale(10);
    let context = FixStopAmendEncodeContext::new(
        OrderSide::Buy,
        OrderType::StopLimit,
        TimeInForce::Gtc,
        OrderPrice(649900),
        b"20260717-12:00:02.000",
    );
    let fields = encode_stop_amend_request(config, &request, context).expect("encode");

    assert_eq!(fields.ord_type.wire_value(), b'4');
    assert_eq!(fields.price, Some(b"65010".to_vec()));
    assert_eq!(fields.stop_px, Some(b"64990".to_vec()));
    assert_eq!(fields.time_in_force.wire_value(), b'1');
}

#[test]
fn request_encoder_rejects_invalid_shapes() {
    let mut request = OrderRequest {
        client_order_id: id("C1"),
        account_id: id("ACC"),
        route_id: id("FIX"),
        strategy_id: id("S1"),
        symbol: ExecutionSymbol::new("BINANCE", "BTCUSDT").unwrap(),
        side: OrderSide::Buy,
        order_type: OrderType::Stop,
        time_in_force: TimeInForce::Day,
        quantity: OrderQty(125),
        limit_price: OrderPrice(0),
        stop_price: OrderPrice(0),
        ts_exchange_ns: 0,
        ts_recv_ns: 10,
    };
    assert_eq!(
        encode_order_request(
            FixRequestEncodeConfig::new().with_quantity_scale(100),
            &request,
            b"20260717-12:00:00.000",
        ),
        Err(FixRequestEncodeError::InvalidPrice)
    );

    request.order_type = OrderType::Limit;
    request.limit_price = OrderPrice(650005);
    assert_eq!(
        encode_order_request(
            FixRequestEncodeConfig {
                quantity_scale: 3,
                price_scale: 10,
            },
            &request,
            b"20260717-12:00:00.000",
        ),
        Err(FixRequestEncodeError::InvalidScale)
    );

    let amend = AmendRequest {
        client_order_id: id("RPL-STOP"),
        orig_client_order_id: id("C1"),
        venue_order_id: id("V1"),
        account_id: id("ACC"),
        route_id: id("FIX"),
        symbol: ExecutionSymbol::new("BINANCE", "BTCUSDT").unwrap(),
        quantity: OrderQty(125),
        limit_price: OrderPrice(650005),
        ts_recv_ns: 10,
    };
    let context = FixAmendEncodeContext::new(
        OrderSide::Buy,
        OrderType::StopLimit,
        TimeInForce::Day,
        b"20260717-12:00:00.000",
    );
    assert_eq!(
        encode_amend_request(
            FixRequestEncodeConfig::new()
                .with_quantity_scale(100)
                .with_price_scale(10),
            &amend,
            context,
        ),
        Err(FixRequestEncodeError::UnsupportedOrderType)
    );

    let non_stop_context = FixStopAmendEncodeContext::new(
        OrderSide::Buy,
        OrderType::Limit,
        TimeInForce::Day,
        OrderPrice(650000),
        b"20260717-12:00:00.000",
    );
    assert_eq!(
        encode_stop_amend_request(
            FixRequestEncodeConfig::new()
                .with_quantity_scale(100)
                .with_price_scale(10),
            &amend,
            non_stop_context,
        ),
        Err(FixRequestEncodeError::UnsupportedOrderType)
    );
}

#[test]
fn fix_adapter_fails_closed_without_transport() {
    let cfg = FixSessionConfig::new("FIX.4.4", "SENDER", "TARGET", 30).unwrap();
    let mut adapter = FixExecutionAdapter::new(cfg);
    assert!(adapter.connect().is_err());
    assert_eq!(
        adapter.capabilities().latency_class,
        LatencyClass::NativeFix
    );
    assert!(adapter.health().degraded);
}

#[test]
fn fix44_trade_and_order_status_exec_types_are_supported() {
    assert_eq!(parse_exec_type(b"F"), Ok(FixExecType::Trade));
    assert_eq!(parse_exec_type(b"I"), Ok(FixExecType::Restated));
}
