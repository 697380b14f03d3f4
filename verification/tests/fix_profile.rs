use orderflow_execution::fix_live::FixWorkingOrderContext;
use orderflow_execution::fix_model::{
    FixField, FixMessageFields, FixReportParseConfig, FixReportParseError,
    FixRequestEncodeConfig, FixRequestEncodeError, FixTag, CL_ORD_ID_TAG,
    CXL_REJ_RESPONSE_TO_TAG, ORDER_ID_TAG, ORD_STATUS_TAG, ORIG_CL_ORD_ID_TAG, SYMBOL_TAG,
    TRANSACT_TIME_TAG,
};
use orderflow_execution::fix_profile::{StandardFixExecutionProfile, StandardFixProfileError};
use orderflow_execution::fix_shell::{ExecutionCapabilities, LatencyClass};
use orderflow_execution::{
    AmendRequest, CancelRequest, ExecutionSymbol, ExecutionType, FixedAscii, OrderPrice,
    OrderQty, OrderRequest, OrderSide, OrderStatus, OrderType, TimeInForce,
};

fn id<const N: usize>(value: &str) -> FixedAscii<N> {
    FixedAscii::new(value).unwrap()
}

fn profile() -> StandardFixExecutionProfile<u8> {
    StandardFixExecutionProfile::new(
        44,
        FixRequestEncodeConfig::new()
            .with_quantity_scale(1)
            .with_price_scale(100),
        FixReportParseConfig::new(id("ACC1"), id("FIX-A"), id("XNAS"))
            .with_quantity_scale(1)
            .with_price_scale(100),
    )
}

fn amend(quantity: i64) -> AmendRequest {
    AmendRequest {
        client_order_id: id("RPL-1"),
        orig_client_order_id: id("C1"),
        venue_order_id: id("V1"),
        account_id: id("ACC1"),
        route_id: id("FIX-A"),
        symbol: ExecutionSymbol::new("XNAS", "AAPL").unwrap(),
        quantity: OrderQty(quantity),
        limit_price: OrderPrice(10_150),
        ts_recv_ns: 5,
    }
}

fn message(msg_type: &[u8], fields: &[(u32, &[u8])]) -> FixMessageFields {
    FixMessageFields::new(
        Some(msg_type.to_vec()),
        fields
            .iter()
            .map(|(tag, value)| FixField {
                tag: *tag,
                value: value.to_vec(),
            })
            .collect(),
    )
}

#[test]
fn standard_profile_advertises_every_native_capability() {
    let profile = profile();
    assert_eq!(profile.version(), 44);
    let caps = profile.capabilities();
    assert_eq!(caps.latency_class, LatencyClass::NativeFix);
    assert!(caps.stop_limit && caps.tif_gtd && caps.amend && caps.native_client_order_id);
    let mut narrowed: ExecutionCapabilities = caps;
    narrowed.amend = false;
    assert!(!profile.with_capabilities(narrowed).capabilities().amend);
}

#[test]
fn standard_profile_encodes_submit_and_cancel() {
    let profile = profile();
    let request = OrderRequest {
        client_order_id: id("C1"),
        account_id: id("ACC1"),
        route_id: id("FIX-A"),
        strategy_id: id("S1"),
        symbol: ExecutionSymbol::new("XNAS", "AAPL").unwrap(),
        side: OrderSide::Sell,
        order_type: OrderType::Limit,
        time_in_force: TimeInForce::Day,
        quantity: OrderQty(30),
        limit_price: OrderPrice(10_125),
        stop_price: OrderPrice(0),
        ts_exchange_ns: 0,
        ts_recv_ns: 1,
    };
    let fields = profile
        .encode_submit(&request, b"20260812-12:34:56.123")
        .expect("submit");
    assert_eq!(fields.order_qty, b"30".to_vec());
    assert_eq!(fields.price, Some(b"101.25".to_vec()));
    assert_eq!(fields.stop_px, None);
    let mut bad = request;
    bad.quantity = OrderQty(0);
    assert_eq!(
        profile.encode_submit(&bad, b"t").map(|_| ()),
        Err(StandardFixProfileError::Request(
            FixRequestEncodeError::InvalidQuantity
        ))
    );

    let cancel = CancelRequest {
        client_order_id: id("CXL-1"),
        orig_client_order_id: id("C1"),
        venue_order_id: id("V1"),
        account_id: id("ACC1"),
        route_id: id("FIX-A"),
        symbol: ExecutionSymbol::new("XNAS", "AAPL").unwrap(),
        ts_recv_ns: 2,
    };
    let original = FixWorkingOrderContext::new(
        OrderSide::Sell,
        OrderType::Limit,
        TimeInForce::Day,
        OrderPrice(0),
    );
    let fields = profile.encode_cancel(&cancel, original, b"t");
    assert_eq!(fields.orig_cl_ord_id, b"C1".to_vec());
    assert_eq!(fields.cl_ord_id, b"CXL-1".to_vec());
    assert_eq!(fields.side.wire_value(), b'2');
}

#[test]
fn standard_profile_amends_by_original_order_type() {
    let profile = profile();
    let limit = FixWorkingOrderContext::new(
        OrderSide::Buy,
        OrderType::Limit,
        TimeInForce::Gtc,
        OrderPrice(0),
    );
    let fields = profile.encode_amend(&amend(40), limit, b"t").expect("amend");
    assert_eq!(fields.order_qty, b"40".to_vec());
    assert_eq!(fields.price, Some(b"101.5".to_vec()));
    assert_eq!(fields.stop_px, None);

    let stop_limit = FixWorkingOrderContext::new(
        OrderSide::Buy,
        OrderType::StopLimit,
        TimeInForce::Gtc,
        OrderPrice(10_100),
    );
    let fields = profile
        .encode_amend(&amend(40), stop_limit, b"t")
        .expect("stop amend");
    assert_eq!(fields.ord_type.wire_value(), b'4');
    assert_eq!(fields.stop_px, Some(b"101".to_vec()));
    assert_eq!(
        profile.encode_amend(&amend(-1), stop_limit, b"t").map(|_| ()),
        Err(StandardFixProfileError::Request(
            FixRequestEncodeError::InvalidQuantity
        ))
    );
}

#[test]
fn standard_profile_maps_only_execution_messages() {
    let profile = profile();
    let reject = message(
        b"9",
        &[
            (ORDER_ID_TAG, b"V1".as_slice()),
            (CL_ORD_ID_TAG, b"RPL-1".as_slice()),
            (ORIG_CL_ORD_ID_TAG, b"C1".as_slice()),
            (ORD_STATUS_TAG, b"0".as_slice()),
            (CXL_REJ_RESPONSE_TO_TAG, b"2".as_slice()),
            (SYMBOL_TAG, b"AAPL".as_slice()),
            (TRANSACT_TIME_TAG, b"1784275200000000000".as_slice()),
        ],
    );
    let event = profile
        .map_application(&reject, 7)
        .expect("mapped")
        .expect("event");
    assert_eq!(event.exec_type, ExecutionType::ReplaceReject);
    assert_eq!(event.order_status, OrderStatus::New);
    assert_eq!(event.client_order_id, id("RPL-1"));

    let heartbeat = message(b"0", &[]);
    assert_eq!(profile.map_application(&heartbeat, 7), Ok(None));

    let broken = message(b"8", &[]);
    let error = profile.map_application(&broken, 7).unwrap_err();
    assert_eq!(
        error,
        StandardFixProfileError::Report(FixReportParseError::MissingTag(FixTag(150)))
    );
    assert_eq!(
        error.to_string(),
        "FIX profile report error: FIX execution report is missing tag 150"
    );
}
