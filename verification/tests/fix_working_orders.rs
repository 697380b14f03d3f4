use orderflow_execution::fix_live::FixWorkingOrderContext;
use orderflow_execution::fix_model::{FixReportParseConfig, FixRequestEncodeConfig};
use orderflow_execution::fix_profile::StandardFixExecutionProfile;
use orderflow_execution::fix_working_orders::{FixWorkingOrderError, FixWorkingOrders};
use orderflow_execution::{
    AmendRequest, CancelRequest, ClientOrderId, ExecutionEvent, ExecutionSymbol, ExecutionType, FixedAscii, OrderPrice,
    OrderQty, OrderRequest, OrderSide, OrderStatus, OrderType, TimeInForce,
};

fn cl(value: &str) -> ClientOrderId {
    ClientOrderId::new(value).unwrap()
}

fn context() -> FixWorkingOrderContext {
    FixWorkingOrderContext::new(OrderSide::Buy, OrderType::Limit, TimeInForce::Day, OrderPrice(0))
}

fn request(id: &str) -> OrderRequest {
    OrderRequest {
        client_order_id: cl(id),
        account_id: FixedAscii::new("ACC").unwrap(),
        route_id: FixedAscii::new("FIX").unwrap(),
        strategy_id: FixedAscii::new("S").unwrap(),
        symbol: ExecutionSymbol::new("XCME", "ESZ6").unwrap(),
        side: OrderSide::Buy,
        order_type: OrderType::Limit,
        time_in_force: TimeInForce::Day,
        quantity: OrderQty(5),
        limit_price: OrderPrice(100),
        stop_price: OrderPrice(0),
        ts_exchange_ns: 1,
        ts_recv_ns: 2,
    }
}

#[test]
fn working_orders_track_submissions_within_bound() {
    let mut book = FixWorkingOrders::new(2);
    assert_eq!(book.track_submitted(cl("A"), context()), Ok(()));
    assert_eq!(
        book.track_submitted(cl("A"), context()),
        Err(FixWorkingOrderError::DuplicateClientOrderId)
    );
    assert_eq!(book.track_submitted(cl("B"), context()), Ok(()));
    assert_eq!(
        book.track_submitted(cl("C"), context()),
        Err(FixWorkingOrderError::BufferFull)
    );
    assert_eq!(book.working_order_count(), 2);
    assert_eq!(book.find_working(cl("B")), Some(1));
    assert_eq!(book.find_working(cl("Z")), None);
    assert_eq!(book.cancel_context(cl("A")), Ok(context()));
    assert_eq!(
        book.cancel_context(cl("Z")),
        Err(FixWorkingOrderError::UnknownOrder)
    );
}

#[test]
fn working_orders_follow_replace_lifecycle() {
    let mut book = FixWorkingOrders::new(4);
    book.track_submitted(cl("A"), context()).unwrap();
    let (index, original) = book.replace_context(cl("A")).unwrap();
    assert_eq!(original, context());
    book.mark_replace_pending(index, cl("A2"));
    assert_eq!(
        book.replace_context(cl("A")),
        Err(FixWorkingOrderError::AmendPending)
    );
    assert_eq!(book.find_working(cl("A2")), Some(0));

    let req = request("A2");
    let mut ack = ExecutionEvent::accepted(&req, FixedAscii::new("V1").unwrap());
    ack.orig_client_order_id = cl("A");
    ack.exec_type = ExecutionType::ReplaceAck;
    ack.order_status = OrderStatus::New;
    book.update_working_order(&ack);
    let order = book.order(0);
    assert_eq!(order.current_id, cl("A2"));
    assert_eq!(order.pending_replace_id, None);
    assert_eq!(book.find_working(cl("A")), None);

    let mut fill = ExecutionEvent::accepted(&req, FixedAscii::new("V1").unwrap());
    fill.exec_type = ExecutionType::Trade;
    fill.order_status = OrderStatus::Filled;
    book.update_working_order(&fill);
    assert_eq!(book.working_order_count(), 0);
}

#[test]
fn replace_reject_clears_pending_and_terminal_events_untrack() {
    let mut book = FixWorkingOrders::new(4);
    book.track_submitted(cl("A"), context()).unwrap();
    book.track_submitted(cl("B"), context()).unwrap();
    book.track_submitted(cl("C"), context()).unwrap();
    book.mark_replace_pending(1, cl("B2"));

    let req = request("B2");
    let mut reject = ExecutionEvent::accepted(&req, FixedAscii::new("V2").unwrap());
    reject.orig_client_order_id = cl("B");
    reject.exec_type = ExecutionType::ReplaceReject;
    reject.order_status = OrderStatus::New;
    book.update_working_order(&reject);
    assert_eq!(book.order(1).current_id, cl("B"));
    assert_eq!(book.order(1).pending_replace_id, None);

    let mut cancel = ExecutionEvent::accepted(&request("A"), FixedAscii::new("V3").unwrap());
    cancel.exec_type = ExecutionType::CancelAck;
    cancel.order_status = OrderStatus::Cancelled;
    book.update_working_order(&cancel);
    assert_eq!(book.working_order_count(), 2);
    assert_eq!(book.order(0).current_id, cl("C"));
    assert_eq!(book.order(1).current_id, cl("B"));

    let mut untracked = cancel;
    untracked.client_order_id = cl("Q");
    book.update_working_order(&untracked);
    assert_eq!(book.working_order_count(), 2);
}

#[test]
fn restore_is_idempotent_and_fails_closed_on_conflicts() {
    let mut book = FixWorkingOrders::new(1);
    assert_eq!(book.restore_working_order(cl("R"), context()), Ok(()));
    assert_eq!(book.restore_working_order(cl("R"), context()), Ok(()));
    assert_eq!(book.working_order_count(), 1);
    let other =
        FixWorkingOrderContext::new(OrderSide::Sell, OrderType::Limit, TimeInForce::Day, OrderPrice(0));
    assert_eq!(
        book.restore_working_order(cl("R"), other),
        Err(FixWorkingOrderError::ConflictingRecoveryContext)
    );
    assert_eq!(
        book.restore_working_order(cl("S"), context()),
        Err(FixWorkingOrderError::BufferFull)
    );
}

#[test]
fn restored_working_context_enables_post_restart_cancel() {
    let mut book = FixWorkingOrders::new(16_384);
    let context =
        FixWorkingOrderContext::new(OrderSide::Buy, OrderType::Limit, TimeInForce::Day, OrderPrice(0));
    book.restore_working_order(cl("C1"), context).unwrap();
    book.restore_working_order(cl("C1"), context).unwrap();
    assert_eq!(book.working_order_count(), 1);
    assert!(book
        .restore_working_order(
            cl("C1"),
            FixWorkingOrderContext::new(
                OrderSide::Sell,
                OrderType::Limit,
                TimeInForce::Day,
                OrderPrice(0),
            ),
        )
        .is_err());

    let profile = StandardFixExecutionProfile::new(
        44u8,
        FixRequestEncodeConfig::new(),
        FixReportParseConfig::new(
            FixedAscii::new("ACC1").unwrap(),
            FixedAscii::new("FIX-A").unwrap(),
            FixedAscii::new("XNAS").unwrap(),
        ),
    );
    let cancel = CancelRequest {
        client_order_id: cl("CXL-1"),
        orig_client_order_id: cl("C1"),
        venue_order_id: FixedAscii::new("VENUE-1").unwrap(),
        account_id: FixedAscii::new("ACC1").unwrap(),
        route_id: FixedAscii::new("FIX-A").unwrap(),
        symbol: ExecutionSymbol::new("XNAS", "AAPL").unwrap(),
        ts_recv_ns: 1,
    };
    let original = book.cancel_context(cancel.orig_client_order_id).unwrap();
    let fields = profile.encode_cancel(&cancel, original, b"20260812-12:34:56.123");
    assert_eq!(fields.orig_cl_ord_id, b"C1".to_vec());
    assert_eq!(fields.cl_ord_id, b"CXL-1".to_vec());
    assert_eq!(fields.side.wire_value(), b'1');
}

#[test]
fn cancel_and_amend_reuse_tracked_original_context() {
    let profile = StandardFixExecutionProfile::new(
        44u8,
        FixRequestEncodeConfig::new()
            .with_quantity_scale(1)
            .with_price_scale(100),
        FixReportParseConfig::new(
            FixedAscii::new("ACC1").unwrap(),
            FixedAscii::new("FIX-A").unwrap(),
            FixedAscii::new("XNAS").unwrap(),
        ),
    );
    let mut book = FixWorkingOrders::new(16_384);
    let order = request("C1");
    book.track_submitted(
        order.client_order_id,
        FixWorkingOrderContext::new(order.side, order.order_type, order.time_in_force, order.stop_price),
    )
    .unwrap();

    let amend = AmendRequest {
        client_order_id: cl("C2"),
        orig_client_order_id: cl("C1"),
        venue_order_id: FixedAscii::new("VENUE-1").unwrap(),
        account_id: FixedAscii::new("ACC1").unwrap(),
        route_id: FixedAscii::new("FIX-A").unwrap(),
        symbol: ExecutionSymbol::new("XCME", "ESZ6").unwrap(),
        quantity: OrderQty(80),
        limit_price: OrderPrice(12_300),
        ts_recv_ns: 2,
    };
    let (index, original) = book.replace_context(amend.orig_client_order_id).unwrap();
    let replace = profile.encode_amend(&amend, original, b"t").unwrap();
    book.mark_replace_pending(index, amend.client_order_id);
    assert_eq!(replace.orig_cl_ord_id, b"C1".to_vec());
    assert_eq!(replace.cl_ord_id, b"C2".to_vec());
    assert_eq!(replace.order_qty, b"80".to_vec());
    assert_eq!(replace.price, Some(b"123".to_vec()));

    let cancel = CancelRequest {
        client_order_id: cl("CXL-1"),
        orig_client_order_id: cl("C1"),
        venue_order_id: FixedAscii::new("VENUE-1").unwrap(),
        account_id: FixedAscii::new("ACC1").unwrap(),
        route_id: FixedAscii::new("FIX-A").unwrap(),
        symbol: ExecutionSymbol::new("XCME", "ESZ6").unwrap(),
        ts_recv_ns: 3,
    };
    let original = book.cancel_context(cancel.orig_client_order_id).unwrap();
    let fields = profile.encode_cancel(&cancel, original, b"t");
    assert_eq!(fields.orig_cl_ord_id, b"C1".to_vec());
    assert_eq!(fields.side.wire_value(), b'1');
}
