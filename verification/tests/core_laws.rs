use orderflow_execution::{
    AmendRequest, BasicRiskGate, CancelRequest, ExecutionCoreError, ExecutionEvent,
    ExecutionSymbol, ExecutionType, FixedAscii, OrderPrice, OrderQty, OrderRequest, OrderSide,
    OrderStateMachine, OrderStatus, OrderType, RiskCheck, RiskContext, RiskLimits,
    RiskRejectReason, TimeInForce,
};

fn ident<const N: usize>(value: &str) -> FixedAscii<N> {
    FixedAscii::new(value).unwrap()
}

fn request() -> OrderRequest {
    OrderRequest {
        client_order_id: ident("C7"),
        account_id: ident("ACC"),
        route_id: ident("ROUTE"),
        strategy_id: ident("STRAT"),
        symbol: ExecutionSymbol::new("XNAS", "AAPL").unwrap(),
        side: OrderSide::Sell,
        order_type: OrderType::Limit,
        time_in_force: TimeInForce::Day,
        quantity: OrderQty(20),
        limit_price: OrderPrice(1_000),
        stop_price: OrderPrice(0),
        ts_exchange_ns: 10,
        ts_recv_ns: 11,
    }
}

fn open_limits() -> RiskLimits {
    RiskLimits {
        kill_switch: false,
        max_order_qty: 100,
        max_order_notional: 1_000_000,
        max_open_orders: 10,
        max_open_notional: 10_000_000,
        price_band_ticks: 50,
    }
}

fn enabled_ctx() -> RiskContext {
    RiskContext {
        open_orders: 0,
        open_notional: 0,
        reference_price: OrderPrice(1_000),
        duplicate_client_order_id: false,
        account_enabled: true,
        route_enabled: true,
        symbol_enabled: true,
        order_type_supported: true,
        tif_supported: true,
    }
}

fn cancel_request() -> CancelRequest {
    let req = request();
    CancelRequest {
        client_order_id: ident("C8"),
        orig_client_order_id: req.client_order_id,
        venue_order_id: ident("V7"),
        account_id: req.account_id,
        route_id: req.route_id,
        symbol: req.symbol,
        ts_recv_ns: 12,
    }
}

fn amend_request() -> AmendRequest {
    let req = request();
    AmendRequest {
        client_order_id: ident("C9"),
        orig_client_order_id: req.client_order_id,
        venue_order_id: ident("V7"),
        account_id: req.account_id,
        route_id: req.route_id,
        symbol: req.symbol,
        quantity: OrderQty(30),
        limit_price: OrderPrice(1_001),
        ts_recv_ns: 13,
    }
}

fn filled_machine() -> (OrderStateMachine, ExecutionEvent) {
    let req = request();
    let mut sm = OrderStateMachine::new(&req);
    let ack = ExecutionEvent::accepted(&req, ident("V7"));
    sm.apply(&ack).unwrap();
    let mut fill = ack;
    fill.exec_type = ExecutionType::Trade;
    fill.order_status = OrderStatus::Filled;
    fill.execution_id = ident("E1");
    fill.last_qty = OrderQty(20);
    fill.last_price = OrderPrice(1_000);
    fill.cumulative_qty = OrderQty(20);
    fill.leaves_qty = OrderQty(0);
    fill.average_price = OrderPrice(1_000);
    sm.apply(&fill).unwrap();
    (sm, fill)
}

#[test]
fn filled_order_refuses_every_event_but_status() {
    let (mut sm, fill) = filled_machine();
    let mut cancel = fill;
    cancel.exec_type = ExecutionType::CancelAck;
    cancel.order_status = OrderStatus::Cancelled;
    assert_eq!(sm.apply(&cancel), Err(ExecutionCoreError::InvalidTransition));
    let mut ack = fill;
    ack.exec_type = ExecutionType::Ack;
    ack.order_status = OrderStatus::New;
    assert_eq!(sm.apply(&ack), Err(ExecutionCoreError::InvalidTransition));
    assert_eq!(sm.state().status, OrderStatus::Filled);

    let mut status = fill;
    status.exec_type = ExecutionType::Status;
    assert_eq!(sm.apply(&status), Ok(()));
    assert_eq!(sm.state().cumulative_qty, OrderQty(20));
}

#[test]
fn accepted_events_keep_account_route_symbol_and_side() {
    let req = request();
    let mut sm = OrderStateMachine::new(&req);
    let ack = ExecutionEvent::accepted(&req, ident("V7"));
    sm.apply(&ack).unwrap();
    let mut partial = ack;
    partial.exec_type = ExecutionType::Trade;
    partial.order_status = OrderStatus::PartiallyFilled;
    partial.execution_id = ident("E1");
    partial.last_qty = OrderQty(5);
    partial.last_price = OrderPrice(1_000);
    partial.cumulative_qty = OrderQty(5);
    partial.leaves_qty = OrderQty(15);
    partial.average_price = OrderPrice(1_000);
    sm.apply(&partial).unwrap();
    let state = sm.state();
    assert_eq!(state.account_id, req.account_id);
    assert_eq!(state.route_id, req.route_id);
    assert!(state.symbol.same_as(&req.symbol));
    assert_eq!(state.side, OrderSide::Sell);
    assert_eq!(state.venue_order_id, ident("V7"));
    assert!(state.cumulative_qty.0 <= state.order_qty.0);
    assert_eq!(state.order_qty, OrderQty(20));
}

#[test]
fn overfill_beyond_order_quantity_is_refused() {
    let req = request();
    let mut sm = OrderStateMachine::new(&req);
    let ack = ExecutionEvent::accepted(&req, ident("V7"));
    sm.apply(&ack).unwrap();
    let mut fill = ack;
    fill.exec_type = ExecutionType::Trade;
    fill.order_status = OrderStatus::Filled;
    fill.execution_id = ident("E1");
    fill.last_qty = OrderQty(21);
    fill.last_price = OrderPrice(1_000);
    fill.cumulative_qty = OrderQty(21);
    fill.leaves_qty = OrderQty(0);
    fill.average_price = OrderPrice(1_000);
    assert!(sm.apply(&fill).is_err());
    assert_eq!(sm.state().cumulative_qty, OrderQty(0));
    assert_eq!(sm.state().status, OrderStatus::New);
}

#[test]
fn status_report_leaves_quantities_and_price_alone() {
    let req = request();
    let mut sm = OrderStateMachine::new(&req);
    let ack = ExecutionEvent::accepted(&req, ident("V7"));
    sm.apply(&ack).unwrap();
    let before = *sm.state();
    let mut status = ack;
    status.exec_type = ExecutionType::Status;
    status.order_status = OrderStatus::New;
    status.cumulative_qty = OrderQty(3);
    status.leaves_qty = OrderQty(17);
    status.average_price = OrderPrice(999);
    sm.apply(&status).unwrap();
    let after = sm.state();
    assert_eq!(after.order_qty, before.order_qty);
    assert_eq!(after.cumulative_qty, before.cumulative_qty);
    assert_eq!(after.leaves_qty, before.leaves_qty);
    assert_eq!(after.average_price, before.average_price);
    assert_eq!(after.client_order_id, before.client_order_id);
}

#[test]
fn kill_switch_rejects_new_amend_and_cancel() {
    let mut limits = open_limits();
    limits.kill_switch = true;
    let gate = BasicRiskGate::new(limits);
    let ctx = enabled_ctx();
    let new = gate.check_new(&request(), &ctx);
    let amend = gate.check_amend(&amend_request(), &ctx);
    let cancel = gate.check_cancel(&cancel_request(), &ctx);
    for decision in [new, amend, cancel] {
        assert!(!decision.allowed);
        assert_eq!(decision.reason, RiskRejectReason::KillSwitch);
    }
}

#[test]
fn request_passing_new_checks_also_passes_cancel_checks() {
    let gate = BasicRiskGate::new(open_limits());
    let ctx = enabled_ctx();
    let new = gate.check_new(&request(), &ctx);
    assert!(new.allowed);
    assert_eq!(new.reason, RiskRejectReason::NoReason);
    let cancel = gate.check_cancel(&cancel_request(), &ctx);
    assert!(cancel.allowed);
    assert_eq!(cancel.reason, RiskRejectReason::NoReason);

    let mut disabled = ctx;
    disabled.route_enabled = false;
    let cancel = gate.check_cancel(&cancel_request(), &disabled);
    assert!(!cancel.allowed);
    assert_eq!(cancel.reason, RiskRejectReason::RouteDisabled);
}

#[test]
fn amend_checks_replacement_quantity_against_limits() {
    let mut limits = open_limits();
    limits.max_order_qty = 25;
    let gate = BasicRiskGate::new(limits);
    let decision = gate.check_amend(&amend_request(), &enabled_ctx());
    assert!(!decision.allowed);
    assert_eq!(decision.reason, RiskRejectReason::MaxOrderQty);
}
