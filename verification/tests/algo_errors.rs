use orderflow_execution::algo_metrics::AlgoTcaBenchmark;
use orderflow_execution::algo_model::{
    AlgoError, AlgoProgress, ChildOrderId, ParentOrder, ParentOrderId, ParentOrderStatus,
};
use orderflow_execution::algo_passive::{
    PassivePegMode, PassiveQueueConfig, PassiveQueueContext, PassiveQueuePlanner,
};
use orderflow_execution::algo_replay::AlgoReplayIdScheme;
use orderflow_execution::algo_risk::{AlgoRiskContext, AlgoRiskLimits};
use orderflow_execution::algo_sim::AlgoSimMarket;
use orderflow_execution::algo_slicing::TwapSlicePlanner;
use orderflow_execution::{
    AccountId, ClientOrderId, ExecutionCoreError, ExecutionSymbol, OrderPrice, OrderQty,
    OrderSide, OrderType, RouteId, StrategyId, TimeInForce,
};

fn build_parent(
    total_qty: OrderQty,
    start_ns: u64,
    end_ns: u64,
    min_clip: OrderQty,
    max_clip: OrderQty,
) -> Result<ParentOrder, AlgoError> {
    ParentOrder::new(
        ParentOrderId::new("err-parent").expect("id"),
        AccountId::new("acct").expect("account"),
        RouteId::new("sim").expect("route"),
        StrategyId::new("errs").expect("strategy"),
        ExecutionSymbol::new("SIM", "CLZ6").expect("symbol"),
        OrderSide::Buy,
        OrderType::Limit,
        TimeInForce::Day,
        total_qty,
        OrderPrice(7_000),
        OrderPrice(0),
        start_ns,
        end_ns,
        min_clip,
        max_clip,
        0,
    )
}

fn valid_parent() -> ParentOrder {
    build_parent(OrderQty(50), 100, 1_100, OrderQty(5), OrderQty(20)).expect("parent")
}

fn passive_inputs() -> (PassiveQueuePlanner, PassiveQueueContext) {
    let planner = PassiveQueuePlanner::new(
        PassiveQueueConfig::new(PassivePegMode::SameSide, OrderPrice(1)).expect("config"),
    );
    let context = PassiveQueueContext::new(
        OrderPrice(6_999),
        OrderPrice(7_001),
        OrderQty(10),
        OrderQty(100),
        5,
    )
    .expect("context");
    (planner, context)
}

#[test]
fn parent_clip_bounds_and_shape_are_validated() {
    assert_eq!(
        build_parent(OrderQty(50), 100, 1_100, OrderQty(30), OrderQty(20)),
        Err(AlgoError::InvalidClipBounds)
    );
    assert_eq!(
        build_parent(OrderQty(50), 100, 1_100, OrderQty(0), OrderQty(20)),
        Err(AlgoError::InvalidClipBounds)
    );
    assert_eq!(
        build_parent(OrderQty(0), 100, 1_100, OrderQty(5), OrderQty(20)),
        Err(AlgoError::Core(ExecutionCoreError::InvalidQuantity))
    );
    assert_eq!(
        build_parent(OrderQty(50), 1_100, 1_100, OrderQty(5), OrderQty(20)),
        Err(AlgoError::InvalidTimeWindow)
    );
}

#[test]
fn twap_planner_refuses_zero_interval() {
    assert_eq!(
        TwapSlicePlanner::try_new(0).map(|_| ()),
        Err(AlgoError::InvalidSliceInterval)
    );
    assert!(TwapSlicePlanner::try_new(250).is_ok());
}

#[test]
fn risk_inputs_refuse_negative_and_out_of_range_values() {
    assert_eq!(
        AlgoRiskLimits::new(OrderQty(-1), OrderQty(1), 1, 0, 0, OrderQty(0), 1, 1),
        Err(AlgoError::InvalidRiskParameters)
    );
    assert_eq!(
        AlgoRiskLimits::new(OrderQty(1), OrderQty(1), 1, 10_001, 0, OrderQty(0), 1, 1),
        Err(AlgoError::InvalidRiskParameters)
    );
    assert_eq!(
        AlgoRiskContext::new(OrderPrice(0)),
        Err(AlgoError::InvalidRiskParameters)
    );
}

#[test]
fn simulation_and_metrics_inputs_are_validated() {
    assert_eq!(
        AlgoSimMarket::new(OrderQty(-5), OrderPrice(100), false, false, 0),
        Err(AlgoError::InvalidSimulationParameters)
    );
    assert_eq!(
        AlgoSimMarket::new(OrderQty(5), OrderPrice(0), false, false, 0),
        Err(AlgoError::InvalidSimulationParameters)
    );
    assert!(AlgoSimMarket::new(OrderQty(5), OrderPrice(0), true, false, 0).is_ok());
    assert_eq!(
        AlgoTcaBenchmark::new(OrderPrice(0), OrderPrice(0), OrderPrice(0)),
        Err(AlgoError::InvalidMetricsParameters)
    );
    assert_eq!(
        AlgoTcaBenchmark::new(OrderPrice(10), OrderPrice(-1), OrderPrice(0)),
        Err(AlgoError::InvalidMetricsParameters)
    );
}

#[test]
fn generated_identifiers_must_fit_order_ids() {
    let scheme =
        AlgoReplayIdScheme::new("abcdefghijklmnopqrstuvwx", "client").expect("scheme");
    assert_eq!(
        scheme.child_id(u64::MAX),
        Err(AlgoError::GeneratedIdentifierTooLong)
    );
    assert_eq!(
        scheme.child_id(7).expect("fits").as_str(),
        "abcdefghijklmnopqrstuvwx-7"
    );
    assert_eq!(
        scheme.client_order_id(12).expect("fits").as_str(),
        "client-12"
    );
}

#[test]
fn passive_planner_refuses_terminal_parent_and_foreign_progress() {
    let (planner, context) = passive_inputs();
    let parent = valid_parent();
    let progress = AlgoProgress::new(parent.id(), parent.total_qty());
    let parent = parent.with_status(ParentOrderStatus::Cancelled);
    assert_eq!(
        planner
            .plan_passive_slice(
                &parent,
                progress,
                500,
                context,
                ChildOrderId::new("child-x").expect("child"),
                ClientOrderId::new("cl-x").expect("client"),
                500,
            )
            .map(|_| ()),
        Err(AlgoError::ParentTerminal)
    );

    let parent = valid_parent();
    let foreign = AlgoProgress::new(ParentOrderId::new("other").expect("id"), parent.total_qty());
    assert_eq!(
        planner
            .plan_passive_slice(
                &parent,
                foreign,
                500,
                context,
                ChildOrderId::new("child-y").expect("child"),
                ClientOrderId::new("cl-y").expect("client"),
                500,
            )
            .map(|_| ()),
        Err(AlgoError::InvalidProgress)
    );
}
