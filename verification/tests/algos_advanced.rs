use orderflow_execution::algo_market_making::{
    MarketMakerConfig, MarketMakerContext, MarketMakerPlanner,
};
use orderflow_execution::algo_model::{
    AlgoError, AlgoProgress, ChildOrderId, ParentOrder, ParentOrderId, ParentOrderStatus,
    DEFAULT_ALGO_DECISION_CAPACITY,
};
use orderflow_execution::algo_portfolio::{
    BasketLeg, BasketLegRole, BasketPlanner, SpreadConfig, SpreadPlanner, SpreadQuote,
};
use orderflow_execution::algo_replay::{
    replay_twap_into, AlgoReplayEvent, AlgoReplayIdScheme, AlgoReplayInput,
};
use orderflow_execution::algo_shortfall::{
    ImplementationShortfallConfig, ImplementationShortfallContext, ImplementationShortfallPlanner,
};
use orderflow_execution::algo_slicing::TwapSlicePlanner;
use orderflow_execution::algo_sor::{SorRouteCandidate, SorRouteStatus};
use orderflow_execution::algo_sweep::{SweepConfig, SweepPlanner};
use orderflow_execution::{
    AccountId, ClientOrderId, ExecutionEvent, ExecutionId, ExecutionSymbol, ExecutionText,
    ExecutionType, OrderPrice, OrderQty, OrderSide, OrderStatus, OrderType, RiskRejectReason,
    RouteId, StrategyId, TimeInForce, VenueOrderId,
};

fn parent() -> ParentOrder {
    ParentOrder::new(
        ParentOrderId::new("parent-1").expect("id"),
        AccountId::new("acct").expect("account"),
        RouteId::new("sim").expect("route"),
        StrategyId::new("twap").expect("strategy"),
        ExecutionSymbol::new("SIM", "ESZ6").expect("symbol"),
        OrderSide::Buy,
        OrderType::Limit,
        TimeInForce::Day,
        OrderQty(100),
        OrderPrice(500_000),
        OrderPrice(0),
        1_000,
        11_000,
        OrderQty(10),
        OrderQty(25),
        0,
    )
    .expect("parent")
}

fn sell_parent(
    id: &str,
    total_qty: OrderQty,
    min_clip: OrderQty,
    max_clip: OrderQty,
) -> ParentOrder {
    ParentOrder::new(
        ParentOrderId::new(id).expect("id"),
        AccountId::new("acct").expect("account"),
        RouteId::new("sim").expect("route"),
        StrategyId::new("spread").expect("strategy"),
        ExecutionSymbol::new("SIM", "NQZ6").expect("symbol"),
        OrderSide::Sell,
        OrderType::Limit,
        TimeInForce::Day,
        total_qty,
        OrderPrice(1_000_000),
        OrderPrice(0),
        1_000,
        11_000,
        min_clip,
        max_clip,
        0,
    )
    .expect("sell parent")
}


#[test]
fn replay_twap_is_deterministic() {
    let parent = parent();
    let planner = TwapSlicePlanner::new(1_000);
    let inputs = [
        AlgoReplayInput::new(
            1,
            AlgoReplayEvent::Timer {
                timestamp_ns: 1_000,
            },
        ),
        AlgoReplayInput::new(
            2,
            AlgoReplayEvent::Timer {
                timestamp_ns: 2_000,
            },
        ),
        AlgoReplayInput::new(
            3,
            AlgoReplayEvent::Timer {
                timestamp_ns: 3_000,
            },
        ),
    ];
    let mut first_steps = Vec::new();
    let mut second_steps = Vec::new();
    let first = replay_twap_into::<DEFAULT_ALGO_DECISION_CAPACITY>(
        parent,
        planner,
        &inputs,
        AlgoReplayIdScheme::default(),
        &mut first_steps,
    )
    .expect("first replay");
    let second = replay_twap_into::<DEFAULT_ALGO_DECISION_CAPACITY>(
        parent,
        planner,
        &inputs,
        AlgoReplayIdScheme::default(),
        &mut second_steps,
    )
    .expect("second replay");

    assert_eq!(first, second);
    assert_eq!(first_steps, second_steps);
    assert_eq!(first.input_events(), 3);
    assert_eq!(first.submitted_children(), 3);
    assert_eq!(first.final_progress().released_qty(), OrderQty(30));
}

#[test]
fn replay_folds_execution_events() {
    let parent = parent();
    let planner = TwapSlicePlanner::new(1_000);
    let fill = ExecutionEvent {
        exec_type: ExecutionType::Trade,
        order_status: OrderStatus::Filled,
        client_order_id: ClientOrderId::new("cl-1").expect("client"),
        orig_client_order_id: ClientOrderId::empty(),
        venue_order_id: VenueOrderId::new("venue-1").expect("venue"),
        execution_id: ExecutionId::new("exec-1").expect("exec"),
        account_id: parent.account_id(),
        route_id: parent.route_id(),
        symbol: parent.symbol(),
        last_qty: OrderQty(10),
        last_price: OrderPrice(500_000),
        cumulative_qty: OrderQty(10),
        leaves_qty: OrderQty(0),
        average_price: OrderPrice(500_000),
        ts_exchange_ns: 2,
        ts_recv_ns: 3,
        reason: RiskRejectReason::NoReason,
        text: ExecutionText::empty(),
    };
    let inputs = [
        AlgoReplayInput::new(
            1,
            AlgoReplayEvent::Timer {
                timestamp_ns: 1_000,
            },
        ),
        AlgoReplayInput::new(2, AlgoReplayEvent::Execution(fill)),
    ];
    let mut steps = Vec::new();
    let summary = replay_twap_into::<DEFAULT_ALGO_DECISION_CAPACITY>(
        parent,
        planner,
        &inputs,
        AlgoReplayIdScheme::default(),
        &mut steps,
    )
    .expect("replay");

    assert_eq!(summary.final_progress().released_qty(), OrderQty(10));
    assert_eq!(summary.final_progress().completed_qty(), OrderQty(10));
    assert_eq!(summary.final_progress().open_qty(), OrderQty(0));
    assert_eq!(steps[0].decision().len(), 1);
    assert!(steps[1].decision().is_empty());
}

#[test]
fn replay_reports_decision_capacity_errors() {
    let parent = parent();
    let inputs = [AlgoReplayInput::new(
        1,
        AlgoReplayEvent::Timer {
            timestamp_ns: 1_000,
        },
    )];
    let mut steps = Vec::new();
    assert_eq!(
        replay_twap_into::<0>(
            parent,
            TwapSlicePlanner::new(1_000),
            &inputs,
            AlgoReplayIdScheme::default(),
            &mut steps,
        ),
        Err(AlgoError::DecisionFull { capacity: 0 })
    );
    assert!(steps.is_empty());
}

#[test]
fn sweep_walks_buy_levels_until_clip_or_collar() {
    let parent = parent();
    let planner =
        SweepPlanner::new(SweepConfig::new(3, OrderPrice(500_025), OrderQty(0)).expect("cfg"));
    let candidates = [
        SorRouteCandidate::new(
            RouteId::new("r2").expect("route"),
            OrderPrice(500_000),
            OrderQty(10),
        )
        .expect("candidate"),
        SorRouteCandidate::new(
            RouteId::new("r1").expect("route"),
            OrderPrice(499_975),
            OrderQty(10),
        )
        .expect("candidate"),
        SorRouteCandidate::new(
            RouteId::new("r3").expect("route"),
            OrderPrice(500_050),
            OrderQty(10),
        )
        .expect("candidate"),
    ];
    let child_ids = [
        ChildOrderId::new("sw-1").expect("child"),
        ChildOrderId::new("sw-2").expect("child"),
        ChildOrderId::new("sw-3").expect("child"),
    ];
    let client_ids = [
        ClientOrderId::new("sw-cl-1").expect("client"),
        ClientOrderId::new("sw-cl-2").expect("client"),
        ClientOrderId::new("sw-cl-3").expect("client"),
    ];

    let decision = planner
        .plan_sweep::<3>(
            &parent,
            AlgoProgress::new(parent.id(), parent.total_qty()),
            2_000,
            &candidates,
            &child_ids,
            &client_ids,
            2_000,
        )
        .expect("decision");

    assert_eq!(decision.len(), 2);
    assert_eq!(decision.total_qty(), OrderQty(20));
    assert!(decision.collar_reached());
    let prices: Vec<i64> = decision
        .allocations()
        .map(|allocation| allocation.plan().request().limit_price.0)
        .collect();
    assert_eq!(prices, vec![499_975, 500_000]);
}

#[test]
fn sweep_respects_sell_side_collar() {
    let sell_parent = ParentOrder::new(
        ParentOrderId::new("parent-sweep-sell").expect("id"),
        AccountId::new("acct").expect("account"),
        RouteId::new("sim").expect("route"),
        StrategyId::new("sweep").expect("strategy"),
        ExecutionSymbol::new("SIM", "ESZ6").expect("symbol"),
        OrderSide::Sell,
        OrderType::Limit,
        TimeInForce::Day,
        OrderQty(100),
        OrderPrice(500_000),
        OrderPrice(0),
        1_000,
        11_000,
        OrderQty(10),
        OrderQty(25),
        0,
    )
    .expect("parent");
    let planner =
        SweepPlanner::new(SweepConfig::new(2, OrderPrice(499_975), OrderQty(0)).expect("cfg"));
    let candidates = [
        SorRouteCandidate::new(
            RouteId::new("sell-good").expect("route"),
            OrderPrice(500_025),
            OrderQty(25),
        )
        .expect("candidate"),
        SorRouteCandidate::new(
            RouteId::new("sell-bad").expect("route"),
            OrderPrice(499_950),
            OrderQty(25),
        )
        .expect("candidate"),
    ];
    let child_ids = [
        ChildOrderId::new("sell-sw-1").expect("child"),
        ChildOrderId::new("sell-sw-2").expect("child"),
    ];
    let client_ids = [
        ClientOrderId::new("sell-cl-1").expect("client"),
        ClientOrderId::new("sell-cl-2").expect("client"),
    ];

    let decision = planner
        .plan_sweep::<2>(
            &sell_parent,
            AlgoProgress::new(sell_parent.id(), sell_parent.total_qty()),
            2_000,
            &candidates,
            &child_ids,
            &client_ids,
            2_000,
        )
        .expect("decision");

    assert_eq!(decision.len(), 1);
    assert_eq!(
        decision
            .allocations()
            .next()
            .expect("allocation")
            .plan()
            .request()
            .limit_price,
        OrderPrice(500_025)
    );
    assert!(decision.collar_reached());
}

#[test]
fn sweep_suppresses_decision_below_min_fill() {
    let parent = parent();
    let planner =
        SweepPlanner::new(SweepConfig::new(1, OrderPrice(500_000), OrderQty(20)).expect("cfg"));
    let candidates = [SorRouteCandidate::new(
        RouteId::new("small").expect("route"),
        OrderPrice(499_975),
        OrderQty(10),
    )
    .expect("candidate")];
    let child_ids = [ChildOrderId::new("small-sw").expect("child")];
    let client_ids = [ClientOrderId::new("small-cl").expect("client")];

    let decision = planner
        .plan_sweep::<1>(
            &parent,
            AlgoProgress::new(parent.id(), parent.total_qty()),
            2_000,
            &candidates,
            &child_ids,
            &client_ids,
            2_000,
        )
        .expect("decision");

    assert!(decision.is_empty());
}

#[test]
fn sweep_rejects_invalid_config() {
    assert_eq!(
        SweepConfig::new(0, OrderPrice(1), OrderQty(0)),
        Err(AlgoError::InvalidSweepParameters)
    );
    assert_eq!(
        SweepConfig::new(1, OrderPrice(0), OrderQty(0)),
        Err(AlgoError::InvalidSweepParameters)
    );
}

#[test]
fn basket_plans_synchronized_due_legs() {
    let first = BasketLeg::new(parent(), BasketLegRole::Primary, 10_000).expect("leg");
    let second_parent = ParentOrder::new(
        ParentOrderId::new("parent-2").expect("id"),
        AccountId::new("acct").expect("account"),
        RouteId::new("hedge").expect("route"),
        StrategyId::new("basket").expect("strategy"),
        ExecutionSymbol::new("SIM", "NQZ6").expect("symbol"),
        OrderSide::Sell,
        OrderType::Limit,
        TimeInForce::Day,
        OrderQty(50),
        OrderPrice(1_800_000),
        OrderPrice(0),
        1_000,
        11_000,
        OrderQty(5),
        OrderQty(20),
        0,
    )
    .expect("parent");
    let second = BasketLeg::new(second_parent, BasketLegRole::Hedge, -5_000).expect("leg");
    let legs = [first, second];
    let progresses = [
        AlgoProgress::new(first.parent().id(), first.parent().total_qty()),
        AlgoProgress::new(second.parent().id(), second.parent().total_qty()),
    ];
    let child_ids = [
        ChildOrderId::new("child-b1").expect("child"),
        ChildOrderId::new("child-b2").expect("child"),
    ];
    let client_ids = [
        ClientOrderId::new("cl-b1").expect("client"),
        ClientOrderId::new("cl-b2").expect("client"),
    ];

    let decision = BasketPlanner::new()
        .plan_synchronized_slice::<2>(&legs, &progresses, 6_000, &child_ids, &client_ids, 6_000)
        .expect("decision");

    assert_eq!(decision.len(), 2);
    let quantities: Vec<i64> = decision
        .allocations()
        .map(|allocation| allocation.plan().request().quantity.0)
        .collect();
    assert_eq!(quantities, vec![25, 20]);
}

#[test]
fn basket_blocks_terminal_legs_without_releasing() {
    let terminal_parent = parent().with_status(ParentOrderStatus::Cancelled);
    let leg = BasketLeg::new(terminal_parent, BasketLegRole::Primary, 10_000).expect("leg");
    let progress = AlgoProgress::new(terminal_parent.id(), terminal_parent.total_qty());
    let child_ids = [ChildOrderId::new("child-b").expect("child")];
    let client_ids = [ClientOrderId::new("cl-b").expect("client")];

    let decision = BasketPlanner::new()
        .plan_synchronized_slice::<1>(
            &[leg],
            &[progress],
            6_000,
            &child_ids,
            &client_ids,
            6_000,
        )
        .expect("decision");

    assert!(decision.is_empty());
    assert_eq!(decision.blocked_legs(), 1);
}

#[test]
fn basket_rejects_mismatched_inputs() {
    let leg = BasketLeg::new(parent(), BasketLegRole::Primary, 10_000).expect("leg");
    assert_eq!(
        BasketPlanner::new().plan_synchronized_slice::<1>(&[leg], &[], 6_000, &[], &[], 6_000),
        Err(AlgoError::InvalidBasketParameters)
    );
    assert_eq!(
        BasketLeg::new(parent(), BasketLegRole::Primary, 0),
        Err(AlgoError::InvalidBasketParameters)
    );
}

#[test]
fn spread_plans_when_edge_meets_limit() {
    let buy_parent = parent();
    let sell_parent = sell_parent("spread-sell-1", OrderQty(100), OrderQty(10), OrderQty(25));
    let planner = SpreadPlanner::new(SpreadConfig::new(10_000, 50).expect("config"));
    let decision = planner
        .plan_spread(
            &buy_parent,
            AlgoProgress::new(buy_parent.id(), buy_parent.total_qty()),
            &sell_parent,
            AlgoProgress::new(sell_parent.id(), sell_parent.total_qty()),
            2_000,
            SpreadQuote::new(OrderPrice(500_000), OrderPrice(505_000)).expect("quote"),
            ChildOrderId::new("sp-buy").expect("child"),
            ClientOrderId::new("sp-buy-cl").expect("client"),
            ChildOrderId::new("sp-sell").expect("child"),
            ClientOrderId::new("sp-sell-cl").expect("client"),
            2_000,
        )
        .expect("decision");

    assert!(decision.estimate().executable());
    assert_eq!(decision.estimate().edge_bps(), 100);
    let buy = decision.buy().expect("buy");
    let sell = decision.sell().expect("sell");
    assert_eq!(buy.request().side, OrderSide::Buy);
    assert_eq!(sell.request().side, OrderSide::Sell);
    assert_eq!(buy.request().quantity, OrderQty(25));
    assert_eq!(sell.request().quantity, OrderQty(25));
    assert_eq!(buy.request().limit_price, OrderPrice(500_000));
    assert_eq!(sell.request().limit_price, OrderPrice(505_000));
}

#[test]
fn spread_waits_when_edge_is_below_limit() {
    let buy_parent = parent();
    let sell_parent = sell_parent("spread-sell-2", OrderQty(100), OrderQty(10), OrderQty(25));
    let planner = SpreadPlanner::new(SpreadConfig::new(10_000, 50).expect("config"));
    let decision = planner
        .plan_spread(
            &buy_parent,
            AlgoProgress::new(buy_parent.id(), buy_parent.total_qty()),
            &sell_parent,
            AlgoProgress::new(sell_parent.id(), sell_parent.total_qty()),
            2_000,
            SpreadQuote::new(OrderPrice(500_000), OrderPrice(500_500)).expect("quote"),
            ChildOrderId::new("sp-wait-buy").expect("child"),
            ClientOrderId::new("sp-wait-buy-cl").expect("client"),
            ChildOrderId::new("sp-wait-sell").expect("child"),
            ClientOrderId::new("sp-wait-sell-cl").expect("client"),
            2_000,
        )
        .expect("decision");

    assert!(!decision.estimate().executable());
    assert!(decision.buy().is_none());
    assert!(decision.sell().is_none());
}

#[test]
fn spread_sizes_by_ratio_and_available_leaves() {
    let buy_parent = parent();
    let sell_parent = sell_parent("spread-sell-3", OrderQty(8), OrderQty(1), OrderQty(8));
    let planner = SpreadPlanner::new(SpreadConfig::new(5_000, 100).expect("config"));
    let decision = planner
        .plan_spread(
            &buy_parent,
            AlgoProgress::new(buy_parent.id(), buy_parent.total_qty()),
            &sell_parent,
            AlgoProgress::new(sell_parent.id(), sell_parent.total_qty()),
            2_000,
            SpreadQuote::new(OrderPrice(500_000), OrderPrice(1_100_000)).expect("quote"),
            ChildOrderId::new("sp-ratio-buy").expect("child"),
            ClientOrderId::new("sp-ratio-buy-cl").expect("client"),
            ChildOrderId::new("sp-ratio-sell").expect("child"),
            ClientOrderId::new("sp-ratio-sell-cl").expect("client"),
            2_000,
        )
        .expect("decision");

    assert_eq!(decision.estimate().buy_qty(), OrderQty(16));
    assert_eq!(decision.estimate().sell_qty(), OrderQty(8));
    assert_eq!(
        decision.buy().expect("buy").request().quantity,
        OrderQty(16)
    );
    assert_eq!(
        decision.sell().expect("sell").request().quantity,
        OrderQty(8)
    );
}

#[test]
fn spread_rejects_invalid_inputs() {
    assert_eq!(
        SpreadConfig::new(0, 0),
        Err(AlgoError::InvalidSpreadParameters)
    );
    assert_eq!(
        SpreadQuote::new(OrderPrice(0), OrderPrice(1)),
        Err(AlgoError::InvalidSpreadParameters)
    );
    let buy_parent = parent();
    let wrong_side_parent = ParentOrder::new(
        ParentOrderId::new("spread-wrong").expect("id"),
        AccountId::new("acct").expect("account"),
        RouteId::new("sim").expect("route"),
        StrategyId::new("spread").expect("strategy"),
        ExecutionSymbol::new("SIM", "NQZ6").expect("symbol"),
        OrderSide::Buy,
        OrderType::Limit,
        TimeInForce::Day,
        OrderQty(100),
        OrderPrice(1_000_000),
        OrderPrice(0),
        1_000,
        11_000,
        OrderQty(10),
        OrderQty(25),
        0,
    )
    .expect("wrong side");

    assert_eq!(
        SpreadPlanner::new(SpreadConfig::new(10_000, 0).expect("config")).estimate(
            &buy_parent,
            AlgoProgress::new(buy_parent.id(), buy_parent.total_qty()),
            &wrong_side_parent,
            AlgoProgress::new(wrong_side_parent.id(), wrong_side_parent.total_qty()),
            SpreadQuote::new(OrderPrice(500_000), OrderPrice(505_000)).expect("quote"),
        ),
        Err(AlgoError::InvalidSpreadParameters)
    );
}

#[test]
fn market_maker_quotes_both_sides_around_fair_value() {
    let template = parent();
    let config = MarketMakerConfig::new(
        OrderPrice(25),
        OrderQty(5),
        20,
        2,
        1_000,
        1_000,
        5_000,
        5_000,
    )
    .expect("config");
    let planner = MarketMakerPlanner::new(config);
    let context = MarketMakerContext::new(
        OrderPrice(500_000),
        OrderPrice(499_975),
        OrderPrice(500_025),
        OrderQty(0),
        OrderQty(100),
        10,
        10,
    )
    .expect("context");

    let decision = planner
        .plan_quotes(
            &template,
            2_000,
            context,
            ChildOrderId::new("mm-bid").expect("child"),
            ClientOrderId::new("mm-bid-cl").expect("client"),
            ChildOrderId::new("mm-ask").expect("child"),
            ClientOrderId::new("mm-ask-cl").expect("client"),
            2_000,
        )
        .expect("decision");

    let bid = decision.bid().expect("bid");
    let ask = decision.ask().expect("ask");
    assert_eq!(bid.request().side, OrderSide::Buy);
    assert_eq!(ask.request().side, OrderSide::Sell);
    assert!(bid.request().limit_price.0 < ask.request().limit_price.0);
    assert_eq!(bid.request().quantity, OrderQty(5));
    assert_eq!(ask.request().quantity, OrderQty(5));
}

#[test]
fn market_maker_suppresses_bid_at_long_inventory_limit() {
    let template = parent();
    let planner = MarketMakerPlanner::new(MarketMakerConfig::default());
    let context = MarketMakerContext::new(
        OrderPrice(500_000),
        OrderPrice(499_975),
        OrderPrice(500_025),
        OrderQty(100),
        OrderQty(100),
        0,
        0,
    )
    .expect("context");

    let decision = planner
        .plan_quotes(
            &template,
            2_000,
            context,
            ChildOrderId::new("mm-bid").expect("child"),
            ClientOrderId::new("mm-bid-cl").expect("client"),
            ChildOrderId::new("mm-ask").expect("child"),
            ClientOrderId::new("mm-ask-cl").expect("client"),
            2_000,
        )
        .expect("decision");

    assert!(decision.bid().is_none());
    assert!(decision.ask().is_some());
    assert!(decision.estimate().adjusted_fair_value().0 < context.fair_value().0);
}

#[test]
fn market_maker_rejects_invalid_parameters() {
    assert_eq!(
        MarketMakerConfig::new(OrderPrice(0), OrderQty(1), 10, 1, 100, 0, 0, 0),
        Err(AlgoError::InvalidMarketMakingParameters)
    );
    assert_eq!(
        MarketMakerContext::new(
            OrderPrice(1),
            OrderPrice(10),
            OrderPrice(9),
            OrderQty(0),
            OrderQty(1),
            0,
            0
        ),
        Err(AlgoError::InvalidMarketMakingParameters)
    );
}

#[test]
fn shortfall_front_loads_on_adverse_buy_move() {
    let parent = parent();
    let planner = ImplementationShortfallPlanner::new(ImplementationShortfallConfig::default());
    let context = ImplementationShortfallContext::new(
        OrderPrice(500_000),
        OrderPrice(510_000),
        200,
        20,
        10,
    )
    .expect("context");
    let progress = AlgoProgress::new(parent.id(), parent.total_qty());
    let estimate = planner
        .estimate(&parent, progress, 1_000, context)
        .expect("estimate");

    assert!(estimate.adverse_move_bps() > 0);
    assert!(estimate.urgency_bps() > 1_000);
    assert!(estimate.target_release_qty().0 > 0);
    let child = planner
        .plan_shortfall_slice(
            &parent,
            progress,
            1_000,
            context,
            ChildOrderId::new("child-is").expect("child"),
            ClientOrderId::new("cl-is").expect("client"),
            1_000,
        )
        .expect("plan")
        .expect("due");
    assert!(child.request().quantity.0 >= parent.min_clip().0);
    assert!(child.request().quantity.0 <= parent.max_clip().0);
}

#[test]
fn shortfall_high_impact_can_wait_below_min_clip() {
    let parent = parent();
    let config =
        ImplementationShortfallConfig::new(100, 1_000, 0, 0, 0, 10_000).expect("config");
    let planner = ImplementationShortfallPlanner::new(config);
    let context = ImplementationShortfallContext::new(
        OrderPrice(500_000),
        OrderPrice(500_000),
        0,
        0,
        500,
    )
    .expect("context");
    let progress = AlgoProgress::new(parent.id(), parent.total_qty());

    let child = planner
        .plan_shortfall_slice(
            &parent,
            progress,
            1_000,
            context,
            ChildOrderId::new("child-wait").expect("child"),
            ClientOrderId::new("cl-wait").expect("client"),
            1_000,
        )
        .expect("plan");

    assert!(child.is_none());
}

#[test]
fn shortfall_detects_adverse_sell_move() {
    let sell_parent = ParentOrder::new(
        ParentOrderId::new("parent-sell").expect("id"),
        AccountId::new("acct").expect("account"),
        RouteId::new("sim").expect("route"),
        StrategyId::new("is").expect("strategy"),
        ExecutionSymbol::new("SIM", "ESZ6").expect("symbol"),
        OrderSide::Sell,
        OrderType::Limit,
        TimeInForce::Day,
        OrderQty(100),
        OrderPrice(500_000),
        OrderPrice(0),
        1_000,
        11_000,
        OrderQty(10),
        OrderQty(25),
        0,
    )
    .expect("parent");
    let planner = ImplementationShortfallPlanner::new(ImplementationShortfallConfig::default());
    let context = ImplementationShortfallContext::new(
        OrderPrice(500_000),
        OrderPrice(490_000),
        50,
        10,
        0,
    )
    .expect("context");
    let estimate = planner
        .estimate(
            &sell_parent,
            AlgoProgress::new(sell_parent.id(), sell_parent.total_qty()),
            2_000,
            context,
        )
        .expect("estimate");

    assert!(estimate.adverse_move_bps() > 0);
    assert!(estimate.target_release_qty().0 > 10);
}

#[test]
fn shortfall_rejects_invalid_parameters() {
    assert_eq!(
        ImplementationShortfallConfig::new(8_000, 7_000, 0, 0, 0, 0),
        Err(AlgoError::InvalidShortfallParameters)
    );
    assert_eq!(
        ImplementationShortfallContext::new(OrderPrice(0), OrderPrice(1), 0, 0, 0),
        Err(AlgoError::InvalidShortfallParameters)
    );
}
#[test]
fn sweep_counts_each_blocked_level_once() {
    let parent = parent();
    let planner =
        SweepPlanner::new(SweepConfig::new(3, OrderPrice(500_025), OrderQty(0)).expect("cfg"));
    let candidates = [
        SorRouteCandidate::new(
            RouteId::new("b").expect("route"),
            OrderPrice(500_000),
            OrderQty(10),
        )
        .expect("candidate")
        .with_status(SorRouteStatus::Blocked),
        SorRouteCandidate::new(
            RouteId::new("r1").expect("route"),
            OrderPrice(499_975),
            OrderQty(10),
        )
        .expect("candidate"),
        SorRouteCandidate::new(
            RouteId::new("r2").expect("route"),
            OrderPrice(499_980),
            OrderQty(10),
        )
        .expect("candidate"),
    ];
    let child_ids = [
        ChildOrderId::new("sk-1").expect("child"),
        ChildOrderId::new("sk-2").expect("child"),
        ChildOrderId::new("sk-3").expect("child"),
    ];
    let client_ids = [
        ClientOrderId::new("sk-cl-1").expect("client"),
        ClientOrderId::new("sk-cl-2").expect("client"),
        ClientOrderId::new("sk-cl-3").expect("client"),
    ];
    let decision = planner
        .plan_sweep::<3>(
            &parent,
            AlgoProgress::new(parent.id(), parent.total_qty()),
            2_000,
            &candidates,
            &child_ids,
            &client_ids,
            2_000,
        )
        .expect("decision");
    assert_eq!(decision.len(), 2);
    assert_eq!(decision.total_qty(), OrderQty(20));
    assert_eq!(decision.skipped_levels(), 1);
}
