//! Typed configuration of an algorithm instance: kind, parent ticket, risk
//! limits and recovery policy.

use vstd::prelude::*;
use crate::algo_model::{spec_parent_validate, AlgoError, ParentOrder, ParentOrderId, ParentOrderStatus};
use crate::algo_recovery::AlgoRecoveryPolicy;
use crate::algo_risk::{spec_unbounded_limits, AlgoRiskLimits, AlgoRiskPolicy};
use crate::ids::{AccountId, RouteId, StrategyId};
use crate::orders::{ExecutionSymbol, OrderPrice, OrderQty, OrderSide, OrderType, TimeInForce};

verus! {

broadcast use crate::algo_model::group_parent_order;

/// Execution algorithm category for typed configuration.
#[derive(Debug, Clone, Copy, PartialEq, Eq, Hash, Structural)]
#[non_exhaustive]
pub enum AlgoKind {
    /// Time-weighted average price execution.
    Twap,
    /// Percentage-of-volume execution.
    Pov,
    /// Volume-weighted average price execution.
    Vwap,
    /// Synthetic reserve/iceberg execution.
    Iceberg,
    /// Implementation shortfall execution.
    ImplementationShortfall,
    /// Passive queue/peg optimization.
    PassiveQueue,
    /// Smart order routing.
    SmartOrderRouter,
    /// Liquidity-seeking execution.
    LiquiditySeeking,
    /// Aggressive sweep execution.
    Sweep,
    /// Basket execution.
    Basket,
    /// Two-leg spread execution.
    Spread,
    /// Market-making quote planning.
    MarketMaking,
    /// Host-defined algorithm.
    Custom,
}

impl AlgoKind {
    /// Wire code of the kind (TWAP 1 through market making 12, custom 255).
    pub fn code(self) -> (r: u8)
        ensures
            r == (match self {
                AlgoKind::Twap => 1u8,
                AlgoKind::Pov => 2u8,
                AlgoKind::Vwap => 3u8,
                AlgoKind::Iceberg => 4u8,
                AlgoKind::ImplementationShortfall => 5u8,
                AlgoKind::PassiveQueue => 6u8,
                AlgoKind::SmartOrderRouter => 7u8,
                AlgoKind::LiquiditySeeking => 8u8,
                AlgoKind::Sweep => 9u8,
                AlgoKind::Basket => 10u8,
                AlgoKind::Spread => 11u8,
                AlgoKind::MarketMaking => 12u8,
                AlgoKind::Custom => 255u8,
            }),
    {
        match self {
            AlgoKind::Twap => 1,
            AlgoKind::Pov => 2,
            AlgoKind::Vwap => 3,
            AlgoKind::Iceberg => 4,
            AlgoKind::ImplementationShortfall => 5,
            AlgoKind::PassiveQueue => 6,
            AlgoKind::SmartOrderRouter => 7,
            AlgoKind::LiquiditySeeking => 8,
            AlgoKind::Sweep => 9,
            AlgoKind::Basket => 10,
            AlgoKind::Spread => 11,
            AlgoKind::MarketMaking => 12,
            AlgoKind::Custom => 255,
        }
    }
}

/// Typed parent-order configuration for algorithm construction.
#[derive(Debug, Clone, Copy, PartialEq, Eq)]
pub struct AlgoParentConfig {
    /// parent identifier.
    pub id: ParentOrderId,
    /// account identifier.
    pub account_id: AccountId,
    /// route identifier.
    pub route_id: RouteId,
    /// strategy identifier.
    pub strategy_id: StrategyId,
    /// symbol.
    pub symbol: ExecutionSymbol,
    /// side.
    pub side: OrderSide,
    /// child order type.
    pub order_type: OrderType,
    /// child time-in-force.
    pub time_in_force: TimeInForce,
    /// target quantity.
    pub total_qty: OrderQty,
    /// limit price.
    pub limit_price: OrderPrice,
    /// stop price.
    pub stop_price: OrderPrice,
    /// start timestamp.
    pub start_ns: u64,
    /// end timestamp.
    pub end_ns: u64,
    /// minimum child clip.
    pub min_clip: OrderQty,
    /// maximum child clip.
    pub max_clip: OrderQty,
    /// participation cap in basis points, zero when unset.
    pub participation_cap_bps: u16,
}

/// The active parent order a configuration describes.
pub open spec fn spec_config_parent(c: AlgoParentConfig) -> ParentOrder {
    ParentOrder::spec_new(
        c.id,
        c.account_id,
        c.route_id,
        c.strategy_id,
        c.symbol,
        c.side,
        c.order_type,
        c.time_in_force,
        c.total_qty,
        c.limit_price,
        c.stop_price,
        c.start_ns,
        c.end_ns,
        c.min_clip,
        c.max_clip,
        c.participation_cap_bps,
    )
}

impl AlgoParentConfig {
    /// Creates a configuration; one whose parent order would be invalid is
    /// refused with that parent's validation error.
    #[allow(clippy::too_many_arguments)]
    pub fn new(
        id: ParentOrderId,
        account_id: AccountId,
        route_id: RouteId,
        strategy_id: StrategyId,
        symbol: ExecutionSymbol,
        side: OrderSide,
        order_type: OrderType,
        time_in_force: TimeInForce,
        total_qty: OrderQty,
        limit_price: OrderPrice,
        stop_price: OrderPrice,
        start_ns: u64,
        end_ns: u64,
        min_clip: OrderQty,
        max_clip: OrderQty,
        participation_cap_bps: u16,
    ) -> (r: Result<Self, AlgoError>)
        ensures
            ({
                let c = AlgoParentConfig {
                    id,
                    account_id,
                    route_id,
                    strategy_id,
                    symbol,
                    side,
                    order_type,
                    time_in_force,
                    total_qty,
                    limit_price,
                    stop_price,
                    start_ns,
                    end_ns,
                    min_clip,
                    max_clip,
                    participation_cap_bps,
                };
                match spec_parent_validate(spec_config_parent(c)) {
                    Err(e) => r == Err::<Self, AlgoError>(e),
                    Ok(_) => r == Ok::<Self, AlgoError>(c),
                }
            }),
    {
        let config = Self {
            id,
            account_id,
            route_id,
            strategy_id,
            symbol,
            side,
            order_type,
            time_in_force,
            total_qty,
            limit_price,
            stop_price,
            start_ns,
            end_ns,
            min_clip,
            max_clip,
            participation_cap_bps,
        };
        match config.to_parent_order() {
            Err(e) => Err(e),
            Ok(_) => Ok(config),
        }
    }

    /// Creates config from an existing parent order.
    pub fn from_parent(parent: ParentOrder) -> (r: Self)
        ensures
            spec_config_parent(r) == parent.spec_with_status(ParentOrderStatus::Active),
    {
        let r = Self {
            id: parent.id(),
            account_id: parent.account_id(),
            route_id: parent.route_id(),
            strategy_id: parent.strategy_id(),
            symbol: parent.symbol(),
            side: parent.side(),
            order_type: parent.order_type(),
            time_in_force: parent.time_in_force(),
            total_qty: parent.total_qty(),
            limit_price: parent.limit_price(),
            stop_price: parent.stop_price(),
            start_ns: parent.start_ns(),
            end_ns: parent.end_ns(),
            min_clip: parent.min_clip(),
            max_clip: parent.max_clip(),
            participation_cap_bps: parent.participation_cap_bps(),
        };
        proof {
            crate::algo_model::lemma_parent_ext(
                spec_config_parent(r),
                parent.spec_with_status(ParentOrderStatus::Active),
            );
        }
        r
    }

    /// Builds the validated active parent order of the config.
    pub fn to_parent_order(&self) -> (r: Result<ParentOrder, AlgoError>)
        ensures
            match spec_parent_validate(spec_config_parent(*self)) {
                Err(e) => r == Err::<ParentOrder, AlgoError>(e),
                Ok(_) => r == Ok::<ParentOrder, AlgoError>(spec_config_parent(*self)),
            },
    {
        ParentOrder::new(
            self.id,
            self.account_id,
            self.route_id,
            self.strategy_id,
            self.symbol,
            self.side,
            self.order_type,
            self.time_in_force,
            self.total_qty,
            self.limit_price,
            self.stop_price,
            self.start_ns,
            self.end_ns,
            self.min_clip,
            self.max_clip,
            self.participation_cap_bps,
        )
    }

    /// Returns parent identifier.
    pub fn id(&self) -> (r: ParentOrderId)
        ensures
            r == self.id,
    {
        self.id
    }

    /// Returns account identifier.
    pub fn account_id(&self) -> (r: AccountId)
        ensures
            r == self.account_id,
    {
        self.account_id
    }

    /// Returns route identifier.
    pub fn route_id(&self) -> (r: RouteId)
        ensures
            r == self.route_id,
    {
        self.route_id
    }

    /// Returns strategy identifier.
    pub fn strategy_id(&self) -> (r: StrategyId)
        ensures
            r == self.strategy_id,
    {
        self.strategy_id
    }

    /// Returns symbol.
    pub fn symbol(&self) -> (r: ExecutionSymbol)
        ensures
            r == self.symbol,
    {
        self.symbol
    }

    /// Returns side.
    pub fn side(&self) -> (r: OrderSide)
        ensures
            r == self.side,
    {
        self.side
    }

    /// Returns child order type.
    pub fn order_type(&self) -> (r: OrderType)
        ensures
            r == self.order_type,
    {
        self.order_type
    }

    /// Returns child time-in-force.
    pub fn time_in_force(&self) -> (r: TimeInForce)
        ensures
            r == self.time_in_force,
    {
        self.time_in_force
    }

    /// Returns target quantity.
    pub fn total_qty(&self) -> (r: OrderQty)
        ensures
            r == self.total_qty,
    {
        self.total_qty
    }

    /// Returns limit price.
    pub fn limit_price(&self) -> (r: OrderPrice)
        ensures
            r == self.limit_price,
    {
        self.limit_price
    }

    /// Returns stop price.
    pub fn stop_price(&self) -> (r: OrderPrice)
        ensures
            r == self.stop_price,
    {
        self.stop_price
    }

    /// Returns start timestamp.
    pub fn start_ns(&self) -> (r: u64)
        ensures
            r == self.start_ns,
    {
        self.start_ns
    }

    /// Returns end timestamp.
    pub fn end_ns(&self) -> (r: u64)
        ensures
            r == self.end_ns,
    {
        self.end_ns
    }

    /// Returns minimum child clip.
    pub fn min_clip(&self) -> (r: OrderQty)
        ensures
            r == self.min_clip,
    {
        self.min_clip
    }

    /// Returns maximum child clip.
    pub fn max_clip(&self) -> (r: OrderQty)
        ensures
            r == self.max_clip,
    {
        self.max_clip
    }

    /// Returns participation cap in basis points, zero when unset.
    pub fn participation_cap_bps(&self) -> (r: u16)
        ensures
            r == self.participation_cap_bps,
    {
        self.participation_cap_bps
    }
}

/// Typed top-level algorithm configuration.
#[derive(Debug, Clone, Copy, PartialEq, Eq)]
pub struct AlgoConfig {
    /// Algorithm kind.
    pub kind: AlgoKind,
    /// Parent configuration.
    pub parent: AlgoParentConfig,
    /// Risk limits.
    pub risk_limits: AlgoRiskLimits,
    /// Recovery policy.
    pub recovery_policy: AlgoRecoveryPolicy,
}

impl AlgoConfig {
    /// Creates a configuration with unbounded risk limits and the default
    /// recovery policy (pause, reconcile, complete when complete).
    pub fn new(kind: AlgoKind, parent: AlgoParentConfig) -> (r: Self)
        ensures
            r == (AlgoConfig {
                kind,
                parent,
                risk_limits: spec_unbounded_limits(),
                recovery_policy: AlgoRecoveryPolicy {
                    pause_on_recovery: true,
                    require_reconciliation: true,
                    complete_when_progress_complete: true,
                },
            }),
    {
        Self {
            kind,
            parent,
            risk_limits: AlgoRiskLimits::unbounded(),
            recovery_policy: AlgoRecoveryPolicy::new(true, true, true),
        }
    }

    /// Returns algorithm kind.
    pub fn kind(&self) -> (r: AlgoKind)
        ensures
            r == self.kind,
    {
        self.kind
    }

    /// Returns parent config.
    pub fn parent(&self) -> (r: AlgoParentConfig)
        ensures
            r == self.parent,
    {
        self.parent
    }

    /// Returns risk limits.
    pub fn risk_limits(&self) -> (r: AlgoRiskLimits)
        ensures
            r == self.risk_limits,
    {
        self.risk_limits
    }

    /// Returns recovery policy.
    pub fn recovery_policy(&self) -> (r: AlgoRecoveryPolicy)
        ensures
            r == self.recovery_policy,
    {
        self.recovery_policy
    }

    /// Returns a copy with risk limits.
    pub fn with_risk_limits(self, limits: AlgoRiskLimits) -> (r: Self)
        ensures
            r == (AlgoConfig { risk_limits: limits, ..self }),
    {
        AlgoConfig { risk_limits: limits, ..self }
    }

    /// Returns a copy with recovery policy.
    pub fn with_recovery_policy(self, policy: AlgoRecoveryPolicy) -> (r: Self)
        ensures
            r == (AlgoConfig { recovery_policy: policy, ..self }),
    {
        AlgoConfig { recovery_policy: policy, ..self }
    }

    /// Builds the validated active parent order of the config.
    pub fn to_parent_order(&self) -> (r: Result<ParentOrder, AlgoError>)
        ensures
            match spec_parent_validate(spec_config_parent(self.parent)) {
                Err(e) => r == Err::<ParentOrder, AlgoError>(e),
                Ok(_) => r == Ok::<ParentOrder, AlgoError>(spec_config_parent(self.parent)),
            },
    {
        self.parent.to_parent_order()
    }

    /// Builds a risk policy from configured risk limits.
    pub fn to_risk_policy(&self) -> (r: AlgoRiskPolicy)
        ensures
            r.limits == self.risk_limits,
    {
        AlgoRiskPolicy::new(self.risk_limits)
    }
}

/// A configuration taken from a valid parent rebuilds that parent, active:
/// `from_parent` followed by `to_parent_order` gives the parent back.
pub proof fn law_config_round_trip(parent: ParentOrder)
    requires
        spec_parent_validate(parent) is Ok,
        parent.spec_status() == ParentOrderStatus::Active,
    ensures
        ({
            let c = AlgoParentConfig {
                id: parent.spec_id(),
                account_id: parent.spec_account_id(),
                route_id: parent.spec_route_id(),
                strategy_id: parent.spec_strategy_id(),
                symbol: parent.spec_symbol(),
                side: parent.spec_side(),
                order_type: parent.spec_order_type(),
                time_in_force: parent.spec_time_in_force(),
                total_qty: parent.spec_total_qty(),
                limit_price: parent.spec_limit_price(),
                stop_price: parent.spec_stop_price(),
                start_ns: parent.spec_start_ns(),
                end_ns: parent.spec_end_ns(),
                min_clip: parent.spec_min_clip(),
                max_clip: parent.spec_max_clip(),
                participation_cap_bps: parent.spec_participation_cap_bps(),
            };
            spec_parent_validate(spec_config_parent(c)) is Ok && spec_config_parent(c) == parent
        }),
{
    let c = AlgoParentConfig {
        id: parent.spec_id(),
        account_id: parent.spec_account_id(),
        route_id: parent.spec_route_id(),
        strategy_id: parent.spec_strategy_id(),
        symbol: parent.spec_symbol(),
        side: parent.spec_side(),
        order_type: parent.spec_order_type(),
        time_in_force: parent.spec_time_in_force(),
        total_qty: parent.spec_total_qty(),
        limit_price: parent.spec_limit_price(),
        stop_price: parent.spec_stop_price(),
        start_ns: parent.spec_start_ns(),
        end_ns: parent.spec_end_ns(),
        min_clip: parent.spec_min_clip(),
        max_clip: parent.spec_max_clip(),
        participation_cap_bps: parent.spec_participation_cap_bps(),
    };
    crate::algo_model::lemma_parent_ext(spec_config_parent(c), parent);
}

} // verus!
