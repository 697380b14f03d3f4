//! Verified execution-domain primitives: identifiers, orders, risk gates,
//! write-ahead-log framing, parent/child execution algorithms, and the FIX
//! execution bridge with its adapter bookkeeping and certification
//! harness.

pub mod arith;
pub mod ids;
pub mod orders;
pub mod risk;
pub mod wal;

pub use ids::{
    AccountId, ClientOrderId, ExecutionCoreError, ExecutionId, ExecutionText, FixedAscii,
    InstrumentId, RouteId, StrategyId, VenueId, VenueOrderId, EXECUTION_TEXT_CAP,
};
pub use orders::{
    AmendRequest, CancelRequest, ExecutionEvent, ExecutionSymbol, ExecutionType, OrderPrice,
    OrderQty, OrderRequest, OrderSide, OrderState, OrderStateMachine, OrderStatus, OrderType,
    RiskRejectReason, TimeInForce,
};
pub use risk::{BasicRiskGate, RiskCheck, RiskContext, RiskDecision, RiskLimits};
pub use wal::{
    execution_wal_checksum, ExecutionWalError, WalChecksumField, WalIntegrityReport,
    WalRecordHeader, WalRecordKind, WalRecordView, WalReplayCursor, WalSegmentId, WalSequence,
    WalSyncPolicy, EXECUTION_WAL_HEADER_LEN, EXECUTION_WAL_MAGIC, EXECUTION_WAL_MAX_PAYLOAD_LEN,
    EXECUTION_WAL_VERSION,
};
pub mod algo_support;
pub mod algo_model;
pub mod algo_risk;
pub mod algo_recovery;
pub mod algo_sim;
pub mod algo_metrics;
pub mod algo_config;
pub mod algo_slicing;
pub mod algo_passive;
pub mod algo_sor;
pub mod algo_liquidity;
pub mod algo_sweep;
pub mod algo_shortfall;
pub mod algo_portfolio;
pub mod algo_market_making;
pub mod algo_replay;
pub mod fix_model;
pub mod fix_support;
pub mod fix_mapping;
pub mod fix_shell;
pub mod fix_live;
pub mod fix_certification;
pub mod fix_certification_harness;
pub mod fix_scripted;
pub mod fix_working_orders;
pub mod fix_inbound;
pub mod fix_resend;
pub mod fix_transcript;
pub mod fix_profile;
pub mod text;
