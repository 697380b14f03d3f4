//! Deterministic FIX adapter certification: scenario and capability
//! inventories, bounded failures, latency and allocation evidence, suite
//! configuration and a deterministic clock.

use vstd::prelude::*;
use vstd::utf8::{encode_utf8, is_char_boundary};
use vstd::string::StringSliceAdditionalSpecFns;
use crate::arith::{clamp_u128, clamp_u64};
use crate::text::{decimal_string, spec_decimal_text};
use crate::fix_live::{FixTimeSample, FixTimeSource};
use crate::fix_shell::ExecutionCapabilities;

verus! {

/// Byte bound of a failure's diagnostic text.
pub const FIX_CERTIFICATION_DETAIL_CAP: usize = 512;

/// Default retained-failure bound of a certification suite.
pub const DEFAULT_MAX_FAILURES: usize = 256;

/// Required deterministic FIX certification scenarios, in stable report
/// order.
#[derive(Debug, Clone, Copy, PartialEq, Eq, Hash, Structural)]
pub enum FixCertificationScenario {
    /// Connect, Logon, Ready, Logout, and physical disconnect lifecycle.
    SessionLifecycle,
    /// Heartbeat, TestRequest, correlated Heartbeat, and liveness timeout.
    HeartbeatLiveness,
    /// Future inbound sequence detection and ordered gap recovery.
    SequenceGapRecovery,
    /// Peer ResendRequest handling with replay and SequenceReset gap fills.
    PeerResend,
    /// Possible-duplicate execution report suppression and identity behavior.
    DuplicateExecutionReport,
    /// New, partial-fill, and full-fill execution progression.
    PartialFill,
    /// Cancel acknowledgement/rejection and cancel-versus-fill races.
    CancelRace,
    /// Replace acknowledgement/rejection and replace-versus-fill races.
    ReplaceRace,
    /// Abnormal disconnect, reconnect, sequence restore, and open-order recovery.
    DisconnectReconnect,
    /// Invalid framing, checksum, body length, required fields, and values.
    MalformedMessage,
    /// Session Reject `<3>` mapping and safe degradation.
    SessionReject,
    /// BusinessMessageReject `<j>` mapping and safe degradation.
    BusinessReject,
    /// Frame, queue, retained-gap, resend-work, and output backpressure bounds.
    BackpressureAndBounds,
}

/// Position of a scenario in the stable report order.
pub open spec fn spec_scenario_rank(s: FixCertificationScenario) -> nat {
    match s {
        FixCertificationScenario::SessionLifecycle => 0,
        FixCertificationScenario::HeartbeatLiveness => 1,
        FixCertificationScenario::SequenceGapRecovery => 2,
        FixCertificationScenario::PeerResend => 3,
        FixCertificationScenario::DuplicateExecutionReport => 4,
        FixCertificationScenario::PartialFill => 5,
        FixCertificationScenario::CancelRace => 6,
        FixCertificationScenario::ReplaceRace => 7,
        FixCertificationScenario::DisconnectReconnect => 8,
        FixCertificationScenario::MalformedMessage => 9,
        FixCertificationScenario::SessionReject => 10,
        FixCertificationScenario::BusinessReject => 11,
        FixCertificationScenario::BackpressureAndBounds => 12,
    }
}

/// The complete scenario inventory in stable report order.
pub open spec fn spec_all_scenarios() -> Seq<FixCertificationScenario> {
    seq![
        FixCertificationScenario::SessionLifecycle,
        FixCertificationScenario::HeartbeatLiveness,
        FixCertificationScenario::SequenceGapRecovery,
        FixCertificationScenario::PeerResend,
        FixCertificationScenario::DuplicateExecutionReport,
        FixCertificationScenario::PartialFill,
        FixCertificationScenario::CancelRace,
        FixCertificationScenario::ReplaceRace,
        FixCertificationScenario::DisconnectReconnect,
        FixCertificationScenario::MalformedMessage,
        FixCertificationScenario::SessionReject,
        FixCertificationScenario::BusinessReject,
        FixCertificationScenario::BackpressureAndBounds,
    ]
}

impl FixCertificationScenario {
    /// Complete required scenario inventory in stable report order.
    pub fn all() -> (r: [FixCertificationScenario; 13])
        ensures
            r@ == spec_all_scenarios(),
    {
        let r = [
            FixCertificationScenario::SessionLifecycle,
            FixCertificationScenario::HeartbeatLiveness,
            FixCertificationScenario::SequenceGapRecovery,
            FixCertificationScenario::PeerResend,
            FixCertificationScenario::DuplicateExecutionReport,
            FixCertificationScenario::PartialFill,
            FixCertificationScenario::CancelRace,
            FixCertificationScenario::ReplaceRace,
            FixCertificationScenario::DisconnectReconnect,
            FixCertificationScenario::MalformedMessage,
            FixCertificationScenario::SessionReject,
            FixCertificationScenario::BusinessReject,
            FixCertificationScenario::BackpressureAndBounds,
        ];
        assert(r@ =~= spec_all_scenarios());
        r
    }

    /// Position in the stable report order.
    pub fn rank(self) -> (r: u8)
        ensures
            r as nat == spec_scenario_rank(self),
    {
        match self {
            FixCertificationScenario::SessionLifecycle => 0,
            FixCertificationScenario::HeartbeatLiveness => 1,
            FixCertificationScenario::SequenceGapRecovery => 2,
            FixCertificationScenario::PeerResend => 3,
            FixCertificationScenario::DuplicateExecutionReport => 4,
            FixCertificationScenario::PartialFill => 5,
            FixCertificationScenario::CancelRace => 6,
            FixCertificationScenario::ReplaceRace => 7,
            FixCertificationScenario::DisconnectReconnect => 8,
            FixCertificationScenario::MalformedMessage => 9,
            FixCertificationScenario::SessionReject => 10,
            FixCertificationScenario::BusinessReject => 11,
            FixCertificationScenario::BackpressureAndBounds => 12,
        }
    }

    /// The stable scenario identifier.
    pub open spec fn spec_name(self) -> Seq<char> {
        match self {
            FixCertificationScenario::SessionLifecycle => "session_lifecycle"@,
            FixCertificationScenario::HeartbeatLiveness => "heartbeat_liveness"@,
            FixCertificationScenario::SequenceGapRecovery => "sequence_gap_recovery"@,
            FixCertificationScenario::PeerResend => "peer_resend"@,
            FixCertificationScenario::DuplicateExecutionReport => "duplicate_execution_report"@,
            FixCertificationScenario::PartialFill => "partial_fill"@,
            FixCertificationScenario::CancelRace => "cancel_race"@,
            FixCertificationScenario::ReplaceRace => "replace_race"@,
            FixCertificationScenario::DisconnectReconnect => "disconnect_reconnect"@,
            FixCertificationScenario::MalformedMessage => "malformed_message"@,
            FixCertificationScenario::SessionReject => "session_reject"@,
            FixCertificationScenario::BusinessReject => "business_reject"@,
            FixCertificationScenario::BackpressureAndBounds => "backpressure_and_bounds"@,
        }
    }

    /// Stable scenario identifier for reports and CI output.
    pub fn as_str(self) -> (r: &'static str)
        ensures
            r@ == self.spec_name(),
    {
        match self {
            FixCertificationScenario::SessionLifecycle => "session_lifecycle",
            FixCertificationScenario::HeartbeatLiveness => "heartbeat_liveness",
            FixCertificationScenario::SequenceGapRecovery => "sequence_gap_recovery",
            FixCertificationScenario::PeerResend => "peer_resend",
            FixCertificationScenario::DuplicateExecutionReport => "duplicate_execution_report",
            FixCertificationScenario::PartialFill => "partial_fill",
            FixCertificationScenario::CancelRace => "cancel_race",
            FixCertificationScenario::ReplaceRace => "replace_race",
            FixCertificationScenario::DisconnectReconnect => "disconnect_reconnect",
            FixCertificationScenario::MalformedMessage => "malformed_message",
            FixCertificationScenario::SessionReject => "session_reject",
            FixCertificationScenario::BusinessReject => "business_reject",
            FixCertificationScenario::BackpressureAndBounds => "backpressure_and_bounds",
        }
    }
}

/// FIX application capability that certification can require and exercise.
#[derive(Debug, Clone, Copy, PartialEq, Eq, Hash, Structural)]
pub enum FixCertificationCapability {
    /// Market order submission.
    Market,
    /// Limit order submission.
    Limit,
    /// Stop order submission.
    Stop,
    /// Stop-limit order submission.
    StopLimit,
    /// Day time-in-force.
    Day,
    /// Good-till-cancel time-in-force.
    GoodTillCancel,
    /// Immediate-or-cancel time-in-force.
    ImmediateOrCancel,
    /// Fill-or-kill time-in-force.
    FillOrKill,
    /// Good-till-date time-in-force.
    GoodTillDate,
    /// Cancel/replace support.
    Amend,
    /// Native preservation of caller client-order ids.
    NativeClientOrderId,
}

/// The bit of a capability in a capability mask.
pub open spec fn spec_capability_bit(c: FixCertificationCapability) -> u16 {
    match c {
        FixCertificationCapability::Market => 1,
        FixCertificationCapability::Limit => 2,
        FixCertificationCapability::Stop => 4,
        FixCertificationCapability::StopLimit => 8,
        FixCertificationCapability::Day => 16,
        FixCertificationCapability::GoodTillCancel => 32,
        FixCertificationCapability::ImmediateOrCancel => 64,
        FixCertificationCapability::FillOrKill => 128,
        FixCertificationCapability::GoodTillDate => 256,
        FixCertificationCapability::Amend => 512,
        FixCertificationCapability::NativeClientOrderId => 1024,
    }
}

/// Whether `capabilities` advertise `c`.
pub open spec fn spec_capability_advertised(
    c: FixCertificationCapability,
    capabilities: ExecutionCapabilities,
) -> bool {
    match c {
        FixCertificationCapability::Market => capabilities.market,
        FixCertificationCapability::Limit => capabilities.limit,
        FixCertificationCapability::Stop => capabilities.stop,
        FixCertificationCapability::StopLimit => capabilities.stop_limit,
        FixCertificationCapability::Day => capabilities.tif_day,
        FixCertificationCapability::GoodTillCancel => capabilities.tif_gtc,
        FixCertificationCapability::ImmediateOrCancel => capabilities.tif_ioc,
        FixCertificationCapability::FillOrKill => capabilities.tif_fok,
        FixCertificationCapability::GoodTillDate => capabilities.tif_gtd,
        FixCertificationCapability::Amend => capabilities.amend,
        FixCertificationCapability::NativeClientOrderId => capabilities.native_client_order_id,
    }
}

/// The complete capability inventory in stable report order.
pub open spec fn spec_all_capabilities() -> Seq<FixCertificationCapability> {
    seq![
        FixCertificationCapability::Market,
        FixCertificationCapability::Limit,
        FixCertificationCapability::Stop,
        FixCertificationCapability::StopLimit,
        FixCertificationCapability::Day,
        FixCertificationCapability::GoodTillCancel,
        FixCertificationCapability::ImmediateOrCancel,
        FixCertificationCapability::FillOrKill,
        FixCertificationCapability::GoodTillDate,
        FixCertificationCapability::Amend,
        FixCertificationCapability::NativeClientOrderId,
    ]
}

impl FixCertificationCapability {
    /// Complete capability inventory in stable report order.
    pub fn all() -> (r: [FixCertificationCapability; 11])
        ensures
            r@ == spec_all_capabilities(),
    {
        let r = [
            FixCertificationCapability::Market,
            FixCertificationCapability::Limit,
            FixCertificationCapability::Stop,
            FixCertificationCapability::StopLimit,
            FixCertificationCapability::Day,
            FixCertificationCapability::GoodTillCancel,
            FixCertificationCapability::ImmediateOrCancel,
            FixCertificationCapability::FillOrKill,
            FixCertificationCapability::GoodTillDate,
            FixCertificationCapability::Amend,
            FixCertificationCapability::NativeClientOrderId,
        ];
        assert(r@ =~= spec_all_capabilities());
        r
    }

    /// The capability's bit in a capability mask.
    pub fn bit(self) -> (r: u16)
        ensures
            r == spec_capability_bit(self),
    {
        match self {
            FixCertificationCapability::Market => 1,
            FixCertificationCapability::Limit => 2,
            FixCertificationCapability::Stop => 4,
            FixCertificationCapability::StopLimit => 8,
            FixCertificationCapability::Day => 16,
            FixCertificationCapability::GoodTillCancel => 32,
            FixCertificationCapability::ImmediateOrCancel => 64,
            FixCertificationCapability::FillOrKill => 128,
            FixCertificationCapability::GoodTillDate => 256,
            FixCertificationCapability::Amend => 512,
            FixCertificationCapability::NativeClientOrderId => 1024,
        }
    }

    /// Stable capability identifier for reports and CI output.
    pub fn as_str(self) -> (r: &'static str)
        ensures
            r@ == match self {
                FixCertificationCapability::Market => "market"@,
                FixCertificationCapability::Limit => "limit"@,
                FixCertificationCapability::Stop => "stop"@,
                FixCertificationCapability::StopLimit => "stop_limit"@,
                FixCertificationCapability::Day => "tif_day"@,
                FixCertificationCapability::GoodTillCancel => "tif_gtc"@,
                FixCertificationCapability::ImmediateOrCancel => "tif_ioc"@,
                FixCertificationCapability::FillOrKill => "tif_fok"@,
                FixCertificationCapability::GoodTillDate => "tif_gtd"@,
                FixCertificationCapability::Amend => "amend"@,
                FixCertificationCapability::NativeClientOrderId => "native_client_order_id"@,
            },
    {
        match self {
            FixCertificationCapability::Market => "market",
            FixCertificationCapability::Limit => "limit",
            FixCertificationCapability::Stop => "stop",
            FixCertificationCapability::StopLimit => "stop_limit",
            FixCertificationCapability::Day => "tif_day",
            FixCertificationCapability::GoodTillCancel => "tif_gtc",
            FixCertificationCapability::ImmediateOrCancel => "tif_ioc",
            FixCertificationCapability::FillOrKill => "tif_fok",
            FixCertificationCapability::GoodTillDate => "tif_gtd",
            FixCertificationCapability::Amend => "amend",
            FixCertificationCapability::NativeClientOrderId => "native_client_order_id",
        }
    }

    /// Whether `capabilities` advertise this capability.
    pub fn advertised(self, capabilities: ExecutionCapabilities) -> (r: bool)
        ensures
            r == spec_capability_advertised(self, capabilities),
    {
        match self {
            FixCertificationCapability::Market => capabilities.market,
            FixCertificationCapability::Limit => capabilities.limit,
            FixCertificationCapability::Stop => capabilities.stop,
            FixCertificationCapability::StopLimit => capabilities.stop_limit,
            FixCertificationCapability::Day => capabilities.tif_day,
            FixCertificationCapability::GoodTillCancel => capabilities.tif_gtc,
            FixCertificationCapability::ImmediateOrCancel => capabilities.tif_ioc,
            FixCertificationCapability::FillOrKill => capabilities.tif_fok,
            FixCertificationCapability::GoodTillDate => capabilities.tif_gtd,
            FixCertificationCapability::Amend => capabilities.amend,
            FixCertificationCapability::NativeClientOrderId => capabilities.native_client_order_id,
        }
    }
}

/// Certification assertion failure category.
#[derive(Debug, Clone, Copy, PartialEq, Eq, Hash, Structural)]
pub enum FixCertificationFailureKind {
    /// An expected frame was absent.
    MissingFrame,
    /// More frames were observed than the exact transcript allowed.
    UnexpectedFrame,
    /// Frame direction did not match.
    Direction,
    /// Message type did not match.
    MessageType,
    /// Message sequence number did not match.
    Sequence,
    /// A required FIX tag was absent.
    MissingTag,
    /// A FIX tag value did not match.
    TagValue,
    /// A frame could not be parsed and validated.
    MalformedFrame,
    /// Adapter behavior or returned event did not match the scenario.
    Behavior,
    /// A configured capacity was not enforced.
    BoundNotEnforced,
    /// A required advertised capability was missing.
    CapabilityNotAdvertised,
    /// An advertised capability was not exercised.
    CapabilityNotExercised,
    /// Required latency evidence was absent.
    LatencyEvidenceMissing,
    /// Required allocation evidence was absent.
    AllocationEvidenceMissing,
    /// Observed latency exceeded the configured certification threshold.
    LatencyLimitExceeded,
    /// Observed allocation count or bytes exceeded a configured threshold.
    AllocationLimitExceeded,
    /// Transcript records/raw bytes were dropped or evicted.
    TranscriptIncomplete,
    /// Harness failure supplied by a profile-specific scenario.
    Custom,
}

/// The UTF-8 bytes of a failure detail kept after truncation to the byte
/// bound.
pub open spec fn spec_truncated_detail(bytes: Seq<u8>) -> Seq<u8> {
    if bytes.len() <= FIX_CERTIFICATION_DETAIL_CAP {
        bytes
    } else {
        bytes.take(FIX_CERTIFICATION_DETAIL_CAP as int)
    }
}

/// One bounded certification failure.
#[derive(Debug, PartialEq, Eq)]
pub struct FixCertificationFailure {
    scenario: Option<FixCertificationScenario>,
    kind: FixCertificationFailureKind,
    detail: String,
}

impl FixCertificationFailure {
    /// The scenario, or `None` for a suite-level failure.
    pub closed spec fn spec_scenario(&self) -> Option<FixCertificationScenario> {
        self.scenario
    }

    /// The failure category.
    pub closed spec fn spec_kind(&self) -> FixCertificationFailureKind {
        self.kind
    }

    /// The UTF-8 bytes of the retained detail.
    pub closed spec fn spec_detail_bytes(&self) -> Seq<u8> {
        encode_utf8(self.detail@)
    }

    /// Creates one failure whose detail is truncated to its first 512 bytes;
    /// the cut must fall on a character boundary.
    pub fn new(
        scenario: Option<FixCertificationScenario>,
        kind: FixCertificationFailureKind,
        detail: String,
    ) -> (r: Self)
        requires
            encode_utf8(detail@).len() <= FIX_CERTIFICATION_DETAIL_CAP || is_char_boundary(
                encode_utf8(detail@),
                FIX_CERTIFICATION_DETAIL_CAP as int,
            ),
        ensures
            r.spec_scenario() == scenario,
            r.spec_kind() == kind,
            r.spec_detail_bytes() == spec_truncated_detail(encode_utf8(detail@)),
    {
        let text = detail.as_str();
        assert(text.spec_bytes() == encode_utf8(detail@));
        if text.as_bytes().len() <= FIX_CERTIFICATION_DETAIL_CAP {
            return Self { scenario, kind, detail };
        }
        let (head, _tail) = text.split_at(FIX_CERTIFICATION_DETAIL_CAP);
        let kept = String::from_str(head);
        proof {
            assert(encode_utf8(kept@) == head.spec_bytes());
        }
        Self { scenario, kind, detail: kept }
    }

    /// The same failure attributed to `scenario`.
    pub fn attributed_to(self, scenario: FixCertificationScenario) -> (r: Self)
        ensures
            r.spec_scenario() == Some(scenario),
            r.spec_kind() == self.spec_kind(),
            r.spec_detail_bytes() == self.spec_detail_bytes(),
    {
        Self { scenario: Some(scenario), kind: self.kind, detail: self.detail }
    }

    /// Returns the scenario, or `None` for suite-level failure.
    pub fn scenario(&self) -> (r: Option<FixCertificationScenario>)
        ensures
            r == self.spec_scenario(),
    {
        self.scenario
    }

    /// Returns the failure category.
    pub fn kind(&self) -> (r: FixCertificationFailureKind)
        ensures
            r == self.spec_kind(),
    {
        self.kind
    }

    /// Returns bounded diagnostic detail.
    pub fn detail(&self) -> (r: &str)
        ensures
            r.spec_bytes() == self.spec_detail_bytes(),
    {
        self.detail.as_str()
    }
}

impl Clone for FixCertificationFailure {
    /// A failure with the same scenario, kind and detail.
    fn clone(&self) -> (r: Self)
        ensures
            r.spec_scenario() == self.spec_scenario(),
            r.spec_kind() == self.spec_kind(),
            r.spec_detail_bytes() == self.spec_detail_bytes(),
    {
        Self { scenario: self.scenario, kind: self.kind, detail: self.detail.clone() }
    }
}

/// One expected FIX tag/value pair in a transcript frame.
#[derive(Debug, Clone, PartialEq, Eq)]
pub struct FixExpectedField {
    tag: u32,
    value: Vec<u8>,
}

impl FixExpectedField {
    /// The expected tag.
    pub closed spec fn spec_tag(&self) -> u32 {
        self.tag
    }

    /// The expected wire value.
    pub closed spec fn spec_value(&self) -> Seq<u8> {
        self.value@
    }

    /// Creates an exact field expectation.
    pub fn new(tag: u32, value: Vec<u8>) -> (r: Self)
        ensures
            r.spec_tag() == tag,
            r.spec_value() == value@,
    {
        Self { tag, value }
    }

    /// Returns the expected tag.
    pub fn tag(&self) -> (r: u32)
        ensures
            r == self.spec_tag(),
    {
        self.tag
    }

    /// Returns the expected wire value.
    pub fn value(&self) -> (r: &[u8])
        ensures
            r@ == self.spec_value(),
    {
        self.value.as_slice()
    }
}

/// Aggregate latency evidence collected outside the adapter hot path.
#[derive(Debug, Clone, Copy, PartialEq, Eq)]
pub struct FixCertificationLatencyEvidence {
    samples: u64,
    total_ns: u128,
    min_ns: u64,
    max_ns: u64,
}

/// The evidence after recording one more sample: count and total saturate,
/// the first sample sets the minimum.
pub closed spec fn spec_record_latency(
    e: FixCertificationLatencyEvidence,
    latency_ns: u64,
) -> FixCertificationLatencyEvidence {
    FixCertificationLatencyEvidence {
        samples: clamp_u64(e.samples + 1) as u64,
        total_ns: clamp_u128(e.total_ns + latency_ns) as u128,
        min_ns: if e.samples == 0 || latency_ns < e.min_ns {
            latency_ns
        } else {
            e.min_ns
        },
        max_ns: if latency_ns > e.max_ns {
            latency_ns
        } else {
            e.max_ns
        },
    }
}

/// The evidence of an empty recording.
pub closed spec fn spec_empty_latency() -> FixCertificationLatencyEvidence {
    FixCertificationLatencyEvidence { samples: 0, total_ns: 0, min_ns: 0, max_ns: 0 }
}

/// The evidence after recording `samples` in order from empty.
pub closed spec fn spec_latency_of(samples: Seq<u64>) -> FixCertificationLatencyEvidence
    decreases samples.len(),
{
    if samples.len() == 0 {
        spec_empty_latency()
    } else {
        spec_record_latency(spec_latency_of(samples.drop_last()), samples.last())
    }
}

/// The integer average of the evidence, zero without samples and
/// `u64::MAX` when it does not fit.
pub open spec fn spec_average_ns(e: FixCertificationLatencyEvidence) -> u64 {
    if e.spec_samples() == 0 {
        0
    } else {
        clamp_u64(e.spec_total_ns() as int / e.spec_samples() as int) as u64
    }
}

impl Default for FixCertificationLatencyEvidence {
    /// Empty evidence: no samples and zero bounds.
    fn default() -> (r: Self)
        ensures
            r == spec_empty_latency(),
            r.spec_samples() == 0,
            r.spec_total_ns() == 0,
            r.spec_min_ns() == 0,
            r.spec_max_ns() == 0,
    {
        Self { samples: 0, total_ns: 0, min_ns: 0, max_ns: 0 }
    }
}

impl FixCertificationLatencyEvidence {
    /// The sample count.
    pub closed spec fn spec_samples(&self) -> u64 {
        self.samples
    }

    /// The saturating total of all samples.
    pub closed spec fn spec_total_ns(&self) -> u128 {
        self.total_ns
    }

    /// The minimum sample.
    pub closed spec fn spec_min_ns(&self) -> u64 {
        self.min_ns
    }

    /// The maximum sample.
    pub closed spec fn spec_max_ns(&self) -> u64 {
        self.max_ns
    }

    /// Records one non-negative latency sample: the count and total
    /// saturate, the first sample sets the minimum.
    pub fn record(&mut self, latency_ns: u64)
        ensures
            *final(self) == spec_record_latency(*old(self), latency_ns),
            final(self).spec_samples() == clamp_u64(old(self).spec_samples() + 1),
            final(self).spec_total_ns() == clamp_u128(old(self).spec_total_ns() + latency_ns),
            final(self).spec_min_ns() == if old(self).spec_samples() == 0 || latency_ns < old(
                self,
            ).spec_min_ns() {
                latency_ns
            } else {
                old(self).spec_min_ns()
            },
            final(self).spec_max_ns() == if latency_ns > old(self).spec_max_ns() {
                latency_ns
            } else {
                old(self).spec_max_ns()
            },
    {
        if self.samples == 0 {
            self.min_ns = latency_ns;
        } else if latency_ns < self.min_ns {
            self.min_ns = latency_ns;
        }
        if latency_ns > self.max_ns {
            self.max_ns = latency_ns;
        }
        self.total_ns = self.total_ns.saturating_add(latency_ns as u128);
        self.samples = self.samples.saturating_add(1);
    }

    /// Returns sample count.
    pub fn samples(self) -> (r: u64)
        ensures
            r == self.spec_samples(),
    {
        self.samples
    }

    /// Returns minimum observed latency.
    pub fn min_ns(self) -> (r: u64)
        ensures
            r == self.spec_min_ns(),
    {
        self.min_ns
    }

    /// Returns maximum observed latency.
    pub fn max_ns(self) -> (r: u64)
        ensures
            r == self.spec_max_ns(),
    {
        self.max_ns
    }

    /// Returns integer average latency; see [`spec_average_ns`].
    pub fn average_ns(self) -> (r: u64)
        ensures
            r == spec_average_ns(self),
    {
        if self.samples == 0 {
            return 0;
        }
        let average = self.total_ns / (self.samples as u128);
        if average > u64::MAX as u128 {
            u64::MAX
        } else {
            average as u64
        }
    }
}

/// Allocation evidence measured by a host-provided allocator/profiler.
#[derive(Debug, Clone, Copy, PartialEq, Eq, Structural)]
pub struct FixCertificationAllocationEvidence {
    measured_messages: u64,
    hot_path_allocations: u64,
    hot_path_allocated_bytes: u64,
}

impl FixCertificationAllocationEvidence {
    /// The measured message count.
    pub closed spec fn spec_measured_messages(&self) -> u64 {
        self.measured_messages
    }

    /// The measured hot-path allocation count.
    pub closed spec fn spec_hot_path_allocations(&self) -> u64 {
        self.hot_path_allocations
    }

    /// The measured allocated bytes.
    pub closed spec fn spec_hot_path_allocated_bytes(&self) -> u64 {
        self.hot_path_allocated_bytes
    }

    /// Creates externally measured allocation evidence.
    pub fn new(
        measured_messages: u64,
        hot_path_allocations: u64,
        hot_path_allocated_bytes: u64,
    ) -> (r: Self)
        ensures
            r.spec_measured_messages() == measured_messages,
            r.spec_hot_path_allocations() == hot_path_allocations,
            r.spec_hot_path_allocated_bytes() == hot_path_allocated_bytes,
    {
        Self { measured_messages, hot_path_allocations, hot_path_allocated_bytes }
    }

    /// Returns measured message count.
    pub fn measured_messages(self) -> (r: u64)
        ensures
            r == self.spec_measured_messages(),
    {
        self.measured_messages
    }

    /// Returns measured hot-path allocation count.
    pub fn hot_path_allocations(self) -> (r: u64)
        ensures
            r == self.spec_hot_path_allocations(),
    {
        self.hot_path_allocations
    }

    /// Returns measured allocated bytes.
    pub fn hot_path_allocated_bytes(self) -> (r: u64)
        ensures
            r == self.spec_hot_path_allocated_bytes(),
    {
        self.hot_path_allocated_bytes
    }
}

/// Certification harness configuration/state error.
#[derive(Debug, Clone, Copy, PartialEq, Eq, Structural)]
pub enum FixCertificationHarnessError {
    /// Profile name was empty.
    EmptyProfileName,
    /// Required scenario inventory was empty.
    NoRequiredScenarios,
    /// Failure detail capacity was zero.
    ZeroFailureCapacity,
    /// A scenario was recorded more than once.
    DuplicateScenario(FixCertificationScenario),
}

impl FixCertificationHarnessError {
    /// The human-readable description of the error.
    pub open spec fn spec_text(&self) -> Seq<char> {
        match self {
            FixCertificationHarnessError::EmptyProfileName =>
                "FIX certification profile name is empty"@,
            FixCertificationHarnessError::NoRequiredScenarios =>
                "FIX certification has no required scenarios"@,
            FixCertificationHarnessError::ZeroFailureCapacity =>
                "FIX certification failure capacity is zero"@,
            FixCertificationHarnessError::DuplicateScenario(scenario) =>
                "FIX certification scenario "@ + scenario.spec_name() + " is duplicated"@,
        }
    }

    /// Renders the human-readable description of the error.
    pub fn to_string(&self) -> (r: String)
        ensures
            r@ == self.spec_text(),
    {
        match self {
            FixCertificationHarnessError::EmptyProfileName => String::from_str(
                "FIX certification profile name is empty",
            ),
            FixCertificationHarnessError::NoRequiredScenarios => String::from_str(
                "FIX certification has no required scenarios",
            ),
            FixCertificationHarnessError::ZeroFailureCapacity => String::from_str(
                "FIX certification failure capacity is zero",
            ),
            FixCertificationHarnessError::DuplicateScenario(scenario) => String::from_str(
                "FIX certification scenario ",
            ).concat(scenario.as_str()).concat(" is duplicated"),
        }
    }
}

/// Injected scripted-transport failure point.
#[derive(Debug, Clone, Copy, PartialEq, Eq, Structural)]
pub enum FixScriptedTransportFailure {
    /// Fail the next connect call.
    Connect,
    /// Fail the next send call.
    Send,
    /// Fail the next receive poll.
    Receive,
    /// Fail the next disconnect call.
    Disconnect,
}

/// Scripted transport error.
#[derive(Debug, Clone, Copy, PartialEq, Eq, Structural)]
pub enum FixScriptedTransportError {
    /// Configuration has a zero capacity.
    ZeroCapacity,
    /// Operation requires an established transport.
    Disconnected,
    /// Inbound queue limits were exceeded.
    InboundCapacity,
    /// Outbound archive limits were exceeded.
    OutboundCapacity,
    /// Destination receive buffer is smaller than the next frame.
    ReceiveBufferTooSmall {
        /// Required frame bytes.
        required: usize,
        /// Supplied destination bytes.
        available: usize,
    },
    /// Requested deterministic failure was injected.
    Injected(FixScriptedTransportFailure),
    /// Transcript capture rejected frame metadata.
    Transcript,
}

impl FixScriptedTransportFailure {
    /// The failure point's name (`{:?}` formatting).
    pub open spec fn spec_name(&self) -> Seq<char> {
        match self {
            FixScriptedTransportFailure::Connect => "Connect"@,
            FixScriptedTransportFailure::Send => "Send"@,
            FixScriptedTransportFailure::Receive => "Receive"@,
            FixScriptedTransportFailure::Disconnect => "Disconnect"@,
        }
    }

    /// Renders the failure point's name.
    fn name(&self) -> (r: &'static str)
        ensures
            r@ == self.spec_name(),
    {
        match self {
            FixScriptedTransportFailure::Connect => "Connect",
            FixScriptedTransportFailure::Send => "Send",
            FixScriptedTransportFailure::Receive => "Receive",
            FixScriptedTransportFailure::Disconnect => "Disconnect",
        }
    }
}

impl FixScriptedTransportError {
    /// The human-readable description of the error.
    pub open spec fn spec_text(&self) -> Seq<char> {
        match self {
            FixScriptedTransportError::ZeroCapacity => "scripted FIX transport capacity is zero"@,
            FixScriptedTransportError::Disconnected => "scripted FIX transport is disconnected"@,
            FixScriptedTransportError::InboundCapacity => "scripted FIX inbound capacity exceeded"@,
            FixScriptedTransportError::OutboundCapacity =>
                "scripted FIX outbound capacity exceeded"@,
            FixScriptedTransportError::ReceiveBufferTooSmall { required, available } =>
                "scripted FIX receive frame requires "@ + spec_decimal_text(*required as nat)
                + " bytes, "@ + spec_decimal_text(*available as nat) + " available"@,
            FixScriptedTransportError::Injected(point) => "scripted FIX transport failure at "@
                + point.spec_name(),
            FixScriptedTransportError::Transcript => "scripted FIX transcript capture failed"@,
        }
    }

    /// Renders the human-readable description of the error.
    pub fn to_string(&self) -> (r: String)
        ensures
            r@ == self.spec_text(),
    {
        match self {
            FixScriptedTransportError::ZeroCapacity => String::from_str(
                "scripted FIX transport capacity is zero",
            ),
            FixScriptedTransportError::Disconnected => String::from_str(
                "scripted FIX transport is disconnected",
            ),
            FixScriptedTransportError::InboundCapacity => String::from_str(
                "scripted FIX inbound capacity exceeded",
            ),
            FixScriptedTransportError::OutboundCapacity => String::from_str(
                "scripted FIX outbound capacity exceeded",
            ),
            FixScriptedTransportError::ReceiveBufferTooSmall { required, available } => {
                let r_text = decimal_string(*required as u64);
                let a_text = decimal_string(*available as u64);
                String::from_str("scripted FIX receive frame requires ").concat(
                    r_text.as_str(),
                ).concat(" bytes, ").concat(a_text.as_str()).concat(" available")
            },
            FixScriptedTransportError::Injected(point) => String::from_str(
                "scripted FIX transport failure at ",
            ).concat(point.name()),
            FixScriptedTransportError::Transcript => String::from_str(
                "scripted FIX transcript capture failed",
            ),
        }
    }
}

/// Deterministic certification clock error: the sending time is empty or
/// does not fit the destination.
#[derive(Debug, Clone, Copy, PartialEq, Eq, Structural)]
pub struct FixCertificationClockError;

impl FixCertificationClockError {
    /// The human-readable description of the error.
    pub open spec fn spec_text(&self) -> Seq<char> {
        "FIX certification timestamp does not fit destination buffer"@
    }

    /// Renders the human-readable description of the error.
    pub fn to_string(&self) -> (r: String)
        ensures
            r@ == self.spec_text(),
    {
        String::from_str("FIX certification timestamp does not fit destination buffer")
    }
}

/// Deterministic coherent clock for FIX adapter certification.
#[derive(Debug, Clone, PartialEq, Eq)]
pub struct FixCertificationClock {
    monotonic_ns: u64,
    unix_ns: u64,
    step_ns: u64,
    sending_time: Vec<u8>,
}

impl FixCertificationClock {
    /// The monotonic clock.
    pub closed spec fn spec_monotonic_ns(&self) -> u64 {
        self.monotonic_ns
    }

    /// The wall clock.
    pub closed spec fn spec_unix_ns(&self) -> u64 {
        self.unix_ns
    }

    /// The advance after each sample.
    pub closed spec fn spec_step_ns(&self) -> u64 {
        self.step_ns
    }

    /// The `SendingTime(52)` bytes.
    pub closed spec fn spec_sending_time(&self) -> Seq<u8> {
        self.sending_time@
    }

    /// Creates a deterministic clock and fixed FIX UTC timestamp.
    pub fn new(monotonic_ns: u64, unix_ns: u64, step_ns: u64, sending_time: Vec<u8>) -> (r: Self)
        ensures
            r.spec_monotonic_ns() == monotonic_ns,
            r.spec_unix_ns() == unix_ns,
            r.spec_step_ns() == step_ns,
            r.spec_sending_time() == sending_time@,
    {
        Self { monotonic_ns, unix_ns, step_ns, sending_time }
    }

    /// Advances both clocks explicitly, saturating at `u64::MAX`.
    pub fn advance_ns(&mut self, delta_ns: u64)
        ensures
            final(self).spec_monotonic_ns() == clamp_u64(old(self).spec_monotonic_ns() + delta_ns),
            final(self).spec_unix_ns() == clamp_u64(old(self).spec_unix_ns() + delta_ns),
            final(self).spec_step_ns() == old(self).spec_step_ns(),
            final(self).spec_sending_time() == old(self).spec_sending_time(),
    {
        self.monotonic_ns = self.monotonic_ns.saturating_add(delta_ns);
        self.unix_ns = self.unix_ns.saturating_add(delta_ns);
    }

    /// Replaces FIX `SendingTime(52)` bytes.
    pub fn set_sending_time(&mut self, sending_time: Vec<u8>)
        ensures
            final(self).spec_sending_time() == sending_time@,
            final(self).spec_monotonic_ns() == old(self).spec_monotonic_ns(),
            final(self).spec_unix_ns() == old(self).spec_unix_ns(),
            final(self).spec_step_ns() == old(self).spec_step_ns(),
    {
        self.sending_time = sending_time;
    }
}

impl FixTimeSource for FixCertificationClock {
    type Error = FixCertificationClockError;

    /// Writes the sending time into the front of `out` and samples both
    /// clocks, then advances them by the step; fails when the sending time
    /// is empty or longer than `out`.
    fn sample(&mut self, out: &mut [u8]) -> (r: Result<FixTimeSample, FixCertificationClockError>)
        ensures
            r is Ok <==> 0 < old(self).spec_sending_time().len() <= old(out)@.len(),
            r is Err ==> *final(self) == *old(self) && final(out)@ == old(out)@,
            r matches Ok(sample) ==> {
                let n = old(self).spec_sending_time().len();
                &&& sample.spec_monotonic_ns() == old(self).spec_monotonic_ns()
                &&& sample.spec_unix_ns() == old(self).spec_unix_ns()
                &&& sample.spec_sending_time_len() == n
                &&& final(out)@ == old(self).spec_sending_time() + old(out)@.skip(n as int)
                &&& final(self).spec_monotonic_ns() == clamp_u64(
                    old(self).spec_monotonic_ns() + old(self).spec_step_ns(),
                )
                &&& final(self).spec_unix_ns() == clamp_u64(
                    old(self).spec_unix_ns() + old(self).spec_step_ns(),
                )
                &&& final(self).spec_step_ns() == old(self).spec_step_ns()
                &&& final(self).spec_sending_time() == old(self).spec_sending_time()
            },
    {
        if self.sending_time.len() == 0 || self.sending_time.len() > out.len() {
            return Err(FixCertificationClockError);
        }
        let n = self.sending_time.len();
        let mut i: usize = 0;
        while i < n
            invariant
                n == self.sending_time@.len(),
                n <= out@.len(),
                out@.len() == old(out)@.len(),
                *self == *old(self),
                i <= n,
                out@ == self.sending_time@.take(i as int) + old(out)@.skip(i as int),
            decreases n - i,
        {
            out[i] = self.sending_time[i];
            i = i + 1;
            assert(out@ =~= self.sending_time@.take(i as int) + old(out)@.skip(i as int));
        }
        assert(self.sending_time@.take(n as int) =~= self.sending_time@);
        let sample = FixTimeSample::new(self.monotonic_ns, self.unix_ns, n);
        self.advance_ns(self.step_ns);
        Ok(sample)
    }
}

/// True when `v` lists scenarios in strictly increasing report order (so
/// without repeats).
pub open spec fn spec_scenarios_sorted(v: Seq<FixCertificationScenario>) -> bool {
    forall|i: int, j: int|
        0 <= i < j < v.len() ==> spec_scenario_rank(#[trigger] v[i]) < spec_scenario_rank(
            #[trigger] v[j],
        )
}

/// Inserts `s` into the sorted scenario list unless it is already there.
fn insert_scenario_sorted(v: &mut Vec<FixCertificationScenario>, s: FixCertificationScenario)
    requires
        spec_scenarios_sorted(old(v)@),
    ensures
        spec_scenarios_sorted(final(v)@),
        forall|x: FixCertificationScenario|
            final(v)@.contains(x) <==> (old(v)@.contains(x) || x == s),
{
    let rank = s.rank();
    let mut p: usize = 0;
    while p < v.len() && v[p].rank() < rank
        invariant
            p <= v@.len(),
            v@ == old(v)@,
            forall|j: int| 0 <= j < p ==> spec_scenario_rank(#[trigger] v@[j]) < rank,
        decreases v@.len() - p,
    {
        p = p + 1;
    }
    if p < v.len() && v[p].rank() == rank {
        proof {
            assert(v@[p as int] == s);
            assert forall|x: FixCertificationScenario| v@.contains(x) <==> (v@.contains(x) || x
                == s) by {
                if x == s {
                    assert(v@[p as int] == x);
                }
            }
        }
        return;
    }
    let ghost before = v@;
    assert(before == old(v)@);
    v.insert(p, s);
    proof {
        assert(v@ =~= before.insert(p as int, s));
        assert forall|i: int, j: int| 0 <= i < j < v@.len() implies spec_scenario_rank(
            #[trigger] v@[i],
        ) < spec_scenario_rank(#[trigger] v@[j]) by {
            if j < p {
                assert(v@[i] == before[i] && v@[j] == before[j]);
            } else if j == p {
                assert(v@[i] == before[i]);
            } else if i < p {
                assert(v@[j] == before[j - 1]);
                assert(v@[i] == before[i]);
                assert(spec_scenario_rank(before[j - 1]) > rank);
            } else if i == p {
                assert(v@[j] == before[j - 1]);
                assert(spec_scenario_rank(before[j - 1]) >= spec_scenario_rank(before[p as int]));
            } else {
                assert(v@[i] == before[i - 1] && v@[j] == before[j - 1]);
            }
        }
        assert forall|x: FixCertificationScenario| #[trigger] v@.contains(x) <==> (old(
            v,
        )@.contains(x) || x == s) by {
            if v@.contains(x) {
                let k = choose|k: int| 0 <= k < v@.len() && v@[k] == x;
                if k < p {
                    assert(before[k] == x);
                } else if k > p {
                    assert(before[k - 1] == x);
                }
            }
            if before.contains(x) {
                let k = choose|k: int| 0 <= k < before.len() && before[k] == x;
                if k < p {
                    assert(v@[k] == x);
                } else {
                    assert(v@[k + 1] == x);
                }
            }
            if x == s {
                assert(v@[p as int] == x);
            }
        }
    }
}

/// The scenarios of `input`, sorted into report order without repeats.
pub open spec fn spec_is_sorted_set_of(
    out: Seq<FixCertificationScenario>,
    input: Seq<FixCertificationScenario>,
) -> bool {
    &&& spec_scenarios_sorted(out)
    &&& forall|x: FixCertificationScenario| out.contains(x) <==> input.contains(x)
}

/// Bounded certification harness configuration.
#[derive(Debug, Clone, PartialEq, Eq)]
pub struct FixCertificationConfig {
    required_scenarios: Vec<FixCertificationScenario>,
    required_capabilities: u16,
    max_failures: usize,
    require_latency_evidence: bool,
    require_allocation_evidence: bool,
    require_complete_transcript: bool,
    max_observed_latency_ns: Option<u64>,
    max_hot_path_allocations: Option<u64>,
    max_hot_path_allocated_bytes: Option<u64>,
}

impl FixCertificationConfig {
    /// Required scenarios in report order.
    pub closed spec fn spec_required_scenarios(&self) -> Seq<FixCertificationScenario> {
        self.required_scenarios@
    }

    /// Mask of required capabilities.
    pub closed spec fn spec_required_capabilities(&self) -> u16 {
        self.required_capabilities
    }

    /// Retained failure-detail bound.
    pub closed spec fn spec_max_failures(&self) -> usize {
        self.max_failures
    }

    /// Whether at least one latency sample is mandatory.
    pub closed spec fn spec_require_latency_evidence(&self) -> bool {
        self.require_latency_evidence
    }

    /// Whether allocation evidence is mandatory.
    pub closed spec fn spec_require_allocation_evidence(&self) -> bool {
        self.require_allocation_evidence
    }

    /// Whether dropped or evicted transcript evidence fails the suite.
    pub closed spec fn spec_require_complete_transcript(&self) -> bool {
        self.require_complete_transcript
    }

    /// Maximum accepted observed latency.
    pub closed spec fn spec_max_observed_latency_ns(&self) -> Option<u64> {
        self.max_observed_latency_ns
    }

    /// Maximum accepted hot-path allocations.
    pub closed spec fn spec_max_hot_path_allocations(&self) -> Option<u64> {
        self.max_hot_path_allocations
    }

    /// Maximum accepted hot-path allocated bytes.
    pub closed spec fn spec_max_hot_path_allocated_bytes(&self) -> Option<u64> {
        self.max_hot_path_allocated_bytes
    }

    /// Creates a full-suite configuration: every scenario required, no
    /// capability required, 256 retained failures, every kind of evidence
    /// required and no performance limits.
    pub fn new() -> (r: Self)
        ensures
            r.spec_required_scenarios() == spec_all_scenarios(),
            r.spec_required_capabilities() == 0,
            r.spec_max_failures() == DEFAULT_MAX_FAILURES,
            r.spec_require_latency_evidence(),
            r.spec_require_allocation_evidence(),
            r.spec_require_complete_transcript(),
            r.spec_max_observed_latency_ns() is None,
            r.spec_max_hot_path_allocations() is None,
            r.spec_max_hot_path_allocated_bytes() is None,
    {
        let all = FixCertificationScenario::all();
        let mut scenarios: Vec<FixCertificationScenario> = Vec::new();
        let mut i: usize = 0;
        while i < 13
            invariant
                i <= 13,
                all@ == spec_all_scenarios(),
                scenarios@ == all@.take(i as int),
            decreases 13 - i,
        {
            scenarios.push(all[i]);
            i = i + 1;
            assert(scenarios@ =~= all@.take(i as int));
        }
        assert(all@.take(13) =~= all@);
        Self {
            required_scenarios: scenarios,
            required_capabilities: 0,
            max_failures: DEFAULT_MAX_FAILURES,
            require_latency_evidence: true,
            require_allocation_evidence: true,
            require_complete_transcript: true,
            max_observed_latency_ns: None,
            max_hot_path_allocations: None,
            max_hot_path_allocated_bytes: None,
        }
    }

    /// Replaces required scenarios, sorting them into report order and
    /// dropping repeats.
    pub fn with_required_scenarios(self, scenarios: &[FixCertificationScenario]) -> (r: Self)
        ensures
            spec_is_sorted_set_of(r.spec_required_scenarios(), scenarios@),
            r.spec_required_capabilities() == self.spec_required_capabilities(),
            r.spec_max_failures() == self.spec_max_failures(),
            r.spec_require_latency_evidence() == self.spec_require_latency_evidence(),
            r.spec_require_allocation_evidence() == self.spec_require_allocation_evidence(),
            r.spec_require_complete_transcript() == self.spec_require_complete_transcript(),
            r.spec_max_observed_latency_ns() == self.spec_max_observed_latency_ns(),
            r.spec_max_hot_path_allocations() == self.spec_max_hot_path_allocations(),
            r.spec_max_hot_path_allocated_bytes() == self.spec_max_hot_path_allocated_bytes(),
    {
        let mut sorted: Vec<FixCertificationScenario> = Vec::new();
        let mut i: usize = 0;
        while i < scenarios.len()
            invariant
                i <= scenarios@.len(),
                spec_scenarios_sorted(sorted@),
                forall|x: FixCertificationScenario|
                    sorted@.contains(x) <==> scenarios@.take(i as int).contains(x),
            decreases scenarios@.len() - i,
        {
            let ghost prev = sorted@;
            insert_scenario_sorted(&mut sorted, scenarios[i]);
            proof {
                assert forall|x: FixCertificationScenario| sorted@.contains(x)
                    <==> scenarios@.take(i + 1).contains(x) by {
                    assert(scenarios@.take(i + 1) =~= scenarios@.take(i as int).push(
                        scenarios@[i as int],
                    ));
                    if scenarios@.take(i as int).contains(x) {
                        let k = choose|k: int| 0 <= k < i && #[trigger] scenarios@.take(i as int)[k] == x;
                        assert(scenarios@.take(i + 1)[k] == x);
                    }
                    if scenarios@.take(i + 1).contains(x) {
                        let k = choose|k: int| 0 <= k < i + 1 && #[trigger] scenarios@.take(i + 1)[k] == x;
                        if k < i {
                            assert(scenarios@.take(i as int)[k] == x);
                        }
                    }
                    if x == scenarios@[i as int] {
                        assert(scenarios@.take(i + 1)[i as int] == x);
                    }
                }
            }
            i = i + 1;
        }
        assert(scenarios@.take(i as int) =~= scenarios@);
        let mut out = self;
        out.required_scenarios = sorted;
        out
    }

    /// Requires evidence for an advertised application capability.
    pub fn require_capability(self, capability: FixCertificationCapability) -> (r: Self)
        ensures
            r.spec_required_capabilities() == self.spec_required_capabilities()
                | spec_capability_bit(capability),
            r.spec_required_scenarios() == self.spec_required_scenarios(),
            r.spec_max_failures() == self.spec_max_failures(),
            r.spec_require_latency_evidence() == self.spec_require_latency_evidence(),
            r.spec_require_allocation_evidence() == self.spec_require_allocation_evidence(),
            r.spec_require_complete_transcript() == self.spec_require_complete_transcript(),
            r.spec_max_observed_latency_ns() == self.spec_max_observed_latency_ns(),
            r.spec_max_hot_path_allocations() == self.spec_max_hot_path_allocations(),
            r.spec_max_hot_path_allocated_bytes() == self.spec_max_hot_path_allocated_bytes(),
    {
        let mut out = self;
        out.required_capabilities = out.required_capabilities | capability.bit();
        out
    }

    /// Sets the retained failure bound.
    pub fn with_max_failures(self, max_failures: usize) -> (r: Self)
        ensures
            r.spec_required_scenarios() == self.spec_required_scenarios(),
            r.spec_required_capabilities() == self.spec_required_capabilities(),
            r.spec_max_failures() == max_failures,
            r.spec_require_latency_evidence() == self.spec_require_latency_evidence(),
            r.spec_require_allocation_evidence() == self.spec_require_allocation_evidence(),
            r.spec_require_complete_transcript() == self.spec_require_complete_transcript(),
            r.spec_max_observed_latency_ns() == self.spec_max_observed_latency_ns(),
            r.spec_max_hot_path_allocations() == self.spec_max_hot_path_allocations(),
            r.spec_max_hot_path_allocated_bytes() == self.spec_max_hot_path_allocated_bytes(),
    {
        let mut out = self;
        out.max_failures = max_failures;
        out
    }

    /// Configures whether at least one latency sample is mandatory.
    pub fn with_latency_evidence_required(self, required: bool) -> (r: Self)
        ensures
            r.spec_required_scenarios() == self.spec_required_scenarios(),
            r.spec_required_capabilities() == self.spec_required_capabilities(),
            r.spec_max_failures() == self.spec_max_failures(),
            r.spec_require_latency_evidence() == required,
            r.spec_require_allocation_evidence() == self.spec_require_allocation_evidence(),
            r.spec_require_complete_transcript() == self.spec_require_complete_transcript(),
            r.spec_max_observed_latency_ns() == self.spec_max_observed_latency_ns(),
            r.spec_max_hot_path_allocations() == self.spec_max_hot_path_allocations(),
            r.spec_max_hot_path_allocated_bytes() == self.spec_max_hot_path_allocated_bytes(),
    {
        let mut out = self;
        out.require_latency_evidence = required;
        out
    }

    /// Configures whether allocation evidence is mandatory.
    pub fn with_allocation_evidence_required(self, required: bool) -> (r: Self)
        ensures
            r.spec_required_scenarios() == self.spec_required_scenarios(),
            r.spec_required_capabilities() == self.spec_required_capabilities(),
            r.spec_max_failures() == self.spec_max_failures(),
            r.spec_require_latency_evidence() == self.spec_require_latency_evidence(),
            r.spec_require_allocation_evidence() == required,
            r.spec_require_complete_transcript() == self.spec_require_complete_transcript(),
            r.spec_max_observed_latency_ns() == self.spec_max_observed_latency_ns(),
            r.spec_max_hot_path_allocations() == self.spec_max_hot_path_allocations(),
            r.spec_max_hot_path_allocated_bytes() == self.spec_max_hot_path_allocated_bytes(),
    {
        let mut out = self;
        out.require_allocation_evidence = required;
        out
    }

    /// Configures whether dropped/evicted transcript evidence fails the suite.
    pub fn with_complete_transcript_required(self, required: bool) -> (r: Self)
        ensures
            r.spec_required_scenarios() == self.spec_required_scenarios(),
            r.spec_required_capabilities() == self.spec_required_capabilities(),
            r.spec_max_failures() == self.spec_max_failures(),
            r.spec_require_latency_evidence() == self.spec_require_latency_evidence(),
            r.spec_require_allocation_evidence() == self.spec_require_allocation_evidence(),
            r.spec_require_complete_transcript() == required,
            r.spec_max_observed_latency_ns() == self.spec_max_observed_latency_ns(),
            r.spec_max_hot_path_allocations() == self.spec_max_hot_path_allocations(),
            r.spec_max_hot_path_allocated_bytes() == self.spec_max_hot_path_allocated_bytes(),
    {
        let mut out = self;
        out.require_complete_transcript = required;
        out
    }

    /// Sets a maximum observed adapter latency threshold.
    pub fn with_max_observed_latency_ns(self, maximum: Option<u64>) -> (r: Self)
        ensures
            r.spec_required_scenarios() == self.spec_required_scenarios(),
            r.spec_required_capabilities() == self.spec_required_capabilities(),
            r.spec_max_failures() == self.spec_max_failures(),
            r.spec_require_latency_evidence() == self.spec_require_latency_evidence(),
            r.spec_require_allocation_evidence() == self.spec_require_allocation_evidence(),
            r.spec_require_complete_transcript() == self.spec_require_complete_transcript(),
            r.spec_max_observed_latency_ns() == maximum,
            r.spec_max_hot_path_allocations() == self.spec_max_hot_path_allocations(),
            r.spec_max_hot_path_allocated_bytes() == self.spec_max_hot_path_allocated_bytes(),
    {
        let mut out = self;
        out.max_observed_latency_ns = maximum;
        out
    }

    /// Sets the maximum total allocations accepted in measured hot-path work.
    pub fn with_max_hot_path_allocations(self, maximum: Option<u64>) -> (r: Self)
        ensures
            r.spec_required_scenarios() == self.spec_required_scenarios(),
            r.spec_required_capabilities() == self.spec_required_capabilities(),
            r.spec_max_failures() == self.spec_max_failures(),
            r.spec_require_latency_evidence() == self.spec_require_latency_evidence(),
            r.spec_require_allocation_evidence() == self.spec_require_allocation_evidence(),
            r.spec_require_complete_transcript() == self.spec_require_complete_transcript(),
            r.spec_max_observed_latency_ns() == self.spec_max_observed_latency_ns(),
            r.spec_max_hot_path_allocations() == maximum,
            r.spec_max_hot_path_allocated_bytes() == self.spec_max_hot_path_allocated_bytes(),
    {
        let mut out = self;
        out.max_hot_path_allocations = maximum;
        out
    }

    /// Sets the maximum total allocated bytes accepted in measured hot-path work.
    pub fn with_max_hot_path_allocated_bytes(self, maximum: Option<u64>) -> (r: Self)
        ensures
            r.spec_required_scenarios() == self.spec_required_scenarios(),
            r.spec_required_capabilities() == self.spec_required_capabilities(),
            r.spec_max_failures() == self.spec_max_failures(),
            r.spec_require_latency_evidence() == self.spec_require_latency_evidence(),
            r.spec_require_allocation_evidence() == self.spec_require_allocation_evidence(),
            r.spec_require_complete_transcript() == self.spec_require_complete_transcript(),
            r.spec_max_observed_latency_ns() == self.spec_max_observed_latency_ns(),
            r.spec_max_hot_path_allocations() == self.spec_max_hot_path_allocations(),
            r.spec_max_hot_path_allocated_bytes() == maximum,
    {
        let mut out = self;
        out.max_hot_path_allocated_bytes = maximum;
        out
    }

    /// Returns required scenarios.
    pub fn required_scenarios(&self) -> (r: &[FixCertificationScenario])
        ensures
            r@ == self.spec_required_scenarios(),
    {
        self.required_scenarios.as_slice()
    }

    /// Returns the retained failure-detail bound.
    pub fn max_failures(&self) -> (r: usize)
        ensures
            r == self.spec_max_failures(),
    {
        self.max_failures
    }

    /// The `required_capabilities` setting.
    pub(crate) fn required_capabilities(&self) -> (r: u16)
        ensures
            r == self.spec_required_capabilities(),
    {
        self.required_capabilities
    }

    /// The `require_latency_evidence` setting.
    pub(crate) fn require_latency_evidence(&self) -> (r: bool)
        ensures
            r == self.spec_require_latency_evidence(),
    {
        self.require_latency_evidence
    }

    /// The `require_allocation_evidence` setting.
    pub(crate) fn require_allocation_evidence(&self) -> (r: bool)
        ensures
            r == self.spec_require_allocation_evidence(),
    {
        self.require_allocation_evidence
    }

    /// The `require_complete_transcript` setting.
    pub(crate) fn require_complete_transcript(&self) -> (r: bool)
        ensures
            r == self.spec_require_complete_transcript(),
    {
        self.require_complete_transcript
    }

    /// The `max_observed_latency_ns` setting.
    pub(crate) fn max_observed_latency_ns(&self) -> (r: Option<u64>)
        ensures
            r == self.spec_max_observed_latency_ns(),
    {
        self.max_observed_latency_ns
    }

    /// The `max_hot_path_allocations` setting.
    pub(crate) fn max_hot_path_allocations(&self) -> (r: Option<u64>)
        ensures
            r == self.spec_max_hot_path_allocations(),
    {
        self.max_hot_path_allocations
    }

    /// The `max_hot_path_allocated_bytes` setting.
    pub(crate) fn max_hot_path_allocated_bytes(&self) -> (r: Option<u64>)
        ensures
            r == self.spec_max_hot_path_allocated_bytes(),
    {
        self.max_hot_path_allocated_bytes
    }
}

impl Default for FixCertificationConfig {
    /// The full-suite configuration of [`FixCertificationConfig::new`].
    fn default() -> (r: Self)
        ensures
            r.spec_required_scenarios() == spec_all_scenarios(),
            r.spec_required_capabilities() == 0,
            r.spec_max_failures() == DEFAULT_MAX_FAILURES,
            r.spec_require_latency_evidence(),
            r.spec_require_allocation_evidence(),
            r.spec_require_complete_transcript(),
            r.spec_max_observed_latency_ns() is None,
            r.spec_max_hot_path_allocations() is None,
            r.spec_max_hot_path_allocated_bytes() is None,
    {
        Self::new()
    }
}

/// The sum of `samples`.
pub open spec fn spec_sample_sum(samples: Seq<u64>) -> int
    decreases samples.len(),
{
    if samples.len() == 0 {
        0
    } else {
        spec_sample_sum(samples.drop_last()) + samples.last()
    }
}

/// Facts of the evidence of a non-empty recording: exact count and total,
/// bounds that hold every sample and are reached by one.
proof fn lemma_latency_of(samples: Seq<u64>)
    requires
        0 < samples.len() <= u64::MAX,
    ensures
        spec_latency_of(samples).samples == samples.len(),
        spec_latency_of(samples).total_ns == spec_sample_sum(samples),
        spec_sample_sum(samples) <= samples.len() * u64::MAX,
        forall|i: int|
            0 <= i < samples.len() ==> spec_latency_of(samples).min_ns <= #[trigger] samples[i]
                <= spec_latency_of(samples).max_ns,
        exists|i: int| 0 <= i < samples.len() && #[trigger] samples[i] == spec_latency_of(samples).min_ns,
        exists|i: int| 0 <= i < samples.len() && #[trigger] samples[i] == spec_latency_of(samples).max_ns,
        samples.len() * spec_latency_of(samples).min_ns <= spec_sample_sum(samples) <= samples.len()
            * spec_latency_of(samples).max_ns,
    decreases samples.len(),
{
    let e = spec_latency_of(samples);
    let x = samples.last();
    let n = samples.len();
    if n == 1 {
        assert(samples.drop_last().len() == 0);
        assert(spec_latency_of(samples.drop_last()) == spec_empty_latency());
        assert(spec_sample_sum(samples.drop_last()) == 0);
        assert(spec_sample_sum(samples) == x);
        assert(samples[0] == x);
    } else {
        let prev = samples.drop_last();
        lemma_latency_of(prev);
        let p = spec_latency_of(prev);
        assert(p.total_ns + x <= n * u64::MAX) by (nonlinear_arith)
            requires
                p.total_ns <= (n - 1) * u64::MAX,
                x <= u64::MAX,
        ;
        assert(n * u64::MAX < u128::MAX) by (nonlinear_arith)
            requires
                n <= u64::MAX,
        ;
        assert(spec_sample_sum(samples) == spec_sample_sum(prev) + x);
        assert(e.total_ns == p.total_ns + x);
        assert forall|i: int| 0 <= i < n implies e.min_ns <= #[trigger] samples[i] <= e.max_ns by {
            if i < n - 1 {
                assert(samples[i] == prev[i]);
            }
        }
        if x < p.min_ns {
            assert(samples[n - 1] == e.min_ns);
        } else {
            let k = choose|k: int| 0 <= k < prev.len() && #[trigger] prev[k] == p.min_ns;
            assert(samples[k] == e.min_ns);
        }
        if x > p.max_ns {
            assert(samples[n - 1] == e.max_ns);
        } else {
            let k = choose|k: int| 0 <= k < prev.len() && #[trigger] prev[k] == p.max_ns;
            assert(samples[k] == e.max_ns);
        }
        assert(n * e.min_ns <= p.total_ns + x <= n * e.max_ns) by (nonlinear_arith)
            requires
                (n - 1) * p.min_ns <= p.total_ns <= (n - 1) * p.max_ns,
                e.min_ns <= p.min_ns,
                e.min_ns <= x,
                e.max_ns >= p.max_ns,
                e.max_ns >= x,
                n >= 2,
        ;
    }
}

/// Recording a non-empty series of samples from empty evidence counts them
/// exactly, brackets every sample between the minimum and the maximum (each
/// of which is one of the samples), and puts the average between them.
pub proof fn law_latency_evidence_brackets_samples(samples: Seq<u64>)
    requires
        0 < samples.len() <= u64::MAX,
    ensures
        spec_latency_of(samples).spec_samples() == samples.len(),
        forall|i: int|
            0 <= i < samples.len() ==> spec_latency_of(samples).spec_min_ns() <= #[trigger] samples[i]
                <= spec_latency_of(samples).spec_max_ns(),
        exists|i: int| 0 <= i < samples.len() && #[trigger] samples[i] == spec_latency_of(samples).spec_min_ns(),
        exists|i: int| 0 <= i < samples.len() && #[trigger] samples[i] == spec_latency_of(samples).spec_max_ns(),
        spec_latency_of(samples).spec_min_ns() <= spec_average_ns(spec_latency_of(samples))
            <= spec_latency_of(samples).spec_max_ns(),
{
    lemma_latency_of(samples);
    let e = spec_latency_of(samples);
    let n = samples.len() as int;
    let t = e.total_ns as int;
    assert(e.min_ns <= t / n <= e.max_ns) by (nonlinear_arith)
        requires
            n * e.min_ns <= t <= n * e.max_ns,
            n > 0,
    ;
}

/// Evidence built from `Default` by recording each sample in turn is the
/// evidence of those samples: recording one more sample extends it by that
/// sample, and no sample gives the empty evidence.
pub proof fn law_latency_evidence_folds_records(samples: Seq<u64>, x: u64)
    ensures
        spec_latency_of(samples.push(x)) == spec_record_latency(spec_latency_of(samples), x),
        spec_latency_of(Seq::<u64>::empty()) == spec_empty_latency(),
{
    assert(samples.push(x).drop_last() =~= samples);
}

/// Evidence whose total agrees with its bounds: empty evidence has a zero
/// total; otherwise the minimum is at most the maximum and the total lies
/// between `samples * min_ns` and `samples * max_ns`.
pub open spec fn spec_latency_consistent(e: FixCertificationLatencyEvidence) -> bool {
    if e.spec_samples() == 0 {
        e.spec_total_ns() == 0
    } else {
        &&& e.spec_min_ns() <= e.spec_max_ns()
        &&& e.spec_samples() * e.spec_min_ns() <= e.spec_total_ns()
        &&& e.spec_total_ns() <= e.spec_samples() * e.spec_max_ns()
    }
}

/// Empty evidence is consistent, and recording any sample into consistent
/// evidence whose count has not saturated keeps it consistent.
pub proof fn law_latency_record_keeps_consistency(e: FixCertificationLatencyEvidence, x: u64)
    requires
        spec_latency_consistent(e),
        e.spec_samples() < u64::MAX,
    ensures
        spec_latency_consistent(spec_empty_latency()),
        spec_latency_consistent(spec_record_latency(e, x)),
{
    let n = e.samples as int;
    let t = e.total_ns as int;
    let r = spec_record_latency(e, x);
    assert(r.samples == n + 1);
    if n == 0 {
        assert(r.total_ns == x);
        assert(r.min_ns == x);
    } else {
        assert(t + x <= u128::MAX) by (nonlinear_arith)
            requires
                t <= n * e.max_ns,
                0 < n <= u64::MAX,
                e.max_ns <= u64::MAX,
                x <= u64::MAX,
        ;
        assert(r.total_ns == t + x);
        assert((n + 1) * r.min_ns <= t + x) by (nonlinear_arith)
            requires
                n * e.min_ns <= t,
                r.min_ns <= e.min_ns,
                r.min_ns <= x,
                n > 0,
        ;
        assert(t + x <= (n + 1) * r.max_ns) by (nonlinear_arith)
            requires
                t <= n * e.max_ns,
                e.max_ns <= r.max_ns,
                x <= r.max_ns,
                n > 0,
        ;
        assert(r.spec_samples() * r.spec_min_ns() <= r.spec_total_ns());
        assert(r.spec_total_ns() <= r.spec_samples() * r.spec_max_ns());
    }
}

/// The average of consistent non-empty evidence lies between its minimum
/// and its maximum.
pub proof fn law_latency_average_between_bounds(e: FixCertificationLatencyEvidence)
    requires
        spec_latency_consistent(e),
        e.spec_samples() > 0,
    ensures
        e.spec_min_ns() <= spec_average_ns(e) <= e.spec_max_ns(),
{
    let n = e.samples as int;
    let t = e.total_ns as int;
    assert(e.min_ns <= t / n <= e.max_ns) by (nonlinear_arith)
        requires
            n * e.min_ns <= t <= n * e.max_ns,
            n > 0,
    ;
}

} // verus!
