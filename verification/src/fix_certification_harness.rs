//! Stateful certification harness: scenario results with bounded failure
//! details, exercised capabilities and measured evidence, folded into an
//! immutable conformance report.

use vstd::prelude::*;
use vstd::utf8::{encode_utf8, is_ascii_chars, is_ascii_chars_encode_utf8};
use crate::algo_support::{lemma_decimal_ascii, spec_decimal_ascii, spec_pow10};
use crate::arith::clamp_u64;
use crate::fix_certification::{
    spec_all_capabilities, spec_all_scenarios, spec_capability_advertised, spec_capability_bit,
    FixCertificationAllocationEvidence, FixCertificationCapability, FixCertificationConfig,
    FixCertificationFailure, FixCertificationFailureKind, FixCertificationHarnessError,
    FixCertificationLatencyEvidence, FixCertificationScenario, spec_truncated_detail,
};
use crate::fix_shell::ExecutionCapabilities;
use crate::ids::ascii_chars;
use crate::text::decimal_string;
use crate::fix_transcript::{
    spec_transcript_failures, transcript_failures, FixFrameExpectation, FixTranscriptFrame,
};

verus! {

/// Result for one certification scenario.
#[derive(Debug, Clone, Copy, PartialEq, Eq, Structural)]
pub struct FixCertificationScenarioResult {
    scenario: FixCertificationScenario,
    passed: bool,
    assertions: u64,
    transcript_frames: u64,
    failure_count: u64,
}

impl FixCertificationScenarioResult {
    /// The scenario.
    pub closed spec fn spec_scenario(&self) -> FixCertificationScenario {
        self.scenario
    }

    /// Whether every scenario assertion passed.
    pub closed spec fn spec_passed(&self) -> bool {
        self.passed
    }

    /// The assertion count.
    pub closed spec fn spec_assertions(&self) -> u64 {
        self.assertions
    }

    /// The frames covered by transcript assertions.
    pub closed spec fn spec_transcript_frames(&self) -> u64 {
        self.transcript_frames
    }

    /// The failure count, including failures beyond retained detail bounds.
    pub closed spec fn spec_failure_count(&self) -> u64 {
        self.failure_count
    }

    /// Returns scenario identity.
    pub fn scenario(&self) -> (r: FixCertificationScenario)
        ensures
            r == self.spec_scenario(),
    {
        self.scenario
    }

    /// Returns whether every scenario assertion passed.
    pub fn passed(&self) -> (r: bool)
        ensures
            r == self.spec_passed(),
    {
        self.passed
    }

    /// Returns assertion count.
    pub fn assertions(&self) -> (r: u64)
        ensures
            r == self.spec_assertions(),
    {
        self.assertions
    }

    /// Returns frames covered by transcript assertions.
    pub fn transcript_frames(&self) -> (r: u64)
        ensures
            r == self.spec_transcript_frames(),
    {
        self.transcript_frames
    }

    /// Returns failure count, including failures beyond retained detail bounds.
    pub fn failure_count(&self) -> (r: u64)
        ensures
            r == self.spec_failure_count(),
    {
        self.failure_count
    }
}

/// Completeness counters of a transcript archive: records and raw bytes
/// dropped on capture or evicted later.
#[derive(Debug, Clone, Copy, Default, PartialEq, Eq, Structural)]
pub struct FixTranscriptEvidence {
    /// Records dropped on capture.
    pub dropped_records: u64,
    /// Raw bytes dropped on capture.
    pub dropped_raw_bytes: u64,
    /// Records evicted after capture.
    pub evicted_records: u64,
    /// Raw bytes evicted after capture.
    pub evicted_raw_bytes: u64,
}

/// True when the transcript lost records or raw bytes.
pub open spec fn spec_transcript_lossy(t: FixTranscriptEvidence) -> bool {
    t.dropped_records > 0 || t.dropped_raw_bytes > 0 || t.evicted_records > 0
        || t.evicted_raw_bytes > 0
}

/// The observable content of a failure: scenario, kind and detail bytes.
pub open spec fn spec_failure_view(f: FixCertificationFailure) -> (
    Option<FixCertificationScenario>,
    FixCertificationFailureKind,
    Seq<u8>,
) {
    (f.spec_scenario(), f.spec_kind(), f.spec_detail_bytes())
}

/// The observable content of a sequence of failures.
pub open spec fn spec_failure_views(fs: Seq<FixCertificationFailure>) -> Seq<
    (Option<FixCertificationScenario>, FixCertificationFailureKind, Seq<u8>),
>
    decreases fs.len(),
{
    if fs.len() == 0 {
        Seq::empty()
    } else {
        spec_failure_views(fs.drop_last()).push(spec_failure_view(fs.last()))
    }
}

/// The failure total: retained details plus dropped ones, saturated at
/// `u64::MAX`.
pub open spec fn spec_failure_total(retained: nat, dropped: u64) -> int {
    clamp_u64(retained + dropped)
}

/// Appends failures up to `cap` retained details, counting the rest as
/// dropped (saturating).
pub open spec fn spec_retain_all(
    kept: Seq<(Option<FixCertificationScenario>, FixCertificationFailureKind, Seq<u8>)>,
    dropped: u64,
    cap: usize,
    incoming: Seq<(Option<FixCertificationScenario>, FixCertificationFailureKind, Seq<u8>)>,
) -> (Seq<(Option<FixCertificationScenario>, FixCertificationFailureKind, Seq<u8>)>, u64)
    decreases incoming.len(),
{
    if incoming.len() == 0 {
        (kept, dropped)
    } else {
        let (k, d) = spec_retain_all(kept, dropped, cap, incoming.drop_last());
        if k.len() < cap {
            (k.push(incoming.last()), d)
        } else {
            (k, clamp_u64(d + 1) as u64)
        }
    }
}

/// The failure views of a scenario's failures once attributed to it.
pub open spec fn spec_attributed(
    scenario: FixCertificationScenario,
    fs: Seq<FixCertificationFailure>,
) -> Seq<(Option<FixCertificationScenario>, FixCertificationFailureKind, Seq<u8>)>
    decreases fs.len(),
{
    if fs.len() == 0 {
        Seq::empty()
    } else {
        spec_attributed(scenario, fs.drop_last()).push(
            (Some(scenario), fs.last().spec_kind(), fs.last().spec_detail_bytes()),
        )
    }
}

/// True when some result is for `scenario`.
pub open spec fn spec_has_result(
    results: Seq<FixCertificationScenarioResult>,
    scenario: FixCertificationScenario,
) -> bool {
    exists|i: int| 0 <= i < results.len() && (#[trigger] results[i]).spec_scenario() == scenario
}

/// The results recorded for `scenario`, in recording order.
pub open spec fn spec_results_for(
    results: Seq<FixCertificationScenarioResult>,
    scenario: FixCertificationScenario,
) -> Seq<FixCertificationScenarioResult>
    decreases results.len(),
{
    if results.len() == 0 {
        Seq::empty()
    } else if results.last().spec_scenario() == scenario {
        spec_results_for(results.drop_last(), scenario).push(results.last())
    } else {
        spec_results_for(results.drop_last(), scenario)
    }
}

/// The results in stable report order: for each of the first `k`
/// scenarios of the inventory, the results recorded for it.
pub open spec fn spec_results_in_order(
    results: Seq<FixCertificationScenarioResult>,
    k: int,
) -> Seq<FixCertificationScenarioResult>
    decreases k,
{
    if k <= 0 {
        Seq::empty()
    } else {
        spec_results_in_order(results, k - 1) + spec_results_for(
            results,
            spec_all_scenarios()[k - 1],
        )
    }
}

/// The required scenarios that have no result, in required order.
pub open spec fn spec_missing(
    required: Seq<FixCertificationScenario>,
    results: Seq<FixCertificationScenarioResult>,
) -> Seq<FixCertificationScenario>
    decreases required.len(),
{
    if required.len() == 0 {
        Seq::empty()
    } else if !spec_has_result(results, required.last()) {
        spec_missing(required.drop_last(), results).push(required.last())
    } else {
        spec_missing(required.drop_last(), results)
    }
}

/// Of `cs`, the required capabilities that the profile does not
/// advertise.
pub open spec fn spec_unsupported_in(
    required: u16,
    capabilities: ExecutionCapabilities,
    cs: Seq<FixCertificationCapability>,
) -> Seq<FixCertificationCapability>
    decreases cs.len(),
{
    if cs.len() == 0 {
        Seq::empty()
    } else if required & spec_capability_bit(cs.last()) != 0 && !spec_capability_advertised(
        cs.last(),
        capabilities,
    ) {
        spec_unsupported_in(required, capabilities, cs.drop_last()).push(cs.last())
    } else {
        spec_unsupported_in(required, capabilities, cs.drop_last())
    }
}

/// Of `cs`, the required, advertised capabilities that no scenario
/// exercised.
pub open spec fn spec_unexercised_in(
    required: u16,
    exercised: u16,
    capabilities: ExecutionCapabilities,
    cs: Seq<FixCertificationCapability>,
) -> Seq<FixCertificationCapability>
    decreases cs.len(),
{
    if cs.len() == 0 {
        Seq::empty()
    } else if required & spec_capability_bit(cs.last()) != 0 && spec_capability_advertised(
        cs.last(),
        capabilities,
    ) && exercised & spec_capability_bit(cs.last()) == 0 {
        spec_unexercised_in(required, exercised, capabilities, cs.drop_last()).push(cs.last())
    } else {
        spec_unexercised_in(required, exercised, capabilities, cs.drop_last())
    }
}

/// Required capabilities that the profile does not advertise, in stable
/// order.
pub open spec fn spec_unsupported(required: u16, capabilities: ExecutionCapabilities) -> Seq<
    FixCertificationCapability,
> {
    spec_unsupported_in(required, capabilities, spec_all_capabilities())
}

/// Required, advertised capabilities that no scenario exercised, in stable
/// order.
pub open spec fn spec_unexercised(
    required: u16,
    exercised: u16,
    capabilities: ExecutionCapabilities,
) -> Seq<FixCertificationCapability> {
    spec_unexercised_in(required, exercised, capabilities, spec_all_capabilities())
}

/// Required allocation evidence is absent or measured no message.
pub open spec fn spec_allocation_missing(
    config: FixCertificationConfig,
    allocation: Option<FixCertificationAllocationEvidence>,
) -> bool {
    config.spec_require_allocation_evidence() && match allocation {
        Some(e) => e.spec_measured_messages() == 0,
        None => true,
    }
}

/// The maximum observed latency exceeds the configured limit.
pub open spec fn spec_latency_exceeded(
    config: FixCertificationConfig,
    latency: FixCertificationLatencyEvidence,
) -> bool {
    match config.spec_max_observed_latency_ns() {
        Some(m) => latency.spec_max_ns() > m,
        None => false,
    }
}

/// The allocation evidence exceeds a configured allocation limit.
pub open spec fn spec_allocation_exceeded(
    config: FixCertificationConfig,
    allocation: Option<FixCertificationAllocationEvidence>,
) -> bool {
    match allocation {
        Some(e) => (match config.spec_max_hot_path_allocations() {
            Some(m) => e.spec_hot_path_allocations() > m,
            None => false,
        }) || (match config.spec_max_hot_path_allocated_bytes() {
            Some(m) => e.spec_hot_path_allocated_bytes() > m,
            None => false,
        }),
        None => false,
    }
}

/// Required latency evidence has no sample.
pub open spec fn spec_latency_missing(
    config: FixCertificationConfig,
    latency: FixCertificationLatencyEvidence,
) -> bool {
    config.spec_require_latency_evidence() && latency.spec_samples() == 0
}

/// A complete transcript is required and the transcript lost evidence.
pub open spec fn spec_transcript_incomplete(
    config: FixCertificationConfig,
    transcript: FixTranscriptEvidence,
) -> bool {
    config.spec_require_complete_transcript() && spec_transcript_lossy(transcript)
}

/// The detail text of a latency-limit failure.
pub open spec fn spec_latency_detail(observed: u64, limit: u64) -> Seq<char> {
    "maximum observed latency "@ + ascii_chars(spec_decimal_ascii(observed as nat))
        + " ns exceeds configured "@ + ascii_chars(spec_decimal_ascii(limit as nat)) + " ns"@
}

/// The suite-level evidence failures a report adds, in order.
pub open spec fn spec_evidence_failures(
    config: FixCertificationConfig,
    latency: FixCertificationLatencyEvidence,
    allocation: Option<FixCertificationAllocationEvidence>,
    transcript: FixTranscriptEvidence,
) -> Seq<(Option<FixCertificationScenario>, FixCertificationFailureKind, Seq<u8>)> {
    let limit = match config.spec_max_observed_latency_ns() {
        Some(m) => m,
        None => u64::MAX,
    };
    (if spec_latency_missing(config, latency) {
        seq![
            (
                None::<FixCertificationScenario>,
                FixCertificationFailureKind::LatencyEvidenceMissing,
                encode_utf8("latency evidence is required"@),
            ),
        ]
    } else {
        Seq::empty()
    }) + (if spec_allocation_missing(config, allocation) {
        seq![
            (
                None::<FixCertificationScenario>,
                FixCertificationFailureKind::AllocationEvidenceMissing,
                encode_utf8(
                    "allocation evidence with at least one measured message is required"@,
                ),
            ),
        ]
    } else {
        Seq::empty()
    }) + (if spec_latency_exceeded(config, latency) {
        seq![
            (
                None::<FixCertificationScenario>,
                FixCertificationFailureKind::LatencyLimitExceeded,
                encode_utf8(spec_latency_detail(latency.spec_max_ns(), limit)),
            ),
        ]
    } else {
        Seq::empty()
    }) + (if spec_allocation_exceeded(config, allocation) {
        seq![
            (
                None::<FixCertificationScenario>,
                FixCertificationFailureKind::AllocationLimitExceeded,
                encode_utf8("hot-path allocation evidence exceeds configured limits"@),
            ),
        ]
    } else {
        Seq::empty()
    }) + (if spec_transcript_incomplete(config, transcript) {
        seq![
            (
                None::<FixCertificationScenario>,
                FixCertificationFailureKind::TranscriptIncomplete,
                encode_utf8("certification transcript dropped or evicted evidence"@),
            ),
        ]
    } else {
        Seq::empty()
    })
}

/// Immutable FIX certification conformance report.
#[derive(Debug, Clone)]
pub struct FixCertificationReport<V> {
    profile_name: String,
    version: V,
    passed: bool,
    scenarios: Vec<FixCertificationScenarioResult>,
    missing_scenarios: Vec<FixCertificationScenario>,
    failures: Vec<FixCertificationFailure>,
    dropped_failure_details: u64,
    unsupported_capabilities: Vec<FixCertificationCapability>,
    unexercised_capabilities: Vec<FixCertificationCapability>,
    latency: FixCertificationLatencyEvidence,
    allocation: Option<FixCertificationAllocationEvidence>,
    transcript: FixTranscriptEvidence,
}

impl<V> FixCertificationReport<V> {
    /// The profile name.
    pub closed spec fn spec_profile_name(&self) -> Seq<char> {
        self.profile_name@
    }

    /// The FIX version under test.
    pub closed spec fn spec_version(&self) -> V {
        self.version
    }

    /// Whether the suite passed.
    pub closed spec fn spec_passed(&self) -> bool {
        self.passed
    }

    /// Scenario results in stable order.
    pub closed spec fn spec_scenarios(&self) -> Seq<FixCertificationScenarioResult> {
        self.scenarios@
    }

    /// Required scenarios never recorded.
    pub closed spec fn spec_missing_scenarios(&self) -> Seq<FixCertificationScenario> {
        self.missing_scenarios@
    }

    /// Retained failure details.
    pub closed spec fn spec_failures(&self) -> Seq<FixCertificationFailure> {
        self.failures@
    }

    /// Failures omitted after the detail bound.
    pub closed spec fn spec_dropped_failure_details(&self) -> u64 {
        self.dropped_failure_details
    }

    /// Required capabilities not advertised.
    pub closed spec fn spec_unsupported_capabilities(&self) -> Seq<FixCertificationCapability> {
        self.unsupported_capabilities@
    }

    /// Required advertised capabilities not exercised.
    pub closed spec fn spec_unexercised_capabilities(&self) -> Seq<FixCertificationCapability> {
        self.unexercised_capabilities@
    }

    /// Latency evidence.
    pub closed spec fn spec_latency(&self) -> FixCertificationLatencyEvidence {
        self.latency
    }

    /// Allocation evidence.
    pub closed spec fn spec_allocation(&self) -> Option<FixCertificationAllocationEvidence> {
        self.allocation
    }

    /// Transcript completeness counters.
    pub closed spec fn spec_transcript(&self) -> FixTranscriptEvidence {
        self.transcript
    }

    /// Returns profile/report name.
    pub fn profile_name(&self) -> (r: &str)
        ensures
            r@ == self.spec_profile_name(),
    {
        self.profile_name.as_str()
    }

    /// Returns FIX version under test.
    pub fn version(&self) -> (r: &V)
        ensures
            *r == self.spec_version(),
    {
        &self.version
    }

    /// Returns true only when scenarios, capabilities, and required evidence pass.
    pub fn passed(&self) -> (r: bool)
        ensures
            r == self.spec_passed(),
    {
        self.passed
    }

    /// Returns scenario results in stable order.
    pub fn scenarios(&self) -> (r: &[FixCertificationScenarioResult])
        ensures
            r@ == self.spec_scenarios(),
    {
        self.scenarios.as_slice()
    }

    /// Returns required scenarios that were never recorded.
    pub fn missing_scenarios(&self) -> (r: &[FixCertificationScenario])
        ensures
            r@ == self.spec_missing_scenarios(),
    {
        self.missing_scenarios.as_slice()
    }

    /// Returns bounded failure details.
    pub fn failures(&self) -> (r: &[FixCertificationFailure])
        ensures
            r@ == self.spec_failures(),
    {
        self.failures.as_slice()
    }

    /// Returns failures omitted after the configured detail bound.
    pub fn dropped_failure_details(&self) -> (r: u64)
        ensures
            r == self.spec_dropped_failure_details(),
    {
        self.dropped_failure_details
    }

    /// Returns required capabilities not advertised by the profile.
    pub fn unsupported_capabilities(&self) -> (r: &[FixCertificationCapability])
        ensures
            r@ == self.spec_unsupported_capabilities(),
    {
        self.unsupported_capabilities.as_slice()
    }

    /// Returns required advertised capabilities not exercised by the suite.
    pub fn unexercised_capabilities(&self) -> (r: &[FixCertificationCapability])
        ensures
            r@ == self.spec_unexercised_capabilities(),
    {
        self.unexercised_capabilities.as_slice()
    }

    /// Returns latency evidence.
    pub fn latency(&self) -> (r: FixCertificationLatencyEvidence)
        ensures
            r == self.spec_latency(),
    {
        self.latency
    }

    /// Returns external allocation evidence.
    pub fn allocation(&self) -> (r: Option<FixCertificationAllocationEvidence>)
        ensures
            r == self.spec_allocation(),
    {
        self.allocation
    }

    /// Returns transcript completeness counters.
    pub fn transcript(&self) -> (r: FixTranscriptEvidence)
        ensures
            r == self.spec_transcript(),
    {
        self.transcript
    }
}


/// Whether `std` classifies `c` as whitespace (`char::is_whitespace`).
pub uninterp spec fn spec_char_is_whitespace(c: char) -> bool;

/// Calls `char::is_whitespace`; its result is named by
/// [`spec_char_is_whitespace`] and depends on the character alone.
#[verifier::external_body]
fn char_is_whitespace(c: char) -> (r: bool)
    ensures
        r == spec_char_is_whitespace(c),
{
    c.is_whitespace()
}

/// True when every character of `s` is whitespace (so `s.trim()` is empty).
pub open spec fn spec_is_blank(s: Seq<char>) -> bool {
    forall|i: int| 0 <= i < s.len() ==> spec_char_is_whitespace(#[trigger] s[i])
}

/// Whether every character of `s` is whitespace.
fn is_blank(s: &str) -> (r: bool)
    ensures
        r == spec_is_blank(s@),
{
    broadcast use vstd::string::axiom_spec_iter;

    let mut blank = true;
    for c in it: s.chars()
        invariant
            it.seq() == s@,
            blank == (forall|j: int| 0 <= j < it.index() ==> spec_char_is_whitespace(
                #[trigger] s@[j],
            )),
    {
        if !char_is_whitespace(c) {
            blank = false;
        }
    }
    blank
}

/// Retaining one failure is one step of [`spec_retain_all`].
proof fn lemma_retain_one(
    kept: Seq<(Option<FixCertificationScenario>, FixCertificationFailureKind, Seq<u8>)>,
    dropped: u64,
    cap: usize,
    v: (Option<FixCertificationScenario>, FixCertificationFailureKind, Seq<u8>),
)
    ensures
        spec_retain_all(kept, dropped, cap, seq![v]) == if kept.len() < cap {
            (kept.push(v), dropped)
        } else {
            (kept, clamp_u64(dropped + 1) as u64)
        },
{
    let e = Seq::<(Option<FixCertificationScenario>, FixCertificationFailureKind, Seq<u8>)>::empty();
    assert(seq![v].drop_last() =~= e);
    assert(seq![v].last() == v);
    assert(spec_retain_all(kept, dropped, cap, e) == (kept, dropped));
}

/// Retaining one more failure extends [`spec_retain_all`] by one step.
proof fn lemma_retain_append(
    kept: Seq<(Option<FixCertificationScenario>, FixCertificationFailureKind, Seq<u8>)>,
    dropped: u64,
    cap: usize,
    xs: Seq<(Option<FixCertificationScenario>, FixCertificationFailureKind, Seq<u8>)>,
    v: (Option<FixCertificationScenario>, FixCertificationFailureKind, Seq<u8>),
)
    ensures
        spec_retain_all(kept, dropped, cap, xs.push(v)) == spec_retain_all(
            spec_retain_all(kept, dropped, cap, xs).0,
            spec_retain_all(kept, dropped, cap, xs).1,
            cap,
            seq![v],
        ),
{
    assert(xs.push(v).drop_last() =~= xs);
    lemma_retain_one(
        spec_retain_all(kept, dropped, cap, xs).0,
        spec_retain_all(kept, dropped, cap, xs).1,
        cap,
        v,
    );
}

/// Stateful bounded certification report builder, generic over the FIX
/// version value it reports.
#[derive(Debug)]
pub struct FixCertificationHarness<V> {
    profile_name: String,
    version: V,
    config: FixCertificationConfig,
    scenarios: Vec<FixCertificationScenarioResult>,
    failures: Vec<FixCertificationFailure>,
    dropped_failure_details: u64,
    exercised_capabilities: u16,
    latency: FixCertificationLatencyEvidence,
    allocation: Option<FixCertificationAllocationEvidence>,
}

impl<V: Copy> FixCertificationHarness<V> {
    /// The profile name.
    pub closed spec fn spec_profile_name(&self) -> Seq<char> {
        self.profile_name@
    }

    /// The FIX version under test.
    pub closed spec fn spec_version(&self) -> V {
        self.version
    }

    /// The suite configuration.
    pub closed spec fn spec_config(&self) -> FixCertificationConfig {
        self.config
    }

    /// Recorded scenario results, in recording order.
    pub closed spec fn spec_scenarios(&self) -> Seq<FixCertificationScenarioResult> {
        self.scenarios@
    }

    /// Retained failure details.
    pub closed spec fn spec_failures(&self) -> Seq<
        (Option<FixCertificationScenario>, FixCertificationFailureKind, Seq<u8>),
    > {
        spec_failure_views(self.failures@)
    }

    /// Failures beyond the detail bound.
    pub closed spec fn spec_dropped_failure_details(&self) -> u64 {
        self.dropped_failure_details
    }

    /// Mask of exercised capabilities.
    pub closed spec fn spec_exercised_capabilities(&self) -> u16 {
        self.exercised_capabilities
    }

    /// Latency evidence.
    pub closed spec fn spec_latency(&self) -> FixCertificationLatencyEvidence {
        self.latency
    }

    /// Allocation evidence.
    pub closed spec fn spec_allocation(&self) -> Option<FixCertificationAllocationEvidence> {
        self.allocation
    }

    /// Creates an empty harness; refuses a blank profile name, an empty
    /// scenario inventory and a zero failure bound, in that order.
    pub fn new(profile_name: String, version: V, config: FixCertificationConfig) -> (r: Result<
        Self,
        FixCertificationHarnessError,
    >)
        ensures
            spec_is_blank(profile_name@) ==> r == Err::<Self, FixCertificationHarnessError>(
                FixCertificationHarnessError::EmptyProfileName,
            ),
            !spec_is_blank(profile_name@) && config.spec_required_scenarios().len() == 0 ==> r
                == Err::<Self, FixCertificationHarnessError>(
                FixCertificationHarnessError::NoRequiredScenarios,
            ),
            !spec_is_blank(profile_name@) && config.spec_required_scenarios().len() > 0
                && config.spec_max_failures() == 0 ==> r == Err::<
                Self,
                FixCertificationHarnessError,
            >(FixCertificationHarnessError::ZeroFailureCapacity),
            !spec_is_blank(profile_name@) && config.spec_required_scenarios().len() > 0
                && config.spec_max_failures() > 0 ==> (r matches Ok(h) && h.spec_profile_name()
                == profile_name@ && h.spec_version() == version && h.spec_config() == config
                && h.spec_scenarios().len() == 0 && h.spec_failures().len() == 0
                && h.spec_dropped_failure_details() == 0 && h.spec_exercised_capabilities() == 0
                && h.spec_latency().spec_samples() == 0 && h.spec_latency().spec_total_ns() == 0
                && h.spec_latency().spec_min_ns() == 0 && h.spec_latency().spec_max_ns() == 0
                && h.spec_allocation() is None),
    {
        if is_blank(profile_name.as_str()) {
            return Err(FixCertificationHarnessError::EmptyProfileName);
        }
        if config.required_scenarios().len() == 0 {
            return Err(FixCertificationHarnessError::NoRequiredScenarios);
        }
        if config.max_failures() == 0 {
            return Err(FixCertificationHarnessError::ZeroFailureCapacity);
        }
        let h = Self {
            profile_name,
            version,
            config,
            scenarios: Vec::new(),
            failures: Vec::new(),
            dropped_failure_details: 0,
            exercised_capabilities: 0,
            latency: FixCertificationLatencyEvidence::default(),
            allocation: None,
        };
        assert(h.failures@.len() == 0);
        Ok(h)
    }

    /// Whether a result was recorded for `scenario`.
    fn has_scenario(&self, scenario: FixCertificationScenario) -> (r: bool)
        ensures
            r == spec_has_result(self.spec_scenarios(), scenario),
    {
        let mut i: usize = 0;
        while i < self.scenarios.len()
            invariant
                i <= self.scenarios@.len(),
                forall|j: int| 0 <= j < i ==> (#[trigger] self.scenarios@[j]).spec_scenario() != scenario,
            decreases self.scenarios@.len() - i,
        {
            if self.scenarios[i].scenario() == scenario {
                return true;
            }
            i = i + 1;
        }
        false
    }

    /// Keeps a failure detail while under the bound, else counts it dropped.
    fn retain_failure(&mut self, failure: FixCertificationFailure)
        ensures
            (final(self).spec_failures(), final(self).spec_dropped_failure_details())
                == spec_retain_all(
                old(self).spec_failures(),
                old(self).spec_dropped_failure_details(),
                old(self).spec_config().spec_max_failures(),
                seq![spec_failure_view(failure)],
            ),
            final(self).spec_scenarios() == old(self).spec_scenarios(),
            final(self).spec_config() == old(self).spec_config(),
            final(self).spec_profile_name() == old(self).spec_profile_name(),
            final(self).spec_version() == old(self).spec_version(),
            final(self).spec_exercised_capabilities() == old(self).spec_exercised_capabilities(),
            final(self).spec_latency() == old(self).spec_latency(),
            final(self).spec_allocation() == old(self).spec_allocation(),
    {
        let ghost view = spec_failure_view(failure);
        proof {
            lemma_retain_one(
                self.spec_failures(),
                self.spec_dropped_failure_details(),
                self.config.spec_max_failures(),
                view,
            );
            lemma_failure_views_len(self.failures@);
        }
        if self.failures.len() < self.config.max_failures() {
            let ghost before = self.failures@;
            self.failures.push(failure);
            assert(self.failures@.drop_last() =~= before);
        } else {
            self.dropped_failure_details = self.dropped_failure_details.saturating_add(1);
        }
    }

    /// Records a manually evaluated scenario: refused as a duplicate when the
    /// scenario already has a result; otherwise its failures, attributed to
    /// it, are retained up to the bound, and it passes when it made at least
    /// one assertion and had no failure.
    pub fn record_scenario(
        &mut self,
        scenario: FixCertificationScenario,
        assertions: u64,
        failures: Vec<FixCertificationFailure>,
    ) -> (r: Result<(), FixCertificationHarnessError>)
        ensures
            spec_has_result(old(self).spec_scenarios(), scenario) ==> r == Err::<
                (),
                FixCertificationHarnessError,
            >(FixCertificationHarnessError::DuplicateScenario(scenario))
                && final(self).spec_scenarios() == old(self).spec_scenarios()
                && final(self).spec_failures() == old(self).spec_failures()
                && final(self).spec_dropped_failure_details() == old(self).spec_dropped_failure_details(),
            !spec_has_result(old(self).spec_scenarios(), scenario) ==> r is Ok && ({
                let n = failures@.len();
                let result = final(self).spec_scenarios().last();
                &&& final(self).spec_scenarios().len() == old(self).spec_scenarios().len() + 1
                &&& final(self).spec_scenarios().drop_last() == old(self).spec_scenarios()
                &&& result.spec_scenario() == scenario
                &&& result.spec_assertions() == assertions
                &&& result.spec_failure_count() == n
                &&& result.spec_transcript_frames() == 0
                &&& result.spec_passed() == (assertions > 0 && n == 0)
                &&& (final(self).spec_failures(), final(self).spec_dropped_failure_details())
                    == spec_retain_all(
                    old(self).spec_failures(),
                    old(self).spec_dropped_failure_details(),
                    old(self).spec_config().spec_max_failures(),
                    spec_attributed(scenario, failures@),
                )
            }),
            final(self).spec_config() == old(self).spec_config(),
            final(self).spec_profile_name() == old(self).spec_profile_name(),
            final(self).spec_version() == old(self).spec_version(),
            final(self).spec_exercised_capabilities() == old(self).spec_exercised_capabilities(),
            final(self).spec_latency() == old(self).spec_latency(),
            final(self).spec_allocation() == old(self).spec_allocation(),
    {
        if self.has_scenario(scenario) {
            return Err(FixCertificationHarnessError::DuplicateScenario(scenario));
        }
        let mut failure_count: u64 = 0;
        let mut i: usize = 0;
        while i < failures.len()
            invariant
                i <= failures@.len(),
                failure_count == i,
                (self.spec_failures(), self.spec_dropped_failure_details()) == spec_retain_all(
                    old(self).spec_failures(),
                    old(self).spec_dropped_failure_details(),
                    old(self).spec_config().spec_max_failures(),
                    spec_attributed(scenario, failures@.take(i as int)),
                ),
                self.spec_scenarios() == old(self).spec_scenarios(),
                self.spec_config() == old(self).spec_config(),
                self.spec_profile_name() == old(self).spec_profile_name(),
                self.spec_version() == old(self).spec_version(),
                self.spec_exercised_capabilities() == old(self).spec_exercised_capabilities(),
                self.spec_latency() == old(self).spec_latency(),
                self.spec_allocation() == old(self).spec_allocation(),
            decreases failures@.len() - i,
        {
            let failure = failures[i].clone().attributed_to(scenario);
            let ghost before = (self.spec_failures(), self.spec_dropped_failure_details());
            self.retain_failure(failure);
            proof {
                assert(failures@.take(i + 1).drop_last() =~= failures@.take(i as int));
                let inc = spec_attributed(scenario, failures@.take(i + 1));
                assert(inc.drop_last() =~= spec_attributed(scenario, failures@.take(i as int)));
                assert(inc.last() == spec_failure_view(failure));
                lemma_retain_one(before.0, before.1, self.config.spec_max_failures(), inc.last());
                lemma_retain_one(
                    spec_retain_all(
                        old(self).spec_failures(),
                        old(self).spec_dropped_failure_details(),
                        old(self).spec_config().spec_max_failures(),
                        inc.drop_last(),
                    ).0,
                    spec_retain_all(
                        old(self).spec_failures(),
                        old(self).spec_dropped_failure_details(),
                        old(self).spec_config().spec_max_failures(),
                        inc.drop_last(),
                    ).1,
                    self.config.spec_max_failures(),
                    inc.last(),
                );
            }
            failure_count = failure_count + 1;
            i = i + 1;
        }
        assert(failures@.take(i as int) =~= failures@);
        let ghost before_results = self.scenarios@;
        self.scenarios.push(
            FixCertificationScenarioResult {
                scenario,
                passed: assertions > 0 && failure_count == 0,
                assertions,
                transcript_frames: 0,
                failure_count,
            },
        );
        assert(self.scenarios@.drop_last() =~= before_results);
        Ok(())
    }

    /// Retains failures in order, up to the bound.
    fn retain_failures(&mut self, failures: &Vec<FixCertificationFailure>)
        ensures
            (final(self).spec_failures(), final(self).spec_dropped_failure_details())
                == spec_retain_all(
                old(self).spec_failures(),
                old(self).spec_dropped_failure_details(),
                old(self).spec_config().spec_max_failures(),
                spec_failure_views(failures@),
            ),
            final(self).spec_scenarios() == old(self).spec_scenarios(),
            final(self).spec_config() == old(self).spec_config(),
            final(self).spec_profile_name() == old(self).spec_profile_name(),
            final(self).spec_version() == old(self).spec_version(),
            final(self).spec_exercised_capabilities() == old(self).spec_exercised_capabilities(),
            final(self).spec_latency() == old(self).spec_latency(),
            final(self).spec_allocation() == old(self).spec_allocation(),
    {
        let mut i: usize = 0;
        assert(failures@.take(0) =~= Seq::<FixCertificationFailure>::empty());
        while i < failures.len()
            invariant
                i <= failures@.len(),
                (self.spec_failures(), self.spec_dropped_failure_details()) == spec_retain_all(
                    old(self).spec_failures(),
                    old(self).spec_dropped_failure_details(),
                    old(self).spec_config().spec_max_failures(),
                    spec_failure_views(failures@.take(i as int)),
                ),
                self.spec_scenarios() == old(self).spec_scenarios(),
                self.spec_config() == old(self).spec_config(),
                self.spec_profile_name() == old(self).spec_profile_name(),
                self.spec_version() == old(self).spec_version(),
                self.spec_exercised_capabilities() == old(self).spec_exercised_capabilities(),
                self.spec_latency() == old(self).spec_latency(),
                self.spec_allocation() == old(self).spec_allocation(),
            decreases failures@.len() - i,
        {
            let failure = failures[i].clone();
            self.retain_failure(failure);
            proof {
                let prefix = failures@.take(i as int);
                assert(failures@.take(i + 1).drop_last() =~= prefix);
                assert(spec_failure_view(failure) == spec_failure_view(failures@[i as int]));
                assert(spec_failure_views(failures@.take(i + 1)) == spec_failure_views(prefix).push(
                    spec_failure_view(failure),
                ));
                lemma_retain_append(
                    old(self).spec_failures(),
                    old(self).spec_dropped_failure_details(),
                    old(self).spec_config().spec_max_failures(),
                    spec_failure_views(prefix),
                    spec_failure_view(failure),
                );
                let prev = spec_retain_all(
                    old(self).spec_failures(),
                    old(self).spec_dropped_failure_details(),
                    old(self).spec_config().spec_max_failures(),
                    spec_failure_views(prefix),
                );
                lemma_retain_one(
                    prev.0,
                    prev.1,
                    self.config.spec_max_failures(),
                    spec_failure_view(failure),
                );
            }
            i = i + 1;
        }
        assert(failures@.take(failures@.len() as int) =~= failures@);
    }

    /// Compares a transcript with exact ordered frame expectations:
    /// refused as a duplicate when the scenario already has a result;
    /// otherwise the failures the transcript earns are retained up to the
    /// bound, and the scenario passes when it had an expectation and its
    /// failures raised the failure total by nothing.
    pub fn assert_transcript(
        &mut self,
        scenario: FixCertificationScenario,
        records: &[FixTranscriptFrame],
        expectations: &[FixFrameExpectation],
        exact_length: bool,
    ) -> (r: Result<(), FixCertificationHarnessError>)
        ensures
            spec_has_result(old(self).spec_scenarios(), scenario) ==> r == Err::<
                (),
                FixCertificationHarnessError,
            >(FixCertificationHarnessError::DuplicateScenario(scenario))
                && final(self).spec_scenarios() == old(self).spec_scenarios()
                && final(self).spec_failures() == old(self).spec_failures()
                && final(self).spec_dropped_failure_details() == old(self).spec_dropped_failure_details(),
            !spec_has_result(old(self).spec_scenarios(), scenario) ==> r is Ok && ({
                let retained = spec_retain_all(
                    old(self).spec_failures(),
                    old(self).spec_dropped_failure_details(),
                    old(self).spec_config().spec_max_failures(),
                    spec_transcript_failures(scenario, records@, expectations@, exact_length),
                );
                let count = spec_failure_total(retained.0.len(), retained.1) - spec_failure_total(
                    old(self).spec_failures().len(),
                    old(self).spec_dropped_failure_details(),
                );
                let result = final(self).spec_scenarios().last();
                &&& (final(self).spec_failures(), final(self).spec_dropped_failure_details())
                    == retained
                &&& final(self).spec_scenarios().len() == old(self).spec_scenarios().len() + 1
                &&& final(self).spec_scenarios().drop_last() == old(self).spec_scenarios()
                &&& result.spec_scenario() == scenario
                &&& result.spec_assertions() == expectations@.len()
                &&& result.spec_transcript_frames() == records@.len()
                &&& result.spec_failure_count() == (if count < 0 {
                    0
                } else {
                    count
                })
                &&& result.spec_passed() == (expectations@.len() > 0 && count <= 0)
            }),
            final(self).spec_config() == old(self).spec_config(),
            final(self).spec_profile_name() == old(self).spec_profile_name(),
            final(self).spec_version() == old(self).spec_version(),
            final(self).spec_exercised_capabilities() == old(self).spec_exercised_capabilities(),
            final(self).spec_latency() == old(self).spec_latency(),
            final(self).spec_allocation() == old(self).spec_allocation(),
    {
        if self.has_scenario(scenario) {
            return Err(FixCertificationHarnessError::DuplicateScenario(scenario));
        }
        proof {
            lemma_failure_views_len(self.failures@);
        }
        let initial = (self.failures.len() as u64).saturating_add(self.dropped_failure_details);
        let failures = transcript_failures(scenario, records, expectations, exact_length);
        self.retain_failures(&failures);
        proof {
            lemma_failure_views_len(self.failures@);
        }
        let total = (self.failures.len() as u64).saturating_add(self.dropped_failure_details);
        let failure_count = total.saturating_sub(initial);
        let ghost before_results = self.scenarios@;
        self.scenarios.push(
            FixCertificationScenarioResult {
                scenario,
                passed: expectations.len() > 0 && failure_count == 0,
                assertions: expectations.len() as u64,
                transcript_frames: records.len() as u64,
                failure_count,
            },
        );
        assert(self.scenarios@.drop_last() =~= before_results);
        Ok(())
    }

    /// Marks one advertised capability as exercised by a passing scenario.
    pub fn exercise_capability(&mut self, capability: FixCertificationCapability)
        ensures
            final(self).spec_exercised_capabilities() == old(self).spec_exercised_capabilities()
                | spec_capability_bit(capability),
            final(self).spec_scenarios() == old(self).spec_scenarios(),
            final(self).spec_failures() == old(self).spec_failures(),
            final(self).spec_dropped_failure_details() == old(self).spec_dropped_failure_details(),
            final(self).spec_config() == old(self).spec_config(),
            final(self).spec_profile_name() == old(self).spec_profile_name(),
            final(self).spec_version() == old(self).spec_version(),
            final(self).spec_latency() == old(self).spec_latency(),
            final(self).spec_allocation() == old(self).spec_allocation(),
    {
        self.exercised_capabilities = self.exercised_capabilities | capability.bit();
    }

    /// Records one externally measured adapter latency sample.
    pub fn record_latency_ns(&mut self, latency_ns: u64)
        ensures
            final(self).spec_latency().spec_samples() == clamp_u64(
                old(self).spec_latency().spec_samples() + 1,
            ),
            final(self).spec_latency().spec_min_ns() == if old(self).spec_latency().spec_samples()
                == 0 || latency_ns < old(self).spec_latency().spec_min_ns() {
                latency_ns
            } else {
                old(self).spec_latency().spec_min_ns()
            },
            final(self).spec_latency().spec_max_ns() == if latency_ns > old(self).spec_latency().spec_max_ns() {
                latency_ns
            } else {
                old(self).spec_latency().spec_max_ns()
            },
            final(self).spec_scenarios() == old(self).spec_scenarios(),
            final(self).spec_failures() == old(self).spec_failures(),
            final(self).spec_dropped_failure_details() == old(self).spec_dropped_failure_details(),
            final(self).spec_config() == old(self).spec_config(),
            final(self).spec_profile_name() == old(self).spec_profile_name(),
            final(self).spec_version() == old(self).spec_version(),
            final(self).spec_exercised_capabilities() == old(self).spec_exercised_capabilities(),
            final(self).spec_allocation() == old(self).spec_allocation(),
    {
        self.latency.record(latency_ns);
    }

    /// Installs host-profiler allocation evidence.
    pub fn set_allocation_evidence(&mut self, evidence: FixCertificationAllocationEvidence)
        ensures
            final(self).spec_allocation() == Some(evidence),
            final(self).spec_scenarios() == old(self).spec_scenarios(),
            final(self).spec_failures() == old(self).spec_failures(),
            final(self).spec_dropped_failure_details() == old(self).spec_dropped_failure_details(),
            final(self).spec_config() == old(self).spec_config(),
            final(self).spec_profile_name() == old(self).spec_profile_name(),
            final(self).spec_version() == old(self).spec_version(),
            final(self).spec_exercised_capabilities() == old(self).spec_exercised_capabilities(),
            final(self).spec_latency() == old(self).spec_latency(),
    {
        self.allocation = Some(evidence);
    }
}


/// The views of failures are as many as the failures.
proof fn lemma_failure_views_len(fs: Seq<FixCertificationFailure>)
    ensures
        spec_failure_views(fs).len() == fs.len(),
    decreases fs.len(),
{
    if fs.len() > 0 {
        lemma_failure_views_len(fs.drop_last());
    }
}

/// A suite-level failure with a short ASCII literal detail.
fn suite_failure(kind: FixCertificationFailureKind, detail: &str) -> (r: FixCertificationFailure)
    requires
        is_ascii_chars(detail@),
        detail@.len() <= 512,
    ensures
        spec_failure_view(r) == (None::<FixCertificationScenario>, kind, encode_utf8(detail@)),
{
    proof {
        is_ascii_chars_encode_utf8(detail@);
    }
    let r = FixCertificationFailure::new(None, kind, String::from_str(detail));
    assert(spec_truncated_detail(encode_utf8(detail@)) == encode_utf8(detail@));
    r
}

/// The detail of a latency-limit failure.
fn latency_detail(observed: u64, limit: u64) -> (r: String)
    ensures
        r@ == spec_latency_detail(observed, limit),
        is_ascii_chars(r@),
        r@.len() <= 512,
{
    let a = decimal_string(observed);
    let b = decimal_string(limit);
    proof {
        reveal_strlit("maximum observed latency ");
        reveal_strlit(" ns exceeds configured ");
        reveal_strlit(" ns");
        assert(spec_pow10(20) == 100_000_000_000_000_000_000nat) by {
            reveal_with_fuel(spec_pow10, 21);
        }
        lemma_decimal_ascii(observed as nat, 20);
        lemma_decimal_ascii(limit as nat, 20);
    }
    let r = String::from_str("maximum observed latency ").concat(a.as_str()).concat(
        " ns exceeds configured ",
    ).concat(b.as_str()).concat(" ns");
    proof {
        assert(is_ascii_chars(r@)) by {
            assert forall|i: int| 0 <= i < r@.len() implies '\0' <= #[trigger] r@[i] <= '\u{7f}' by {
                let da = spec_decimal_ascii(observed as nat);
                let db = spec_decimal_ascii(limit as nat);
                if 25 <= i < 25 + da.len() {
                    assert(r@[i] == ascii_chars(da)[i - 25]);
                    assert(da[i - 25] < 128);
                } else if 25 + da.len() + 23 <= i < 25 + da.len() + 23 + db.len() {
                    assert(r@[i] == ascii_chars(db)[i - 25 - da.len() - 23]);
                    assert(db[i - 25 - da.len() - 23] < 128);
                }
            }
        }
    }
    r
}

impl<V: Copy> FixCertificationHarness<V> {
    /// The recorded results in stable report order.
    fn results_in_order(&self) -> (r: Vec<FixCertificationScenarioResult>)
        ensures
            r@ == spec_results_in_order(self.spec_scenarios(), 13),
    {
        let all = FixCertificationScenario::all();
        let mut out: Vec<FixCertificationScenarioResult> = Vec::new();
        let mut k: usize = 0;
        while k < 13
            invariant
                k <= 13,
                all@ == spec_all_scenarios(),
                out@ == spec_results_in_order(self.spec_scenarios(), k as int),
            decreases 13 - k,
        {
            let target = all[k];
            let ghost base = out@;
            let mut j: usize = 0;
            assert(self.scenarios@.take(0).len() == 0);
            while j < self.scenarios.len()
                invariant
                    j <= self.scenarios@.len(),
                    target == spec_all_scenarios()[k as int],
                    k < 13,
                    out@ == base + spec_results_for(self.scenarios@.take(j as int), target),
                decreases self.scenarios@.len() - j,
            {
                assert(self.scenarios@.take(j + 1).drop_last() =~= self.scenarios@.take(j as int));
                if self.scenarios[j].scenario() == target {
                    out.push(self.scenarios[j]);
                }
                j = j + 1;
                assert(out@ =~= base + spec_results_for(self.scenarios@.take(j as int), target));
            }
            assert(self.scenarios@.take(j as int) =~= self.scenarios@);
            k = k + 1;
        }
        out
    }

    /// The required scenarios without a result.
    fn missing_scenarios(&self) -> (r: Vec<FixCertificationScenario>)
        ensures
            r@ == spec_missing(self.spec_config().spec_required_scenarios(), self.spec_scenarios()),
    {
        let required = self.config.required_scenarios();
        let mut out: Vec<FixCertificationScenario> = Vec::new();
        let mut i: usize = 0;
        assert(required@.take(0).len() == 0);
        while i < required.len()
            invariant
                i <= required@.len(),
                required@ == self.spec_config().spec_required_scenarios(),
                out@ == spec_missing(required@.take(i as int), self.spec_scenarios()),
            decreases required@.len() - i,
        {
            assert(required@.take(i + 1).drop_last() =~= required@.take(i as int));
            if !self.has_scenario(required[i]) {
                out.push(required[i]);
            }
            i = i + 1;
        }
        assert(required@.take(i as int) =~= required@);
        out
    }

    /// Required capabilities that are not advertised, and required
    /// advertised capabilities that were not exercised.
    fn capability_gaps(&self, capabilities: ExecutionCapabilities) -> (r: (
        Vec<FixCertificationCapability>,
        Vec<FixCertificationCapability>,
    ))
        ensures
            r.0@ == spec_unsupported(
                self.spec_config().spec_required_capabilities(),
                capabilities,
            ),
            r.1@ == spec_unexercised(
                self.spec_config().spec_required_capabilities(),
                self.spec_exercised_capabilities(),
                capabilities,
            ),
    {
        let all = FixCertificationCapability::all();
        let required = self.config.required_capabilities();
        let exercised = self.exercised_capabilities;
        let mut unsupported: Vec<FixCertificationCapability> = Vec::new();
        let mut unexercised: Vec<FixCertificationCapability> = Vec::new();
        let mut i: usize = 0;
        assert(all@.take(0).len() == 0);
        while i < 11
            invariant
                i <= 11,
                all@ == spec_all_capabilities(),
                required == self.spec_config().spec_required_capabilities(),
                exercised == self.spec_exercised_capabilities(),
                unsupported@ == spec_unsupported_in(required, capabilities, all@.take(i as int)),
                unexercised@ == spec_unexercised_in(
                    required,
                    exercised,
                    capabilities,
                    all@.take(i as int),
                ),
            decreases 11 - i,
        {
            assert(all@.take(i + 1).drop_last() =~= all@.take(i as int));
            let c = all[i];
            let bit = c.bit();
            if required & bit != 0 {
                if !c.advertised(capabilities) {
                    unsupported.push(c);
                } else if exercised & bit == 0 {
                    unexercised.push(c);
                }
            }
            i = i + 1;
        }
        assert(all@.take(11) =~= all@);
        (unsupported, unexercised)
    }

    /// Builds an immutable conformance report: results in stable order, the
    /// missing scenarios, capability gaps, and the harness failures followed
    /// by the suite-level evidence failures (bounded like all failures). It
    /// passes only when every result passed, no required scenario is
    /// missing, no failure was recorded or dropped, every required
    /// capability is advertised and exercised, and no evidence failed.
    pub fn report(
        &self,
        capabilities: ExecutionCapabilities,
        transcript: FixTranscriptEvidence,
    ) -> (r: FixCertificationReport<V>)
        ensures
            r.spec_profile_name() == self.spec_profile_name(),
            r.spec_version() == self.spec_version(),
            r.spec_scenarios() == spec_results_in_order(self.spec_scenarios(), 13),
            r.spec_missing_scenarios() == spec_missing(
                self.spec_config().spec_required_scenarios(),
                self.spec_scenarios(),
            ),
            r.spec_unsupported_capabilities() == spec_unsupported(
                self.spec_config().spec_required_capabilities(),
                capabilities,
            ),
            r.spec_unexercised_capabilities() == spec_unexercised(
                self.spec_config().spec_required_capabilities(),
                self.spec_exercised_capabilities(),
                capabilities,
            ),
            (spec_failure_views(r.spec_failures()), r.spec_dropped_failure_details())
                == spec_retain_all(
                self.spec_failures(),
                self.spec_dropped_failure_details(),
                self.spec_config().spec_max_failures(),
                spec_evidence_failures(
                    self.spec_config(),
                    self.spec_latency(),
                    self.spec_allocation(),
                    transcript,
                ),
            ),
            r.spec_latency() == self.spec_latency(),
            r.spec_allocation() == self.spec_allocation(),
            r.spec_transcript() == transcript,
            r.spec_passed() == ((forall|i: int|
                0 <= i < self.spec_scenarios().len() ==> (
                #[trigger] self.spec_scenarios()[i]).spec_passed()) && r.spec_missing_scenarios().len()
                == 0 && self.spec_failures().len() == 0 && self.spec_dropped_failure_details() == 0
                && r.spec_unsupported_capabilities().len() == 0
                && r.spec_unexercised_capabilities().len() == 0 && !(spec_latency_missing(
                self.spec_config(),
                self.spec_latency(),
            ) || spec_allocation_missing(self.spec_config(), self.spec_allocation())
                || spec_latency_exceeded(self.spec_config(), self.spec_latency())
                || spec_allocation_exceeded(self.spec_config(), self.spec_allocation())
                || spec_transcript_incomplete(self.spec_config(), transcript))),
    {
        let scenarios = self.results_in_order();
        let missing = self.missing_scenarios();
        let (unsupported, unexercised) = self.capability_gaps(capabilities);
        let mut scenario_failure = false;
        let mut i: usize = 0;
        while i < self.scenarios.len()
            invariant
                i <= self.scenarios@.len(),
                scenario_failure == !(forall|j: int| 0 <= j < i ==> (
                #[trigger] self.scenarios@[j]).spec_passed()),
            decreases self.scenarios@.len() - i,
        {
            if !self.scenarios[i].passed() {
                scenario_failure = true;
            }
            i = i + 1;
        }
        let latency_missing = self.config.require_latency_evidence()
            && self.latency.samples() == 0;
        let allocation_missing = self.config.require_allocation_evidence() && match self.allocation {
            Some(evidence) => evidence.measured_messages() == 0,
            None => true,
        };
        let latency_limit = match self.config.max_observed_latency_ns() {
            Some(m) => m,
            None => u64::MAX,
        };
        let latency_exceeded = match self.config.max_observed_latency_ns() {
            Some(m) => self.latency.max_ns() > m,
            None => false,
        };
        let allocation_exceeded = match self.allocation {
            Some(evidence) => (match self.config.max_hot_path_allocations() {
                Some(m) => evidence.hot_path_allocations() > m,
                None => false,
            }) || (match self.config.max_hot_path_allocated_bytes() {
                Some(m) => evidence.hot_path_allocated_bytes() > m,
                None => false,
            }),
            None => false,
        };
        let transcript_incomplete = self.config.require_complete_transcript() && (
        transcript.dropped_records > 0 || transcript.dropped_raw_bytes > 0
            || transcript.evicted_records > 0 || transcript.evicted_raw_bytes > 0);
        let evidence_failure = latency_missing || allocation_missing || latency_exceeded
            || allocation_exceeded || transcript_incomplete;
        let passed = !scenario_failure && missing.len() == 0 && self.failures.len() == 0
            && self.dropped_failure_details == 0 && unsupported.len() == 0 && unexercised.len()
            == 0 && !evidence_failure;
        let mut failures: Vec<FixCertificationFailure> = Vec::new();
        let mut k: usize = 0;
        while k < self.failures.len()
            invariant
                k <= self.failures@.len(),
                spec_failure_views(failures@) == spec_failure_views(self.failures@.take(k as int)),
            decreases self.failures@.len() - k,
        {
            let ghost before = failures@;
            let copy = self.failures[k].clone();
            failures.push(copy);
            assert(failures@.drop_last() =~= before);
            assert(self.failures@.take(k + 1).drop_last() =~= self.failures@.take(k as int));
            k = k + 1;
        }
        assert(self.failures@.take(k as int) =~= self.failures@);
        let mut report = FixCertificationReport {
            profile_name: self.profile_name.clone(),
            version: self.version,
            passed,
            scenarios,
            missing_scenarios: missing,
            failures,
            dropped_failure_details: self.dropped_failure_details,
            unsupported_capabilities: unsupported,
            unexercised_capabilities: unexercised,
            latency: self.latency,
            allocation: self.allocation,
            transcript,
        };
        let cap = self.config.max_failures();
        let ghost start = (spec_failure_views(report.failures@), report.dropped_failure_details);
        let ghost mut acc = Seq::<
            (Option<FixCertificationScenario>, FixCertificationFailureKind, Seq<u8>),
        >::empty();
        proof {
            reveal_strlit("latency evidence is required");
            reveal_strlit("allocation evidence with at least one measured message is required");
            reveal_strlit("hot-path allocation evidence exceeds configured limits");
            reveal_strlit("certification transcript dropped or evicted evidence");
            assert(spec_retain_all(start.0, start.1, cap, acc) == start);
        }
        if latency_missing {
            let failure = suite_failure(
                FixCertificationFailureKind::LatencyEvidenceMissing,
                "latency evidence is required",
            );
            proof {
                lemma_retain_append(start.0, start.1, cap, acc, spec_failure_view(failure));
                acc = acc.push(spec_failure_view(failure));
            }
            report.push_failure(failure, cap);
        }
        if allocation_missing {
            let failure = suite_failure(
                FixCertificationFailureKind::AllocationEvidenceMissing,
                "allocation evidence with at least one measured message is required",
            );
            proof {
                lemma_retain_append(start.0, start.1, cap, acc, spec_failure_view(failure));
                acc = acc.push(spec_failure_view(failure));
            }
            report.push_failure(failure, cap);
        }
        if latency_exceeded {
            let detail = latency_detail(self.latency.max_ns(), latency_limit);
            proof {
                is_ascii_chars_encode_utf8(detail@);
            }
            let failure = FixCertificationFailure::new(
                None,
                FixCertificationFailureKind::LatencyLimitExceeded,
                detail,
            );
            proof {
                lemma_retain_append(start.0, start.1, cap, acc, spec_failure_view(failure));
                acc = acc.push(spec_failure_view(failure));
            }
            report.push_failure(failure, cap);
        }
        if allocation_exceeded {
            let failure = suite_failure(
                FixCertificationFailureKind::AllocationLimitExceeded,
                "hot-path allocation evidence exceeds configured limits",
            );
            proof {
                lemma_retain_append(start.0, start.1, cap, acc, spec_failure_view(failure));
                acc = acc.push(spec_failure_view(failure));
            }
            report.push_failure(failure, cap);
        }
        if transcript_incomplete {
            let failure = suite_failure(
                FixCertificationFailureKind::TranscriptIncomplete,
                "certification transcript dropped or evicted evidence",
            );
            proof {
                lemma_retain_append(start.0, start.1, cap, acc, spec_failure_view(failure));
                acc = acc.push(spec_failure_view(failure));
            }
            report.push_failure(failure, cap);
        }
        assert(acc =~= spec_evidence_failures(self.config, self.latency, self.allocation, transcript));
        report
    }
}

impl<V> FixCertificationReport<V> {
    /// Keeps a failure detail while under `cap`, else counts it dropped.
    fn push_failure(&mut self, failure: FixCertificationFailure, cap: usize)
        ensures
            (spec_failure_views(final(self).spec_failures()), final(self).spec_dropped_failure_details()) == spec_retain_all(
                spec_failure_views(old(self).spec_failures()),
                old(self).spec_dropped_failure_details(),
                cap,
                seq![spec_failure_view(failure)],
            ),
            final(self).spec_profile_name() == old(self).spec_profile_name(),
            final(self).spec_version() == old(self).spec_version(),
            final(self).spec_passed() == old(self).spec_passed(),
            final(self).spec_scenarios() == old(self).spec_scenarios(),
            final(self).spec_missing_scenarios() == old(self).spec_missing_scenarios(),
            final(self).spec_unsupported_capabilities() == old(self).spec_unsupported_capabilities(),
            final(self).spec_unexercised_capabilities() == old(self).spec_unexercised_capabilities(),
            final(self).spec_latency() == old(self).spec_latency(),
            final(self).spec_allocation() == old(self).spec_allocation(),
            final(self).spec_transcript() == old(self).spec_transcript(),
    {
        proof {
            lemma_retain_one(
                spec_failure_views(self.failures@),
                self.dropped_failure_details,
                cap,
                spec_failure_view(failure),
            );
            lemma_failure_views_len(self.failures@);
        }
        if self.failures.len() < cap {
            let ghost before = self.failures@;
            self.failures.push(failure);
            assert(self.failures@.drop_last() =~= before);
        } else {
            self.dropped_failure_details = self.dropped_failure_details.saturating_add(1);
        }
    }
}


/// Failure details are bounded and none is lost from the count: starting
/// under the bound, the retained details stay within it, are the earlier
/// details followed by the first incoming ones in order, and retained plus
/// dropped count every failure (while the dropped counter does not
/// saturate).
pub proof fn law_failure_details_bounded_and_counted(
    kept: Seq<(Option<FixCertificationScenario>, FixCertificationFailureKind, Seq<u8>)>,
    dropped: u64,
    cap: usize,
    incoming: Seq<(Option<FixCertificationScenario>, FixCertificationFailureKind, Seq<u8>)>,
)
    requires
        kept.len() <= cap,
        dropped + incoming.len() <= u64::MAX,
    ensures
        ({
            let (k, d) = spec_retain_all(kept, dropped, cap, incoming);
            &&& k.len() <= cap
            &&& kept.len() <= k.len()
            &&& k == kept + incoming.take(k.len() - kept.len())
            &&& k.len() + d == kept.len() + dropped + incoming.len()
        }),
    decreases incoming.len(),
{
    if incoming.len() > 0 {
        let prev = incoming.drop_last();
        law_failure_details_bounded_and_counted(kept, dropped, cap, prev);
        lemma_retain_len(kept, dropped, cap, prev);
        let (k, d) = spec_retain_all(kept, dropped, cap, prev);
        if k.len() < cap {
            assert(k.len() - kept.len() == prev.len()) by {
                if k.len() - kept.len() < prev.len() {
                    // Once the bound is reached nothing more is retained.
                    lemma_retain_full(kept, dropped, cap, prev);
                }
            }
            assert(prev.take(prev.len() as int) =~= prev);
            assert(kept + incoming.take(k.len() + 1 - kept.len()) =~= k.push(incoming.last()));
        } else {
            assert(incoming.take(k.len() - kept.len()) =~= prev.take(k.len() - kept.len()));
        }
    }
}

/// While some incoming detail is not retained, the retained details have
/// reached the bound.
proof fn lemma_retain_full(
    kept: Seq<(Option<FixCertificationScenario>, FixCertificationFailureKind, Seq<u8>)>,
    dropped: u64,
    cap: usize,
    incoming: Seq<(Option<FixCertificationScenario>, FixCertificationFailureKind, Seq<u8>)>,
)
    requires
        kept.len() <= cap,
        spec_retain_all(kept, dropped, cap, incoming).0.len() < kept.len() + incoming.len(),
    ensures
        spec_retain_all(kept, dropped, cap, incoming).0.len() == cap,
    decreases incoming.len(),
{
    if incoming.len() > 0 {
        let prev = incoming.drop_last();
        let (k, d) = spec_retain_all(kept, dropped, cap, prev);
        lemma_retain_len(kept, dropped, cap, prev);
        if k.len() < kept.len() + prev.len() {
            lemma_retain_full(kept, dropped, cap, prev);
        }
    }
}

/// The retained details never shrink, grow by at most the incoming ones
/// and stay within the bound.
proof fn lemma_retain_len(
    kept: Seq<(Option<FixCertificationScenario>, FixCertificationFailureKind, Seq<u8>)>,
    dropped: u64,
    cap: usize,
    incoming: Seq<(Option<FixCertificationScenario>, FixCertificationFailureKind, Seq<u8>)>,
)
    requires
        kept.len() <= cap,
    ensures
        kept.len() <= spec_retain_all(kept, dropped, cap, incoming).0.len() <= kept.len()
            + incoming.len(),
        spec_retain_all(kept, dropped, cap, incoming).0.len() <= cap,
    decreases incoming.len(),
{
    if incoming.len() > 0 {
        lemma_retain_len(kept, dropped, cap, incoming.drop_last());
    }
}

} // verus!
