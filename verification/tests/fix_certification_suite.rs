use orderflow_execution::fix_certification::{
    FixCertificationAllocationEvidence, FixCertificationCapability, FixCertificationConfig,
    FixCertificationFailure, FixCertificationFailureKind, FixCertificationHarnessError,
    FixCertificationScenario,
};
use orderflow_execution::fix_certification_harness::{
    FixCertificationHarness, FixTranscriptEvidence,
};
use orderflow_execution::fix_model::FixSessionConfig;
use orderflow_execution::fix_shell::{ExecutionCapabilities, FixExecutionAdapter};

#[derive(Debug, Clone, Copy, PartialEq, Eq)]
enum Version {
    Fix42,
    Fix44,
}

fn capabilities() -> ExecutionCapabilities {
    let cfg = FixSessionConfig::new("FIX.4.4", "SENDER", "TARGET", 30).unwrap();
    FixExecutionAdapter::new(cfg).capabilities()
}

#[test]
fn full_suite_requires_every_scenario_capability_and_measurement() {
    let config = FixCertificationConfig::new()
        .require_capability(FixCertificationCapability::Limit)
        .require_capability(FixCertificationCapability::Amend);
    let mut harness =
        FixCertificationHarness::new("venue-a".to_string(), Version::Fix44, config).expect("harness");
    for scenario in FixCertificationScenario::all() {
        harness
            .record_scenario(scenario, 1, Vec::new())
            .expect("scenario");
    }
    harness.exercise_capability(FixCertificationCapability::Limit);
    harness.exercise_capability(FixCertificationCapability::Amend);
    harness.record_latency_ns(90);
    harness.record_latency_ns(110);
    harness.set_allocation_evidence(FixCertificationAllocationEvidence::new(10_000, 0, 0));

    let report = harness.report(capabilities(), FixTranscriptEvidence::default());
    assert!(report.passed());
    assert_eq!(
        report.scenarios().len(),
        FixCertificationScenario::all().len()
    );
    assert_eq!(report.latency().average_ns(), 100);
    assert_eq!(
        report
            .allocation()
            .expect("allocation")
            .hot_path_allocations(),
        0
    );
}

#[test]
fn report_fails_closed_on_missing_scenario_capability_and_evidence() {
    let config = FixCertificationConfig::new()
        .with_required_scenarios(&[
            FixCertificationScenario::SessionLifecycle,
            FixCertificationScenario::MalformedMessage,
        ])
        .require_capability(FixCertificationCapability::Stop);
    let mut harness =
        FixCertificationHarness::new("venue-b".to_string(), Version::Fix42, config).expect("harness");
    harness
        .record_scenario(FixCertificationScenario::SessionLifecycle, 1, Vec::new())
        .expect("scenario");
    let mut advertised = capabilities();
    advertised.stop = false;
    let report = harness.report(advertised, FixTranscriptEvidence::default());
    assert!(!report.passed());
    assert_eq!(
        report.missing_scenarios(),
        &[FixCertificationScenario::MalformedMessage]
    );
    assert_eq!(
        report.unsupported_capabilities(),
        &[FixCertificationCapability::Stop]
    );
    assert!(report
        .failures()
        .iter()
        .any(|failure| failure.kind() == FixCertificationFailureKind::LatencyEvidenceMissing));
    assert!(report.failures().iter().any(|failure| {
        failure.kind() == FixCertificationFailureKind::AllocationEvidenceMissing
    }));
}

#[test]
fn failure_details_are_bounded_and_duplicate_scenarios_rejected() {
    let config = FixCertificationConfig::new()
        .with_required_scenarios(&[FixCertificationScenario::MalformedMessage])
        .with_max_failures(1)
        .with_latency_evidence_required(false)
        .with_allocation_evidence_required(false);
    let mut harness =
        FixCertificationHarness::new("bounded".to_string(), Version::Fix44, config).expect("harness");
    harness
        .record_scenario(
            FixCertificationScenario::MalformedMessage,
            2,
            vec![
                FixCertificationFailure::new(
                    None,
                    FixCertificationFailureKind::MalformedFrame,
                    "first".to_string(),
                ),
                FixCertificationFailure::new(
                    None,
                    FixCertificationFailureKind::Behavior,
                    "second".to_string(),
                ),
            ],
        )
        .expect("scenario");
    assert_eq!(
        harness.record_scenario(FixCertificationScenario::MalformedMessage, 1, Vec::new()),
        Err(FixCertificationHarnessError::DuplicateScenario(
            FixCertificationScenario::MalformedMessage
        ))
    );
    let report = harness.report(capabilities(), FixTranscriptEvidence::default());
    assert_eq!(report.failures().len(), 1);
    assert_eq!(report.dropped_failure_details(), 1);
}

#[test]
fn performance_limits_and_incomplete_transcript_fail_closed() {
    let config = FixCertificationConfig::new()
        .with_required_scenarios(&[FixCertificationScenario::SessionLifecycle])
        .with_max_observed_latency_ns(Some(50))
        .with_max_hot_path_allocations(Some(0))
        .with_max_hot_path_allocated_bytes(Some(0));
    let mut harness =
        FixCertificationHarness::new("limits".to_string(), Version::Fix44, config).expect("harness");
    harness
        .record_scenario(FixCertificationScenario::SessionLifecycle, 1, Vec::new())
        .expect("scenario");
    harness.record_latency_ns(51);
    harness.set_allocation_evidence(FixCertificationAllocationEvidence::new(1, 1, 8));

    let transcript = FixTranscriptEvidence {
        dropped_records: 0,
        dropped_raw_bytes: 16,
        evicted_records: 1,
        evicted_raw_bytes: 0,
    };
    let report = harness.report(capabilities(), transcript);
    assert!(!report.passed());
    for kind in [
        FixCertificationFailureKind::LatencyLimitExceeded,
        FixCertificationFailureKind::AllocationLimitExceeded,
        FixCertificationFailureKind::TranscriptIncomplete,
    ] {
        assert!(report
            .failures()
            .iter()
            .any(|failure| failure.kind() == kind));
    }
    let latency = report
        .failures()
        .iter()
        .find(|failure| failure.kind() == FixCertificationFailureKind::LatencyLimitExceeded)
        .expect("latency failure");
    assert_eq!(
        latency.detail(),
        "maximum observed latency 51 ns exceeds configured 50 ns"
    );
}

#[test]
fn zero_message_allocation_evidence_is_not_certification_evidence() {
    let config = FixCertificationConfig::new()
        .with_required_scenarios(&[FixCertificationScenario::SessionLifecycle])
        .with_latency_evidence_required(false);
    let mut harness =
        FixCertificationHarness::new("zero".to_string(), Version::Fix44, config).expect("harness");
    harness
        .record_scenario(FixCertificationScenario::SessionLifecycle, 1, Vec::new())
        .expect("scenario");
    harness.set_allocation_evidence(FixCertificationAllocationEvidence::new(0, 0, 0));
    let report = harness.report(capabilities(), FixTranscriptEvidence::default());
    assert!(!report.passed());
    assert!(report.failures().iter().any(|failure| {
        failure.kind() == FixCertificationFailureKind::AllocationEvidenceMissing
    }));
}

#[test]
fn harness_refuses_blank_names_empty_inventories_and_zero_bounds() {
    assert!(matches!(
        FixCertificationHarness::new(" \t\n".to_string(), Version::Fix44, FixCertificationConfig::new()),
        Err(FixCertificationHarnessError::EmptyProfileName)
    ));
    assert!(matches!(
        FixCertificationHarness::new(
            "venue".to_string(),
            Version::Fix44,
            FixCertificationConfig::new().with_required_scenarios(&[])
        ),
        Err(FixCertificationHarnessError::NoRequiredScenarios)
    ));
    assert!(matches!(
        FixCertificationHarness::new(
            "venue".to_string(),
            Version::Fix44,
            FixCertificationConfig::new().with_max_failures(0)
        ),
        Err(FixCertificationHarnessError::ZeroFailureCapacity)
    ));
}

#[test]
fn report_orders_results_and_attributes_failures() {
    let config = FixCertificationConfig::new()
        .with_required_scenarios(&[
            FixCertificationScenario::PartialFill,
            FixCertificationScenario::SessionLifecycle,
        ])
        .with_latency_evidence_required(false)
        .with_allocation_evidence_required(false);
    let mut harness =
        FixCertificationHarness::new("order".to_string(), Version::Fix42, config).expect("harness");
    harness
        .record_scenario(
            FixCertificationScenario::PartialFill,
            3,
            vec![FixCertificationFailure::new(
                Some(FixCertificationScenario::CancelRace),
                FixCertificationFailureKind::Behavior,
                "fill mismatch".to_string(),
            )],
        )
        .expect("scenario");
    harness
        .record_scenario(FixCertificationScenario::SessionLifecycle, 0, Vec::new())
        .expect("scenario");
    let report = harness.report(capabilities(), FixTranscriptEvidence::default());
    assert!(!report.passed());
    assert_eq!(report.profile_name(), "order");
    assert_eq!(*report.version(), Version::Fix42);
    let scenarios: Vec<_> = report.scenarios().iter().map(|r| r.scenario()).collect();
    assert_eq!(
        scenarios,
        vec![
            FixCertificationScenario::SessionLifecycle,
            FixCertificationScenario::PartialFill
        ]
    );
    assert!(!report.scenarios()[0].passed());
    assert_eq!(report.scenarios()[1].failure_count(), 1);
    assert_eq!(report.scenarios()[1].assertions(), 3);
    assert_eq!(report.scenarios()[1].transcript_frames(), 0);
    assert_eq!(
        report.failures()[0].scenario(),
        Some(FixCertificationScenario::PartialFill)
    );
    assert!(report.missing_scenarios().is_empty());
    assert_eq!(report.transcript(), FixTranscriptEvidence::default());
}
