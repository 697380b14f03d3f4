use orderflow_execution::fix_certification::{
    FixCertificationConfig, FixCertificationFailureKind, FixCertificationHarnessError,
    FixCertificationScenario, FixExpectedField,
};
use orderflow_execution::fix_certification_harness::{
    FixCertificationHarness, FixTranscriptEvidence,
};
use orderflow_execution::fix_model::{FixField, FixMessageFields, FixSessionConfig};
use orderflow_execution::fix_shell::{ExecutionCapabilities, FixExecutionAdapter};
use orderflow_execution::fix_transcript::{
    transcript_failures, FixFrameContent, FixFrameExpectation, FixTranscriptDirection,
    FixTranscriptFrame,
};

fn capabilities() -> ExecutionCapabilities {
    let cfg = FixSessionConfig::new("FIX.4.4", "SENDER", "TARGET", 30).unwrap();
    FixExecutionAdapter::new(cfg).capabilities()
}

fn logon_frame(direction: FixTranscriptDirection, sender: &[u8], sequence: u64) -> FixTranscriptFrame {
    FixTranscriptFrame {
        direction,
        msg_type: b"A".to_vec(),
        seq_no: Some(sequence),
        content: FixFrameContent::Parsed(FixMessageFields {
            msg_type: Some(b"A".to_vec()),
            fields: vec![
                FixField {
                    tag: 49,
                    value: sender.to_vec(),
                },
                FixField {
                    tag: 34,
                    value: sequence.to_string().into_bytes(),
                },
            ],
        }),
    }
}

fn harness(name: &str) -> FixCertificationHarness<u8> {
    FixCertificationHarness::new(
        name.to_string(),
        44,
        FixCertificationConfig::new()
            .with_required_scenarios(&[FixCertificationScenario::SessionLifecycle])
            .with_latency_evidence_required(false)
            .with_allocation_evidence_required(false),
    )
    .expect("harness")
}

#[test]
fn transcript_assertion_reports_field_and_length_mismatches() {
    let records = vec![logon_frame(FixTranscriptDirection::Outbound, b"TARGET", 1)];
    let mut harness = harness("bad-expectation");
    harness
        .assert_transcript(
            FixCertificationScenario::SessionLifecycle,
            &records,
            &[
                FixFrameExpectation::new(FixTranscriptDirection::Inbound, b"0".to_vec())
                    .with_sequence(9)
                    .with_field(FixExpectedField::new(49, b"WRONG".to_vec())),
                FixFrameExpectation::new(FixTranscriptDirection::Outbound, b"5".to_vec()),
            ],
            true,
        )
        .expect("assert transcript");
    let report = harness.report(capabilities(), FixTranscriptEvidence::default());
    assert!(!report.passed());
    assert!(report.failures().len() >= 5);
}

#[test]
fn exact_transcript_passes_and_records_frame_counts() {
    let records = vec![
        logon_frame(FixTranscriptDirection::Outbound, b"SENDER", 1),
        logon_frame(FixTranscriptDirection::Inbound, b"TARGET", 1),
    ];
    let mut harness = harness("standard-fix44");
    harness
        .assert_transcript(
            FixCertificationScenario::SessionLifecycle,
            &records,
            &[
                FixFrameExpectation::new(FixTranscriptDirection::Outbound, b"A".to_vec())
                    .with_sequence(1)
                    .with_field(FixExpectedField::new(49, b"SENDER".to_vec())),
                FixFrameExpectation::new(FixTranscriptDirection::Inbound, b"A".to_vec())
                    .with_sequence(1)
                    .with_field(FixExpectedField::new(49, b"TARGET".to_vec())),
            ],
            true,
        )
        .expect("assert transcript");
    assert_eq!(
        harness.assert_transcript(
            FixCertificationScenario::SessionLifecycle,
            &records,
            &[],
            false,
        ),
        Err(FixCertificationHarnessError::DuplicateScenario(
            FixCertificationScenario::SessionLifecycle
        ))
    );
    let report = harness.report(capabilities(), FixTranscriptEvidence::default());
    assert!(report.passed());
    assert_eq!(report.scenarios()[0].transcript_frames(), 2);
    assert_eq!(report.scenarios()[0].assertions(), 2);
    assert_eq!(report.scenarios()[0].failure_count(), 0);
}

#[test]
fn transcript_failures_name_each_mismatch_in_order() {
    let scenario = FixCertificationScenario::PeerResend;
    let records = vec![
        logon_frame(FixTranscriptDirection::Outbound, b"TARGET", 1),
        FixTranscriptFrame {
            direction: FixTranscriptDirection::Inbound,
            msg_type: b"8".to_vec(),
            seq_no: None,
            content: FixFrameContent::NotRetained,
        },
        FixTranscriptFrame {
            direction: FixTranscriptDirection::Inbound,
            msg_type: b"8".to_vec(),
            seq_no: Some(3),
            content: FixFrameContent::Malformed,
        },
    ];
    let expectations = [
        FixFrameExpectation::new(FixTranscriptDirection::Inbound, b"0".to_vec())
            .with_sequence(9)
            .with_field(FixExpectedField::new(49, b"WRONG".to_vec()))
            .with_field(FixExpectedField::new(56, b"ANY".to_vec())),
        FixFrameExpectation::new(FixTranscriptDirection::Inbound, b"8".to_vec())
            .with_sequence(2)
            .with_field(FixExpectedField::new(37, b"X".to_vec())),
        FixFrameExpectation::new(FixTranscriptDirection::Inbound, b"8".to_vec())
            .with_field(FixExpectedField::new(37, b"X".to_vec())),
        FixFrameExpectation::new(FixTranscriptDirection::Outbound, b"5".to_vec()),
    ];
    let failures = transcript_failures(scenario, &records, &expectations, true);
    let seen: Vec<(FixCertificationFailureKind, &str)> = failures
        .iter()
        .map(|f| (f.kind(), f.detail()))
        .collect();
    assert_eq!(
        seen,
        vec![
            (FixCertificationFailureKind::Direction, "frame 0 direction mismatch"),
            (FixCertificationFailureKind::MessageType, "frame 0 message type mismatch"),
            (FixCertificationFailureKind::Sequence, "frame 0 sequence mismatch"),
            (FixCertificationFailureKind::TagValue, "frame 0 tag 49 value mismatch"),
            (FixCertificationFailureKind::MissingTag, "frame 0 missing tag 56"),
            (FixCertificationFailureKind::Sequence, "frame 1 sequence mismatch"),
            (FixCertificationFailureKind::MissingFrame, "frame 1 raw bytes were not retained"),
            (FixCertificationFailureKind::MalformedFrame, "frame 2 failed strict FIX parsing"),
            (FixCertificationFailureKind::MissingFrame, "missing transcript frame at index 3"),
        ]
    );
    assert!(failures.iter().all(|f| f.scenario() == Some(scenario)));

    let extra = transcript_failures(scenario, &records, &expectations[..1], true);
    assert_eq!(
        extra.last().map(|f| f.detail()),
        Some("observed 3 transcript frames, expected 1")
    );
    assert_eq!(
        extra.last().map(|f| f.kind()),
        Some(FixCertificationFailureKind::UnexpectedFrame)
    );
    let lenient = transcript_failures(scenario, &records, &expectations[..1], false);
    assert_eq!(lenient.len(), 5);
}
