use orderflow_execution::algo_model::AlgoError;
use orderflow_execution::fix_certification::{
    FixCertificationClockError, FixCertificationHarnessError, FixCertificationScenario,
    FixScriptedTransportError, FixScriptedTransportFailure,
};
use orderflow_execution::fix_live::FixLiveAdapterConfigError;
use orderflow_execution::fix_model::{FixReportParseError, FixRequestEncodeError, FixTag};
use orderflow_execution::{ExecutionCoreError, ExecutionWalError, WalChecksumField, WalSequence};

#[test]
fn core_errors_describe_lengths() {
    assert_eq!(
        ExecutionCoreError::IdentifierTooLong {
            capacity: 40,
            actual: 41
        }
        .to_string(),
        "identifier length 41 exceeds capacity 40"
    );
    assert_eq!(
        ExecutionCoreError::InvalidTransition.to_string(),
        "invalid order state transition"
    );
}

#[test]
fn wal_errors_describe_numbers_and_checksums() {
    assert_eq!(
        ExecutionWalError::BufferTooSmall {
            required: 80,
            actual: 12
        }
        .to_string(),
        "buffer too small: required 80, actual 12"
    );
    assert_eq!(
        ExecutionWalError::InvalidMagic { actual: 0xdead_beef }.to_string(),
        "invalid WAL magic 0xdeadbeef"
    );
    assert_eq!(
        ExecutionWalError::InvalidMagic { actual: 0 }.to_string(),
        "invalid WAL magic 0x0"
    );
    assert_eq!(
        ExecutionWalError::ChecksumMismatch {
            field: WalChecksumField::Payload,
            expected: 0x1f,
            actual: 0xa0
        }
        .to_string(),
        "Payload checksum mismatch: expected 0x1f, actual 0xa0"
    );
    assert_eq!(
        ExecutionWalError::UnsupportedVersion {
            expected: 1,
            actual: 7
        }
        .to_string(),
        "unsupported WAL version 7; expected 1"
    );
    assert_eq!(
        ExecutionWalError::SequenceGap {
            expected: WalSequence(5),
            actual: WalSequence(9)
        }
        .to_string(),
        "WAL sequence gap: expected 5, actual 9"
    );
    assert_eq!(
        ExecutionWalError::SequenceRegression {
            previous: WalSequence(18_446_744_073_709_551_615),
            next: WalSequence(0)
        }
        .to_string(),
        "WAL sequence regressed from 18446744073709551615 to 0"
    );
}

#[test]
fn algo_errors_describe_capacity_and_core_cause() {
    assert_eq!(
        AlgoError::DecisionFull { capacity: 8 }.to_string(),
        "algorithm decision capacity 8 is full"
    );
    assert_eq!(
        AlgoError::Core(ExecutionCoreError::InvalidPrice).to_string(),
        "price must be positive"
    );
    assert_eq!(
        AlgoError::InvalidClipBounds.to_string(),
        "minimum clip must be positive and <= maximum clip"
    );
}

#[test]
fn fix_errors_describe_tags_and_causes() {
    assert_eq!(
        FixReportParseError::MissingTag(FixTag(37)).to_string(),
        "FIX execution report is missing tag 37"
    );
    assert_eq!(
        FixReportParseError::InvalidAscii {
            tag: FixTag(11),
            source: ExecutionCoreError::NonAsciiIdentifier
        }
        .to_string(),
        "FIX tag 11 cannot be converted to fixed ASCII: identifier must be ASCII"
    );
    assert_eq!(
        FixRequestEncodeError::InvalidScale.to_string(),
        "FIX request encode scale must be a power of ten"
    );
    assert_eq!(
        FixLiveAdapterConfigError::ZeroCapacity("max_frame_bytes").to_string(),
        "FIX adapter capacity max_frame_bytes must be non-zero"
    );
}

#[test]
fn certification_errors_describe_scenarios_and_failure_points() {
    assert_eq!(
        FixCertificationHarnessError::DuplicateScenario(FixCertificationScenario::PeerResend)
            .to_string(),
        "FIX certification scenario peer_resend is duplicated"
    );
    assert_eq!(
        FixScriptedTransportError::ReceiveBufferTooSmall {
            required: 64,
            available: 16
        }
        .to_string(),
        "scripted FIX receive frame requires 64 bytes, 16 available"
    );
    assert_eq!(
        FixScriptedTransportError::Injected(FixScriptedTransportFailure::Receive).to_string(),
        "scripted FIX transport failure at Receive"
    );
    assert_eq!(
        FixCertificationClockError.to_string(),
        "FIX certification timestamp does not fit destination buffer"
    );
}
