use orderflow_execution::fix_inbound::{
    parse_message_sequence, FixGapBufferFull, FixGapFrames, FixHoldOutcome,
    FixSequenceNumberError,
};
use orderflow_execution::fix_live::{write_recovery_id, FixLiveAdapterMetrics};
use orderflow_execution::fix_model::{FixField, FixMessageFields, MSG_SEQ_NUM_TAG};

#[test]
fn gap_frames_hold_in_sequence_order_once() {
    let mut held = FixGapFrames::new(3);
    assert_eq!(held.hold(12, b"twelve"), Ok(FixHoldOutcome::Held));
    assert_eq!(held.hold(10, b"ten"), Ok(FixHoldOutcome::Held));
    assert_eq!(held.hold(12, b"again"), Ok(FixHoldOutcome::Duplicate));
    assert_eq!(held.hold(11, b"eleven"), Ok(FixHoldOutcome::Held));
    assert_eq!(held.hold(13, b"thirteen"), Err(FixGapBufferFull));
    assert_eq!(held.len(), 3);

    assert_eq!(held.take_ready(9), None);
    assert_eq!(held.take_ready(10), Some(b"ten".to_vec()));
    assert_eq!(held.take_ready(11), Some(b"eleven".to_vec()));
    assert_eq!(held.take_ready(12), Some(b"twelve".to_vec()));
    assert!(held.is_empty());
    assert_eq!(held.take_ready(13), None);
}

#[test]
fn gap_frames_discard_frames_behind_a_reset() {
    let mut held = FixGapFrames::new(4);
    for (sequence, bytes) in [(20u64, &b"a"[..]), (22, b"b"), (25, b"c")] {
        held.hold(sequence, bytes).expect("held");
    }
    assert_eq!(held.discard_below(23), 2);
    assert_eq!(held.len(), 1);
    assert_eq!(held.discard_below(23), 0);
    assert_eq!(held.take_ready(25), Some(b"c".to_vec()));
    for sequence in 30..34u64 {
        assert_eq!(held.hold(sequence, b"x"), Ok(FixHoldOutcome::Held));
    }
    assert_eq!(held.hold(40, b"y"), Err(FixGapBufferFull));
}

#[test]
fn receive_latency_tracks_last_max_and_skew() {
    let mut metrics = FixLiveAdapterMetrics::default();
    metrics.record_receive_latency(0, 500);
    assert_eq!(metrics, FixLiveAdapterMetrics::default());
    metrics.record_receive_latency(1_000, 1_250);
    assert_eq!(metrics.last_exchange_to_receive_ns, 250);
    assert_eq!(metrics.max_exchange_to_receive_ns, 250);
    metrics.record_receive_latency(2_000, 2_100);
    assert_eq!(metrics.last_exchange_to_receive_ns, 100);
    assert_eq!(metrics.max_exchange_to_receive_ns, 250);
    metrics.record_receive_latency(3_000, 2_999);
    assert_eq!(metrics.exchange_clock_skew_reports, 1);
    assert_eq!(metrics.last_exchange_to_receive_ns, 100);
}

#[test]
fn message_sequence_numbers_are_positive_decimal() {
    let with_seq = |value: &[u8]| FixMessageFields {
        msg_type: Some(b"8".to_vec()),
        fields: vec![
            FixField {
                tag: 49,
                value: b"SENDER".to_vec(),
            },
            FixField {
                tag: MSG_SEQ_NUM_TAG,
                value: value.to_vec(),
            },
        ],
    };
    assert_eq!(parse_message_sequence(&with_seq(b"42")), Ok(42));
    assert_eq!(
        parse_message_sequence(&with_seq(b"18446744073709551615")),
        Ok(u64::MAX)
    );
    assert_eq!(
        parse_message_sequence(&with_seq(b"18446744073709551616")),
        Err(FixSequenceNumberError::Overflow)
    );
    assert_eq!(
        parse_message_sequence(&with_seq(b"99999999999999999999x")),
        Err(FixSequenceNumberError::Overflow)
    );
    assert_eq!(
        parse_message_sequence(&with_seq(b"4x")),
        Err(FixSequenceNumberError::Malformed)
    );
    assert_eq!(
        parse_message_sequence(&with_seq(b"")),
        Err(FixSequenceNumberError::Empty)
    );
    assert_eq!(
        parse_message_sequence(&with_seq(b"000")),
        Err(FixSequenceNumberError::Zero)
    );
    let missing = FixMessageFields {
        msg_type: Some(b"0".to_vec()),
        fields: vec![],
    };
    assert_eq!(
        parse_message_sequence(&missing),
        Err(FixSequenceNumberError::Missing)
    );
    assert_eq!(
        FixSequenceNumberError::Zero.to_string(),
        "FIX MsgSeqNum(34) must be non-zero"
    );
}

#[test]
fn recovery_ids_carry_the_sequence() {
    let mut out = [b'#'; 32];
    let len = write_recovery_id(&mut out, 907);
    assert_eq!(&out[..len], b"OF-RECOVERY-907");
    assert!(out[len..].iter().all(|b| *b == b'#'));
    let len = write_recovery_id(&mut out, 0);
    assert_eq!(&out[..len], b"OF-RECOVERY-0");
    let len = write_recovery_id(&mut out, u64::MAX);
    assert_eq!(len, 32);
    assert_eq!(&out[..], b"OF-RECOVERY-18446744073709551615");
}

#[test]
fn sequence_gap_holds_frame_then_replays_after_missing_message() {
    let mut held = FixGapFrames::new(128);
    let frame_three = b"8=FIX.4.4|35=8|34=3|".to_vec();
    assert_eq!(held.hold(3, &frame_three), Ok(FixHoldOutcome::Held));
    assert_eq!(held.len(), 1);
    assert_eq!(held.take_ready(2), None);
    assert_eq!(held.discard_below(3), 0);
    assert_eq!(held.take_ready(3), Some(frame_three));
    assert!(held.is_empty());
}

#[test]
fn bounded_gap_frames_fail_closed() {
    let mut held = FixGapFrames::new(1);
    assert_eq!(held.hold(4, b"four"), Ok(FixHoldOutcome::Held));
    assert_eq!(held.hold(5, b"five"), Err(FixGapBufferFull));
    assert_eq!(held.len(), 1);
}

#[test]
fn sequence_reset_discards_obsolete_held_frames() {
    let mut held = FixGapFrames::new(128);
    assert_eq!(held.hold(4, b"report-4"), Ok(FixHoldOutcome::Held));
    assert_eq!(held.len(), 1);
    assert_eq!(held.discard_below(5), 1);
    assert!(held.is_empty());
    assert_eq!(held.take_ready(5), None);
}
