use orderflow_execution::fix_resend::{build_resend_actions, FixResendAction, FixResendError};

#[test]
fn resend_replays_retained_and_gap_fills_the_rest() {
    let actions = build_resend_actions(3, 9, Some(12), &[4, 5, 8], 16, 16).expect("answer");
    assert_eq!(
        actions,
        vec![
            FixResendAction::GapFill { begin: 3, end: 3 },
            FixResendAction::Replay(4),
            FixResendAction::Replay(5),
            FixResendAction::GapFill { begin: 6, end: 7 },
            FixResendAction::Replay(8),
            FixResendAction::GapFill { begin: 9, end: 9 },
        ]
    );
}

#[test]
fn resend_open_end_runs_to_newest_retained_sequence() {
    assert_eq!(
        build_resend_actions(2, 0, Some(4), &[2, 3, 4], 16, 16),
        Ok(vec![
            FixResendAction::Replay(2),
            FixResendAction::Replay(3),
            FixResendAction::Replay(4),
        ])
    );
    assert_eq!(build_resend_actions(2, 0, None, &[], 16, 16), Ok(vec![]));
    assert_eq!(
        build_resend_actions(1, 0, Some(3), &[], 16, 16),
        Ok(vec![FixResendAction::GapFill { begin: 1, end: 3 }])
    );
}

#[test]
fn resend_refuses_invalid_and_oversized_requests() {
    assert_eq!(
        build_resend_actions(0, 5, Some(5), &[], 16, 16),
        Err(FixResendError::InvalidRange)
    );
    assert_eq!(
        build_resend_actions(6, 5, Some(9), &[], 16, 16),
        Err(FixResendError::InvalidRange)
    );
    assert_eq!(
        build_resend_actions(1, 20, Some(20), &[], 16, 16),
        Err(FixResendError::RangeTooLarge { span: 20, max: 16 })
    );
    assert_eq!(
        build_resend_actions(1, 6, Some(6), &[2, 4, 6], 16, 5),
        Err(FixResendError::TooManyActions)
    );
    assert_eq!(
        build_resend_actions(1, 6, Some(6), &[2, 4, 6], 16, 6).map(|a| a.len()),
        Ok(6)
    );
}

#[test]
fn peer_resend_replays_application_and_gap_fills_admin() {
    let actions = build_resend_actions(1, 2, Some(2), &[2], 8_192, 2_048).expect("answer");
    assert_eq!(
        actions,
        vec![
            FixResendAction::GapFill { begin: 1, end: 1 },
            FixResendAction::Replay(2),
        ]
    );
}
