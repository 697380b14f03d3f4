use orderflow_execution::fix_certification::{
    FixCertificationCapability, FixCertificationClock, FixCertificationConfig,
    FixCertificationFailure, FixCertificationFailureKind, FixCertificationLatencyEvidence,
    FixCertificationScenario, FixExpectedField,
};
use orderflow_execution::fix_live::{
    DurableFixOutboundJournal, FixTimeSample, FixTimeSource, FixWorkingOrderContext,
};
use orderflow_execution::fix_mapping::{map_execution_report, parse_execution_report};
use orderflow_execution::fix_model::{
    FixExecType, FixField, FixMessageFields, FixOrdStatus, FixReportParseConfig,
    FixReportParseError, FixRequestEncodeConfig, FixRequestEncodeError, FixTag, CL_ORD_ID_TAG,
    EXEC_ID_TAG, EXEC_TYPE_TAG, ORDER_ID_TAG, ORD_STATUS_TAG, SYMBOL_TAG, TRANSACT_TIME_TAG,
};
use orderflow_execution::fix_shell::{ExecutionError, FixExecutionAdapter};
use orderflow_execution::fix_support::{
    days_in_month, decimal_places, encode_scaled, parse_fix_utc_timestamp_ns, parse_ord_status,
    parse_scaled, parse_u64_digits, ScaledField,
};
use orderflow_execution::fix_model::FixSessionConfig;
use orderflow_execution::{
    ExecutionCoreError, FixedAscii, OrderPrice, OrderSide, OrderType, RiskRejectReason,
    TimeInForce,
};

fn id<const N: usize>(value: &str) -> FixedAscii<N> {
    FixedAscii::new(value).unwrap()
}

fn report_message(extra: &[(u32, &[u8])]) -> FixMessageFields {
    let mut fields = vec![
        FixField { tag: EXEC_TYPE_TAG, value: b"8".to_vec() },
        FixField { tag: ORD_STATUS_TAG, value: b"8".to_vec() },
        FixField { tag: CL_ORD_ID_TAG, value: b"C1".to_vec() },
        FixField { tag: ORDER_ID_TAG, value: b"V1".to_vec() },
        FixField { tag: EXEC_ID_TAG, value: b"E1".to_vec() },
        FixField { tag: SYMBOL_TAG, value: b"ESZ6".to_vec() },
    ];
    for (tag, value) in extra {
        fields.insert(0, FixField { tag: *tag, value: value.to_vec() });
    }
    FixMessageFields::new(Some(b"8".to_vec()), fields)
}

fn parse_config() -> FixReportParseConfig {
    FixReportParseConfig::new(id("ACC"), id("FIX"), id("CME"))
}

#[test]
fn scaled_decimals_parse_at_the_configured_scale() {
    assert_eq!(parse_scaled(b"1.25", 100), Some(125));
    assert_eq!(parse_scaled(b"65000.5", 10), Some(650005));
    assert_eq!(parse_scaled(b".5", 10), Some(5));
    assert_eq!(parse_scaled(b"7.", 10), Some(70));
    assert_eq!(parse_scaled(b"9223372036854775807", 1), Some(i64::MAX));
    assert_eq!(parse_scaled(b"9223372036854775808", 1), None);
    assert_eq!(parse_scaled(b"1.234", 100), None);
    assert_eq!(parse_scaled(b"1.2.3", 100), None);
    assert_eq!(parse_scaled(b"", 10), None);
    assert_eq!(parse_scaled(b"12", 0), None);
    assert_eq!(parse_scaled(b"-1", 10), None);
}

#[test]
fn unsigned_digits_parse_up_to_u64_max() {
    assert_eq!(parse_u64_digits(b"18446744073709551615"), Some(u64::MAX));
    assert_eq!(parse_u64_digits(b"18446744073709551616"), None);
    assert_eq!(parse_u64_digits(b"0042"), Some(42));
    assert_eq!(parse_u64_digits(b"12a"), None);
    assert_eq!(parse_u64_digits(b""), None);
}

#[test]
fn utc_timestamps_parse_to_unix_nanoseconds() {
    assert_eq!(parse_fix_utc_timestamp_ns(b"19700101-00:00:00"), Some(0));
    assert_eq!(
        parse_fix_utc_timestamp_ns(b"20260717-12:00:00"),
        Some(1_784_289_600_000_000_000)
    );
    assert_eq!(
        parse_fix_utc_timestamp_ns(b"20260717-12:00:00.000"),
        Some(1_784_289_600_000_000_000)
    );
    assert_eq!(
        parse_fix_utc_timestamp_ns(b"20240229-23:59:59.123456789"),
        Some(1_709_251_199_123_456_789)
    );
    assert_eq!(
        parse_fix_utc_timestamp_ns(b"20260717-12:00:60"),
        Some(1_784_289_660_000_000_000)
    );
    assert_eq!(parse_fix_utc_timestamp_ns(b"20230229-00:00:00"), None);
    assert_eq!(parse_fix_utc_timestamp_ns(b"19691231-23:59:59"), None);
    assert_eq!(parse_fix_utc_timestamp_ns(b"20260717-24:00:00"), None);
    assert_eq!(parse_fix_utc_timestamp_ns(b"20260717-12:00:00."), None);
    assert_eq!(parse_fix_utc_timestamp_ns(b"20260717-12:00:00.1234567890"), None);
    assert_eq!(parse_fix_utc_timestamp_ns(b"20260717T12:00:00"), None);
    assert_eq!(parse_fix_utc_timestamp_ns(b"99991231-23:59:59"), None);
}

#[test]
fn calendar_months_follow_gregorian_leap_years() {
    assert_eq!(days_in_month(2000, 2), 29);
    assert_eq!(days_in_month(1900, 2), 28);
    assert_eq!(days_in_month(2024, 2), 29);
    assert_eq!(days_in_month(2023, 4), 30);
    assert_eq!(days_in_month(2023, 12), 31);
    assert_eq!(days_in_month(2023, 13), 0);
}

#[test]
fn decimal_places_accept_only_powers_of_ten() {
    assert_eq!(decimal_places(1), Ok(0));
    assert_eq!(decimal_places(1000), Ok(3));
    assert_eq!(decimal_places(1_000_000_000_000_000_000), Ok(18));
    assert_eq!(decimal_places(30), Err(FixRequestEncodeError::InvalidScale));
    assert_eq!(decimal_places(0), Err(FixRequestEncodeError::InvalidScale));
    assert_eq!(decimal_places(-10), Err(FixRequestEncodeError::InvalidScale));
}

#[test]
fn scaled_values_format_without_trailing_zeros() {
    assert_eq!(encode_scaled(125, 100, ScaledField::Quantity), Ok(b"1.25".to_vec()));
    assert_eq!(encode_scaled(100, 100, ScaledField::Quantity), Ok(b"1".to_vec()));
    assert_eq!(encode_scaled(650005, 10, ScaledField::Price), Ok(b"65000.5".to_vec()));
    assert_eq!(encode_scaled(5, 1000, ScaledField::Price), Ok(b"0.005".to_vec()));
    assert_eq!(encode_scaled(1050, 100, ScaledField::Price), Ok(b"10.5".to_vec()));
    assert_eq!(
        encode_scaled(0, 10, ScaledField::Quantity),
        Err(FixRequestEncodeError::InvalidQuantity)
    );
    assert_eq!(
        encode_scaled(-5, 10, ScaledField::Price),
        Err(FixRequestEncodeError::InvalidPrice)
    );
    assert_eq!(
        encode_scaled(5, 30, ScaledField::Price),
        Err(FixRequestEncodeError::InvalidScale)
    );
}

#[test]
fn scaled_text_round_trips_through_the_parser() {
    for (value, scale) in [(125i64, 100i64), (650005, 10), (5, 1000), (1050, 100), (7, 1), (i64::MAX, 1_000_000_000_000_000_000)] {
        let text = encode_scaled(value, scale, ScaledField::Price).expect("encode");
        assert_eq!(parse_scaled(&text, scale), Some(value));
    }
}

#[test]
fn encode_config_scales_clamp_to_one() {
    let config = FixRequestEncodeConfig::new().with_quantity_scale(-5).with_price_scale(0);
    assert_eq!(config.quantity_scale, 1);
    assert_eq!(config.price_scale, 1);
    assert_eq!(FixRequestEncodeConfig::default(), FixRequestEncodeConfig::new());
    let parse = parse_config().with_quantity_scale(0).with_price_scale(100);
    assert_eq!(parse.quantity_scale, 1);
    assert_eq!(parse.price_scale, 100);
}

#[test]
fn report_identifiers_are_validated_as_fixed_ascii() {
    let long_id = [b'X'; 41];
    let message = report_message(&[(CL_ORD_ID_TAG, long_id.as_slice())]);
    assert_eq!(
        parse_execution_report(&message, parse_config(), 0),
        Err(FixReportParseError::InvalidAscii {
            tag: FixTag(CL_ORD_ID_TAG),
            source: ExecutionCoreError::IdentifierTooLong { capacity: 40, actual: 41 },
        })
    );
    let message = report_message(&[(CL_ORD_ID_TAG, [0xffu8].as_slice())]);
    assert_eq!(
        parse_execution_report(&message, parse_config(), 0),
        Err(FixReportParseError::InvalidAscii {
            tag: FixTag(CL_ORD_ID_TAG),
            source: ExecutionCoreError::NonAsciiIdentifier,
        })
    );
    let message = report_message(&[(CL_ORD_ID_TAG, "é".as_bytes())]);
    assert_eq!(
        parse_execution_report(&message, parse_config(), 0),
        Err(FixReportParseError::InvalidAscii {
            tag: FixTag(CL_ORD_ID_TAG),
            source: ExecutionCoreError::NonAsciiIdentifier,
        })
    );
}

#[test]
fn report_message_type_and_status_are_checked() {
    let mut message = report_message(&[]);
    message.msg_type = Some(b"9".to_vec());
    assert_eq!(
        parse_execution_report(&message, parse_config(), 0),
        Err(FixReportParseError::InvalidMsgType)
    );
    message.msg_type = None;
    assert_eq!(
        parse_execution_report(&message, parse_config(), 0),
        Err(FixReportParseError::InvalidMsgType)
    );
    let message = report_message(&[(ORD_STATUS_TAG, b"Z".as_slice())]);
    assert_eq!(
        parse_execution_report(&message, parse_config(), 0),
        Err(FixReportParseError::InvalidOrdStatus)
    );
    let message = report_message(&[(EXEC_TYPE_TAG, b"3".as_slice())]);
    assert_eq!(
        parse_execution_report(&message, parse_config(), 0),
        Err(FixReportParseError::InvalidExecType)
    );
    assert_eq!(parse_ord_status(b"A"), Ok(FixOrdStatus::PendingNew));
    assert_eq!(parse_ord_status(b"10"), Err(FixReportParseError::InvalidOrdStatus));
}

#[test]
fn transact_time_accepts_utc_timestamps_and_rejections_map_to_reasons() {
    let message = report_message(&[(TRANSACT_TIME_TAG, b"20260717-12:00:00.000".as_slice())]);
    let report = parse_execution_report(&message, parse_config(), 7).expect("report");
    assert_eq!(report.ts_exchange_ns, 1_784_289_600_000_000_000);
    assert_eq!(report.exec_type, FixExecType::Rejected);
    assert_eq!(report.ord_status, FixOrdStatus::Rejected);
    assert_eq!(report.account_id, id("ACC"));
    let event = map_execution_report(&report);
    assert_eq!(event.reason, RiskRejectReason::UnsupportedOrderType);
    let message = report_message(&[(TRANSACT_TIME_TAG, b"soon".as_slice())]);
    assert_eq!(
        parse_execution_report(&message, parse_config(), 7),
        Err(FixReportParseError::InvalidNumber(FixTag(TRANSACT_TIME_TAG)))
    );
}

#[test]
fn certification_config_sorts_and_deduplicates_scenarios() {
    let config = FixCertificationConfig::new().with_required_scenarios(&[
        FixCertificationScenario::PartialFill,
        FixCertificationScenario::SessionLifecycle,
        FixCertificationScenario::PartialFill,
        FixCertificationScenario::BackpressureAndBounds,
    ]);
    assert_eq!(
        config.required_scenarios(),
        &[
            FixCertificationScenario::SessionLifecycle,
            FixCertificationScenario::PartialFill,
            FixCertificationScenario::BackpressureAndBounds,
        ]
    );
    assert_eq!(config.max_failures(), 256);
    assert_eq!(FixCertificationConfig::default().required_scenarios().len(), 13);
    assert_eq!(
        FixCertificationConfig::new().required_scenarios(),
        FixCertificationScenario::all().as_slice()
    );
    assert_eq!(config.with_max_failures(3).max_failures(), 3);
}

#[test]
fn certification_inventories_have_stable_names_and_bits() {
    assert_eq!(FixCertificationScenario::PeerResend.as_str(), "peer_resend");
    assert_eq!(
        FixCertificationScenario::BackpressureAndBounds.as_str(),
        "backpressure_and_bounds"
    );
    assert_eq!(FixCertificationCapability::all().len(), 11);
    assert_eq!(FixCertificationCapability::NativeClientOrderId.bit(), 1 << 10);
    assert_eq!(FixCertificationCapability::GoodTillCancel.as_str(), "tif_gtc");
    let cfg = FixSessionConfig::new("FIX.4.4", "SENDER", "TARGET", 30).unwrap();
    let adapter = FixExecutionAdapter::new(cfg);
    for capability in FixCertificationCapability::all() {
        assert!(capability.advertised(adapter.capabilities()));
    }
}

#[test]
fn failure_details_are_truncated_to_512_bytes() {
    let failure = FixCertificationFailure::new(
        Some(FixCertificationScenario::CancelRace),
        FixCertificationFailureKind::Behavior,
        "x".repeat(600),
    );
    assert_eq!(failure.detail().len(), 512);
    assert_eq!(failure.scenario(), Some(FixCertificationScenario::CancelRace));
    assert_eq!(failure.kind(), FixCertificationFailureKind::Behavior);
    let short = FixCertificationFailure::new(None, FixCertificationFailureKind::Custom, "ok".to_string());
    assert_eq!(short.detail(), "ok");
    let field = FixExpectedField::new(35, b"D".to_vec());
    assert_eq!(field.tag(), 35);
    assert_eq!(field.value(), b"D");
}

#[test]
fn latency_evidence_brackets_recorded_samples() {
    let mut evidence = FixCertificationLatencyEvidence::default();
    assert_eq!(evidence.average_ns(), 0);
    for sample in [30u64, 10, 20] {
        evidence.record(sample);
    }
    assert_eq!(evidence.samples(), 3);
    assert_eq!(evidence.min_ns(), 10);
    assert_eq!(evidence.max_ns(), 30);
    assert_eq!(evidence.average_ns(), 20);
}

#[test]
fn certification_clock_writes_sending_time_and_steps() {
    let mut clock = FixCertificationClock::new(100, 200, 5, b"20260717-12:00:00.000".to_vec());
    let mut buf = [0u8; 32];
    let sample = clock.sample(&mut buf).expect("sample");
    assert_eq!(sample, FixTimeSample::new(100, 200, 21));
    assert_eq!(&buf[..21], b"20260717-12:00:00.000");
    assert_eq!(buf[21], 0);
    let next = clock.sample(&mut buf).expect("sample");
    assert_eq!(next.monotonic_ns(), 105);
    assert_eq!(next.unix_ns(), 205);
    let mut small = [0u8; 10];
    assert!(clock.sample(&mut small).is_err());
    clock.advance_ns(u64::MAX);
    let last = clock.sample(&mut buf).expect("sample");
    assert_eq!(last.monotonic_ns(), u64::MAX);
    clock.set_sending_time(Vec::new());
    assert!(clock.sample(&mut buf).is_err());
}

#[test]
fn adapter_shell_reports_identity_and_fails_every_operation() {
    let cfg = FixSessionConfig::new("FIX.4.4", "SENDER", "TARGET", 30).unwrap();
    let mut adapter = FixExecutionAdapter::new(cfg);
    assert_eq!(adapter.health().health_seq, 0);
    assert_eq!(adapter.connect(), Err(ExecutionError::TransportNotConfigured));
    let health = adapter.health();
    assert_eq!(health.health_seq, 1);
    assert!(!health.connected);
    assert_eq!(health.protocol_info.as_deref(), Some("FIX.4.4:SENDER->TARGET"));
    assert_eq!(health.last_error.as_deref(), Some("FIX transport is not configured"));
    assert_eq!(adapter.poll(), Err(ExecutionError::Disconnected));
    assert_eq!(adapter.recover_open_orders(), Err(ExecutionError::Disconnected));
    assert_eq!(adapter.config(), cfg);
    assert!(FixSessionConfig::new("FIX.4.4.4.4.4.4.4.4", "S", "T", 30).is_err());
}

#[test]
fn live_context_and_journal_wrappers_keep_their_values() {
    let context = FixWorkingOrderContext::new(
        OrderSide::Sell,
        OrderType::Stop,
        TimeInForce::Gtc,
        OrderPrice(99),
    );
    assert_eq!(context.side(), OrderSide::Sell);
    assert_eq!(context.order_type(), OrderType::Stop);
    assert_eq!(context.time_in_force(), TimeInForce::Gtc);
    assert_eq!(context.stop_price(), OrderPrice(99));
    let mut journal = DurableFixOutboundJournal::new(5u32);
    *journal.store_mut() += 1;
    assert_eq!(*journal.store(), 6);
    assert_eq!(journal.into_inner(), 6);
}

#[test]
fn latency_average_stays_between_bounds_after_each_record() {
    let mut evidence = FixCertificationLatencyEvidence::default();
    for sample in [7u64, 1_000, 3, 999_999, 42, u64::MAX] {
        evidence.record(sample);
        assert!(evidence.min_ns() <= evidence.average_ns());
        assert!(evidence.average_ns() <= evidence.max_ns());
    }
    assert_eq!(evidence.samples(), 6);
    assert_eq!(evidence.min_ns(), 3);
    assert_eq!(evidence.max_ns(), u64::MAX);
}

#[test]
fn scaled_text_has_a_dot_only_for_a_remainder() {
    assert_eq!(encode_scaled(1500, 1000, ScaledField::Price), Ok(b"1.5".to_vec()));
    assert_eq!(encode_scaled(2000, 1000, ScaledField::Price), Ok(b"2".to_vec()));
    assert_eq!(encode_scaled(2010, 1000, ScaledField::Quantity), Ok(b"2.01".to_vec()));
    assert_eq!(encode_scaled(7, 1, ScaledField::Quantity), Ok(b"7".to_vec()));
}
