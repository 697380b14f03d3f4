//! The standard FIX 4.2/4.4 application profile of a live adapter:
//! truthful capabilities, the order-entry fields of canonical requests, and
//! the canonical events of inbound execution messages.

use vstd::prelude::*;
use crate::fix_live::FixWorkingOrderContext;
use crate::fix_mapping::{
    encode_amend_request, encode_cancel_request, encode_order_request,
    encode_stop_amend_request, map_execution_report, map_order_cancel_reject,
    parse_execution_report, parse_order_cancel_reject, spec_amend_result, spec_amend_texts,
    spec_cancel_fields, spec_is_stop_type, spec_map_execution_report,
    spec_map_order_cancel_reject, spec_new_order_single_result, spec_order_request_texts,
    spec_parse_execution_report, spec_parse_order_cancel_reject, spec_stop_amend_result,
    spec_stop_amend_texts,
};
use crate::fix_model::{
    FixAmendEncodeContext, FixCancelEncodeContext, FixMessageFields, FixNewOrderSingleFields,
    FixOrderCancelFields, FixOrderCancelReplaceFields, FixReportParseConfig, FixReportParseError,
    FixRequestEncodeConfig, FixRequestEncodeError, FixStopAmendEncodeContext,
};
use crate::fix_shell::{spec_fix_capabilities, ExecutionCapabilities, LatencyClass};
use crate::orders::{AmendRequest, CancelRequest, ExecutionEvent, OrderRequest, OrderType};

verus! {

/// Error from the standard FIX execution profile.
#[derive(Debug, Clone, Copy, PartialEq, Eq, Structural)]
pub enum StandardFixProfileError {
    /// Outbound canonical request could not be encoded.
    Request(FixRequestEncodeError),
    /// Inbound execution message could not be mapped.
    Report(FixReportParseError),
}

impl StandardFixProfileError {
    /// The human-readable description of the error.
    pub open spec fn spec_text(&self) -> Seq<char> {
        match self {
            StandardFixProfileError::Request(e) => "FIX profile request error: "@ + e.spec_text(),
            StandardFixProfileError::Report(e) => "FIX profile report error: "@ + e.spec_text(),
        }
    }

    /// Renders the human-readable description of the error.
    pub fn to_string(&self) -> (r: String)
        ensures
            r@ == self.spec_text(),
    {
        match self {
            StandardFixProfileError::Request(e) => {
                let cause = e.to_string();
                String::from_str("FIX profile request error: ").concat(cause.as_str())
            },
            StandardFixProfileError::Report(e) => {
                let cause = e.to_string();
                String::from_str("FIX profile report error: ").concat(cause.as_str())
            },
        }
    }
}

/// The canonical event of an inbound application message: an
/// ExecutionReport `<8>` or an OrderCancelReject `<9>` maps to its event
/// (or the report error), any other message to no event.
pub open spec fn spec_map_application(
    config: FixReportParseConfig,
    message: FixMessageFields,
    ts_recv_ns: u64,
) -> Result<Option<ExecutionEvent>, StandardFixProfileError> {
    if message.spec_msg_type() == Some(seq![56u8]) {
        match spec_parse_execution_report(message, config, ts_recv_ns) {
            Ok(report) => Ok(Some(spec_map_execution_report(report))),
            Err(e) => Err(StandardFixProfileError::Report(e)),
        }
    } else if message.spec_msg_type() == Some(seq![57u8]) {
        match spec_parse_order_cancel_reject(message, config, ts_recv_ns) {
            Ok(reject) => Ok(Some(spec_map_order_cancel_reject(reject))),
            Err(e) => Err(StandardFixProfileError::Report(e)),
        }
    } else {
        Ok(None)
    }
}

/// Standard FIX 4.2/4.4 application profile for a FIX version `V`.
#[derive(Debug, Clone, Copy, PartialEq, Eq)]
pub struct StandardFixExecutionProfile<V> {
    version: V,
    request_config: FixRequestEncodeConfig,
    report_config: FixReportParseConfig,
    capabilities: ExecutionCapabilities,
}

impl<V: Copy> StandardFixExecutionProfile<V> {
    /// The FIX version.
    pub closed spec fn spec_version(&self) -> V {
        self.version
    }

    /// The outbound encoding configuration.
    pub closed spec fn spec_request_config(&self) -> FixRequestEncodeConfig {
        self.request_config
    }

    /// The inbound mapping configuration.
    pub closed spec fn spec_report_config(&self) -> FixReportParseConfig {
        self.report_config
    }

    /// The advertised capabilities.
    pub closed spec fn spec_capabilities(&self) -> ExecutionCapabilities {
        self.capabilities
    }

    /// Creates a standard application profile advertising native FIX
    /// latency, every order type and time in force, amends and native
    /// client order ids.
    pub fn new(
        version: V,
        request_config: FixRequestEncodeConfig,
        report_config: FixReportParseConfig,
    ) -> (r: Self)
        ensures
            r.spec_version() == version,
            r.spec_request_config() == request_config,
            r.spec_report_config() == report_config,
            r.spec_capabilities() == spec_fix_capabilities(),
    {
        Self {
            version,
            request_config,
            report_config,
            capabilities: ExecutionCapabilities {
                latency_class: LatencyClass::NativeFix,
                market: true,
                limit: true,
                stop: true,
                stop_limit: true,
                tif_day: true,
                tif_gtc: true,
                tif_ioc: true,
                tif_fok: true,
                tif_gtd: true,
                amend: true,
                native_client_order_id: true,
            },
        }
    }

    /// Overrides profile capabilities after counterparty certification.
    pub fn with_capabilities(self, capabilities: ExecutionCapabilities) -> (r: Self)
        ensures
            r.spec_capabilities() == capabilities,
            r.spec_version() == self.spec_version(),
            r.spec_request_config() == self.spec_request_config(),
            r.spec_report_config() == self.spec_report_config(),
    {
        Self { capabilities, ..self }
    }

    /// Returns the FIX version of this profile.
    pub fn version(&self) -> (r: V)
        ensures
            r == self.spec_version(),
    {
        self.version
    }

    /// Returns the advertised order-entry capabilities.
    pub fn capabilities(&self) -> (r: ExecutionCapabilities)
        ensures
            r == self.spec_capabilities(),
    {
        self.capabilities
    }

    /// Prepares the NewOrderSingle `<D>` fields of a new order.
    pub fn encode_submit(&self, request: &OrderRequest, transact_time: &[u8]) -> (r: Result<
        FixNewOrderSingleFields,
        StandardFixProfileError,
    >)
        ensures
            match spec_order_request_texts(self.spec_request_config(), *request) {
                Err(e) => r == Err::<FixNewOrderSingleFields, StandardFixProfileError>(
                    StandardFixProfileError::Request(e),
                ),
                Ok(_) => r matches Ok(f) && spec_new_order_single_result(
                    self.spec_request_config(),
                    *request,
                    transact_time@,
                    Ok(f),
                ),
            },
    {
        match encode_order_request(self.request_config, request, transact_time) {
            Ok(f) => Ok(f),
            Err(e) => Err(StandardFixProfileError::Request(e)),
        }
    }

    /// Prepares the OrderCancelRequest `<F>` fields of a cancel; the side
    /// comes from the original order.
    pub fn encode_cancel(
        &self,
        request: &CancelRequest,
        original: FixWorkingOrderContext,
        transact_time: &[u8],
    ) -> (r: FixOrderCancelFields)
        ensures
            spec_cancel_fields(*request, original.spec_side(), transact_time@, r),
    {
        encode_cancel_request(request, FixCancelEncodeContext::new(original.side(), transact_time))
    }

    /// Prepares the OrderCancelReplaceRequest `<G>` fields of an amend: a
    /// stop or stop-limit original keeps its stop price, any other is a
    /// plain amend; side, order type and time in force come from the
    /// original order.
    pub fn encode_amend(
        &self,
        request: &AmendRequest,
        original: FixWorkingOrderContext,
        transact_time: &[u8],
    ) -> (r: Result<FixOrderCancelReplaceFields, StandardFixProfileError>)
        ensures
            spec_is_stop_type(original.spec_order_type()) ==> match spec_stop_amend_texts(
                self.spec_request_config(),
                *request,
                original.spec_order_type(),
                original.spec_stop_price(),
            ) {
                Err(e) => r == Err::<FixOrderCancelReplaceFields, StandardFixProfileError>(
                    StandardFixProfileError::Request(e),
                ),
                Ok(_) => r matches Ok(f) && spec_stop_amend_result(
                    self.spec_request_config(),
                    *request,
                    original.spec_side(),
                    original.spec_order_type(),
                    original.spec_time_in_force(),
                    original.spec_stop_price(),
                    transact_time@,
                    Ok(f),
                ),
            },
            !spec_is_stop_type(original.spec_order_type()) ==> match spec_amend_texts(
                self.spec_request_config(),
                *request,
                original.spec_order_type(),
            ) {
                Err(e) => r == Err::<FixOrderCancelReplaceFields, StandardFixProfileError>(
                    StandardFixProfileError::Request(e),
                ),
                Ok(_) => r matches Ok(f) && spec_amend_result(
                    self.spec_request_config(),
                    *request,
                    original.spec_side(),
                    original.spec_order_type(),
                    original.spec_time_in_force(),
                    transact_time@,
                    Ok(f),
                ),
            },
    {
        let order_type = original.order_type();
        let result = match order_type {
            OrderType::Stop | OrderType::StopLimit => encode_stop_amend_request(
                self.request_config,
                request,
                FixStopAmendEncodeContext::new(
                    original.side(),
                    order_type,
                    original.time_in_force(),
                    original.stop_price(),
                    transact_time,
                ),
            ),
            _ => encode_amend_request(
                self.request_config,
                request,
                FixAmendEncodeContext::new(
                    original.side(),
                    order_type,
                    original.time_in_force(),
                    transact_time,
                ),
            ),
        };
        match result {
            Ok(f) => Ok(f),
            Err(e) => Err(StandardFixProfileError::Request(e)),
        }
    }

    /// Maps one session-validated application message; see
    /// [`spec_map_application`].
    pub fn map_application(&self, message: &FixMessageFields, ts_recv_ns: u64) -> (r: Result<
        Option<ExecutionEvent>,
        StandardFixProfileError,
    >)
        ensures
            r == spec_map_application(self.spec_report_config(), *message, ts_recv_ns),
    {
        let kind: u8 = match message.msg_type() {
            Some(t) => {
                if t.len() == 1 {
                    t[0]
                } else {
                    0
                }
            },
            None => 0,
        };
        proof {
            if let Some(t) = message.spec_msg_type() {
                if t.len() == 1 {
                    assert(t == seq![56u8] <==> t[0] == 56u8) by {
                        if t[0] == 56u8 {
                            assert(t =~= seq![56u8]);
                        }
                    }
                    assert(t == seq![57u8] <==> t[0] == 57u8) by {
                        if t[0] == 57u8 {
                            assert(t =~= seq![57u8]);
                        }
                    }
                }
            }
        }
        if kind == 56 {
            match parse_execution_report(message, self.report_config, ts_recv_ns) {
                Ok(report) => Ok(Some(map_execution_report(&report))),
                Err(e) => Err(StandardFixProfileError::Report(e)),
            }
        } else if kind == 57 {
            match parse_order_cancel_reject(message, self.report_config, ts_recv_ns) {
                Ok(reject) => Ok(Some(map_order_cancel_reject(&reject))),
                Err(e) => Err(StandardFixProfileError::Report(e)),
            }
        } else {
            Ok(None)
        }
    }
}

} // verus!
