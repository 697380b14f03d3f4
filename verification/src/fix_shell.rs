//! FIX execution adapter shell without a transport: every operation fails
//! closed and health reports the adapter as degraded.

use vstd::prelude::*;
use crate::fix_model::FixSessionConfig;
use crate::orders::{AmendRequest, CancelRequest, OrderRequest};

verus! {

/// Latency class advertised by an execution adapter.
#[derive(Debug, Clone, Copy, PartialEq, Eq, Structural)]
pub enum LatencyClass {
    /// Native FIX order entry.
    NativeFix,
}

/// Order-entry capabilities advertised by an execution adapter.
#[derive(Debug, Clone, Copy, PartialEq, Eq, Structural)]
pub struct ExecutionCapabilities {
    /// Latency class.
    pub latency_class: LatencyClass,
    /// Market orders.
    pub market: bool,
    /// Limit orders.
    pub limit: bool,
    /// Stop orders.
    pub stop: bool,
    /// Stop-limit orders.
    pub stop_limit: bool,
    /// Day time in force.
    pub tif_day: bool,
    /// Good-till-cancel time in force.
    pub tif_gtc: bool,
    /// Immediate-or-cancel time in force.
    pub tif_ioc: bool,
    /// Fill-or-kill time in force.
    pub tif_fok: bool,
    /// Good-till-date time in force.
    pub tif_gtd: bool,
    /// Cancel/replace support.
    pub amend: bool,
    /// Native preservation of caller client-order ids.
    pub native_client_order_id: bool,
}

/// Health snapshot of an execution adapter.
#[derive(Debug, Clone, PartialEq, Eq)]
pub struct ExecutionHealth {
    /// Transport connected.
    pub connected: bool,
    /// Adapter degraded.
    pub degraded: bool,
    /// Health sequence, advanced by every connect attempt.
    pub health_seq: u64,
    /// Last error text.
    pub last_error: Option<String>,
    /// Protocol description `begin:sender->target`.
    pub protocol_info: Option<String>,
}

/// Execution adapter error.
#[derive(Debug, Clone, Copy, PartialEq, Eq, Structural)]
pub enum ExecutionError {
    /// The FIX transport is not configured.
    TransportNotConfigured,
    /// The adapter is not connected.
    Disconnected,
}

/// Text of the error reported by a shell without transport.
pub const FIX_TRANSPORT_NOT_CONFIGURED: &'static str = "FIX transport is not configured";

/// FIX execution adapter shell.
#[derive(Debug, Clone)]
pub struct FixExecutionAdapter {
    config: FixSessionConfig,
    connected: bool,
    health_seq: u64,
}

/// The capabilities a FIX adapter advertises: native FIX latency and every
/// order type, time in force, amend and native client ids.
pub open spec fn spec_fix_capabilities() -> ExecutionCapabilities {
    ExecutionCapabilities {
        latency_class: LatencyClass::NativeFix,
        market: true,
        limit: true,
        stop: true,
        stop_limit: true,
        tif_day: true,
        tif_gtc: true,
        tif_ioc: true,
        tif_fok: true,
        tif_gtd: true,
        amend: true,
        native_client_order_id: true,
    }
}

impl FixExecutionAdapter {
    /// The session configuration.
    pub closed spec fn spec_config(&self) -> FixSessionConfig {
        self.config
    }

    /// Whether the transport is connected.
    pub closed spec fn spec_connected(&self) -> bool {
        self.connected
    }

    /// The health sequence.
    pub closed spec fn spec_health_seq(&self) -> u64 {
        self.health_seq
    }

    /// Creates a FIX adapter shell, disconnected with health sequence zero.
    pub fn new(config: FixSessionConfig) -> (r: Self)
        ensures
            r.spec_config() == config,
            !r.spec_connected(),
            r.spec_health_seq() == 0,
    {
        Self { config, connected: false, health_seq: 0 }
    }

    /// Returns FIX session config.
    pub fn config(&self) -> (r: FixSessionConfig)
        ensures
            r == self.spec_config(),
    {
        self.config
    }

    /// Attempts to connect: without a transport it stays disconnected,
    /// advances the health sequence (saturating) and fails.
    pub fn connect(&mut self) -> (r: Result<(), ExecutionError>)
        ensures
            r == Err::<(), ExecutionError>(ExecutionError::TransportNotConfigured),
            !final(self).spec_connected(),
            final(self).spec_config() == old(self).spec_config(),
            final(self).spec_health_seq() == if old(self).spec_health_seq() == u64::MAX {
                u64::MAX
            } else {
                (old(self).spec_health_seq() + 1) as u64
            },
    {
        self.connected = false;
        if self.health_seq < u64::MAX {
            self.health_seq = self.health_seq + 1;
        }
        Err(ExecutionError::TransportNotConfigured)
    }

    /// Submitting fails closed while disconnected.
    pub fn submit(&mut self, req: &OrderRequest) -> (r: Result<(), ExecutionError>)
        ensures
            r == Err::<(), ExecutionError>(ExecutionError::Disconnected),
            *final(self) == *old(self),
    {
        Err(ExecutionError::Disconnected)
    }

    /// Cancelling fails closed while disconnected.
    pub fn cancel(&mut self, req: &CancelRequest) -> (r: Result<(), ExecutionError>)
        ensures
            r == Err::<(), ExecutionError>(ExecutionError::Disconnected),
            *final(self) == *old(self),
    {
        Err(ExecutionError::Disconnected)
    }

    /// Amending fails closed while disconnected.
    pub fn amend(&mut self, req: &AmendRequest) -> (r: Result<(), ExecutionError>)
        ensures
            r == Err::<(), ExecutionError>(ExecutionError::Disconnected),
            *final(self) == *old(self),
    {
        Err(ExecutionError::Disconnected)
    }

    /// Polling fails closed while disconnected.
    pub fn poll(&mut self) -> (r: Result<usize, ExecutionError>)
        ensures
            r == Err::<usize, ExecutionError>(ExecutionError::Disconnected),
            *final(self) == *old(self),
    {
        Err(ExecutionError::Disconnected)
    }

    /// Open-order recovery fails closed while disconnected.
    pub fn recover_open_orders(&mut self) -> (r: Result<usize, ExecutionError>)
        ensures
            r == Err::<usize, ExecutionError>(ExecutionError::Disconnected),
            *final(self) == *old(self),
    {
        Err(ExecutionError::Disconnected)
    }

    /// The advertised capabilities; see [`spec_fix_capabilities`].
    pub fn capabilities(&self) -> (r: ExecutionCapabilities)
        ensures
            r == spec_fix_capabilities(),
    {
        ExecutionCapabilities {
            latency_class: LatencyClass::NativeFix,
            market: true,
            limit: true,
            stop: true,
            stop_limit: true,
            tif_day: true,
            tif_gtc: true,
            tif_ioc: true,
            tif_fok: true,
            tif_gtd: true,
            amend: true,
            native_client_order_id: true,
        }
    }

    /// The health snapshot: degraded exactly when disconnected, with the
    /// missing-transport error and the `begin:sender->target` identity.
    pub fn health(&self) -> (r: ExecutionHealth)
        ensures
            r.connected == self.spec_connected(),
            r.degraded == !self.spec_connected(),
            r.health_seq == self.spec_health_seq(),
            r.last_error matches Some(e) && e@ == FIX_TRANSPORT_NOT_CONFIGURED@,
            r.protocol_info matches Some(p) && p@ == self.spec_config().begin_string@ + ":"@
                + self.spec_config().sender_comp_id@ + "->"@
                + self.spec_config().target_comp_id@,
    {
        let info = String::from_str(self.config.begin_string.as_str());
        let info = info.concat(":");
        let info = info.concat(self.config.sender_comp_id.as_str());
        let info = info.concat("->");
        let info = info.concat(self.config.target_comp_id.as_str());
        ExecutionHealth {
            connected: self.connected,
            degraded: !self.connected,
            health_seq: self.health_seq,
            last_error: Some(String::from_str(FIX_TRANSPORT_NOT_CONFIGURED)),
            protocol_info: Some(info),
        }
    }
}

} // verus!
