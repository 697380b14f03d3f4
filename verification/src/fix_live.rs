//! Contracts of the transport-injected FIX adapter: transport and clock
//! hooks, time samples, outbound journals, working-order context and
//! operational counters.

use vstd::prelude::*;
use crate::orders::{OrderPrice, OrderSide, OrderType, TimeInForce};
use crate::arith::clamp_u64;
use crate::algo_support::{lemma_decimal_ascii, push_decimal, spec_decimal_ascii, spec_pow10};

verus! {

/// Result of one non-blocking transport receive attempt.
#[derive(Debug, Clone, Copy, PartialEq, Eq, Structural)]
pub enum FixTransportPoll {
    /// No complete frame is currently available.
    Idle,
    /// One complete FIX frame was written to the supplied receive buffer.
    Frame {
        /// Number of initialized bytes in the receive buffer.
        len: usize,
    },
    /// The peer or underlying transport closed the connection.
    Disconnected,
}

/// Frame-oriented transport contract for a live FIX session.
///
/// Implementations own TCP, TLS, WebSocket, leased-line, or test transports
/// and must preserve complete FIX frame boundaries. `poll_receive` is
/// non-blocking and writes into adapter-owned memory.
pub trait FixFrameTransport {
    /// Transport-specific error.
    type Error;

    /// Establishes the physical transport.
    fn connect(&mut self) -> Result<(), Self::Error>;

    /// Sends one complete FIX frame.
    fn send(&mut self, frame: &[u8]) -> Result<(), Self::Error>;

    /// Attempts to receive one complete FIX frame without blocking.
    fn poll_receive(&mut self, out: &mut [u8]) -> Result<FixTransportPoll, Self::Error>;

    /// Closes the physical transport.
    fn disconnect(&mut self) -> Result<(), Self::Error>;
}

/// One monotonic/wall-clock sample for FIX protocol work.
#[derive(Debug, Clone, Copy, PartialEq, Eq, Structural)]
pub struct FixTimeSample {
    monotonic_ns: u64,
    unix_ns: u64,
    sending_time_len: usize,
}

impl FixTimeSample {
    /// The monotonic timestamp.
    pub closed spec fn spec_monotonic_ns(&self) -> u64 {
        self.monotonic_ns
    }

    /// The Unix timestamp.
    pub closed spec fn spec_unix_ns(&self) -> u64 {
        self.unix_ns
    }

    /// The initialized `SendingTime(52)` length.
    pub closed spec fn spec_sending_time_len(&self) -> usize {
        self.sending_time_len
    }

    /// Creates a timestamp sample; `sending_time_len` is the initialized
    /// prefix written by [`FixTimeSource::sample`].
    pub fn new(monotonic_ns: u64, unix_ns: u64, sending_time_len: usize) -> (r: Self)
        ensures
            r.spec_monotonic_ns() == monotonic_ns,
            r.spec_unix_ns() == unix_ns,
            r.spec_sending_time_len() == sending_time_len,
    {
        Self { monotonic_ns, unix_ns, sending_time_len }
    }

    /// Returns the monotonic timestamp used for liveness and latency tracking.
    pub fn monotonic_ns(self) -> (r: u64)
        ensures
            r == self.spec_monotonic_ns(),
    {
        self.monotonic_ns
    }

    /// Returns UTC nanoseconds since the Unix epoch.
    pub fn unix_ns(self) -> (r: u64)
        ensures
            r == self.spec_unix_ns(),
    {
        self.unix_ns
    }

    /// Returns the initialized FIX `SendingTime(52)` length.
    pub fn sending_time_len(self) -> (r: usize)
        ensures
            r == self.spec_sending_time_len(),
    {
        self.sending_time_len
    }
}

/// Injected monotonic clock and FIX UTC timestamp formatter.
pub trait FixTimeSource {
    /// Clock/formatting error.
    type Error;

    /// Writes `SendingTime(52)` into `out` and returns its initialized length
    /// together with a monotonic nanosecond timestamp.
    fn sample(&mut self, out: &mut [u8]) -> Result<FixTimeSample, Self::Error>;
}

/// Outbound journal that performs no durable I/O.
#[derive(Debug, Clone, Copy, Default, PartialEq, Eq, Structural)]
pub struct NoopFixOutboundJournal;

/// Wraps a durable resend-message store as an outbound journal.
#[derive(Debug)]
pub struct DurableFixOutboundJournal<S> {
    store: S,
}

impl<S> DurableFixOutboundJournal<S> {
    /// The wrapped store.
    pub closed spec fn spec_store(&self) -> S {
        self.store
    }

    /// Wraps a durable resend-message store.
    pub fn new(store: S) -> (r: Self)
        ensures
            r.spec_store() == store,
    {
        Self { store }
    }

    /// Returns immutable store access.
    pub fn store(&self) -> (r: &S)
        ensures
            *r == self.spec_store(),
    {
        &self.store
    }

    /// Returns mutable store access.
    pub fn store_mut(&mut self) -> (r: &mut S)
        ensures
            *r == old(self).spec_store(),
            final(self).spec_store() == *final(r),
    {
        &mut self.store
    }

    /// Consumes the wrapper and returns the underlying store.
    pub fn into_inner(self) -> (r: S)
        ensures
            r == self.spec_store(),
    {
        self.store
    }
}

/// Original-order context needed by FIX cancel and replace messages.
#[derive(Debug, Clone, Copy, PartialEq, Eq, Structural)]
pub struct FixWorkingOrderContext {
    side: OrderSide,
    order_type: OrderType,
    time_in_force: TimeInForce,
    stop_price: OrderPrice,
}

impl FixWorkingOrderContext {
    /// The order side.
    pub closed spec fn spec_side(&self) -> OrderSide {
        self.side
    }

    /// The original order type.
    pub closed spec fn spec_order_type(&self) -> OrderType {
        self.order_type
    }

    /// The original time in force.
    pub closed spec fn spec_time_in_force(&self) -> TimeInForce {
        self.time_in_force
    }

    /// The original stop price.
    pub closed spec fn spec_stop_price(&self) -> OrderPrice {
        self.stop_price
    }

    /// Creates original-order context.
    pub fn new(
        side: OrderSide,
        order_type: OrderType,
        time_in_force: TimeInForce,
        stop_price: OrderPrice,
    ) -> (r: Self)
        ensures
            r.spec_side() == side,
            r.spec_order_type() == order_type,
            r.spec_time_in_force() == time_in_force,
            r.spec_stop_price() == stop_price,
    {
        Self { side, order_type, time_in_force, stop_price }
    }

    /// Returns order side.
    pub fn side(self) -> (r: OrderSide)
        ensures
            r == self.spec_side(),
    {
        self.side
    }

    /// Returns original order type.
    pub fn order_type(self) -> (r: OrderType)
        ensures
            r == self.spec_order_type(),
    {
        self.order_type
    }

    /// Returns original time in force.
    pub fn time_in_force(self) -> (r: TimeInForce)
        ensures
            r == self.spec_time_in_force(),
    {
        self.time_in_force
    }

    /// Returns original stop price.
    pub fn stop_price(self) -> (r: OrderPrice)
        ensures
            r == self.spec_stop_price(),
    {
        self.stop_price
    }
}

/// Invalid live FIX adapter configuration.
#[derive(Debug, Clone, Copy, PartialEq, Eq)]
pub enum FixLiveAdapterConfigError {
    /// Begin string is not a known FIX version.
    UnsupportedVersion,
    /// Profile and session begin-string versions differ.
    ProfileVersionMismatch,
    /// Heartbeat interval is invalid.
    SessionConfig,
    /// A bounded capacity is zero.
    ZeroCapacity(&'static str),
    /// Session identity contains an invalid FIX value.
    SessionIdentity,
}

impl FixLiveAdapterConfigError {
    /// The human-readable description of the error.
    pub open spec fn spec_text(&self) -> Seq<char> {
        match self {
            FixLiveAdapterConfigError::UnsupportedVersion => "unsupported FIX begin string"@,
            FixLiveAdapterConfigError::ProfileVersionMismatch =>
                "FIX profile version differs from session begin string"@,
            FixLiveAdapterConfigError::SessionConfig => "invalid FIX session configuration"@,
            FixLiveAdapterConfigError::ZeroCapacity(name) => "FIX adapter capacity "@ + name@
                + " must be non-zero"@,
            FixLiveAdapterConfigError::SessionIdentity => "invalid FIX session identity"@,
        }
    }

    /// Renders the human-readable description of the error.
    pub fn to_string(&self) -> (r: String)
        ensures
            r@ == self.spec_text(),
    {
        match self {
            FixLiveAdapterConfigError::UnsupportedVersion => String::from_str(
                "unsupported FIX begin string",
            ),
            FixLiveAdapterConfigError::ProfileVersionMismatch => String::from_str(
                "FIX profile version differs from session begin string",
            ),
            FixLiveAdapterConfigError::SessionConfig => String::from_str(
                "invalid FIX session configuration",
            ),
            FixLiveAdapterConfigError::ZeroCapacity(name) => String::from_str(
                "FIX adapter capacity ",
            ).concat(name).concat(" must be non-zero"),
            FixLiveAdapterConfigError::SessionIdentity => String::from_str(
                "invalid FIX session identity",
            ),
        }
    }
}

/// Allocation-free operational counters for the live FIX adapter.
#[derive(Debug, Clone, Copy, Default, PartialEq, Eq, Structural)]
pub struct FixLiveAdapterMetrics {
    /// Transport frames received.
    pub frames_received: u64,
    /// Transport bytes received.
    pub bytes_received: u64,
    /// Original frames sent, excluding replay/gap-fill responses.
    pub frames_sent: u64,
    /// Original bytes sent.
    pub bytes_sent: u64,
    /// Canonical execution events emitted.
    pub events_emitted: u64,
    /// Malformed/profile-invalid inbound frames.
    pub inbound_errors: u64,
    /// Transport send failures.
    pub send_errors: u64,
    /// Out-of-order frames retained while recovering a gap.
    pub gap_frames_held: u64,
    /// Duplicate held frames suppressed.
    pub gap_frame_duplicates: u64,
    /// Held frames discarded because a SequenceReset advanced beyond them.
    pub gap_frames_discarded: u64,
    /// Replay frames sent for peer resend requests.
    pub replay_frames_sent: u64,
    /// Gap-fill frames sent for peer resend requests.
    pub gap_fill_frames_sent: u64,
    /// Peer resend requests rejected by configured work bounds.
    pub resend_requests_rejected: u64,
    /// Open-order recovery requests sent.
    pub recovery_requests_sent: u64,
    /// Session Reject `<3>` messages accepted and diagnosed.
    pub session_rejects: u64,
    /// BusinessMessageReject `<j>` messages accepted and diagnosed.
    pub business_rejects: u64,
    /// Latest non-negative exchange-to-local receive latency.
    pub last_exchange_to_receive_ns: u64,
    /// Maximum observed exchange-to-local receive latency.
    pub max_exchange_to_receive_ns: u64,
    /// Reports whose exchange timestamp was ahead of local receive time.
    pub exchange_clock_skew_reports: u64,
}

impl FixLiveAdapterMetrics {
    /// Folds the exchange-to-receive latency of one emitted report: a report
    /// without exchange time changes nothing; one received no earlier than
    /// its exchange time sets the latest latency and raises the maximum;
    /// one received before it counts as clock skew.
    pub fn record_receive_latency(&mut self, ts_exchange_ns: u64, ts_recv_ns: u64)
        ensures
            ts_exchange_ns == 0 ==> *final(self) == *old(self),
            ts_exchange_ns > 0 && ts_recv_ns >= ts_exchange_ns ==> *final(self) == (
            FixLiveAdapterMetrics {
                last_exchange_to_receive_ns: (ts_recv_ns - ts_exchange_ns) as u64,
                max_exchange_to_receive_ns: if old(self).max_exchange_to_receive_ns >= (ts_recv_ns
                    - ts_exchange_ns) {
                    old(self).max_exchange_to_receive_ns
                } else {
                    (ts_recv_ns - ts_exchange_ns) as u64
                },
                ..*old(self)
            }),
            ts_exchange_ns > 0 && ts_recv_ns < ts_exchange_ns ==> *final(self) == (
            FixLiveAdapterMetrics {
                exchange_clock_skew_reports: clamp_u64(old(self).exchange_clock_skew_reports + 1) as u64,
                ..*old(self)
            }),
    {
        if ts_exchange_ns > 0 {
            if ts_recv_ns >= ts_exchange_ns {
                let latency = ts_recv_ns - ts_exchange_ns;
                self.last_exchange_to_receive_ns = latency;
                if latency > self.max_exchange_to_receive_ns {
                    self.max_exchange_to_receive_ns = latency;
                }
            } else {
                self.exchange_clock_skew_reports = self.exchange_clock_skew_reports.saturating_add(1);
            }
        }
    }
}

/// The prefix of open-order recovery request identifiers, `OF-RECOVERY-`.
pub open spec fn spec_recovery_id_prefix() -> Seq<u8> {
    seq![79u8, 70, 45, 82, 69, 67, 79, 86, 69, 82, 89, 45]
}

/// Writes the open-order recovery request identifier
/// `OF-RECOVERY-{sequence}` at the start of `out` and returns its length;
/// the bytes after it are left as they were.
pub fn write_recovery_id(out: &mut [u8; 32], sequence: u64) -> (r: usize)
    ensures
        r == spec_recovery_id_prefix().len() + spec_decimal_ascii(sequence as nat).len(),
        final(out)@.take(r as int) == spec_recovery_id_prefix() + spec_decimal_ascii(
            sequence as nat,
        ),
        final(out)@.skip(r as int) == old(out)@.skip(r as int),
{
    let prefix: [u8; 12] = [79u8, 70, 45, 82, 69, 67, 79, 86, 69, 82, 89, 45];
    let mut digits: Vec<u8> = Vec::new();
    push_decimal(&mut digits, sequence);
    proof {
        assert(digits@ =~= spec_decimal_ascii(sequence as nat));
        assert(spec_pow10(20) == 100_000_000_000_000_000_000nat) by {
            reveal_with_fuel(spec_pow10, 21);
        }
        lemma_decimal_ascii(sequence as nat, 20);
        assert(prefix@ =~= spec_recovery_id_prefix());
    }
    let ghost text = spec_recovery_id_prefix() + spec_decimal_ascii(sequence as nat);
    let ghost before = out@;
    let total = 12 + digits.len();
    let mut i: usize = 0;
    while i < total
        invariant
            total == 12 + digits@.len(),
            total <= 32,
            digits@ == spec_decimal_ascii(sequence as nat),
            prefix@ == spec_recovery_id_prefix(),
            i <= total,
            text == prefix@ + digits@,
            before.len() == 32,
            out@.len() == 32,
            forall|k: int| 0 <= k < i ==> out@[k] == text[k],
            forall|k: int| total <= k < 32 ==> out@[k] == before[k],
        decreases total - i,
    {
        let b = if i < 12 {
            prefix[i]
        } else {
            digits[i - 12]
        };
        assert(text[i as int] == b);
        out[i] = b;
        i = i + 1;
    }
    proof {
        assert(out@.take(total as int) =~= text);
        assert(out@.skip(total as int) =~= before.skip(total as int));
    }
    total
}

} // verus!
