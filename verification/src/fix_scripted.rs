//! Bounded deterministic counterparty transport for adapter certification:
//! a FIFO of scripted inbound frames, an archive of sent frames, and one
//! injectable failure point.

use vstd::prelude::*;
use std::collections::VecDeque;
use crate::fix_certification::{FixScriptedTransportError, FixScriptedTransportFailure};
use crate::fix_live::{FixFrameTransport, FixTransportPoll};
use crate::arith::{spec_sat_add_usize, spec_sat_sub_usize};

verus! {

/// Bounded scripted counterparty transport configuration.
#[derive(Debug, Clone, Copy, PartialEq, Eq, Structural)]
pub struct FixScriptedTransportConfig {
    max_inbound_frames: usize,
    max_inbound_bytes: usize,
    max_outbound_frames: usize,
    max_outbound_bytes: usize,
}

impl FixScriptedTransportConfig {
    /// Maximum queued inbound frames.
    pub closed spec fn spec_max_inbound_frames(&self) -> usize {
        self.max_inbound_frames
    }

    /// Maximum queued inbound bytes.
    pub closed spec fn spec_max_inbound_bytes(&self) -> usize {
        self.max_inbound_bytes
    }

    /// Maximum retained outbound frames.
    pub closed spec fn spec_max_outbound_frames(&self) -> usize {
        self.max_outbound_frames
    }

    /// Maximum retained outbound bytes.
    pub closed spec fn spec_max_outbound_bytes(&self) -> usize {
        self.max_outbound_bytes
    }

    /// Whether every bound is positive.
    pub open spec fn spec_nonzero(&self) -> bool {
        &&& self.spec_max_inbound_frames() > 0
        &&& self.spec_max_inbound_bytes() > 0
        &&& self.spec_max_outbound_frames() > 0
        &&& self.spec_max_outbound_bytes() > 0
    }

    /// Creates transport bounds.
    pub fn new(
        max_inbound_frames: usize,
        max_inbound_bytes: usize,
        max_outbound_frames: usize,
        max_outbound_bytes: usize,
    ) -> (r: Self)
        ensures
            r.spec_max_inbound_frames() == max_inbound_frames,
            r.spec_max_inbound_bytes() == max_inbound_bytes,
            r.spec_max_outbound_frames() == max_outbound_frames,
            r.spec_max_outbound_bytes() == max_outbound_bytes,
    {
        Self { max_inbound_frames, max_inbound_bytes, max_outbound_frames, max_outbound_bytes }
    }
}

impl Default for FixScriptedTransportConfig {
    /// 1024 frames and 8 MiB in each direction.
    fn default() -> (r: Self)
        ensures
            r.spec_max_inbound_frames() == 1024,
            r.spec_max_inbound_bytes() == 8 * 1024 * 1024,
            r.spec_max_outbound_frames() == 1024,
            r.spec_max_outbound_bytes() == 8 * 1024 * 1024,
    {
        Self::new(1024, 8 * 1024 * 1024, 1024, 8 * 1024 * 1024)
    }
}

/// Bounded deterministic counterparty transport for adapter certification.
#[derive(Debug, Clone)]
pub struct FixScriptedTransport {
    config: FixScriptedTransportConfig,
    inbound: VecDeque<Vec<u8>>,
    inbound_bytes: usize,
    outbound: Vec<Vec<u8>>,
    outbound_bytes: usize,
    connected: bool,
    timestamp_ns: u64,
    failure: Option<FixScriptedTransportFailure>,
}

impl FixScriptedTransport {
    /// The configured bounds.
    pub closed spec fn spec_config(&self) -> FixScriptedTransportConfig {
        self.config
    }

    /// Queued inbound frames, next to be received first.
    pub closed spec fn spec_inbound(&self) -> Seq<Vec<u8>> {
        self.inbound@
    }

    /// Queued inbound byte count.
    pub closed spec fn spec_inbound_bytes(&self) -> usize {
        self.inbound_bytes
    }

    /// Retained outbound frames in send order.
    pub closed spec fn spec_outbound(&self) -> Seq<Vec<u8>> {
        self.outbound@
    }

    /// Retained outbound byte count.
    pub closed spec fn spec_outbound_bytes(&self) -> usize {
        self.outbound_bytes
    }

    /// Whether the physical test transport is connected.
    pub closed spec fn spec_connected(&self) -> bool {
        self.connected
    }

    /// The transcript capture time.
    pub closed spec fn spec_timestamp_ns(&self) -> u64 {
        self.timestamp_ns
    }

    /// The armed failure point, if any.
    pub closed spec fn spec_failure(&self) -> Option<FixScriptedTransportFailure> {
        self.failure
    }

    /// The transport holds no more than its bounds allow.
    pub open spec fn wf(&self) -> bool {
        &&& self.spec_config().spec_nonzero()
        &&& self.spec_inbound().len() <= self.spec_config().spec_max_inbound_frames()
        &&& self.spec_inbound_bytes() <= self.spec_config().spec_max_inbound_bytes()
        &&& self.spec_outbound().len() <= self.spec_config().spec_max_outbound_frames()
        &&& self.spec_outbound_bytes() <= self.spec_config().spec_max_outbound_bytes()
    }

    /// The transport after consuming an armed failure at `point`: the armed
    /// failure is cleared and everything else is kept.
    pub open spec fn spec_disarmed(before: &Self, after: &Self) -> bool {
        &&& after.spec_failure() is None
        &&& after.spec_config() == before.spec_config()
        &&& after.spec_inbound() == before.spec_inbound()
        &&& after.spec_inbound_bytes() == before.spec_inbound_bytes()
        &&& after.spec_outbound() == before.spec_outbound()
        &&& after.spec_outbound_bytes() == before.spec_outbound_bytes()
        &&& after.spec_connected() == before.spec_connected()
        &&& after.spec_timestamp_ns() == before.spec_timestamp_ns()
    }

    /// Creates an empty, disconnected scripted transport; a zero queue or
    /// byte bound is `ZeroCapacity`.
    pub fn new(config: FixScriptedTransportConfig) -> (r: Result<Self, FixScriptedTransportError>)
        ensures
            !config.spec_nonzero() ==> r == Err::<Self, FixScriptedTransportError>(
                FixScriptedTransportError::ZeroCapacity,
            ),
            config.spec_nonzero() ==> (r matches Ok(t) && {
                &&& t.wf()
                &&& t.spec_config() == config
                &&& t.spec_inbound().len() == 0
                &&& t.spec_inbound_bytes() == 0
                &&& t.spec_outbound().len() == 0
                &&& t.spec_outbound_bytes() == 0
                &&& !t.spec_connected()
                &&& t.spec_timestamp_ns() == 0
                &&& t.spec_failure() is None
            }),
    {
        if config.max_inbound_frames == 0 || config.max_inbound_bytes == 0
            || config.max_outbound_frames == 0 || config.max_outbound_bytes == 0 {
            return Err(FixScriptedTransportError::ZeroCapacity);
        }
        let inbound_capacity = if config.max_inbound_frames < 64 {
            config.max_inbound_frames
        } else {
            64
        };
        let outbound_capacity = if config.max_outbound_frames < 64 {
            config.max_outbound_frames
        } else {
            64
        };
        Ok(
            Self {
                config,
                inbound: VecDeque::with_capacity(inbound_capacity),
                inbound_bytes: 0,
                outbound: Vec::with_capacity(outbound_capacity),
                outbound_bytes: 0,
                connected: false,
                timestamp_ns: 0,
                failure: None,
            },
        )
    }

    /// Enqueues one complete inbound counterparty frame; when the frame or
    /// byte bound would be exceeded it is `InboundCapacity` and nothing
    /// changes.
    pub fn enqueue_inbound(&mut self, frame: Vec<u8>) -> (r: Result<(), FixScriptedTransportError>)
        ensures
            ({
                let full = old(self).spec_inbound().len() >= old(self).spec_config().spec_max_inbound_frames()
                    || spec_sat_add_usize(old(self).spec_inbound_bytes(), frame@.len() as usize)
                    > old(self).spec_config().spec_max_inbound_bytes();
                if full {
                    &&& r == Err::<(), FixScriptedTransportError>(
                        FixScriptedTransportError::InboundCapacity,
                    )
                    &&& *final(self) == *old(self)
                } else {
                    &&& r is Ok
                    &&& final(self).spec_inbound() == old(self).spec_inbound().push(frame)
                    &&& final(self).spec_inbound_bytes() == spec_sat_add_usize(
                        old(self).spec_inbound_bytes(),
                        frame@.len() as usize,
                    )
                    &&& final(self).spec_config() == old(self).spec_config()
                    &&& final(self).spec_outbound() == old(self).spec_outbound()
                    &&& final(self).spec_outbound_bytes() == old(self).spec_outbound_bytes()
                    &&& final(self).spec_connected() == old(self).spec_connected()
                    &&& final(self).spec_timestamp_ns() == old(self).spec_timestamp_ns()
                    &&& final(self).spec_failure() == old(self).spec_failure()
                }
            }),
            old(self).wf() ==> final(self).wf(),
    {
        let frame_len = frame.len();
        if self.inbound.len() >= self.config.max_inbound_frames
            || self.inbound_bytes.saturating_add(frame_len) > self.config.max_inbound_bytes {
            return Err(FixScriptedTransportError::InboundCapacity);
        }
        self.inbound_bytes = self.inbound_bytes.saturating_add(frame_len);
        self.inbound.push_back(frame);
        Ok(())
    }

    /// Injects one deterministic failure at the next matching operation.
    pub fn fail_next(&mut self, failure: FixScriptedTransportFailure)
        ensures
            final(self).spec_failure() == Some(failure),
            final(self).spec_config() == old(self).spec_config(),
            final(self).spec_inbound() == old(self).spec_inbound(),
            final(self).spec_inbound_bytes() == old(self).spec_inbound_bytes(),
            final(self).spec_outbound() == old(self).spec_outbound(),
            final(self).spec_outbound_bytes() == old(self).spec_outbound_bytes(),
            final(self).spec_connected() == old(self).spec_connected(),
            final(self).spec_timestamp_ns() == old(self).spec_timestamp_ns(),
    {
        self.failure = Some(failure);
    }

    /// Advances transcript capture time.
    pub fn set_timestamp_ns(&mut self, timestamp_ns: u64)
        ensures
            final(self).spec_timestamp_ns() == timestamp_ns,
            final(self).spec_config() == old(self).spec_config(),
            final(self).spec_inbound() == old(self).spec_inbound(),
            final(self).spec_inbound_bytes() == old(self).spec_inbound_bytes(),
            final(self).spec_outbound() == old(self).spec_outbound(),
            final(self).spec_outbound_bytes() == old(self).spec_outbound_bytes(),
            final(self).spec_connected() == old(self).spec_connected(),
            final(self).spec_failure() == old(self).spec_failure(),
    {
        self.timestamp_ns = timestamp_ns;
    }

    /// Returns whether the physical test transport is connected.
    pub fn is_connected(&self) -> (r: bool)
        ensures
            r == self.spec_connected(),
    {
        self.connected
    }

    /// Returns the queued inbound frame count.
    pub fn inbound_frames(&self) -> (r: usize)
        ensures
            r == self.spec_inbound().len(),
    {
        self.inbound.len()
    }

    /// Returns retained outbound frames in send order.
    pub fn outbound_frames(&self) -> (r: &[Vec<u8>])
        ensures
            r@ == self.spec_outbound(),
    {
        self.outbound.as_slice()
    }

    /// Clears sent frame retention.
    pub fn clear_outbound_frames(&mut self)
        ensures
            final(self).spec_outbound().len() == 0,
            final(self).spec_outbound_bytes() == 0,
            final(self).spec_config() == old(self).spec_config(),
            final(self).spec_inbound() == old(self).spec_inbound(),
            final(self).spec_inbound_bytes() == old(self).spec_inbound_bytes(),
            final(self).spec_connected() == old(self).spec_connected(),
            final(self).spec_timestamp_ns() == old(self).spec_timestamp_ns(),
            final(self).spec_failure() == old(self).spec_failure(),
            old(self).wf() ==> final(self).wf(),
    {
        self.outbound.clear();
        self.outbound_bytes = 0;
    }

    /// Consumes the failure armed at `point`: it is then `Injected(point)`
    /// and disarmed; otherwise nothing changes.
    fn take_failure(&mut self, point: FixScriptedTransportFailure) -> (r: Result<
        (),
        FixScriptedTransportError,
    >)
        ensures
            old(self).spec_failure() == Some(point) ==> r == Err::<(), FixScriptedTransportError>(
                FixScriptedTransportError::Injected(point),
            ) && Self::spec_disarmed(old(self), final(self)),
            old(self).spec_failure() != Some(point) ==> r is Ok && *final(self) == *old(self),
    {
        match self.failure {
            Some(armed) => {
                if armed == point {
                    self.failure = None;
                    return Err(FixScriptedTransportError::Injected(point));
                }
                Ok(())
            },
            None => Ok(()),
        }
    }
}

/// `after` differs from `before` in its connection flag at most.
pub open spec fn spec_same_queues(before: &FixScriptedTransport, after: &FixScriptedTransport) -> bool {
    &&& after.spec_config() == before.spec_config()
    &&& after.spec_inbound() == before.spec_inbound()
    &&& after.spec_inbound_bytes() == before.spec_inbound_bytes()
    &&& after.spec_outbound() == before.spec_outbound()
    &&& after.spec_outbound_bytes() == before.spec_outbound_bytes()
    &&& after.spec_timestamp_ns() == before.spec_timestamp_ns()
    &&& after.spec_failure() == before.spec_failure()
}

/// Whether a frame of `len` bytes no longer fits the outbound archive.
pub open spec fn spec_outbound_full(t: &FixScriptedTransport, len: nat) -> bool {
    t.spec_outbound().len() >= t.spec_config().spec_max_outbound_frames()
        || spec_sat_add_usize(t.spec_outbound_bytes(), len as usize)
        > t.spec_config().spec_max_outbound_bytes()
}

impl FixFrameTransport for FixScriptedTransport {
    type Error = FixScriptedTransportError;

    /// Connects, unless a connect failure is armed (then it is consumed and
    /// returned).
    fn connect(&mut self) -> (r: Result<(), FixScriptedTransportError>)
        ensures
            old(self).spec_failure() == Some(FixScriptedTransportFailure::Connect) ==> r
                == Err::<(), FixScriptedTransportError>(
                FixScriptedTransportError::Injected(FixScriptedTransportFailure::Connect),
            ) && FixScriptedTransport::spec_disarmed(old(self), final(self)),
            old(self).spec_failure() != Some(FixScriptedTransportFailure::Connect) ==> r is Ok
                && final(self).spec_connected() && spec_same_queues(old(self), final(self)),
            old(self).wf() ==> final(self).wf(),
    {
        match self.take_failure(FixScriptedTransportFailure::Connect) {
            Err(e) => {
                return Err(e);
            },
            Ok(()) => {},
        }
        self.connected = true;
        Ok(())
    }

    /// Archives one sent frame: refused with `Disconnected` when not
    /// connected, then with an armed send failure, then with
    /// `OutboundCapacity` when the archive bounds would be exceeded.
    fn send(&mut self, frame: &[u8]) -> (r: Result<(), FixScriptedTransportError>)
        ensures
            !old(self).spec_connected() ==> r == Err::<(), FixScriptedTransportError>(
                FixScriptedTransportError::Disconnected,
            ) && *final(self) == *old(self),
            old(self).spec_connected() && old(self).spec_failure() == Some(
                FixScriptedTransportFailure::Send,
            ) ==> r == Err::<(), FixScriptedTransportError>(
                FixScriptedTransportError::Injected(FixScriptedTransportFailure::Send),
            ) && FixScriptedTransport::spec_disarmed(old(self), final(self)),
            old(self).spec_connected() && old(self).spec_failure() != Some(
                FixScriptedTransportFailure::Send,
            ) && spec_outbound_full(old(self), frame@.len()) ==> r == Err::<
                (),
                FixScriptedTransportError,
            >(FixScriptedTransportError::OutboundCapacity) && *final(self) == *old(self),
            old(self).spec_connected() && old(self).spec_failure() != Some(
                FixScriptedTransportFailure::Send,
            ) && !spec_outbound_full(old(self), frame@.len()) ==> {
                &&& r is Ok
                &&& final(self).spec_outbound().len() == old(self).spec_outbound().len() + 1
                &&& final(self).spec_outbound().drop_last() == old(self).spec_outbound()
                &&& final(self).spec_outbound().last()@ == frame@
                &&& final(self).spec_outbound_bytes() == spec_sat_add_usize(
                    old(self).spec_outbound_bytes(),
                    frame@.len() as usize,
                )
                &&& final(self).spec_config() == old(self).spec_config()
                &&& final(self).spec_inbound() == old(self).spec_inbound()
                &&& final(self).spec_inbound_bytes() == old(self).spec_inbound_bytes()
                &&& final(self).spec_connected()
                &&& final(self).spec_timestamp_ns() == old(self).spec_timestamp_ns()
                &&& final(self).spec_failure() == old(self).spec_failure()
            },
            old(self).wf() ==> final(self).wf(),
    {
        if !self.connected {
            return Err(FixScriptedTransportError::Disconnected);
        }
        match self.take_failure(FixScriptedTransportFailure::Send) {
            Err(e) => {
                return Err(e);
            },
            Ok(()) => {},
        }
        let frame_len = frame.len();
        if self.outbound.len() >= self.config.max_outbound_frames
            || self.outbound_bytes.saturating_add(frame_len) > self.config.max_outbound_bytes {
            return Err(FixScriptedTransportError::OutboundCapacity);
        }
        self.outbound_bytes = self.outbound_bytes.saturating_add(frame_len);
        let copy = vstd::slice::slice_to_vec(frame);
        self.outbound.push(copy);
        Ok(())
    }

    /// Delivers the next scripted frame into `out`: refused with
    /// `Disconnected` when not connected, then with an armed receive
    /// failure; `Idle` when nothing is queued; `ReceiveBufferTooSmall` when
    /// the next frame does not fit `out` (it stays queued).
    fn poll_receive(&mut self, out: &mut [u8]) -> (r: Result<FixTransportPoll, FixScriptedTransportError>)
        ensures
            !old(self).spec_connected() ==> r == Err::<FixTransportPoll, FixScriptedTransportError>(
                FixScriptedTransportError::Disconnected,
            ) && *final(self) == *old(self) && final(out)@ == old(out)@,
            old(self).spec_connected() && old(self).spec_failure() == Some(
                FixScriptedTransportFailure::Receive,
            ) ==> r == Err::<FixTransportPoll, FixScriptedTransportError>(
                FixScriptedTransportError::Injected(FixScriptedTransportFailure::Receive),
            ) && FixScriptedTransport::spec_disarmed(old(self), final(self)) && final(out)@
                == old(out)@,
            old(self).spec_connected() && old(self).spec_failure() != Some(
                FixScriptedTransportFailure::Receive,
            ) && old(self).spec_inbound().len() == 0 ==> r == Ok::<
                FixTransportPoll,
                FixScriptedTransportError,
            >(FixTransportPoll::Idle) && *final(self) == *old(self) && final(out)@ == old(out)@,
            old(self).spec_connected() && old(self).spec_failure() != Some(
                FixScriptedTransportFailure::Receive,
            ) && old(self).spec_inbound().len() > 0 && old(self).spec_inbound()[0]@.len()
                > old(out)@.len() ==> r == Err::<FixTransportPoll, FixScriptedTransportError>(
                FixScriptedTransportError::ReceiveBufferTooSmall {
                    required: old(self).spec_inbound()[0]@.len() as usize,
                    available: old(out)@.len() as usize,
                },
            ) && *final(self) == *old(self) && final(out)@ == old(out)@,
            old(self).spec_connected() && old(self).spec_failure() != Some(
                FixScriptedTransportFailure::Receive,
            ) && old(self).spec_inbound().len() > 0 && old(self).spec_inbound()[0]@.len()
                <= old(out)@.len() ==> {
                let frame = old(self).spec_inbound()[0]@;
                &&& r == Ok::<FixTransportPoll, FixScriptedTransportError>(
                    FixTransportPoll::Frame { len: frame.len() as usize },
                )
                &&& final(out)@.len() == old(out)@.len()
                &&& final(out)@.subrange(0, frame.len() as int) == frame
                &&& final(out)@.subrange(frame.len() as int, old(out)@.len() as int)
                    == old(out)@.subrange(frame.len() as int, old(out)@.len() as int)
                &&& final(self).spec_inbound() == old(self).spec_inbound().drop_first()
                &&& final(self).spec_inbound_bytes() == spec_sat_sub_usize(
                    old(self).spec_inbound_bytes(),
                    frame.len() as usize,
                )
                &&& final(self).spec_config() == old(self).spec_config()
                &&& final(self).spec_outbound() == old(self).spec_outbound()
                &&& final(self).spec_outbound_bytes() == old(self).spec_outbound_bytes()
                &&& final(self).spec_connected()
                &&& final(self).spec_timestamp_ns() == old(self).spec_timestamp_ns()
                &&& final(self).spec_failure() == old(self).spec_failure()
            },
            old(self).wf() ==> final(self).wf(),
    {
        if !self.connected {
            return Err(FixScriptedTransportError::Disconnected);
        }
        match self.take_failure(FixScriptedTransportFailure::Receive) {
            Err(e) => {
                return Err(e);
            },
            Ok(()) => {},
        }
        if self.inbound.len() == 0 {
            return Ok(FixTransportPoll::Idle);
        }
        let required = self.inbound[0].len();
        if required > out.len() {
            return Err(
                FixScriptedTransportError::ReceiveBufferTooSmall {
                    required,
                    available: out.len(),
                },
            );
        }
        let frame = match self.inbound.pop_front() {
            Some(f) => f,
            None => {
                return Ok(FixTransportPoll::Idle);
            },
        };
        self.inbound_bytes = self.inbound_bytes.saturating_sub(frame.len());
        let len = frame.len();
        let ghost before = out@;
        let mut i: usize = 0;
        while i < len
            invariant
                len == frame@.len(),
                len <= out@.len(),
                out@.len() == before.len(),
                i <= len,
                forall|k: int| 0 <= k < i ==> out@[k] == frame@[k],
                forall|k: int| len <= k < out@.len() ==> out@[k] == before[k],
            decreases len - i,
        {
            out[i] = frame[i];
            i = i + 1;
        }
        proof {
            assert(out@.subrange(0, len as int) =~= frame@);
            assert(out@.subrange(len as int, out@.len() as int) =~= before.subrange(
                len as int,
                before.len() as int,
            ));
        }
        Ok(FixTransportPoll::Frame { len })
    }

    /// Disconnects, unless a disconnect failure is armed (then it is
    /// consumed and returned).
    fn disconnect(&mut self) -> (r: Result<(), FixScriptedTransportError>)
        ensures
            old(self).spec_failure() == Some(FixScriptedTransportFailure::Disconnect) ==> r
                == Err::<(), FixScriptedTransportError>(
                FixScriptedTransportError::Injected(FixScriptedTransportFailure::Disconnect),
            ) && FixScriptedTransport::spec_disarmed(old(self), final(self)),
            old(self).spec_failure() != Some(FixScriptedTransportFailure::Disconnect) ==> r is Ok
                && !final(self).spec_connected() && spec_same_queues(old(self), final(self)),
            old(self).wf() ==> final(self).wf(),
    {
        match self.take_failure(FixScriptedTransportFailure::Disconnect) {
            Err(e) => {
                return Err(e);
            },
            Ok(()) => {},
        }
        self.connected = false;
        Ok(())
    }
}

} // verus!
