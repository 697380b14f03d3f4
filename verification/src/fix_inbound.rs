//! Inbound sequencing of a live FIX adapter: the `MsgSeqNum(34)` of each
//! frame, and the out-of-order frames held while a sequence gap is
//! recovered, kept in sequence order, each sequence once, within a fixed
//! number of frame buffers.

use vstd::prelude::*;
use crate::arith::spec_sat_add_usize;
use crate::fix_model::{FixMessageFields, FixTag, MSG_SEQ_NUM_TAG};
use crate::fix_support::spec_is_digit;

verus! {

/// Why a frame's `MsgSeqNum(34)` was refused.
#[derive(Debug, Clone, Copy, PartialEq, Eq, Structural)]
pub enum FixSequenceNumberError {
    /// The frame has no `MsgSeqNum(34)`.
    Missing,
    /// `MsgSeqNum(34)` is empty.
    Empty,
    /// `MsgSeqNum(34)` holds a byte that is not a digit.
    Malformed,
    /// `MsgSeqNum(34)` does not fit `u64`.
    Overflow,
    /// `MsgSeqNum(34)` is zero.
    Zero,
}

impl FixSequenceNumberError {
    /// The human-readable description of the error.
    pub open spec fn spec_text(&self) -> Seq<char> {
        match self {
            FixSequenceNumberError::Missing => "FIX frame missing MsgSeqNum(34)"@,
            FixSequenceNumberError::Empty => "FIX MsgSeqNum(34) is empty"@,
            FixSequenceNumberError::Malformed => "FIX MsgSeqNum(34) is malformed"@,
            FixSequenceNumberError::Overflow => "FIX MsgSeqNum(34) overflow"@,
            FixSequenceNumberError::Zero => "FIX MsgSeqNum(34) must be non-zero"@,
        }
    }

    /// Renders the human-readable description of the error.
    pub fn to_string(&self) -> (r: String)
        ensures
            r@ == self.spec_text(),
    {
        match self {
            FixSequenceNumberError::Missing => String::from_str("FIX frame missing MsgSeqNum(34)"),
            FixSequenceNumberError::Empty => String::from_str("FIX MsgSeqNum(34) is empty"),
            FixSequenceNumberError::Malformed => String::from_str("FIX MsgSeqNum(34) is malformed"),
            FixSequenceNumberError::Overflow => String::from_str("FIX MsgSeqNum(34) overflow"),
            FixSequenceNumberError::Zero => String::from_str("FIX MsgSeqNum(34) must be non-zero"),
        }
    }
}

/// Reading the digits of `s` from index `i` onto `acc`: the first byte
/// that is not a digit is `Malformed`, the first digit that takes the
/// value past `u64::MAX` is `Overflow`, else the value.
pub open spec fn spec_scan_sequence(s: Seq<u8>, i: nat, acc: nat) -> Result<
    nat,
    FixSequenceNumberError,
>
    decreases s.len() - i,
{
    if i >= s.len() {
        Ok(acc)
    } else if !spec_is_digit(s[i as int]) {
        Err(FixSequenceNumberError::Malformed)
    } else if acc * 10 + (s[i as int] - 48) > u64::MAX {
        Err(FixSequenceNumberError::Overflow)
    } else {
        spec_scan_sequence(s, i + 1, (acc * 10 + (s[i as int] - 48)) as nat)
    }
}

/// The sequence number of a message: its first `MsgSeqNum(34)` field read
/// as a positive decimal `u64`.
pub open spec fn spec_message_sequence(message: FixMessageFields) -> Result<
    u64,
    FixSequenceNumberError,
> {
    match message.spec_get(FixTag(MSG_SEQ_NUM_TAG)) {
        None => Err(FixSequenceNumberError::Missing),
        Some(s) => if s.len() == 0 {
            Err(FixSequenceNumberError::Empty)
        } else {
            match spec_scan_sequence(s, 0, 0) {
                Err(e) => Err(e),
                Ok(v) => if v == 0 {
                    Err(FixSequenceNumberError::Zero)
                } else {
                    Ok(v as u64)
                },
            }
        },
    }
}

/// Reads the `MsgSeqNum(34)` of an inbound message.
pub fn parse_message_sequence(message: &FixMessageFields) -> (r: Result<
    u64,
    FixSequenceNumberError,
>)
    ensures
        r == spec_message_sequence(*message),
{
    let bytes = match message.get(FixTag(MSG_SEQ_NUM_TAG)) {
        Some(b) => b,
        None => {
            return Err(FixSequenceNumberError::Missing);
        },
    };
    if bytes.len() == 0 {
        return Err(FixSequenceNumberError::Empty);
    }
    let mut value: u64 = 0;
    let mut i: usize = 0;
    while i < bytes.len()
        invariant
            i <= bytes@.len(),
            bytes@.len() > 0,
            message.spec_get(FixTag(MSG_SEQ_NUM_TAG)) == Some(bytes@),
            spec_scan_sequence(bytes@, 0, 0) == spec_scan_sequence(bytes@, i as nat, value as nat),
        decreases bytes@.len() - i,
    {
        let byte = bytes[i];
        if byte < 48 || byte > 57 {
            return Err(FixSequenceNumberError::Malformed);
        }
        let digit: u64 = (byte - 48) as u64;
        if value > (u64::MAX - digit) / 10 {
            proof {
                assert(value * 10 + digit > u64::MAX) by (nonlinear_arith)
                    requires
                        value > (u64::MAX - digit) / 10,
                        digit <= 9,
                ;
            }
            return Err(FixSequenceNumberError::Overflow);
        }
        proof {
            assert(value * 10 + digit <= u64::MAX) by (nonlinear_arith)
                requires
                    value <= (u64::MAX - digit) / 10,
                    digit <= 9,
            ;
        }
        value = value * 10 + digit;
        i = i + 1;
    }
    if value == 0 {
        return Err(FixSequenceNumberError::Zero);
    }
    Ok(value)
}

/// One inbound frame held until its sequence number is due.
#[derive(Debug, Clone, PartialEq, Eq)]
pub struct FixHeldFrame {
    /// `MsgSeqNum(34)` of the frame.
    pub sequence: u64,
    /// The complete frame bytes.
    pub bytes: Vec<u8>,
}

/// Outcome of holding a frame.
#[derive(Debug, Clone, Copy, PartialEq, Eq, Structural)]
pub enum FixHoldOutcome {
    /// The frame is now held.
    Held,
    /// A frame with the same sequence is already held; nothing changed.
    Duplicate,
}

/// Every frame buffer is in use.
#[derive(Debug, Clone, Copy, PartialEq, Eq, Structural)]
pub struct FixGapBufferFull;

/// The sequences of held frames are strictly increasing.
pub open spec fn spec_sorted(frames: Seq<FixHeldFrame>) -> bool {
    forall|i: int, j: int| 0 <= i < j < frames.len() ==> frames[i].sequence < frames[j].sequence
}

/// The number of leading frames whose sequence is below `sequence`.
pub open spec fn spec_count_below(frames: Seq<FixHeldFrame>, sequence: u64) -> int
    decreases frames.len(),
{
    if frames.len() == 0 || frames[0].sequence >= sequence {
        0
    } else {
        1 + spec_count_below(frames.drop_first(), sequence)
    }
}

/// Whether a frame with `sequence` is held.
pub open spec fn spec_holds(frames: Seq<FixHeldFrame>, sequence: u64) -> bool {
    exists|i: int| 0 <= i < frames.len() && frames[i].sequence == sequence
}

/// In sorted frames, the count below `sequence` splits them into those
/// below it and those at or above it.
proof fn lemma_count_below(frames: Seq<FixHeldFrame>, sequence: u64)
    requires
        spec_sorted(frames),
    ensures
        0 <= spec_count_below(frames, sequence) <= frames.len(),
        forall|i: int|
            0 <= i < spec_count_below(frames, sequence) ==> #[trigger] frames[i].sequence
                < sequence,
        forall|i: int|
            spec_count_below(frames, sequence) <= i < frames.len() ==> #[trigger] frames[i].sequence
                >= sequence,
    decreases frames.len(),
{
    if frames.len() > 0 && frames[0].sequence < sequence {
        let rest = frames.drop_first();
        assert(spec_sorted(rest)) by {
            assert forall|i: int, j: int| 0 <= i < j < rest.len() implies rest[i].sequence
                < rest[j].sequence by {
                assert(rest[i] == frames[i + 1]);
                assert(rest[j] == frames[j + 1]);
            }
        }
        lemma_count_below(rest, sequence);
        assert forall|i: int| 0 <= i < spec_count_below(frames, sequence) implies #[trigger] frames[i].sequence
            < sequence by {
            if i > 0 {
                assert(frames[i] == rest[i - 1]);
            }
        }
        assert forall|i: int|
            spec_count_below(frames, sequence) <= i < frames.len() implies #[trigger] frames[i].sequence
            >= sequence by {
            assert(frames[i] == rest[i - 1]);
        }
    } else if frames.len() > 0 {
        assert forall|i: int| 0 <= i < frames.len() implies #[trigger] frames[i].sequence
            >= sequence by {
            if i > 0 {
                assert(frames[0].sequence < frames[i].sequence);
            }
        }
    }
}

/// The count below `sequence` is `i` when the frames before `i` are below
/// it and the frame at `i` (if any) is not.
proof fn lemma_count_below_at(frames: Seq<FixHeldFrame>, sequence: u64, i: int)
    requires
        0 <= i <= frames.len(),
        forall|k: int| 0 <= k < i ==> #[trigger] frames[k].sequence < sequence,
        i < frames.len() ==> frames[i].sequence >= sequence,
    ensures
        spec_count_below(frames, sequence) == i,
    decreases i,
{
    if i > 0 {
        let rest = frames.drop_first();
        assert forall|k: int| 0 <= k < i - 1 implies #[trigger] rest[k].sequence < sequence by {
            assert(rest[k] == frames[k + 1]);
        }
        if i < frames.len() {
            assert(rest[i - 1] == frames[i]);
        }
        lemma_count_below_at(rest, sequence, i - 1);
        assert(frames[0].sequence < sequence);
    }
}

/// Held gap frames in sequence order, within a fixed buffer count.
#[derive(Debug, Clone)]
pub struct FixGapFrames {
    frames: Vec<FixHeldFrame>,
    free_buffers: usize,
}

impl FixGapFrames {
    /// The held frames, lowest sequence first.
    pub closed spec fn spec_frames(&self) -> Seq<FixHeldFrame> {
        self.frames@
    }

    /// The number of frame buffers still free.
    pub closed spec fn spec_free(&self) -> usize {
        self.free_buffers
    }

    /// The held frames are in strictly increasing sequence order.
    pub open spec fn wf(&self) -> bool {
        spec_sorted(self.spec_frames())
    }

    /// Creates an empty buffer with `max_pending_gap_frames` frame buffers.
    pub fn new(max_pending_gap_frames: usize) -> (r: Self)
        ensures
            r.spec_frames().len() == 0,
            r.spec_free() == max_pending_gap_frames,
            r.wf(),
    {
        Self { frames: Vec::new(), free_buffers: max_pending_gap_frames }
    }

    /// Returns the number of held frames.
    pub fn len(&self) -> (r: usize)
        ensures
            r == self.spec_frames().len(),
    {
        self.frames.len()
    }

    /// Returns true when no frame is held.
    pub fn is_empty(&self) -> (r: bool)
        ensures
            r == (self.spec_frames().len() == 0),
    {
        self.frames.len() == 0
    }

    /// Holds a copy of `bytes` as the frame with `sequence`, in sequence
    /// order: a sequence already held is a `Duplicate` and changes nothing;
    /// without a free buffer it is `FixGapBufferFull` and changes nothing.
    pub fn hold(&mut self, sequence: u64, bytes: &[u8]) -> (r: Result<
        FixHoldOutcome,
        FixGapBufferFull,
    >)
        requires
            old(self).wf(),
        ensures
            final(self).wf(),
            spec_holds(old(self).spec_frames(), sequence) ==> r == Ok::<
                FixHoldOutcome,
                FixGapBufferFull,
            >(FixHoldOutcome::Duplicate) && *final(self) == *old(self),
            !spec_holds(old(self).spec_frames(), sequence) && old(self).spec_free() == 0 ==> r
                == Err::<FixHoldOutcome, FixGapBufferFull>(FixGapBufferFull) && *final(self)
                == *old(self),
            !spec_holds(old(self).spec_frames(), sequence) && old(self).spec_free() > 0 ==> {
                &&& r == Ok::<FixHoldOutcome, FixGapBufferFull>(FixHoldOutcome::Held)
                &&& final(self).spec_free() == old(self).spec_free() - 1
                &&& final(self).spec_frames().len() == old(self).spec_frames().len() + 1
                &&& final(self).spec_frames()[spec_count_below(old(self).spec_frames(), sequence)].sequence == sequence
                &&& final(self).spec_frames()[spec_count_below(old(self).spec_frames(), sequence)].bytes@ == bytes@
                &&& final(self).spec_frames().remove(spec_count_below(old(self).spec_frames(), sequence))
                    == old(self).spec_frames()
            },
    {
        let ghost frames = self.frames@;
        let mut i: usize = 0;
        while i < self.frames.len() && self.frames[i].sequence < sequence
            invariant
                i <= self.frames@.len(),
                self.frames@ == frames,
                forall|k: int| 0 <= k < i ==> #[trigger] frames[k].sequence < sequence,
            decreases self.frames@.len() - i,
        {
            i = i + 1;
        }
        proof {
            lemma_count_below_at(frames, sequence, i as int);
            lemma_count_below(frames, sequence);
        }
        if i < self.frames.len() && self.frames[i].sequence == sequence {
            return Ok(FixHoldOutcome::Duplicate);
        }
        proof {
            assert(!spec_holds(frames, sequence)) by {
                if spec_holds(frames, sequence) {
                    let j = choose|j: int| 0 <= j < frames.len() && frames[j].sequence == sequence;
                    if j < i {
                    } else if j > i {
                        assert(frames[i as int].sequence < frames[j].sequence);
                    }
                }
            }
        }
        if self.free_buffers == 0 {
            return Err(FixGapBufferFull);
        }
        let copy = vstd::slice::slice_to_vec(bytes);
        self.frames.insert(i, FixHeldFrame { sequence, bytes: copy });
        self.free_buffers = self.free_buffers - 1;
        proof {
            let n = self.frames@;
            assert(n.remove(i as int) =~= frames);
            assert forall|a: int, b: int| 0 <= a < b < n.len() implies n[a].sequence
                < n[b].sequence by {
                if b < i {
                    assert(n[a] == frames[a]);
                    assert(n[b] == frames[b]);
                } else if b == i {
                    assert(n[a] == frames[a]);
                } else if a < i {
                    assert(n[a] == frames[a]);
                    assert(n[b] == frames[b - 1]);
                } else if a == i {
                    assert(n[b] == frames[b - 1]);
                } else {
                    assert(n[a] == frames[a - 1]);
                    assert(n[b] == frames[b - 1]);
                }
            }
        }
        Ok(FixHoldOutcome::Held)
    }

    /// Releases every held frame whose sequence is below `expected` (a
    /// sequence reset moved past them), returning how many were released.
    pub fn discard_below(&mut self, expected: u64) -> (r: usize)
        requires
            old(self).wf(),
        ensures
            final(self).wf(),
            r == spec_count_below(old(self).spec_frames(), expected),
            final(self).spec_frames() == old(self).spec_frames().skip(r as int),
            final(self).spec_free() == spec_sat_add_usize(old(self).spec_free(), r),
    {
        let ghost frames = self.frames@;
        let mut count: usize = 0;
        while count < self.frames.len() && self.frames[count].sequence < expected
            invariant
                count <= self.frames@.len(),
                self.frames@ == frames,
                forall|k: int| 0 <= k < count ==> #[trigger] frames[k].sequence < expected,
            decreases self.frames@.len() - count,
        {
            count = count + 1;
        }
        proof {
            lemma_count_below_at(frames, expected, count as int);
        }
        let ghost free0 = self.free_buffers;
        let mut removed: usize = 0;
        while removed < count
            invariant
                self.free_buffers == free0,
                removed <= count,
                count <= frames.len(),
                self.frames@ == frames.skip(removed as int),
            decreases count - removed,
        {
            self.frames.remove(0);
            proof {
                assert(self.frames@ =~= frames.skip((removed + 1) as int));
            }
            removed = removed + 1;
        }
        self.free_buffers = self.free_buffers.saturating_add(count);
        proof {
            assert(spec_sorted(self.frames@)) by {
                assert forall|a: int, b: int| 0 <= a < b < self.frames@.len() implies self.frames@[a].sequence
                    < self.frames@[b].sequence by {
                    assert(self.frames@[a] == frames[a + count]);
                    assert(self.frames@[b] == frames[b + count]);
                }
            }
        }
        count
    }

    /// Takes the lowest held frame when its sequence is `expected`.
    pub fn take_ready(&mut self, expected: u64) -> (r: Option<Vec<u8>>)
        requires
            old(self).wf(),
        ensures
            final(self).wf(),
            old(self).spec_frames().len() > 0 && old(self).spec_frames()[0].sequence == expected
                ==> {
                &&& r matches Some(b) && b@ == old(self).spec_frames()[0].bytes@
                &&& final(self).spec_frames() == old(self).spec_frames().drop_first()
                &&& final(self).spec_free() == spec_sat_add_usize(
                    old(self).spec_free(),
                    1,
                )
            },
            !(old(self).spec_frames().len() > 0 && old(self).spec_frames()[0].sequence
                == expected) ==> r is None && *final(self) == *old(self),
    {
        if self.frames.len() == 0 || self.frames[0].sequence != expected {
            return None;
        }
        let frame = self.frames.remove(0);
        self.free_buffers = self.free_buffers.saturating_add(1);
        proof {
            assert(self.frames@ =~= old(self).spec_frames().drop_first());
            assert(spec_sorted(self.frames@)) by {
                assert forall|a: int, b: int| 0 <= a < b < self.frames@.len() implies self.frames@[a].sequence
                    < self.frames@[b].sequence by {
                    assert(self.frames@[a] == old(self).spec_frames()[a + 1]);
                    assert(self.frames@[b] == old(self).spec_frames()[b + 1]);
                }
            }
        }
        Some(frame.bytes)
    }
}

} // verus!
