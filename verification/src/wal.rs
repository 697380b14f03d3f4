//! Binary write-ahead-log frames: encoding, checked decoding, sequential
//! replay and integrity inspection.

use vstd::prelude::*;
use crate::arith::clamp_u64;
use crate::text::{decimal_string, hex_string, spec_decimal_text, spec_hex_text};

verus! {

/// Magic value written at the start of every execution WAL frame.
pub const EXECUTION_WAL_MAGIC: u32 = 0x4c57_464f;

/// Binary execution WAL frame version.
pub const EXECUTION_WAL_VERSION: u16 = 1;

/// Encoded execution WAL header length in bytes.
pub const EXECUTION_WAL_HEADER_LEN: usize = 80;

/// Maximum payload bytes accepted by the execution WAL frame helpers.
pub const EXECUTION_WAL_MAX_PAYLOAD_LEN: usize = 0xffff_ffff;

/// Offset of the header checksum inside the encoded header.
pub const EXECUTION_WAL_CHECKSUM_OFFSET: usize = 72;

/// FNV-1a offset basis.
pub const FNV_OFFSET_BASIS: u64 = 0xcbf2_9ce4_8422_2325;

/// FNV-1a prime.
pub const FNV_PRIME: u64 = 0x0000_0100_0000_01b3;

/// Execution WAL record checksum category.
#[derive(Debug, Clone, Copy, PartialEq, Eq, Hash, Structural)]
#[non_exhaustive]
pub enum WalChecksumField {
    /// Header checksum mismatch.
    Header,
    /// Payload checksum mismatch.
    Payload,
}

/// Monotonic execution WAL sequence number.
#[derive(Debug, Clone, Copy, PartialEq, Eq, PartialOrd, Ord, Hash, Default, Structural)]
pub struct WalSequence(pub u64);

impl WalSequence {
    /// The following sequence, saturating at `u64::MAX`.
    pub open spec fn spec_next(self) -> WalSequence {
        WalSequence(clamp_u64(self.0 + 1) as u64)
    }

    /// Returns the next sequence using saturating arithmetic.
    pub fn next(self) -> (r: Self)
        ensures
            r == self.spec_next(),
    {
        WalSequence(self.0.saturating_add(1))
    }
}

/// Execution WAL segment identifier.
#[derive(Debug, Clone, Copy, PartialEq, Eq, PartialOrd, Ord, Hash, Default, Structural)]
pub struct WalSegmentId(pub u64);

/// Error returned by execution WAL frame helpers.
#[derive(Debug, Clone, Copy, PartialEq, Eq, Structural)]
#[non_exhaustive]
pub enum ExecutionWalError {
    /// Output buffer was too small.
    BufferTooSmall {
        /// Required byte count.
        required: usize,
        /// Provided byte count.
        actual: usize,
    },
    /// Payload exceeds the WAL frame encoding limit.
    PayloadTooLarge {
        /// Maximum supported payload bytes.
        max: usize,
        /// Actual payload bytes.
        actual: usize,
    },
    /// Frame magic did not match the WAL magic.
    InvalidMagic {
        /// Magic value found in the frame.
        actual: u32,
    },
    /// Frame version is not supported by this crate.
    UnsupportedVersion {
        /// Expected version.
        expected: u16,
        /// Actual version.
        actual: u16,
    },
    /// Encoded header length is not supported.
    InvalidHeaderLength {
        /// Expected header length.
        expected: usize,
        /// Actual header length.
        actual: usize,
    },
    /// Record kind discriminant is unknown.
    UnknownRecordKind {
        /// Raw record-kind value.
        raw: u16,
    },
    /// Header or payload checksum did not match.
    ChecksumMismatch {
        /// Field that failed validation.
        field: WalChecksumField,
        /// Checksum stored in the frame.
        expected: u64,
        /// Checksum calculated from bytes.
        actual: u64,
    },
    /// Frame ended before the declared record length.
    TruncatedFrame {
        /// Required bytes to decode the frame.
        required: usize,
        /// Available bytes.
        actual: usize,
    },
    /// WAL sequence moved backward or repeated during strict replay.
    SequenceRegression {
        /// Previous accepted sequence.
        previous: WalSequence,
        /// Next decoded sequence.
        next: WalSequence,
    },
    /// WAL sequence skipped a value during strict replay.
    SequenceGap {
        /// Expected sequence.
        expected: WalSequence,
        /// Actual decoded sequence.
        actual: WalSequence,
    },
}

impl WalChecksumField {
    /// The field's name (`{:?}` formatting).
    pub open spec fn spec_name(&self) -> Seq<char> {
        match self {
            WalChecksumField::Header => "Header"@,
            WalChecksumField::Payload => "Payload"@,
        }
    }
}

/// `a` and `b` joined as `{prefix}{a}{middle}{b}` with decimal numbers.
pub open spec fn spec_two_numbers(prefix: Seq<char>, a: nat, middle: Seq<char>, b: nat) -> Seq<
    char,
> {
    prefix + spec_decimal_text(a) + middle + spec_decimal_text(b)
}

/// Renders `{prefix}{a}{middle}{b}` with decimal numbers.
fn two_numbers(prefix: &str, a: u64, middle: &str, b: u64) -> (r: String)
    ensures
        r@ == spec_two_numbers(prefix@, a as nat, middle@, b as nat),
{
    let a_text = decimal_string(a);
    let b_text = decimal_string(b);
    String::from_str(prefix).concat(a_text.as_str()).concat(middle).concat(b_text.as_str())
}

impl ExecutionWalError {
    /// The human-readable description of the error.
    pub open spec fn spec_text(&self) -> Seq<char> {
        match self {
            ExecutionWalError::BufferTooSmall { required, actual } => spec_two_numbers(
                "buffer too small: required "@,
                *required as nat,
                ", actual "@,
                *actual as nat,
            ),
            ExecutionWalError::PayloadTooLarge { max, actual } => spec_two_numbers(
                "WAL payload length "@,
                *actual as nat,
                " exceeds limit "@,
                *max as nat,
            ),
            ExecutionWalError::InvalidMagic { actual } => "invalid WAL magic "@ + spec_hex_text(
                *actual as nat,
            ),
            ExecutionWalError::UnsupportedVersion { expected, actual } => spec_two_numbers(
                "unsupported WAL version "@,
                *actual as nat,
                "; expected "@,
                *expected as nat,
            ),
            ExecutionWalError::InvalidHeaderLength { expected, actual } => spec_two_numbers(
                "invalid WAL header length "@,
                *actual as nat,
                "; expected "@,
                *expected as nat,
            ),
            ExecutionWalError::UnknownRecordKind { raw } => "unknown WAL record kind "@
                + spec_decimal_text(*raw as nat),
            ExecutionWalError::ChecksumMismatch { field, expected, actual } => field.spec_name()
                + " checksum mismatch: expected "@ + spec_hex_text(*expected as nat)
                + ", actual "@ + spec_hex_text(*actual as nat),
            ExecutionWalError::TruncatedFrame { required, actual } => spec_two_numbers(
                "truncated WAL frame: required "@,
                *required as nat,
                ", actual "@,
                *actual as nat,
            ),
            ExecutionWalError::SequenceRegression { previous, next } => spec_two_numbers(
                "WAL sequence regressed from "@,
                previous.0 as nat,
                " to "@,
                next.0 as nat,
            ),
            ExecutionWalError::SequenceGap { expected, actual } => spec_two_numbers(
                "WAL sequence gap: expected "@,
                expected.0 as nat,
                ", actual "@,
                actual.0 as nat,
            ),
        }
    }

    /// Renders the human-readable description of the error.
    pub fn to_string(&self) -> (r: String)
        ensures
            r@ == self.spec_text(),
    {
        match self {
            ExecutionWalError::BufferTooSmall { required, actual } => two_numbers(
                "buffer too small: required ",
                *required as u64,
                ", actual ",
                *actual as u64,
            ),
            ExecutionWalError::PayloadTooLarge { max, actual } => two_numbers(
                "WAL payload length ",
                *actual as u64,
                " exceeds limit ",
                *max as u64,
            ),
            ExecutionWalError::InvalidMagic { actual } => {
                let hex = hex_string(*actual as u64);
                String::from_str("invalid WAL magic ").concat(hex.as_str())
            },
            ExecutionWalError::UnsupportedVersion { expected, actual } => two_numbers(
                "unsupported WAL version ",
                *actual as u64,
                "; expected ",
                *expected as u64,
            ),
            ExecutionWalError::InvalidHeaderLength { expected, actual } => two_numbers(
                "invalid WAL header length ",
                *actual as u64,
                "; expected ",
                *expected as u64,
            ),
            ExecutionWalError::UnknownRecordKind { raw } => {
                let digits = decimal_string(*raw as u64);
                String::from_str("unknown WAL record kind ").concat(digits.as_str())
            },
            ExecutionWalError::ChecksumMismatch { field, expected, actual } => {
                let name = match field {
                    WalChecksumField::Header => "Header",
                    WalChecksumField::Payload => "Payload",
                };
                let e = hex_string(*expected);
                let a = hex_string(*actual);
                String::from_str(name).concat(" checksum mismatch: expected ").concat(
                    e.as_str(),
                ).concat(", actual ").concat(a.as_str())
            },
            ExecutionWalError::TruncatedFrame { required, actual } => two_numbers(
                "truncated WAL frame: required ",
                *required as u64,
                ", actual ",
                *actual as u64,
            ),
            ExecutionWalError::SequenceRegression { previous, next } => two_numbers(
                "WAL sequence regressed from ",
                previous.0,
                " to ",
                next.0,
            ),
            ExecutionWalError::SequenceGap { expected, actual } => two_numbers(
                "WAL sequence gap: expected ",
                expected.0,
                ", actual ",
                actual.0,
            ),
        }
    }
}

/// Execution WAL record kind.
#[derive(Debug, Clone, Copy, PartialEq, Eq, Hash, Structural)]
#[non_exhaustive]
pub enum WalRecordKind {
    /// New-order command payload.
    CommandSubmit,
    /// Cancel command payload.
    CommandCancel,
    /// Amend/cancel-replace command payload.
    CommandAmend,
    /// Venue or local execution-event payload.
    ExecutionEvent,
    /// Local risk rejection payload.
    RiskReject,
    /// Recovery or venue-restatement payload.
    RecoveryEvent,
    /// Marker tying the WAL to a durable checkpoint.
    CheckpointMarker,
    /// Marker sealing a segment.
    SegmentSeal,
    /// Liveness record with no state transition.
    Heartbeat,
}

/// Wire code of a record kind (1 through 9).
pub open spec fn spec_kind_code(k: WalRecordKind) -> u16 {
    match k {
        WalRecordKind::CommandSubmit => 1,
        WalRecordKind::CommandCancel => 2,
        WalRecordKind::CommandAmend => 3,
        WalRecordKind::ExecutionEvent => 4,
        WalRecordKind::RiskReject => 5,
        WalRecordKind::RecoveryEvent => 6,
        WalRecordKind::CheckpointMarker => 7,
        WalRecordKind::SegmentSeal => 8,
        WalRecordKind::Heartbeat => 9,
    }
}

/// Record kind of a wire code, or `None` for an unknown code.
pub open spec fn spec_kind_from_code(c: u16) -> Option<WalRecordKind> {
    if c == 1 {
        Some(WalRecordKind::CommandSubmit)
    } else if c == 2 {
        Some(WalRecordKind::CommandCancel)
    } else if c == 3 {
        Some(WalRecordKind::CommandAmend)
    } else if c == 4 {
        Some(WalRecordKind::ExecutionEvent)
    } else if c == 5 {
        Some(WalRecordKind::RiskReject)
    } else if c == 6 {
        Some(WalRecordKind::RecoveryEvent)
    } else if c == 7 {
        Some(WalRecordKind::CheckpointMarker)
    } else if c == 8 {
        Some(WalRecordKind::SegmentSeal)
    } else if c == 9 {
        Some(WalRecordKind::Heartbeat)
    } else {
        None
    }
}

impl WalRecordKind {
    /// Returns the wire code of the kind.
    pub fn code(self) -> (r: u16)
        ensures
            r == spec_kind_code(self),
    {
        match self {
            WalRecordKind::CommandSubmit => 1,
            WalRecordKind::CommandCancel => 2,
            WalRecordKind::CommandAmend => 3,
            WalRecordKind::ExecutionEvent => 4,
            WalRecordKind::RiskReject => 5,
            WalRecordKind::RecoveryEvent => 6,
            WalRecordKind::CheckpointMarker => 7,
            WalRecordKind::SegmentSeal => 8,
            WalRecordKind::Heartbeat => 9,
        }
    }

    /// Decodes a wire code; unknown codes fail with `UnknownRecordKind`.
    pub fn try_from_code(value: u16) -> (r: Result<Self, ExecutionWalError>)
        ensures
            match spec_kind_from_code(value) {
                Some(k) => r == Ok::<Self, ExecutionWalError>(k),
                None => r == Err::<Self, ExecutionWalError>(
                    ExecutionWalError::UnknownRecordKind { raw: value },
                ),
            },
    {
        match value {
            1 => Ok(WalRecordKind::CommandSubmit),
            2 => Ok(WalRecordKind::CommandCancel),
            3 => Ok(WalRecordKind::CommandAmend),
            4 => Ok(WalRecordKind::ExecutionEvent),
            5 => Ok(WalRecordKind::RiskReject),
            6 => Ok(WalRecordKind::RecoveryEvent),
            7 => Ok(WalRecordKind::CheckpointMarker),
            8 => Ok(WalRecordKind::SegmentSeal),
            9 => Ok(WalRecordKind::Heartbeat),
            raw => Err(ExecutionWalError::UnknownRecordKind { raw }),
        }
    }
}

/// Every kind survives a round trip through its wire code.
pub proof fn lemma_kind_code_round_trip(k: WalRecordKind)
    ensures
        spec_kind_from_code(spec_kind_code(k)) == Some(k),
{
}

/// Execution WAL durability policy.
#[derive(Debug, Clone, Copy, PartialEq, Eq, Hash, Structural)]
#[non_exhaustive]
pub enum WalSyncPolicy {
    /// Never call durable sync from the WAL writer.
    Never,
    /// Sync after every record.
    EveryRecord,
    /// Sync after every configured number of records.
    EveryNRecords(u32),
    /// Sync after the configured elapsed nanoseconds budget.
    EveryDurationNs(u64),
    /// Caller performs explicit sync operations.
    Manual,
    /// Sync at risk-sensitive boundaries such as accepted orders and fills.
    OnRiskBoundary,
}

// ---------------------------------------------------------------------------
// Byte-level encodings.

/// Little-endian bytes of a `u16`.
pub open spec fn le16(v: u16) -> Seq<u8> {
    seq![(v & 0xff) as u8, ((v >> 8u16) & 0xff) as u8]
}

/// Little-endian bytes of a `u32`.
pub open spec fn le32(v: u32) -> Seq<u8> {
    seq![
        (v & 0xff) as u8,
        ((v >> 8u32) & 0xff) as u8,
        ((v >> 16u32) & 0xff) as u8,
        ((v >> 24u32) & 0xff) as u8,
    ]
}

/// Little-endian bytes of a `u64`.
pub open spec fn le64(v: u64) -> Seq<u8> {
    seq![
        (v & 0xff) as u8,
        ((v >> 8u64) & 0xff) as u8,
        ((v >> 16u64) & 0xff) as u8,
        ((v >> 24u64) & 0xff) as u8,
        ((v >> 32u64) & 0xff) as u8,
        ((v >> 40u64) & 0xff) as u8,
        ((v >> 48u64) & 0xff) as u8,
        ((v >> 56u64) & 0xff) as u8,
    ]
}

/// Little-endian `u16` read at `o`.
pub open spec fn rd16(b: Seq<u8>, o: int) -> u16 {
    (b[o] as u16) | ((b[o + 1] as u16) << 8u16)
}

/// Little-endian `u32` read at `o`.
pub open spec fn rd32(b: Seq<u8>, o: int) -> u32 {
    (b[o] as u32) | ((b[o + 1] as u32) << 8u32) | ((b[o + 2] as u32) << 16u32) | ((b[o
        + 3] as u32) << 24u32)
}

/// Little-endian `u64` read at `o`.
pub open spec fn rd64(b: Seq<u8>, o: int) -> u64 {
    (b[o] as u64) | ((b[o + 1] as u64) << 8u64) | ((b[o + 2] as u64) << 16u64) | ((b[o
        + 3] as u64) << 24u64) | ((b[o + 4] as u64) << 32u64) | ((b[o + 5] as u64) << 40u64)
        | ((b[o + 6] as u64) << 48u64) | ((b[o + 7] as u64) << 56u64)
}

/// Reading back the little-endian bytes of a `u16` gives the value.
pub proof fn lemma_le16(v: u16)
    ensures
        rd16(le16(v), 0) == v,
{
    let b0 = (v & 0xff) as u8;
    let b1 = ((v >> 8u16) & 0xff) as u8;
    assert((b0 as u16) | ((b1 as u16) << 8u16) == v) by (bit_vector)
        requires
            b0 == (v & 0xff) as u8,
            b1 == ((v >> 8u16) & 0xff) as u8,
    ;
}

/// Reading back the little-endian bytes of a `u32` gives the value.
pub proof fn lemma_le32(v: u32)
    ensures
        rd32(le32(v), 0) == v,
{
    let b0 = (v & 0xff) as u8;
    let b1 = ((v >> 8u32) & 0xff) as u8;
    let b2 = ((v >> 16u32) & 0xff) as u8;
    let b3 = ((v >> 24u32) & 0xff) as u8;
    assert((b0 as u32) | ((b1 as u32) << 8u32) | ((b2 as u32) << 16u32) | ((b3 as u32)
        << 24u32) == v) by (bit_vector)
        requires
            b0 == (v & 0xff) as u8,
            b1 == ((v >> 8u32) & 0xff) as u8,
            b2 == ((v >> 16u32) & 0xff) as u8,
            b3 == ((v >> 24u32) & 0xff) as u8,
    ;
}

/// Reading back the little-endian bytes of a `u64` gives the value.
pub proof fn lemma_le64(v: u64)
    ensures
        rd64(le64(v), 0) == v,
{
    let b0 = (v & 0xff) as u8;
    let b1 = ((v >> 8u64) & 0xff) as u8;
    let b2 = ((v >> 16u64) & 0xff) as u8;
    let b3 = ((v >> 24u64) & 0xff) as u8;
    let b4 = ((v >> 32u64) & 0xff) as u8;
    let b5 = ((v >> 40u64) & 0xff) as u8;
    let b6 = ((v >> 48u64) & 0xff) as u8;
    let b7 = ((v >> 56u64) & 0xff) as u8;
    assert((b0 as u64) | ((b1 as u64) << 8u64) | ((b2 as u64) << 16u64) | ((b3 as u64)
        << 24u64) | ((b4 as u64) << 32u64) | ((b5 as u64) << 40u64) | ((b6 as u64) << 48u64)
        | ((b7 as u64) << 56u64) == v) by (bit_vector)
        requires
            b0 == (v & 0xff) as u8,
            b1 == ((v >> 8u64) & 0xff) as u8,
            b2 == ((v >> 16u64) & 0xff) as u8,
            b3 == ((v >> 24u64) & 0xff) as u8,
            b4 == ((v >> 32u64) & 0xff) as u8,
            b5 == ((v >> 40u64) & 0xff) as u8,
            b6 == ((v >> 48u64) & 0xff) as u8,
            b7 == ((v >> 56u64) & 0xff) as u8,
    ;
}

// ---------------------------------------------------------------------------
// Checksum.

/// FNV-1a hash of `bytes`.
pub open spec fn spec_fnv(bytes: Seq<u8>) -> u64
    decreases bytes.len(),
{
    if bytes.len() == 0 {
        FNV_OFFSET_BASIS
    } else {
        (spec_fnv(bytes.drop_last()) ^ (bytes.last() as u64)).wrapping_mul(FNV_PRIME)
    }
}

/// Returns the deterministic non-cryptographic checksum used by WAL frames
/// (64-bit FNV-1a).
pub fn execution_wal_checksum(bytes: &[u8]) -> (r: u64)
    ensures
        r == spec_fnv(bytes@),
{
    let mut hash = FNV_OFFSET_BASIS;
    let mut i: usize = 0;
    while i < bytes.len()
        invariant
            i <= bytes@.len(),
            hash == spec_fnv(bytes@.take(i as int)),
        decreases bytes@.len() - i,
    {
        assert(bytes@.take(i + 1).drop_last() =~= bytes@.take(i as int));
        hash = (hash ^ (bytes[i] as u64)).wrapping_mul(FNV_PRIME);
        i = i + 1;
    }
    assert(bytes@.take(i as int) =~= bytes@);
    hash
}

// ---------------------------------------------------------------------------
// Header.

/// Fixed-size execution WAL record header.
#[derive(Debug, Clone, Copy, PartialEq, Eq, Structural)]
#[non_exhaustive]
pub struct WalRecordHeader {
    /// WAL frame version.
    pub version: u16,
    /// Record kind.
    pub kind: WalRecordKind,
    /// Writer-defined flags.
    pub flags: u16,
    /// Payload length in bytes.
    pub payload_len: u32,
    /// Monotonic WAL sequence.
    pub sequence: WalSequence,
    /// Event or write timestamp in nanoseconds.
    pub timestamp_ns: u64,
    /// Optional route hash for sharding and diagnostics.
    pub route_hash: u64,
    /// Optional account hash for sharding and diagnostics.
    pub account_hash: u64,
    /// Optional symbol hash for sharding and diagnostics.
    pub symbol_hash: u64,
    /// Previous record checksum or sequence link.
    pub previous_checksum: u64,
    /// Payload checksum.
    pub payload_checksum: u64,
    /// Header checksum.
    pub header_checksum: u64,
}

/// Byte `i` of the encoded header; the header checksum slot is zero unless
/// `with_checksum`.
pub open spec fn spec_header_byte(h: WalRecordHeader, with_checksum: bool, i: int) -> u8 {
    if i < 4 {
        le32(EXECUTION_WAL_MAGIC)[i]
    } else if i < 6 {
        le16(h.version)[i - 4]
    } else if i < 8 {
        le16(spec_kind_code(h.kind))[i - 6]
    } else if i < 10 {
        le16(80u16)[i - 8]
    } else if i < 12 {
        le16(h.flags)[i - 10]
    } else if i < 16 {
        le32(h.payload_len)[i - 12]
    } else if i < 24 {
        le64(h.sequence.0)[i - 16]
    } else if i < 32 {
        le64(h.timestamp_ns)[i - 24]
    } else if i < 40 {
        le64(h.route_hash)[i - 32]
    } else if i < 48 {
        le64(h.account_hash)[i - 40]
    } else if i < 56 {
        le64(h.symbol_hash)[i - 48]
    } else if i < 64 {
        le64(h.previous_checksum)[i - 56]
    } else if i < 72 {
        le64(h.payload_checksum)[i - 64]
    } else {
        le64(if with_checksum { h.header_checksum } else { 0u64 })[i - 72]
    }
}

/// The 80 encoded header bytes.
pub open spec fn spec_header_bytes(h: WalRecordHeader, with_checksum: bool) -> Seq<u8> {
    Seq::new(80, |i: int| spec_header_byte(h, with_checksum, i))
}

/// Checksum over the first 72 header bytes (everything but the header
/// checksum itself).
pub open spec fn spec_header_checksum(h: WalRecordHeader) -> u64 {
    spec_fnv(spec_header_bytes(h, false).take(72))
}

/// The header with its checksum recomputed.
pub open spec fn spec_refreshed(h: WalRecordHeader) -> WalRecordHeader {
    WalRecordHeader { header_checksum: spec_header_checksum(h), ..h }
}

/// Both checksums of `h` describe `payload` and the header.
pub open spec fn spec_checksums_valid(h: WalRecordHeader, payload: Seq<u8>) -> bool {
    &&& h.payload_checksum == spec_fnv(payload)
    &&& h.header_checksum == spec_header_checksum(h)
}

/// Checksum validation outcome: the payload checksum is checked first.
pub open spec fn spec_validate_checksums(h: WalRecordHeader, payload: Seq<u8>) -> Result<
    (),
    ExecutionWalError,
> {
    if h.payload_checksum != spec_fnv(payload) {
        Err(
            ExecutionWalError::ChecksumMismatch {
                field: WalChecksumField::Payload,
                expected: h.payload_checksum,
                actual: spec_fnv(payload),
            },
        )
    } else if h.header_checksum != spec_header_checksum(h) {
        Err(
            ExecutionWalError::ChecksumMismatch {
                field: WalChecksumField::Header,
                expected: h.header_checksum,
                actual: spec_header_checksum(h),
            },
        )
    } else {
        Ok(())
    }
}

/// Decodes the first 80 bytes of `b` as a header.
pub open spec fn spec_decode_header(b: Seq<u8>) -> Result<WalRecordHeader, ExecutionWalError> {
    let magic = rd32(b, 0);
    let version = rd16(b, 4);
    let header_len = rd16(b, 8);
    if magic != EXECUTION_WAL_MAGIC {
        Err(ExecutionWalError::InvalidMagic { actual: magic })
    } else if version != EXECUTION_WAL_VERSION {
        Err(
            ExecutionWalError::UnsupportedVersion {
                expected: EXECUTION_WAL_VERSION,
                actual: version,
            },
        )
    } else if header_len != 80 {
        Err(
            ExecutionWalError::InvalidHeaderLength {
                expected: EXECUTION_WAL_HEADER_LEN,
                actual: header_len as usize,
            },
        )
    } else {
        match spec_kind_from_code(rd16(b, 6)) {
            None => Err(ExecutionWalError::UnknownRecordKind { raw: rd16(b, 6) }),
            Some(kind) => Ok(
                WalRecordHeader {
                    version,
                    kind,
                    flags: rd16(b, 10),
                    payload_len: rd32(b, 12),
                    sequence: WalSequence(rd64(b, 16)),
                    timestamp_ns: rd64(b, 24),
                    route_hash: rd64(b, 32),
                    account_hash: rd64(b, 40),
                    symbol_hash: rd64(b, 48),
                    previous_checksum: rd64(b, 56),
                    payload_checksum: rd64(b, 64),
                    header_checksum: rd64(b, 72),
                },
            ),
        }
    }
}

/// The encoded frame of a header and payload.
pub open spec fn spec_frame(h: WalRecordHeader, payload: Seq<u8>) -> Seq<u8> {
    spec_header_bytes(h, true) + payload
}

/// Decodes one frame from the start of `b`: the header, the payload and the
/// number of bytes consumed.
pub open spec fn spec_decode(b: Seq<u8>) -> Result<
    (WalRecordHeader, Seq<u8>, int),
    ExecutionWalError,
> {
    if b.len() < 80 {
        Err(ExecutionWalError::TruncatedFrame { required: 80, actual: b.len() as usize })
    } else {
        match spec_decode_header(b.take(80)) {
            Err(e) => Err(e),
            Ok(h) => {
                let required = 80 + h.payload_len;
                if b.len() < required {
                    Err(
                        ExecutionWalError::TruncatedFrame {
                            required: required as usize,
                            actual: b.len() as usize,
                        },
                    )
                } else {
                    let payload = b.subrange(80, required);
                    match spec_validate_checksums(h, payload) {
                        Err(e) => Err(e),
                        Ok(_) => Ok((h, payload, required)),
                    }
                }
            },
        }
    }
}

/// A little-endian `u16` field reads back.
proof fn lemma_field16(b: Seq<u8>, o: int, v: u16)
    requires
        0 <= o,
        o + 2 <= b.len(),
        b[o] == le16(v)[0],
        b[o + 1] == le16(v)[1],
    ensures
        rd16(b, o) == v,
{
    lemma_le16(v);
}

/// A little-endian `u32` field reads back.
proof fn lemma_field32(b: Seq<u8>, o: int, v: u32)
    requires
        0 <= o,
        o + 4 <= b.len(),
        forall|k: int| 0 <= k < 4 ==> b[o + k] == #[trigger] le32(v)[k],
    ensures
        rd32(b, o) == v,
{
    lemma_le32(v);
    assert(b[o] == le32(v)[0]);
    assert(b[o + 1] == le32(v)[1]);
    assert(b[o + 2] == le32(v)[2]);
    assert(b[o + 3] == le32(v)[3]);
}

/// A little-endian `u64` field reads back.
proof fn lemma_field64(b: Seq<u8>, o: int, v: u64)
    requires
        0 <= o,
        o + 8 <= b.len(),
        forall|k: int| 0 <= k < 8 ==> b[o + k] == #[trigger] le64(v)[k],
    ensures
        rd64(b, o) == v,
{
    lemma_le64(v);
    assert(b[o] == le64(v)[0]);
    assert(b[o + 1] == le64(v)[1]);
    assert(b[o + 2] == le64(v)[2]);
    assert(b[o + 3] == le64(v)[3]);
    assert(b[o + 4] == le64(v)[4]);
    assert(b[o + 5] == le64(v)[5]);
    assert(b[o + 6] == le64(v)[6]);
    assert(b[o + 7] == le64(v)[7]);
}

proof fn lemma_header_prefix_fields(h: WalRecordHeader, b: Seq<u8>)
    requires
        b.len() >= 80,
        forall|i: int| 0 <= i < 80 ==> b[i] == spec_header_byte(h, true, i),
    ensures
        rd32(b, 0) == EXECUTION_WAL_MAGIC,
        rd16(b, 4) == h.version,
        rd16(b, 6) == spec_kind_code(h.kind),
        rd16(b, 8) == 80,
        rd16(b, 10) == h.flags,
        rd32(b, 12) == h.payload_len,
{
    assert(b[0] == spec_header_byte(h, true, 0));
    assert(b[1] == spec_header_byte(h, true, 1));
    assert(b[2] == spec_header_byte(h, true, 2));
    assert(b[3] == spec_header_byte(h, true, 3));
    lemma_field32(b, 0, EXECUTION_WAL_MAGIC);
    assert(b[4] == spec_header_byte(h, true, 4));
    assert(b[5] == spec_header_byte(h, true, 5));
    lemma_field16(b, 4, h.version);
    assert(b[6] == spec_header_byte(h, true, 6));
    assert(b[7] == spec_header_byte(h, true, 7));
    lemma_field16(b, 6, spec_kind_code(h.kind));
    assert(b[8] == spec_header_byte(h, true, 8));
    assert(b[9] == spec_header_byte(h, true, 9));
    lemma_field16(b, 8, 80u16);
    assert(b[10] == spec_header_byte(h, true, 10));
    assert(b[11] == spec_header_byte(h, true, 11));
    lemma_field16(b, 10, h.flags);
    assert forall|k: int| 0 <= k < 4 implies b[12 + k] == #[trigger] le32(h.payload_len)[k] by {
        assert(b[12 + k] == spec_header_byte(h, true, 12 + k));
    }
    lemma_field32(b, 12, h.payload_len);
}

proof fn lemma_header_u64_field(h: WalRecordHeader, b: Seq<u8>, o: int, v: u64)
    requires
        b.len() >= 80,
        forall|i: int| 0 <= i < 80 ==> b[i] == spec_header_byte(h, true, i),
        o == 16 || o == 24 || o == 32 || o == 40 || o == 48 || o == 56 || o == 64 || o == 72,
        o == 16 ==> v == h.sequence.0,
        o == 24 ==> v == h.timestamp_ns,
        o == 32 ==> v == h.route_hash,
        o == 40 ==> v == h.account_hash,
        o == 48 ==> v == h.symbol_hash,
        o == 56 ==> v == h.previous_checksum,
        o == 64 ==> v == h.payload_checksum,
        o == 72 ==> v == h.header_checksum,
    ensures
        rd64(b, o) == v,
{
    assert forall|k: int| 0 <= k < 8 implies b[o + k] == #[trigger] le64(v)[k] by {
        assert(b[o + k] == spec_header_byte(h, true, o + k));
    }
    lemma_field64(b, o, v);
}

/// The header bytes decode back to the header.
pub proof fn lemma_header_round_trip(h: WalRecordHeader, b: Seq<u8>)
    requires
        h.version == EXECUTION_WAL_VERSION,
        b.len() >= 80,
        forall|i: int| 0 <= i < 80 ==> b[i] == spec_header_byte(h, true, i),
    ensures
        spec_decode_header(b) == Ok::<WalRecordHeader, ExecutionWalError>(h),
{
    lemma_header_prefix_fields(h, b);
    lemma_header_u64_field(h, b, 16, h.sequence.0);
    lemma_header_u64_field(h, b, 24, h.timestamp_ns);
    lemma_header_u64_field(h, b, 32, h.route_hash);
    lemma_header_u64_field(h, b, 40, h.account_hash);
    lemma_header_u64_field(h, b, 48, h.symbol_hash);
    lemma_header_u64_field(h, b, 56, h.previous_checksum);
    lemma_header_u64_field(h, b, 64, h.payload_checksum);
    lemma_header_u64_field(h, b, 72, h.header_checksum);
    lemma_kind_code_round_trip(h.kind);
}

// ---------------------------------------------------------------------------
// Header construction and checksums.

fn push_u16(v: &mut Vec<u8>, x: u16)
    ensures
        final(v)@ == old(v)@ + le16(x),
{
    v.push((x & 0xff) as u8);
    v.push(((x >> 8u16) & 0xff) as u8);
    assert(v@ =~= old(v)@ + le16(x));
}

fn push_u32(v: &mut Vec<u8>, x: u32)
    ensures
        final(v)@ == old(v)@ + le32(x),
{
    v.push((x & 0xff) as u8);
    v.push(((x >> 8u32) & 0xff) as u8);
    v.push(((x >> 16u32) & 0xff) as u8);
    v.push(((x >> 24u32) & 0xff) as u8);
    assert(v@ =~= old(v)@ + le32(x));
}

fn push_u64(v: &mut Vec<u8>, x: u64)
    ensures
        final(v)@ == old(v)@ + le64(x),
{
    v.push((x & 0xff) as u8);
    v.push(((x >> 8u64) & 0xff) as u8);
    v.push(((x >> 16u64) & 0xff) as u8);
    v.push(((x >> 24u64) & 0xff) as u8);
    v.push(((x >> 32u64) & 0xff) as u8);
    v.push(((x >> 40u64) & 0xff) as u8);
    v.push(((x >> 48u64) & 0xff) as u8);
    v.push(((x >> 56u64) & 0xff) as u8);
    assert(v@ =~= old(v)@ + le64(x));
}

proof fn lemma_prefix_extend(prev: Seq<u8>, piece: Seq<u8>, h: WalRecordHeader, w: bool)
    requires
        forall|i: int| 0 <= i < prev.len() ==> prev[i] == spec_header_byte(h, w, i),
        forall|k: int|
            0 <= k < piece.len() ==> piece[k] == #[trigger] spec_header_byte(
                h,
                w,
                prev.len() + k,
            ),
    ensures
        forall|i: int|
            0 <= i < (prev + piece).len() ==> (prev + piece)[i] == spec_header_byte(h, w, i),
{
    assert forall|i: int| 0 <= i < (prev + piece).len() implies (prev + piece)[i]
        == spec_header_byte(h, w, i) by {
        if i >= prev.len() {
            let k = i - prev.len();
            assert(piece[k] == spec_header_byte(h, w, prev.len() + k));
        }
    }
}

/// Encodes the 80 header bytes; the header checksum slot is zero unless
/// `with_checksum`.
fn header_bytes(h: &WalRecordHeader, with_checksum: bool) -> (r: Vec<u8>)
    ensures
        r@ == spec_header_bytes(*h, with_checksum),
{
    let mut v: Vec<u8> = Vec::new();
    let ghost w = with_checksum;
    push_u32(&mut v, EXECUTION_WAL_MAGIC);
    proof { lemma_prefix_extend(Seq::empty(), le32(EXECUTION_WAL_MAGIC), *h, w); }
    let ghost p = v@;
    push_u16(&mut v, h.version);
    proof { lemma_prefix_extend(p, le16(h.version), *h, w); }
    let ghost p = v@;
    push_u16(&mut v, h.kind.code());
    proof { lemma_prefix_extend(p, le16(spec_kind_code(h.kind)), *h, w); }
    let ghost p = v@;
    push_u16(&mut v, 80u16);
    proof { lemma_prefix_extend(p, le16(80u16), *h, w); }
    let ghost p = v@;
    push_u16(&mut v, h.flags);
    proof { lemma_prefix_extend(p, le16(h.flags), *h, w); }
    let ghost p = v@;
    push_u32(&mut v, h.payload_len);
    proof { lemma_prefix_extend(p, le32(h.payload_len), *h, w); }
    let ghost p = v@;
    push_u64(&mut v, h.sequence.0);
    proof { lemma_prefix_extend(p, le64(h.sequence.0), *h, w); }
    let ghost p = v@;
    push_u64(&mut v, h.timestamp_ns);
    proof { lemma_prefix_extend(p, le64(h.timestamp_ns), *h, w); }
    let ghost p = v@;
    push_u64(&mut v, h.route_hash);
    proof { lemma_prefix_extend(p, le64(h.route_hash), *h, w); }
    let ghost p = v@;
    push_u64(&mut v, h.account_hash);
    proof { lemma_prefix_extend(p, le64(h.account_hash), *h, w); }
    let ghost p = v@;
    push_u64(&mut v, h.symbol_hash);
    proof { lemma_prefix_extend(p, le64(h.symbol_hash), *h, w); }
    let ghost p = v@;
    push_u64(&mut v, h.previous_checksum);
    proof { lemma_prefix_extend(p, le64(h.previous_checksum), *h, w); }
    let ghost p = v@;
    push_u64(&mut v, h.payload_checksum);
    proof { lemma_prefix_extend(p, le64(h.payload_checksum), *h, w); }
    let ghost p = v@;
    let last = if with_checksum { h.header_checksum } else { 0u64 };
    push_u64(&mut v, last);
    proof { lemma_prefix_extend(p, le64(last), *h, w); }
    assert(v@ =~= spec_header_bytes(*h, with_checksum));
    v
}

impl WalRecordHeader {
    /// The header as `new` builds it for a payload.
    pub open spec fn spec_new(
        kind: WalRecordKind,
        sequence: WalSequence,
        timestamp_ns: u64,
        payload: Seq<u8>,
    ) -> WalRecordHeader {
        spec_refreshed(
            WalRecordHeader {
                version: EXECUTION_WAL_VERSION,
                kind,
                flags: 0,
                payload_len: payload.len() as u32,
                sequence,
                timestamp_ns,
                route_hash: 0,
                account_hash: 0,
                symbol_hash: 0,
                previous_checksum: 0,
                payload_checksum: spec_fnv(payload),
                header_checksum: 0,
            },
        )
    }

    /// Creates a header for `payload`; payloads longer than `u32::MAX`
    /// bytes are refused with `PayloadTooLarge`.
    pub fn new(kind: WalRecordKind, sequence: WalSequence, timestamp_ns: u64, payload: &[u8]) -> (r:
        Result<Self, ExecutionWalError>)
        ensures
            payload@.len() > EXECUTION_WAL_MAX_PAYLOAD_LEN ==> r == Err::<Self, ExecutionWalError>(
                ExecutionWalError::PayloadTooLarge {
                    max: EXECUTION_WAL_MAX_PAYLOAD_LEN,
                    actual: payload@.len() as usize,
                },
            ),
            payload@.len() <= EXECUTION_WAL_MAX_PAYLOAD_LEN ==> r == Ok::<Self, ExecutionWalError>(
                Self::spec_new(kind, sequence, timestamp_ns, payload@),
            ),
    {
        if payload.len() > EXECUTION_WAL_MAX_PAYLOAD_LEN {
            return Err(
                ExecutionWalError::PayloadTooLarge {
                    max: EXECUTION_WAL_MAX_PAYLOAD_LEN,
                    actual: payload.len(),
                },
            );
        }
        let header = Self {
            version: EXECUTION_WAL_VERSION,
            kind,
            flags: 0,
            payload_len: payload.len() as u32,
            sequence,
            timestamp_ns,
            route_hash: 0,
            account_hash: 0,
            symbol_hash: 0,
            previous_checksum: 0,
            payload_checksum: execution_wal_checksum(payload),
            header_checksum: 0,
        };
        Ok(header.refreshed())
    }

    /// Returns a copy with the header checksum recomputed.
    fn refreshed(self) -> (r: Self)
        ensures
            r == spec_refreshed(self),
    {
        let checksum = self.compute_header_checksum();
        WalRecordHeader { header_checksum: checksum, ..self }
    }

    /// Sets writer-defined flags and refreshes the header checksum.
    pub fn with_flags(self, flags: u16) -> (r: Self)
        ensures
            r == spec_refreshed(WalRecordHeader { flags, ..self }),
    {
        WalRecordHeader { flags, ..self }.refreshed()
    }

    /// Sets route/account/symbol hashes and refreshes the header checksum.
    pub fn with_hashes(self, route_hash: u64, account_hash: u64, symbol_hash: u64) -> (r: Self)
        ensures
            r == spec_refreshed(WalRecordHeader { route_hash, account_hash, symbol_hash, ..self }),
    {
        WalRecordHeader { route_hash, account_hash, symbol_hash, ..self }.refreshed()
    }

    /// Sets the previous checksum link and refreshes the header checksum.
    pub fn with_previous_checksum(self, previous_checksum: u64) -> (r: Self)
        ensures
            r == spec_refreshed(WalRecordHeader { previous_checksum, ..self }),
    {
        WalRecordHeader { previous_checksum, ..self }.refreshed()
    }

    /// Returns total encoded frame length for this header.
    pub fn frame_len(&self) -> (r: usize)
        ensures
            r == (80 + self.payload_len) as usize,
    {
        (80u64 + self.payload_len as u64) as usize
    }

    /// Computes the checksum of the header bytes with the checksum slot
    /// zeroed.
    pub fn compute_header_checksum(&self) -> (r: u64)
        ensures
            r == spec_header_checksum(*self),
    {
        let bytes = header_bytes(self, false);
        let prefix = bytes.as_slice().split_at(EXECUTION_WAL_CHECKSUM_OFFSET).0;
        assert(prefix@ =~= spec_header_bytes(*self, false).take(72));
        execution_wal_checksum(prefix)
    }

    /// Validates both checksums against `payload`, payload first.
    pub fn validate_checksums(&self, payload: &[u8]) -> (r: Result<(), ExecutionWalError>)
        ensures
            r == spec_validate_checksums(*self, payload@),
    {
        let actual_payload = execution_wal_checksum(payload);
        if self.payload_checksum != actual_payload {
            return Err(
                ExecutionWalError::ChecksumMismatch {
                    field: WalChecksumField::Payload,
                    expected: self.payload_checksum,
                    actual: actual_payload,
                },
            );
        }
        let actual_header = self.compute_header_checksum();
        if self.header_checksum != actual_header {
            return Err(
                ExecutionWalError::ChecksumMismatch {
                    field: WalChecksumField::Header,
                    expected: self.header_checksum,
                    actual: actual_header,
                },
            );
        }
        Ok(())
    }
}

/// A refreshed header carries a valid header checksum: the checksum covers
/// the first 72 bytes, which do not contain the checksum slot.
pub proof fn lemma_refreshed_valid(h: WalRecordHeader)
    ensures
        spec_refreshed(h).header_checksum == spec_header_checksum(spec_refreshed(h)),
{
    let r = spec_refreshed(h);
    assert(spec_header_bytes(r, false).take(72) =~= spec_header_bytes(h, false).take(72));
}

// ---------------------------------------------------------------------------
// Records.

/// Borrowed execution WAL record.
#[derive(Debug, Clone, Copy, PartialEq, Eq)]
#[non_exhaustive]
pub struct WalRecordView<'a> {
    /// Decoded WAL header.
    pub header: WalRecordHeader,
    /// Borrowed payload bytes.
    pub payload: &'a [u8],
}

impl<'a> WalRecordView<'a> {
    /// Creates a borrowed WAL record and computes its checksums.
    pub fn new(kind: WalRecordKind, sequence: WalSequence, timestamp_ns: u64, payload: &'a [u8]) -> (r:
        Result<Self, ExecutionWalError>)
        ensures
            match WalRecordHeader::new_result(kind, sequence, timestamp_ns, payload@) {
                Ok(h) => r matches Ok(v) && v.header == h && v.payload@ == payload@,
                Err(e) => r == Err::<Self, ExecutionWalError>(e),
            },
    {
        match WalRecordHeader::new(kind, sequence, timestamp_ns, payload) {
            Ok(header) => Ok(Self { header, payload }),
            Err(e) => Err(e),
        }
    }

    /// Creates a borrowed WAL record from an existing header and payload,
    /// refusing a length mismatch and invalid checksums.
    pub fn from_header(header: WalRecordHeader, payload: &'a [u8]) -> (r: Result<
        Self,
        ExecutionWalError,
    >)
        ensures
            header.payload_len != payload@.len() ==> r == Err::<Self, ExecutionWalError>(
                ExecutionWalError::TruncatedFrame {
                    required: (80 + header.payload_len) as usize,
                    actual: (80 + payload@.len()) as usize,
                },
            ),
            header.payload_len == payload@.len() ==> match spec_validate_checksums(
                header,
                payload@,
            ) {
                Ok(_) => r matches Ok(v) && v.header == header && v.payload@ == payload@,
                Err(e) => r == Err::<Self, ExecutionWalError>(e),
            },
    {
        if header.payload_len as usize != payload.len() {
            return Err(
                ExecutionWalError::TruncatedFrame {
                    required: header.frame_len(),
                    actual: (80u128 + payload.len() as u128) as usize,
                },
            );
        }
        match header.validate_checksums(payload) {
            Ok(()) => Ok(Self { header, payload }),
            Err(e) => Err(e),
        }
    }

    /// Returns total encoded frame length.
    pub fn encoded_len(&self) -> (r: usize)
        ensures
            r == (80 + self.header.payload_len) as usize,
    {
        self.header.frame_len()
    }

    /// Encodes this record into the front of `out`; fails with
    /// `BufferTooSmall` when `out` cannot hold the complete frame.
    pub fn encode_into(&self, out: &mut [u8]) -> (r: Result<usize, ExecutionWalError>)
        requires
            self.header.payload_len == self.payload@.len(),
            80 + self.payload@.len() <= usize::MAX,
        ensures
            old(out)@.len() < 80 + self.header.payload_len ==> r == Err::<usize, ExecutionWalError>(
                ExecutionWalError::BufferTooSmall {
                    required: (80 + self.header.payload_len) as usize,
                    actual: old(out)@.len() as usize,
                },
            ) && final(out)@ == old(out)@,
            old(out)@.len() >= 80 + self.header.payload_len ==> r == Ok::<usize, ExecutionWalError>(
                (80 + self.header.payload_len) as usize,
            ) && final(out)@ == spec_frame(self.header, self.payload@) + old(out)@.skip(
                80 + self.header.payload_len,
            ),
    {
        let required = self.encoded_len();
        if out.len() < required {
            return Err(ExecutionWalError::BufferTooSmall { required, actual: out.len() });
        }
        let frame = self.to_frame();
        let mut i: usize = 0;
        while i < required
            invariant
                frame@ == spec_frame(self.header, self.payload@),
                frame@.len() == required,
                required <= out@.len(),
                out@.len() == old(out)@.len(),
                i <= required,
                forall|j: int| 0 <= j < i ==> out@[j] == frame@[j],
                forall|j: int| required <= j < out@.len() ==> out@[j] == old(out)@[j],
            decreases required - i,
        {
            out[i] = frame[i];
            i = i + 1;
        }
        assert(out@ =~= spec_frame(self.header, self.payload@) + old(out)@.skip(required as int));
        Ok(required)
    }

    /// Returns the encoded frame as an owned byte vector.
    pub fn to_frame(&self) -> (r: Vec<u8>)
        requires
            80 + self.payload@.len() <= usize::MAX,
        ensures
            r@ == spec_frame(self.header, self.payload@),
    {
        let mut out = header_bytes(&self.header, true);
        let mut i: usize = 0;
        while i < self.payload.len()
            invariant
                out@ == spec_header_bytes(self.header, true) + self.payload@.take(i as int),
                i <= self.payload@.len(),
            decreases self.payload@.len() - i,
        {
            out.push(self.payload[i]);
            i = i + 1;
            assert(out@ =~= spec_header_bytes(self.header, true) + self.payload@.take(i as int));
        }
        assert(self.payload@.take(i as int) =~= self.payload@);
        out
    }

    /// Appends this record's frame to `out`.
    pub fn append_to(&self, out: &mut Vec<u8>)
        requires
            80 + self.payload@.len() <= usize::MAX,
        ensures
            final(out)@ == old(out)@ + spec_frame(self.header, self.payload@),
    {
        let frame = self.to_frame();
        let mut i: usize = 0;
        while i < frame.len()
            invariant
                out@ == old(out)@ + frame@.take(i as int),
                i <= frame@.len(),
            decreases frame@.len() - i,
        {
            out.push(frame[i]);
            i = i + 1;
            assert(out@ =~= old(out)@ + frame@.take(i as int));
        }
        assert(frame@.take(i as int) =~= frame@);
    }

    /// Decodes one record from the beginning of `bytes`, returning it with
    /// the number of bytes consumed.
    pub fn decode(bytes: &'a [u8]) -> (r: Result<(Self, usize), ExecutionWalError>)
        ensures
            match spec_decode(bytes@) {
                Ok((h, p, n)) => r matches Ok((v, m)) && v.header == h && v.payload@ == p && m
                    == n,
                Err(e) => r == Err::<(Self, usize), ExecutionWalError>(e),
            },
    {
        if bytes.len() < EXECUTION_WAL_HEADER_LEN {
            return Err(
                ExecutionWalError::TruncatedFrame {
                    required: EXECUTION_WAL_HEADER_LEN,
                    actual: bytes.len(),
                },
            );
        }
        let header = match decode_header(bytes) {
            Ok(h) => h,
            Err(e) => return Err(e),
        };
        let required64 = 80u64 + header.payload_len as u64;
        if (bytes.len() as u64) < required64 {
            return Err(
                ExecutionWalError::TruncatedFrame {
                    required: required64 as usize,
                    actual: bytes.len(),
                },
            );
        }
        let required = required64 as usize;
        let (front, _) = bytes.split_at(required);
        let (_, payload) = front.split_at(EXECUTION_WAL_HEADER_LEN);
        assert(payload@ =~= bytes@.subrange(80, required as int));
        match header.validate_checksums(payload) {
            Ok(()) => Ok((Self { header, payload }, required)),
            Err(e) => Err(e),
        }
    }
}

impl WalRecordHeader {
    /// Outcome of `new` as a value.
    pub open spec fn new_result(
        kind: WalRecordKind,
        sequence: WalSequence,
        timestamp_ns: u64,
        payload: Seq<u8>,
    ) -> Result<WalRecordHeader, ExecutionWalError> {
        if payload.len() > EXECUTION_WAL_MAX_PAYLOAD_LEN {
            Err(
                ExecutionWalError::PayloadTooLarge {
                    max: EXECUTION_WAL_MAX_PAYLOAD_LEN,
                    actual: payload.len() as usize,
                },
            )
        } else {
            Ok(WalRecordHeader::spec_new(kind, sequence, timestamp_ns, payload))
        }
    }
}

fn get_u16(b: &[u8], o: usize) -> (r: u16)
    requires
        o + 2 <= b@.len(),
    ensures
        r == rd16(b@, o as int),
{
    (b[o] as u16) | ((b[o + 1] as u16) << 8u16)
}

fn get_u32(b: &[u8], o: usize) -> (r: u32)
    requires
        o + 4 <= b@.len(),
    ensures
        r == rd32(b@, o as int),
{
    (b[o] as u32) | ((b[o + 1] as u32) << 8u32) | ((b[o + 2] as u32) << 16u32) | ((b[o
        + 3] as u32) << 24u32)
}

fn get_u64(b: &[u8], o: usize) -> (r: u64)
    requires
        o + 8 <= b@.len(),
    ensures
        r == rd64(b@, o as int),
{
    (b[o] as u64) | ((b[o + 1] as u64) << 8u64) | ((b[o + 2] as u64) << 16u64) | ((b[o
        + 3] as u64) << 24u64) | ((b[o + 4] as u64) << 32u64) | ((b[o + 5] as u64) << 40u64)
        | ((b[o + 6] as u64) << 48u64) | ((b[o + 7] as u64) << 56u64)
}

/// Decodes the header at the front of `bytes`.
fn decode_header(bytes: &[u8]) -> (r: Result<WalRecordHeader, ExecutionWalError>)
    requires
        bytes@.len() >= 80,
    ensures
        r == spec_decode_header(bytes@),
        spec_decode_header(bytes@) == spec_decode_header(bytes@.take(80)),
{
    assert(forall|o: int| 0 <= o && o + 8 <= 80 ==> rd64(bytes@, o) == rd64(bytes@.take(80), o));
    assert(forall|o: int| 0 <= o && o + 4 <= 80 ==> rd32(bytes@, o) == rd32(bytes@.take(80), o));
    assert(forall|o: int| 0 <= o && o + 2 <= 80 ==> rd16(bytes@, o) == rd16(bytes@.take(80), o));
    let magic = get_u32(bytes, 0);
    if magic != EXECUTION_WAL_MAGIC {
        return Err(ExecutionWalError::InvalidMagic { actual: magic });
    }
    let version = get_u16(bytes, 4);
    if version != EXECUTION_WAL_VERSION {
        return Err(
            ExecutionWalError::UnsupportedVersion {
                expected: EXECUTION_WAL_VERSION,
                actual: version,
            },
        );
    }
    let header_len = get_u16(bytes, 8);
    if header_len != 80 {
        return Err(
            ExecutionWalError::InvalidHeaderLength {
                expected: EXECUTION_WAL_HEADER_LEN,
                actual: header_len as usize,
            },
        );
    }
    let kind = match WalRecordKind::try_from_code(get_u16(bytes, 6)) {
        Ok(k) => k,
        Err(e) => return Err(e),
    };
    Ok(
        WalRecordHeader {
            version,
            kind,
            flags: get_u16(bytes, 10),
            payload_len: get_u32(bytes, 12),
            sequence: WalSequence(get_u64(bytes, 16)),
            timestamp_ns: get_u64(bytes, 24),
            route_hash: get_u64(bytes, 32),
            account_hash: get_u64(bytes, 40),
            symbol_hash: get_u64(bytes, 48),
            previous_checksum: get_u64(bytes, 56),
            payload_checksum: get_u64(bytes, 64),
            header_checksum: get_u64(bytes, 72),
        },
    )
}

/// Round trip: a frame whose header is at the current version and whose
/// checksums describe the payload decodes back to the same header and
/// payload, consuming exactly the frame, whatever bytes follow it.
pub proof fn lemma_frame_round_trip(h: WalRecordHeader, payload: Seq<u8>, rest: Seq<u8>)
    requires
        h.version == EXECUTION_WAL_VERSION,
        h.payload_len == payload.len(),
        spec_checksums_valid(h, payload),
    ensures
        spec_decode(spec_frame(h, payload) + rest) == Ok::<
            (WalRecordHeader, Seq<u8>, int),
            ExecutionWalError,
        >((h, payload, (80 + payload.len()) as int)),
{
    let b = spec_frame(h, payload) + rest;
    assert forall|i: int| 0 <= i < 80 implies b.take(80)[i] == spec_header_byte(h, true, i) by {}
    lemma_header_round_trip(h, b.take(80));
    assert(b.subrange(80, (80 + payload.len()) as int) =~= payload);
}

/// Every record built by `WalRecordView::new` round-trips through its frame.
pub proof fn law_new_record_round_trips(
    kind: WalRecordKind,
    sequence: WalSequence,
    timestamp_ns: u64,
    payload: Seq<u8>,
    rest: Seq<u8>,
)
    requires
        payload.len() <= EXECUTION_WAL_MAX_PAYLOAD_LEN,
    ensures
        spec_decode(spec_frame(WalRecordHeader::spec_new(kind, sequence, timestamp_ns, payload), payload) + rest)
            == Ok::<(WalRecordHeader, Seq<u8>, int), ExecutionWalError>(
            (WalRecordHeader::spec_new(kind, sequence, timestamp_ns, payload), payload, (80 + payload.len()) as int),
        ),
{
    let h = WalRecordHeader::spec_new(kind, sequence, timestamp_ns, payload);
    let h0 = WalRecordHeader {
        version: EXECUTION_WAL_VERSION,
        kind,
        flags: 0,
        payload_len: payload.len() as u32,
        sequence,
        timestamp_ns,
        route_hash: 0,
        account_hash: 0,
        symbol_hash: 0,
        previous_checksum: 0,
        payload_checksum: spec_fnv(payload),
        header_checksum: 0,
    };
    lemma_refreshed_valid(h0);
    lemma_frame_round_trip(h, payload, rest);
}

/// A record made by `new` fits the frame it is encoded into: its header
/// counts the payload, and decoding any buffer that begins with its frame
/// gives back the same header and payload and consumes exactly the frame,
/// whatever the buffer holds after it.
pub proof fn law_new_encode_decode(
    kind: WalRecordKind,
    sequence: WalSequence,
    timestamp_ns: u64,
    payload: Seq<u8>,
    buffer: Seq<u8>,
)
    requires
        payload.len() <= EXECUTION_WAL_MAX_PAYLOAD_LEN,
        80 + payload.len() <= buffer.len(),
    ensures
        WalRecordHeader::new_result(kind, sequence, timestamp_ns, payload) matches Ok(h) && (
        h.payload_len == payload.len() && spec_decode(
            spec_frame(h, payload) + buffer.skip(80 + h.payload_len),
        ) == Ok::<(WalRecordHeader, Seq<u8>, int), ExecutionWalError>(
            (h, payload, (80 + payload.len()) as int),
        )),
{
    let h = WalRecordHeader::spec_new(kind, sequence, timestamp_ns, payload);
    assert(h.payload_len == payload.len());
    law_new_record_round_trips(kind, sequence, timestamp_ns, payload, buffer.skip(80 + h.payload_len));
}

// ---------------------------------------------------------------------------
// Replay cursor.

/// Outcome of one cursor step at `offset`: end of input, a decoded record
/// (header, payload, consumed bytes), or the frame or strict-sequence error.
pub open spec fn spec_step(
    bytes: Seq<u8>,
    offset: int,
    prev: Option<WalSequence>,
    strict: bool,
) -> Result<Option<(WalRecordHeader, Seq<u8>, int)>, ExecutionWalError> {
    if offset == bytes.len() {
        Ok(None)
    } else {
        match spec_decode(bytes.skip(offset)) {
            Err(e) => Err(e),
            Ok((h, p, n)) => {
                if strict && prev is Some && h.sequence.0 <= (prev->0).0 {
                    Err(ExecutionWalError::SequenceRegression { previous: prev->0, next: h.sequence })
                } else if strict && prev is Some && h.sequence != prev->0.spec_next() {
                    Err(
                        ExecutionWalError::SequenceGap {
                            expected: prev->0.spec_next(),
                            actual: h.sequence,
                        },
                    )
                } else {
                    Ok(Some((h, p, n)))
                }
            },
        }
    }
}

/// A decoded frame never reaches past the input and consumes at least a
/// header.
pub proof fn lemma_decode_bounds(b: Seq<u8>)
    ensures
        spec_decode(b) matches Ok((h, p, n)) ==> 80 <= n <= b.len() && n == 80 + h.payload_len
            && p.len() == h.payload_len,
{
}

/// Sequential borrowed replay cursor for execution WAL bytes.
#[derive(Debug)]
pub struct WalReplayCursor<'a> {
    bytes: &'a [u8],
    offset: usize,
    previous_sequence: Option<WalSequence>,
    strict_sequence: bool,
}

impl<'a> WalReplayCursor<'a> {
    #[verifier::type_invariant]
    spec fn inv(&self) -> bool {
        self.offset <= self.bytes@.len()
    }

    /// The bytes being replayed.
    pub closed spec fn spec_bytes(&self) -> Seq<u8> {
        self.bytes@
    }

    /// The current byte offset.
    pub closed spec fn spec_offset(&self) -> int {
        self.offset as int
    }

    /// The sequence of the last accepted record.
    pub closed spec fn spec_prev(&self) -> Option<WalSequence> {
        self.previous_sequence
    }

    /// True when contiguous sequence validation is on.
    pub closed spec fn spec_strict(&self) -> bool {
        self.strict_sequence
    }

    /// Creates a strict cursor at the start of `bytes`.
    pub fn new(bytes: &'a [u8]) -> (r: Self)
        ensures
            r.spec_bytes() == bytes@,
            r.spec_offset() == 0,
            r.spec_prev() is None,
            r.spec_strict(),
    {
        Self { bytes, offset: 0, previous_sequence: None, strict_sequence: true }
    }

    /// Enables or disables contiguous sequence validation.
    pub fn with_strict_sequence(self, strict_sequence: bool) -> (r: Self)
        ensures
            r.spec_bytes() == self.spec_bytes(),
            r.spec_offset() == self.spec_offset(),
            r.spec_prev() == self.spec_prev(),
            r.spec_strict() == strict_sequence,
    {
        proof {
            use_type_invariant(&self);
        }
        Self { strict_sequence, ..self }
    }

    /// Returns the current byte offset.
    pub fn offset(&self) -> (r: usize)
        ensures
            r == self.spec_offset(),
            r <= self.spec_bytes().len(),
    {
        proof {
            use_type_invariant(self);
        }
        self.offset
    }

    /// Returns the number of unread bytes.
    pub fn remaining(&self) -> (r: usize)
        ensures
            r == self.spec_bytes().len() - self.spec_offset(),
    {
        proof {
            use_type_invariant(self);
        }
        self.bytes.len() - self.offset
    }

    /// Decodes the next record; `Ok(None)` at end of input. A decoded record
    /// advances the cursor past its frame; an error leaves it unchanged.
    pub fn next_record(&mut self) -> (r: Result<Option<WalRecordView<'a>>, ExecutionWalError>)
        ensures
            final(self).spec_bytes() == old(self).spec_bytes(),
            final(self).spec_strict() == old(self).spec_strict(),
            match spec_step(
                old(self).spec_bytes(),
                old(self).spec_offset(),
                old(self).spec_prev(),
                old(self).spec_strict(),
            ) {
                Ok(None) => {
                    &&& r matches Ok(None)
                    &&& final(self).spec_offset() == old(self).spec_offset()
                    &&& final(self).spec_prev() == old(self).spec_prev()
                },
                Ok(Some((h, p, n))) => {
                    &&& r matches Ok(Some(v)) && v.header == h && v.payload@ == p
                    &&& final(self).spec_offset() == old(self).spec_offset() + n
                    &&& final(self).spec_prev() == Some(h.sequence)
                },
                Err(e) => {
                    &&& r == Err::<Option<WalRecordView<'a>>, ExecutionWalError>(e)
                    &&& final(self).spec_offset() == old(self).spec_offset()
                    &&& final(self).spec_prev() == old(self).spec_prev()
                },
            },
    {
        proof {
            use_type_invariant(&*self);
        }
        if self.offset == self.bytes.len() {
            return Ok(None);
        }
        let (_, rest) = self.bytes.split_at(self.offset);
        assert(rest@ =~= self.bytes@.skip(self.offset as int));
        let (record, consumed) = match WalRecordView::decode(rest) {
            Ok(x) => x,
            Err(e) => return Err(e),
        };
        proof {
            lemma_decode_bounds(rest@);
        }
        if self.strict_sequence {
            if let Some(previous) = self.previous_sequence {
                let expected = previous.next();
                if record.header.sequence.0 <= previous.0 {
                    return Err(
                        ExecutionWalError::SequenceRegression {
                            previous,
                            next: record.header.sequence,
                        },
                    );
                }
                if record.header.sequence.0 != expected.0 {
                    return Err(
                        ExecutionWalError::SequenceGap {
                            expected,
                            actual: record.header.sequence,
                        },
                    );
                }
            }
        }
        self.previous_sequence = Some(record.header.sequence);
        self.offset = self.offset + consumed;
        Ok(Some(record))
    }
}

impl<'a> Clone for WalReplayCursor<'a> {
    fn clone(&self) -> (r: Self)
        ensures
            r.spec_bytes() == self.spec_bytes(),
            r.spec_offset() == self.spec_offset(),
            r.spec_prev() == self.spec_prev(),
            r.spec_strict() == self.spec_strict(),
    {
        proof {
            use_type_invariant(self);
        }
        Self {
            bytes: self.bytes,
            offset: self.offset,
            previous_sequence: self.previous_sequence,
            strict_sequence: self.strict_sequence,
        }
    }
}

// ---------------------------------------------------------------------------
// Integrity inspection.

/// Integrity summary for encoded execution WAL bytes.
#[derive(Debug, Clone, Copy, PartialEq, Eq, Structural)]
#[non_exhaustive]
pub struct WalIntegrityReport {
    /// Number of valid records decoded before the first fatal frame error.
    pub records: u64,
    /// Number of bytes consumed by valid records.
    pub bytes: u64,
    /// First decoded WAL sequence.
    pub first_sequence: Option<WalSequence>,
    /// Last decoded WAL sequence.
    pub last_sequence: Option<WalSequence>,
    /// Number of checksum mismatches encountered.
    pub checksum_failures: u64,
    /// Number of strict sequence gaps or regressions encountered.
    pub sequence_failures: u64,
    /// True when the input ended with a partial frame.
    pub truncated_tail: bool,
    /// True when all provided bytes decoded cleanly.
    pub valid: bool,
}

impl Default for WalIntegrityReport {
    fn default() -> (r: Self)
        ensures
            r == spec_empty_report(false),
    {
        WalIntegrityReport {
            records: 0,
            bytes: 0,
            first_sequence: None,
            last_sequence: None,
            checksum_failures: 0,
            sequence_failures: 0,
            truncated_tail: false,
            valid: false,
        }
    }
}

/// A report with no records, and the given validity flag.
pub open spec fn spec_empty_report(valid: bool) -> WalIntegrityReport {
    WalIntegrityReport {
        records: 0,
        bytes: 0,
        first_sequence: None,
        last_sequence: None,
        checksum_failures: 0,
        sequence_failures: 0,
        truncated_tail: false,
        valid,
    }
}

/// The report after a fatal error: checksum, sequence and truncation errors
/// are counted or flagged, and the report is invalid.
pub open spec fn spec_report_error(rep: WalIntegrityReport, e: ExecutionWalError) -> WalIntegrityReport {
    match e {
        ExecutionWalError::ChecksumMismatch { .. } => WalIntegrityReport {
            valid: false,
            checksum_failures: clamp_u64(rep.checksum_failures + 1) as u64,
            ..rep
        },
        ExecutionWalError::SequenceGap { .. } | ExecutionWalError::SequenceRegression { .. } =>
        WalIntegrityReport {
            valid: false,
            sequence_failures: clamp_u64(rep.sequence_failures + 1) as u64,
            ..rep
        },
        ExecutionWalError::TruncatedFrame { .. } => WalIntegrityReport {
            valid: false,
            truncated_tail: true,
            ..rep
        },
        _ => WalIntegrityReport { valid: false, ..rep },
    }
}

/// The report after accepting a record with sequence `seq` that ends at
/// byte `end`.
pub open spec fn spec_report_record(rep: WalIntegrityReport, seq: WalSequence, end: int) -> WalIntegrityReport {
    WalIntegrityReport {
        records: clamp_u64(rep.records + 1) as u64,
        bytes: end as u64,
        first_sequence: if rep.first_sequence is None {
            Some(seq)
        } else {
            rep.first_sequence
        },
        last_sequence: Some(seq),
        ..rep
    }
}

/// Inspection of `bytes` from `offset` on, continuing `rep`.
pub open spec fn spec_inspect_from(
    bytes: Seq<u8>,
    offset: int,
    prev: Option<WalSequence>,
    strict: bool,
    rep: WalIntegrityReport,
) -> WalIntegrityReport
    decreases bytes.len() - offset,
{
    if offset < 0 || offset > bytes.len() {
        rep
    } else {
        match spec_step(bytes, offset, prev, strict) {
            Ok(None) => rep,
            Err(e) => spec_report_error(rep, e),
            Ok(Some((h, p, n))) => if n <= 0 || offset + n > bytes.len() {
                rep
            } else {
                spec_inspect_from(
                    bytes,
                    offset + n,
                    Some(h.sequence),
                    strict,
                    spec_report_record(rep, h.sequence, offset + n),
                )
            },
        }
    }
}

/// Integrity report of a whole byte sequence.
pub open spec fn spec_inspect(bytes: Seq<u8>, strict: bool) -> WalIntegrityReport {
    spec_inspect_from(bytes, 0, None, strict, spec_empty_report(true))
}

impl WalIntegrityReport {
    /// Inspects encoded WAL bytes and returns a non-panicking integrity
    /// report: records are counted until the end of input or the first
    /// fatal error, which is classified.
    pub fn inspect(bytes: &[u8], strict_sequence: bool) -> (r: Self)
        ensures
            r == spec_inspect(bytes@, strict_sequence),
    {
        let mut report = WalIntegrityReport {
            records: 0,
            bytes: 0,
            first_sequence: None,
            last_sequence: None,
            checksum_failures: 0,
            sequence_failures: 0,
            truncated_tail: false,
            valid: true,
        };
        let mut cursor = WalReplayCursor::new(bytes).with_strict_sequence(strict_sequence);
        loop
            invariant
                cursor.spec_bytes() == bytes@,
                cursor.spec_strict() == strict_sequence,
                0 <= cursor.spec_offset() <= bytes@.len(),
                spec_inspect_from(
                    bytes@,
                    cursor.spec_offset(),
                    cursor.spec_prev(),
                    strict_sequence,
                    report,
                ) == spec_inspect(bytes@, strict_sequence),
            decreases bytes@.len() - cursor.spec_offset(),
        {
            proof {
                use_type_invariant(&cursor);
                if cursor.spec_offset() < bytes@.len() {
                    lemma_decode_bounds(bytes@.skip(cursor.spec_offset()));
                }
            }
            let ghost before = cursor.spec_offset();
            match cursor.next_record() {
                Ok(Some(record)) => {
                    report.records = report.records.saturating_add(1);
                    report.bytes = cursor.offset() as u64;
                    if report.first_sequence.is_none() {
                        report.first_sequence = Some(record.header.sequence);
                    }
                    report.last_sequence = Some(record.header.sequence);
                },
                Ok(None) => {
                    return report;
                },
                Err(error) => {
                    report.valid = false;
                    match error {
                        ExecutionWalError::ChecksumMismatch { .. } => {
                            report.checksum_failures = report.checksum_failures.saturating_add(1);
                        },
                        ExecutionWalError::SequenceGap { .. }
                        | ExecutionWalError::SequenceRegression { .. } => {
                            report.sequence_failures = report.sequence_failures.saturating_add(1);
                        },
                        ExecutionWalError::TruncatedFrame { .. } => {
                            report.truncated_tail = true;
                        },
                        _ => {},
                    }
                    return report;
                },
            }
        }
    }
}

} // verus!
