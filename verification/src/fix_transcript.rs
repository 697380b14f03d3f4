//! Exact ordered expectations over a captured FIX transcript, and the
//! certification failures a transcript earns against them.

use vstd::prelude::*;
use vstd::utf8::{encode_utf8, is_ascii_chars, is_ascii_chars_concat, is_ascii_chars_encode_utf8};
use crate::algo_support::{lemma_decimal_ascii, spec_decimal_ascii, spec_pow10};
use crate::fix_certification::{
    spec_truncated_detail, FixCertificationFailure, FixCertificationFailureKind,
    FixCertificationScenario, FixExpectedField,
};
use crate::fix_certification_harness::{spec_failure_view, spec_failure_views};
use crate::fix_model::{FixMessageFields, FixTag};
use crate::ids::{ascii_chars, lemma_ascii_bytes_encode};
use crate::text::{decimal_string, spec_decimal_text};

verus! {

/// Direction of a captured frame.
#[derive(Debug, Clone, Copy, PartialEq, Eq, Structural)]
pub enum FixTranscriptDirection {
    /// Received from the counterparty.
    Inbound,
    /// Sent to the counterparty.
    Outbound,
}

/// What a captured frame offers for field checks: its raw bytes were not
/// retained, they failed strict FIX parsing, or their parsed fields.
#[derive(Debug, Clone, PartialEq, Eq)]
pub enum FixFrameContent {
    /// The raw bytes were not retained.
    NotRetained,
    /// The raw bytes failed strict FIX parsing.
    Malformed,
    /// The parsed message.
    Parsed(FixMessageFields),
}

/// One captured transcript frame, as the transcript assertions read it.
#[derive(Debug, Clone, PartialEq, Eq)]
pub struct FixTranscriptFrame {
    /// Frame direction.
    pub direction: FixTranscriptDirection,
    /// `MsgType(35)` bytes.
    pub msg_type: Vec<u8>,
    /// `MsgSeqNum(34)`, when the frame carried one.
    pub seq_no: Option<u64>,
    /// The frame's fields, when retained and well formed.
    pub content: FixFrameContent,
}

/// Exact metadata and field expectations for one transcript frame.
#[derive(Debug, Clone, PartialEq, Eq)]
pub struct FixFrameExpectation {
    direction: FixTranscriptDirection,
    message_type: Vec<u8>,
    sequence: Option<u64>,
    fields: Vec<FixExpectedField>,
}

impl FixFrameExpectation {
    /// The expected direction.
    pub closed spec fn spec_direction(&self) -> FixTranscriptDirection {
        self.direction
    }

    /// The expected message type bytes.
    pub closed spec fn spec_message_type(&self) -> Seq<u8> {
        self.message_type@
    }

    /// The expected sequence, when constrained.
    pub closed spec fn spec_sequence(&self) -> Option<u64> {
        self.sequence
    }

    /// The exact required fields, in order.
    pub closed spec fn spec_fields(&self) -> Seq<FixExpectedField> {
        self.fields@
    }

    /// Creates an expectation for a direction and message type, with no
    /// sequence or field constraint.
    pub fn new(direction: FixTranscriptDirection, message_type: Vec<u8>) -> (r: Self)
        ensures
            r.spec_direction() == direction,
            r.spec_message_type() == message_type@,
            r.spec_sequence() is None,
            r.spec_fields().len() == 0,
    {
        Self { direction, message_type, sequence: None, fields: Vec::new() }
    }

    /// Requires an exact `MsgSeqNum(34)`.
    pub fn with_sequence(self, sequence: u64) -> (r: Self)
        ensures
            r.spec_sequence() == Some(sequence),
            r.spec_direction() == self.spec_direction(),
            r.spec_message_type() == self.spec_message_type(),
            r.spec_fields() == self.spec_fields(),
    {
        Self { sequence: Some(sequence), ..self }
    }

    /// Adds an exact required field.
    pub fn with_field(self, field: FixExpectedField) -> (r: Self)
        ensures
            r.spec_fields() == self.spec_fields().push(field),
            r.spec_direction() == self.spec_direction(),
            r.spec_message_type() == self.spec_message_type(),
            r.spec_sequence() == self.spec_sequence(),
    {
        let mut fields = self.fields;
        fields.push(field);
        Self { direction: self.direction, message_type: self.message_type, sequence: self.sequence, fields }
    }

    /// Returns the expected direction.
    pub fn direction(&self) -> (r: FixTranscriptDirection)
        ensures
            r == self.spec_direction(),
    {
        self.direction
    }

    /// Returns the expected message type bytes.
    pub fn message_type(&self) -> (r: &[u8])
        ensures
            r@ == self.spec_message_type(),
    {
        self.message_type.as_slice()
    }

    /// Returns the expected sequence, when constrained.
    pub fn sequence(&self) -> (r: Option<u64>)
        ensures
            r == self.spec_sequence(),
    {
        self.sequence
    }

    /// Returns the exact required fields.
    pub fn fields(&self) -> (r: &[FixExpectedField])
        ensures
            r@ == self.spec_fields(),
    {
        self.fields.as_slice()
    }
}

/// The view of a failure of `scenario` with an ASCII text detail.
pub open spec fn spec_text_failure(
    scenario: FixCertificationScenario,
    kind: FixCertificationFailureKind,
    text: Seq<char>,
) -> (Option<FixCertificationScenario>, FixCertificationFailureKind, Seq<u8>) {
    (Some(scenario), kind, encode_utf8(text))
}

/// The decimal text of `n` is ASCII and at most twenty characters long.
proof fn lemma_decimal_text(n: u64)
    ensures
        is_ascii_chars(spec_decimal_text(n as nat)),
        spec_decimal_text(n as nat).len() <= 20,
{
    assert(spec_pow10(20) == 100_000_000_000_000_000_000nat) by {
        reveal_with_fuel(spec_pow10, 21);
    }
    lemma_decimal_ascii(n as nat, 20);
    lemma_ascii_bytes_encode(spec_decimal_ascii(n as nat));
}

/// A failure of `scenario` whose detail is `prefix`, `n` in decimal, then
/// `suffix`.
fn numbered_failure(
    scenario: FixCertificationScenario,
    kind: FixCertificationFailureKind,
    prefix: &str,
    n: u64,
    suffix: &str,
) -> (r: FixCertificationFailure)
    requires
        is_ascii_chars(prefix@),
        is_ascii_chars(suffix@),
        prefix@.len() + suffix@.len() <= 400,
    ensures
        spec_failure_view(r) == spec_text_failure(
            scenario,
            kind,
            prefix@ + spec_decimal_text(n as nat) + suffix@,
        ),
{
    let digits = decimal_string(n);
    let text = String::from_str(prefix).concat(digits.as_str()).concat(suffix);
    proof {
        lemma_decimal_text(n);
        is_ascii_chars_concat(prefix@ + digits@, prefix@, digits@);
        is_ascii_chars_concat(text@, prefix@ + digits@, suffix@);
        is_ascii_chars_encode_utf8(text@);
    }
    let r = FixCertificationFailure::new(Some(scenario), kind, text);
    assert(spec_truncated_detail(encode_utf8(text@)) == encode_utf8(text@));
    r
}

/// A failure of `scenario` whose detail is `prefix`, `a` in decimal,
/// `middle`, `b` in decimal, then `suffix`.
fn two_numbered_failure(
    scenario: FixCertificationScenario,
    kind: FixCertificationFailureKind,
    prefix: &str,
    a: u64,
    middle: &str,
    b: u64,
    suffix: &str,
) -> (r: FixCertificationFailure)
    requires
        is_ascii_chars(prefix@),
        is_ascii_chars(middle@),
        is_ascii_chars(suffix@),
        prefix@.len() + middle@.len() + suffix@.len() <= 400,
    ensures
        spec_failure_view(r) == spec_text_failure(
            scenario,
            kind,
            prefix@ + spec_decimal_text(a as nat) + middle@ + spec_decimal_text(b as nat)
                + suffix@,
        ),
{
    let a_digits = decimal_string(a);
    let b_digits = decimal_string(b);
    let text = String::from_str(prefix).concat(a_digits.as_str()).concat(middle).concat(
        b_digits.as_str(),
    ).concat(suffix);
    proof {
        lemma_decimal_text(a);
        lemma_decimal_text(b);
        let t1 = prefix@ + a_digits@;
        let t2 = t1 + middle@;
        let t3 = t2 + b_digits@;
        is_ascii_chars_concat(t1, prefix@, a_digits@);
        is_ascii_chars_concat(t2, t1, middle@);
        is_ascii_chars_concat(t3, t2, b_digits@);
        is_ascii_chars_concat(text@, t3, suffix@);
        is_ascii_chars_encode_utf8(text@);
    }
    let r = FixCertificationFailure::new(Some(scenario), kind, text);
    assert(spec_truncated_detail(encode_utf8(text@)) == encode_utf8(text@));
    r
}

/// The observable content of one failure.
pub type FixFailureView = (Option<FixCertificationScenario>, FixCertificationFailureKind, Seq<u8>);

/// A failure of `scenario` with detail `prefix{n}suffix`.
pub open spec fn spec_numbered(
    scenario: FixCertificationScenario,
    kind: FixCertificationFailureKind,
    prefix: Seq<char>,
    n: nat,
    suffix: Seq<char>,
) -> FixFailureView {
    spec_text_failure(scenario, kind, prefix + spec_decimal_text(n) + suffix)
}

/// A failure of `scenario` with detail `prefix{a}middle{b}suffix`.
pub open spec fn spec_two_numbered(
    scenario: FixCertificationScenario,
    kind: FixCertificationFailureKind,
    prefix: Seq<char>,
    a: nat,
    middle: Seq<char>,
    b: nat,
    suffix: Seq<char>,
) -> FixFailureView {
    spec_text_failure(
        scenario,
        kind,
        prefix + spec_decimal_text(a) + middle + spec_decimal_text(b) + suffix,
    )
}

/// The failures of the expected fields of frame `index` against its parsed
/// message: a missing tag, or a value that differs.
pub open spec fn spec_field_failures(
    scenario: FixCertificationScenario,
    index: nat,
    fields: Seq<FixExpectedField>,
    message: FixMessageFields,
) -> Seq<FixFailureView>
    decreases fields.len(),
{
    if fields.len() == 0 {
        Seq::empty()
    } else {
        let prev = spec_field_failures(scenario, index, fields.drop_last(), message);
        let f = fields.last();
        match message.spec_get(FixTag(f.spec_tag())) {
            None => prev.push(
                spec_two_numbered(
                    scenario,
                    FixCertificationFailureKind::MissingTag,
                    "frame "@,
                    index,
                    " missing tag "@,
                    f.spec_tag() as nat,
                    ""@,
                ),
            ),
            Some(v) => if v != f.spec_value() {
                prev.push(
                    spec_two_numbered(
                        scenario,
                        FixCertificationFailureKind::TagValue,
                        "frame "@,
                        index,
                        " tag "@,
                        f.spec_tag() as nat,
                        " value mismatch"@,
                    ),
                )
            } else {
                prev
            },
        }
    }
}

/// A single failure when `cond` holds.
pub open spec fn spec_when(cond: bool, f: FixFailureView) -> Seq<FixFailureView> {
    if cond {
        seq![f]
    } else {
        Seq::empty()
    }
}

/// The failures of frame `index` against its expectation: direction,
/// message type and sequence mismatches, then, when fields are expected,
/// raw bytes not retained, a malformed frame, or the field failures.
pub open spec fn spec_frame_failures(
    scenario: FixCertificationScenario,
    index: nat,
    record: FixTranscriptFrame,
    e: FixFrameExpectation,
) -> Seq<FixFailureView> {
    let base = spec_when(
        record.direction != e.spec_direction(),
        spec_numbered(
            scenario,
            FixCertificationFailureKind::Direction,
            "frame "@,
            index,
            " direction mismatch"@,
        ),
    ) + spec_when(
        record.msg_type@ != e.spec_message_type(),
        spec_numbered(
            scenario,
            FixCertificationFailureKind::MessageType,
            "frame "@,
            index,
            " message type mismatch"@,
        ),
    ) + spec_when(
        e.spec_sequence() matches Some(x) && record.seq_no != Some(x),
        spec_numbered(
            scenario,
            FixCertificationFailureKind::Sequence,
            "frame "@,
            index,
            " sequence mismatch"@,
        ),
    );
    if e.spec_fields().len() == 0 {
        base
    } else {
        match record.content {
            FixFrameContent::NotRetained => base.push(
                spec_numbered(
                    scenario,
                    FixCertificationFailureKind::MissingFrame,
                    "frame "@,
                    index,
                    " raw bytes were not retained"@,
                ),
            ),
            FixFrameContent::Malformed => base.push(
                spec_numbered(
                    scenario,
                    FixCertificationFailureKind::MalformedFrame,
                    "frame "@,
                    index,
                    " failed strict FIX parsing"@,
                ),
            ),
            FixFrameContent::Parsed(message) => base + spec_field_failures(
                scenario,
                index,
                e.spec_fields(),
                message,
            ),
        }
    }
}

/// The failures of the expectations, in order: each against its frame, or
/// a missing frame when the transcript is shorter.
pub open spec fn spec_expectation_failures(
    scenario: FixCertificationScenario,
    records: Seq<FixTranscriptFrame>,
    expectations: Seq<FixFrameExpectation>,
) -> Seq<FixFailureView>
    decreases expectations.len(),
{
    if expectations.len() == 0 {
        Seq::empty()
    } else {
        let i = (expectations.len() - 1) as nat;
        let prev = spec_expectation_failures(scenario, records, expectations.drop_last());
        if i < records.len() {
            prev + spec_frame_failures(scenario, i, records[i as int], expectations.last())
        } else {
            prev.push(
                spec_numbered(
                    scenario,
                    FixCertificationFailureKind::MissingFrame,
                    "missing transcript frame at index "@,
                    i,
                    ""@,
                ),
            )
        }
    }
}

/// The failures a transcript earns: those of the expectations, then, when
/// the length must be exact, one for frames beyond the expectations.
pub open spec fn spec_transcript_failures(
    scenario: FixCertificationScenario,
    records: Seq<FixTranscriptFrame>,
    expectations: Seq<FixFrameExpectation>,
    exact_length: bool,
) -> Seq<FixFailureView> {
    let f = spec_expectation_failures(scenario, records, expectations);
    if exact_length && records.len() > expectations.len() {
        f.push(
            spec_two_numbered(
                scenario,
                FixCertificationFailureKind::UnexpectedFrame,
                "observed "@,
                records.len(),
                " transcript frames, expected "@,
                expectations.len(),
                ""@,
            ),
        )
    } else {
        f
    }
}

/// Whether two byte strings are equal.
fn same_bytes(a: &[u8], b: &[u8]) -> (r: bool)
    ensures
        r == (a@ == b@),
{
    if a.len() != b.len() {
        return false;
    }
    let mut i: usize = 0;
    while i < a.len()
        invariant
            a@.len() == b@.len(),
            i <= a@.len(),
            forall|k: int| 0 <= k < i ==> a@[k] == b@[k],
        decreases a@.len() - i,
    {
        if a[i] != b[i] {
            return false;
        }
        i = i + 1;
    }
    assert(a@ =~= b@);
    true
}

/// Appends one failure to `out`.
fn push_failure(out: &mut Vec<FixCertificationFailure>, f: FixCertificationFailure)
    ensures
        spec_failure_views(final(out)@) == spec_failure_views(old(out)@).push(spec_failure_view(f)),
{
    let ghost before = out@;
    out.push(f);
    assert(out@.drop_last() =~= before);
}

/// Appends the failures of frame `index` against its expectation.
fn push_frame_failures(
    out: &mut Vec<FixCertificationFailure>,
    scenario: FixCertificationScenario,
    index: u64,
    record: &FixTranscriptFrame,
    e: &FixFrameExpectation,
)
    ensures
        spec_failure_views(final(out)@) == spec_failure_views(old(out)@) + spec_frame_failures(
            scenario,
            index as nat,
            *record,
            *e,
        ),
{
    proof {
        reveal_strlit("frame ");
        reveal_strlit(" direction mismatch");
        reveal_strlit(" message type mismatch");
        reveal_strlit(" sequence mismatch");
        reveal_strlit(" raw bytes were not retained");
        reveal_strlit(" failed strict FIX parsing");
    }
    let ghost start = spec_failure_views(out@);
    let ghost d = spec_when(
        record.direction != e.spec_direction(),
        spec_numbered(
            scenario,
            FixCertificationFailureKind::Direction,
            "frame "@,
            index as nat,
            " direction mismatch"@,
        ),
    );
    let ghost m = spec_when(
        record.msg_type@ != e.spec_message_type(),
        spec_numbered(
            scenario,
            FixCertificationFailureKind::MessageType,
            "frame "@,
            index as nat,
            " message type mismatch"@,
        ),
    );
    let ghost sq = spec_when(
        e.spec_sequence() matches Some(x) && record.seq_no != Some(x),
        spec_numbered(
            scenario,
            FixCertificationFailureKind::Sequence,
            "frame "@,
            index as nat,
            " sequence mismatch"@,
        ),
    );
    if record.direction != e.direction {
        push_failure(
            out,
            numbered_failure(
                scenario,
                FixCertificationFailureKind::Direction,
                "frame ",
                index,
                " direction mismatch",
            ),
        );
    }
    assert(spec_failure_views(out@) =~= start + d);
    if !same_bytes(record.msg_type.as_slice(), e.message_type.as_slice()) {
        push_failure(
            out,
            numbered_failure(
                scenario,
                FixCertificationFailureKind::MessageType,
                "frame ",
                index,
                " message type mismatch",
            ),
        );
    }
    assert(spec_failure_views(out@) =~= start + d + m);
    let sequence_mismatch = match e.sequence {
        Some(x) => match record.seq_no {
            Some(y) => y != x,
            None => true,
        },
        None => false,
    };
    if sequence_mismatch {
        push_failure(
            out,
            numbered_failure(
                scenario,
                FixCertificationFailureKind::Sequence,
                "frame ",
                index,
                " sequence mismatch",
            ),
        );
    }
    assert(spec_failure_views(out@) =~= start + (d + m + sq));
    if e.fields.len() == 0 {
        return;
    }
    match &record.content {
        FixFrameContent::NotRetained => {
            push_failure(
                out,
                numbered_failure(
                    scenario,
                    FixCertificationFailureKind::MissingFrame,
                    "frame ",
                    index,
                    " raw bytes were not retained",
                ),
            );
            assert(spec_failure_views(out@) =~= start + spec_frame_failures(
                scenario,
                index as nat,
                *record,
                *e,
            ));
        },
        FixFrameContent::Malformed => {
            push_failure(
                out,
                numbered_failure(
                    scenario,
                    FixCertificationFailureKind::MalformedFrame,
                    "frame ",
                    index,
                    " failed strict FIX parsing",
                ),
            );
            assert(spec_failure_views(out@) =~= start + spec_frame_failures(
                scenario,
                index as nat,
                *record,
                *e,
            ));
        },
        FixFrameContent::Parsed(message) => {
            push_field_failures(out, scenario, index, e.fields.as_slice(), message);
            assert(spec_failure_views(out@) =~= start + spec_frame_failures(
                scenario,
                index as nat,
                *record,
                *e,
            ));
        },
    }
}

/// Appends the failures of the expected fields of frame `index`.
fn push_field_failures(
    out: &mut Vec<FixCertificationFailure>,
    scenario: FixCertificationScenario,
    index: u64,
    fields: &[FixExpectedField],
    message: &FixMessageFields,
)
    ensures
        spec_failure_views(final(out)@) == spec_failure_views(old(out)@) + spec_field_failures(
            scenario,
            index as nat,
            fields@,
            *message,
        ),
{
    proof {
        reveal_strlit("frame ");
        reveal_strlit(" missing tag ");
        reveal_strlit(" tag ");
        reveal_strlit(" value mismatch");
        reveal_strlit("");
    }
    let ghost start = spec_failure_views(out@);
    let mut j: usize = 0;
    while j < fields.len()
        invariant
            j <= fields@.len(),
            spec_failure_views(out@) == start + spec_field_failures(
                scenario,
                index as nat,
                fields@.take(j as int),
                *message,
            ),
        decreases fields@.len() - j,
    {
        let f = &fields[j];
        proof {
            reveal_strlit("frame ");
            reveal_strlit(" missing tag ");
            reveal_strlit(" tag ");
            reveal_strlit(" value mismatch");
            reveal_strlit("");
            assert(fields@.take(j + 1).drop_last() =~= fields@.take(j as int));
            assert(fields@.take(j + 1).last() == fields@[j as int]);
        }
        match message.get(FixTag(f.tag())) {
            None => {
                push_failure(
                    out,
                    two_numbered_failure(
                        scenario,
                        FixCertificationFailureKind::MissingTag,
                        "frame ",
                        index,
                        " missing tag ",
                        f.tag() as u64,
                        "",
                    ),
                );
            },
            Some(actual) => {
                if !same_bytes(actual, f.value()) {
                    push_failure(
                        out,
                        two_numbered_failure(
                            scenario,
                            FixCertificationFailureKind::TagValue,
                            "frame ",
                            index,
                            " tag ",
                            f.tag() as u64,
                            " value mismatch",
                        ),
                    );
                }
            },
        }
        j = j + 1;
    }
    assert(fields@.take(fields@.len() as int) =~= fields@);
}

/// The failures a transcript earns against exact ordered expectations;
/// when `exact_length` holds, frames beyond the expectations fail too.
pub fn transcript_failures(
    scenario: FixCertificationScenario,
    records: &[FixTranscriptFrame],
    expectations: &[FixFrameExpectation],
    exact_length: bool,
) -> (r: Vec<FixCertificationFailure>)
    ensures
        spec_failure_views(r@) == spec_transcript_failures(
            scenario,
            records@,
            expectations@,
            exact_length,
        ),
{
    proof {
        reveal_strlit("missing transcript frame at index ");
        reveal_strlit("observed ");
        reveal_strlit(" transcript frames, expected ");
        reveal_strlit("");
    }
    let mut out: Vec<FixCertificationFailure> = Vec::new();
    let mut i: usize = 0;
    while i < expectations.len()
        invariant
            i <= expectations@.len(),
            spec_failure_views(out@) == spec_expectation_failures(
                scenario,
                records@,
                expectations@.take(i as int),
            ),
        decreases expectations@.len() - i,
    {
        proof {
            reveal_strlit("missing transcript frame at index ");
            reveal_strlit("");
            assert(expectations@.take(i + 1).drop_last() =~= expectations@.take(i as int));
            assert(expectations@.take(i + 1).last() == expectations@[i as int]);
        }
        if i < records.len() {
            push_frame_failures(&mut out, scenario, i as u64, &records[i], &expectations[i]);
        } else {
            push_failure(
                &mut out,
                numbered_failure(
                    scenario,
                    FixCertificationFailureKind::MissingFrame,
                    "missing transcript frame at index ",
                    i as u64,
                    "",
                ),
            );
        }
        i = i + 1;
    }
    assert(expectations@.take(expectations@.len() as int) =~= expectations@);
    if exact_length && records.len() > expectations.len() {
        push_failure(
            &mut out,
            two_numbered_failure(
                scenario,
                FixCertificationFailureKind::UnexpectedFrame,
                "observed ",
                records.len() as u64,
                " transcript frames, expected ",
                expectations.len() as u64,
                "",
            ),
        );
    }
    out
}

} // verus!
