//! Value mapping, decimal parsing and decimal formatting used by the FIX
//! bridge.

use vstd::prelude::*;
use crate::algo_support::{lemma_decimal_ascii, push_decimal, spec_decimal_ascii, spec_pow10};
use crate::fix_model::{
    FixCancelRejectResponseTo, FixExecType, FixMessageFields, FixOrdStatus, FixOrdType,
    FixOrderSide, FixReportParseError, FixRequestEncodeConfig, FixRequestEncodeError, FixTag,
    FixTimeInForce, TRANSACT_TIME_TAG,
};
use crate::ids::{all_ascii_bytes, lemma_str_ascii_iff_bytes, ExecutionCoreError, FixedAscii};
use vstd::utf8::valid_utf8;
use crate::orders::{ExecutionType, OrderPrice, OrderSide, OrderStatus, OrderType, TimeInForce};

verus! {

/// Maps a normalized FIX ExecType to the canonical execution type.
pub open spec fn spec_map_exec_type(value: FixExecType) -> ExecutionType {
    match value {
        FixExecType::New => ExecutionType::Ack,
        FixExecType::Rejected => ExecutionType::Reject,
        FixExecType::Trade => ExecutionType::Trade,
        FixExecType::PendingCancel => ExecutionType::CancelPending,
        FixExecType::Canceled => ExecutionType::CancelAck,
        FixExecType::PendingReplace => ExecutionType::ReplacePending,
        FixExecType::Replaced => ExecutionType::ReplaceAck,
        FixExecType::Expired => ExecutionType::Expire,
        FixExecType::Restated => ExecutionType::Restated,
    }
}

/// Maps a normalized FIX OrdStatus to the canonical order status.
pub open spec fn spec_map_ord_status(value: FixOrdStatus) -> OrderStatus {
    match value {
        FixOrdStatus::New => OrderStatus::New,
        FixOrdStatus::PartiallyFilled => OrderStatus::PartiallyFilled,
        FixOrdStatus::Filled => OrderStatus::Filled,
        FixOrdStatus::DoneForDay => OrderStatus::Suspended,
        FixOrdStatus::Canceled => OrderStatus::Cancelled,
        FixOrdStatus::Replaced => OrderStatus::Replaced,
        FixOrdStatus::PendingCancel => OrderStatus::PendingCancel,
        FixOrdStatus::Stopped => OrderStatus::Suspended,
        FixOrdStatus::Rejected => OrderStatus::Rejected,
        FixOrdStatus::Suspended => OrderStatus::Suspended,
        FixOrdStatus::PendingNew => OrderStatus::PendingNew,
        FixOrdStatus::Expired => OrderStatus::Expired,
        FixOrdStatus::PendingReplace => OrderStatus::PendingReplace,
    }
}

/// The ExecType denoted by the wire value `v` (`ExecType(150)`): FIX 4.4
/// trade values `1`, `2` and `F` are trades, `D` and `I` restatements.
pub open spec fn spec_parse_exec_type(v: Seq<u8>) -> Result<FixExecType, FixReportParseError> {
    if v == seq![48u8] {
        Ok(FixExecType::New)
    } else if v == seq![49u8] || v == seq![50u8] || v == seq![70u8] {
        Ok(FixExecType::Trade)
    } else if v == seq![52u8] {
        Ok(FixExecType::Canceled)
    } else if v == seq![53u8] {
        Ok(FixExecType::Replaced)
    } else if v == seq![54u8] {
        Ok(FixExecType::PendingCancel)
    } else if v == seq![56u8] {
        Ok(FixExecType::Rejected)
    } else if v == seq![67u8] {
        Ok(FixExecType::Expired)
    } else if v == seq![68u8] || v == seq![73u8] {
        Ok(FixExecType::Restated)
    } else if v == seq![69u8] {
        Ok(FixExecType::PendingReplace)
    } else {
        Err(FixReportParseError::InvalidExecType)
    }
}

/// The OrdStatus denoted by the wire value `v` (`OrdStatus(39)`).
pub open spec fn spec_parse_ord_status(v: Seq<u8>) -> Result<FixOrdStatus, FixReportParseError> {
    if v == seq![48u8] {
        Ok(FixOrdStatus::New)
    } else if v == seq![49u8] {
        Ok(FixOrdStatus::PartiallyFilled)
    } else if v == seq![50u8] {
        Ok(FixOrdStatus::Filled)
    } else if v == seq![51u8] {
        Ok(FixOrdStatus::DoneForDay)
    } else if v == seq![52u8] {
        Ok(FixOrdStatus::Canceled)
    } else if v == seq![53u8] {
        Ok(FixOrdStatus::Replaced)
    } else if v == seq![54u8] {
        Ok(FixOrdStatus::PendingCancel)
    } else if v == seq![55u8] {
        Ok(FixOrdStatus::Stopped)
    } else if v == seq![56u8] {
        Ok(FixOrdStatus::Rejected)
    } else if v == seq![57u8] {
        Ok(FixOrdStatus::Suspended)
    } else if v == seq![65u8] {
        Ok(FixOrdStatus::PendingNew)
    } else if v == seq![67u8] {
        Ok(FixOrdStatus::Expired)
    } else if v == seq![69u8] {
        Ok(FixOrdStatus::PendingReplace)
    } else {
        Err(FixReportParseError::InvalidOrdStatus)
    }
}

/// The CxlRejResponseTo denoted by the wire value `v`.
pub open spec fn spec_parse_cancel_reject_response_to(v: Seq<u8>) -> Result<
    FixCancelRejectResponseTo,
    FixReportParseError,
> {
    if v == seq![49u8] {
        Ok(FixCancelRejectResponseTo::OrderCancelRequest)
    } else if v == seq![50u8] {
        Ok(FixCancelRejectResponseTo::OrderCancelReplaceRequest)
    } else {
        Err(FixReportParseError::InvalidCancelRejectResponseTo)
    }
}

/// Maps a normalized FIX ExecType to the canonical execution type.
pub fn map_exec_type(value: FixExecType) -> (r: ExecutionType)
    ensures
        r == spec_map_exec_type(value),
{
    match value {
        FixExecType::New => ExecutionType::Ack,
        FixExecType::Rejected => ExecutionType::Reject,
        FixExecType::Trade => ExecutionType::Trade,
        FixExecType::PendingCancel => ExecutionType::CancelPending,
        FixExecType::Canceled => ExecutionType::CancelAck,
        FixExecType::PendingReplace => ExecutionType::ReplacePending,
        FixExecType::Replaced => ExecutionType::ReplaceAck,
        FixExecType::Expired => ExecutionType::Expire,
        FixExecType::Restated => ExecutionType::Restated,
    }
}

/// Maps a normalized FIX OrdStatus to the canonical order status.
pub fn map_ord_status(value: FixOrdStatus) -> (r: OrderStatus)
    ensures
        r == spec_map_ord_status(value),
{
    match value {
        FixOrdStatus::New => OrderStatus::New,
        FixOrdStatus::PartiallyFilled => OrderStatus::PartiallyFilled,
        FixOrdStatus::Filled => OrderStatus::Filled,
        FixOrdStatus::DoneForDay => OrderStatus::Suspended,
        FixOrdStatus::Canceled => OrderStatus::Cancelled,
        FixOrdStatus::Replaced => OrderStatus::Replaced,
        FixOrdStatus::PendingCancel => OrderStatus::PendingCancel,
        FixOrdStatus::Stopped => OrderStatus::Suspended,
        FixOrdStatus::Rejected => OrderStatus::Rejected,
        FixOrdStatus::Suspended => OrderStatus::Suspended,
        FixOrdStatus::PendingNew => OrderStatus::PendingNew,
        FixOrdStatus::Expired => OrderStatus::Expired,
        FixOrdStatus::PendingReplace => OrderStatus::PendingReplace,
    }
}

/// Parses a wire `ExecType(150)` value.
pub fn parse_exec_type(value: &[u8]) -> (r: Result<FixExecType, FixReportParseError>)
    ensures
        r == spec_parse_exec_type(value@),
{
    if value.len() != 1 {
        proof {
            assert(forall|c: u8| value@ != seq![c]);
        }
        return Err(FixReportParseError::InvalidExecType);
    }
    let c = value[0];
    assert(value@ =~= seq![c]);
    match c {
        48 => Ok(FixExecType::New),
        49 | 50 | 70 => Ok(FixExecType::Trade),
        52 => Ok(FixExecType::Canceled),
        53 => Ok(FixExecType::Replaced),
        54 => Ok(FixExecType::PendingCancel),
        56 => Ok(FixExecType::Rejected),
        67 => Ok(FixExecType::Expired),
        68 | 73 => Ok(FixExecType::Restated),
        69 => Ok(FixExecType::PendingReplace),
        _ => {
            proof {
                assert forall|d: u8| seq![c] == seq![d] implies c == d by {
                    assert(seq![c][0] == c);
                    assert(seq![d][0] == d);
                }
            }
            Err(FixReportParseError::InvalidExecType)
        },
    }
}

/// Parses a wire `OrdStatus(39)` value.
pub fn parse_ord_status(value: &[u8]) -> (r: Result<FixOrdStatus, FixReportParseError>)
    ensures
        r == spec_parse_ord_status(value@),
{
    if value.len() != 1 {
        proof {
            assert(forall|c: u8| value@ != seq![c]);
        }
        return Err(FixReportParseError::InvalidOrdStatus);
    }
    let c = value[0];
    assert(value@ =~= seq![c]);
    match c {
        48 => Ok(FixOrdStatus::New),
        49 => Ok(FixOrdStatus::PartiallyFilled),
        50 => Ok(FixOrdStatus::Filled),
        51 => Ok(FixOrdStatus::DoneForDay),
        52 => Ok(FixOrdStatus::Canceled),
        53 => Ok(FixOrdStatus::Replaced),
        54 => Ok(FixOrdStatus::PendingCancel),
        55 => Ok(FixOrdStatus::Stopped),
        56 => Ok(FixOrdStatus::Rejected),
        57 => Ok(FixOrdStatus::Suspended),
        65 => Ok(FixOrdStatus::PendingNew),
        67 => Ok(FixOrdStatus::Expired),
        69 => Ok(FixOrdStatus::PendingReplace),
        _ => {
            proof {
                assert forall|d: u8| seq![c] == seq![d] implies c == d by {
                    assert(seq![c][0] == c);
                    assert(seq![d][0] == d);
                }
            }
            Err(FixReportParseError::InvalidOrdStatus)
        },
    }
}

/// Parses a wire `CxlRejResponseTo(434)` value.
pub fn parse_cancel_reject_response_to(value: &[u8]) -> (r: Result<
    FixCancelRejectResponseTo,
    FixReportParseError,
>)
    ensures
        r == spec_parse_cancel_reject_response_to(value@),
{
    if value.len() != 1 {
        proof {
            assert(forall|c: u8| value@ != seq![c]);
        }
        return Err(FixReportParseError::InvalidCancelRejectResponseTo);
    }
    let c = value[0];
    assert(value@ =~= seq![c]);
    match c {
        49 => Ok(FixCancelRejectResponseTo::OrderCancelRequest),
        50 => Ok(FixCancelRejectResponseTo::OrderCancelReplaceRequest),
        _ => {
            proof {
                assert forall|d: u8| seq![c] == seq![d] implies c == d by {
                    assert(seq![c][0] == c);
                    assert(seq![d][0] == d);
                }
            }
            Err(FixReportParseError::InvalidCancelRejectResponseTo)
        },
    }
}

/// True when `b` is an ASCII decimal digit.
pub open spec fn spec_is_digit(b: u8) -> bool {
    48 <= b <= 57
}

/// True when every byte of `s` is an ASCII decimal digit.
pub open spec fn spec_all_digits(s: Seq<u8>) -> bool {
    forall|i: int| 0 <= i < s.len() ==> spec_is_digit(#[trigger] s[i])
}

/// The number written by the decimal digits `s` (zero when empty).
pub open spec fn spec_digits_value(s: Seq<u8>) -> nat
    decreases s.len(),
{
    if s.len() == 0 {
        0
    } else {
        spec_digits_value(s.drop_last()) * 10 + (s.last() - 48) as nat
    }
}

/// The unsigned integer written by `s`: `None` when `s` is empty, holds a
/// byte that is not a digit, or denotes a value above `u64::MAX`.
pub open spec fn spec_parse_u64_digits(s: Seq<u8>) -> Option<u64> {
    if s.len() == 0 || !spec_all_digits(s) || spec_digits_value(s) > u64::MAX {
        None
    } else {
        Some(spec_digits_value(s) as u64)
    }
}

/// A digit string's value never decreases when digits are appended.
pub proof fn lemma_digits_prefix_le(s: Seq<u8>, j: int)
    requires
        spec_all_digits(s),
        0 <= j <= s.len(),
    ensures
        spec_digits_value(s.take(j)) <= spec_digits_value(s),
    decreases s.len(),
{
    if j < s.len() {
        assert(s.drop_last().take(j) =~= s.take(j));
        assert(spec_all_digits(s.drop_last()));
        lemma_digits_prefix_le(s.drop_last(), j);
    } else {
        assert(s.take(j) =~= s);
    }
}

/// A string of `k` digits denotes a value below `10^k`.
pub proof fn lemma_digits_below_pow10(s: Seq<u8>)
    requires
        spec_all_digits(s),
    ensures
        spec_digits_value(s) < spec_pow10(s.len()),
    decreases s.len(),
{
    if s.len() > 0 {
        assert(spec_all_digits(s.drop_last()));
        lemma_digits_below_pow10(s.drop_last());
        let p = spec_pow10((s.len() - 1) as nat);
        let v = spec_digits_value(s.drop_last());
        assert(spec_is_digit(s[s.len() - 1]));
        assert(v * 10 + 9 < p * 10) by (nonlinear_arith)
            requires
                v < p,
        ;
    }
}

/// Appending one digit to a prefix extends its value.
proof fn lemma_digits_step(s: Seq<u8>, i: int)
    requires
        0 <= i < s.len(),
    ensures
        spec_digits_value(s.take(i + 1)) == spec_digits_value(s.take(i)) * 10 + (s[i] - 48) as nat,
{
    assert(s.take(i + 1).drop_last() =~= s.take(i));
}

/// Parses the digits `value[lo..hi]`; see [`spec_parse_u64_digits`].
fn parse_digits_in(value: &[u8], lo: usize, hi: usize) -> (r: Option<u64>)
    requires
        lo <= hi <= value@.len(),
    ensures
        r == spec_parse_u64_digits(value@.subrange(lo as int, hi as int)),
{
    let ghost s = value@.subrange(lo as int, hi as int);
    if hi == lo {
        return None;
    }
    let mut out: u64 = 0;
    let mut i: usize = lo;
    assert(s.take(0) =~= Seq::<u8>::empty());
    while i < hi
        invariant
            lo <= i <= hi,
            hi <= value@.len(),
            s == value@.subrange(lo as int, hi as int),
            s.len() > 0,
            spec_all_digits(s.take(i - lo)),
            out as nat == spec_digits_value(s.take(i - lo)),
        decreases hi - i,
    {
        let b = value[i];
        assert(s[i - lo] == b);
        if !(48 <= b && b <= 57) {
            return None;
        }
        proof {
            lemma_digits_step(s, i - lo);
            assert(spec_all_digits(s.take(i - lo + 1))) by {
                assert forall|j: int| 0 <= j < i - lo + 1 implies spec_is_digit(
                    #[trigger] s.take(i - lo + 1)[j],
                ) by {
                    if j < i - lo {
                        assert(s.take(i - lo + 1)[j] == s.take(i - lo)[j]);
                    }
                }
            }
        }
        let digit = (b - 48) as u64;
        if out > (u64::MAX - digit) / 10 {
            proof {
                if spec_all_digits(s) {
                    lemma_digits_prefix_le(s, i - lo + 1);
                    assert(out * 10 + digit > u64::MAX) by (nonlinear_arith)
                        requires
                            out > (u64::MAX - digit) / 10,
                            digit <= 9,
                    ;
                }
            }
            return None;
        }
        proof {
            assert(out * 10 + digit <= u64::MAX) by (nonlinear_arith)
                requires
                    out <= (u64::MAX - digit) / 10,
                    digit <= 9,
            ;
        }
        out = out * 10 + digit;
        i = i + 1;
    }
    assert(s.take(i - lo) =~= s);
    Some(out)
}

/// Parses a non-empty string of decimal digits into a `u64`; `None` on an
/// empty string, a non-digit or overflow.
pub fn parse_u64_digits(value: &[u8]) -> (r: Option<u64>)
    ensures
        r == spec_parse_u64_digits(value@),
{
    assert(value@.subrange(0, value@.len() as int) =~= value@);
    parse_digits_in(value, 0, value.len())
}

/// Parses fixed-width decimal digits; identical in behaviour to
/// [`parse_u64_digits`].
pub fn parse_fixed_digits(value: &[u8]) -> (r: Option<u64>)
    ensures
        r == spec_parse_u64_digits(value@),
{
    parse_u64_digits(value)
}

/// The index of the first `.` in `s`, or its length when it has none.
pub open spec fn spec_dot_pos(s: Seq<u8>) -> nat
    decreases s.len(),
{
    if s.len() == 0 {
        0
    } else if spec_dot_pos(s.drop_last()) < s.len() - 1 {
        spec_dot_pos(s.drop_last())
    } else if s.last() == 46 {
        (s.len() - 1) as nat
    } else {
        s.len()
    }
}

/// The digits after the first `.` of `s` (empty without one).
pub open spec fn spec_fraction_part(s: Seq<u8>) -> Seq<u8> {
    if spec_dot_pos(s) < s.len() {
        s.skip(spec_dot_pos(s) + 1int)
    } else {
        Seq::empty()
    }
}

/// The decimal `s` (`digits[.digits]`) scaled by `scale` into an integer:
/// `None` when `s` is empty, `scale < 1`, a byte is not a digit (a second
/// `.` included), the fraction has more than 18 digits or is finer than the
/// scale, or a value exceeds `i64::MAX`.
pub open spec fn spec_parse_scaled(s: Seq<u8>, scale: i64) -> Option<i64> {
    let ip = s.take(spec_dot_pos(s) as int);
    let fp = spec_fraction_part(s);
    let iv = spec_digits_value(ip);
    let k = fp.len();
    let fv = spec_digits_value(fp);
    if s.len() == 0 || scale < 1 || !spec_all_digits(ip) || !spec_all_digits(fp) {
        None
    } else if iv > i64::MAX || k > 18 || iv * scale > i64::MAX {
        None
    } else if k == 0 {
        Some((iv * scale) as i64)
    } else if (scale as int) % (spec_pow10(k) as int) != 0 {
        None
    } else if iv * scale + fv * ((scale as int) / (spec_pow10(k) as int)) > i64::MAX {
        None
    } else {
        Some((iv * scale + fv * ((scale as int) / (spec_pow10(k) as int))) as i64)
    }
}

/// The first-dot position of a prefix, step by step.
proof fn lemma_dot_pos_step(s: Seq<u8>, i: int)
    requires
        0 <= i < s.len(),
    ensures
        spec_dot_pos(s.take(i)) <= i,
        spec_dot_pos(s.take(i + 1)) == if spec_dot_pos(s.take(i)) < i {
            spec_dot_pos(s.take(i))
        } else if s[i] == 46 {
            i as nat
        } else {
            (i + 1) as nat
        },
{
    assert(s.take(i + 1).drop_last() =~= s.take(i));
    lemma_dot_pos_le(s.take(i));
}

/// The first-dot position never exceeds the length.
proof fn lemma_dot_pos_le(s: Seq<u8>)
    ensures
        spec_dot_pos(s) <= s.len(),
    decreases s.len(),
{
    if s.len() > 0 {
        lemma_dot_pos_le(s.drop_last());
    }
}

/// Once a dot is found in a prefix, longer prefixes keep its position.
proof fn lemma_dot_pos_stable(s: Seq<u8>, i: int, j: int)
    requires
        0 <= i <= j <= s.len(),
        spec_dot_pos(s.take(i)) < i,
    ensures
        spec_dot_pos(s.take(j)) == spec_dot_pos(s.take(i)),
    decreases j - i,
{
    if j > i {
        lemma_dot_pos_stable(s, i, j - 1);
        lemma_dot_pos_step(s, j - 1);
    }
}

/// Without a dot in a prefix, that prefix has no `.` byte.
proof fn lemma_no_dot_before(s: Seq<u8>, i: int)
    requires
        0 <= i <= s.len(),
        spec_dot_pos(s.take(i)) == i,
    ensures
        forall|j: int| 0 <= j < i ==> s[j] != 46,
    decreases i,
{
    if i > 0 {
        lemma_dot_pos_step(s, i - 1);
        lemma_no_dot_before(s, i - 1);
    }
}

/// A prefix without a dot keeps the first-dot position of the whole at or
/// after its end.
proof fn lemma_dot_pos_prefix(s: Seq<u8>, j: int)
    requires
        0 <= j <= s.len(),
        spec_dot_pos(s.take(j)) == j,
    ensures
        spec_dot_pos(s) >= j,
{
    lemma_dot_pos_prefix_upto(s, j, s.len() as int);
    assert(s.take(s.len() as int) =~= s);
}

/// Induction step of [`lemma_dot_pos_prefix`].
proof fn lemma_dot_pos_prefix_upto(s: Seq<u8>, j: int, m: int)
    requires
        0 <= j <= m <= s.len(),
        spec_dot_pos(s.take(j)) == j,
    ensures
        spec_dot_pos(s.take(m)) >= j,
    decreases m - j,
{
    if m > j {
        lemma_dot_pos_prefix_upto(s, j, m - 1);
        lemma_dot_pos_step(s, m - 1);
    }
}

/// `10^18` fits in `i64` and `10^19` does not.
proof fn lemma_pow10_i64_bounds()
    ensures
        spec_pow10(18) == 1_000_000_000_000_000_000nat,
        spec_pow10(19) == 10_000_000_000_000_000_000nat,
{
    reveal_with_fuel(spec_pow10, 20);
}

/// Powers of ten grow with the exponent.
proof fn lemma_pow10_mono(a: nat, b: nat)
    requires
        a <= b,
    ensures
        spec_pow10(a) <= spec_pow10(b),
        spec_pow10(a) >= 1,
    decreases b,
{
    if b > a {
        lemma_pow10_mono(a, (b - 1) as nat);
    } else if a > 0 {
        lemma_pow10_mono((a - 1) as nat, (a - 1) as nat);
    }
}

/// Digit facts for a byte known to be a digit.
proof fn lemma_all_digits_take_push(s: Seq<u8>, lo: int, i: int)
    requires
        0 <= lo <= i < s.len(),
        spec_all_digits(s.subrange(lo, i)),
        spec_is_digit(s[i]),
    ensures
        spec_all_digits(s.subrange(lo, i + 1)),
        s.subrange(lo, i + 1).drop_last() == s.subrange(lo, i),
        s.subrange(lo, i + 1).last() == s[i],
{
    assert(s.subrange(lo, i + 1).drop_last() =~= s.subrange(lo, i));
    assert forall|j: int| 0 <= j < i + 1 - lo implies spec_is_digit(
        #[trigger] s.subrange(lo, i + 1)[j],
    ) by {
        if j < i - lo {
            assert(s.subrange(lo, i + 1)[j] == s.subrange(lo, i)[j]);
        }
    }
}

/// Parses a decimal string scaled into an integer; see [`spec_parse_scaled`].
pub fn parse_scaled(value: &[u8], scale: i64) -> (r: Option<i64>)
    ensures
        r == spec_parse_scaled(value@, scale),
{
    let ghost s = value@;
    if value.len() == 0 || scale < 1 {
        return None;
    }
    let mut whole: i64 = 0;
    let mut frac: i64 = 0;
    let mut frac_divisor: i64 = 1;
    let mut seen_dot = false;
    let mut i: usize = 0;
    let ghost mut dot: int = 0;
    proof {
        lemma_pow10_i64_bounds();
        assert(s.take(0) =~= Seq::<u8>::empty());
        assert(s.subrange(0, 0) =~= Seq::<u8>::empty());
    }
    while i < value.len()
        invariant
            s == value@,
            s.len() > 0,
            scale >= 1,
            i <= s.len(),
            spec_pow10(18) == 1_000_000_000_000_000_000nat,
            spec_pow10(19) == 10_000_000_000_000_000_000nat,
            !seen_dot ==> spec_dot_pos(s.take(i as int)) == i && dot == i,
            !seen_dot ==> spec_all_digits(s.take(i as int)) && whole as int == spec_digits_value(
                s.take(i as int),
            ) as int && frac == 0 && frac_divisor == 1,
            seen_dot ==> 0 <= dot < i && spec_dot_pos(s.take(i as int)) == dot && s[dot] == 46,
            seen_dot ==> spec_all_digits(s.take(dot)) && whole as int == spec_digits_value(s.take(dot)) as int,
            seen_dot ==> spec_all_digits(s.subrange(dot + 1, i as int)) && frac as int
                == spec_digits_value(s.subrange(dot + 1, i as int)) as int && frac_divisor as int
                == spec_pow10((i - dot - 1) as nat) as int && i - dot - 1 <= 18,
            frac_divisor >= 1,
            whole >= 0,
            frac >= 0,
        decreases s.len() - i,
    {
        let b = value[i];
        proof {
            lemma_dot_pos_step(s, i as int);
        }
        if b == 46 && !seen_dot {
            seen_dot = true;
            proof {
                dot = i as int;
                assert(spec_pow10(0) == 1);
                assert(s.subrange(dot + 1, i + 1) =~= Seq::<u8>::empty());
                assert(s.take(i + 1).take(dot) =~= s.take(dot));
            }
            i = i + 1;
            continue;
        }
        if !(48 <= b && b <= 57) {
            proof {
                if !seen_dot {
                    lemma_dot_pos_prefix(s, (i + 1) as int);
                    assert(s.take(s.len() as int) =~= s);
                    assert(s.take(spec_dot_pos(s) as int)[i as int] == b);
                } else {
                    lemma_dot_pos_stable(s, i as int, s.len() as int);
                    assert(s.take(s.len() as int) =~= s);
                    assert(spec_fraction_part(s)[i - dot - 1] == b);
                }
            }
            return None;
        }
        let digit = (b - 48) as i64;
        if seen_dot {
            if frac_divisor > i64::MAX / 10 {
                proof {
                    lemma_dot_pos_stable(s, i as int, s.len() as int);
                    assert(s.take(s.len() as int) =~= s);
                    assert(i - dot - 1 == 18) by {
                        if i - dot - 1 < 18 {
                            lemma_pow10_mono((i - dot - 1) as nat, 17);
                            reveal_with_fuel(spec_pow10, 19);
                        }
                    }
                }
                return None;
            }
            proof {
                assert(i - dot - 1 < 18) by {
                    if i - dot - 1 >= 18 {
                        lemma_pow10_mono(18, (i - dot - 1) as nat);
                    }
                }
                lemma_all_digits_take_push(s, dot + 1, i as int);
                lemma_digits_below_pow10(s.subrange(dot + 1, i as int));
                assert(s.subrange(dot + 1, i as int).len() == i - dot - 1);
                assert(frac < frac_divisor);
                assert(spec_pow10((i + 1 - dot - 1) as nat) == 10 * spec_pow10((i - dot - 1) as nat));
                assert(frac * 10 + digit < 10 * frac_divisor) by (nonlinear_arith)
                    requires
                        frac < frac_divisor,
                        0 <= digit <= 9,
                ;
                lemma_dot_pos_stable(s, i as int, (i + 1) as int);
            }
            frac_divisor = frac_divisor * 10;
            frac = frac * 10 + digit;
        } else {
            proof {
                lemma_digits_step(s, i as int);
            }
            if whole > (i64::MAX - digit) / 10 {
                proof {
                    assert(whole * 10 + digit > i64::MAX) by (nonlinear_arith)
                        requires
                            whole > (i64::MAX - digit) / 10,
                            0 <= digit <= 9,
                    ;
                    lemma_dot_pos_le(s);
                    lemma_dot_pos_prefix(s, (i + 1) as int);
                    if spec_all_digits(s.take(spec_dot_pos(s) as int)) {
                        let ip = s.take(spec_dot_pos(s) as int);
                        assert(ip.take(i + 1) =~= s.take(i + 1));
                        lemma_digits_prefix_le(ip, i + 1);
                    }
                }
                return None;
            }
            proof {
                assert(whole * 10 + digit <= i64::MAX) by (nonlinear_arith)
                    requires
                        whole <= (i64::MAX - digit) / 10,
                        0 <= digit <= 9,
                ;
                assert(spec_all_digits(s.take(i + 1))) by {
                    assert forall|j: int| 0 <= j < i + 1 implies spec_is_digit(
                        #[trigger] s.take(i + 1)[j],
                    ) by {
                        if j < i {
                            assert(s.take(i + 1)[j] == s.take(i as int)[j]);
                        }
                    }
                }
                dot = i + 1;
            }
            whole = whole * 10 + digit;
        }
        i = i + 1;
    }
    proof {
        assert(s.take(s.len() as int) =~= s);
        if seen_dot {
            assert(spec_fraction_part(s) =~= s.subrange(dot + 1, s.len() as int));
        } else {
            assert(spec_fraction_part(s) =~= Seq::<u8>::empty());
        }
    }
    if whole > i64::MAX / scale {
        proof {
            assert(whole * scale > i64::MAX) by (nonlinear_arith)
                requires
                    whole > i64::MAX / scale,
                    scale >= 1,
            ;
        }
        return None;
    }
    proof {
        assert(whole * scale <= i64::MAX) by (nonlinear_arith)
            requires
                whole <= i64::MAX / scale,
                scale >= 1,
                whole >= 0,
        ;
    }
    let scaled_int = whole * scale;
    if frac_divisor == 1 {
        proof {
            if seen_dot {
                assert(i - dot - 1 == 0) by {
                    if i - dot - 1 > 0 {
                        lemma_pow10_mono(1, (i - dot - 1) as nat);
                        reveal_with_fuel(spec_pow10, 2);
                    }
                }
            }
        }
        return Some(scaled_int);
    }
    proof {
        assert(spec_pow10(0) == 1);
        assert(seen_dot);
        assert(i - dot - 1 > 0);
        lemma_pow10_mono(0, (i - dot - 1) as nat);
    }
    if scale % frac_divisor != 0 {
        return None;
    }
    let unit = scale / frac_divisor;
    if frac > 0 && unit > i64::MAX / frac {
        proof {
            assert(frac * unit > i64::MAX) by (nonlinear_arith)
                requires
                    unit > i64::MAX / frac,
                    frac > 0,
            ;
        }
        return None;
    }
    proof {
        assert(frac * unit <= i64::MAX) by (nonlinear_arith)
            requires
                frac == 0 || unit <= i64::MAX / frac,
                frac >= 0,
                unit >= 0,
        ;
    }
    let frac_scaled = frac * unit;
    if scaled_int > i64::MAX - frac_scaled {
        return None;
    }
    Some(scaled_int + frac_scaled)
}

/// True in a Gregorian leap year.
pub open spec fn spec_is_leap_year(year: int) -> bool {
    year % 4 == 0 && (year % 100 != 0 || year % 400 == 0)
}

/// Days in `month` (1..=12) of `year`; zero for any other month.
pub open spec fn spec_days_in_month(year: int, month: int) -> int {
    if month == 1 || month == 3 || month == 5 || month == 7 || month == 8 || month == 10
        || month == 12 {
        31
    } else if month == 4 || month == 6 || month == 9 || month == 11 {
        30
    } else if month == 2 {
        if spec_is_leap_year(year) {
            29
        } else {
            28
        }
    } else {
        0
    }
}

/// Days in a month of a Gregorian year.
pub fn days_in_month(year: i64, month: u32) -> (r: u32)
    ensures
        r as int == spec_days_in_month(year as int, month as int),
{
    match month {
        1 | 3 | 5 | 7 | 8 | 10 | 12 => 31,
        4 | 6 | 9 | 11 => 30,
        2 => {
            if year % 4 == 0 && (year % 100 != 0 || year % 400 == 0) {
                29
            } else {
                28
            }
        },
        _ => 0,
    }
}

/// Days from 1970-01-01 to the Gregorian date `year-month-day`, by the
/// era-based civil-calendar formula (eras of 400 years, March-based years).
pub open spec fn spec_days_from_civil(year: int, month: int, day: int) -> int {
    let y = if month <= 2 {
        year - 1
    } else {
        year
    };
    let era = y / 400;
    let yoe = y - era * 400;
    let mp = if month > 2 {
        month - 3
    } else {
        month + 9
    };
    let doy = (153 * mp + 2) / 5 + day - 1;
    let doe = yoe * 365 + yoe / 4 - yoe / 100 + doy;
    era * 146097 + doe - 719468
}

/// Days from 1970-01-01 to a Gregorian date of years 0 to 9999.
pub(crate) fn days_from_civil(year: i64, month: u32, day: u32) -> (r: Option<i64>)
    requires
        0 <= year <= 9999,
        1 <= month <= 12,
        1 <= day <= 31,
    ensures
        r == Some(spec_days_from_civil(year as int, month as int, day as int) as i64),
        -719468 - 366 <= spec_days_from_civil(year as int, month as int, day as int) <= 4_000_000,
{
    let adjusted_year: i64 = if month <= 2 {
        year - 1
    } else {
        year
    };
    let era: i64 = if adjusted_year >= 0 {
        adjusted_year / 400
    } else {
        -1
    };
    let year_of_era: i64 = adjusted_year - era * 400;
    let adjusted_month: i64 = if month > 2 {
        month as i64 - 3
    } else {
        month as i64 + 9
    };
    let day_of_year: i64 = (153 * adjusted_month + 2) / 5 + day as i64 - 1;
    let day_of_era: i64 = year_of_era * 365 + year_of_era / 4 - year_of_era / 100 + day_of_year;
    proof {
        assert(adjusted_year / 400 == era);
    }
    Some(era * 146097 + day_of_era - 719468)
}

/// The nanoseconds of the fraction `f` that follows the seconds of a FIX
/// UTC timestamp: empty, or `.` and one to nine digits.
pub open spec fn spec_timestamp_fraction_ns(f: Seq<u8>) -> Option<u64> {
    if f.len() == 0 {
        Some(0)
    } else if f[0] != 46 || f.len() - 1 == 0 || f.len() - 1 > 9 || !spec_all_digits(f.skip(1)) {
        None
    } else {
        Some((spec_digits_value(f.skip(1)) * spec_pow10((9 - (f.len() - 1)) as nat)) as u64)
    }
}

/// The Unix nanoseconds of the FIX UTC timestamp `YYYYMMDD-HH:MM:SS[.f]`
/// (one to nine fractional digits): `None` for any other shape, a date
/// before 1970 or not in the calendar, a time out of range (a leap second
/// `60` is accepted), or a value above `u64::MAX`.
pub open spec fn spec_parse_fix_utc_timestamp_ns(v: Seq<u8>) -> Option<u64> {
    if v.len() < 17 || v[8] != 45 || v[11] != 58 || v[14] != 58 {
        None
    } else {
        let year = spec_parse_u64_digits(v.subrange(0, 4));
        let month = spec_parse_u64_digits(v.subrange(4, 6));
        let day = spec_parse_u64_digits(v.subrange(6, 8));
        let hour = spec_parse_u64_digits(v.subrange(9, 11));
        let minute = spec_parse_u64_digits(v.subrange(12, 14));
        let second = spec_parse_u64_digits(v.subrange(15, 17));
        if year is None || month is None || day is None || hour is None || minute is None
            || second is None {
            None
        } else {
            let y = year->0 as int;
            let mo = month->0 as int;
            let d = day->0 as int;
            let h = hour->0 as int;
            let mi = minute->0 as int;
            let se = second->0 as int;
            if y < 1970 || mo < 1 || mo > 12 || d == 0 || d > spec_days_in_month(y, mo) || h > 23
                || mi > 59 || se > 60 {
                None
            } else {
                match spec_timestamp_fraction_ns(v.skip(17)) {
                    None => None,
                    Some(f) => {
                        let secs = spec_days_from_civil(y, mo, d) * 86400 + h * 3600 + mi * 60
                            + se;
                        let ns = secs * 1_000_000_000 + f;
                        if ns > u64::MAX {
                            None
                        } else {
                            Some(ns as u64)
                        }
                    },
                }
            }
        }
    }
}

/// Parses the fraction of a FIX UTC timestamp that starts at `start`.
fn parse_timestamp_fraction(value: &[u8], start: usize) -> (r: Option<u64>)
    requires
        start <= value@.len(),
    ensures
        r == spec_timestamp_fraction_ns(value@.skip(start as int)),
{
    let ghost f = value@.skip(start as int);
    if value.len() == start {
        return Some(0);
    }
    assert(f[0] == value@[start as int]);
    if value[start] != 46 {
        return None;
    }
    let n = value.len() - start - 1;
    if n == 0 || n > 9 {
        return None;
    }
    assert(value@.subrange(start + 1, value@.len() as int) =~= f.skip(1));
    let digits = parse_digits_in(value, start + 1, value.len());
    match digits {
        None => {
            proof {
                if spec_all_digits(f.skip(1)) {
                    lemma_digits_below_pow10(f.skip(1));
                    lemma_pow10_mono(f.skip(1).len(), 9);
                    reveal_with_fuel(spec_pow10, 10);
                }
            }
            None
        },
        Some(d) => {
            proof {
                lemma_digits_below_pow10(f.skip(1));
                lemma_pow10_mono(f.skip(1).len(), 9);
                lemma_pow10_mono((9 - n) as nat, 9);
                reveal_with_fuel(spec_pow10, 10);
            }
            let mut scale: u64 = 1;
            let mut k: usize = n;
            while k < 9
                invariant
                    n <= k <= 9,
                    scale as nat == spec_pow10((k - n) as nat),
                    spec_pow10(8) == 100_000_000,
                decreases 9 - k,
            {
                proof {
                    lemma_pow10_mono((k - n) as nat, 8);
                }
                scale = scale * 10;
                k = k + 1;
            }
            proof {
                assert(d * scale < 1_000_000_000 * 1_000_000_000) by (nonlinear_arith)
                    requires
                        d < spec_pow10(n as nat),
                        scale == spec_pow10((9 - n) as nat),
                        spec_pow10(n as nat) <= 1_000_000_000,
                        spec_pow10((9 - n) as nat) <= 1_000_000_000,
                ;
            }
            Some(d * scale)
        },
    }
}

/// Parses a FIX UTC timestamp into Unix nanoseconds; see
/// [`spec_parse_fix_utc_timestamp_ns`].
pub fn parse_fix_utc_timestamp_ns(value: &[u8]) -> (r: Option<u64>)
    ensures
        r == spec_parse_fix_utc_timestamp_ns(value@),
{
    if value.len() < 17 || value[8] != 45 || value[11] != 58 || value[14] != 58 {
        return None;
    }
    let year = match parse_digits_in(value, 0, 4) {
        Some(v) => v,
        None => return None,
    };
    let month = match parse_digits_in(value, 4, 6) {
        Some(v) => v,
        None => return None,
    };
    let day = match parse_digits_in(value, 6, 8) {
        Some(v) => v,
        None => return None,
    };
    let hour = match parse_digits_in(value, 9, 11) {
        Some(v) => v,
        None => return None,
    };
    let minute = match parse_digits_in(value, 12, 14) {
        Some(v) => v,
        None => return None,
    };
    let second = match parse_digits_in(value, 15, 17) {
        Some(v) => v,
        None => return None,
    };
    proof {
        lemma_two_digit_bound(value@.subrange(4, 6));
        lemma_two_digit_bound(value@.subrange(6, 8));
        lemma_two_digit_bound(value@.subrange(9, 11));
        lemma_two_digit_bound(value@.subrange(12, 14));
        lemma_two_digit_bound(value@.subrange(15, 17));
        lemma_digits_below_pow10(value@.subrange(0, 4));
        reveal_with_fuel(spec_pow10, 5);
    }
    if year < 1970 || month < 1 || month > 12 || day == 0 {
        return None;
    }
    let year_i: i64 = year as i64;
    let month_u: u32 = month as u32;
    let day_u: u32 = day as u32;
    if day_u > days_in_month(year_i, month_u) || hour > 23 || minute > 59 || second > 60 {
        return None;
    }
    let fraction_ns = match parse_timestamp_fraction(value, 17) {
        Some(f) => f,
        None => return None,
    };
    let days = match days_from_civil(year_i, month_u, day_u) {
        Some(d) => d,
        None => return None,
    };
    proof {
        assert(spec_days_from_civil(year as int, month as int, day as int) >= 0) by {
            lemma_days_from_civil_nonneg(year as int, month as int, day as int);
        }
    }
    let days_u: u64 = days as u64;
    let seconds: u64 = days_u * 86400 + hour * 3600 + minute * 60 + second;
    if seconds > (u64::MAX - fraction_ns) / 1_000_000_000 {
        proof {
            assert(seconds * 1_000_000_000 + fraction_ns > u64::MAX) by (nonlinear_arith)
                requires
                    seconds > (u64::MAX - fraction_ns) / 1_000_000_000,
                    fraction_ns <= u64::MAX,
            ;
        }
        return None;
    }
    proof {
        assert(seconds * 1_000_000_000 + fraction_ns <= u64::MAX) by (nonlinear_arith)
            requires
                seconds <= (u64::MAX - fraction_ns) / 1_000_000_000,
                fraction_ns <= u64::MAX,
        ;
    }
    Some(seconds * 1_000_000_000 + fraction_ns)
}

/// Two parsed digits denote at most `99`.
proof fn lemma_two_digit_bound(s: Seq<u8>)
    requires
        s.len() == 2,
    ensures
        spec_parse_u64_digits(s) matches Some(v) ==> v <= 99,
{
    if spec_all_digits(s) {
        lemma_digits_below_pow10(s);
        reveal_with_fuel(spec_pow10, 3);
    }
}

/// Dates from 1970 on are at or after day zero.
proof fn lemma_days_from_civil_nonneg(year: int, month: int, day: int)
    requires
        1970 <= year <= 9999,
        1 <= month <= 12,
        1 <= day <= 31,
    ensures
        spec_days_from_civil(year, month, day) >= 0,
{
    let y = if month <= 2 {
        year - 1
    } else {
        year
    };
    let era = y / 400;
    let yoe = y - era * 400;
    assert(0 <= yoe < 400);
    assert(era >= 4);
    let mp = if month > 2 {
        month - 3
    } else {
        month + 9
    };
    assert((153 * mp + 2) / 5 >= 0);
    assert(era * 146097 >= 584388) by (nonlinear_arith)
        requires
            era >= 4,
    ;
    if era == 4 {
        assert(yoe >= 369);
        assert(yoe * 365 >= 134685) by (nonlinear_arith)
            requires
                yoe >= 369,
        ;
    } else {
        assert(era * 146097 >= 730485) by (nonlinear_arith)
            requires
                era >= 5,
        ;
    }
}

/// True when `v` is a power of ten (`1`, `10`, `100`, ...).
pub open spec fn spec_is_pow10(v: int) -> bool {
    exists|k: nat| v == spec_pow10(k) as int
}

/// The exponent `k` with `v == 10^k`, for a power of ten `v`.
pub open spec fn spec_log10(v: int) -> nat {
    choose|k: nat| v == spec_pow10(k) as int
}

/// `s` without its trailing `0` bytes.
pub open spec fn spec_trim_trailing_zeros(s: Seq<u8>) -> Seq<u8>
    decreases s.len(),
{
    if s.len() > 0 && s.last() == 48 {
        spec_trim_trailing_zeros(s.drop_last())
    } else {
        s
    }
}

/// The decimal digits of `v` left-padded with `0` to `width` bytes.
pub open spec fn spec_padded_decimal(v: nat, width: nat) -> Seq<u8> {
    let d = spec_decimal_ascii(v);
    if d.len() < width {
        Seq::new((width - d.len()) as nat, |i: int| 48u8) + d
    } else {
        d
    }
}

/// The decimal text of `value / 10^places`: the whole part, then, when
/// there is a remainder, `.` and the `places`-digit fraction without its
/// trailing zeros.
pub open spec fn spec_scaled_text(value: nat, places: nat) -> Seq<u8> {
    let scale = spec_pow10(places);
    let whole = value / scale;
    let rem = value % scale;
    if rem == 0 {
        spec_decimal_ascii(whole)
    } else {
        spec_decimal_ascii(whole) + seq![46u8] + spec_trim_trailing_zeros(
            spec_padded_decimal(rem, places),
        )
    }
}

/// Which integer field is being formatted.
#[derive(Debug, Clone, Copy, PartialEq, Eq, Structural)]
pub enum ScaledField {
    /// A quantity.
    Quantity,
    /// A price.
    Price,
}

/// The error for a non-positive value of `field`.
pub open spec fn spec_field_error(field: ScaledField) -> FixRequestEncodeError {
    match field {
        ScaledField::Quantity => FixRequestEncodeError::InvalidQuantity,
        ScaledField::Price => FixRequestEncodeError::InvalidPrice,
    }
}

/// The text of `value` scaled down by `scale`: the field's error when the
/// value is not positive, `InvalidScale` when the scale is not a power of
/// ten.
pub open spec fn spec_encode_scaled(value: i64, scale: i64, field: ScaledField) -> Result<
    Seq<u8>,
    FixRequestEncodeError,
> {
    if value <= 0 {
        Err(spec_field_error(field))
    } else if !spec_is_pow10(scale as int) {
        Err(FixRequestEncodeError::InvalidScale)
    } else {
        Ok(spec_scaled_text(value as nat, spec_log10(scale as int)))
    }
}

/// Powers of ten strictly grow with the exponent.
proof fn lemma_pow10_strict(a: nat, b: nat)
    requires
        a < b,
    ensures
        spec_pow10(a) < spec_pow10(b),
    decreases b,
{
    lemma_pow10_mono(a, (b - 1) as nat);
}

/// A power of ten has exactly one exponent.
proof fn lemma_log10_of_pow10(k: nat)
    ensures
        spec_is_pow10(spec_pow10(k) as int),
        spec_log10(spec_pow10(k) as int) == k,
{
    assert(spec_is_pow10(spec_pow10(k) as int));
    let j = spec_log10(spec_pow10(k) as int);
    if j < k {
        lemma_pow10_strict(j, k);
    } else if j > k {
        lemma_pow10_strict(k, j);
    }
}

/// A power of ten above one is a multiple of ten, and its tenth is one.
proof fn lemma_pow10_div10(v: int)
    requires
        spec_is_pow10(v),
        v > 1,
    ensures
        v % 10 == 0,
        spec_is_pow10(v / 10),
        spec_log10(v) == spec_log10(v / 10) + 1,
{
    let k = spec_log10(v);
    if k == 0 {
        assert(spec_pow10(0) == 1);
    }
    assert(k > 0);
    let p = spec_pow10((k - 1) as nat);
    assert(v == 10 * p);
    lemma_log10_of_pow10((k - 1) as nat);
}

/// The number of decimal places of a power-of-ten scale; `InvalidScale`
/// for any other scale.
pub fn decimal_places(scale: i64) -> (r: Result<usize, FixRequestEncodeError>)
    ensures
        match r {
            Ok(k) => spec_is_pow10(scale as int) && k as nat == spec_log10(scale as int) && scale
                as int == spec_pow10(k as nat) as int,
            Err(e) => e == FixRequestEncodeError::InvalidScale && !spec_is_pow10(scale as int),
        },
{
    if scale < 1 {
        proof {
            if spec_is_pow10(scale as int) {
                lemma_pow10_mono(0, spec_log10(scale as int));
                assert(spec_pow10(0) == 1);
            }
        }
        return Err(FixRequestEncodeError::InvalidScale);
    }
    let mut rest = scale;
    let mut places: usize = 0;
    assert(spec_pow10(0) == 1);
    while rest > 1
        invariant
            1 <= rest <= scale,
            places <= 19,
            rest as int * spec_pow10(places as nat) as int == scale as int,
            spec_is_pow10(scale as int) <==> spec_is_pow10(rest as int),
            spec_is_pow10(rest as int) ==> spec_log10(scale as int) == spec_log10(rest as int)
                + places,
        decreases rest,
    {
        if rest % 10 != 0 {
            proof {
                if spec_is_pow10(rest as int) {
                    lemma_pow10_div10(rest as int);
                }
            }
            return Err(FixRequestEncodeError::InvalidScale);
        }
        proof {
            let r = rest as int;
            assert(r == (r / 10) * 10);
            if spec_is_pow10(r / 10) {
                let j = spec_log10(r / 10);
                assert(r == spec_pow10(j + 1) as int);
                assert(spec_is_pow10(r));
                lemma_pow10_div10(r);
            }
            if spec_is_pow10(r) {
                lemma_pow10_div10(r);
            }
            assert(spec_pow10((places + 1) as nat) == 10 * spec_pow10(places as nat));
            assert((r / 10) * spec_pow10((places + 1) as nat) == r * spec_pow10(places as nat))
                by (nonlinear_arith)
                requires
                    r == (r / 10) * 10,
                    spec_pow10((places + 1) as nat) == 10 * spec_pow10(places as nat),
            ;
            assert(places < 19) by {
                if places >= 19 {
                    lemma_pow10_mono(19, places as nat);
                    lemma_pow10_i64_bounds();
                    assert(rest as int * spec_pow10(places as nat) as int >= 2 * spec_pow10(
                        places as nat,
                    )) by (nonlinear_arith)
                        requires
                            rest >= 2,
                    ;
                }
            }
        }
        rest = rest / 10;
        places = places + 1;
    }
    proof {
        assert(rest == 1);
        assert(spec_pow10(0) == 1);
        lemma_log10_of_pow10(0);
        assert(spec_is_pow10(1));
        lemma_log10_of_pow10(places as nat);
    }
    Ok(places)
}

/// Appends the decimal digits of `value` left-padded with `0` to `width`.
fn push_padded_decimal(out: &mut Vec<u8>, value: u64, width: usize)
    ensures
        final(out)@ == old(out)@ + spec_padded_decimal(value as nat, width as nat),
{
    let mut digits: Vec<u8> = Vec::new();
    push_decimal(&mut digits, value);
    assert(digits@ =~= spec_decimal_ascii(value as nat));
    let mut pad: usize = 0;
    let ghost start = out@;
    let zeros: usize = if digits.len() < width {
        width - digits.len()
    } else {
        0
    };
    while pad < zeros
        invariant
            pad <= zeros,
            out@ == start + Seq::new(pad as nat, |i: int| 48u8),
        decreases zeros - pad,
    {
        out.push(48);
        pad = pad + 1;
        assert(out@ =~= start + Seq::new(pad as nat, |i: int| 48u8));
    }
    let mut i: usize = 0;
    while i < digits.len()
        invariant
            i <= digits@.len(),
            out@ == start + Seq::new(zeros as nat, |i: int| 48u8) + digits@.take(i as int),
        decreases digits@.len() - i,
    {
        out.push(digits[i]);
        i = i + 1;
        assert(out@ =~= start + Seq::new(zeros as nat, |i: int| 48u8) + digits@.take(i as int));
    }
    assert(digits@.take(i as int) =~= digits@);
    assert(out@ =~= start + spec_padded_decimal(value as nat, width as nat));
}

/// Formats a positive integer `value` scaled down by a power-of-ten
/// `scale` as decimal text; see [`spec_encode_scaled`].
pub fn encode_scaled(value: i64, scale: i64, field: ScaledField) -> (r: Result<
    Vec<u8>,
    FixRequestEncodeError,
>)
    ensures
        match spec_encode_scaled(value, scale, field) {
            Ok(text) => r matches Ok(v) && v@ == text,
            Err(e) => r == Err::<Vec<u8>, FixRequestEncodeError>(e),
        },
{
    if value <= 0 {
        return Err(match field {
            ScaledField::Quantity => FixRequestEncodeError::InvalidQuantity,
            ScaledField::Price => FixRequestEncodeError::InvalidPrice,
        });
    }
    let places = match decimal_places(scale) {
        Ok(k) => k,
        Err(e) => return Err(e),
    };
    proof {
        lemma_pow10_mono(0, places as nat);
        assert(spec_pow10(0) == 1);
    }
    let v: u64 = value as u64;
    let sc: u64 = scale as u64;
    let whole = v / sc;
    let rem = v % sc;
    let mut out: Vec<u8> = Vec::new();
    push_decimal(&mut out, whole);
    assert(out@ =~= spec_decimal_ascii(whole as nat));
    if rem == 0 {
        return Ok(out);
    }
    let mut frac: Vec<u8> = Vec::new();
    push_padded_decimal(&mut frac, rem, places);
    let ghost padded = frac@;
    assert(padded =~= spec_padded_decimal(rem as nat, places as nat));
    while frac.len() > 0 && frac[frac.len() - 1] == 48
        invariant
            spec_trim_trailing_zeros(frac@) == spec_trim_trailing_zeros(padded),
        decreases frac@.len(),
    {
        let ghost before = frac@;
        frac.pop();
        assert(frac@ =~= before.drop_last());
    }
    assert(spec_trim_trailing_zeros(frac@) == frac@);
    out.push(46);
    let mut i: usize = 0;
    let ghost head = out@;
    while i < frac.len()
        invariant
            i <= frac@.len(),
            out@ == head + frac@.take(i as int),
        decreases frac@.len() - i,
    {
        out.push(frac[i]);
        i = i + 1;
        assert(out@ =~= head + frac@.take(i as int));
    }
    assert(frac@.take(i as int) =~= frac@);
    assert(out@ =~= spec_decimal_ascii(whole as nat) + seq![46u8] + spec_trim_trailing_zeros(
        spec_padded_decimal(rem as nat, places as nat),
    ));
    Ok(out)
}

/// The FIX side of a canonical side.
pub open spec fn spec_map_side_to_fix(value: OrderSide) -> FixOrderSide {
    match value {
        OrderSide::Buy => FixOrderSide::Buy,
        OrderSide::Sell => FixOrderSide::Sell,
    }
}

/// The FIX order type of a canonical order type.
pub open spec fn spec_map_order_type_to_fix(value: OrderType) -> FixOrdType {
    match value {
        OrderType::Market => FixOrdType::Market,
        OrderType::Limit => FixOrdType::Limit,
        OrderType::Stop => FixOrdType::Stop,
        OrderType::StopLimit => FixOrdType::StopLimit,
    }
}

/// The FIX time in force of a canonical time in force.
pub open spec fn spec_map_tif_to_fix(value: TimeInForce) -> FixTimeInForce {
    match value {
        TimeInForce::Day => FixTimeInForce::Day,
        TimeInForce::Gtc => FixTimeInForce::GoodTillCancel,
        TimeInForce::Ioc => FixTimeInForce::ImmediateOrCancel,
        TimeInForce::Fok => FixTimeInForce::FillOrKill,
        TimeInForce::Gtd => FixTimeInForce::GoodTillDate,
    }
}

/// Maps a canonical side to FIX.
pub fn map_side_to_fix(value: OrderSide) -> (r: FixOrderSide)
    ensures
        r == spec_map_side_to_fix(value),
{
    match value {
        OrderSide::Buy => FixOrderSide::Buy,
        OrderSide::Sell => FixOrderSide::Sell,
    }
}

/// Maps a canonical order type to FIX; every canonical type has a FIX value.
pub fn map_order_type_to_fix(value: OrderType) -> (r: Result<FixOrdType, FixRequestEncodeError>)
    ensures
        r == Ok::<FixOrdType, FixRequestEncodeError>(spec_map_order_type_to_fix(value)),
{
    match value {
        OrderType::Market => Ok(FixOrdType::Market),
        OrderType::Limit => Ok(FixOrdType::Limit),
        OrderType::Stop => Ok(FixOrdType::Stop),
        OrderType::StopLimit => Ok(FixOrdType::StopLimit),
    }
}

/// Maps a canonical time in force to FIX.
pub fn map_tif_to_fix(value: TimeInForce) -> (r: FixTimeInForce)
    ensures
        r == spec_map_tif_to_fix(value),
{
    match value {
        TimeInForce::Day => FixTimeInForce::Day,
        TimeInForce::Gtc => FixTimeInForce::GoodTillCancel,
        TimeInForce::Ioc => FixTimeInForce::ImmediateOrCancel,
        TimeInForce::Fok => FixTimeInForce::FillOrKill,
        TimeInForce::Gtd => FixTimeInForce::GoodTillDate,
    }
}

/// `Price(44)` text for an order type: limit and stop-limit orders carry
/// the limit price, market and stop orders none.
pub open spec fn spec_encode_order_price(
    order_type: OrderType,
    price: OrderPrice,
    config: FixRequestEncodeConfig,
) -> Result<Option<Seq<u8>>, FixRequestEncodeError> {
    match order_type {
        OrderType::Limit | OrderType::StopLimit => match spec_encode_scaled(
            price.0,
            config.price_scale,
            ScaledField::Price,
        ) {
            Ok(t) => Ok(Some(t)),
            Err(e) => Err(e),
        },
        _ => Ok(None),
    }
}

/// `StopPx(99)` text for an order type: stop and stop-limit orders carry
/// the stop price, market and limit orders none.
pub open spec fn spec_encode_order_stop_price(
    order_type: OrderType,
    stop_price: OrderPrice,
    config: FixRequestEncodeConfig,
) -> Result<Option<Seq<u8>>, FixRequestEncodeError> {
    match order_type {
        OrderType::Stop | OrderType::StopLimit => match spec_encode_scaled(
            stop_price.0,
            config.price_scale,
            ScaledField::Price,
        ) {
            Ok(t) => Ok(Some(t)),
            Err(e) => Err(e),
        },
        _ => Ok(None),
    }
}

/// The view of an optional byte vector.
pub open spec fn spec_opt_bytes(v: Option<Vec<u8>>) -> Option<Seq<u8>> {
    match v {
        Some(b) => Some(b@),
        None => None,
    }
}

/// Formats the limit price an order type carries; see
/// [`spec_encode_order_price`].
pub fn encode_order_price(
    order_type: OrderType,
    price: OrderPrice,
    config: FixRequestEncodeConfig,
) -> (r: Result<Option<Vec<u8>>, FixRequestEncodeError>)
    ensures
        match spec_encode_order_price(order_type, price, config) {
            Ok(t) => r matches Ok(v) && spec_opt_bytes(v) == t,
            Err(e) => r == Err::<Option<Vec<u8>>, FixRequestEncodeError>(e),
        },
{
    match order_type {
        OrderType::Market => Ok(None),
        OrderType::Limit => match encode_scaled(price.0, config.price_scale, ScaledField::Price) {
            Ok(t) => Ok(Some(t)),
            Err(e) => Err(e),
        },
        OrderType::Stop => Ok(None),
        OrderType::StopLimit => match encode_scaled(
            price.0,
            config.price_scale,
            ScaledField::Price,
        ) {
            Ok(t) => Ok(Some(t)),
            Err(e) => Err(e),
        },
    }
}

/// Formats the stop price an order type carries; see
/// [`spec_encode_order_stop_price`].
pub fn encode_order_stop_price(
    order_type: OrderType,
    stop_price: OrderPrice,
    config: FixRequestEncodeConfig,
) -> (r: Result<Option<Vec<u8>>, FixRequestEncodeError>)
    ensures
        match spec_encode_order_stop_price(order_type, stop_price, config) {
            Ok(t) => r matches Ok(v) && spec_opt_bytes(v) == t,
            Err(e) => r == Err::<Option<Vec<u8>>, FixRequestEncodeError>(e),
        },
{
    match order_type {
        OrderType::Market | OrderType::Limit => Ok(None),
        OrderType::Stop | OrderType::StopLimit => match encode_scaled(
            stop_price.0,
            config.price_scale,
            ScaledField::Price,
        ) {
            Ok(t) => Ok(Some(t)),
            Err(e) => Err(e),
        },
    }
}

/// The value of a required tag, or `MissingTag`.
pub open spec fn spec_required(message: FixMessageFields, tag: FixTag) -> Result<
    Seq<u8>,
    FixReportParseError,
> {
    match message.spec_get(tag) {
        Some(v) => Ok(v),
        None => Err(FixReportParseError::MissingTag(tag)),
    }
}

/// The fixed ASCII field of capacity `N` built from the bytes of `tag`:
/// `InvalidAscii` with `NonAsciiIdentifier` for bytes that are not UTF-8,
/// then `IdentifierTooLong` when they do not fit, then
/// `NonAsciiIdentifier` when they are not ASCII.
pub open spec fn spec_fixed_from_bytes<const N: usize>(tag: FixTag, b: Seq<u8>) -> Result<
    FixedAscii<N>,
    FixReportParseError,
> {
    if !valid_utf8(b) {
        Err(
            FixReportParseError::InvalidAscii {
                tag,
                source: ExecutionCoreError::NonAsciiIdentifier,
            },
        )
    } else if b.len() > N {
        Err(
            FixReportParseError::InvalidAscii {
                tag,
                source: ExecutionCoreError::IdentifierTooLong {
                    capacity: N,
                    actual: b.len() as usize,
                },
            },
        )
    } else if !all_ascii_bytes(b) {
        Err(
            FixReportParseError::InvalidAscii {
                tag,
                source: ExecutionCoreError::NonAsciiIdentifier,
            },
        )
    } else {
        Ok(FixedAscii::<N>::spec_from_bytes(b))
    }
}

/// The fixed ASCII field of a required tag.
pub open spec fn spec_fixed_required<const N: usize>(message: FixMessageFields, tag: FixTag) -> Result<
    FixedAscii<N>,
    FixReportParseError,
> {
    match message.spec_get(tag) {
        Some(v) => spec_fixed_from_bytes::<N>(tag, v),
        None => Err(FixReportParseError::MissingTag(tag)),
    }
}

/// The fixed ASCII field of an optional tag; empty when absent.
pub open spec fn spec_fixed_optional<const N: usize>(message: FixMessageFields, tag: FixTag) -> Result<
    FixedAscii<N>,
    FixReportParseError,
> {
    match message.spec_get(tag) {
        Some(v) => spec_fixed_from_bytes::<N>(tag, v),
        None => Ok(FixedAscii::<N>::spec_from_bytes(Seq::empty())),
    }
}

/// The scaled decimal of an optional tag; zero when absent.
pub open spec fn spec_parse_optional_scaled(message: FixMessageFields, tag: FixTag, scale: i64) -> Result<
    i64,
    FixReportParseError,
> {
    match message.spec_get(tag) {
        Some(v) => match spec_parse_scaled(v, scale) {
            Some(x) => Ok(x),
            None => Err(FixReportParseError::InvalidNumber(tag)),
        },
        None => Ok(0),
    }
}

/// The unsigned integer of an optional tag; zero when absent.
/// `TransactTime(60)` also accepts a FIX UTC timestamp.
pub open spec fn spec_parse_optional_u64(message: FixMessageFields, tag: FixTag) -> Result<
    u64,
    FixReportParseError,
> {
    match message.spec_get(tag) {
        Some(v) => {
            let parsed = if tag.0 == TRANSACT_TIME_TAG {
                match spec_parse_u64_digits(v) {
                    Some(x) => Some(x),
                    None => spec_parse_fix_utc_timestamp_ns(v),
                }
            } else {
                spec_parse_u64_digits(v)
            };
            match parsed {
                Some(x) => Ok(x),
                None => Err(FixReportParseError::InvalidNumber(tag)),
            }
        },
        None => Ok(0),
    }
}

/// Returns the value of a required tag.
pub fn required<'a>(message: &'a FixMessageFields, tag: FixTag) -> (r: Result<
    &'a [u8],
    FixReportParseError,
>)
    ensures
        match spec_required(*message, tag) {
            Ok(v) => r matches Ok(b) && b@ == v,
            Err(e) => r == Err::<&[u8], FixReportParseError>(e),
        },
{
    match message.get(tag) {
        Some(v) => Ok(v),
        None => Err(FixReportParseError::MissingTag(tag)),
    }
}

/// Builds a fixed ASCII field from the bytes of `tag`; see
/// [`spec_fixed_from_bytes`].
pub fn fixed_from_bytes<const N: usize>(tag: FixTag, value: &[u8]) -> (r: Result<
    FixedAscii<N>,
    FixReportParseError,
>)
    ensures
        r == spec_fixed_from_bytes::<N>(tag, value@),
{
    match crate::ids::utf8_str(value) {
        None => Err(
            FixReportParseError::InvalidAscii {
                tag,
                source: ExecutionCoreError::NonAsciiIdentifier,
            },
        ),
        Some(s) => {
            proof {
                lemma_str_ascii_iff_bytes(s);
            }
            match FixedAscii::<N>::new(s) {
                Ok(id) => Ok(id),
                Err(source) => Err(FixReportParseError::InvalidAscii { tag, source }),
            }
        },
    }
}

/// Builds the fixed ASCII field of a required tag.
pub fn fixed_required<const N: usize>(message: &FixMessageFields, tag: FixTag) -> (r: Result<
    FixedAscii<N>,
    FixReportParseError,
>)
    ensures
        r == spec_fixed_required::<N>(*message, tag),
{
    match message.get(tag) {
        Some(v) => fixed_from_bytes::<N>(tag, v),
        None => Err(FixReportParseError::MissingTag(tag)),
    }
}

/// Builds the fixed ASCII field of an optional tag; empty when absent.
pub fn fixed_optional<const N: usize>(message: &FixMessageFields, tag: FixTag) -> (r: Result<
    FixedAscii<N>,
    FixReportParseError,
>)
    ensures
        r == spec_fixed_optional::<N>(*message, tag),
{
    match message.get(tag) {
        Some(v) => fixed_from_bytes::<N>(tag, v),
        None => {
            let empty: [u8; 0] = [];
            let e = FixedAscii::<N>::from_ascii_bytes(empty.as_slice());
            proof {
                assert(empty@ =~= Seq::<u8>::empty());
            }
            Ok(e)
        },
    }
}

/// Parses the scaled decimal of an optional tag; zero when absent.
pub fn parse_optional_scaled(message: &FixMessageFields, tag: FixTag, scale: i64) -> (r: Result<
    i64,
    FixReportParseError,
>)
    ensures
        r == spec_parse_optional_scaled(*message, tag, scale),
{
    match message.get(tag) {
        Some(v) => match parse_scaled(v, scale) {
            Some(x) => Ok(x),
            None => Err(FixReportParseError::InvalidNumber(tag)),
        },
        None => Ok(0),
    }
}

/// Parses the unsigned integer of an optional tag; zero when absent.
pub fn parse_optional_u64(message: &FixMessageFields, tag: FixTag) -> (r: Result<
    u64,
    FixReportParseError,
>)
    ensures
        r == spec_parse_optional_u64(*message, tag),
{
    match message.get(tag) {
        Some(v) => {
            let parsed = if tag.0 == TRANSACT_TIME_TAG {
                match parse_u64_digits(v) {
                    Some(x) => Some(x),
                    None => parse_fix_utc_timestamp_ns(v),
                }
            } else {
                parse_u64_digits(v)
            };
            match parsed {
                Some(x) => Ok(x),
                None => Err(FixReportParseError::InvalidNumber(tag)),
            }
        },
        None => Ok(0),
    }
}

/// The decimal digits of `n` are digits and denote `n`.
pub proof fn lemma_decimal_digits(n: nat)
    ensures
        spec_all_digits(spec_decimal_ascii(n)),
        spec_digits_value(spec_decimal_ascii(n)) == n,
        spec_decimal_ascii(n).len() >= 1,
    decreases n,
{
    let d = spec_decimal_ascii(n);
    if n >= 10 {
        lemma_decimal_digits(n / 10);
        assert(d.drop_last() == spec_decimal_ascii(n / 10));
        assert(d.last() == (48 + n % 10) as u8);
        assert(((48 + n % 10) as u8 - 48) as nat == n % 10);
        assert(spec_digits_value(d) == (n / 10) * 10 + n % 10);
        assert forall|i: int| 0 <= i < d.len() implies spec_is_digit(#[trigger] d[i]) by {
            if i < d.len() - 1 {
                assert(d[i] == spec_decimal_ascii(n / 10)[i]);
            }
        }
    } else {
        assert(d.drop_last().len() == 0);
        assert(d.last() == (48 + n) as u8);
        assert(spec_digits_value(d.drop_last()) == 0);
    }
}

/// Leading zeros do not change a digit string's value.
proof fn lemma_leading_zeros_value(m: nat, s: Seq<u8>)
    ensures
        spec_digits_value(Seq::new(m, |i: int| 48u8) + s) == spec_digits_value(s),
    decreases s.len(), m,
{
    let z = Seq::new(m, |i: int| 48u8);
    if s.len() > 0 {
        assert((z + s).drop_last() =~= z + s.drop_last());
        lemma_leading_zeros_value(m, s.drop_last());
    } else {
        assert(z + s =~= z);
        if m > 0 {
            assert(z.drop_last() =~= Seq::new((m - 1) as nat, |i: int| 48u8));
            lemma_leading_zeros_value((m - 1) as nat, s);
            assert(Seq::new((m - 1) as nat, |i: int| 48u8) + s =~= Seq::new(
                (m - 1) as nat,
                |i: int| 48u8,
            ));
        }
    }
}

/// The zero-padded digits of `r < 10^k` have exactly `k` digits denoting `r`.
proof fn lemma_padded_decimal(r: nat, k: nat)
    requires
        k >= 1,
        r < spec_pow10(k),
    ensures
        spec_padded_decimal(r, k).len() == k,
        spec_all_digits(spec_padded_decimal(r, k)),
        spec_digits_value(spec_padded_decimal(r, k)) == r,
{
    lemma_decimal_ascii(r, k);
    lemma_decimal_digits(r);
    let d = spec_decimal_ascii(r);
    if d.len() < k {
        let z = Seq::new((k - d.len()) as nat, |i: int| 48u8);
        lemma_leading_zeros_value((k - d.len()) as nat, d);
        assert forall|i: int| 0 <= i < (z + d).len() implies spec_is_digit(#[trigger] (z + d)[i]) by {
            if i >= z.len() {
                assert((z + d)[i] == d[i - z.len()]);
            }
        }
    }
}

/// Trimming trailing zeros keeps a digit prefix whose value, shifted back
/// by the removed zeros, is the original value.
proof fn lemma_trim_zeros(s: Seq<u8>)
    requires
        spec_all_digits(s),
    ensures
        spec_trim_trailing_zeros(s).len() <= s.len(),
        spec_trim_trailing_zeros(s) == s.take(spec_trim_trailing_zeros(s).len() as int),
        spec_all_digits(spec_trim_trailing_zeros(s)),
        spec_digits_value(spec_trim_trailing_zeros(s)) * spec_pow10(
            (s.len() - spec_trim_trailing_zeros(s).len()) as nat,
        ) == spec_digits_value(s),
    decreases s.len(),
{
    let t = spec_trim_trailing_zeros(s);
    if s.len() > 0 && s.last() == 48 {
        let p = s.drop_last();
        assert(spec_all_digits(p));
        lemma_trim_zeros(p);
        assert(spec_digits_value(s) == spec_digits_value(p) * 10 + (s.last() - 48) as nat);
        assert(spec_digits_value(s) == spec_digits_value(p) * 10);
        assert(t == spec_trim_trailing_zeros(p));
        assert(p.take(t.len() as int) =~= s.take(t.len() as int));
        let e = (p.len() - t.len()) as nat;
        let pe = spec_pow10(e);
        let pe1 = spec_pow10(e + 1);
        assert(pe1 == 10 * pe);
        assert(s.len() - t.len() == e + 1);
        assert(((s.len() - t.len()) as nat) == e + 1);
        let dt = spec_digits_value(t);
        let dp = spec_digits_value(p);
        assert(dt * pe1 == dp * 10) by (nonlinear_arith)
            requires
                dt * pe == dp,
                pe1 == 10 * pe,
        ;
    } else {
        assert(s.take(s.len() as int) =~= s);
        assert(t == s);
        assert(((s.len() - t.len()) as nat) == 0);
        assert(spec_pow10(0) == 1);
        let dt = spec_digits_value(t);
        assert(dt * 1 == dt);
    }
}

/// A prefix of `s` without dots has its own length as first-dot position.
proof fn lemma_dot_pos_no_dot(s: Seq<u8>, j: int)
    requires
        0 <= j <= s.len(),
        forall|i: int| 0 <= i < j ==> s[i] != 46,
    ensures
        spec_dot_pos(s.take(j)) == j,
    decreases j,
{
    if j > 0 {
        lemma_dot_pos_no_dot(s, j - 1);
        lemma_dot_pos_step(s, j - 1);
    } else {
        assert(s.take(0).len() == 0);
    }
}

/// `10^(a+b) = 10^a * 10^b`.
proof fn lemma_pow10_add(a: nat, b: nat)
    ensures
        spec_pow10(a + b) == spec_pow10(a) * spec_pow10(b),
    decreases b,
{
    if b > 0 {
        lemma_pow10_add(a, (b - 1) as nat);
        assert(spec_pow10(a + b) == 10 * spec_pow10((a + b - 1) as nat));
        assert(spec_pow10(a) * spec_pow10(b) == spec_pow10(a) * (10 * spec_pow10((b - 1) as nat)));
        assert(spec_pow10(a) * (10 * spec_pow10((b - 1) as nat)) == 10 * (spec_pow10(a)
            * spec_pow10((b - 1) as nat))) by (nonlinear_arith);
    } else {
        assert(spec_pow10(0) == 1);
    }
}

/// The shape of `digits . fraction` text: the first dot follows the whole
/// digits, and the fraction is the trimmed zero-padded remainder, whose
/// value shifted by the trimmed zeros is the remainder.
proof fn lemma_scaled_fraction_shape(dw: Seq<u8>, r: nat, places: nat)
    requires
        spec_all_digits(dw),
        places >= 1,
        0 < r < spec_pow10(places),
    ensures
        ({
            let t = spec_trim_trailing_zeros(spec_padded_decimal(r, places));
            let text = dw + seq![46u8] + t;
            &&& spec_dot_pos(text) == dw.len()
            &&& text.take(dw.len() as int) == dw
            &&& spec_fraction_part(text) == t
            &&& spec_all_digits(t)
            &&& 1 <= t.len() <= places
            &&& spec_digits_value(t) * spec_pow10((places - t.len()) as nat) == r
        }),
{
    let padded = spec_padded_decimal(r, places);
    lemma_padded_decimal(r, places);
    let t = spec_trim_trailing_zeros(padded);
    lemma_trim_zeros(padded);
    let text = dw + seq![46u8] + t;
    let l = dw.len() as int;
    assert forall|i: int| 0 <= i < l implies text[i] != 46 by {
        assert(text[i] == dw[i]);
        assert(spec_is_digit(dw[i]));
    }
    assert(text.take(l) =~= dw);
    lemma_dot_pos_no_dot(text, l);
    lemma_dot_pos_step(text, l);
    lemma_dot_pos_stable(text, l + 1, text.len() as int);
    assert(text.take(text.len() as int) =~= text);
    assert(spec_fraction_part(text) =~= t);
    if t.len() == 0 {
        assert(spec_digits_value(t) == 0);
        let z = spec_pow10((places - t.len()) as nat);
        assert(spec_digits_value(t) * z == 0) by (nonlinear_arith)
            requires
                spec_digits_value(t) == 0,
        ;
    }
    assert(spec_dot_pos(text) == dw.len());
    assert(text.take(dw.len() as int) == dw);
    assert(spec_fraction_part(text) == t);
    assert(spec_all_digits(t));
    assert(1 <= t.len() <= places);
    assert(spec_digits_value(t) * spec_pow10((places - t.len()) as nat) == r);
}

/// Formatting a positive value at a power-of-ten scale and parsing the text
/// back at the same scale gives the value again.
#[verifier::rlimit(30)]
pub proof fn law_scaled_text_round_trips(value: i64, places: nat, field: ScaledField)
    requires
        value > 0,
        places <= 18,
    ensures
        spec_encode_scaled(value, spec_pow10(places) as i64, field) matches Ok(text)
            && spec_parse_scaled(text, spec_pow10(places) as i64) == Some(value),
{
    lemma_pow10_i64_bounds();
    lemma_pow10_mono(places, 18);
    lemma_pow10_mono(0, places);
    assert(spec_pow10(0) == 1);
    let scale = spec_pow10(places);
    let sc = scale as i64;
    assert(sc as int == scale as int);
    lemma_log10_of_pow10(places);
    let v = value as nat;
    let w = v / scale;
    let r = v % scale;
    let text = spec_scaled_text(v, places);
    assert(spec_encode_scaled(value, sc, field) == Ok::<Seq<u8>, FixRequestEncodeError>(text));
    let dw = spec_decimal_ascii(w);
    lemma_decimal_digits(w);
    assert(w * scale + r == v) by (nonlinear_arith)
        requires
            w == v / scale,
            r == v % scale,
            scale > 0,
    ;
    assert(w <= v) by (nonlinear_arith)
        requires
            w == v / scale,
            scale >= 1,
    ;
    assert forall|i: int| 0 <= i < dw.len() implies dw[i] != 46 by {
        assert(spec_is_digit(dw[i]));
    }
    if r == 0 {
        assert(text == dw);
        lemma_dot_pos_no_dot(text, text.len() as int);
        assert(text.take(text.len() as int) =~= text);
        assert(spec_fraction_part(text) =~= Seq::<u8>::empty());
        assert(text.take(spec_dot_pos(text) as int) == dw);
    } else {
        assert(places >= 1) by {
            if places == 0 {
                assert(r < 1);
            }
        }
        lemma_scaled_fraction_shape(dw, r, places);
        let t = spec_trim_trailing_zeros(spec_padded_decimal(r, places));
        let kt = t.len();
        let shift = (places - kt) as nat;
        assert(text == dw + seq![46u8] + t);
        assert(spec_digits_value(t) > 0) by {
            if spec_digits_value(t) == 0 {
                assert(spec_digits_value(t) * spec_pow10(shift) == 0);
            }
        }
        assert(kt >= 1);
        lemma_pow10_add(kt, shift);
        assert(places == kt + shift);
        lemma_pow10_mono(0, kt);
        lemma_pow10_mono(0, shift);
        assert(scale == spec_pow10(kt) * spec_pow10(shift));
        assert((scale as int) % (spec_pow10(kt) as int) == 0) by (nonlinear_arith)
            requires
                scale == spec_pow10(kt) * spec_pow10(shift),
                spec_pow10(kt) >= 1,
        ;
        assert((scale as int) / (spec_pow10(kt) as int) == spec_pow10(shift) as int)
            by (nonlinear_arith)
            requires
                scale == spec_pow10(kt) * spec_pow10(shift),
                spec_pow10(kt) >= 1,
        ;
        assert(w * scale <= v);
    }
}

/// Trimmed text is empty or ends in a byte other than `0`.
proof fn lemma_trim_ends_nonzero(s: Seq<u8>)
    ensures
        spec_trim_trailing_zeros(s).len() == 0 || spec_trim_trailing_zeros(s).last() != 48,
    decreases s.len(),
{
    if s.len() > 0 && s.last() == 48 {
        lemma_trim_ends_nonzero(s.drop_last());
    }
}

/// The text of a positive value at a power-of-ten scale has a decimal dot
/// exactly when the scale does not divide the value, and then it does not
/// end in a `0`.
pub proof fn law_scaled_text_shape(value: i64, places: nat, field: ScaledField)
    requires
        value > 0,
        places <= 18,
    ensures
        spec_encode_scaled(value, spec_pow10(places) as i64, field) matches Ok(text) && (text.contains(
            46u8,
        ) <==> value as int % spec_pow10(places) as int != 0) && (text.contains(46u8)
            ==> text.last() != 48u8),
{
    lemma_pow10_i64_bounds();
    lemma_pow10_mono(places, 18);
    lemma_pow10_mono(0, places);
    assert(spec_pow10(0) == 1);
    let scale = spec_pow10(places);
    let sc = scale as i64;
    assert(sc as int == scale as int);
    lemma_log10_of_pow10(places);
    let v = value as nat;
    let w = v / scale;
    let r = v % scale;
    let text = spec_scaled_text(v, places);
    assert(spec_encode_scaled(value, sc, field) == Ok::<Seq<u8>, FixRequestEncodeError>(text));
    let dw = spec_decimal_ascii(w);
    lemma_decimal_digits(w);
    assert forall|i: int| 0 <= i < dw.len() implies dw[i] != 46 by {
        assert(spec_is_digit(dw[i]));
    }
    if r == 0 {
        assert(text == dw);
        assert(!text.contains(46u8));
    } else {
        assert(places >= 1) by {
            if places == 0 {
                assert(r < 1);
            }
        }
        lemma_scaled_fraction_shape(dw, r, places);
        let t = spec_trim_trailing_zeros(spec_padded_decimal(r, places));
        lemma_trim_ends_nonzero(spec_padded_decimal(r, places));
        assert(text == dw + seq![46u8] + t);
        assert(text[dw.len() as int] == 46u8);
        assert(text.contains(46u8));
        assert(text.last() == t.last());
    }
}

} // verus!
