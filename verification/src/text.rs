//! Rendering of numbers and ASCII bytes as text, for error messages and
//! report details.

use vstd::prelude::*;
use vstd::utf8::{decode_utf8_encode_utf8, encode_utf8_decode_utf8, encode_utf8_valid_utf8};
use crate::algo_support::{lemma_decimal_ascii, push_decimal, spec_decimal_ascii, spec_pow10};
use crate::ids::{all_ascii_bytes, ascii_chars, lemma_ascii_bytes_encode, utf8_str};
use vstd::string::StringSliceAdditionalSpecFns;

verus! {

/// The decimal text of `n` (`{}` formatting).
pub open spec fn spec_decimal_text(n: nat) -> Seq<char> {
    ascii_chars(spec_decimal_ascii(n))
}

/// The lowercase hexadecimal digit for `d < 16`.
pub open spec fn spec_hex_digit(d: nat) -> u8 {
    if d < 10 {
        (48 + d) as u8
    } else {
        (87 + d) as u8
    }
}

/// Lowercase hexadecimal ASCII digits of `n`, most significant first,
/// without leading zeros (`0` is the single digit `0`).
pub open spec fn spec_hex_ascii(n: nat) -> Seq<u8>
    decreases n,
{
    if n < 16 {
        seq![spec_hex_digit(n)]
    } else {
        spec_hex_ascii(n / 16).push(spec_hex_digit(n % 16))
    }
}

/// The alternate hexadecimal text of `n` (`{:#x}` formatting): `0x`
/// followed by the lowercase digits.
pub open spec fn spec_hex_text(n: nat) -> Seq<char> {
    "0x"@ + ascii_chars(spec_hex_ascii(n))
}

/// The hexadecimal digits are ASCII.
proof fn lemma_hex_ascii(n: nat)
    ensures
        all_ascii_bytes(spec_hex_ascii(n)),
    decreases n,
{
    if n >= 16 {
        lemma_hex_ascii(n / 16);
    }
}

/// The text of ASCII bytes.
pub(crate) fn ascii_string(bytes: &Vec<u8>) -> (r: String)
    requires
        all_ascii_bytes(bytes@),
    ensures
        r@ == ascii_chars(bytes@),
{
    proof {
        lemma_ascii_bytes_encode(bytes@);
        encode_utf8_valid_utf8(ascii_chars(bytes@));
    }
    match utf8_str(bytes.as_slice()) {
        Some(text) => {
            proof {
                decode_utf8_encode_utf8(text.spec_bytes());
                encode_utf8_decode_utf8(ascii_chars(bytes@));
                encode_utf8_decode_utf8(text@);
            }
            String::from_str(text)
        },
        None => {
            proof {
                assert(false);
            }
            String::new()
        },
    }
}

/// The decimal digits of `n` as a string.
pub(crate) fn decimal_string(n: u64) -> (r: String)
    ensures
        r@ == spec_decimal_text(n as nat),
{
    let mut digits: Vec<u8> = Vec::new();
    push_decimal(&mut digits, n);
    proof {
        assert(digits@ =~= spec_decimal_ascii(n as nat));
        assert(spec_pow10(20) == 100_000_000_000_000_000_000nat) by {
            reveal_with_fuel(spec_pow10, 21);
        }
        lemma_decimal_ascii(n as nat, 20);
    }
    ascii_string(&digits)
}

/// Appends the lowercase hexadecimal digits of `n` to `out`.
fn push_hex(out: &mut Vec<u8>, n: u64)
    ensures
        final(out)@ == old(out)@ + spec_hex_ascii(n as nat),
    decreases n,
{
    if n >= 16 {
        push_hex(out, n / 16);
    }
    let d: u8 = (n % 16) as u8;
    let digit: u8 = if d < 10 {
        48 + d
    } else {
        87 + d
    };
    out.push(digit);
    proof {
        assert(old(out)@ + spec_hex_ascii(n as nat) =~= if n >= 16 {
            old(out)@ + spec_hex_ascii((n / 16) as nat) + seq![spec_hex_digit((n % 16) as nat)]
        } else {
            old(out)@ + seq![spec_hex_digit((n % 16) as nat)]
        });
    }
}

/// The alternate hexadecimal text of `n`, as `{:#x}` writes it.
pub(crate) fn hex_string(n: u64) -> (r: String)
    ensures
        r@ == spec_hex_text(n as nat),
{
    let mut digits: Vec<u8> = Vec::new();
    push_hex(&mut digits, n);
    proof {
        assert(digits@ =~= spec_hex_ascii(n as nat));
        lemma_hex_ascii(n as nat);
    }
    let text = ascii_string(&digits);
    String::from_str("0x").concat(text.as_str())
}

} // verus!
