//! Fixed-capacity ASCII identifiers and the execution-core error type.

use vstd::prelude::*;
use vstd::std_specs::cmp::PartialEqSpecImpl;
use vstd::utf8::*;
use vstd::string::{is_ascii, is_ascii_spec_bytes, StringSliceAdditionalSpecFns};
use crate::text::{decimal_string, spec_decimal_text};

verus! {

/// Capacity of bounded diagnostic text.
pub const EXECUTION_TEXT_CAP: usize = 128;

/// Execution-core error.
#[derive(Debug, Clone, Copy, PartialEq, Eq, Structural)]
pub enum ExecutionCoreError {
    /// Fixed-size identifier capacity was exceeded.
    IdentifierTooLong {
        /// Configured capacity in bytes.
        capacity: usize,
        /// Actual input length in bytes.
        actual: usize,
    },
    /// Identifier contained a non-ASCII byte.
    NonAsciiIdentifier,
    /// Order quantity must be positive for the requested operation.
    InvalidQuantity,
    /// Price must be positive for price-bearing orders.
    InvalidPrice,
    /// State transition is not valid for the current order state.
    InvalidTransition,
}

impl ExecutionCoreError {
    /// The human-readable description of the error.
    pub open spec fn spec_text(&self) -> Seq<char> {
        match self {
            ExecutionCoreError::IdentifierTooLong { capacity, actual } => "identifier length "@
                + spec_decimal_text(*actual as nat) + " exceeds capacity "@ + spec_decimal_text(
                *capacity as nat,
            ),
            ExecutionCoreError::NonAsciiIdentifier => "identifier must be ASCII"@,
            ExecutionCoreError::InvalidQuantity => "quantity must be positive"@,
            ExecutionCoreError::InvalidPrice => "price must be positive"@,
            ExecutionCoreError::InvalidTransition => "invalid order state transition"@,
        }
    }

    /// Renders the human-readable description of the error.
    pub fn to_string(&self) -> (r: String)
        ensures
            r@ == self.spec_text(),
    {
        match self {
            ExecutionCoreError::IdentifierTooLong { capacity, actual } => {
                let a = decimal_string(*actual as u64);
                let c = decimal_string(*capacity as u64);
                String::from_str("identifier length ").concat(a.as_str()).concat(
                    " exceeds capacity ",
                ).concat(c.as_str())
            },
            ExecutionCoreError::NonAsciiIdentifier => String::from_str("identifier must be ASCII"),
            ExecutionCoreError::InvalidQuantity => String::from_str("quantity must be positive"),
            ExecutionCoreError::InvalidPrice => String::from_str("price must be positive"),
            ExecutionCoreError::InvalidTransition => String::from_str(
                "invalid order state transition",
            ),
        }
    }
}

/// Fixed-size ASCII field used for low-allocation identifiers.
///
/// Only the first `len` bytes are meaningful; the remaining bytes are kept
/// zero so that two identifiers with the same text are equal as values.
#[derive(Clone, Copy, Debug, Hash)]
pub struct FixedAscii<const N: usize> {
    len: usize,
    bytes: [u8; N],
}

/// The characters of a sequence of ASCII bytes.
pub open spec fn ascii_chars(bytes: Seq<u8>) -> Seq<char> {
    Seq::new(bytes.len(), |i: int| bytes[i] as char)
}

/// The error that refuses `value` as an identifier of capacity `cap`: too
/// long first, then non-ASCII; `None` when it is accepted.
pub open spec fn spec_ascii_id_error(value: &str, cap: usize) -> Option<ExecutionCoreError> {
    if value.spec_bytes().len() > cap {
        Some(
            ExecutionCoreError::IdentifierTooLong {
                capacity: cap,
                actual: value.spec_bytes().len() as usize,
            },
        )
    } else if !is_ascii(value) {
        Some(ExecutionCoreError::NonAsciiIdentifier)
    } else {
        None
    }
}

/// True when every byte is an ASCII byte.
pub open spec fn all_ascii_bytes(bytes: Seq<u8>) -> bool {
    forall|i: int| 0 <= i < bytes.len() ==> bytes[i] < 128
}

impl<const N: usize> View for FixedAscii<N> {
    type V = Seq<char>;

    /// The identifier text.
    closed spec fn view(&self) -> Seq<char> {
        ascii_chars(self.bytes@.take(self.len as int))
    }
}

impl<const N: usize> FixedAscii<N> {
    #[verifier::type_invariant]
    spec fn inv(&self) -> bool {
        &&& self.len <= N
        &&& self.bytes@.len() == N
        &&& all_ascii_bytes(self.bytes@.take(self.len as int))
        &&& forall|i: int| self.len <= i < N ==> self.bytes@[i] == 0
    }

    /// The meaningful bytes of the identifier.
    pub closed spec fn spec_bytes(&self) -> Seq<u8> {
        self.bytes@.take(self.len as int)
    }

    /// Creates an empty fixed ASCII value.
    pub fn empty() -> (r: Self)
        ensures
            r@ == Seq::<char>::empty(),
    {
        let r = Self { len: 0, bytes: [0u8; N] };
        assert(r@ =~= Seq::<char>::empty());
        r
    }

    /// Creates a fixed ASCII value from `value`.
    ///
    /// Fails with `IdentifierTooLong` when the UTF-8 length of `value` exceeds
    /// the capacity, and otherwise with `NonAsciiIdentifier` when `value` is
    /// not ASCII.
    pub fn new(value: &str) -> (r: Result<Self, ExecutionCoreError>)
        ensures
            match spec_ascii_id_error(value, N) {
                Some(e) => r == Err::<Self, ExecutionCoreError>(e),
                None => r matches Ok(id) && id@ == value@ && id == Self::spec_from_bytes(
                    value.spec_bytes(),
                ),
            },
    {
        let src = value.as_bytes();
        let n = src.len();
        if n > N {
            return Err(ExecutionCoreError::IdentifierTooLong { capacity: N, actual: n });
        }
        if !value.is_ascii() {
            return Err(ExecutionCoreError::NonAsciiIdentifier);
        }
        proof {
            lemma_str_ascii_iff_bytes(value);
            is_ascii_spec_bytes(value);
            assert(ascii_chars(src@) =~= value@) by {
                assert forall|j: int| 0 <= j < value@.len() implies ascii_chars(src@)[j]
                    == value@[j] by {
                    is_ascii_chars_nat_bound(value@);
                    lemma_ascii_char_byte(value@[j]);
                    assert(src@[j] == value@[j] as u8);
                }
            }
        }
        Ok(Self::from_ascii_bytes(src))
    }

    /// The identifier holding `bytes`, zero padded to the capacity.
    pub closed spec fn spec_from_bytes(bytes: Seq<u8>) -> Self {
        FixedAscii {
            len: bytes.len() as usize,
            bytes: choose|a: [u8; N]|
                a@ == bytes + Seq::new((N - bytes.len()) as nat, |i: int| 0u8),
        }
    }

    /// Creates an identifier from bytes already known to be ASCII and to fit.
    pub(crate) fn from_ascii_bytes(src: &[u8]) -> (r: Self)
        requires
            src@.len() <= N,
            all_ascii_bytes(src@),
        ensures
            r.spec_bytes() == src@,
            r@ == ascii_chars(src@),
            r == Self::spec_from_bytes(src@),
    {
        let n = src.len();
        let mut bytes = [0u8; N];
        let mut i: usize = 0;
        while i < n
            invariant
                n == src@.len(),
                n <= N,
                bytes@.len() == N,
                i <= n,
                all_ascii_bytes(src@),
                forall|j: int| 0 <= j < i ==> bytes@[j] == src@[j],
                forall|j: int| i <= j < N ==> bytes@[j] == 0,
            decreases n - i,
        {
            bytes[i] = src[i];
            i = i + 1;
        }
        assert(bytes@.take(n as int) =~= src@);
        proof {
            let padded = src@ + Seq::new((N - n) as nat, |i: int| 0u8);
            assert(bytes@ =~= padded);
            let a = choose|a: [u8; N]| a@ == padded;
            assert(a@ == padded);
            broadcast use vstd::array::axiom_array_ext_equal;

            assert(a =~= bytes);
            assert(a == bytes);
            assert(Self::spec_from_bytes(src@).bytes == a);
            assert(Self::spec_from_bytes(src@).len == n);
        }
        Self { len: n, bytes }
    }

    /// Returns the identifier bytes.
    pub fn as_bytes(&self) -> (r: &[u8])
        ensures
            r@ == self.spec_bytes(),
            ascii_chars(r@) == self@,
    {
        proof {
            use_type_invariant(self);
        }
        self.bytes.as_slice().split_at(self.len).0
    }

    /// Returns the identifier as a string slice.
    pub fn as_str(&self) -> (r: &str)
        ensures
            r@ == self@,
            r.spec_bytes() == self.spec_bytes(),
            is_ascii(r),
    {
        proof {
            use_type_invariant(self);
        }
        let b = self.as_bytes();
        proof {
            lemma_ascii_bytes_encode(b@);
            encode_utf8_valid_utf8(ascii_chars(b@));
        }
        match utf8_str(b) {
            Some(s) => {
                proof {
                    decode_utf8_encode_utf8(s.spec_bytes());
                    encode_utf8_decode_utf8(ascii_chars(b@));
                    encode_utf8_decode_utf8(s@);
                }
                s
            },
            None => {
                proof {
                    assert(false);
                }
                ""
            },
        }
    }

    /// Returns the fixed field capacity in bytes.
    pub fn capacity(&self) -> (r: usize)
        ensures
            r == N,
    {
        N
    }

    /// Returns the length of the identifier in bytes.
    pub fn len(&self) -> (r: usize)
        ensures
            r == self@.len(),
            r <= N,
    {
        proof {
            use_type_invariant(self);
        }
        self.len
    }

    /// Returns true when the identifier is empty.
    pub fn is_empty(&self) -> (r: bool)
        ensures
            r == (self@.len() == 0),
    {
        proof {
            use_type_invariant(self);
        }
        self.len == 0
    }

    /// Structural equality of the stored text.
    pub fn same_text(&self, other: &Self) -> (r: bool)
        ensures
            r == (self@ == other@),
    {
        proof {
            use_type_invariant(self);
            use_type_invariant(other);
        }
        if self.len != other.len {
            proof {
                assert(self@.len() != other@.len());
            }
            return false;
        }
        let mut i: usize = 0;
        while i < self.len
            invariant
                self.len == other.len,
                self.len <= N,
                self.bytes@.len() == N,
                other.bytes@.len() == N,
                i <= self.len,
                forall|j: int| 0 <= j < i ==> self.bytes@[j] == other.bytes@[j],
            decreases self.len - i,
        {
            if self.bytes[i] != other.bytes[i] {
                proof {
                    assert(self@[i as int] != other@[i as int]);
                }
                return false;
            }
            i = i + 1;
        }
        assert(self@ =~= other@);
        true
    }
}

/// A string is ASCII exactly when its UTF-8 bytes are all ASCII.
pub proof fn lemma_str_ascii_iff_bytes(s: &str)
    ensures
        is_ascii(s) <==> all_ascii_bytes(s.spec_bytes()),
{
    if is_ascii(s) {
        is_ascii_spec_bytes(s);
        is_ascii_chars_nat_bound(s@);
        assert forall|i: int| 0 <= i < s.spec_bytes().len() implies s.spec_bytes()[i] < 128 by {
            lemma_ascii_char_byte(s@[i]);
        }
    }
    if all_ascii_bytes(s.spec_bytes()) {
        let b = s.spec_bytes();
        lemma_ascii_bytes_encode(b);
        encode_utf8_decode_utf8(s@);
        encode_utf8_decode_utf8(ascii_chars(b));
        assert(s@ == ascii_chars(b));
    }
}

/// An ASCII character keeps its value when narrowed to a byte.
pub proof fn lemma_ascii_char_byte(c: char)
    requires
        (c as nat) < 128,
    ensures
        (c as u8) as nat == c as nat,
{
    let u = c as u32;
    assert((u as u8) as u32 == u) by (bit_vector)
        requires
            u < 128,
    ;
}

/// ASCII bytes are the UTF-8 encoding of their characters.
pub proof fn lemma_ascii_bytes_encode(bytes: Seq<u8>)
    requires
        all_ascii_bytes(bytes),
    ensures
        encode_utf8(ascii_chars(bytes)) == bytes,
        is_ascii_chars(ascii_chars(bytes)),
{
    let chars = ascii_chars(bytes);
    assert(is_ascii_chars(chars)) by {
        assert forall|i: int| 0 <= i < chars.len() implies (chars[i] as nat) < 128 by {}
    }
    is_ascii_chars_encode_utf8(chars);
    assert(encode_utf8(chars) =~= bytes);
}

/// Decodes UTF-8 bytes as a string slice.
///
/// Calls `std::str::from_utf8`; its documentation promises success exactly
/// for valid UTF-8 input, with the bytes of the returned slice being the
/// input bytes.
#[verifier::external_body]
pub(crate) fn utf8_str(bytes: &[u8]) -> (r: Option<&str>)
    ensures
        r is Some <==> valid_utf8(bytes@),
        r matches Some(s) ==> s.spec_bytes() == bytes@,
{
    std::str::from_utf8(bytes).ok()
}

impl<const N: usize> PartialEq for FixedAscii<N> {
    fn eq(&self, other: &Self) -> (r: bool) {
        self.same_text(other)
    }
}

impl<const N: usize> PartialEqSpecImpl for FixedAscii<N> {
    open spec fn obeys_eq_spec() -> bool {
        true
    }

    open spec fn eq_spec(&self, other: &Self) -> bool {
        self@ == other@
    }
}

impl<const N: usize> Eq for FixedAscii<N> {
}

impl<const N: usize> Default for FixedAscii<N> {
    fn default() -> (r: Self)
        ensures
            r@ == Seq::<char>::empty(),
    {
        Self::empty()
    }
}

/// Client-assigned order identifier.
pub type ClientOrderId = FixedAscii<40>;

/// Venue-assigned order identifier.
pub type VenueOrderId = FixedAscii<48>;

/// Venue execution/fill identifier.
pub type ExecutionId = FixedAscii<48>;

/// Trading account identifier.
pub type AccountId = FixedAscii<32>;

/// Execution route identifier.
pub type RouteId = FixedAscii<32>;

/// Strategy identifier used for attribution.
pub type StrategyId = FixedAscii<32>;

/// Venue identifier used by execution routing.
pub type VenueId = FixedAscii<16>;

/// Instrument identifier in venue/native format.
pub type InstrumentId = FixedAscii<32>;

/// Bounded diagnostic text.
pub type ExecutionText = FixedAscii<128>;

} // verus!
