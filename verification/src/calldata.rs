//! Validation of hex-encoded call data.

use vstd::prelude::*;
use vstd::slice::slice_subrange;
use vstd::string::StringExecFns;
use vstd::utf8::{encode_utf8, is_ascii_chars, is_ascii_chars_encode_utf8};

verus! {

/// Why call data was rejected.
#[derive(Debug, Clone, Copy, PartialEq, Eq, Structural)]
pub enum ValidationError {
    /// Nothing is left once the prefix is taken off.
    EmptyPayload,
    /// The number of hex digits is odd.
    OddLength,
    /// Some byte is not a hex digit.
    NonHexCharacter,
    /// Fewer than four bytes are encoded, so no function selector fits.
    TooShortForSelector,
}

impl ValidationError {
    /// The text of the error.
    pub open spec fn spec_message(self) -> Seq<char> {
        match self {
            ValidationError::EmptyPayload => "CALLDATA is empty"@,
            ValidationError::OddLength => "CALLDATA has odd-length"@,
            ValidationError::NonHexCharacter => "CALLDATA contains non-hex characters"@,
            ValidationError::TooShortForSelector => "CALLDATA shorter than 4-byte selector"@,
        }
    }

    /// The text of the error.
    pub fn to_string(&self) -> (message: String)
        ensures
            message@ == self.spec_message(),
    {
        match self {
            ValidationError::EmptyPayload => String::from_str("CALLDATA is empty"),
            ValidationError::OddLength => String::from_str("CALLDATA has odd-length"),
            ValidationError::NonHexCharacter => String::from_str(
                "CALLDATA contains non-hex characters",
            ),
            ValidationError::TooShortForSelector => String::from_str(
                "CALLDATA shorter than 4-byte selector",
            ),
        }
    }
}

/// The number of bytes of a function selector.
pub const SELECTOR_LEN: usize = 4;

/// Whether `byte` is an ASCII hex digit, of either case.
pub open spec fn is_hex_digit(byte: u8) -> bool {
    ||| 0x30 <= byte <= 0x39
    ||| 0x41 <= byte <= 0x46
    ||| 0x61 <= byte <= 0x66
}

/// The number that a hex digit stands for.
pub open spec fn hex_value(byte: u8) -> int {
    if 0x30 <= byte <= 0x39 {
        byte - 0x30
    } else if 0x41 <= byte <= 0x46 {
        byte - 0x41 + 10
    } else {
        byte - 0x61 + 10
    }
}

/// Whether every byte of `digits` is a hex digit.
pub open spec fn all_hex_digits(digits: Seq<u8>) -> bool {
    forall|i: int| 0 <= i < digits.len() ==> is_hex_digit(#[trigger] digits[i])
}

/// The bytes that an even number of hex digits encode, two digits to the byte, high digit first.
pub open spec fn decoded(digits: Seq<u8>) -> Seq<u8> {
    Seq::new(
        digits.len() / 2,
        |i: int| (16 * hex_value(digits[2 * i]) + hex_value(digits[2 * i + 1])) as u8,
    )
}

/// `bytes` without a leading `0x`, if it has one.
pub open spec fn without_prefix(bytes: Seq<u8>) -> Seq<u8> {
    if bytes.len() >= 2 && bytes[0] == 0x30 && bytes[1] == 0x78 {
        bytes.skip(2)
    } else {
        bytes
    }
}

/// What validation makes of the hex digits that follow the prefix: the first rule that fails
/// names the error.
pub open spec fn validated_digits(digits: Seq<u8>) -> Result<Seq<u8>, ValidationError> {
    if digits.len() == 0 {
        Err(ValidationError::EmptyPayload)
    } else if digits.len() % 2 != 0 {
        Err(ValidationError::OddLength)
    } else if !all_hex_digits(digits) {
        Err(ValidationError::NonHexCharacter)
    } else if digits.len() < 2 * SELECTOR_LEN {
        Err(ValidationError::TooShortForSelector)
    } else {
        Ok(decoded(digits))
    }
}

/// What validation makes of call data. Lengths count the bytes of its UTF-8 encoding.
pub open spec fn validated(calldata: Seq<char>) -> Result<Seq<u8>, ValidationError> {
    validated_digits(without_prefix(encode_utf8(calldata)))
}

/// `hex::FromHexError`, of which nothing is known.
#[verifier::external_type_specification]
#[verifier::external_body]
pub struct ExFromHexError(hex::FromHexError);

/// `hex::decode`, which accepts exactly the inputs of even length that hold hex digits only, of
/// either case, and then returns one byte for each pair of digits, the first digit of a pair
/// being the high half of the byte.
#[verifier::external_body]
fn hex_decode(digits: &[u8]) -> (outcome: Result<Vec<u8>, hex::FromHexError>)
    ensures
        match outcome {
            Ok(bytes) => digits@.len() % 2 == 0 && all_hex_digits(digits@) && bytes@ == decoded(
                digits@,
            ),
            Err(_) => digits@.len() % 2 != 0 || !all_hex_digits(digits@),
        },
{
    hex::decode(digits)
}

/// Tells whether `byte` is an ASCII hex digit.
fn byte_is_hex_digit(byte: u8) -> (yes: bool)
    ensures
        yes == is_hex_digit(byte),
{
    (0x30 <= byte && byte <= 0x39) || (0x41 <= byte && byte <= 0x46) || (0x61 <= byte && byte
        <= 0x66)
}

/// Tells whether every byte of `digits` is an ASCII hex digit.
fn bytes_are_hex_digits(digits: &[u8]) -> (yes: bool)
    ensures
        yes == all_hex_digits(digits@),
{
    let mut i: usize = 0;
    while i < digits.len()
        invariant
            i <= digits@.len(),
            forall|j: int| 0 <= j < i ==> is_hex_digit(#[trigger] digits@[j]),
        decreases digits@.len() - i,
    {
        if !byte_is_hex_digit(digits[i]) {
            return false;
        }
        i += 1;
    }
    true
}

/// Validates hex-encoded call data and decodes it.
///
/// An optional `0x` is taken off first. What is left must not be empty, must have even length,
/// must hold hex digits only and must encode at least four bytes; the first of these to fail, in
/// this order, is the error.
pub fn parse_calldata(input: &String) -> (parsed: Result<Vec<u8>, ValidationError>)
    ensures
        match parsed {
            Ok(bytes) => validated(input@) == Ok::<Seq<u8>, ValidationError>(bytes@),
            Err(error) => validated(input@) == Err::<Seq<u8>, ValidationError>(error),
        },
{
    let bytes = input.as_str().as_bytes();
    let start: usize = if bytes.len() >= 2 && bytes[0] == 0x30 && bytes[1] == 0x78 {
        2
    } else {
        0
    };
    let digits = slice_subrange(bytes, start, bytes.len());
    assert(digits@ =~= without_prefix(encode_utf8(input@)));
    if digits.len() == 0 {
        return Err(ValidationError::EmptyPayload);
    }
    if digits.len() % 2 != 0 {
        return Err(ValidationError::OddLength);
    }
    if !bytes_are_hex_digits(digits) {
        return Err(ValidationError::NonHexCharacter);
    }
    if digits.len() < 2 * SELECTOR_LEN {
        return Err(ValidationError::TooShortForSelector);
    }
    match hex_decode(digits) {
        Ok(decoded_bytes) => Ok(decoded_bytes),
        // The digits were checked above, so the decoder has no reason to refuse them.
        Err(_) => Err(ValidationError::NonHexCharacter),
    }
}

/// Whether `c` is an ASCII hex digit, of either case.
pub open spec fn is_hex_digit_char(c: char) -> bool {
    ||| '0' <= c <= '9'
    ||| 'A' <= c <= 'F'
    ||| 'a' <= c <= 'f'
}

/// The bytes of a text of ASCII characters.
pub open spec fn ascii_bytes(text: Seq<char>) -> Seq<u8> {
    Seq::new(text.len(), |i: int| text[i] as u8)
}

/// Call data made of an even number of hex digits, at least eight, with or without the `0x`
/// prefix, is accepted, and the result is what the digits encode.
pub proof fn lemma_well_formed_calldata_decodes(digits: Seq<char>, prefixed: bool)
    requires
        digits.len() % 2 == 0,
        digits.len() >= 2 * SELECTOR_LEN,
        forall|i: int| 0 <= i < digits.len() ==> is_hex_digit_char(#[trigger] digits[i]),
    ensures
        validated(
            if prefixed {
                "0x"@ + digits
            } else {
                digits
            },
        ) == Ok::<Seq<u8>, ValidationError>(decoded(ascii_bytes(digits))),
        decoded(ascii_bytes(digits)).len() >= SELECTOR_LEN,
{
    reveal_strlit("0x");
    let text = if prefixed {
        "0x"@ + digits
    } else {
        digits
    };
    assert(is_ascii_chars(text));
    is_ascii_chars_encode_utf8(text);
    let bytes = encode_utf8(text);
    assert(bytes =~= ascii_bytes(text));
    let found = ascii_bytes(digits);
    assert forall|i: int| 0 <= i < found.len() implies is_hex_digit(#[trigger] found[i]) by {
        assert(is_hex_digit_char(digits[i]));
    }
    if prefixed {
        assert(bytes[0] == 0x30 && bytes[1] == 0x78);
        assert(without_prefix(bytes) =~= found);
    } else {
        assert(is_hex_digit_char(digits[1]));
        assert(without_prefix(bytes) =~= found);
    }
}

} // verus!
