//! Hexadecimal text: two digits for each byte.

use vstd::prelude::*;
use rustc_serialize::hex::{FromHex, FromHexError, ToHex};

verus! {

/// The lower-case digit that stands for `n`, for `n` below sixteen.
pub open spec fn hex_digit(n: int) -> char {
    if n < 10 {
        ((48 + n) as u8) as char
    } else {
        ((87 + n) as u8) as char
    }
}

/// What a digit stands for; `None` for a character that is no hexadecimal digit.
/// Letters count in either case.
pub open spec fn hex_value(c: char) -> Option<int> {
    if '0' <= c <= '9' {
        Some(c as u8 - 48)
    } else if 'a' <= c <= 'f' {
        Some(c as u8 - 87)
    } else if 'A' <= c <= 'F' {
        Some(c as u8 - 55)
    } else {
        None
    }
}

/// The characters that decoding passes over wherever they stand.
pub open spec fn is_hex_blank(c: char) -> bool {
    c == ' ' || c == '\r' || c == '\n' || c == '\t'
}

/// The hexadecimal text of `bytes`: for each byte its high digit, then its low one.
pub open spec fn hex_encoding(bytes: Seq<u8>) -> Seq<char> {
    Seq::new(
        2 * bytes.len(),
        |i: int| hex_digit(if i % 2 == 0 { bytes[i / 2] as int / 16 } else { bytes[i / 2] as int % 16 }),
    )
}

/// Whether `text` is made of digits and of the letters `a` to `f` in lower case.
pub open spec fn is_lower_hex(text: Seq<char>) -> bool {
    forall|i: int| 0 <= i < text.len() ==> '0' <= #[trigger] text[i] <= '9' || 'a' <= text[i] <= 'f'
}

/// The characters of `text` that decoding does not pass over.
pub open spec fn hex_digits(text: Seq<char>) -> Seq<char> {
    text.filter(|c: char| !is_hex_blank(c))
}

/// Whether every character of `text` is a hexadecimal digit, in either case.
pub open spec fn is_hex(text: Seq<char>) -> bool {
    forall|i: int| 0 <= i < text.len() ==> hex_value(#[trigger] text[i]) is Some
}

/// The bytes that an even number of digits stands for: two digits make a byte,
/// the high one first.
pub open spec fn hex_bytes(digits: Seq<char>) -> Seq<u8> {
    Seq::new(
        digits.len() / 2,
        |i: int| (16 * hex_value(digits[2 * i])->0 + hex_value(digits[2 * i + 1])->0) as u8,
    )
}

/// The bytes that `text` stands for, if it is made of blanks and an even number of
/// hexadecimal digits; otherwise `None`.
pub open spec fn hex_decoding(text: Seq<char>) -> Option<Seq<u8>> {
    let digits = hex_digits(text);
    if digits.len() % 2 == 0 && is_hex(digits) {
        Some(hex_bytes(digits))
    } else {
        None
    }
}

/// The error of `FromHex::from_hex`, carried through without a look inside.
#[verifier::external_type_specification]
#[verifier::external_body]
pub struct ExFromHexError(FromHexError);

/// `ToHex::to_hex` on a byte slice writes each byte as two lower-case digits,
/// the high one first.
#[verifier::external_body]
pub(crate) fn to_hex(bytes: &[u8]) -> (text: String)
    requires
        2 * bytes@.len() <= usize::MAX,
    ensures
        text@ == hex_encoding(bytes@),
{
    bytes.to_hex()
}

/// `FromHex::from_hex` on a text passes over space, tab, line feed and carriage
/// return, reads the remaining characters two by two as the digits of one byte,
/// and fails on any other character and on an odd number of digits.
#[verifier::external_body]
pub(crate) fn from_hex(text: &str) -> (r: Result<Vec<u8>, FromHexError>)
    ensures
        r is Ok <==> hex_decoding(text@) is Some,
        r matches Ok(bytes) ==> hex_decoding(text@) == Some(bytes@),
{
    text.from_hex()
}

/// A hexadecimal encoding has two characters for each byte, each of them a digit
/// in lower case.
pub proof fn lemma_hex_encoding_digits(bytes: Seq<u8>)
    ensures
        hex_encoding(bytes).len() == 2 * bytes.len(),
        is_lower_hex(hex_encoding(bytes)),
        is_hex(hex_encoding(bytes)),
{
}

/// A text without blanks is all digits to the decoder.
pub proof fn lemma_hex_digits_of_blank_free(text: Seq<char>)
    requires
        forall|i: int| 0 <= i < text.len() ==> !is_hex_blank(#[trigger] text[i]),
    ensures
        hex_digits(text) == text,
    decreases text.len(),
{
    reveal(Seq::filter);
    if text.len() > 0 {
        lemma_hex_digits_of_blank_free(text.drop_last());
    }
}

/// A text of digits alone stands for bytes exactly if the digits are even in number.
pub proof fn lemma_hex_decoding_of_digits(text: Seq<char>)
    requires
        is_hex(text),
    ensures
        hex_decoding(text) == if text.len() % 2 == 0 {
            Some(hex_bytes(text))
        } else {
            None
        },
{
    lemma_hex_digits_of_blank_free(text);
}

/// Decoding the hexadecimal encoding of any bytes gives the bytes back.
pub proof fn lemma_hex_round_trip(bytes: Seq<u8>)
    ensures
        hex_decoding(hex_encoding(bytes)) == Some(bytes),
{
    let text = hex_encoding(bytes);
    lemma_hex_encoding_digits(bytes);
    lemma_hex_decoding_of_digits(text);
    assert(hex_bytes(text) =~= bytes);
}

} // verus!
