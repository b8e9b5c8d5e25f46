//! Base64 text in the URL-safe alphabet, without padding and without line breaks.

use vstd::prelude::*;
use rustc_serialize::base64::{FromBase64, FromBase64Error, ToBase64, URL_SAFE};

verus! {

/// The character that stands for six bits in the URL-safe alphabet.
pub open spec fn base64url_char(six_bits: int) -> char {
    if six_bits < 26 {
        ((65 + six_bits) as u8) as char
    } else if six_bits < 52 {
        ((71 + six_bits) as u8) as char
    } else if six_bits < 62 {
        ((six_bits - 4) as u8) as char
    } else if six_bits == 62 {
        '-'
    } else {
        '_'
    }
}

/// The four characters that stand for a number of 24 bits, the highest six bits first.
pub open spec fn base64url_group(n: int) -> Seq<char> {
    seq![
        base64url_char(n / 262144 % 64),
        base64url_char(n / 4096 % 64),
        base64url_char(n / 64 % 64),
        base64url_char(n % 64),
    ]
}

/// The base64 text of `bytes` in the URL-safe alphabet, unpadded and on one
/// line. Every three bytes make a number of 24 bits and are written as four
/// characters; of a last group of one or two bytes, filled up with zero bits,
/// only the first two or three characters are written.
pub open spec fn base64url_text(bytes: Seq<u8>) -> Seq<char>
    decreases bytes.len(),
{
    if bytes.len() == 0 {
        Seq::empty()
    } else {
        let second = if bytes.len() > 1 { bytes[1] as int } else { 0 };
        let third = if bytes.len() > 2 { bytes[2] as int } else { 0 };
        let group = base64url_group(bytes[0] * 65536 + second * 256 + third);
        if bytes.len() <= 3 {
            group.take(bytes.len() as int + 1)
        } else {
            group + base64url_text(bytes.skip(3))
        }
    }
}

/// The bytes that `FromBase64::from_base64` reads from `text`; `None` where it
/// rejects the text.
pub uninterp spec fn base64_bytes(text: Seq<char>) -> Option<Seq<u8>>;

/// Whether base64 text for `len` bytes can be written at all: four characters
/// stand for every three bytes or part of three, and their number has to fit
/// the machine's word.
pub open spec fn base64_fits(len: int) -> bool {
    4 * ((len + 2) / 3) <= usize::MAX
}

/// Whether `c` belongs to the URL-safe base64 alphabet.
pub open spec fn is_base64url_char(c: char) -> bool {
    'A' <= c <= 'Z' || 'a' <= c <= 'z' || '0' <= c <= '9' || c == '-' || c == '_'
}

/// Whether `text` is written in the URL-safe base64 alphabet throughout: no
/// padding, no line break.
pub open spec fn is_base64url(text: Seq<char>) -> bool {
    forall|i: int| 0 <= i < text.len() ==> is_base64url_char(#[trigger] text[i])
}

/// The error of `FromBase64::from_base64`, carried through without a look inside.
#[verifier::external_type_specification]
#[verifier::external_body]
pub struct ExFromBase64Error(FromBase64Error);

/// `ToBase64::to_base64` on a byte slice, with the configuration `URL_SAFE` (the
/// URL-safe alphabet, no padding, no line wrapping), writes four characters for
/// every three bytes and two or three for what is left, and
/// `FromBase64::from_base64` reads the same bytes back from what it wrote.
#[verifier::external_body]
pub(crate) fn to_base64url(bytes: &[u8]) -> (text: String)
    requires
        base64_fits(bytes@.len() as int),
    ensures
        text@ == base64url_text(bytes@),
        base64_bytes(text@) == Some(bytes@),
{
    bytes.to_base64(URL_SAFE)
}

/// `FromBase64::from_base64` on a text either reads bytes from it or rejects it,
/// and which of the two depends on the text alone.
#[verifier::external_body]
pub(crate) fn from_base64(text: &str) -> (r: Result<Vec<u8>, FromBase64Error>)
    ensures
        r is Ok <==> base64_bytes(text@) is Some,
        r matches Ok(bytes) ==> base64_bytes(text@) == Some(bytes@),
{
    text.from_base64()
}

/// Base64 text in the URL-safe alphabet holds no other character, and has four
/// characters for every three bytes, rounded up to the next character.
pub proof fn lemma_base64url_text_shape(bytes: Seq<u8>)
    ensures
        is_base64url(base64url_text(bytes)),
        base64url_text(bytes).len() == (4 * bytes.len() + 2) / 3,
    decreases bytes.len(),
{
    if bytes.len() > 0 {
        let second = if bytes.len() > 1 { bytes[1] as int } else { 0 };
        let third = if bytes.len() > 2 { bytes[2] as int } else { 0 };
        let group = base64url_group(bytes[0] * 65536 + second * 256 + third);
        if bytes.len() > 3 {
            lemma_base64url_text_shape(bytes.skip(3));
        }
    }
}

} // verus!
