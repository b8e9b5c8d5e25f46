//! Word mnemonics: keys written as short dictionary words, six words for every eight bytes.

use vstd::prelude::*;
use rfc1751::{FromRfc1751, FromRfc1751Error, ToRfc1751, ToRfc1751Error};

verus! {

/// The mnemonic that `ToRfc1751::to_rfc1751` writes for `key`, for a key whose
/// length is a multiple of eight.
pub uninterp spec fn mnemonic_text(key: Seq<u8>) -> Seq<char>;

/// The bytes that `FromRfc1751::from_rfc1751` reads from `text`; `None` where it
/// rejects the text.
pub uninterp spec fn mnemonic_bytes(text: Seq<char>) -> Option<Seq<u8>>;

/// How many words a text of words and single spaces holds.
pub open spec fn word_count(text: Seq<char>) -> nat {
    if text.len() == 0 {
        0
    } else {
        text.filter(|c: char| c == ' ').len() + 1
    }
}

/// The shape of a written mnemonic: capital letters in words that single spaces
/// part, with no space at either end.
pub open spec fn is_upper_words(text: Seq<char>) -> bool {
    &&& forall|i: int| 0 <= i < text.len() ==> 'A' <= #[trigger] text[i] <= 'Z' || text[i] == ' '
    &&& forall|i: int| 0 <= i < text.len() - 1 ==> !(#[trigger] text[i] == ' ' && text[i + 1] == ' ')
    &&& text.len() > 0 ==> text.first() != ' ' && text.last() != ' '
}

/// The error of `ToRfc1751::to_rfc1751`, carried through without a look inside.
#[verifier::external_type_specification]
#[verifier::external_body]
pub struct ExToRfc1751Error(ToRfc1751Error);

/// The error of `FromRfc1751::from_rfc1751`, carried through without a look inside.
#[verifier::external_type_specification]
#[verifier::external_body]
pub struct ExFromRfc1751Error(FromRfc1751Error);

/// `ToRfc1751::to_rfc1751` on a byte slice fails unless the length is a multiple
/// of eight. Otherwise it writes six dictionary words for every eight bytes, in
/// capitals and parted by single spaces, and `FromRfc1751::from_rfc1751` reads the
/// same bytes back from what it wrote.
#[verifier::external_body]
pub(crate) fn to_rfc1751(key: &[u8]) -> (r: Result<String, ToRfc1751Error>)
    ensures
        r is Ok <==> key@.len() % 8 == 0,
        r matches Ok(text) ==> {
            &&& text@ == mnemonic_text(key@)
            &&& mnemonic_bytes(text@) == Some(key@)
            &&& is_upper_words(text@)
            &&& word_count(text@) == 6 * (key@.len() / 8)
        },
{
    key.to_rfc1751()
}

/// `FromRfc1751::from_rfc1751` on a text either reads bytes from it or rejects it,
/// and which of the two depends on the text alone.
#[verifier::external_body]
pub(crate) fn from_rfc1751(text: &str) -> (r: Result<Vec<u8>, FromRfc1751Error>)
    ensures
        r is Ok <==> mnemonic_bytes(text@) is Some,
        r matches Ok(bytes) ==> mnemonic_bytes(text@) == Some(bytes@),
{
    text.from_rfc1751()
}

} // verus!
