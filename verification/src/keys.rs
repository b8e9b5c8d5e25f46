//! The key codec: public keys as word mnemonics, private keys as hexadecimal text.

use vstd::prelude::*;
use vstd::utf8::is_ascii_chars;
use crate::cryptobox::KEY_BYTES;
use crate::error::PtsError;
use crate::hex::{
    from_hex, hex_bytes, hex_decoding, hex_encoding, hex_value, is_hex, is_lower_hex, lemma_hex_decoding_of_digits,
    lemma_hex_encoding_digits, lemma_hex_round_trip, to_hex,
};
use crate::mnemonic::{from_rfc1751, is_upper_words, mnemonic_bytes, mnemonic_text, to_rfc1751, word_count};
use crate::text::{
    ascii_lower, ascii_lower_char, ascii_upper, ascii_upper_char, lemma_trimmed_is_ascii, lemma_trimmed_is_identity,
    lemma_trimmed_of_upper, lemma_upper_is_ascii, lowercased, trimmed, uppercased,
};

verus! {

/// The text of a public key: its mnemonic in lower case.
pub open spec fn public_key_text(key: Seq<u8>) -> Seq<char> {
    lowercased(mnemonic_text(key))
}

/// The text of a private key: its bytes in hexadecimal.
pub open spec fn private_key_text(key: Seq<u8>) -> Seq<char> {
    hex_encoding(key)
}

/// The public key that decoded material makes: the material itself, if it has a
/// key's length.
pub open spec fn public_key_of_material(material: Seq<u8>) -> Result<Seq<u8>, PtsError> {
    if material.len() == KEY_BYTES {
        Ok(material)
    } else {
        Err(PtsError::PublicKeyLength)
    }
}

/// The private key that decoded material makes: the material itself, if it has a
/// key's length.
pub open spec fn private_key_of_material(material: Seq<u8>) -> Result<Seq<u8>, PtsError> {
    if material.len() == KEY_BYTES {
        Ok(material)
    } else {
        Err(PtsError::PrivateKeyLength)
    }
}

/// The public key that a text stands for. The text is trimmed and put in upper
/// case, then read as a mnemonic; what is read has to be a key's length.
pub open spec fn public_key_of_text(text: Seq<char>) -> Result<Seq<u8>, PtsError> {
    match mnemonic_bytes(uppercased(trimmed(text))) {
        None => Err(PtsError::PublicKeyParse),
        Some(material) => public_key_of_material(material),
    }
}

/// The private key that a text stands for. The text is trimmed and put in lower
/// case, then read as hexadecimal; what is read has to be a key's length.
pub open spec fn private_key_of_text(text: Seq<char>) -> Result<Seq<u8>, PtsError> {
    match hex_decoding(lowercased(trimmed(text))) {
        None => Err(PtsError::PrivateKeyParse),
        Some(material) => private_key_of_material(material),
    }
}

/// A decoded key, or the error of decoding, with the key as a sequence of bytes.
pub open spec fn key_view(r: Result<[u8; 32], PtsError>) -> Result<Seq<u8>, PtsError> {
    match r {
        Ok(key) => Ok(key@),
        Err(e) => Err(e),
    }
}

/// The shape of a public key's text: small letters in words that single spaces
/// part, with no space at either end.
pub open spec fn is_lower_words(text: Seq<char>) -> bool {
    &&& forall|i: int| 0 <= i < text.len() ==> 'a' <= #[trigger] text[i] <= 'z' || text[i] == ' '
    &&& forall|i: int| 0 <= i < text.len() - 1 ==> !(#[trigger] text[i] == ' ' && text[i + 1] == ' ')
    &&& text.len() > 0 ==> text.first() != ' ' && text.last() != ' '
}

/// Putting a written mnemonic in lower case and back in upper case changes nothing.
pub proof fn lemma_upper_of_lower_words(text: Seq<char>)
    requires
        is_upper_words(text),
    ensures
        is_ascii_chars(text),
        is_ascii_chars(ascii_lower(text)),
        is_lower_words(ascii_lower(text)),
        ascii_upper(ascii_lower(text)) == text,
        trimmed(ascii_lower(text)) == ascii_lower(text),
{
    let lower = ascii_lower(text);
    assert(ascii_upper(lower) =~= text);
    assert(is_lower_words(lower));
    lemma_trimmed_is_identity(lower);
}

/// Changing the case of letters does not change how many words a text holds.
pub proof fn lemma_word_count_of_lower(text: Seq<char>)
    ensures
        word_count(ascii_lower(text)) == word_count(text),
{
    lemma_space_count_of_lower(text);
}

proof fn lemma_space_count_of_lower(text: Seq<char>)
    ensures
        ascii_lower(text).filter(|c: char| c == ' ').len() == text.filter(|c: char| c == ' ').len(),
    decreases text.len(),
{
    reveal(Seq::filter);
    if text.len() > 0 {
        lemma_space_count_of_lower(text.drop_last());
        assert(ascii_lower(text).drop_last() =~= ascii_lower(text.drop_last()));
    }
}

/// Writes a public key as a mnemonic in lower case. Fails with `FatalEncode`
/// exactly for a length that is no multiple of eight. The text of a key of 32
/// bytes has 24 words, and `decode_public` reads the key back from it.
pub fn encode_public(key: &[u8]) -> (r: Result<String, PtsError>)
    ensures
        key@.len() % 8 != 0 ==> r == Err::<String, PtsError>(PtsError::FatalEncode),
        key@.len() % 8 == 0 ==> r is Ok,
        r matches Ok(text) ==> {
            &&& text@ == public_key_text(key@)
            &&& is_lower_words(text@)
            &&& word_count(text@) == 6 * (key@.len() / 8)
            &&& public_key_of_text(text@) == public_key_of_material(key@)
        },
{
    match to_rfc1751(key) {
        Err(_) => Err(PtsError::FatalEncode),
        Ok(words) => {
            let text = words.as_str().to_lowercase();
            proof {
                lemma_upper_of_lower_words(words@);
                lemma_word_count_of_lower(words@);
                law_public_key_round_trip(key@, words@);
            }
            Ok(text)
        },
    }
}

/// Writes a private key as 64 hexadecimal digits in lower case, two for each
/// byte. `decode_private` reads the key back from the text.
pub fn encode_private(key: &[u8; 32]) -> (text: String)
    ensures
        text@ == private_key_text(key@),
        text@.len() == 2 * KEY_BYTES,
        is_lower_hex(text@),
        private_key_of_text(text@) == Ok::<Seq<u8>, PtsError>(key@),
{
    proof {
        lemma_hex_encoding_digits(key@);
        law_private_key_round_trip(key@);
    }
    to_hex(key.as_slice())
}

/// Copies a key out of decoded material, if the material has a key's length.
fn key_from_bytes(material: &[u8]) -> (r: Option<[u8; 32]>)
    ensures
        r is Some <==> material@.len() == KEY_BYTES,
        r matches Some(key) ==> key@ == material@,
{
    if material.len() != KEY_BYTES {
        return None;
    }
    let mut key = [0u8; 32];
    let mut i: usize = 0;
    while i < KEY_BYTES
        invariant
            i <= KEY_BYTES,
            material@.len() == KEY_BYTES,
            forall|j: int| 0 <= j < i ==> key@[j] == material@[j],
        decreases KEY_BYTES - i,
    {
        key[i] = material[i];
        i += 1;
    }
    Some(key)
}

/// Makes a public key of decoded material. Fails with `PublicKeyLength` exactly
/// where the material is not 32 bytes long.
pub fn public_key_from_material(material: &[u8]) -> (r: Result<[u8; 32], PtsError>)
    ensures
        key_view(r) == public_key_of_material(material@),
{
    match key_from_bytes(material) {
        Some(key) => Ok(key),
        None => Err(PtsError::PublicKeyLength),
    }
}

/// Makes a private key of decoded material. Fails with `PrivateKeyLength`
/// exactly where the material is not 32 bytes long.
pub fn private_key_from_material(material: &[u8]) -> (r: Result<[u8; 32], PtsError>)
    ensures
        key_view(r) == private_key_of_material(material@),
{
    match key_from_bytes(material) {
        Some(key) => Ok(key),
        None => Err(PtsError::PrivateKeyLength),
    }
}

/// Reads a public key from its text, in any mix of upper and lower case and with
/// white space around it. Fails with `PublicKeyParse` where the text is no
/// mnemonic, and with `PublicKeyLength` where the mnemonic is not one of 32 bytes.
pub fn decode_public(text: &str) -> (r: Result<[u8; 32], PtsError>)
    ensures
        key_view(r) == public_key_of_text(text@),
{
    let normal = text.trim().to_uppercase();
    match from_rfc1751(normal.as_str()) {
        Err(_) => Err(PtsError::PublicKeyParse),
        Ok(material) => public_key_from_material(material.as_slice()),
    }
}

/// Reads a private key from its text, with white space around it. Fails with
/// `PrivateKeyParse` where the text is not hexadecimal, and with
/// `PrivateKeyLength` where it does not stand for 32 bytes.
pub fn decode_private(text: &str) -> (r: Result<[u8; 32], PtsError>)
    ensures
        key_view(r) == private_key_of_text(text@),
{
    let normal = text.trim().to_lowercase();
    match from_hex(normal.as_str()) {
        Err(_) => Err(PtsError::PrivateKeyParse),
        Ok(material) => private_key_from_material(material.as_slice()),
    }
}

/// Reading the text of a public key gives the key back. This holds for every
/// key whose mnemonic is as the word codec writes it: in capitals, and such that
/// the codec reads the key back from it. A key of another length than 32 bytes
/// comes back as the length error.
pub proof fn law_public_key_round_trip(key: Seq<u8>, words: Seq<char>)
    requires
        words == mnemonic_text(key),
        mnemonic_bytes(words) == Some(key),
        is_upper_words(words),
    ensures
        public_key_of_text(public_key_text(key)) == public_key_of_material(key),
        key.len() == KEY_BYTES ==> public_key_of_text(public_key_text(key)) == Ok::<Seq<u8>, PtsError>(key),
{
    lemma_upper_of_lower_words(words);
}

/// A text of hexadecimal digits alone, in either case, stands for the bytes that
/// its digits make two by two, if these are 32; an odd number of digits is
/// rejected.
pub proof fn law_private_key_of_digits(text: Seq<char>)
    requires
        is_hex(text),
    ensures
        private_key_of_text(text) == if text.len() % 2 == 0 {
            private_key_of_material(hex_bytes(text))
        } else {
            Err::<Seq<u8>, PtsError>(PtsError::PrivateKeyParse)
        },
{
    lemma_trimmed_is_identity(text);
    assert(is_ascii_chars(text));
    let lower = ascii_lower(text);
    assert(is_hex(lower));
    lemma_hex_decoding_of_digits(lower);
    assert(hex_bytes(lower) =~= hex_bytes(text));
}

/// Reading the text of a private key gives the key back, for every key of 32 bytes.
pub proof fn law_private_key_round_trip(key: Seq<u8>)
    requires
        key.len() == KEY_BYTES,
    ensures
        private_key_of_text(private_key_text(key)) == Ok::<Seq<u8>, PtsError>(key),
{
    let text = hex_encoding(key);
    lemma_hex_encoding_digits(key);
    lemma_hex_round_trip(key);
    lemma_hex_decoding_of_digits(text);
    law_private_key_of_digits(text);
}

/// Case does not matter in the text of a private key either: an ASCII text
/// stands for what its all-upper-case form stands for.
pub proof fn law_private_key_text_ignores_case(text: Seq<char>)
    requires
        is_ascii_chars(text),
    ensures
        private_key_of_text(text) == private_key_of_text(ascii_upper(text)),
{
    lemma_upper_is_ascii(text);
    lemma_trimmed_of_upper(text);
    lemma_trimmed_is_ascii(text);
    lemma_upper_is_ascii(trimmed(text));
    assert(ascii_lower(ascii_upper(trimmed(text))) =~= ascii_lower(trimmed(text)));
}

/// Case does not matter in the text of a public key: an ASCII text, in whatever
/// mix of upper and lower case, stands for what its all-upper-case form stands for.
pub proof fn law_public_key_text_ignores_case(text: Seq<char>)
    requires
        is_ascii_chars(text),
    ensures
        public_key_of_text(text) == public_key_of_text(ascii_upper(text)),
        public_key_of_text(text) == public_key_of_text(uppercased(text)),
{
    lemma_upper_is_ascii(text);
    lemma_trimmed_of_upper(text);
    lemma_trimmed_is_ascii(text);
    lemma_upper_is_ascii(trimmed(text));
}

} // verus!
