//! The envelope: a ciphertext with its nonce behind it, written as base64 text.

use vstd::prelude::*;
use crate::base64::{
    base64_bytes, base64_fits, base64url_text, is_base64url, lemma_base64url_text_shape, to_base64url,
};
use crate::cryptobox::NONCE_BYTES;
use crate::error::PtsError;

verus! {

/// The text of the envelope that holds `cipher` and `nonce`.
pub open spec fn envelope_text(cipher: Seq<u8>, nonce: Seq<u8>) -> Seq<char> {
    base64url_text(cipher + nonce)
}

/// The ciphertext and the nonce that the bytes of an envelope hold: the last 24
/// bytes are the nonce, and what stands before them, which may not be empty, is
/// the ciphertext.
pub open spec fn envelope_parts(bytes: Seq<u8>) -> Result<(Seq<u8>, Seq<u8>), PtsError> {
    if bytes.len() <= NONCE_BYTES {
        Err(PtsError::DecryptLength)
    } else {
        let cut = bytes.len() - NONCE_BYTES;
        Ok((bytes.subrange(0, cut), bytes.subrange(cut, bytes.len() as int)))
    }
}

/// The parts of an envelope, or the error of splitting, with the parts as sequences.
pub open spec fn parts_view(r: Result<(Vec<u8>, [u8; 24]), PtsError>) -> Result<(Seq<u8>, Seq<u8>), PtsError> {
    match r {
        Ok((cipher, nonce)) => Ok((cipher@, nonce@)),
        Err(e) => Err(e),
    }
}

/// Splitting undoes framing: the bytes of a ciphertext that is not empty, with a
/// nonce behind them, split into that ciphertext and that nonce.
pub proof fn law_split_inverts_frame(cipher: Seq<u8>, nonce: Seq<u8>)
    requires
        cipher.len() > 0,
        nonce.len() == NONCE_BYTES,
    ensures
        envelope_parts(cipher + nonce) == Ok::<(Seq<u8>, Seq<u8>), PtsError>((cipher, nonce)),
{
    let bytes = cipher + nonce;
    let cut = bytes.len() - NONCE_BYTES;
    assert(bytes.subrange(0, cut) =~= cipher);
    assert(bytes.subrange(cut, bytes.len() as int) =~= nonce);
}

/// Puts the nonce behind the ciphertext and writes both as base64 text in the
/// URL-safe alphabet. The base64 decoder reads the same bytes back from the text.
pub fn frame_envelope(cipher: Vec<u8>, nonce: &[u8; 24]) -> (text: String)
    requires
        base64_fits(cipher@.len() + NONCE_BYTES),
    ensures
        text@ == envelope_text(cipher@, nonce@),
        base64_bytes(text@) == Some(cipher@ + nonce@),
        is_base64url(text@),
{
    let mut bytes = cipher;
    let mut i: usize = 0;
    while i < NONCE_BYTES
        invariant
            i <= NONCE_BYTES,
            bytes@ == cipher@ + nonce@.subrange(0, i as int),
        decreases NONCE_BYTES - i,
    {
        bytes.push(nonce[i]);
        i += 1;
    }
    assert(nonce@.subrange(0, NONCE_BYTES as int) =~= nonce@);
    proof {
        lemma_base64url_text_shape(bytes@);
    }
    to_base64url(bytes.as_slice())
}

/// Splits the bytes of an envelope into ciphertext and nonce. Fails with
/// `DecryptLength` exactly where the bytes hold no more than a nonce.
pub fn split_envelope(bytes: &[u8]) -> (r: Result<(Vec<u8>, [u8; 24]), PtsError>)
    ensures
        parts_view(r) == envelope_parts(bytes@),
{
    let len = bytes.len();
    if len <= NONCE_BYTES {
        return Err(PtsError::DecryptLength);
    }
    let cut = len - NONCE_BYTES;
    let mut cipher: Vec<u8> = Vec::new();
    let mut i: usize = 0;
    while i < cut
        invariant
            i <= cut,
            cut + NONCE_BYTES == len,
            len == bytes@.len(),
            cipher@ == bytes@.subrange(0, i as int),
        decreases cut - i,
    {
        cipher.push(bytes[i]);
        i += 1;
    }
    let mut nonce = [0u8; 24];
    let mut j: usize = 0;
    while j < NONCE_BYTES
        invariant
            j <= NONCE_BYTES,
            cut + NONCE_BYTES == len,
            len == bytes@.len(),
            forall|k: int| 0 <= k < j ==> nonce@[k] == bytes@[cut + k],
        decreases NONCE_BYTES - j,
    {
        nonce[j] = bytes[cut + j];
        j += 1;
    }
    assert(nonce@ =~= bytes@.subrange(cut as int, bytes@.len() as int));
    Ok((cipher, nonce))
}

} // verus!
