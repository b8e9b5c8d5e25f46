//! The operations of the exchange: bringing the subsystem up, making key pairs,
//! encrypting a message into an envelope and decrypting an envelope.

use vstd::prelude::*;
use crate::base64::{base64_bytes, base64_fits, from_base64, is_base64url};
use crate::cryptobox::{
    gen_keypair, gen_nonce, is_key_pair, open_box, opened, opens_back, public_key_of, seal_box, start_subsystem,
    MAC_BYTES, NONCE_BYTES,
};
use crate::envelope::{envelope_parts, envelope_text, frame_envelope, law_split_inverts_frame, split_envelope};
use crate::error::{bytes_view, text_view, PtsError};
use crate::keys::{
    decode_private, decode_public, encode_private, encode_public, private_key_of_text, private_key_text,
    public_key_of_text, public_key_text,
};

verus! {

/// Whether the two texts are the two halves of one key pair: the private text
/// stands for a secret key and the public text for the public key that belongs to it.
pub open spec fn is_key_pair_text(public_text: Seq<char>, private_text: Seq<char>) -> bool {
    &&& private_key_of_text(private_text) matches Ok(secret_key)
    &&& public_key_of_text(public_text) == Ok::<Seq<u8>, PtsError>(public_key_of(secret_key))
}

/// Whether `text` is an envelope that holds `cipher` and `nonce`, where `cipher`
/// is `message` sealed under `nonce` for the holder of `public_key` by the
/// holder of `secret_key`.
pub open spec fn is_envelope_of(
    text: Seq<char>,
    cipher: Seq<u8>,
    nonce: Seq<u8>,
    message: Seq<u8>,
    public_key: Seq<u8>,
    secret_key: Seq<u8>,
) -> bool {
    &&& nonce.len() == NONCE_BYTES
    &&& cipher.len() == message.len() + MAC_BYTES
    &&& text == envelope_text(cipher, nonce)
    &&& base64_bytes(text) == Some(cipher + nonce)
    &&& is_base64url(text)
    &&& opens_back(cipher, nonce, message, public_key, secret_key)
}

/// Whether `text` is an envelope that holds `nonce` and, sealed under it for the
/// holder of `public_key` by the holder of `secret_key`, `message`.
pub open spec fn is_sealed_under(
    text: Seq<char>,
    nonce: Seq<u8>,
    message: Seq<u8>,
    public_key: Seq<u8>,
    secret_key: Seq<u8>,
) -> bool {
    exists|cipher: Seq<u8>| #[trigger] is_envelope_of(text, cipher, nonce, message, public_key, secret_key)
}

/// Whether `text` is an envelope that holds some nonce and, sealed under it for
/// the holder of `public_key` by the holder of `secret_key`, `message`.
pub open spec fn is_sealed_envelope(
    text: Seq<char>,
    message: Seq<u8>,
    public_key: Seq<u8>,
    secret_key: Seq<u8>,
) -> bool {
    exists|nonce: Seq<u8>| #[trigger] is_sealed_under(text, nonce, message, public_key, secret_key)
}

/// What encryption owes its caller. A key text that cannot be decoded gives its
/// own error, the public key's first. Otherwise the result is an envelope that
/// holds a nonce and, sealed under it, the message.
pub open spec fn encrypts(
    public_text: Seq<char>,
    private_text: Seq<char>,
    message: Seq<u8>,
    r: Result<Seq<char>, PtsError>,
) -> bool {
    match public_key_of_text(public_text) {
        Err(e) => r == Err::<Seq<char>, PtsError>(e),
        Ok(public_key) => match private_key_of_text(private_text) {
            Err(e) => r == Err::<Seq<char>, PtsError>(e),
            Ok(secret_key) => r matches Ok(text) && is_sealed_envelope(text, message, public_key, secret_key),
        },
    }
}

/// What opening the bytes of an envelope gives: `DecryptLength` where they hold
/// no more than a nonce, `DecryptPhase` where the ciphertext fails
/// authentication, and otherwise the message.
pub open spec fn opened_envelope(bytes: Seq<u8>, public_key: Seq<u8>, secret_key: Seq<u8>) -> Result<
    Seq<u8>,
    PtsError,
> {
    match envelope_parts(bytes) {
        Err(e) => Err(e),
        Ok((cipher, nonce)) => match opened(cipher, nonce, public_key, secret_key) {
            None => Err(PtsError::DecryptPhase),
            Some(message) => Ok(message),
        },
    }
}

/// What decryption gives. A key text that cannot be decoded gives its own error,
/// the public key's first; an envelope text that is not base64 gives
/// `DecryptParse`; the rest is the opening of the envelope's bytes.
pub open spec fn decrypted(public_text: Seq<char>, private_text: Seq<char>, envelope: Seq<char>) -> Result<
    Seq<u8>,
    PtsError,
> {
    match public_key_of_text(public_text) {
        Err(e) => Err(e),
        Ok(public_key) => match private_key_of_text(private_text) {
            Err(e) => Err(e),
            Ok(secret_key) => match base64_bytes(envelope) {
                None => Err(PtsError::DecryptParse),
                Some(bytes) => opened_envelope(bytes, public_key, secret_key),
            },
        },
    }
}

/// Turns the subsystem's own report of its start into the library's: success
/// stays success, and a failure is `FatalInit`.
pub fn init_outcome(outcome: Result<(), ()>) -> (r: Result<(), PtsError>)
    ensures
        outcome is Ok ==> r == Ok::<(), PtsError>(()),
        outcome is Err ==> r == Err::<(), PtsError>(PtsError::FatalInit),
{
    match outcome {
        Ok(_) => Ok(()),
        Err(_) => Err(PtsError::FatalInit),
    }
}

/// Brings the cryptographic subsystem up. To be called before any other
/// operation; calling it again is harmless. The only error is `FatalInit`.
pub fn init() -> (r: Result<(), PtsError>)
    ensures
        r == Ok::<(), PtsError>(()) || r == Err::<(), PtsError>(PtsError::FatalInit),
{
    init_outcome(start_subsystem())
}

/// Writes both halves of a key pair as text: the public key as a mnemonic of 24
/// words, the private key as 64 hexadecimal digits. Never fails, and the two
/// decoders read the keys back from the texts.
pub fn encode_keypair(public_key: &[u8; 32], secret_key: &[u8; 32]) -> (r: Result<(String, String), PtsError>)
    ensures
        r matches Ok((public_text, private_text)) && {
            &&& public_text@ == public_key_text(public_key@)
            &&& private_text@ == private_key_text(secret_key@)
            &&& public_key_of_text(public_text@) == Ok::<Seq<u8>, PtsError>(public_key@)
            &&& private_key_of_text(private_text@) == Ok::<Seq<u8>, PtsError>(secret_key@)
        },
{
    match encode_public(public_key.as_slice()) {
        Err(e) => Err(e),
        Ok(public_text) => Ok((public_text, encode_private(secret_key))),
    }
}

/// Makes a new key pair and returns it as text, the public half first. Never
/// fails. The two texts are the halves of one pair, each in its canonical form.
pub fn new_keypair() -> (r: Result<(String, String), PtsError>)
    ensures
        r matches Ok((public_text, private_text)) && {
            &&& is_key_pair_text(public_text@, private_text@)
            &&& private_key_of_text(private_text@) matches Ok(secret_key)
            &&& private_text@ == private_key_text(secret_key)
            &&& public_text@ == public_key_text(public_key_of(secret_key))
        },
{
    let (public_key, secret_key) = gen_keypair();
    encode_keypair(&public_key, &secret_key)
}

/// Seals `message` under `nonce` for the holder of `public_key` and returns the
/// envelope that holds the ciphertext and the nonce.
pub fn seal_envelope(public_key: &[u8; 32], secret_key: &[u8; 32], message: &[u8], nonce: &[u8; 24]) -> (text:
    String)
    requires
        base64_fits(message@.len() + MAC_BYTES + NONCE_BYTES),
    ensures
        is_sealed_under(text@, nonce@, message@, public_key@, secret_key@),
{
    let cipher = seal_box(message, nonce, public_key, secret_key);
    let ghost sealed = cipher@;
    let text = frame_envelope(cipher, nonce);
    assert(is_envelope_of(text@, sealed, nonce@, message@, public_key@, secret_key@));
    text
}

/// Encrypts `message_bytes` to the holder of the public key, from the holder of
/// the private key, under a nonce drawn for this one call. The only errors are
/// those of decoding the two keys.
pub fn encrypt(public_key_str: &str, private_key_str: &str, message_bytes: &[u8]) -> (r: Result<String, PtsError>)
    requires
        base64_fits(message_bytes@.len() + MAC_BYTES + NONCE_BYTES),
    ensures
        encrypts(public_key_str@, private_key_str@, message_bytes@, text_view(r)),
{
    let public_key = match decode_public(public_key_str) {
        Ok(key) => key,
        Err(e) => { return Err(e); },
    };
    let secret_key = match decode_private(private_key_str) {
        Ok(key) => key,
        Err(e) => { return Err(e); },
    };
    let nonce = gen_nonce();
    let text = seal_envelope(&public_key, &secret_key, message_bytes, &nonce);
    Ok(text)
}

/// Encrypts as `encrypt` does, for a caller that cannot tell beforehand whether
/// the envelope of its message can be written: `None` exactly where the
/// message is too long for that, and otherwise what `encrypt` returns.
pub fn try_encrypt(public_key_str: &str, private_key_str: &str, message_bytes: &[u8]) -> (r: Option<
    Result<String, PtsError>,
>)
    ensures
        r is Some <==> base64_fits(message_bytes@.len() + MAC_BYTES + NONCE_BYTES),
        r matches Some(outcome) ==> encrypts(
            public_key_str@,
            private_key_str@,
            message_bytes@,
            text_view(outcome),
        ),
{
    let len = message_bytes.len();
    if len <= usize::MAX - MAC_BYTES - NONCE_BYTES - 2 && (len + MAC_BYTES + NONCE_BYTES + 2) / 3 <= usize::MAX / 4 {
        Some(encrypt(public_key_str, private_key_str, message_bytes))
    } else {
        None
    }
}

/// Turns the outcome of opening a ciphertext into the library's: a message
/// stays, and a failure, whatever its cause, is `DecryptPhase`.
pub fn opening_outcome(outcome: Result<Vec<u8>, ()>) -> (r: Result<Vec<u8>, PtsError>)
    ensures
        match outcome {
            Ok(message) => r == Ok::<Vec<u8>, PtsError>(message),
            Err(_) => r == Err::<Vec<u8>, PtsError>(PtsError::DecryptPhase),
        },
{
    match outcome {
        Ok(message) => Ok(message),
        Err(_) => Err(PtsError::DecryptPhase),
    }
}

/// Opens the bytes of an envelope with the sender's public key and the
/// receiver's private key. Fails with `DecryptLength` where the bytes hold no
/// more than a nonce, and with `DecryptPhase` where the ciphertext fails
/// authentication.
pub fn open_envelope(public_key: &[u8; 32], secret_key: &[u8; 32], bytes: &[u8]) -> (r: Result<Vec<u8>, PtsError>)
    ensures
        bytes_view(r) == opened_envelope(bytes@, public_key@, secret_key@),
        r matches Ok(message) ==> message@.len() + MAC_BYTES + NONCE_BYTES == bytes@.len(),
{
    match split_envelope(bytes) {
        Err(e) => Err(e),
        Ok((cipher, nonce)) => opening_outcome(open_box(cipher.as_slice(), &nonce, public_key, secret_key)),
    }
}

/// Decrypts an envelope from the holder of the public key, to the holder of the
/// private key. Every failure of authentication is the one error
/// `DecryptPhase`, whatever its cause.
pub fn decrypt(public_key_str: &str, private_key_str: &str, cipher_text: &str) -> (r: Result<Vec<u8>, PtsError>)
    ensures
        bytes_view(r) == decrypted(public_key_str@, private_key_str@, cipher_text@),
{
    let public_key = match decode_public(public_key_str) {
        Ok(key) => key,
        Err(e) => { return Err(e); },
    };
    let secret_key = match decode_private(private_key_str) {
        Ok(key) => key,
        Err(e) => { return Err(e); },
    };
    match from_base64(cipher_text) {
        Err(_) => Err(PtsError::DecryptParse),
        Ok(bytes) => open_envelope(&public_key, &secret_key, bytes.as_slice()),
    }
}

/// Decryption undoes encryption. For every two key pairs A and B, every message
/// and every envelope that encrypting the message to B's public key with A's
/// private key may return, decrypting the envelope with A's public key and B's
/// private key gives the message.
pub proof fn law_decrypt_inverts_encrypt(
    public_a: Seq<char>,
    private_a: Seq<char>,
    public_b: Seq<char>,
    private_b: Seq<char>,
    message: Seq<u8>,
    envelope: Seq<char>,
)
    requires
        is_key_pair_text(public_a, private_a),
        is_key_pair_text(public_b, private_b),
        encrypts(public_b, private_a, message, Ok(envelope)),
    ensures
        decrypted(public_a, private_b, envelope) == Ok::<Seq<u8>, PtsError>(message),
{
    let secret_a = private_key_of_text(private_a)->Ok_0;
    let secret_b = private_key_of_text(private_b)->Ok_0;
    let key_b = public_key_of(secret_b);
    let nonce = choose|nonce: Seq<u8>| #[trigger] is_sealed_under(envelope, nonce, message, key_b, secret_a);
    let cipher = choose|cipher: Seq<u8>| #[trigger]
        is_envelope_of(envelope, cipher, nonce, message, key_b, secret_a);
    law_split_inverts_frame(cipher, nonce);
    assert(is_key_pair(key_b, secret_b));
}

/// An envelope that is framed as it should be either opens or fails
/// authentication. Where both keys decode and the envelope is base64 text of
/// more bytes than a nonce, decryption gives a message exactly where opening
/// does, and otherwise the one error `DecryptPhase`: a changed ciphertext, a
/// changed nonce and a wrong key are not told apart.
pub proof fn law_framed_envelope_opens_or_fails_authentication(
    public_text: Seq<char>,
    private_text: Seq<char>,
    envelope: Seq<char>,
)
    requires
        public_key_of_text(public_text) is Ok,
        private_key_of_text(private_text) is Ok,
        base64_bytes(envelope) matches Some(bytes) && bytes.len() > NONCE_BYTES,
    ensures
        ({
            let public_key = public_key_of_text(public_text)->Ok_0;
            let secret_key = private_key_of_text(private_text)->Ok_0;
            let bytes = base64_bytes(envelope)->0;
            let cut = bytes.len() - NONCE_BYTES;
            let cipher = bytes.subrange(0, cut);
            let nonce = bytes.subrange(cut, bytes.len() as int);
            match opened(cipher, nonce, public_key, secret_key) {
                Some(message) => decrypted(public_text, private_text, envelope) == Ok::<Seq<u8>, PtsError>(message),
                None => decrypted(public_text, private_text, envelope) == Err::<Seq<u8>, PtsError>(
                    PtsError::DecryptPhase,
                ),
            }
        }),
{
}

} // verus!
