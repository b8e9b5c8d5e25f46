//! Public-key authenticated encryption: key pairs, nonces, sealing and opening.

use vstd::prelude::*;
use sodiumoxide::crypto::box_::{Nonce, PublicKey, SecretKey};

verus! {

/// Length of a public key and of a private key, in bytes.
pub const KEY_BYTES: usize = 32;

/// Length of a nonce, in bytes.
pub const NONCE_BYTES: usize = 24;

/// Length of the authentication tag that sealing puts in front of the encrypted message.
pub const MAC_BYTES: usize = 16;

/// The public key that belongs to a secret key: what `SecretKey::public_key`
/// computes from it, and what `box_::gen_keypair` hands out beside it.
pub uninterp spec fn public_key_of(secret_key: Seq<u8>) -> Seq<u8>;

/// The message that `box_::open` reads from `cipher` under a nonce, the sender's
/// public key and the receiver's secret key; `None` where the ciphertext fails
/// authentication.
pub uninterp spec fn opened(
    cipher: Seq<u8>,
    nonce: Seq<u8>,
    public_key: Seq<u8>,
    secret_key: Seq<u8>,
) -> Option<Seq<u8>>;

/// Whether the two keys were made together: the public key is the one that
/// belongs to the secret key.
pub open spec fn is_key_pair(public_key: Seq<u8>, secret_key: Seq<u8>) -> bool {
    &&& secret_key.len() == KEY_BYTES
    &&& public_key.len() == KEY_BYTES
    &&& public_key == public_key_of(secret_key)
}

/// Whether `cipher` is `message` sealed for the holder of `public_key` by the
/// holder of `secret_key`: whoever holds the secret key that `public_key` belongs
/// to opens it, under the same nonce and the sender's public key, to `message`.
pub open spec fn opens_back(
    cipher: Seq<u8>,
    nonce: Seq<u8>,
    message: Seq<u8>,
    public_key: Seq<u8>,
    secret_key: Seq<u8>,
) -> bool {
    forall|receiver: Seq<u8>| #[trigger]
        is_key_pair(public_key, receiver) ==> opened(cipher, nonce, public_key_of(secret_key), receiver) == Some(
            message,
        )
}

/// `sodiumoxide::init` brings the cryptographic subsystem up; whether it manages
/// depends on the machine, so nothing is promised of its report.
#[verifier::external_body]
pub(crate) fn start_subsystem() -> (outcome: Result<(), ()>)
{
    sodiumoxide::init()
}

/// `box_::gen_keypair` draws a secret key at random and hands it out with the
/// public key that belongs to it. Which secret key it draws is left open.
#[verifier::external_body]
pub(crate) fn gen_keypair() -> (pair: ([u8; 32], [u8; 32]))
    ensures
        pair.0@ == public_key_of(pair.1@),
{
    let (public_key, secret_key) = sodiumoxide::crypto::box_::gen_keypair();
    (public_key.0, secret_key.0)
}

/// `box_::gen_nonce` draws a nonce at random: nothing is promised of the 24 bytes.
#[verifier::external_body]
pub(crate) fn gen_nonce() -> (nonce: [u8; 24])
{
    sodiumoxide::crypto::box_::gen_nonce().0
}

/// `box_::seal` returns a ciphertext that is longer than the message by the
/// authentication tag. Where the receiver's public key belongs to a secret key,
/// `box_::open` with that secret key, the same nonce and the sender's public key
/// reads the message back from it.
#[verifier::external_body]
pub(crate) fn seal_box(message: &[u8], nonce: &[u8; 24], public_key: &[u8; 32], secret_key: &[u8; 32]) -> (cipher: Vec<u8>)
    requires
        message@.len() + MAC_BYTES <= usize::MAX,
    ensures
        cipher@.len() == message@.len() + MAC_BYTES,
        opens_back(cipher@, nonce@, message@, public_key@, secret_key@),
{
    sodiumoxide::crypto::box_::seal(message, &Nonce(*nonce), &PublicKey(*public_key), &SecretKey(*secret_key))
}

/// `box_::open` either reads a message from the ciphertext or finds that it
/// fails authentication, and which of the two depends on its arguments alone.
/// A message that it reads is shorter than the ciphertext by the authentication tag.
#[verifier::external_body]
pub(crate) fn open_box(cipher: &[u8], nonce: &[u8; 24], public_key: &[u8; 32], secret_key: &[u8; 32]) -> (r: Result<Vec<u8>, ()>)
    ensures
        r is Ok <==> opened(cipher@, nonce@, public_key@, secret_key@) is Some,
        r matches Ok(message) ==> {
            &&& opened(cipher@, nonce@, public_key@, secret_key@) == Some(message@)
            &&& message@.len() + MAC_BYTES == cipher@.len()
        },
{
    sodiumoxide::crypto::box_::open(cipher, &Nonce(*nonce), &PublicKey(*public_key), &SecretKey(*secret_key))
}

} // verus!
