//! Authenticated, confidential message exchange between holders of long-term key pairs.
//!
//! A caller brings the cryptographic subsystem up with [`init`], makes a key
//! pair with [`new_keypair`] or takes the texts of keys it already has, and
//! calls [`encrypt`] or [`decrypt`]. Keys travel as text: a public key as a
//! mnemonic of 24 words, a private key as 64 hexadecimal digits. A message
//! travels as an envelope: base64 text of the ciphertext with its nonce behind it.
//!
//! * [`keys`] is the key codec, with its round trips and its indifference to case.
//! * [`envelope`] frames and splits envelopes.
//! * [`protocol`] holds the operations and the law that decryption undoes encryption.
//! * [`text`], [`hex`], [`mnemonic`], [`base64`] and [`cryptobox`] say what is
//!   taken on trust from the standard library and from the crates that do the
//!   encoding and the cryptography. Each trusted item is marked as such and says
//!   in its doc comment what it claims; everything else is proved from these.

pub mod base64;
pub mod cryptobox;
pub mod envelope;
pub mod error;
pub mod hex;
pub mod keys;
pub mod mnemonic;
pub mod protocol;
pub mod text;

pub use crate::error::PtsError;
pub use crate::protocol::{decrypt, encrypt, init, new_keypair};
