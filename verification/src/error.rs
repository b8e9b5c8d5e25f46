//! The error taxonomy shared by every operation of the library.

use vstd::prelude::*;

verus! {

/// Everything that can go wrong in key handling, encryption and decryption.
#[derive(Debug, Clone, Copy, PartialEq, Eq, Structural)]
pub enum PtsError {
    /// The cryptographic subsystem could not be brought up.
    FatalInit,
    /// A freshly generated public key could not be written as a mnemonic.
    FatalEncode,
    /// The public key text is not a well-formed mnemonic.
    PublicKeyParse,
    /// The public key text stands for something other than 32 bytes.
    PublicKeyLength,
    /// The private key text is not well-formed hexadecimal.
    PrivateKeyParse,
    /// The private key text stands for something other than 32 bytes.
    PrivateKeyLength,
    /// The envelope text is not well-formed base64.
    DecryptParse,
    /// The envelope failed authentication.
    DecryptPhase,
    /// The envelope is too short to hold a nonce and a ciphertext.
    DecryptLength,
}

impl PtsError {
    /// The exit code that stands for the error: each error has a number of its own.
    pub open spec fn exit_code_of(self) -> int {
        match self {
            PtsError::FatalInit => 9,
            PtsError::FatalEncode => 10,
            PtsError::PublicKeyParse => 11,
            PtsError::PublicKeyLength => 12,
            PtsError::PrivateKeyParse => 13,
            PtsError::PrivateKeyLength => 14,
            PtsError::DecryptParse => 21,
            PtsError::DecryptPhase => 22,
            PtsError::DecryptLength => 23,
        }
    }

    /// Tells the two errors after which the caller has to abort from those that
    /// a corrected input can mend.
    pub fn is_fatal(&self) -> (fatal: bool)
        ensures
            fatal == (*self == PtsError::FatalInit || *self == PtsError::FatalEncode),
    {
        match self {
            PtsError::FatalInit => true,
            PtsError::FatalEncode => true,
            _ => false,
        }
    }

    /// The exit code by which a program reports the error.
    pub fn exit_code(&self) -> (code: i32)
        ensures
            code == self.exit_code_of(),
    {
        match self {
            PtsError::FatalInit => 9,
            PtsError::FatalEncode => 10,
            PtsError::PublicKeyParse => 11,
            PtsError::PublicKeyLength => 12,
            PtsError::PrivateKeyParse => 13,
            PtsError::PrivateKeyLength => 14,
            PtsError::DecryptParse => 21,
            PtsError::DecryptPhase => 22,
            PtsError::DecryptLength => 23,
        }
    }
}

/// No two errors share an exit code, and no error has the code of success.
pub proof fn law_exit_codes_are_distinct(a: PtsError, b: PtsError)
    ensures
        a.exit_code_of() == b.exit_code_of() ==> a == b,
        a.exit_code_of() != 0,
{
}

/// A text result, with the text as a sequence of characters.
pub open spec fn text_view(r: Result<String, PtsError>) -> Result<Seq<char>, PtsError> {
    match r {
        Ok(text) => Ok(text@),
        Err(e) => Err(e),
    }
}

/// A result of bytes, with the bytes as a sequence.
pub open spec fn bytes_view(r: Result<Vec<u8>, PtsError>) -> Result<Seq<u8>, PtsError> {
    match r {
        Ok(bytes) => Ok(bytes@),
        Err(e) => Err(e),
    }
}

} // verus!
