//! The failures an operation of this crate can report.

use vstd::prelude::*;

verus! {

/// Why an operation did not produce its result. Every failure is local to the
/// call that reports it.
#[derive(Clone, Copy, Debug, PartialEq, Eq, Structural)]
pub enum CryptoError {
    /// The operating system could not supply entropy for a new key or
    /// identifier.
    RandomnessUnavailable,
    /// The signature primitive rejected the key or produced no signature.
    SigningFailure,
    /// The signature does not match the public key and the message.
    VerificationFailure,
    /// The bytes are not the canonical encoding of any transaction.
    DecodeFailure,
}

impl CryptoError {
    /// The text that `message` returns for each failure.
    pub open spec fn message_text(self) -> Seq<char> {
        match self {
            CryptoError::RandomnessUnavailable => "randomness unavailable"@,
            CryptoError::SigningFailure => "signature failed"@,
            CryptoError::VerificationFailure => "Invalid signature"@,
            CryptoError::DecodeFailure => "malformed transaction bytes"@,
        }
    }

    /// A short description of the failure, for reports.
    pub fn message(&self) -> (text: &'static str)
        ensures
            text@ == self.message_text(),
    {
        match self {
            CryptoError::RandomnessUnavailable => "randomness unavailable",
            CryptoError::SigningFailure => "signature failed",
            CryptoError::VerificationFailure => "Invalid signature",
            CryptoError::DecodeFailure => "malformed transaction bytes",
        }
    }
}

} // verus!
