//! Fresh random bytes from the operating system.

use rand::RngCore;
use vstd::prelude::*;

verus! {

/// The error of rand's generators; nothing is read from it.
#[verifier::external_type_specification]
#[verifier::external_body]
pub struct ExRandError(rand::Error);

/// `rand::rngs::OsRng::try_fill_bytes` on a buffer of 32 bytes: the bytes
/// that the operating system drew, or its error where it has no entropy to
/// give. Nothing is claimed of the bytes.
#[verifier::external_body]
pub(crate) fn os_entropy() -> (drawn: Result<[u8; 32], rand::Error>) {
    let mut buffer = [0u8; 32];
    rand::rngs::OsRng.try_fill_bytes(&mut buffer)?;
    Ok(buffer)
}

} // verus!
