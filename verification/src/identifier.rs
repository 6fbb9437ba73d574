//! Identifiers: 32 random bytes, written in Base58.

use vstd::prelude::*;
use crate::entropy::os_entropy;
use crate::error::CryptoError;

verus! {

/// The Base58 text of `bytes`, in the Bitcoin alphabet and without a
/// checksum.
pub uninterp spec fn base58_text(bytes: Seq<u8>) -> Seq<char>;

/// `bs58::encode(..).into_string()`: the Base58 text of the bytes, which is a
/// function of the bytes.
#[verifier::external_body]
pub(crate) fn base58(bytes: &[u8]) -> (text: String)
    ensures
        text@ == base58_text(bytes@),
{
    bs58::encode(bytes).into_string()
}

/// The identifier for what was drawn from the operating system: the Base58
/// text of the 32 bytes, or `RandomnessUnavailable` where nothing was drawn.
pub fn identifier_from_entropy(drawn: Result<[u8; 32], rand::Error>) -> (r: Result<
    String,
    CryptoError,
>)
    ensures
        drawn matches Ok(raw) ==> (r matches Ok(id) && id@ == base58_text(raw@)),
        drawn is Err ==> (r matches Err(e) && e == CryptoError::RandomnessUnavailable),
{
    match drawn {
        Ok(raw) => Ok(base58(raw.as_slice())),
        Err(_) => Err(CryptoError::RandomnessUnavailable),
    }
}

/// Generates an identifier from 32 bytes that the operating system draws for
/// this call alone. Nothing checks that it was not given out before.
pub fn generate_base58_id() -> (r: Result<String, CryptoError>)
    ensures
        r matches Ok(id) ==> exists|raw: Seq<u8>|
            raw.len() == 32 && id@ == #[trigger] base58_text(raw),
        r matches Err(e) ==> e == CryptoError::RandomnessUnavailable,
{
    let drawn = os_entropy();
    proof {
        if let Ok(raw) = drawn {
            assert(raw@.len() == 32);
        }
    }
    identifier_from_entropy(drawn)
}

} // verus!
