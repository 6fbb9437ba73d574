//! ECDSA over NIST P-256: keys, signing and verification.
//!
//! The curve arithmetic is done by the `p256` crate. This module holds keys
//! and signatures as the bytes they serialize to, and says of each operation
//! which bytes go in and which come out.

use p256::ecdsa::signature::{Signer, Verifier};
use rand::SeedableRng;
use vstd::pervasive::unreached;
use vstd::prelude::*;
use vstd::slice::slice_to_vec;
use crate::entropy::os_entropy;
use crate::error::CryptoError;

verus! {

/// The number that `bytes` spell in base 256, most significant byte first.
pub open spec fn big_endian(bytes: Seq<u8>) -> nat
    decreases bytes.len(),
{
    if bytes.len() == 0 {
        0
    } else {
        big_endian(bytes.drop_last()) * 256 + bytes.last() as nat
    }
}

/// The order of the group that the base point of P-256 generates.
pub open spec fn group_order() -> nat {
    0xffffffff00000000ffffffffffffffffbce6faada7179e84f3b9cac2fc632551nat
}

/// `bytes` serialize a private key: 32 bytes that spell a number from 1 up to
/// the group order less one.
pub open spec fn is_secret_scalar(bytes: Seq<u8>) -> bool {
    bytes.len() == 32 && 0 < big_endian(bytes) < group_order()
}

/// The private scalar that `p256` draws from the generator seeded by `seed`.
pub uninterp spec fn scalar_from_seed(seed: Seq<u8>) -> Seq<u8>;

/// The public point of the private scalar `secret`, in the uncompressed SEC1
/// encoding.
pub uninterp spec fn public_key_of(secret: Seq<u8>) -> Seq<u8>;

/// The signature that `p256` computes with `secret` over `message`: ECDSA
/// with SHA-256 and the deterministic nonce of RFC 6979, as `r` then `s`.
pub uninterp spec fn signature_of(secret: Seq<u8>, message: Seq<u8>) -> Option<Seq<u8>>;

/// Whether `p256` accepts `signature` for `message` under the SEC1-encoded
/// public key `public`.
pub uninterp spec fn signature_accepted(
    public: Seq<u8>,
    message: Seq<u8>,
    signature: Seq<u8>,
) -> bool;

/// Whether `p256` reads `bytes` as the SEC1 encoding of a public key.
pub uninterp spec fn is_public_point(bytes: Seq<u8>) -> bool;

/// The error of the `p256` signature operations; nothing is read from it.
#[verifier::external_type_specification]
#[verifier::external_body]
pub struct ExSignatureError(p256::ecdsa::Error);

/// `p256::ecdsa::SigningKey::random`, driven by rand's `StdRng` seeded with
/// `seed`. The key is a function of the seed, and it is a valid private
/// scalar: the generator rejects zero and anything not below the group order.
#[verifier::external_body]
fn p256_scalar_from_seed(seed: &[u8; 32]) -> (secret: [u8; 32])
    ensures
        secret@ == scalar_from_seed(seed@),
        is_secret_scalar(secret@),
{
    let mut generator = rand::rngs::StdRng::from_seed(*seed);
    p256::ecdsa::SigningKey::random(&mut generator).to_bytes().into()
}

/// `p256::ecdsa::SigningKey::from_bytes`: whether the 32 bytes are accepted as
/// a private key, which is so exactly when they spell a number that is not
/// zero and is below the group order.
#[verifier::external_body]
fn p256_accepts_scalar(bytes: &[u8; 32]) -> (accepted: bool)
    ensures
        accepted == is_secret_scalar(bytes@),
{
    p256::ecdsa::SigningKey::from_bytes(bytes.into()).is_ok()
}

/// `p256::ecdsa::SigningKey::verifying_key`, serialized by
/// `to_encoded_point(false)`. It fails only where the bytes are no private
/// key; the point it gives is a function of the key and takes 65 bytes.
#[verifier::external_body]
fn p256_public_key(secret: &[u8; 32]) -> (r: Result<Vec<u8>, p256::ecdsa::Error>)
    ensures
        r is Ok <==> is_secret_scalar(secret@),
        r matches Ok(point) ==> point@ == public_key_of(secret@) && point@.len() == 65,
{
    let key = p256::ecdsa::SigningKey::from_bytes(secret.into())?;
    Ok(key.verifying_key().to_encoded_point(false).as_bytes().to_vec())
}

/// `try_sign` of `p256::ecdsa::SigningKey`. The signature is a function of
/// the key and the message, and `p256` accepts it for that message under the
/// public key of `secret`.
#[verifier::external_body]
fn p256_sign(secret: &[u8; 32], message: &[u8]) -> (r: Result<[u8; 64], p256::ecdsa::Error>)
    ensures
        r matches Ok(signature) ==> signature_of(secret@, message@) == Some(signature@)
            && signature_accepted(public_key_of(secret@), message@, signature@),
        r is Err ==> signature_of(secret@, message@) is None,
{
    let key = p256::ecdsa::SigningKey::from_bytes(secret.into())?;
    let signature: p256::ecdsa::Signature = key.try_sign(message)?;
    Ok(signature.to_bytes().into())
}

/// `verify` of `p256::ecdsa::VerifyingKey`, on a key read by
/// `from_sec1_bytes` and a signature read by `Signature::from_bytes`. Bytes
/// that are no key or no signature are not accepted.
#[verifier::external_body]
fn p256_verify(public: &[u8], message: &[u8], signature: &[u8; 64]) -> (accepted: bool)
    ensures
        accepted == signature_accepted(public@, message@, signature@),
{
    let Ok(key) = p256::ecdsa::VerifyingKey::from_sec1_bytes(public) else {
        return false;
    };
    let Ok(parsed) = p256::ecdsa::Signature::from_bytes(signature.into()) else {
        return false;
    };
    key.verify(message, &parsed).is_ok()
}

/// `p256::ecdsa::VerifyingKey::from_sec1_bytes`: whether the bytes are read
/// as a public key.
#[verifier::external_body]
fn p256_accepts_point(bytes: &[u8]) -> (accepted: bool)
    ensures
        accepted == is_public_point(bytes@),
{
    p256::ecdsa::VerifyingKey::from_sec1_bytes(bytes).is_ok()
}

/// A private key: the scalar that signs.
pub struct SigningKey {
    bytes: [u8; 32],
}

/// A public key: the curve point that verifies, in the uncompressed SEC1
/// encoding.
#[derive(Debug)]
pub struct VerifyingKey {
    bytes: Vec<u8>,
}

/// A signature: `r` then `s`, 32 bytes each.
#[derive(Clone, Copy, Debug)]
pub struct Signature {
    bytes: [u8; 64],
}

impl View for SigningKey {
    type V = Seq<u8>;

    closed spec fn view(&self) -> Seq<u8> {
        self.bytes@
    }
}

impl View for VerifyingKey {
    type V = Seq<u8>;

    closed spec fn view(&self) -> Seq<u8> {
        self.bytes@
    }
}

impl View for Signature {
    type V = Seq<u8>;

    closed spec fn view(&self) -> Seq<u8> {
        self.bytes@
    }
}

impl SigningKey {
    #[verifier::type_invariant]
    spec fn well_formed(self) -> bool {
        is_secret_scalar(self.bytes@)
    }

    /// The key that `bytes` serialize, where they are a private scalar.
    pub fn from_bytes(bytes: [u8; 32]) -> (key: Option<SigningKey>)
        ensures
            key is Some <==> is_secret_scalar(bytes@),
            key matches Some(k) ==> k@ == bytes@,
    {
        if p256_accepts_scalar(&bytes) {
            Some(SigningKey { bytes })
        } else {
            None
        }
    }

    /// The 32 bytes of the scalar, most significant byte first.
    pub fn to_bytes(&self) -> (bytes: [u8; 32])
        ensures
            bytes@ == self@,
            is_secret_scalar(bytes@),
    {
        proof {
            use_type_invariant(self);
        }
        self.bytes
    }
}

impl VerifyingKey {
    #[verifier::type_invariant]
    spec fn well_formed(self) -> bool {
        self.bytes@.len() == 65
    }

    /// The key that `bytes` serialize, where they are the uncompressed SEC1
    /// encoding of a point that `p256` takes for a public key.
    pub fn from_bytes(bytes: &[u8]) -> (key: Option<VerifyingKey>)
        ensures
            key is Some <==> bytes@.len() == 65 && is_public_point(bytes@),
            key matches Some(k) ==> k@ == bytes@,
    {
        if bytes.len() == 65 && p256_accepts_point(bytes) {
            Some(VerifyingKey { bytes: slice_to_vec(bytes) })
        } else {
            None
        }
    }

    /// The 65 bytes of the point: the tag, then `x`, then `y`.
    pub fn to_bytes(&self) -> (bytes: Vec<u8>)
        ensures
            bytes@ == self@,
            bytes@.len() == 65,
    {
        proof {
            use_type_invariant(self);
        }
        slice_to_vec(self.bytes.as_slice())
    }
}

impl Signature {
    /// The signature that `bytes` serialize. Any 64 bytes are taken; bytes
    /// that are no signature are accepted for no message.
    pub fn from_bytes(bytes: [u8; 64]) -> (signature: Signature)
        ensures
            signature@ == bytes@,
    {
        Signature { bytes }
    }

    /// The 64 bytes of the signature.
    pub fn to_bytes(&self) -> (bytes: [u8; 64])
        ensures
            bytes@ == self@,
    {
        self.bytes
    }
}

/// The key pair for what was drawn from the operating system: the key that
/// the seed determines, or `RandomnessUnavailable` where nothing was drawn.
pub fn keypair_from_entropy(drawn: Result<[u8; 32], rand::Error>) -> (r: Result<
    SigningKey,
    CryptoError,
>)
    ensures
        drawn matches Ok(seed) ==> (r matches Ok(key) && key@ == scalar_from_seed(seed@)
            && is_secret_scalar(key@)),
        drawn is Err ==> (r matches Err(e) && e == CryptoError::RandomnessUnavailable),
{
    match drawn {
        Ok(seed) => Ok(SigningKey { bytes: p256_scalar_from_seed(&seed) }),
        Err(_) => Err(CryptoError::RandomnessUnavailable),
    }
}

/// Generates a new key pair from 32 bytes that the operating system draws for
/// this call alone. The private key is returned; the public key is derived
/// from it by [`derive_public_key`].
pub fn generate_keypair() -> (r: Result<SigningKey, CryptoError>)
    ensures
        r matches Ok(key) ==> is_secret_scalar(key@) && exists|seed: Seq<u8>|
            seed.len() == 32 && key@ == #[trigger] scalar_from_seed(seed),
        r matches Err(e) ==> e == CryptoError::RandomnessUnavailable,
{
    let drawn = os_entropy();
    proof {
        if let Ok(seed) = drawn {
            assert(seed@.len() == 32);
        }
    }
    keypair_from_entropy(drawn)
}

/// Derives the public key of a private key. The result is a function of the
/// private key: deriving twice gives the same 65 bytes.
pub fn derive_public_key(signing_key: &SigningKey) -> (verifying_key: VerifyingKey)
    ensures
        verifying_key@ == public_key_of(signing_key@),
        verifying_key@.len() == 65,
{
    proof {
        use_type_invariant(signing_key);
    }
    match p256_public_key(&signing_key.bytes) {
        Ok(bytes) => VerifyingKey { bytes },
        Err(_) => {
            proof {
                assert(false);
            }
            unreached()
        },
    }
}

/// What `sign_message` returns for each outcome of the signature primitive:
/// the signature it gave, or `SigningFailure` where it gave none.
pub fn signing_result(outcome: Result<[u8; 64], p256::ecdsa::Error>) -> (r: Result<
    Signature,
    CryptoError,
>)
    ensures
        outcome matches Ok(bytes) ==> (r matches Ok(signature) && signature@ == bytes@),
        outcome is Err ==> (r matches Err(e) && e == CryptoError::SigningFailure),
{
    match outcome {
        Ok(bytes) => Ok(Signature { bytes }),
        Err(_) => Err(CryptoError::SigningFailure),
    }
}

/// Signs `message` with a private key. A signature that is returned verifies
/// for `message` under the public key derived from `signing_key`.
pub fn sign_message(signing_key: &SigningKey, message: &[u8]) -> (r: Result<
    Signature,
    CryptoError,
>)
    ensures
        r matches Ok(signature) ==> signature_of(signing_key@, message@) == Some(signature@)
            && signature_accepted(public_key_of(signing_key@), message@, signature@),
        r matches Err(e) ==> e == CryptoError::SigningFailure && signature_of(
            signing_key@,
            message@,
        ) is None,
{
    signing_result(p256_sign(&signing_key.bytes, message))
}

/// Checks `signature` for `message` under a public key. A signature that does
/// not match is an ordinary `false`.
pub fn verify_signature(
    verifying_key: &VerifyingKey,
    message: &[u8],
    signature: &Signature,
) -> (accepted: bool)
    ensures
        accepted == signature_accepted(verifying_key@, message@, signature@),
{
    p256_verify(verifying_key.bytes.as_slice(), message, &signature.bytes)
}

} // verus!
