//! Binding a signature to a transaction: the signature is made and checked
//! over the canonical bytes of the record, so it holds for that record alone.

use vstd::prelude::*;
use crate::codec::{encode_transaction, Transaction, TransactionView};
use crate::ecdsa::{
    public_key_of, sign_message, signature_accepted, signature_of, verify_signature, Signature,
    SigningKey, VerifyingKey,
};
use crate::error::CryptoError;

verus! {

/// The signature of the private key `secret` over the record `transaction`.
pub open spec fn transaction_signature(secret: Seq<u8>, transaction: TransactionView) -> Option<
    Seq<u8>,
> {
    signature_of(secret, transaction.encoding())
}

/// Whether `signature` is accepted for the record `transaction` under the
/// public key `public`.
pub open spec fn transaction_signature_accepted(
    public: Seq<u8>,
    signature: Seq<u8>,
    transaction: TransactionView,
) -> bool {
    signature_accepted(public, transaction.encoding(), signature)
}

/// Signs the canonical bytes of `transaction`. A signature that is returned
/// is accepted for this transaction under the public key derived from
/// `signing_key`.
pub fn sign_transaction(signing_key: &SigningKey, transaction: &Transaction) -> (r: Result<
    Signature,
    CryptoError,
>)
    ensures
        r matches Ok(signature) ==> transaction_signature(signing_key@, transaction@) == Some(
            signature@,
        ) && transaction_signature_accepted(
            public_key_of(signing_key@),
            signature@,
            transaction@,
        ),
        r matches Err(e) ==> e == CryptoError::SigningFailure && transaction_signature(
            signing_key@,
            transaction@,
        ) is None,
{
    let encoded = encode_transaction(transaction);
    sign_message(signing_key, encoded.as_slice())
}

/// What `verify_transaction_signature` returns for each verdict of the
/// verifier: success where it accepted, `VerificationFailure` where it did
/// not.
pub fn verification_result(accepted: bool) -> (r: Result<(), CryptoError>)
    ensures
        accepted ==> r is Ok,
        !accepted ==> r == Err::<(), CryptoError>(CryptoError::VerificationFailure),
{
    if accepted {
        Ok(())
    } else {
        Err(CryptoError::VerificationFailure)
    }
}

/// Checks `signature` against the canonical bytes of `transaction` as it was
/// received. The bytes of a transaction that differs in any field differ, so
/// the signature is then checked against another message.
pub fn verify_transaction_signature(
    public_key: &VerifyingKey,
    signature: &Signature,
    transaction: &Transaction,
) -> (r: Result<(), CryptoError>)
    ensures
        r is Ok <==> transaction_signature_accepted(public_key@, signature@, transaction@),
        r matches Err(e) ==> e == CryptoError::VerificationFailure,
{
    let encoded = encode_transaction(transaction);
    verification_result(verify_signature(public_key, encoded.as_slice(), signature))
}

} // verus!
