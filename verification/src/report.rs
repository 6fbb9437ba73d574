//! A report on one owner's key: the key pair in Base58, and a trial
//! signature over a greeting to the owner.

use vstd::prelude::*;
use vstd::string::{StringExecFns, StringSliceAdditionalSpecFns};
use vstd::utf8::encode_utf8;
use crate::ecdsa::{
    derive_public_key, public_key_of, sign_message, signature_of, verify_signature, SigningKey,
};
use crate::identifier::{base58, base58_text};

verus! {

/// What is reported of a key.
#[derive(Debug)]
pub struct KeyInfo {
    /// The private key in Base58.
    pub signing_key: String,
    /// The public key in Base58.
    pub verifying_key: String,
    /// The trial signature in Base58; `None` where signing failed.
    pub signature: Option<String>,
    /// Whether the trial signature verified under the public key.
    pub signature_valid: bool,
}

/// The message that the trial signature is made over.
pub open spec fn greeting_text(owner: Seq<char>) -> Seq<char> {
    "Hello, "@ + owner + "!"@
}

/// The lines of the report, in the order in which they are shown.
pub open spec fn report_text(owner: Seq<char>, info: KeyInfo) -> Seq<Seq<char>> {
    let keys = seq![
        owner + "'s Signing Key: "@ + info.signing_key@,
        owner + "'s Verifying Key: "@ + info.verifying_key@,
    ];
    match info.signature {
        Some(text) => keys + seq![
            owner + "'s Signature: "@ + text@,
            owner + if info.signature_valid {
                "'s Signature is valid!"@
            } else {
                "'s Signature is invalid!"@
            },
        ],
        None => keys + seq![owner + "'s Signature generation failed!"@],
    }
}

/// The greeting to `owner`.
pub fn greeting(owner: &str) -> (text: String)
    ensures
        text@ == greeting_text(owner@),
{
    let mut text = String::from_str("Hello, ");
    text.append(owner);
    text.append("!");
    text
}

/// One line of the report: the owner, what is shown, and its value.
fn report_line(owner: &str, label: &str, value: &str) -> (line: String)
    ensures
        line@ == owner@ + label@ + value@,
{
    let mut line = String::from_str(owner);
    line.append(label);
    line.append(value);
    line
}

/// Writes out a report, one line for each thing reported.
pub fn report_lines(owner: &str, info: &KeyInfo) -> (lines: Vec<String>)
    ensures
        lines@.len() == report_text(owner@, *info).len(),
        forall|i: int| 0 <= i < lines@.len() ==> lines@[i]@ == report_text(owner@, *info)[i],
{
    let mut lines: Vec<String> = Vec::new();
    lines.push(report_line(owner, "'s Signing Key: ", info.signing_key.as_str()));
    lines.push(report_line(owner, "'s Verifying Key: ", info.verifying_key.as_str()));
    match &info.signature {
        Some(text) => {
            lines.push(report_line(owner, "'s Signature: ", text.as_str()));
            if info.signature_valid {
                lines.push(report_line(owner, "'s Signature is valid!", ""));
            } else {
                lines.push(report_line(owner, "'s Signature is invalid!", ""));
            }
        },
        None => {
            lines.push(report_line(owner, "'s Signature generation failed!", ""));
        },
    }
    proof {
        reveal_strlit("");
        assert forall|prefix: Seq<char>| prefix + ""@ == prefix by {
            assert(prefix + ""@ =~= prefix);
        }
    }
    lines
}

/// Reports on `signing_key`: both keys in Base58, and a signature over the
/// greeting to `owner`, checked under the derived public key. A signature
/// that was made always verifies.
pub fn key_info(owner: &str, signing_key: &SigningKey) -> (info: KeyInfo)
    ensures
        info.signing_key@ == base58_text(signing_key@),
        info.verifying_key@ == base58_text(public_key_of(signing_key@)),
        signature_of(signing_key@, encode_utf8(greeting_text(owner@))) matches Some(signature)
            ==> (info.signature matches Some(text) && text@ == base58_text(signature)),
        signature_of(signing_key@, encode_utf8(greeting_text(owner@))) is None
            ==> info.signature is None,
        info.signature_valid <==> info.signature is Some,
{
    let secret = signing_key.to_bytes();
    let verifying_key = derive_public_key(signing_key);
    let public = verifying_key.to_bytes();
    let message = greeting(owner);
    let (signature, signature_valid) = match sign_message(signing_key, message.as_str().as_bytes()) {
        Ok(signature) => {
            let valid = verify_signature(&verifying_key, message.as_str().as_bytes(), &signature);
            let bytes = signature.to_bytes();
            (Some(base58(bytes.as_slice())), valid)
        },
        Err(_) => (None, false),
    };
    KeyInfo {
        signing_key: base58(secret.as_slice()),
        verifying_key: base58(public.as_slice()),
        signature,
        signature_valid,
    }
}

} // verus!
