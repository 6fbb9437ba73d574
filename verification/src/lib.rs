//! ECDSA over NIST P-256 bound to a minimal transaction record.
//!
//! A transaction is turned into one canonical byte string, that byte string
//! is signed with a private key, and a verifier recomputes the bytes from the
//! record it received and checks the signature against the public key.

pub mod binder;
pub mod codec;
pub mod ecdsa;
pub mod entropy;
pub mod error;
pub mod identifier;
pub mod report;
