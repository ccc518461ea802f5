//! Ed25519 key decoding and signature verification.
//!
//! The cryptography itself is ed25519-dalek's; the library states its
//! outcomes as functions of the key, message and signature bytes.

use vstd::prelude::*;
use ed25519_dalek::Verifier;

verus! {

/// Whether 32 bytes decode to a valid Ed25519 verifying key. The outcome
/// depends on the bytes alone.
pub uninterp spec fn ed25519_key_valid(key: Seq<u8>) -> bool;

/// Whether a signature verifies over a message under a key. The outcome
/// depends on the three byte sequences alone.
pub uninterp spec fn ed25519_verifies(key: Seq<u8>, message: Seq<u8>, signature: Seq<u8>) -> bool;

/// Relies on `ed25519_dalek::VerifyingKey::from_bytes`, which succeeds
/// exactly when the bytes decompress to a curve point; whether they do is
/// a deterministic function of the bytes, named `ed25519_key_valid`.
#[verifier::external_body]
pub(crate) fn decode_public_key(key: &Vec<u8>) -> (r: Result<(), String>)
    requires
        key@.len() == 32,
    ensures
        r is Ok <==> ed25519_key_valid(key@),
{
    let mut bytes = [0u8; 32];
    bytes.copy_from_slice(key.as_slice());
    match ed25519_dalek::VerifyingKey::from_bytes(&bytes) {
        Ok(_) => Ok(()),
        Err(e) => Err(e.to_string()),
    }
}

/// Relies on `ed25519_dalek::VerifyingKey::verify`, whose outcome is a
/// deterministic function of the key, message and signature bytes, named
/// `ed25519_verifies`; the `requires` keeps the key to bytes on which
/// `VerifyingKey::from_bytes` succeeds, so rebuilding the key here is a
/// lossless conversion of the argument.
#[verifier::external_body]
pub(crate) fn verify_signature(key: &Vec<u8>, message: &Vec<u8>, signature: &Vec<u8>) -> (r:
    Result<(), String>)
    requires
        key@.len() == 32,
        signature@.len() == 64,
        ed25519_key_valid(key@),
    ensures
        r is Ok <==> ed25519_verifies(key@, message@, signature@),
{
    let mut key_bytes = [0u8; 32];
    key_bytes.copy_from_slice(key.as_slice());
    let mut sig_bytes = [0u8; 64];
    sig_bytes.copy_from_slice(signature.as_slice());
    let sig = ed25519_dalek::Signature::from_bytes(&sig_bytes);
    match ed25519_dalek::VerifyingKey::from_bytes(&key_bytes) {
        Ok(k) => k.verify(message.as_slice(), &sig).map_err(|e| e.to_string()),
        Err(e) => Err(e.to_string()),
    }
}

} // verus!
