//! Ed25519 signatures, as the `ed25519-dalek` crate computes them, on keys
//! and signatures held as plain bytes.

use ed25519_dalek::{Signer, Verifier};
use vstd::prelude::*;

verus! {

/// Whether `ed25519_dalek::VerifyingKey::from_bytes` takes the 32 bytes
/// `key` for a verification key.
pub uninterp spec fn ed25519_key_ok(key: Seq<u8>) -> bool;

/// The 64-byte signature that the signing key made of the 32-byte `seed`
/// gives to `message`.
pub uninterp spec fn ed25519_signature(seed: Seq<u8>, message: Seq<u8>) -> Seq<u8>;

/// Whether the 32 bytes `key` are a verification key under which
/// `signature` is a valid signature of `message`.
pub uninterp spec fn ed25519_accepts(key: Seq<u8>, message: Seq<u8>, signature: Seq<u8>) -> bool;

/// The 32 bytes of the verification key that belongs to the signing key
/// made of the 32-byte `seed`.
pub uninterp spec fn ed25519_public_key(seed: Seq<u8>) -> Seq<u8>;

/// Calls `VerifyingKey::from_bytes` of `ed25519-dalek` and says whether it
/// succeeded. The contract names that answer.
#[verifier::external_body]
pub(crate) fn is_verifying_key(key: &[u8; 32]) -> (ok: bool)
    ensures
        ok == ed25519_key_ok(key@),
{
    ed25519_dalek::VerifyingKey::from_bytes(key).is_ok()
}

/// Calls `SigningKey::verifying_key` of `ed25519-dalek` on the signing key
/// that `SigningKey::from_bytes` makes of `seed`, and gives the key's
/// bytes. The contract names them.
#[verifier::external_body]
pub(crate) fn public_key(seed: &[u8; 32]) -> (key: [u8; 32])
    ensures
        key@ == ed25519_public_key(seed@),
{
    ed25519_dalek::SigningKey::from_bytes(seed).verifying_key().to_bytes()
}

/// Calls `Signer::sign` of `ed25519-dalek` on the signing key that
/// `SigningKey::from_bytes` makes of `seed`. Ed25519 signing is
/// deterministic; the contract names the signature, and claims what the
/// crate documents of a key pair: the verification key that belongs to
/// the signing key accepts the signature, also once it has gone through
/// its bytes.
#[verifier::external_body]
pub(crate) fn sign(seed: &[u8; 32], message: &[u8]) -> (signature: [u8; 64])
    ensures
        signature@ == ed25519_signature(seed@, message@),
        ed25519_accepts(ed25519_public_key(seed@), message@, signature@),
{
    ed25519_dalek::SigningKey::from_bytes(seed).sign(message).to_bytes()
}

/// Calls `Verifier::verify` of `ed25519-dalek` on the verification key
/// that `VerifyingKey::from_bytes` makes of `key`, and says whether the
/// signature was accepted; bytes that are no key accept nothing. The
/// contract names the answer.
#[verifier::external_body]
pub(crate) fn verify(key: &[u8; 32], message: &[u8], signature: &[u8; 64]) -> (ok: bool)
    ensures
        ok == ed25519_accepts(key@, message@, signature@),
{
    match ed25519_dalek::VerifyingKey::from_bytes(key) {
        Ok(k) => k.verify(message, &ed25519_dalek::Signature::from_bytes(signature)).is_ok(),
        Err(_) => false,
    }
}

} // verus!
