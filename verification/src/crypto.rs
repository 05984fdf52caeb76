//! Ed25519 as `identity_core` offers it, on plain byte strings.
//!
//! Nothing in this file is proved. Each function makes one call into
//! `identity_core::crypto` and states what that call is taken to return.
use identity_core::crypto::Ed25519;
use identity_core::crypto::KeyPair;
use identity_core::crypto::KeyType;
use identity_core::crypto::Sign;
use identity_core::crypto::Verify;
use vstd::prelude::*;

verus! {

/// The error type of `identity_core`, carried through unread.
#[verifier::external_type_specification]
#[verifier::external_body]
pub struct ExCoreError(identity_core::Error);

/// The public key that belongs to a 32-byte Ed25519 private key (seed), as
/// `KeyPair::new` derives it for the pair it hands out.
pub uninterp spec fn ed25519_public_key(private_key: Seq<u8>) -> Seq<u8>;

/// The signature that `Ed25519::sign` computes for a message under a 32-byte
/// private key. Ed25519 signing draws no randomness.
pub uninterp spec fn ed25519_signature(message: Seq<u8>, private_key: Seq<u8>) -> Seq<u8>;

/// Whether `Ed25519::verify` accepts a signature for a message under a
/// public key.
pub uninterp spec fn ed25519_accepts(message: Seq<u8>, signature: Seq<u8>, public_key: Seq<u8>) -> bool;

/// Length in bytes of an Ed25519 private key and of a public key.
pub const KEY_LENGTH: usize = 32;

/// Length in bytes of an Ed25519 signature.
pub const SIGNATURE_LENGTH: usize = 64;

/// Calls `KeyPair::new(KeyType::Ed25519)` and hands out the public and the
/// private key, in this order.
///
/// The keys are random, so nothing is said of their value. Claimed of every
/// pair that comes back: both keys have 32 bytes, and the public key is the
/// one that belongs to the private key.
#[verifier::external_body]
pub(crate) fn generate_keypair() -> (r: Result<(Vec<u8>, Vec<u8>), identity_core::Error>)
    ensures
        r is Ok ==> r->Ok_0.1@.len() == KEY_LENGTH,
        r is Ok ==> r->Ok_0.0@.len() == KEY_LENGTH,
        r is Ok ==> r->Ok_0.0@ == ed25519_public_key(r->Ok_0.1@),
{
    let pair = KeyPair::new(KeyType::Ed25519)?;
    Ok((pair.public().as_ref().to_vec(), pair.private().as_ref().to_vec()))
}

/// Calls `Ed25519::sign`.
///
/// Claimed: the call fails exactly when the private key does not have 32
/// bytes. Otherwise it returns the 64 bytes of the Ed25519 signature, and
/// that signature is accepted under the public key that belongs to the
/// private key.
#[verifier::external_body]
pub(crate) fn sign(message: &[u8], private_key: &[u8]) -> (r: Result<Vec<u8>, identity_core::Error>)
    ensures
        r is Ok <==> private_key@.len() == KEY_LENGTH,
        r is Ok ==> r->Ok_0@ == ed25519_signature(message@, private_key@),
        r is Ok ==> r->Ok_0@.len() == SIGNATURE_LENGTH,
        r is Ok ==> ed25519_accepts(message@, r->Ok_0@, ed25519_public_key(private_key@)),
{
    let signature = Ed25519::<[u8]>::sign(message, private_key)?;
    Ok(signature.to_vec())
}

/// Calls `Ed25519::verify`.
///
/// Claimed: the call returns `Ok` exactly when it accepts the signature.
/// Every refusal is an error: a key or a signature of the wrong length, a
/// key that is no point of the curve, a signature that does not fit.
#[verifier::external_body]
pub(crate) fn verify(message: &[u8], signature: &[u8], public_key: &[u8]) -> (r: Result<(), identity_core::Error>)
    ensures
        r is Ok <==> ed25519_accepts(message@, signature@, public_key@),
{
    Ed25519::<[u8]>::verify(message, signature, public_key)
}

} // verus!
