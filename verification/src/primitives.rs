//! The cryptographic primitives, which this library calls and does not prove.
//!
//! Each primitive is a function of its arguments alone, so its result has a
//! name that contracts can speak of. Nothing here says what a primitive
//! computes: the functions below tie each call to its name, and state the
//! one law that the rest of the library builds on, that Ed25519 accepts
//! what it has signed. The random source has no name: what it gives is
//! different every time.

use ed25519_dalek::Signer;
use ed25519_dalek::Verifier;
use rand::RngCore;
use vstd::prelude::*;

verus! {

/// Stands for `ed25519_dalek::SignatureError`, which says why a key or a
/// signature was not accepted.
#[verifier::external_type_specification]
#[verifier::external_body]
pub struct ExSignatureError(ed25519_dalek::SignatureError);

/// Stands for `rand::Error`, with which a random source reports that it
/// could not deliver.
#[verifier::external_type_specification]
#[verifier::external_body]
pub struct ExRandError(rand::Error);

/// The keyed BLAKE3 hash of `content` under `key`.
pub uninterp spec fn blake3_keyed_hash(key: Seq<u8>, content: Seq<u8>) -> [u8; 32];

/// The Ed25519 public key that belongs to the private seed `seed`.
pub uninterp spec fn ed25519_public_key(seed: Seq<u8>) -> [u8; 32];

/// The Ed25519 signature of `content` under the private seed `seed`.
pub uninterp spec fn ed25519_signature(seed: Seq<u8>, content: Seq<u8>) -> [u8; 64];

/// What Ed25519 verification says of `signature` over `content` under the
/// public key `public`: `None` where `public` is no point of the curve.
pub uninterp spec fn ed25519_verdict(public: Seq<u8>, content: Seq<u8>, signature: Seq<u8>) -> Option<bool>;

/// Whether `signature` is what signing `content` gives under some private
/// seed whose public key is `public`.
pub open spec fn ed25519_signed(public: Seq<u8>, content: Seq<u8>, signature: Seq<u8>) -> bool {
    exists|seed: Seq<u8>|
        seed.len() == 32 && public == (#[trigger] ed25519_public_key(seed))@ && signature
            == ed25519_signature(seed, content)@
}

/// Calls `blake3::keyed_hash`. The contract claims only that the 32 bytes
/// returned are a function of the key and the content.
#[verifier::external_body]
pub(crate) fn keyed_hash(key: &[u8; 32], content: &[u8]) -> (mac: [u8; 32])
    ensures
        mac == blake3_keyed_hash(key@, content@),
{
    *blake3::keyed_hash(key, content).as_bytes()
}

/// Calls `ed25519_dalek::SigningKey::verifying_key` on the signing key made
/// from `seed`. The contract claims only that the public key is a function
/// of the seed.
#[verifier::external_body]
pub(crate) fn ed25519_public(seed: &[u8; 32]) -> (public: [u8; 32])
    ensures
        public == ed25519_public_key(seed@),
{
    ed25519_dalek::SigningKey::from_bytes(seed).verifying_key().to_bytes()
}

/// Calls `ed25519_dalek::Signer::sign` on the signing key made from `seed`.
/// The contract claims only that the signature is a function of the seed
/// and the content: Ed25519 draws no randomness when it signs.
#[verifier::external_body]
pub(crate) fn ed25519_sign(seed: &[u8; 32], content: &[u8]) -> (signature: [u8; 64])
    ensures
        signature == ed25519_signature(seed@, content@),
{
    ed25519_dalek::SigningKey::from_bytes(seed).sign(content).to_bytes()
}

/// Calls `ed25519_dalek::Verifier::verify` on the verifying key decoded by
/// `ed25519_dalek::VerifyingKey::from_bytes`. The error is that of the
/// decoding; a signature that does not verify is `Ok(false)`.
///
/// The contract claims that the outcome is a function of the three byte
/// strings, and that a signature which `ed25519_sign` made under a seed is
/// accepted under the public key which `ed25519_public` derives from that
/// seed.
#[verifier::external_body]
pub(crate) fn ed25519_verify(
    public: &[u8; 32],
    content: &[u8],
    signature: &[u8; 64],
) -> (r: Result<bool, ed25519_dalek::SignatureError>)
    ensures
        r matches Ok(accepted) ==> ed25519_verdict(public@, content@, signature@) == Some(accepted),
        r is Err ==> ed25519_verdict(public@, content@, signature@) is None,
        ed25519_signed(public@, content@, signature@) ==> r is Ok && r->Ok_0,
{
    let key = ed25519_dalek::VerifyingKey::from_bytes(public)?;
    Ok(key.verify(content, &ed25519_dalek::Signature::from_bytes(signature)).is_ok())
}

/// Calls `rand::RngCore::try_fill_bytes` on `rand::rngs::OsRng`: 32 bytes
/// from the operating system's random source, or its error. Nothing is
/// claimed of the bytes.
#[verifier::external_body]
pub(crate) fn os_random_seed() -> (r: Result<[u8; 32], rand::Error>) {
    let mut seed = [0u8; 32];
    rand::rngs::OsRng.try_fill_bytes(&mut seed)?;
    Ok(seed)
}

} // verus!
