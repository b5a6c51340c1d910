//! Hashes, Ed25519 and the sources of randomness and time.
//!
//! Each function here makes one call into `blake3`, `sha2`, `ed25519-dalek`,
//! `rand_core` or the system clock. Hash and signature results are named by
//! uninterpreted spec functions: they are functions of their inputs alone,
//! which is all the rest of the library relies on.

use vstd::prelude::*;

verus! {

/// The 32-byte BLAKE3 hash of `bytes`.
pub uninterp spec fn blake3_digest(bytes: Seq<u8>) -> Seq<u8>;

/// The 32-byte SHA-256 hash of `bytes`.
pub uninterp spec fn sha256_digest(bytes: Seq<u8>) -> Seq<u8>;

/// The Ed25519 public key (compressed point) derived from a 32-byte seed.
pub uninterp spec fn ed25519_public(seed: Seq<u8>) -> Seq<u8>;

/// The Ed25519 signature (RFC 8032, deterministic) of `msg` under the key
/// derived from `seed`.
pub uninterp spec fn ed25519_signature(seed: Seq<u8>, msg: Seq<u8>) -> Seq<u8>;

/// `sig` is a valid Ed25519 signature (RFC 8032) of `msg` under the public
/// key `public`: what `ed25519_dalek::VerifyingKey::verify` accepts.
pub uninterp spec fn ed25519_valid(public: Seq<u8>, msg: Seq<u8>, sig: Seq<u8>) -> bool;

/// `blake3::hash`, which gives what `Hasher::new().update(bytes).finalize()`
/// gives. The contract claims only that the result is `blake3_digest` of the
/// input.
#[verifier::external_body]
pub(crate) fn blake3_32(bytes: &[u8]) -> (res: [u8; 32])
    ensures
        res@ == blake3_digest(bytes@),
{
    *blake3::hash(bytes).as_bytes()
}

/// `<sha2::Sha256 as Digest>::digest`; the contract claims only that the
/// result is `sha256_digest` of the input.
#[verifier::external_body]
pub(crate) fn sha256_32(bytes: &[u8]) -> (res: [u8; 32])
    ensures
        res@ == sha256_digest(bytes@),
{
    <sha2::Sha256 as sha2::Digest>::digest(bytes).into()
}

/// `ed25519_dalek::SigningKey::from_bytes(seed).verifying_key().to_bytes()`;
/// the contract claims only that the result is `ed25519_public` of the seed.
#[verifier::external_body]
pub(crate) fn ed25519_public_key(seed: &[u8; 32]) -> (res: [u8; 32])
    ensures
        res@ == ed25519_public(seed@),
{
    ed25519_dalek::SigningKey::from_bytes(seed).verifying_key().to_bytes()
}

/// `Signer::sign` of `ed25519_dalek::SigningKey::from_bytes(seed)` on `msg`,
/// as 64 bytes. Ed25519 signing is deterministic, so the contract claims the
/// result is `ed25519_signature` of the seed and message, 64 bytes long, and
/// that it verifies under the key's public key (`SigningKey::sign` signs
/// with that key pair; its `verifying_key` is `ed25519_public` of the seed).
#[verifier::external_body]
pub(crate) fn ed25519_sign(seed: &[u8; 32], msg: &[u8]) -> (res: [u8; 64])
    ensures
        res@ == ed25519_signature(seed@, msg@),
        res@.len() == 64,
        ed25519_valid(ed25519_public(seed@), msg@, res@),
{
    let key = ed25519_dalek::SigningKey::from_bytes(seed);
    ed25519_dalek::Signer::sign(&key, msg).to_bytes()
}

/// `ed25519_dalek::SigningKey::generate(&mut OsRng)`, as its 32-byte seed.
/// The result comes from the operating system's random source; nothing is
/// promised of it beyond its type.
#[verifier::external_body]
pub(crate) fn generate_seed() -> (res: [u8; 32]) {
    ed25519_dalek::SigningKey::generate(&mut rand_core::OsRng).to_bytes()
}

/// `rand_core::RngCore::fill_bytes` on `OsRng` for 16 bytes. Random: nothing
/// is promised of the result beyond its type.
#[verifier::external_body]
pub(crate) fn random_16() -> (res: [u8; 16]) {
    let mut bytes = [0u8; 16];
    rand_core::RngCore::fill_bytes(&mut rand_core::OsRng, &mut bytes);
    bytes
}

/// Whole seconds since the Unix epoch by `std::time::SystemTime::now()`;
/// `None` where the clock reads before the epoch (`duration_since` fails).
/// The reading depends on the machine: nothing is promised of it.
#[verifier::external_body]
pub(crate) fn unix_seconds_now() -> (res: Option<u64>) {
    match std::time::SystemTime::now().duration_since(std::time::UNIX_EPOCH) {
        Ok(d) => Some(d.as_secs()),
        Err(_) => None,
    }
}

} // verus!
