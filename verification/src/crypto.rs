//! The cryptographic primitives, which this library calls and does not prove.
//!
//! Each primitive is a pure function of the bytes it is given, so each has a
//! name in specifications. Nothing is known of a name but what the function
//! that makes the call states: that its result is the name applied to its
//! arguments.

use k256::ecdsa::signature::Verifier;
use sha2::Digest;
use vstd::prelude::*;

verus! {

/// The SHA-256 digest of `data`.
pub uninterp spec fn spec_sha256(data: Seq<u8>) -> Seq<u8>;

/// Whether `public_key` is the encoding of an Ed25519 public key.
pub uninterp spec fn spec_ed25519_key_valid(public_key: Seq<u8>) -> bool;

/// Whether `signature` is an Ed25519 signature by `public_key` over `message`.
pub uninterp spec fn spec_ed25519_verifies(
    public_key: Seq<u8>,
    message: Seq<u8>,
    signature: Seq<u8>,
) -> bool;

/// Whether `public_key` is the SEC1 encoding of a secp256k1 public key.
pub uninterp spec fn spec_ecdsa_key_valid(public_key: Seq<u8>) -> bool;

/// Whether `signature` is a low-S ECDSA signature by `public_key` over the
/// SHA-256 digest of `message`.
pub uninterp spec fn spec_ecdsa_verifies(
    public_key: Seq<u8>,
    message: Seq<u8>,
    signature: Seq<u8>,
) -> bool;

/// The SEC1-compressed public key that `signature` and `recovery_id` recover
/// over the SHA-256 digest of `message`, if they recover one.
pub uninterp spec fn spec_ecdsa_recover(
    message: Seq<u8>,
    signature: Seq<u8>,
    recovery_id: u8,
) -> Option<Seq<u8>>;

/// Whether `public_key` is the x-only encoding of a secp256k1 Schnorr key.
pub uninterp spec fn spec_schnorr_key_valid(public_key: Seq<u8>) -> bool;

/// Whether `signature` is a Schnorr signature by `public_key` over the SHA-256
/// digest of `message`.
pub uninterp spec fn spec_schnorr_verifies(
    public_key: Seq<u8>,
    message: Seq<u8>,
    signature: Seq<u8>,
) -> bool;

/// Calls `sha2::Sha256::digest`. Trusted: the 32 bytes returned are the
/// SHA-256 digest of `data`, a function of `data` alone.
#[verifier::external_body]
pub(crate) fn sha256(data: &[u8]) -> (digest: [u8; 32])
    ensures
        digest@ == spec_sha256(data@),
{
    sha2::Sha256::digest(data).into()
}

/// Calls `ed25519_dalek::VerifyingKey::try_from` on a byte slice. Trusted:
/// whether the bytes parse as a public key (32 bytes that decompress to a
/// curve point) is a function of the bytes alone.
#[verifier::external_body]
pub(crate) fn ed25519_key_valid(public_key: &[u8]) -> (valid: bool)
    ensures
        valid == spec_ed25519_key_valid(public_key@),
{
    ed25519_dalek::VerifyingKey::try_from(public_key).is_ok()
}

/// Calls `ed25519_dalek::VerifyingKey::verify_strict` on the parsed key and
/// signature. Trusted: the answer is a function of the three byte strings
/// alone, and is `false` where the key or the signature does not parse.
#[verifier::external_body]
pub(crate) fn ed25519_verifies(public_key: &[u8], message: &[u8], signature: &[u8]) -> (valid: bool)
    ensures
        valid == spec_ed25519_verifies(public_key@, message@, signature@),
{
    let key = ed25519_dalek::VerifyingKey::try_from(public_key);
    let sig = ed25519_dalek::Signature::from_slice(signature);
    match (key, sig) {
        (Ok(key), Ok(sig)) => key.verify_strict(message, &sig).is_ok(),
        _ => false,
    }
}

/// Calls `k256::ecdsa::VerifyingKey::from_sec1_bytes`. Trusted: whether the
/// bytes parse as a point of the curve other than the identity is a function
/// of the bytes alone.
#[verifier::external_body]
pub(crate) fn ecdsa_key_valid(public_key: &[u8]) -> (valid: bool)
    ensures
        valid == spec_ecdsa_key_valid(public_key@),
{
    k256::ecdsa::VerifyingKey::from_sec1_bytes(public_key).is_ok()
}

/// Calls `signature::Verifier::verify` of `k256::ecdsa::VerifyingKey` on the
/// parsed key and signature; that call hashes the message with SHA-256 and
/// refuses a signature whose `s` is in the upper half of the group order.
/// Trusted: the answer is a function of the three byte strings alone, and is
/// `false` where the key or the signature does not parse.
#[verifier::external_body]
pub(crate) fn ecdsa_verifies(public_key: &[u8], message: &[u8], signature: &[u8]) -> (valid: bool)
    ensures
        valid == spec_ecdsa_verifies(public_key@, message@, signature@),
{
    let key = k256::ecdsa::VerifyingKey::from_sec1_bytes(public_key);
    let sig = k256::ecdsa::Signature::from_slice(signature);
    match (key, sig) {
        (Ok(key), Ok(sig)) => key.verify(message, &sig).is_ok(),
        _ => false,
    }
}

/// Calls `k256::ecdsa::VerifyingKey::recover_from_msg` on the parsed
/// signature and recovery identifier, and encodes the key it recovers in SEC1
/// compressed form. Trusted: the outcome is a function of the arguments
/// alone; it is `None` where the signature or the identifier does not parse
/// or no key is recovered.
#[verifier::external_body]
pub(crate) fn ecdsa_recover(message: &[u8], signature: &[u8], recovery_id: u8) -> (key: Option<
    Vec<u8>,
>)
    ensures
        match key {
            Some(k) => spec_ecdsa_recover(message@, signature@, recovery_id) == Some(k@),
            None => spec_ecdsa_recover(message@, signature@, recovery_id) is None,
        },
{
    let sig = k256::ecdsa::Signature::from_slice(signature).ok()?;
    let id = k256::ecdsa::RecoveryId::from_byte(recovery_id)?;
    let key = k256::ecdsa::VerifyingKey::recover_from_msg(message, &sig, id).ok()?;
    Some(key.to_encoded_point(true).as_bytes().to_vec())
}

/// Calls `k256::schnorr::VerifyingKey::from_bytes`, which takes exactly 32
/// bytes. Trusted: whether they are the x coordinate of a curve point is a
/// function of the bytes alone.
#[verifier::external_body]
pub(crate) fn schnorr_key_valid(public_key: &[u8]) -> (valid: bool)
    requires
        public_key@.len() == 32,
    ensures
        valid == spec_schnorr_key_valid(public_key@),
{
    k256::schnorr::VerifyingKey::from_bytes(public_key).is_ok()
}

/// Calls `signature::Verifier::verify` of `k256::schnorr::VerifyingKey` on
/// the parsed key and signature; the parsers take exactly 32 and 64 bytes.
/// Trusted: the answer is a function of the three byte strings alone, and is
/// `false` where the key or the signature does not parse.
#[verifier::external_body]
pub(crate) fn schnorr_verifies(public_key: &[u8], message: &[u8], signature: &[u8]) -> (valid: bool)
    requires
        public_key@.len() == 32,
        signature@.len() == 64,
    ensures
        valid == spec_schnorr_verifies(public_key@, message@, signature@),
{
    let key = k256::schnorr::VerifyingKey::from_bytes(public_key);
    let sig = k256::schnorr::Signature::try_from(signature);
    match (key, sig) {
        (Ok(key), Ok(sig)) => key.verify(message, &sig).is_ok(),
        _ => false,
    }
}

} // verus!
