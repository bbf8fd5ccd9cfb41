//! The scheme registry: one verification routine per scheme, behind one
//! dispatch that is total over the closed set of schemes.

use crate::bytes::copy_range;
use crate::crypto::{
    ecdsa_key_valid, ecdsa_recover, ecdsa_verifies, ed25519_key_valid, ed25519_verifies,
    schnorr_key_valid, schnorr_verifies, spec_ecdsa_key_valid, spec_ecdsa_recover,
    spec_ecdsa_verifies, spec_ed25519_key_valid, spec_ed25519_verifies, spec_schnorr_key_valid,
    spec_schnorr_verifies,
};
use crate::scheme::Scheme;
use vstd::prelude::*;
use vstd::slice::slice_subrange;

verus! {

/// Largest recovery identifier that a recoverable signature may end with.
pub const MAX_RECOVERY_ID: u8 = 3;

/// Why a scheme's routine did not produce an identity.
#[derive(Clone, Copy, Debug, PartialEq, Eq, Structural)]
pub enum VerifyError {
    /// The signature has the wrong length or does not verify.
    InvalidSignature,
    /// The public key is absent, has the wrong length or is not a point of
    /// the curve.
    MalformedKey,
    /// No public key could be recovered from the signature.
    RecoveryFailed,
}

/// The key that a signature was verified against.
#[derive(Clone, Debug)]
pub struct RecoveredIdentity {
    /// The encoded public key.
    pub public_key: Vec<u8>,
    /// Whether the key was recovered from the signature (`true`) or supplied
    /// next to it (`false`).
    pub recovered: bool,
}

/// A [`RecoveredIdentity`] in specifications.
pub ghost struct IdentityView {
    pub public_key: Seq<u8>,
    pub recovered: bool,
}

impl View for RecoveredIdentity {
    type V = IdentityView;

    open spec fn view(&self) -> IdentityView {
        IdentityView { public_key: self.public_key@, recovered: self.recovered }
    }
}

/// Whether a key of the right length is a valid key under an explicit-key
/// scheme. No key is consumed under a recoverable scheme.
pub open spec fn spec_key_valid(scheme: Scheme, public_key: Seq<u8>) -> bool {
    match scheme {
        Scheme::Ed25519 => spec_ed25519_key_valid(public_key),
        Scheme::Ecdsa => spec_ecdsa_key_valid(public_key),
        Scheme::EcdsaRecoverable => false,
        Scheme::Schnorr => spec_schnorr_key_valid(public_key),
    }
}

/// Whether a signature of the right length verifies against a valid key
/// under an explicit-key scheme.
pub open spec fn spec_signature_verifies(
    scheme: Scheme,
    public_key: Seq<u8>,
    message: Seq<u8>,
    signature: Seq<u8>,
) -> bool {
    match scheme {
        Scheme::Ed25519 => spec_ed25519_verifies(public_key, message, signature),
        Scheme::Ecdsa => spec_ecdsa_verifies(public_key, message, signature),
        Scheme::EcdsaRecoverable => false,
        Scheme::Schnorr => spec_schnorr_verifies(public_key, message, signature),
    }
}

/// What the checks of an explicit-key scheme amount to: the supplied key,
/// unless the key is not valid or the signature does not verify.
pub open spec fn spec_identity_from_checks(
    public_key: Seq<u8>,
    key_valid: bool,
    signature_valid: bool,
) -> Result<IdentityView, VerifyError> {
    if !key_valid {
        Err(VerifyError::MalformedKey)
    } else if !signature_valid {
        Err(VerifyError::InvalidSignature)
    } else {
        Ok(IdentityView { public_key, recovered: false })
    }
}

/// What a key recovery amounts to: the recovered key, or a failed recovery.
pub open spec fn spec_identity_from_recovery(recovered: Option<Seq<u8>>) -> Result<
    IdentityView,
    VerifyError,
> {
    match recovered {
        Some(public_key) => Ok(IdentityView { public_key, recovered: true }),
        None => Err(VerifyError::RecoveryFailed),
    }
}

/// The routine of an explicit-key scheme.
pub open spec fn spec_verify_explicit(
    scheme: Scheme,
    message: Seq<u8>,
    signature: Seq<u8>,
    public_key: Option<Seq<u8>>,
) -> Result<IdentityView, VerifyError> {
    match public_key {
        None => Err(VerifyError::MalformedKey),
        Some(key) => if key.len() != scheme.spec_public_key_len() {
            Err(VerifyError::MalformedKey)
        } else if signature.len() != scheme.spec_signature_len() {
            Err(VerifyError::InvalidSignature)
        } else {
            spec_identity_from_checks(
                key,
                spec_key_valid(scheme, key),
                spec_key_valid(scheme, key) && spec_signature_verifies(
                    scheme,
                    key,
                    message,
                    signature,
                ),
            )
        },
    }
}

/// The routine of the recoverable scheme: the signature is 64 bytes of `r`
/// and `s` followed by one byte of recovery identifier.
pub open spec fn spec_verify_recoverable(message: Seq<u8>, signature: Seq<u8>) -> Result<
    IdentityView,
    VerifyError,
> {
    if signature.len() != Scheme::EcdsaRecoverable.spec_signature_len() {
        Err(VerifyError::InvalidSignature)
    } else if signature[64] > MAX_RECOVERY_ID {
        Err(VerifyError::RecoveryFailed)
    } else {
        spec_identity_from_recovery(
            spec_ecdsa_recover(message, signature.subrange(0, 64), signature[64]),
        )
    }
}

/// What the registry answers for a scheme, a message, a signature and the
/// public key that came with it, if one did.
pub open spec fn spec_verify(
    scheme: Scheme,
    message: Seq<u8>,
    signature: Seq<u8>,
    public_key: Option<Seq<u8>>,
) -> Result<IdentityView, VerifyError> {
    if scheme.spec_is_recoverable() {
        spec_verify_recoverable(message, signature)
    } else {
        spec_verify_explicit(scheme, message, signature, public_key)
    }
}

/// Whether an exec result is the given result of a specification.
pub open spec fn identity_result_is(
    got: Result<RecoveredIdentity, VerifyError>,
    expected: Result<IdentityView, VerifyError>,
) -> bool {
    match got {
        Ok(identity) => expected == Ok::<IdentityView, VerifyError>(identity@),
        Err(e) => expected == Err::<IdentityView, VerifyError>(e),
    }
}

/// Turns the two checks of an explicit-key scheme into the registry's
/// answer: a key that is not valid is reported before a signature that does
/// not verify.
pub fn identity_from_checks(public_key: Vec<u8>, key_valid: bool, signature_valid: bool) -> (out:
    Result<RecoveredIdentity, VerifyError>)
    ensures
        identity_result_is(
            out,
            spec_identity_from_checks(public_key@, key_valid, signature_valid),
        ),
{
    if !key_valid {
        Err(VerifyError::MalformedKey)
    } else if !signature_valid {
        Err(VerifyError::InvalidSignature)
    } else {
        Ok(RecoveredIdentity { public_key, recovered: false })
    }
}

/// Turns the outcome of a key recovery into the registry's answer.
pub fn identity_from_recovery(recovered: Option<Vec<u8>>) -> (out: Result<
    RecoveredIdentity,
    VerifyError,
>)
    ensures
        identity_result_is(
            out,
            spec_identity_from_recovery(
                match recovered {
                    Some(key) => Some(key@),
                    None => None,
                },
            ),
        ),
{
    match recovered {
        Some(public_key) => Ok(RecoveredIdentity { public_key, recovered: true }),
        None => Err(VerifyError::RecoveryFailed),
    }
}

/// Whether `public_key`, of the length the scheme fixes, is a valid key.
fn key_valid(scheme: Scheme, public_key: &[u8]) -> (valid: bool)
    requires
        !scheme.spec_is_recoverable(),
        public_key@.len() == scheme.spec_public_key_len(),
    ensures
        valid == spec_key_valid(scheme, public_key@),
{
    match scheme {
        Scheme::Ed25519 => ed25519_key_valid(public_key),
        Scheme::Ecdsa => ecdsa_key_valid(public_key),
        Scheme::EcdsaRecoverable => false,
        Scheme::Schnorr => schnorr_key_valid(public_key),
    }
}

/// Whether `signature` verifies against `public_key` over `message`, both of
/// the lengths the scheme fixes.
fn signature_verifies(scheme: Scheme, public_key: &[u8], message: &[u8], signature: &[u8]) -> (valid:
    bool)
    requires
        !scheme.spec_is_recoverable(),
        public_key@.len() == scheme.spec_public_key_len(),
        signature@.len() == scheme.spec_signature_len(),
    ensures
        valid == spec_signature_verifies(scheme, public_key@, message@, signature@),
{
    match scheme {
        Scheme::Ed25519 => ed25519_verifies(public_key, message, signature),
        Scheme::Ecdsa => ecdsa_verifies(public_key, message, signature),
        Scheme::EcdsaRecoverable => false,
        Scheme::Schnorr => schnorr_verifies(public_key, message, signature),
    }
}

/// The view of an optional byte string.
pub open spec fn optional_bytes(bytes: Option<&[u8]>) -> Option<Seq<u8>> {
    match bytes {
        Some(b) => Some(b@),
        None => None,
    }
}

/// Verifies `signature` over `message` under `scheme` and names the key it
/// was verified against.
///
/// Under an explicit-key scheme the key is `public_key`: an absent key, one
/// of the wrong length or one that is no curve point gives `MalformedKey`,
/// and after that a signature of the wrong length or one that does not
/// verify gives `InvalidSignature`. Under the recoverable scheme
/// `public_key` is not read: a signature of the wrong length gives
/// `InvalidSignature`, a recovery identifier above 3 or a recovery that
/// yields no key gives `RecoveryFailed`, and otherwise the recovered key is
/// returned. Lengths are checked before any cryptographic call.
pub fn verify(scheme: Scheme, message: &[u8], signature: &[u8], public_key: Option<&[u8]>) -> (out:
    Result<RecoveredIdentity, VerifyError>)
    ensures
        identity_result_is(
            out,
            spec_verify(scheme, message@, signature@, optional_bytes(public_key)),
        ),
{
    if scheme.is_recoverable() {
        if signature.len() != scheme.signature_len() {
            return Err(VerifyError::InvalidSignature);
        }
        let recovery_id: u8 = signature[64];
        if recovery_id > MAX_RECOVERY_ID {
            return Err(VerifyError::RecoveryFailed);
        }
        let recovered = ecdsa_recover(message, slice_subrange(signature, 0, 64), recovery_id);
        identity_from_recovery(recovered)
    } else {
        match public_key {
            None => Err(VerifyError::MalformedKey),
            Some(key) => {
                if key.len() != scheme.public_key_len() {
                    return Err(VerifyError::MalformedKey);
                }
                if signature.len() != scheme.signature_len() {
                    return Err(VerifyError::InvalidSignature);
                }
                let valid_key = key_valid(scheme, key);
                let valid_signature = valid_key && signature_verifies(
                    scheme,
                    key,
                    message,
                    signature,
                );
                let supplied = copy_range(key, 0, key.len());
                assert(supplied@ =~= key@);
                identity_from_checks(supplied, valid_key, valid_signature)
            },
        }
    }
}

} // verus!
