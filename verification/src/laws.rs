//! What holds of every validation, stated over the specifications that the
//! validator's contracts use.

use crate::address::spec_derive_address;
use crate::codec::{
    lemma_decode_inverts_encode, spec_canonical_message, spec_encode, AuthenticatorInfo,
    AuthenticatorView,
};
use crate::crypto::spec_ecdsa_recover;
use crate::registry::{VerifyError, MAX_RECOVERY_ID};
use crate::scheme::Scheme;
use crate::state::{spec_current_sequence_number, AccountPolicy, LookupError};
use crate::validator::{
    spec_signer_address, spec_validate, spec_validate_encoded, ContextView, ValidationContext,
    ValidationError, ValidationOutcome, Validator,
};
use vstd::prelude::*;

verus! {

/// A transaction is accepted exactly when its authenticator is well formed,
/// the signature verifies for a key that has the sender's address, and the
/// transaction carries the sequence number that the account expects.
pub proof fn lemma_accepted_exactly_when_all_checks_pass(
    policy: AccountPolicy,
    ctx: ContextView,
    auth: AuthenticatorView,
)
    ensures
        spec_validate(policy, ctx, auth) is Ok <==> {
            &&& auth.well_formed()
            &&& spec_signer_address(ctx.transaction, auth) == Ok::<Seq<u8>, VerifyError>(
                ctx.transaction.sender@,
            )
            &&& spec_current_sequence_number(ctx.accounts, ctx.transaction.sender@, policy)
                == Ok::<u64, LookupError>(ctx.transaction.sequence_number)
        },
{
}

/// The outcome tells how far the validation came, and every stage before
/// the last one passed: a validation goes beyond `Start` exactly when the
/// authenticator is well formed, beyond `Decoded` exactly when the signature
/// also verifies, beyond `SchemeVerified` exactly when the verified key also
/// has the sender's address, and reaches `SequenceChecked` exactly when it
/// is accepted. So a rejection that discloses sequence numbers is only ever
/// given for a transaction that its sender signed.
pub proof fn lemma_outcome_tells_the_stage(
    policy: AccountPolicy,
    ctx: ContextView,
    auth: AuthenticatorView,
)
    ensures
        ({
            let outcome = ValidationOutcome::spec_of(spec_validate(policy, ctx, auth));
            let rank = outcome.spec_last_stage().spec_rank();
            let signer = spec_signer_address(ctx.transaction, auth);
            &&& rank >= 1 <==> auth.well_formed()
            &&& rank >= 2 <==> auth.well_formed() && signer is Ok
            &&& rank >= 3 <==> auth.well_formed() && signer == Ok::<Seq<u8>, VerifyError>(
                ctx.transaction.sender@,
            )
            &&& rank == 4 <==> outcome == ValidationOutcome::Accepted
        }),
{
}

/// Whatever made the verification of a well-formed authenticator fail, a
/// key that is no key, a signature that does not verify or a recovery that
/// yields nothing, the rejection is `InvalidSignature` and nothing else.
pub proof fn lemma_failed_verification_is_invalid_signature(
    policy: AccountPolicy,
    ctx: ContextView,
    auth: AuthenticatorView,
)
    requires
        auth.well_formed(),
        spec_signer_address(ctx.transaction, auth) is Err,
    ensures
        spec_validate(policy, ctx, auth) == Err::<(), ValidationError>(ValidationError::InvalidSignature),
{
}

/// A signature that verifies for a key whose address is not the declared
/// sender is rejected with `SenderMismatch`, whatever the account state.
pub proof fn lemma_foreign_key_is_sender_mismatch(
    policy: AccountPolicy,
    ctx: ContextView,
    auth: AuthenticatorView,
    signer: Seq<u8>,
)
    requires
        auth.well_formed(),
        spec_signer_address(ctx.transaction, auth) == Ok::<Seq<u8>, VerifyError>(signer),
        signer != ctx.transaction.sender@,
    ensures
        spec_validate(policy, ctx, auth) == Err::<(), ValidationError>(ValidationError::SenderMismatch),
{
}

/// A transaction of the right signer whose sequence number is not the one
/// that the account expects, one less as in a replay or one more as across a
/// gap or any other, is rejected with both numbers.
pub proof fn lemma_other_sequence_number_is_mismatch(
    policy: AccountPolicy,
    ctx: ContextView,
    auth: AuthenticatorView,
    expected: u64,
)
    requires
        auth.well_formed(),
        spec_signer_address(ctx.transaction, auth) == Ok::<Seq<u8>, VerifyError>(ctx.transaction.sender@),
        spec_current_sequence_number(ctx.accounts, ctx.transaction.sender@, policy) == Ok::<u64, LookupError>(expected),
        expected != ctx.transaction.sequence_number,
    ensures
        spec_validate(policy, ctx, auth) == Err::<(), ValidationError>(
            ValidationError::SequenceNumberMismatch {
                expected,
                got: ctx.transaction.sequence_number,
            },
        ),
{
}

/// Once the state records the next sequence number for the sender of an
/// accepted transaction, the same transaction with the same authenticator is
/// rejected as a replay.
pub proof fn lemma_replay_is_rejected(
    policy: AccountPolicy,
    ctx: ContextView,
    auth: AuthenticatorView,
)
    requires
        spec_validate(policy, ctx, auth) is Ok,
        ctx.transaction.sequence_number < u64::MAX,
    ensures
        spec_validate(
            policy,
            ContextView {
                transaction: ctx.transaction,
                accounts: ctx.accounts.insert(
                    ctx.transaction.sender@,
                    (ctx.transaction.sequence_number + 1) as u64,
                ),
            },
            auth,
        ) == Err::<(), ValidationError>(
            ValidationError::SequenceNumberMismatch {
                expected: (ctx.transaction.sequence_number + 1) as u64,
                got: ctx.transaction.sequence_number,
            },
        ),
{
}

/// The outcome depends on nothing but the policy, what the context holds and
/// what the authenticator holds: two validations that agree on these agree
/// on the outcome.
pub proof fn lemma_validation_is_deterministic(
    first: Validator,
    second: Validator,
    first_ctx: ValidationContext,
    second_ctx: ValidationContext,
    first_auth: AuthenticatorInfo,
    second_auth: AuthenticatorInfo,
)
    requires
        first.spec_policy() == second.spec_policy(),
        first_ctx@ == second_ctx@,
        first_auth@ == second_auth@,
    ensures
        spec_validate(first.spec_policy(), first_ctx@, first_auth@) == spec_validate(
            second.spec_policy(),
            second_ctx@,
            second_auth@,
        ),
{
}

/// Whether two schemes fix the same signature and public-key lengths.
pub open spec fn same_widths(a: Scheme, b: Scheme) -> bool {
    &&& a.spec_signature_len() == b.spec_signature_len()
    &&& a.spec_public_key_len() == b.spec_public_key_len()
    &&& a.spec_is_recoverable() == b.spec_is_recoverable()
}

/// A well-formed authenticator that is tagged with another scheme of
/// different lengths is rejected as malformed. Only Ed25519 and Schnorr fix
/// the same lengths.
pub proof fn lemma_retagged_with_other_widths_is_malformed(
    policy: AccountPolicy,
    ctx: ContextView,
    auth: AuthenticatorView,
    other: Scheme,
)
    requires
        auth.well_formed(),
        other != auth.scheme,
    ensures
        same_widths(auth.scheme, other) <==> (auth.scheme == Scheme::Ed25519 && other
            == Scheme::Schnorr) || (auth.scheme == Scheme::Schnorr && other == Scheme::Ed25519),
        !same_widths(auth.scheme, other) ==> spec_validate(
            policy,
            ctx,
            AuthenticatorView {
                scheme: other,
                signature: auth.signature,
                public_key: auth.public_key,
            },
        ) == Err::<(), ValidationError>(ValidationError::MalformedAuthenticator),
{
}

/// Under the recoverable scheme the signer's address comes from the
/// signature and the message alone, and it is the address that the recovered
/// key has when it is supplied explicitly under plain ECDSA.
pub proof fn lemma_recovered_signer_has_explicit_address(
    ctx: ContextView,
    auth: AuthenticatorView,
    key: Seq<u8>,
)
    requires
        auth.scheme == Scheme::EcdsaRecoverable,
        auth.well_formed(),
        auth.signature[64] <= MAX_RECOVERY_ID,
        spec_ecdsa_recover(
            spec_canonical_message(ctx.transaction),
            auth.signature.subrange(0, 64),
            auth.signature[64],
        ) == Some(key),
    ensures
        auth.public_key is None,
        spec_signer_address(ctx.transaction, auth) == Ok::<Seq<u8>, VerifyError>(
            spec_derive_address(Scheme::Ecdsa, key),
        ),
{
}

/// Validating the wire form of a well-formed authenticator is validating the
/// authenticator.
pub proof fn lemma_encoded_validation_agrees(
    policy: AccountPolicy,
    ctx: ContextView,
    auth: AuthenticatorView,
)
    requires
        auth.well_formed(),
    ensures
        spec_validate_encoded(policy, ctx, spec_encode(auth)) == spec_validate(policy, ctx, auth),
{
    lemma_decode_inverts_encode(auth);
}

} // verus!
