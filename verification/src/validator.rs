//! The authenticator validator: the decision whether a transaction is
//! admitted for execution.
//!
//! A validation passes through the stages `Start`, `Decoded`,
//! `SchemeVerified`, `AddressBound` and `SequenceChecked` in this order and
//! ends in `Accepted`, or leaves at the first stage that fails and ends in
//! `Rejected` with the reason of that stage. It reads its inputs and writes
//! nothing.

use crate::address::{spec_derive_address, Address};
use crate::codec::{
    canonical_message, decode, spec_canonical_message, spec_decode, AuthenticatorInfo,
    AuthenticatorView, CodecError, TransactionData,
};
use crate::registry::{spec_verify, verify, VerifyError};
use crate::state::{
    spec_current_sequence_number, AccountPolicy, LookupError, StateSnapshot,
};
use vstd::prelude::*;

verus! {

/// Why a transaction was rejected.
#[derive(Clone, Copy, Debug, PartialEq, Eq, Structural)]
pub enum ValidationError {
    /// The authenticator is structurally invalid: a length is not the one
    /// that its scheme fixes, or its tag is unknown to the wire format.
    MalformedAuthenticator,
    /// The tag is well formed, but no scheme is registered under it.
    UnsupportedScheme,
    /// The signature was not verified. Which check failed is not disclosed.
    InvalidSignature,
    /// The verified or recovered key does not belong to the declared sender.
    SenderMismatch,
    /// The transaction does not carry the sequence number that the account
    /// expects next.
    SequenceNumberMismatch { expected: u64, got: u64 },
    /// The sender has no account, and accounts must be registered.
    UnknownAccount,
}

/// The stages that a validation passes through, in order. A validation
/// that is rejected ends at the last stage that it reached.
#[derive(Clone, Copy, Debug, PartialEq, Eq, Structural)]
pub enum Stage {
    /// Nothing is known of the authenticator yet.
    Start,
    /// The authenticator has the structure that its scheme fixes.
    Decoded,
    /// The signature is verified under the scheme.
    SchemeVerified,
    /// The verified key has the sender's address.
    AddressBound,
    /// The sequence number is the expected one.
    SequenceChecked,
}

impl Stage {
    /// The position of the stage in the order of stages, from 0.
    pub open spec fn spec_rank(self) -> nat {
        match self {
            Stage::Start => 0,
            Stage::Decoded => 1,
            Stage::SchemeVerified => 2,
            Stage::AddressBound => 3,
            Stage::SequenceChecked => 4,
        }
    }

    /// The position of the stage in the order of stages, from 0.
    pub fn rank(self) -> (rank: u8)
        ensures
            rank == self.spec_rank(),
    {
        match self {
            Stage::Start => 0,
            Stage::Decoded => 1,
            Stage::SchemeVerified => 2,
            Stage::AddressBound => 3,
            Stage::SequenceChecked => 4,
        }
    }
}

impl ValidationError {
    /// The stage at which a validation that is rejected for this reason
    /// ends: the last one that it reached.
    pub open spec fn spec_stage(self) -> Stage {
        match self {
            ValidationError::MalformedAuthenticator => Stage::Start,
            ValidationError::UnsupportedScheme => Stage::Start,
            ValidationError::InvalidSignature => Stage::Decoded,
            ValidationError::SenderMismatch => Stage::SchemeVerified,
            ValidationError::SequenceNumberMismatch { .. } => Stage::AddressBound,
            ValidationError::UnknownAccount => Stage::AddressBound,
        }
    }

    /// The stage at which a validation that is rejected for this reason
    /// ends.
    pub fn stage(&self) -> (stage: Stage)
        ensures
            stage == self.spec_stage(),
    {
        match self {
            ValidationError::MalformedAuthenticator => Stage::Start,
            ValidationError::UnsupportedScheme => Stage::Start,
            ValidationError::InvalidSignature => Stage::Decoded,
            ValidationError::SenderMismatch => Stage::SchemeVerified,
            ValidationError::SequenceNumberMismatch { .. } => Stage::AddressBound,
            ValidationError::UnknownAccount => Stage::AddressBound,
        }
    }
}

/// The two ends of a validation.
#[derive(Clone, Copy, Debug, PartialEq, Eq, Structural)]
pub enum ValidationOutcome {
    Accepted,
    Rejected { reason: ValidationError },
}

impl ValidationOutcome {
    /// The outcome that a validation result stands for.
    pub open spec fn spec_of(result: Result<(), ValidationError>) -> ValidationOutcome {
        match result {
            Ok(_) => ValidationOutcome::Accepted,
            Err(reason) => ValidationOutcome::Rejected { reason },
        }
    }

    /// The outcome that a validation result stands for.
    pub fn of(result: Result<(), ValidationError>) -> (outcome: ValidationOutcome)
        ensures
            outcome == ValidationOutcome::spec_of(result),
    {
        match result {
            Ok(_) => ValidationOutcome::Accepted,
            Err(reason) => ValidationOutcome::Rejected { reason },
        }
    }

    /// The last stage that the validation reached.
    pub open spec fn spec_last_stage(self) -> Stage {
        match self {
            ValidationOutcome::Accepted => Stage::SequenceChecked,
            ValidationOutcome::Rejected { reason } => reason.spec_stage(),
        }
    }

    /// The last stage that the validation reached.
    pub fn last_stage(&self) -> (stage: Stage)
        ensures
            stage == self.spec_last_stage(),
    {
        match self {
            ValidationOutcome::Accepted => Stage::SequenceChecked,
            ValidationOutcome::Rejected { reason } => reason.stage(),
        }
    }

    /// Whether the transaction may be executed.
    pub fn is_accepted(&self) -> (accepted: bool)
        ensures
            accepted == (*self == ValidationOutcome::Accepted),
    {
        match self {
            ValidationOutcome::Accepted => true,
            ValidationOutcome::Rejected { .. } => false,
        }
    }
}

/// What one validation reads: the transaction, and the account state as of
/// one point in time.
#[derive(Clone, Debug)]
pub struct ValidationContext {
    transaction: TransactionData,
    snapshot: StateSnapshot,
}

/// A [`ValidationContext`] in specifications.
pub ghost struct ContextView {
    pub transaction: TransactionData,
    pub accounts: Map<Seq<u8>, u64>,
}

impl View for ValidationContext {
    type V = ContextView;

    closed spec fn view(&self) -> ContextView {
        ContextView { transaction: self.transaction, accounts: self.snapshot@ }
    }
}

impl ValidationContext {
    /// Bundles a transaction with the snapshot that it is validated against.
    pub fn new(transaction: TransactionData, snapshot: StateSnapshot) -> (ctx: ValidationContext)
        ensures
            ctx@ == (ContextView { transaction, accounts: snapshot@ }),
    {
        ValidationContext { transaction, snapshot }
    }

    /// The transaction under validation.
    pub fn transaction(&self) -> (transaction: &TransactionData)
        ensures
            *transaction == self@.transaction,
    {
        &self.transaction
    }

    /// The chain that the transaction is meant for.
    pub fn chain_id(&self) -> (chain_id: u64)
        ensures
            chain_id == self@.transaction.chain_id,
    {
        self.transaction.chain_id
    }

    /// The account state that the transaction is validated against.
    pub fn snapshot(&self) -> (snapshot: &StateSnapshot)
        ensures
            snapshot@ == self@.accounts,
    {
        &self.snapshot
    }
}

/// The first stage: an authenticator whose lengths are not those of its
/// scheme goes no further.
pub open spec fn spec_check_structure(auth: AuthenticatorView) -> Result<(), ValidationError> {
    if auth.well_formed() {
        Ok(())
    } else {
        Err(ValidationError::MalformedAuthenticator)
    }
}

/// The address of the key that the authenticator's signature over the
/// transaction's canonical message was verified against.
pub open spec fn spec_signer_address(tx: TransactionData, auth: AuthenticatorView) -> Result<
    Seq<u8>,
    VerifyError,
> {
    match spec_verify(auth.scheme, spec_canonical_message(tx), auth.signature, auth.public_key) {
        Ok(identity) => Ok(spec_derive_address(auth.scheme, identity.public_key)),
        Err(e) => Err(e),
    }
}

/// The decision, given what the registry and the account state answered: a
/// failed verification of any kind is `InvalidSignature`; then a signer other
/// than the sender is `SenderMismatch`; then an account that is not known is
/// `UnknownAccount`; then a sequence number other than the expected one is
/// `SequenceNumberMismatch`.
pub open spec fn spec_decide(
    tx: TransactionData,
    signer: Result<Seq<u8>, VerifyError>,
    expected: Result<u64, LookupError>,
) -> Result<(), ValidationError> {
    match signer {
        Err(_) => Err(ValidationError::InvalidSignature),
        Ok(address) => if address != tx.sender@ {
            Err(ValidationError::SenderMismatch)
        } else {
            match expected {
                Err(_) => Err(ValidationError::UnknownAccount),
                Ok(n) => if n != tx.sequence_number {
                    Err(
                        ValidationError::SequenceNumberMismatch {
                            expected: n,
                            got: tx.sequence_number,
                        },
                    )
                } else {
                    Ok(())
                },
            }
        },
    }
}

/// What a validation answers for a decoded authenticator.
pub open spec fn spec_validate(policy: AccountPolicy, ctx: ContextView, auth: AuthenticatorView)
    -> Result<(), ValidationError> {
    if !auth.well_formed() {
        Err(ValidationError::MalformedAuthenticator)
    } else {
        spec_decide(
            ctx.transaction,
            spec_signer_address(ctx.transaction, auth),
            spec_current_sequence_number(ctx.accounts, ctx.transaction.sender@, policy),
        )
    }
}

/// The validation error that a decoding error is reported as.
pub open spec fn spec_codec_rejection(e: CodecError) -> ValidationError {
    match e {
        CodecError::MalformedAuthenticator => ValidationError::MalformedAuthenticator,
        CodecError::UnsupportedScheme => ValidationError::UnsupportedScheme,
    }
}

/// What a validation answers for an authenticator in wire form.
pub open spec fn spec_validate_encoded(policy: AccountPolicy, ctx: ContextView, wire: Seq<u8>)
    -> Result<(), ValidationError> {
    match spec_decode(wire) {
        Err(e) => Err(spec_codec_rejection(e)),
        Ok(auth) => spec_validate(policy, ctx, auth),
    }
}

/// The view of a signer's address, or of the failure to find one.
pub open spec fn signer_view(signer: Result<Address, VerifyError>) -> Result<Seq<u8>, VerifyError> {
    match signer {
        Ok(address) => Ok(address@),
        Err(e) => Err(e),
    }
}

/// The first stage: rejects an authenticator whose byte lengths are not
/// those that its scheme fixes.
pub fn check_structure(auth: &AuthenticatorInfo) -> (out: Result<(), ValidationError>)
    ensures
        out == spec_check_structure(auth@),
{
    if auth.is_well_formed() {
        Ok(())
    } else {
        Err(ValidationError::MalformedAuthenticator)
    }
}

/// Verifies the authenticator's signature over the canonical message of
/// `tx` under the authenticator's scheme, and derives the address of the key
/// that it was verified against.
pub fn signer_address(tx: &TransactionData, auth: &AuthenticatorInfo) -> (out: Result<
    Address,
    VerifyError,
>)
    ensures
        signer_view(out) == spec_signer_address(*tx, auth@),
{
    let message = canonical_message(tx);
    let public_key: Option<&[u8]> = match &auth.public_key {
        Some(key) => Some(key.as_slice()),
        None => None,
    };
    match verify(auth.scheme, message.as_slice(), auth.signature.as_slice(), public_key) {
        Ok(identity) => Ok(Address::derive(auth.scheme, identity.public_key.as_slice())),
        Err(e) => Err(e),
    }
}

/// Decides on a transaction, given the address that its signature was
/// verified for and the sequence number that its sender's account expects.
pub fn decide(
    tx: &TransactionData,
    signer: Result<Address, VerifyError>,
    expected: Result<u64, LookupError>,
) -> (out: Result<(), ValidationError>)
    ensures
        out == spec_decide(*tx, signer_view(signer), expected),
{
    match signer {
        Err(_) => Err(ValidationError::InvalidSignature),
        Ok(address) => {
            if !address.equals(&tx.sender) {
                return Err(ValidationError::SenderMismatch);
            }
            match expected {
                Err(_) => Err(ValidationError::UnknownAccount),
                Ok(n) => {
                    if n != tx.sequence_number {
                        Err(
                            ValidationError::SequenceNumberMismatch {
                                expected: n,
                                got: tx.sequence_number,
                            },
                        )
                    } else {
                        Ok(())
                    }
                },
            }
        },
    }
}

/// A validator, configured with the policy on accounts that the state does
/// not hold yet.
#[derive(Clone, Copy, Debug)]
pub struct Validator {
    policy: AccountPolicy,
}

impl Validator {
    /// The policy that this validator applies.
    pub closed spec fn spec_policy(&self) -> AccountPolicy {
        self.policy
    }

    /// A validator that applies `policy`.
    pub fn new(policy: AccountPolicy) -> (validator: Validator)
        ensures
            validator.spec_policy() == policy,
    {
        Validator { policy }
    }

    /// The policy that this validator applies.
    pub fn policy(&self) -> (policy: AccountPolicy)
        ensures
            policy == self.spec_policy(),
    {
        self.policy
    }

    /// Validates a transaction against its authenticator.
    ///
    /// Accepts exactly when the authenticator is well formed, its signature
    /// over the transaction's canonical message verifies under its scheme,
    /// the verified or recovered key has the sender's address, and the
    /// transaction carries the sequence number that the sender's account
    /// expects. Otherwise the reason is that of the first of these checks
    /// that fails.
    pub fn validate(&self, ctx: &ValidationContext, auth: &AuthenticatorInfo) -> (out: Result<
        (),
        ValidationError,
    >)
        ensures
            out == spec_validate(self.spec_policy(), ctx@, auth@),
    {
        match check_structure(auth) {
            Err(e) => Err(e),
            Ok(_) => {
                let signer = signer_address(&ctx.transaction, auth);
                let expected = ctx.snapshot.current_sequence_number(
                    &ctx.transaction.sender,
                    self.policy,
                );
                decide(&ctx.transaction, signer, expected)
            },
        }
    }

    /// Decodes an authenticator from its wire form and validates the
    /// transaction against it. Bytes that do not decode are rejected with
    /// the decoder's reason, before any signature is looked at.
    pub fn validate_encoded(&self, ctx: &ValidationContext, wire: &[u8]) -> (out: Result<
        (),
        ValidationError,
    >)
        ensures
            out == spec_validate_encoded(self.spec_policy(), ctx@, wire@),
    {
        match decode(wire) {
            Err(CodecError::MalformedAuthenticator) => Err(
                ValidationError::MalformedAuthenticator,
            ),
            Err(CodecError::UnsupportedScheme) => Err(ValidationError::UnsupportedScheme),
            Ok(auth) => self.validate(ctx, &auth),
        }
    }
}

} // verus!
