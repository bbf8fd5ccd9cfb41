use tx_validator::address::Address;
use tx_validator::codec::TransactionData;
use tx_validator::registry::VerifyError;
use tx_validator::state::LookupError;
use tx_validator::statedb::{Statedb, StatedbCommand};
use tx_validator::validator::{decide, Stage, ValidationError, ValidationOutcome};

fn address(byte: u8) -> Address {
    Address::from_bytes([byte; 32])
}

fn transaction(sequence_number: u64) -> TransactionData {
    TransactionData::new(address(1), sequence_number, 1, [0; 32])
}

#[test]
fn decide_accepts_when_signer_and_sequence_number_match() {
    assert_eq!(decide(&transaction(4), Ok(address(1)), Ok(4)), Ok(()));
    assert_eq!(decide(&transaction(0), Ok(address(1)), Ok(0)), Ok(()));
    assert_eq!(decide(&transaction(u64::MAX), Ok(address(1)), Ok(u64::MAX)), Ok(()));
}

#[test]
fn decide_hides_why_verification_failed() {
    for reason in [
        VerifyError::InvalidSignature,
        VerifyError::MalformedKey,
        VerifyError::RecoveryFailed,
    ] {
        assert_eq!(
            decide(&transaction(4), Err(reason), Ok(4)),
            Err(ValidationError::InvalidSignature)
        );
        assert_eq!(
            decide(&transaction(4), Err(reason), Err(LookupError::UnknownAccount)),
            Err(ValidationError::InvalidSignature)
        );
    }
}

#[test]
fn decide_checks_the_signer_before_the_account() {
    assert_eq!(
        decide(&transaction(4), Ok(address(2)), Ok(4)),
        Err(ValidationError::SenderMismatch)
    );
    assert_eq!(
        decide(&transaction(4), Ok(address(2)), Ok(5)),
        Err(ValidationError::SenderMismatch)
    );
    assert_eq!(
        decide(&transaction(4), Ok(address(2)), Err(LookupError::UnknownAccount)),
        Err(ValidationError::SenderMismatch)
    );
    assert_eq!(
        decide(&transaction(4), Ok(address(1)), Err(LookupError::UnknownAccount)),
        Err(ValidationError::UnknownAccount)
    );
}

#[test]
fn decide_reports_both_sequence_numbers() {
    assert_eq!(
        decide(&transaction(4), Ok(address(1)), Ok(5)),
        Err(ValidationError::SequenceNumberMismatch { expected: 5, got: 4 })
    );
    assert_eq!(
        decide(&transaction(6), Ok(address(1)), Ok(5)),
        Err(ValidationError::SequenceNumberMismatch { expected: 5, got: 6 })
    );
    assert_eq!(
        decide(&transaction(0), Ok(address(1)), Ok(u64::MAX)),
        Err(ValidationError::SequenceNumberMismatch { expected: u64::MAX, got: 0 })
    );
}

#[test]
fn outcome_of_a_result() {
    assert_eq!(ValidationOutcome::of(Ok(())), ValidationOutcome::Accepted);
    assert!(ValidationOutcome::of(Ok(())).is_accepted());
    for reason in [
        ValidationError::MalformedAuthenticator,
        ValidationError::UnsupportedScheme,
        ValidationError::InvalidSignature,
        ValidationError::SenderMismatch,
        ValidationError::SequenceNumberMismatch { expected: 1, got: 0 },
        ValidationError::UnknownAccount,
    ] {
        let outcome = ValidationOutcome::of(Err(reason));
        assert_eq!(outcome, ValidationOutcome::Rejected { reason });
        assert!(!outcome.is_accepted());
    }
}

#[test]
fn statedb_holds_its_command() {
    for cmd in [
        StatedbCommand::Export,
        StatedbCommand::Import,
        StatedbCommand::GenesisUTXO,
        StatedbCommand::Genesis,
        StatedbCommand::GenesisVerify,
    ] {
        assert_eq!(Statedb::new(cmd).command(), cmd);
    }
}

#[test]
fn each_reason_has_its_stage() {
    assert_eq!(ValidationError::MalformedAuthenticator.stage(), Stage::Start);
    assert_eq!(ValidationError::UnsupportedScheme.stage(), Stage::Start);
    assert_eq!(ValidationError::InvalidSignature.stage(), Stage::Decoded);
    assert_eq!(ValidationError::SenderMismatch.stage(), Stage::SchemeVerified);
    assert_eq!(
        ValidationError::SequenceNumberMismatch { expected: 2, got: 1 }.stage(),
        Stage::AddressBound
    );
    assert_eq!(ValidationError::UnknownAccount.stage(), Stage::AddressBound);
    assert_eq!(ValidationOutcome::Accepted.last_stage(), Stage::SequenceChecked);
    assert_eq!(
        ValidationOutcome::Rejected { reason: ValidationError::SenderMismatch }.last_stage(),
        Stage::SchemeVerified
    );
    let order = [
        Stage::Start,
        Stage::Decoded,
        Stage::SchemeVerified,
        Stage::AddressBound,
        Stage::SequenceChecked,
    ];
    for (rank, stage) in order.iter().enumerate() {
        assert_eq!(stage.rank() as usize, rank);
    }
}
