use k256::ecdsa::signature::Signer;
use tx_validator::address::{Address, ADDRESS_LEN};
use tx_validator::registry::{
    identity_from_checks, identity_from_recovery, verify, VerifyError, MAX_RECOVERY_ID,
};
use tx_validator::scheme::{Scheme, ASSIGNED_TAGS};

const MESSAGE: &[u8] = b"the message that is signed";

const ALL: [Scheme; 4] = [
    Scheme::Ed25519,
    Scheme::Ecdsa,
    Scheme::EcdsaRecoverable,
    Scheme::Schnorr,
];

fn error_of(
    scheme: Scheme,
    message: &[u8],
    signature: &[u8],
    public_key: Option<&[u8]>,
) -> VerifyError {
    verify(scheme, message, signature, public_key).unwrap_err()
}

#[test]
fn scheme_tags_and_lengths() {
    assert_eq!(ASSIGNED_TAGS, 5);
    let expected = [
        (Scheme::Ed25519, 0u8, 64usize, 32usize, false, 0u8),
        (Scheme::Ecdsa, 2, 64, 33, false, 2),
        (Scheme::EcdsaRecoverable, 3, 65, 0, true, 2),
        (Scheme::Schnorr, 4, 64, 32, false, 4),
    ];
    for (scheme, tag, signature_len, key_len, recoverable, family) in expected {
        assert_eq!(scheme.tag(), tag);
        assert_eq!(Scheme::from_tag(tag), Some(scheme));
        assert_eq!(scheme.signature_len(), signature_len);
        assert_eq!(scheme.public_key_len(), key_len);
        assert_eq!(scheme.is_recoverable(), recoverable);
        assert_eq!(scheme.key_family(), family);
    }
    assert_eq!(Scheme::from_tag(1), None);
    for tag in 5..=255u8 {
        assert_eq!(Scheme::from_tag(tag), None);
    }
}

#[test]
fn address_is_the_digest_of_family_and_key() {
    assert_eq!(ADDRESS_LEN, 32);
    assert_eq!(
        Address::derive(Scheme::Ed25519, &[7; 32]).bytes,
        [
            10, 149, 141, 114, 110, 254, 160, 167, 30, 182, 107, 7, 199, 135, 56, 113, 123, 34,
            209, 251, 212, 71, 86, 232, 40, 3, 165, 237, 70, 30, 19, 249
        ]
    );
    let ecdsa = [
        183, 43, 120, 226, 151, 72, 20, 43, 113, 158, 45, 214, 88, 39, 65, 196, 87, 11, 228, 181,
        163, 114, 164, 43, 29, 150, 150, 170, 2, 19, 100, 34,
    ];
    assert_eq!(Address::derive(Scheme::Ecdsa, &[7; 33]).bytes, ecdsa);
    assert_eq!(Address::derive(Scheme::EcdsaRecoverable, &[7; 33]).bytes, ecdsa);
    assert_eq!(
        Address::derive(Scheme::Schnorr, &[7; 32]).bytes,
        [
            42, 77, 160, 115, 66, 84, 53, 10, 62, 113, 237, 249, 174, 81, 237, 181, 147, 13, 161,
            11, 84, 93, 142, 138, 165, 244, 16, 149, 145, 41, 173, 7
        ]
    );
}

#[test]
fn address_equality_and_bytes() {
    let a = Address::from_bytes([1; 32]);
    let mut near = [1u8; 32];
    near[17] = 2;
    let b = Address::from_bytes(near);
    assert!(a.equals(&a));
    assert!(a.equals(&Address::from_bytes([1; 32])));
    assert!(!a.equals(&b));
    assert!(!b.equals(&a));
    assert_eq!(a.bytes, [1u8; 32]);
    assert_eq!(b.bytes, near);
}

#[test]
fn ed25519_routine() {
    let key = ed25519_dalek::SigningKey::from_bytes(&[21; 32]);
    let public_key = key.verifying_key().to_bytes();
    let signature = key.sign(MESSAGE).to_bytes();

    let identity = verify(Scheme::Ed25519, MESSAGE, &signature, Some(&public_key)).unwrap();
    assert_eq!(identity.public_key, public_key.to_vec());
    assert!(!identity.recovered);

    assert_eq!(
        error_of(Scheme::Ed25519, b"another message", &signature, Some(&public_key)),
        VerifyError::InvalidSignature
    );
    let mut forged = signature;
    forged[10] ^= 0x40;
    assert_eq!(
        error_of(Scheme::Ed25519, MESSAGE, &forged, Some(&public_key)),
        VerifyError::InvalidSignature
    );
    let other = ed25519_dalek::SigningKey::from_bytes(&[22; 32]).verifying_key().to_bytes();
    assert_eq!(
        error_of(Scheme::Ed25519, MESSAGE, &signature, Some(&other)),
        VerifyError::InvalidSignature
    );
    assert_eq!(
        error_of(Scheme::Ed25519, MESSAGE, &signature[..63], Some(&public_key)),
        VerifyError::InvalidSignature
    );
    assert_eq!(
        error_of(Scheme::Ed25519, MESSAGE, &signature, None),
        VerifyError::MalformedKey
    );
    assert_eq!(
        error_of(Scheme::Ed25519, MESSAGE, &signature, Some(&public_key[..31])),
        VerifyError::MalformedKey
    );
    assert_eq!(
        error_of(Scheme::Ed25519, MESSAGE, &signature[..63], Some(&public_key[..31])),
        VerifyError::MalformedKey
    );

    let mut no_point = [0u8; 32];
    let mut found = false;
    for first in 0..=255u8 {
        no_point[0] = first;
        if ed25519_dalek::VerifyingKey::from_bytes(&no_point).is_err() {
            found = true;
            break;
        }
    }
    assert!(found);
    assert_eq!(
        error_of(Scheme::Ed25519, MESSAGE, &signature, Some(&no_point)),
        VerifyError::MalformedKey
    );
}

#[test]
fn ecdsa_routine() {
    let key = k256::ecdsa::SigningKey::from_slice(&[21; 32]).unwrap();
    let public_key = key.verifying_key().to_encoded_point(true).as_bytes().to_vec();
    assert_eq!(public_key.len(), 33);
    let signature: k256::ecdsa::Signature = key.sign(MESSAGE);
    let signature = signature.to_bytes().to_vec();

    let identity = verify(Scheme::Ecdsa, MESSAGE, &signature, Some(&public_key)).unwrap();
    assert_eq!(identity.public_key, public_key);
    assert!(!identity.recovered);

    assert_eq!(
        error_of(Scheme::Ecdsa, b"another message", &signature, Some(&public_key)),
        VerifyError::InvalidSignature
    );
    let mut forged = signature.clone();
    forged[40] ^= 1;
    assert_eq!(
        error_of(Scheme::Ecdsa, MESSAGE, &forged, Some(&public_key)),
        VerifyError::InvalidSignature
    );
    assert_eq!(
        error_of(Scheme::Ecdsa, MESSAGE, &[0; 64], Some(&public_key)),
        VerifyError::InvalidSignature
    );
    assert_eq!(
        error_of(Scheme::Ecdsa, MESSAGE, &signature[..63], Some(&public_key)),
        VerifyError::InvalidSignature
    );
    assert_eq!(error_of(Scheme::Ecdsa, MESSAGE, &signature, None), VerifyError::MalformedKey);
    assert_eq!(
        error_of(Scheme::Ecdsa, MESSAGE, &signature, Some(&public_key[..32])),
        VerifyError::MalformedKey
    );
    let uncompressed = key.verifying_key().to_encoded_point(false).as_bytes().to_vec();
    assert_eq!(
        error_of(Scheme::Ecdsa, MESSAGE, &signature, Some(&uncompressed)),
        VerifyError::MalformedKey
    );

    let mut no_point = public_key.clone();
    let mut found = false;
    for last in 0..=255u8 {
        no_point[32] = last;
        if k256::ecdsa::VerifyingKey::from_sec1_bytes(&no_point).is_err() {
            found = true;
            break;
        }
    }
    assert!(found);
    assert_eq!(
        error_of(Scheme::Ecdsa, MESSAGE, &signature, Some(&no_point)),
        VerifyError::MalformedKey
    );
}

#[test]
fn ecdsa_recoverable_routine() {
    let key = k256::ecdsa::SigningKey::from_slice(&[21; 32]).unwrap();
    let public_key = key.verifying_key().to_encoded_point(true).as_bytes().to_vec();
    let (signature, recovery_id) = key.sign_recoverable(MESSAGE).unwrap();
    let mut signature = signature.to_bytes().to_vec();
    signature.push(recovery_id.to_byte());
    assert_eq!(signature.len(), 65);

    let identity = verify(Scheme::EcdsaRecoverable, MESSAGE, &signature, None).unwrap();
    assert_eq!(identity.public_key, public_key);
    assert!(identity.recovered);

    let ignored = verify(Scheme::EcdsaRecoverable, MESSAGE, &signature, Some(&[1, 2, 3])).unwrap();
    assert_eq!(ignored.public_key, public_key);
    assert!(ignored.recovered);

    let other = verify(Scheme::EcdsaRecoverable, b"another message", &signature, None);
    match other {
        Ok(identity) => assert_ne!(identity.public_key, public_key),
        Err(e) => assert_eq!(e, VerifyError::RecoveryFailed),
    }

    assert_eq!(MAX_RECOVERY_ID, 3);
    for id in 4..=255u8 {
        let mut out_of_range = signature.clone();
        out_of_range[64] = id;
        assert_eq!(
            error_of(Scheme::EcdsaRecoverable, MESSAGE, &out_of_range, None),
            VerifyError::RecoveryFailed
        );
    }
    let mut zero = vec![0u8; 65];
    zero[64] = recovery_id.to_byte();
    assert_eq!(
        error_of(Scheme::EcdsaRecoverable, MESSAGE, &zero, None),
        VerifyError::RecoveryFailed
    );
    assert_eq!(
        error_of(Scheme::EcdsaRecoverable, MESSAGE, &signature[..64], None),
        VerifyError::InvalidSignature
    );
    assert_eq!(
        error_of(Scheme::EcdsaRecoverable, MESSAGE, &[], None),
        VerifyError::InvalidSignature
    );
}

#[test]
fn schnorr_routine() {
    let key = k256::schnorr::SigningKey::from_bytes(&[21; 32]).unwrap();
    let public_key = key.verifying_key().to_bytes().to_vec();
    assert_eq!(public_key.len(), 32);
    let signature: k256::schnorr::Signature = key.sign(MESSAGE);
    let signature = signature.to_bytes().to_vec();

    let identity = verify(Scheme::Schnorr, MESSAGE, &signature, Some(&public_key)).unwrap();
    assert_eq!(identity.public_key, public_key);
    assert!(!identity.recovered);

    assert_eq!(
        error_of(Scheme::Schnorr, b"another message", &signature, Some(&public_key)),
        VerifyError::InvalidSignature
    );
    let mut forged = signature.clone();
    forged[63] ^= 0x80;
    assert_eq!(
        error_of(Scheme::Schnorr, MESSAGE, &forged, Some(&public_key)),
        VerifyError::InvalidSignature
    );
    assert_eq!(
        error_of(Scheme::Schnorr, MESSAGE, &[0; 64], Some(&public_key)),
        VerifyError::InvalidSignature
    );
    assert_eq!(
        error_of(Scheme::Schnorr, MESSAGE, &[0xff; 64], Some(&public_key)),
        VerifyError::InvalidSignature
    );
    assert_eq!(
        error_of(Scheme::Schnorr, MESSAGE, &signature[..32], Some(&public_key)),
        VerifyError::InvalidSignature
    );
    assert_eq!(error_of(Scheme::Schnorr, MESSAGE, &signature, None), VerifyError::MalformedKey);
    assert_eq!(
        error_of(Scheme::Schnorr, MESSAGE, &signature, Some(&public_key[..31])),
        VerifyError::MalformedKey
    );
    assert_eq!(
        error_of(Scheme::Schnorr, MESSAGE, &signature, Some(&[0xff; 32])),
        VerifyError::MalformedKey
    );

    let mut no_point = public_key.clone();
    let mut found = false;
    for last in 0..=255u8 {
        no_point[31] = last;
        if k256::schnorr::VerifyingKey::from_bytes(&no_point).is_err() {
            found = true;
            break;
        }
    }
    assert!(found);
    assert_eq!(
        error_of(Scheme::Schnorr, MESSAGE, &signature, Some(&no_point)),
        VerifyError::MalformedKey
    );
}

#[test]
fn every_scheme_rejects_empty_input() {
    for scheme in ALL {
        assert!(verify(scheme, &[], &[], None).is_err());
        assert!(verify(scheme, &[], &[], Some(&[])).is_err());
    }
}

#[test]
fn identity_from_the_two_checks() {
    let identity = identity_from_checks(vec![1, 2, 3], true, true).unwrap();
    assert_eq!(identity.public_key, vec![1, 2, 3]);
    assert!(!identity.recovered);
    assert_eq!(
        identity_from_checks(vec![1, 2, 3], true, false).unwrap_err(),
        VerifyError::InvalidSignature
    );
    assert_eq!(
        identity_from_checks(vec![1, 2, 3], false, true).unwrap_err(),
        VerifyError::MalformedKey
    );
    assert_eq!(
        identity_from_checks(vec![1, 2, 3], false, false).unwrap_err(),
        VerifyError::MalformedKey
    );
}

#[test]
fn identity_from_a_recovery() {
    let identity = identity_from_recovery(Some(vec![4, 5])).unwrap();
    assert_eq!(identity.public_key, vec![4, 5]);
    assert!(identity.recovered);
    assert_eq!(identity_from_recovery(None).unwrap_err(), VerifyError::RecoveryFailed);
}
