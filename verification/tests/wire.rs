use tx_validator::address::Address;
use tx_validator::codec::{
    canonical_message, decode, encode, AuthenticatorInfo, CodecError, TransactionData, MESSAGE_LEN,
    MESSAGE_VERSION,
};
use tx_validator::scheme::Scheme;

fn wire_of(tag: u8, len: usize) -> Vec<u8> {
    let mut wire = vec![tag];
    for i in 1..len {
        wire.push((i % 251) as u8);
    }
    wire
}

#[test]
fn canonical_message_has_the_fixed_layout() {
    let tx = TransactionData::new(
        Address::from_bytes([0x11; 32]),
        0x0102030405060708,
        20230104,
        [0x22; 32],
    );
    let message = canonical_message(&tx);
    let mut expected: Vec<u8> = vec![1];
    expected.extend_from_slice(&[0x11; 32]);
    expected.extend_from_slice(&[8, 7, 6, 5, 4, 3, 2, 1]);
    expected.extend_from_slice(&[216, 175, 52, 1, 0, 0, 0, 0]);
    expected.extend_from_slice(&[0x22; 32]);
    assert_eq!(message, expected);
    assert_eq!(message.len(), 81);
    assert_eq!(MESSAGE_LEN, 81);
    assert_eq!(message[0], MESSAGE_VERSION);
}

#[test]
fn canonical_message_changes_with_every_field() {
    let sender = Address::from_bytes([3; 32]);
    let base = TransactionData::new(sender, 1, 2, [4; 32]);
    let message = canonical_message(&base);
    assert_eq!(message, canonical_message(&base.clone()));

    let mut other_sender = [3u8; 32];
    other_sender[31] = 4;
    let variants = [
        TransactionData::new(Address::from_bytes(other_sender), 1, 2, [4; 32]),
        TransactionData::new(sender, 2, 2, [4; 32]),
        TransactionData::new(sender, 1, 3, [4; 32]),
        TransactionData::new(sender, 2, 1, [4; 32]),
        TransactionData::new(sender, 1, 2, [5; 32]),
    ];
    for variant in variants {
        assert_ne!(canonical_message(&variant), message);
    }
}

#[test]
fn action_is_digested_with_sha256() {
    let sender = Address::from_bytes([0; 32]);
    let empty = TransactionData::from_action(sender, 9, 8, b"");
    assert_eq!(
        empty.action_digest,
        [
            227, 176, 196, 66, 152, 252, 28, 20, 154, 251, 244, 200, 153, 111, 185, 36, 39, 174,
            65, 228, 100, 155, 147, 76, 164, 149, 153, 27, 120, 82, 184, 85
        ]
    );
    assert_eq!(empty.sequence_number, 9);
    assert_eq!(empty.chain_id, 8);
    assert_eq!(empty.sender.bytes, [0; 32]);
    let abc = TransactionData::from_action(sender, 9, 8, b"abc");
    assert_eq!(
        abc.action_digest,
        [
            186, 120, 22, 191, 143, 1, 207, 234, 65, 65, 64, 222, 93, 174, 34, 35, 176, 3, 97,
            163, 150, 23, 122, 156, 180, 16, 255, 97, 242, 0, 21, 173
        ]
    );
}

#[test]
fn decodes_each_scheme_at_its_exact_length() {
    let cases = [
        (0u8, Scheme::Ed25519, 64usize, 32usize),
        (2, Scheme::Ecdsa, 64, 33),
        (3, Scheme::EcdsaRecoverable, 65, 0),
        (4, Scheme::Schnorr, 64, 32),
    ];
    for (tag, scheme, signature_len, key_len) in cases {
        let wire = wire_of(tag, 1 + signature_len + key_len);
        let auth = decode(&wire).unwrap();
        assert_eq!(auth.scheme, scheme);
        assert_eq!(auth.signature, wire[1..1 + signature_len].to_vec());
        if key_len == 0 {
            assert_eq!(auth.public_key, None);
        } else {
            assert_eq!(auth.public_key, Some(wire[1 + signature_len..].to_vec()));
        }
        assert!(auth.is_well_formed());
        assert_eq!(encode(&auth), wire);

        let mut longer = wire.clone();
        longer.push(0);
        assert_eq!(decode(&longer).unwrap_err(), CodecError::MalformedAuthenticator);
        let shorter = &wire[..wire.len() - 1];
        assert_eq!(decode(shorter).unwrap_err(), CodecError::MalformedAuthenticator);
        assert_eq!(decode(&wire[..1]).unwrap_err(), CodecError::MalformedAuthenticator);
    }
}

#[test]
fn decode_rejects_missing_and_unknown_tags() {
    assert_eq!(decode(&[]).unwrap_err(), CodecError::MalformedAuthenticator);
    for tag in 5..=255u8 {
        assert_eq!(decode(&wire_of(tag, 97)).unwrap_err(), CodecError::MalformedAuthenticator);
        assert_eq!(decode(&[tag]).unwrap_err(), CodecError::MalformedAuthenticator);
    }
}

#[test]
fn decode_reports_the_assigned_tag_without_a_scheme() {
    assert_eq!(decode(&[1]).unwrap_err(), CodecError::UnsupportedScheme);
    assert_eq!(decode(&wire_of(1, 97)).unwrap_err(), CodecError::UnsupportedScheme);
    assert_eq!(decode(&wire_of(1, 1000)).unwrap_err(), CodecError::UnsupportedScheme);
}

#[test]
fn encode_writes_tag_signature_and_key() {
    let auth = AuthenticatorInfo::new(Scheme::Ecdsa, vec![7; 64], Some(vec![9; 33]));
    let wire = encode(&auth);
    let mut expected: Vec<u8> = vec![2];
    expected.extend_from_slice(&[7; 64]);
    expected.extend_from_slice(&[9; 33]);
    assert_eq!(wire, expected);
    let decoded = decode(&wire).unwrap();
    assert_eq!(decoded.scheme, auth.scheme);
    assert_eq!(decoded.signature, auth.signature);
    assert_eq!(decoded.public_key, auth.public_key);

    let recoverable = AuthenticatorInfo::new(Scheme::EcdsaRecoverable, vec![5; 65], None);
    let wire = encode(&recoverable);
    assert_eq!(wire.len(), 66);
    assert_eq!(wire[0], 3);
    assert_eq!(wire[1..].to_vec(), vec![5u8; 65]);
}

#[test]
fn well_formedness_is_about_lengths_and_key_presence() {
    assert!(AuthenticatorInfo::new(Scheme::Ed25519, vec![0; 64], Some(vec![0; 32])).is_well_formed());
    assert!(AuthenticatorInfo::new(Scheme::Ecdsa, vec![0; 64], Some(vec![0; 33])).is_well_formed());
    assert!(AuthenticatorInfo::new(Scheme::EcdsaRecoverable, vec![0; 65], None).is_well_formed());
    assert!(AuthenticatorInfo::new(Scheme::Schnorr, vec![0; 64], Some(vec![0; 32])).is_well_formed());

    assert!(!AuthenticatorInfo::new(Scheme::Ed25519, vec![0; 63], Some(vec![0; 32])).is_well_formed());
    assert!(!AuthenticatorInfo::new(Scheme::Ed25519, vec![0; 64], Some(vec![0; 33])).is_well_formed());
    assert!(!AuthenticatorInfo::new(Scheme::Ed25519, vec![0; 64], None).is_well_formed());
    assert!(!AuthenticatorInfo::new(Scheme::Ecdsa, vec![0; 64], Some(vec![0; 32])).is_well_formed());
    assert!(!AuthenticatorInfo::new(Scheme::Ecdsa, vec![0; 65], Some(vec![0; 33])).is_well_formed());
    assert!(!AuthenticatorInfo::new(Scheme::EcdsaRecoverable, vec![0; 64], None).is_well_formed());
    assert!(
        !AuthenticatorInfo::new(Scheme::EcdsaRecoverable, vec![0; 65], Some(vec![])).is_well_formed()
    );
    assert!(!AuthenticatorInfo::new(Scheme::Schnorr, vec![0; 64], Some(vec![0; 33])).is_well_formed());
}
