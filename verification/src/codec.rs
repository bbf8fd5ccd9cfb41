//! The wire form of an authenticator and the canonical message that a
//! transaction is signed over.
//!
//! Both layouts are fixed. The message is, in order: one version byte, the
//! 32 bytes of the sender, the sequence number and the chain identifier as
//! 8 little-endian bytes each, and the 32 bytes of the action digest. An
//! authenticator is, in order: one tag byte, the signature and the public
//! key, each of exactly the length that the tagged scheme fixes.

use crate::address::Address;
use crate::bytes::{append, copy_range};
use crate::crypto::{sha256, spec_sha256};
use crate::scheme::{Scheme, ASSIGNED_TAGS};
use vstd::bytes::{
    lemma_auto_spec_u64_to_from_le_bytes, spec_u64_from_le_bytes, spec_u64_to_le_bytes,
    u64_to_le_bytes,
};
use vstd::prelude::*;

verus! {

/// Version of the canonical message layout; the first byte of every message.
pub const MESSAGE_VERSION: u8 = 1;

/// Number of bytes in a canonical message.
pub const MESSAGE_LEN: usize = 81;

/// What a sender signs: who sends, in which order, on which chain, and what.
#[derive(Clone, Copy, Debug)]
pub struct TransactionData {
    /// The declared sender.
    pub sender: Address,
    /// The position of this transaction among the sender's transactions.
    pub sequence_number: u64,
    /// The chain that the transaction is meant for.
    pub chain_id: u64,
    /// The SHA-256 digest of the action payload.
    pub action_digest: [u8; 32],
}

impl TransactionData {
    /// A transaction over an action whose digest is already known.
    pub fn new(sender: Address, sequence_number: u64, chain_id: u64, action_digest: [u8; 32]) -> (tx:
        TransactionData)
        ensures
            tx == (TransactionData { sender, sequence_number, chain_id, action_digest }),
    {
        TransactionData { sender, sequence_number, chain_id, action_digest }
    }

    /// A transaction over the given action payload, which is digested here.
    pub fn from_action(sender: Address, sequence_number: u64, chain_id: u64, action: &[u8]) -> (tx:
        TransactionData)
        ensures
            tx.sender == sender,
            tx.sequence_number == sequence_number,
            tx.chain_id == chain_id,
            tx.action_digest@ == spec_sha256(action@),
    {
        TransactionData { sender, sequence_number, chain_id, action_digest: sha256(action) }
    }
}

/// The canonical message of a transaction.
pub open spec fn spec_canonical_message(tx: TransactionData) -> Seq<u8> {
    seq![MESSAGE_VERSION] + tx.sender@ + spec_u64_to_le_bytes(tx.sequence_number)
        + spec_u64_to_le_bytes(tx.chain_id) + tx.action_digest@
}

/// Builds the canonical message of a transaction, byte for byte what the
/// signer signed.
pub fn canonical_message(tx: &TransactionData) -> (message: Vec<u8>)
    ensures
        message@ == spec_canonical_message(*tx),
        message@.len() == MESSAGE_LEN,
{
    let mut message: Vec<u8> = Vec::new();
    message.push(MESSAGE_VERSION);
    append(&mut message, tx.sender.bytes.as_slice());
    let sequence_number = u64_to_le_bytes(tx.sequence_number);
    append(&mut message, sequence_number.as_slice());
    let chain_id = u64_to_le_bytes(tx.chain_id);
    append(&mut message, chain_id.as_slice());
    append(&mut message, tx.action_digest.as_slice());
    proof {
        lemma_auto_spec_u64_to_from_le_bytes();
        assert(message@ =~= spec_canonical_message(*tx));
    }
    message
}

/// Every canonical message has the same length and starts with the version.
pub proof fn lemma_message_layout(tx: TransactionData)
    ensures
        spec_canonical_message(tx).len() == MESSAGE_LEN,
        spec_canonical_message(tx)[0] == MESSAGE_VERSION,
        spec_canonical_message(tx).subrange(1, 33) == tx.sender@,
        spec_canonical_message(tx).subrange(33, 41) == spec_u64_to_le_bytes(tx.sequence_number),
        spec_canonical_message(tx).subrange(41, 49) == spec_u64_to_le_bytes(tx.chain_id),
        spec_canonical_message(tx).subrange(49, 81) == tx.action_digest@,
{
    lemma_auto_spec_u64_to_from_le_bytes();
    let m = spec_canonical_message(tx);
    assert(m.subrange(1, 33) =~= tx.sender@);
    assert(m.subrange(33, 41) =~= spec_u64_to_le_bytes(tx.sequence_number));
    assert(m.subrange(41, 49) =~= spec_u64_to_le_bytes(tx.chain_id));
    assert(m.subrange(49, 81) =~= tx.action_digest@);
}

/// A transaction determines its canonical message and the message determines
/// the transaction: two transactions with the same message are the same in
/// every field.
pub proof fn lemma_message_determines_transaction(a: TransactionData, b: TransactionData)
    ensures
        spec_canonical_message(a) == spec_canonical_message(b) <==> a == b,
{
    if spec_canonical_message(a) == spec_canonical_message(b) {
        lemma_message_layout(a);
        lemma_message_layout(b);
        lemma_auto_spec_u64_to_from_le_bytes();
        assert(a.sender.bytes =~= b.sender.bytes);
        assert(a.action_digest =~= b.action_digest);
        assert(a.sequence_number == spec_u64_from_le_bytes(
            spec_u64_to_le_bytes(a.sequence_number),
        ));
        assert(b.sequence_number == spec_u64_from_le_bytes(
            spec_u64_to_le_bytes(b.sequence_number),
        ));
        assert(a.chain_id == spec_u64_from_le_bytes(spec_u64_to_le_bytes(a.chain_id)));
        assert(b.chain_id == spec_u64_from_le_bytes(spec_u64_to_le_bytes(b.chain_id)));
    }
}

/// Why bytes were not decoded into an authenticator.
#[derive(Clone, Copy, Debug, PartialEq, Eq, Structural)]
pub enum CodecError {
    /// There is no tag, the tag is unknown to the wire format, or the bytes
    /// after the tag do not have the length that the scheme fixes.
    MalformedAuthenticator,
    /// The tag is one that the wire format assigns, but no scheme is
    /// registered under it.
    UnsupportedScheme,
}

/// A scheme with the signature and, for an explicit-key scheme, the public
/// key that came with it.
#[derive(Clone, Debug)]
pub struct AuthenticatorInfo {
    pub scheme: Scheme,
    pub signature: Vec<u8>,
    pub public_key: Option<Vec<u8>>,
}

/// An [`AuthenticatorInfo`] in specifications.
pub ghost struct AuthenticatorView {
    pub scheme: Scheme,
    pub signature: Seq<u8>,
    pub public_key: Option<Seq<u8>>,
}

impl View for AuthenticatorInfo {
    type V = AuthenticatorView;

    open spec fn view(&self) -> AuthenticatorView {
        AuthenticatorView {
            scheme: self.scheme,
            signature: self.signature@,
            public_key: match self.public_key {
                Some(key) => Some(key@),
                None => None,
            },
        }
    }
}

impl AuthenticatorView {
    /// Whether the byte lengths are those that the scheme fixes: the
    /// signature has the scheme's length, and the public key is absent under
    /// a recoverable scheme and otherwise present with the scheme's length.
    pub open spec fn well_formed(self) -> bool {
        &&& self.signature.len() == self.scheme.spec_signature_len()
        &&& match self.public_key {
            Some(key) => !self.scheme.spec_is_recoverable() && key.len()
                == self.scheme.spec_public_key_len(),
            None => self.scheme.spec_is_recoverable(),
        }
    }

    /// The public-key bytes that go on the wire: none where the key is absent.
    pub open spec fn key_bytes(self) -> Seq<u8> {
        match self.public_key {
            Some(key) => key,
            None => Seq::empty(),
        }
    }
}

impl AuthenticatorInfo {
    /// An authenticator of the given parts. Nothing is checked here.
    pub fn new(scheme: Scheme, signature: Vec<u8>, public_key: Option<Vec<u8>>) -> (auth:
        AuthenticatorInfo)
        ensures
            auth.scheme == scheme,
            auth.signature == signature,
            auth.public_key == public_key,
    {
        AuthenticatorInfo { scheme, signature, public_key }
    }

    /// Whether the byte lengths are those that the scheme fixes.
    pub fn is_well_formed(&self) -> (ok: bool)
        ensures
            ok == self@.well_formed(),
    {
        if self.signature.len() != self.scheme.signature_len() {
            return false;
        }
        match &self.public_key {
            Some(key) => !self.scheme.is_recoverable() && key.len()
                == self.scheme.public_key_len(),
            None => self.scheme.is_recoverable(),
        }
    }
}

/// The wire length of an authenticator under a scheme.
pub open spec fn spec_wire_len(scheme: Scheme) -> nat {
    1 + scheme.spec_signature_len() + scheme.spec_public_key_len()
}

/// The wire form of an authenticator.
pub open spec fn spec_encode(auth: AuthenticatorView) -> Seq<u8> {
    seq![auth.scheme.spec_tag()] + auth.signature + auth.key_bytes()
}

/// The authenticator that well-formed wire bytes of a scheme hold.
pub open spec fn spec_split(scheme: Scheme, wire: Seq<u8>) -> AuthenticatorView {
    let signature_end = 1 + scheme.spec_signature_len() as int;
    AuthenticatorView {
        scheme,
        signature: wire.subrange(1, signature_end),
        public_key: if scheme.spec_is_recoverable() {
            None
        } else {
            Some(wire.subrange(signature_end, wire.len() as int))
        },
    }
}

/// What decoding answers for any bytes.
pub open spec fn spec_decode(wire: Seq<u8>) -> Result<AuthenticatorView, CodecError> {
    if wire.len() == 0 {
        Err(CodecError::MalformedAuthenticator)
    } else if wire[0] >= ASSIGNED_TAGS {
        Err(CodecError::MalformedAuthenticator)
    } else {
        match Scheme::spec_from_tag(wire[0]) {
            None => Err(CodecError::UnsupportedScheme),
            Some(scheme) => if wire.len() != spec_wire_len(scheme) {
                Err(CodecError::MalformedAuthenticator)
            } else {
                Ok(spec_split(scheme, wire))
            },
        }
    }
}

/// Decodes the wire form of an authenticator.
///
/// Empty input, a tag that the wire format does not assign and a length
/// other than the one that the tagged scheme fixes give
/// `MalformedAuthenticator`; an assigned tag with no registered scheme gives
/// `UnsupportedScheme`, whatever follows it. What is returned is well formed.
pub fn decode(wire: &[u8]) -> (out: Result<AuthenticatorInfo, CodecError>)
    ensures
        match out {
            Ok(auth) => spec_decode(wire@) == Ok::<AuthenticatorView, CodecError>(auth@)
                && auth@.well_formed(),
            Err(e) => spec_decode(wire@) == Err::<AuthenticatorView, CodecError>(e),
        },
{
    if wire.len() == 0 {
        return Err(CodecError::MalformedAuthenticator);
    }
    let tag: u8 = wire[0];
    if tag >= ASSIGNED_TAGS {
        return Err(CodecError::MalformedAuthenticator);
    }
    match Scheme::from_tag(tag) {
        None => Err(CodecError::UnsupportedScheme),
        Some(scheme) => {
            let signature_end: usize = 1 + scheme.signature_len();
            if wire.len() != signature_end + scheme.public_key_len() {
                return Err(CodecError::MalformedAuthenticator);
            }
            let signature = copy_range(wire, 1, signature_end);
            let public_key = if scheme.is_recoverable() {
                None
            } else {
                Some(copy_range(wire, signature_end, wire.len()))
            };
            Ok(AuthenticatorInfo { scheme, signature, public_key })
        },
    }
}

/// Encodes an authenticator: the scheme's tag, the signature, and the public
/// key where there is one.
pub fn encode(auth: &AuthenticatorInfo) -> (wire: Vec<u8>)
    ensures
        wire@ == spec_encode(auth@),
{
    let mut wire: Vec<u8> = Vec::new();
    wire.push(auth.scheme.tag());
    append(&mut wire, auth.signature.as_slice());
    match &auth.public_key {
        Some(key) => {
            append(&mut wire, key.as_slice());
        },
        None => {},
    }
    assert(wire@ =~= spec_encode(auth@));
    wire
}

/// Encoding a well-formed authenticator and decoding the bytes gives the
/// authenticator back.
pub proof fn lemma_decode_inverts_encode(auth: AuthenticatorView)
    requires
        auth.well_formed(),
    ensures
        spec_decode(spec_encode(auth)) == Ok::<AuthenticatorView, CodecError>(auth),
{
    let wire = spec_encode(auth);
    let decoded = spec_split(auth.scheme, wire);
    let signature_end = 1 + auth.scheme.spec_signature_len() as int;
    assert(wire[0] == auth.scheme.spec_tag());
    assert(wire.subrange(1, signature_end) =~= auth.signature);
    if !auth.scheme.spec_is_recoverable() {
        assert(wire.subrange(signature_end, wire.len() as int) =~= auth.public_key->0);
    }
    assert(decoded.public_key == auth.public_key);
}

/// Whatever decodes is well formed, and encoding it gives the decoded bytes
/// back: no two byte strings decode to the same authenticator.
pub proof fn lemma_encode_inverts_decode(wire: Seq<u8>)
    requires
        spec_decode(wire) is Ok,
    ensures
        spec_decode(wire)->Ok_0.well_formed(),
        spec_encode(spec_decode(wire)->Ok_0) == wire,
{
    let auth = spec_decode(wire)->Ok_0;
    assert(spec_encode(auth) =~= wire);
}

} // verus!
