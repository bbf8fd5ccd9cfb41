//! Account addresses and their derivation from public keys.

use crate::bytes::append;
use crate::crypto::{sha256, spec_sha256};
use crate::scheme::Scheme;
use vstd::prelude::*;

verus! {

/// Number of bytes in an address.
pub const ADDRESS_LEN: usize = 32;

/// A 32-byte account address.
#[derive(Clone, Copy, Debug)]
pub struct Address {
    pub bytes: [u8; 32],
}

impl View for Address {
    type V = Seq<u8>;

    open spec fn view(&self) -> Seq<u8> {
        self.bytes@
    }
}

/// The bytes that are hashed into an address: the key family of the scheme,
/// then the public key.
pub open spec fn spec_address_preimage(scheme: Scheme, public_key: Seq<u8>) -> Seq<u8> {
    seq![scheme.spec_key_family()] + public_key
}

/// The address of the account that a public key controls under a scheme.
pub open spec fn spec_derive_address(scheme: Scheme, public_key: Seq<u8>) -> Seq<u8> {
    spec_sha256(spec_address_preimage(scheme, public_key))
}

impl Address {
    /// The address made of the given bytes.
    pub fn from_bytes(bytes: [u8; 32]) -> (address: Address)
        ensures
            address@ == bytes@,
            address.bytes == bytes,
    {
        Address { bytes }
    }

    /// Whether two addresses are the same.
    pub fn equals(&self, other: &Address) -> (same: bool)
        ensures
            same == (self@ == other@),
            same == (*self == *other),
    {
        let same = crate::bytes::bytes_eq(self.bytes.as_slice(), other.bytes.as_slice());
        proof {
            if same {
                assert(self.bytes =~= other.bytes);
            }
        }
        same
    }

    /// Derives the address of the account that `public_key` controls under
    /// `scheme`: the SHA-256 digest of the scheme's key family followed by
    /// the key.
    pub fn derive(scheme: Scheme, public_key: &[u8]) -> (address: Address)
        ensures
            address@ == spec_derive_address(scheme, public_key@),
    {
        let mut preimage: Vec<u8> = Vec::new();
        preimage.push(scheme.key_family());
        append(&mut preimage, public_key);
        assert(preimage@ =~= spec_address_preimage(scheme, public_key@));
        Address { bytes: sha256(preimage.as_slice()) }
    }
}

/// An address has exactly 32 bytes, and two addresses with the same bytes
/// are the same address.
pub proof fn lemma_address_is_its_bytes(a: Address, b: Address)
    ensures
        a@.len() == ADDRESS_LEN,
        a@ == b@ <==> a == b,
{
    if a@ == b@ {
        assert(a.bytes =~= b.bytes);
    }
}

/// A key recovered from a recoverable ECDSA signature has the address that
/// the same key has when it is supplied explicitly under plain ECDSA.
pub proof fn lemma_recovered_key_has_explicit_address(public_key: Seq<u8>)
    ensures
        spec_derive_address(Scheme::EcdsaRecoverable, public_key) == spec_derive_address(
            Scheme::Ecdsa,
            public_key,
        ),
{
}

} // verus!
