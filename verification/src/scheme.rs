//! The closed set of signature schemes, their wire tags and the byte widths
//! that each scheme fixes.

use vstd::prelude::*;

verus! {

/// Number of tags that the wire format assigns: tags `0` up to, not
/// including, this bound. A larger tag is unknown to the format.
pub const ASSIGNED_TAGS: u8 = 5;

/// A signature scheme under which an authenticator can be verified.
///
/// The set is closed: a tag of the wire format without a variant here has no
/// verification routine, and nothing stands in for it.
#[derive(Clone, Copy, Debug, PartialEq, Eq, Structural)]
pub enum Scheme {
    /// Ed25519 with an explicit 32-byte public key.
    Ed25519,
    /// ECDSA over secp256k1 with an explicit SEC1-compressed public key.
    Ecdsa,
    /// ECDSA over secp256k1 whose signature carries a recovery identifier in
    /// place of a public key.
    EcdsaRecoverable,
    /// Schnorr over secp256k1 with an explicit 32-byte x-only public key.
    Schnorr,
}

impl Scheme {
    /// The tag that stands for this scheme on the wire.
    pub open spec fn spec_tag(self) -> u8 {
        match self {
            Scheme::Ed25519 => 0,
            Scheme::Ecdsa => 2,
            Scheme::EcdsaRecoverable => 3,
            Scheme::Schnorr => 4,
        }
    }

    /// The scheme registered under a tag, if there is one. Tag `1` is assigned
    /// by the wire format to multi-key Ed25519, which has no entry here.
    pub open spec fn spec_from_tag(tag: u8) -> Option<Scheme> {
        if tag == 0 {
            Some(Scheme::Ed25519)
        } else if tag == 2 {
            Some(Scheme::Ecdsa)
        } else if tag == 3 {
            Some(Scheme::EcdsaRecoverable)
        } else if tag == 4 {
            Some(Scheme::Schnorr)
        } else {
            None
        }
    }

    /// Whether the signer's key is recovered from the signature instead of
    /// being supplied next to it.
    pub open spec fn spec_is_recoverable(self) -> bool {
        self == Scheme::EcdsaRecoverable
    }

    /// The exact number of signature bytes under this scheme.
    pub open spec fn spec_signature_len(self) -> nat {
        match self {
            Scheme::Ed25519 => 64,
            Scheme::Ecdsa => 64,
            Scheme::EcdsaRecoverable => 65,
            Scheme::Schnorr => 64,
        }
    }

    /// The exact number of public-key bytes an authenticator carries under
    /// this scheme; none for a recoverable scheme.
    pub open spec fn spec_public_key_len(self) -> nat {
        match self {
            Scheme::Ed25519 => 32,
            Scheme::Ecdsa => 33,
            Scheme::EcdsaRecoverable => 0,
            Scheme::Schnorr => 32,
        }
    }

    /// The byte that separates key families when an address is derived. The
    /// two ECDSA schemes share one family: they use the same keys.
    pub open spec fn spec_key_family(self) -> u8 {
        match self {
            Scheme::Ed25519 => 0,
            Scheme::Ecdsa => 2,
            Scheme::EcdsaRecoverable => 2,
            Scheme::Schnorr => 4,
        }
    }

    /// The tag that stands for this scheme on the wire.
    pub fn tag(self) -> (tag: u8)
        ensures
            tag == self.spec_tag(),
            tag < ASSIGNED_TAGS,
    {
        match self {
            Scheme::Ed25519 => 0,
            Scheme::Ecdsa => 2,
            Scheme::EcdsaRecoverable => 3,
            Scheme::Schnorr => 4,
        }
    }

    /// Looks a tag up in the registry.
    pub fn from_tag(tag: u8) -> (found: Option<Scheme>)
        ensures
            found == Scheme::spec_from_tag(tag),
    {
        if tag == 0 {
            Some(Scheme::Ed25519)
        } else if tag == 2 {
            Some(Scheme::Ecdsa)
        } else if tag == 3 {
            Some(Scheme::EcdsaRecoverable)
        } else if tag == 4 {
            Some(Scheme::Schnorr)
        } else {
            None
        }
    }

    /// Whether the signer's key is recovered from the signature.
    pub fn is_recoverable(self) -> (recoverable: bool)
        ensures
            recoverable == self.spec_is_recoverable(),
    {
        match self {
            Scheme::EcdsaRecoverable => true,
            _ => false,
        }
    }

    /// The exact number of signature bytes under this scheme.
    pub fn signature_len(self) -> (len: usize)
        ensures
            len == self.spec_signature_len(),
    {
        match self {
            Scheme::EcdsaRecoverable => 65,
            _ => 64,
        }
    }

    /// The exact number of public-key bytes an authenticator carries under
    /// this scheme.
    pub fn public_key_len(self) -> (len: usize)
        ensures
            len == self.spec_public_key_len(),
    {
        match self {
            Scheme::Ed25519 => 32,
            Scheme::Ecdsa => 33,
            Scheme::EcdsaRecoverable => 0,
            Scheme::Schnorr => 32,
        }
    }

    /// The byte that separates key families when an address is derived.
    pub fn key_family(self) -> (family: u8)
        ensures
            family == self.spec_key_family(),
    {
        match self {
            Scheme::Ed25519 => 0,
            Scheme::Ecdsa => 2,
            Scheme::EcdsaRecoverable => 2,
            Scheme::Schnorr => 4,
        }
    }
}

/// A tag names a scheme exactly when the scheme's tag is that tag: the
/// registry and the tags agree, and no two schemes share a tag.
pub proof fn lemma_tag_names_one_scheme(tag: u8, scheme: Scheme)
    ensures
        Scheme::spec_from_tag(tag) == Some(scheme) <==> scheme.spec_tag() == tag,
        Scheme::spec_from_tag(tag) is Some ==> tag < ASSIGNED_TAGS,
{
}

} // verus!
