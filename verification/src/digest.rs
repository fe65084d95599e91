//! Digest-algorithm selection for the CA key's algorithm family.

use vstd::prelude::*;

verus! {

/// Algorithm family of a private key, as the key store reports it.
#[derive(Clone, Copy, Debug, PartialEq, Eq, Structural)]
pub enum KeyKind {
    Rsa,
    Ec,
    Dsa,
    Ed25519,
    Ed448,
    Other,
}

/// An external digest applied to certificate data before signing.
#[derive(Clone, Copy, Debug, PartialEq, Eq, Structural)]
pub enum DigestKind {
    Sha256,
}

/// How certificate data is hashed before signing: with an explicit external
/// digest, or not at all because the signature scheme hashes internally.
#[derive(Clone, Copy, Debug, PartialEq, Eq, Structural)]
pub enum DigestSelection {
    External(DigestKind),
    SelfHashing,
}

/// The digest each key family requires. Edwards-curve schemes hash
/// internally and must be given no external digest; every other supported
/// family is pre-hashed with SHA-256. `None` means the family is not
/// supported for signing.
pub open spec fn spec_select_digest(kind: KeyKind) -> Option<DigestSelection> {
    match kind {
        KeyKind::Rsa => Some(DigestSelection::External(DigestKind::Sha256)),
        KeyKind::Ec => Some(DigestSelection::External(DigestKind::Sha256)),
        KeyKind::Dsa => Some(DigestSelection::External(DigestKind::Sha256)),
        KeyKind::Ed25519 => Some(DigestSelection::SelfHashing),
        KeyKind::Ed448 => Some(DigestSelection::SelfHashing),
        KeyKind::Other => None,
    }
}

/// Chooses the digest for the CA key's family; an unsupported family is
/// rejected here rather than signed wrongly.
pub fn select_digest(kind: KeyKind) -> (r: Option<DigestSelection>)
    ensures
        r == spec_select_digest(kind),
{
    match kind {
        KeyKind::Rsa => Some(DigestSelection::External(DigestKind::Sha256)),
        KeyKind::Ec => Some(DigestSelection::External(DigestKind::Sha256)),
        KeyKind::Dsa => Some(DigestSelection::External(DigestKind::Sha256)),
        KeyKind::Ed25519 => Some(DigestSelection::SelfHashing),
        KeyKind::Ed448 => Some(DigestSelection::SelfHashing),
        KeyKind::Other => None,
    }
}

/// A self-hashing scheme is never handed an external digest, and a family
/// that needs an external digest is never signed without one.
pub proof fn lemma_digest_selection_sound(kind: KeyKind)
    ensures
        kind is Ed25519 || kind is Ed448 ==> spec_select_digest(kind)
            == Some(DigestSelection::SelfHashing),
        kind is Rsa || kind is Ec || kind is Dsa ==> (spec_select_digest(kind) matches Some(s)
            && s is External),
        kind is Other ==> spec_select_digest(kind) is None,
{
}

} // verus!
