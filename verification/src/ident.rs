//! Derivation of the fixed-width asset key from a compound asset identity.

use vstd::prelude::*;

verus! {

/// A token identifier within an asset collection.
pub type TokenId = String;

/// The 64-bit value that `derive_key` returns for a collection identifier
/// and a token identifier. The hash itself is left unstated: the library
/// relies only on the value being a function of the two identifiers alone.
pub uninterp spec fn key_of(collection: Seq<char>, token: Seq<char>) -> u64;

/// Relies on `std::hash::DefaultHasher`: `DefaultHasher::new` starts every
/// hasher in the same fixed state (documented to be the same for all hashers
/// created by `new`), and `Hash for String` and `Hasher::finish` are pure,
/// so hashing the same pair of strings always yields the same 64-bit value,
/// within and across processes of one build.
#[verifier::external_body]
fn derive_key(collection: &String, token: &String) -> (r: u64)
    ensures
        r == key_of(collection@, token@),
{
    let mut hasher = std::hash::DefaultHasher::new();
    std::hash::Hash::hash(collection, &mut hasher);
    std::hash::Hash::hash(token, &mut hasher);
    std::hash::Hasher::finish(&hasher)
}

/// The fixed-width lookup key standing in for a compound asset identity.
///
/// The derivation is not collision-resistant: two distinct identities may
/// map to the same key, and the registry does not defend against that.
#[derive(Clone, Copy, Debug, PartialEq, Eq, Structural)]
pub struct NFTId(pub u64);

impl View for NFTId {
    type V = u64;

    open spec fn view(&self) -> u64 {
        self.0
    }
}

impl NFTId {
    /// Derives the asset key for a collection identifier and a token
    /// identifier.
    pub fn new(nft: &String, token_id: &TokenId) -> (r: Self)
        ensures
            r@ == key_of(nft@, token_id@),
    {
        NFTId(derive_key(nft, token_id))
    }
}

/// Law: key derivation is deterministic. Equal collection and token
/// identifiers always yield the identical asset key, in every call; distinct
/// pairs, by contrast, are not guaranteed distinct keys — a collision merges
/// the two identities and is accepted, not defended against.
pub proof fn lemma_derive_deterministic(c1: Seq<char>, t1: Seq<char>, c2: Seq<char>, t2: Seq<char>)
    requires
        c1 == c2,
        t1 == t2,
    ensures
        key_of(c1, t1) == key_of(c2, t2),
{
}

} // verus!
