use vstd::prelude::*;

verus! {

/// The fingerprint that std's `DefaultHasher` gives an identifier.
pub uninterp spec fn id_fingerprint(id: u128) -> u64;

/// Relies on `std::hash::DefaultHasher::new`, which is unkeyed, fed with the
/// identifier as a `uuid::Uuid`: the result depends on the identifier alone.
#[verifier::external_body]
fn default_hash_of_uuid(id: u128) -> (r: u64)
    ensures
        r == id_fingerprint(id),
{
    let mut s = std::collections::hash_map::DefaultHasher::new();
    std::hash::Hash::hash(&uuid::Uuid::from_u128(id), &mut s);
    std::hash::Hasher::finish(&s)
}

/// A compact, non-cryptographic fingerprint of a comment identifier, used
/// for display only.
pub fn calculate_hash(id: u128) -> (r: u64)
    ensures
        r == id_fingerprint(id),
{
    default_hash_of_uuid(id)
}

} // verus!
