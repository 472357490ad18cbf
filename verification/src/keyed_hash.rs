//! The keyed hash that authenticates a cookie.
//!
//! Which function hashes is decided by the version and the algorithm of the
//! cookie. One pair is defined, so the choice is total: a byte that stands
//! for anything else is refused when the tags are parsed, before any hash is
//! asked for.

use crate::tags::{Algorithm, Version};
use siphasher::sip::SipHasher24;
use vstd::prelude::*;

verus! {

/// SipHash-2-4 of `message` under the key of sixteen zero bytes, as the
/// `siphasher` crate computes it.
pub uninterp spec fn siphash24(message: Seq<u8>) -> u64;

/// Calls `SipHasher24::new().hash(message)` of the `siphasher` crate. The hash
/// is a function of the bytes alone, which is all that is claimed here: the
/// result is the value that `siphash24` names.
#[verifier::external_body]
fn siphash24_of(message: &[u8]) -> (tag: u64)
    ensures
        tag == siphash24(message@),
{
    SipHasher24::new().hash(message)
}

/// The byte strings that `secrets` holds, in their order.
pub open spec fn secrets_view(secrets: &[&[u8]]) -> Seq<Seq<u8>> {
    Seq::new(secrets@.len(), |i: int| secrets@[i]@)
}

/// The hash of `message` for a cookie of the given version and algorithm.
pub open spec fn keyed_hash(version: Version, algorithm: Algorithm, message: Seq<u8>) -> u64 {
    match (version, algorithm) {
        (Version::One, Algorithm::SipHash24) => siphash24(message),
    }
}

/// Computes the hash of `message` with the function that the version and
/// the algorithm select.
pub fn compute_keyed_hash(version: Version, algorithm: Algorithm, message: &[u8]) -> (tag: u64)
    ensures
        tag == keyed_hash(version, algorithm, message@),
{
    match (version, algorithm) {
        (Version::One, Algorithm::SipHash24) => siphash24_of(message),
    }
}

} // verus!
