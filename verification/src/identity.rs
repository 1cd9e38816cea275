//! Session identities.

use vstd::prelude::*;

verus! {

/// Whether `id`, read as the 128 bits of a UUID in big-endian order, carries
/// the version number 4 (random) and the RFC variant.
pub open spec fn is_random_identity(id: u128) -> bool {
    (id >> 76u128) & 0xfu128 == 4u128 && (id >> 62u128) & 0x3u128 == 2u128
}

/// A new session identity.
///
/// Calls `uuid::Uuid::new_v4` and returns the UUID as a 128-bit integer
/// (`Uuid::as_u128`). Trusted: the result has the version and variant bits
/// of a random UUID. Its other bits come from the operating system's random
/// source, so nothing more is claimed, and two calls may differ.
#[verifier::external_body]
pub(crate) fn fresh_identity() -> (id: u128)
    ensures
        is_random_identity(id),
{
    uuid::Uuid::new_v4().as_u128()
}

} // verus!
