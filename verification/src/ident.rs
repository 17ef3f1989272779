//! Identities of connections and shells.

use vstd::prelude::*;

verus! {

/// The bits of a 128-bit identifier that carry the UUID version and variant.
pub const VERSION_VARIANT_MASK: u128 = 0x0000_0000_0000_F000_C000_0000_0000_0000u128;

/// Version 4 (random) with the RFC 9562 variant.
pub const VERSION_VARIANT_RANDOM: u128 = 0x0000_0000_0000_4000_8000_0000_0000_0000u128;

/// Whether `id` has the shape of a random (version 4) UUID.
pub open spec fn is_random_uuid(id: u128) -> bool {
    id & VERSION_VARIANT_MASK == VERSION_VARIANT_RANDOM
}

/// Draws a new identifier from `uuid::Uuid::new_v4` and returns its 128 bits
/// as `uuid::Uuid::as_u128` packs them.
///
/// Trusted: the value comes from the operating system's random generator, so
/// nothing is claimed about it beyond the version and variant bits that
/// `new_v4` always sets.
#[verifier::external_body]
pub(crate) fn random_id() -> (id: u128)
    ensures
        is_random_uuid(id),
{
    uuid::Uuid::new_v4().as_u128()
}

/// The identity of one connection.
#[derive(Clone, Copy, Debug, PartialEq, Eq, Hash, Structural)]
pub struct ConnectionId {
    pub value: u128,
}

impl ConnectionId {
    /// A new identity, drawn at random.
    pub fn generate() -> (id: ConnectionId)
        ensures
            is_random_uuid(id.value),
    {
        ConnectionId { value: random_id() }
    }
}

} // verus!
