//! Session identifiers.

use vstd::prelude::*;

verus! {

/// The four bits of a UUID that hold its version, and the two that hold
/// its variant.
pub const VERSION_AND_VARIANT: u128 = 0x0000_0000_0000_f000_c000_0000_0000_0000u128;

/// Version 4 (random) in the version bits, and the variant of RFC 9562 in
/// the variant bits.
pub const RANDOM_RFC: u128 = 0x0000_0000_0000_4000_8000_0000_0000_0000u128;

/// Whether `bits` are those of a random (version 4) UUID.
pub open spec fn is_random_uuid(bits: u128) -> bool {
    bits & VERSION_AND_VARIANT == RANDOM_RFC
}

/// Draws a random UUID with `uuid::Uuid::new_v4` and packs it into an
/// integer with `Uuid::as_u128`. Which identifier comes back is left open;
/// the contract only claims the version and variant bits that `new_v4`
/// always sets. `new_v4` panics where the system has no random source.
#[verifier::external_body]
fn random_uuid_bits() -> (bits: u128)
    ensures
        is_random_uuid(bits),
{
    uuid::Uuid::new_v4().as_u128()
}

/// The key of one slot. Identifiers are compared and copied freely; a new
/// one is drawn for every registration.
#[derive(Debug, Clone, Copy, PartialEq, Eq, Hash, Structural)]
pub struct SessionId(pub u128);

impl View for SessionId {
    type V = u128;

    open spec fn view(&self) -> u128 {
        self.0
    }
}

impl SessionId {
    /// A new random identifier.
    pub fn fresh() -> (id: SessionId)
        ensures
            is_random_uuid(id@),
    {
        SessionId(random_uuid_bits())
    }

    /// The identifier with the given bits.
    pub fn from_u128(bits: u128) -> (id: SessionId)
        ensures
            id@ == bits,
    {
        SessionId(bits)
    }

    /// The bits of this identifier.
    pub fn as_u128(&self) -> (bits: u128)
        ensures
            bits == self@,
    {
        self.0
    }
}

} // verus!
