//! Account identities.
//!
//! An identity is a 128-bit number drawn at random when the account is
//! created. It is the number that a version-4 UUID packs into its 16 bytes,
//! most significant byte first.

use uuid::Uuid;
use vstd::prelude::*;

verus! {

/// The bits of an identity that hold the UUID version and variant.
pub const MARKED_BITS: u128 = 0x0000_0000_0000_f000_c000_0000_0000_0000;

/// What those bits hold in a randomly drawn identity: version 4, and the
/// variant of RFC 9562.
pub const RANDOM_MARK: u128 = 0x0000_0000_0000_4000_8000_0000_0000_0000;

/// `id` carries the marks of a randomly drawn identity.
pub open spec fn is_random_identity(id: u128) -> bool {
    id & MARKED_BITS == RANDOM_MARK
}

/// Draws a new identity with `uuid::Uuid::new_v4` and reads it as a number
/// with `Uuid::as_u128`.
///
/// Trusted: the 122 random bits may be anything; the version and variant bits
/// are the ones that `new_v4` sets on every UUID it returns. `new_v4` panics
/// where the operating system hands out no random bytes.
#[verifier::external_body]
pub(crate) fn fresh_identity() -> (id: u128)
    ensures
        is_random_identity(id),
{
    Uuid::new_v4().as_u128()
}

} // verus!
