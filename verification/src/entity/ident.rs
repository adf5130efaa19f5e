//! Identifiers: 128-bit UUIDs held as integers.

use vstd::prelude::*;

verus! {

/// The bits of an identifier that hold its version and variant.
pub const VERSION_VARIANT_MASK: u128 = 0x0000_0000_0000_f000_c000_0000_0000_0000;

/// Version 4, variant RFC 4122.
pub const RANDOM_VERSION_VARIANT: u128 = 0x0000_0000_0000_4000_8000_0000_0000_0000;

/// Whether `id` is marked as a random (version 4) UUID.
pub open spec fn is_random_id(id: u128) -> bool {
    id & VERSION_VARIANT_MASK == RANDOM_VERSION_VARIANT
}

/// The hyphenated lower-case text of the UUID whose 128 bits are `id`.
pub uninterp spec fn hyphenated(id: u128) -> Seq<char>;

/// A new random identifier, made by `uuid::Uuid::new_v4` and read as an integer
/// with `Uuid::as_u128`.
///
/// Which identifier comes back is left open; it carries the version and variant
/// bits of a random UUID. `uuid` does not return where the operating system
/// gives it no random bytes.
#[verifier::external_body]
pub(crate) fn fresh_id() -> (r: u128)
    ensures
        is_random_id(r),
{
    uuid::Uuid::new_v4().as_u128()
}

/// The text of an identifier, as `Uuid::to_string` writes the UUID made by
/// `Uuid::from_u128`: five groups of hexadecimal digits separated by hyphens,
/// 36 characters in all.
#[verifier::external_body]
pub(crate) fn id_text(id: u128) -> (r: String)
    ensures
        r@ == hyphenated(id),
        r@.len() == 36,
{
    uuid::Uuid::from_u128(id).to_string()
}

} // verus!
