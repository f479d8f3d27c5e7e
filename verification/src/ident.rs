//! Identifiers of to-do items: 128-bit values, drawn and parsed by the `uuid`
//! crate.

use uuid::Uuid;
use vstd::prelude::*;

verus! {

/// What `uuid::Uuid::parse_str` makes of `text`: the 128-bit value of the
/// identifier it reads, or `None` where it rejects the text.
pub uninterp spec fn parsed_uuid(text: Seq<char>) -> Option<u128>;

/// Bits of a 128-bit identifier that hold its version and variant.
pub const LAYOUT_MASK: u128 = 0x0000_0000_0000_f000_c000_0000_0000_0000u128;

/// Version 4 and the RFC variant, at the bits of `LAYOUT_MASK`.
pub const RANDOM_LAYOUT: u128 = 0x0000_0000_0000_4000_8000_0000_0000_0000u128;

/// Whether `id` has the layout of a random (version 4) identifier.
pub open spec fn is_random_id(id: u128) -> bool {
    id & LAYOUT_MASK == RANDOM_LAYOUT
}

/// Calls `uuid::Uuid::new_v4` and hands back the identifier as a number, most
/// significant byte first. Trusted: the value is random, and all that is
/// claimed of it is the version and variant that `new_v4` stamps on every
/// identifier it makes. `new_v4` panics when the operating system has no
/// random bytes to give.
#[verifier::external_body]
pub(crate) fn fresh_id() -> (id: u128)
    ensures
        is_random_id(id),
{
    Uuid::new_v4().as_u128()
}

/// Calls `uuid::Uuid::parse_str` on `text`. Trusted: the outcome depends on
/// the text alone, and is what `parsed_uuid` names.
#[verifier::external_body]
pub(crate) fn parse_uuid(text: &str) -> (parsed: Option<u128>)
    ensures
        parsed == parsed_uuid(text@),
{
    match Uuid::parse_str(text) {
        Ok(uuid) => Some(uuid.as_u128()),
        Err(_) => None,
    }
}

} // verus!
