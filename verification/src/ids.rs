//! Fresh identifiers for commands and dispatchers.

use vstd::prelude::*;

verus! {

/// Relies on `uuid::Uuid::new_v4` for a fresh random version-4 UUID from
/// the operating system's RNG, handed on as its 128-bit value. The value
/// is random: nothing is promised of it, and callers must not rely on
/// two calls differing.
#[verifier::external_body]
pub(crate) fn fresh_id() -> u128 {
    uuid::Uuid::new_v4().as_u128()
}

} // verus!
