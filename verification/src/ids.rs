//! Generation of identifiers for new records.
//!
//! New records are keyed by a version 7 UUID so that identifiers are
//! time-ordered and natural insertion order is preserved in scans. The
//! library carries an identifier as its 128-bit integer value; only the
//! generation itself is delegated to the `uuid` crate.

use vstd::prelude::*;

verus! {

/// Whether `id` carries the version and variant bits of a version 7,
/// RFC-variant UUID: the version nibble (bits 76..80) is 7 and the two
/// variant bits (bits 62..64) are `0b10`.
pub open spec fn is_version7(id: u128) -> bool {
    &&& (id >> 76) & 0xf == 7
    &&& (id >> 62) & 0x3 == 2
}

/// Relies on `uuid::Uuid::now_v7`: a freshly generated version 7 UUID from
/// the current timestamp and random bits, returned as its 128-bit value.
/// The result depends on the clock and on entropy, so nothing is promised
/// beyond the fixed version and variant bits.
#[verifier::external_body]
pub fn new_uuid() -> (r: u128)
    ensures
        is_version7(r),
{
    uuid::Uuid::now_v7().as_u128()
}

} // verus!
