//! The two facts the library takes from its surroundings: fresh random
//! identifiers and the current wall-clock time.

use vstd::prelude::*;

verus! {

/// The 128 bits of a version-4 (random) UUID: its version field is 4 and its
/// variant bits are `10`.
pub open spec fn is_random_uuid(id: u128) -> bool {
    &&& (id >> 76u128) & 0xfu128 == 4u128
    &&& (id >> 62u128) & 0x3u128 == 2u128
}

/// Draws a fresh random identifier with `uuid::Uuid::new_v4` and returns its
/// 128 bits (`Uuid::as_u128`).
///
/// Claimed: the bits are those of a version-4 UUID, as `new_v4` sets its
/// version and variant fields. The other bits are random, so nothing more is
/// stated about them.
#[verifier::external_body]
pub(crate) fn fresh_identifier() -> (id: u128)
    ensures
        is_random_uuid(id),
{
    uuid::Uuid::new_v4().as_u128()
}

/// Reads the wall clock with `chrono::Utc::now` and returns milliseconds since
/// the Unix epoch (`DateTime::timestamp_millis`).
///
/// The value depends on the time of the call, so nothing is stated about it.
#[verifier::external_body]
pub(crate) fn unix_time_millis() -> (millis: i64) {
    chrono::Utc::now().timestamp_millis()
}

} // verus!
