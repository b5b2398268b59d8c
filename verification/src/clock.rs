//! What the store draws from outside itself: the present instant and fresh
//! identifiers.

use vstd::prelude::*;

verus! {

/// The bits that mark a 128-bit value as a random (version 4) UUID in the
/// RFC 9562 layout: the version nibble and the two variant bits.
pub const UUID_V4_MASK: u128 = 0x0000_0000_0000_f000_c000_0000_0000_0000;

/// The value of those bits in every random UUID.
pub const UUID_V4_BITS: u128 = 0x0000_0000_0000_4000_8000_0000_0000_0000;

/// Reads `chrono::Utc::now()` as microseconds since the Unix epoch
/// (`DateTime::timestamp_micros`). chrono takes the time elapsed since the
/// epoch and panics where the system clock stands before it, so every
/// value that comes back is non-negative; nothing else is claimed.
#[verifier::external_body]
pub(crate) fn now_micros() -> (now: i64)
    ensures
        0 <= now,
{
    chrono::Utc::now().naive_utc().and_utc().timestamp_micros()
}

/// Draws `uuid::Uuid::new_v4()` and reads it with `Uuid::as_u128`. The
/// crate fills the value with random bits and then sets the version nibble
/// to 4 and the variant bits to `10`; only those bits are claimed. It
/// panics where the system has no random source.
#[verifier::external_body]
pub(crate) fn fresh_id() -> (id: u128)
    ensures
        id & UUID_V4_MASK == UUID_V4_BITS,
{
    uuid::Uuid::new_v4().as_u128()
}

} // verus!
