//! What a node takes from its surroundings: the time and fresh identifiers.

use vstd::prelude::*;

verus! {

/// The length of an identifier made by [`fresh_post_id`].
pub const POST_ID_LEN: usize = 36;

/// A new random identifier for a post.
///
/// Trusted: calls `uuid::Uuid::new_v4` and writes the result with its
/// `Display`, the hyphenated form of 36 characters. Which identifier comes
/// out is left open. The call fails only where the system hands out no
/// random bytes.
#[verifier::external_body]
pub(crate) fn fresh_post_id() -> (r: String)
    ensures
        r@.len() == POST_ID_LEN,
{
    uuid::Uuid::new_v4().to_string()
}

/// The current time in seconds since the Unix epoch.
///
/// Trusted: calls `chrono::Utc::now` and `DateTime::timestamp`. Nothing is
/// claimed of the result. The call fails only where the system clock stands
/// before the epoch.
#[verifier::external_body]
pub(crate) fn unix_now() -> (r: i64) {
    chrono::Utc::now().timestamp()
}

} // verus!
