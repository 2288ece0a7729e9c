//! What a new record gets from outside: an identifier and the time.

use vstd::prelude::*;

verus! {

/// A fresh random identifier, from `uuid::Uuid::new_v4`. Trusted; nothing is
/// claimed of the number that comes back.
#[verifier::external_body]
pub(crate) fn fresh_id() -> u128 {
    uuid::Uuid::new_v4().as_u128()
}

/// The current time in microseconds since the Unix epoch, from
/// `chrono::Utc::now`. Trusted; nothing is claimed of the instant that comes
/// back.
#[verifier::external_body]
pub(crate) fn now_micros() -> i64 {
    chrono::Utc::now().timestamp_micros()
}

} // verus!
