//! Time. A timestamp is a count of microseconds since the Unix epoch, UTC;
//! token expiry is counted in whole seconds since the same instant.

use vstd::prelude::*;

verus! {

/// Microseconds since 1970-01-01T00:00:00Z.
pub type Timestamp = i64;

/// `chrono::Utc::now`, read as microseconds since the epoch. The result is
/// the system clock's: nothing is claimed of it.
#[verifier::external_body]
pub(crate) fn now_micros() -> Timestamp {
    chrono::Utc::now().timestamp_micros()
}

/// `jsonwebtoken::get_current_timestamp`: whole seconds since the epoch, as
/// the system clock gives them. Nothing is claimed of the result.
#[verifier::external_body]
pub(crate) fn now_seconds() -> u64 {
    jsonwebtoken::get_current_timestamp()
}

} // verus!
