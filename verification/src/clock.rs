//! The one place the library reads the wall clock.

use vstd::prelude::*;

verus! {

/// Relies on chrono::Utc::now: wall-clock milliseconds since the Unix epoch.
/// Nothing is assumed of the value; callers treat timestamps as opaque.
#[verifier::external_body]
pub fn now_millis() -> u64 {
    chrono::Utc::now().timestamp_millis() as u64
}

} // verus!
