//! The wall clock.

use vstd::prelude::*;
use crate::models::Timestamp;

verus! {

/// `chrono::Utc::now`, read as seconds since the epoch and the nanoseconds
/// past that second. Nothing is claimed of the time that comes back.
#[verifier::external_body]
pub(crate) fn utc_now() -> (now: Timestamp) {
    let now = chrono::Utc::now();
    Timestamp { seconds: now.timestamp(), nanos: now.timestamp_subsec_nanos() }
}

} // verus!
