//! The current time, read by `chrono`.

use vstd::prelude::*;
use crate::types::timestamp::Timestamp;

verus! {

/// Calls `chrono::Utc::now` and takes the result apart with `timestamp` and
/// `timestamp_subsec_nanos`. Nothing is stated of the result: it is the time
/// of the call.
#[verifier::external_body]
pub(crate) fn now() -> Timestamp {
    let now = chrono::Utc::now();
    Timestamp { secs: now.timestamp(), nanos: now.timestamp_subsec_nanos() }
}

} // verus!
