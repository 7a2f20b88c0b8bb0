//! The wall clock.

use vstd::prelude::*;

verus! {

/// `chrono::Utc::now` and `DateTime::timestamp_millis`: the current time in
/// milliseconds since the Unix epoch. Nothing is promised of the value.
#[verifier::external_body]
pub(crate) fn now_millis() -> i64 {
    chrono::Utc::now().timestamp_millis()
}

/// The whole seconds since the Unix epoch at `millis` milliseconds since then.
pub open spec fn seconds_of(millis: i64) -> i64 {
    (millis / 1000) as i64
}

/// The whole seconds since the Unix epoch at `millis` milliseconds since then.
pub fn whole_seconds(millis: i64) -> (s: i64)
    ensures
        s == seconds_of(millis),
{
    if millis >= 0 {
        millis / 1000
    } else {
        let back: i64 = -(millis + 1);
        -(back / 1000) - 1
    }
}

} // verus!
