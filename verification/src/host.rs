//! What the library takes from the machine it runs on: the time of day and
//! fresh identifiers.

use vstd::prelude::*;

verus! {

/// The current time in milliseconds since the Unix epoch, from
/// `chrono::Utc::now()` and `DateTime::timestamp_millis`. Nothing is claimed
/// of the value: it is whatever the system clock says. The call fails if that
/// clock stands before the epoch.
#[verifier::external_body]
pub(crate) fn now_millis() -> i64 {
    chrono::Utc::now().timestamp_millis()
}

/// A fresh random identifier in its text form, from `uuid::Uuid::new_v4()`.
/// Nothing is claimed of the value: it depends on the system's source of
/// randomness. The call fails if that source gives nothing.
#[verifier::external_body]
pub(crate) fn fresh_id() -> String {
    uuid::Uuid::new_v4().to_string()
}

} // verus!
