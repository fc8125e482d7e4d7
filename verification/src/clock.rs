//! Trusted boundary to the system clock, through chrono. The results depend
//! on the moment of the call, so the contracts state nothing about them: all
//! verified logic treats them as opaque values.

use vstd::prelude::*;

verus! {

/// Relies on chrono::Utc::now and chrono::DateTime::to_rfc3339: an RFC 3339
/// timestamp of the current time.
#[verifier::external_body]
pub(crate) fn now_rfc3339() -> String {
    chrono::Utc::now().to_rfc3339()
}

/// Relies on chrono::Utc::now and chrono::DateTime::timestamp_millis: the
/// current time as milliseconds since the Unix epoch.
#[verifier::external_body]
pub(crate) fn now_millis() -> i64 {
    chrono::Utc::now().timestamp_millis()
}

} // verus!
