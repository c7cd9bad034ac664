//! The wall clock, behind trusted wrappers. Time is environmental, so the
//! contracts promise nothing about the values; every function that consumes
//! a reading takes it as an argument and is verified for all of them.

use vstd::prelude::*;

verus! {

/// Relies on `chrono::Utc::now` / `timestamp`: the current Unix time in
/// seconds. The reading is the machine's clock; nothing is promised of it.
#[verifier::external_body]
pub(crate) fn now_unix() -> u64 {
    chrono::Utc::now().timestamp() as u64
}

/// Relies on `chrono::Utc::now` / `to_rfc3339_opts`: the current instant as
/// RFC 3339 text with millisecond precision. Nothing is promised of it.
#[verifier::external_body]
pub(crate) fn now_rfc3339_millis() -> String {
    chrono::Utc::now().to_rfc3339_opts(chrono::SecondsFormat::Millis, true)
}

} // verus!
