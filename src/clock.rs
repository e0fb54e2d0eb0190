//! The wall clock, read through chrono. Nothing is promised of the time
//! returned: callers state what holds whatever it is.
use vstd::prelude::*;

verus! {

/// Relies on chrono's `Utc::now` and `DateTime::to_rfc3339`: the current
/// time written as RFC 3339 text.
#[verifier::external_body]
pub(crate) fn now_rfc3339() -> (r: String) {
    chrono::Utc::now().to_rfc3339()
}

/// Relies on chrono's `Utc::now` and `DateTime::format`: the current time
/// written as `YYYY-MM-DD HH:MM:SS UTC`, the stamp of run log entries.
#[verifier::external_body]
pub(crate) fn now_log_stamp() -> (r: String) {
    chrono::Utc::now().format("%Y-%m-%d %H:%M:%S UTC").to_string()
}

} // verus!
