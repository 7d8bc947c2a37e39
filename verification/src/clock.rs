use vstd::prelude::*;

verus! {

/// Relies on chrono::Utc::now: the current time in whole seconds since the
/// Unix epoch. Two calls may return any values; callers state what holds of
/// every outcome.
#[verifier::external_body]
pub fn now_seconds() -> (t: i64) {
    chrono::Utc::now().timestamp()
}

/// Relies on chrono::Local::now: the machine's current local date, written
/// as year-month-day.
#[verifier::external_body]
pub fn today_local_date() -> (d: String) {
    chrono::Local::now().format("%Y-%m-%d").to_string()
}

} // verus!
