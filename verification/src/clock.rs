//! The wall clock and fresh identifiers, the only inputs here that depend
//! on when or where the code runs.

use vstd::prelude::*;

verus! {

/// Milliseconds since the Unix epoch.
pub type Timestamp = i64;

/// Calls `chrono::Utc::now().timestamp_millis()`. The result depends on the
/// time of the call, so nothing is stated of it.
#[verifier::external_body]
pub(crate) fn now_millis() -> (t: Timestamp) {
    chrono::Utc::now().timestamp_millis()
}

/// Calls `uuid::Uuid::new_v4()` and returns its 128-bit value. The value is
/// random, so nothing is stated of it.
#[verifier::external_body]
pub(crate) fn fresh_id() -> (id: u128) {
    uuid::Uuid::new_v4().as_u128()
}

/// The system clock's time type, carried through opaquely.
#[verifier::external_type_specification]
#[verifier::external_body]
pub struct ExSystemTime(std::time::SystemTime);

/// Calls `std::time::SystemTime::now`. The result depends on the time of
/// the call, so nothing is stated of it.
#[verifier::external_body]
pub(crate) fn system_now() -> (t: std::time::SystemTime) {
    std::time::SystemTime::now()
}

/// Calls `SystemTime::duration_since(UNIX_EPOCH)` and converts the
/// duration to whole seconds (`Duration::as_secs`); `None` when `t` lies
/// before the epoch, which is when std documents the call to fail. How many
/// seconds depends on `t`, which Verus cannot see, so nothing more is
/// stated.
#[verifier::external_body]
pub(crate) fn secs_since_epoch(t: &std::time::SystemTime) -> (r: Option<u64>) {
    match t.duration_since(std::time::UNIX_EPOCH) {
        Ok(d) => Some(d.as_secs()),
        Err(_) => None,
    }
}

} // verus!
