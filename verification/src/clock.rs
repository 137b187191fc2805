//! The one place where the engine reads the wall clock.
//!
//! Everything that depends on the current time takes it as an argument
//! (`..._at` functions); the convenience entry points obtain it here.

use vstd::prelude::*;

verus! {

/// Relies on chrono::Utc::now: the current wall-clock time, returned as
/// non-leap seconds since the Unix epoch. Nothing can be promised of the
/// value itself, and the underlying call assumes a host clock at or after
/// the Unix epoch.
#[verifier::external_body]
pub fn now_timestamp() -> i64 {
    chrono::Utc::now().timestamp()
}

/// The current time clamped to the unsigned seconds the cache stamps
/// entries with; a clock reading before the epoch counts as zero.
pub fn now_unix_seconds() -> u64 {
    let t = now_timestamp();
    if t < 0 {
        0
    } else {
        t as u64
    }
}

} // verus!
