//! The wall clock, read as microseconds since the Unix epoch.
use std::time::{SystemTime, UNIX_EPOCH};
use vstd::prelude::*;

verus! {

/// Relies on `std::time::SystemTime::now`: the current wall-clock time as microseconds since
/// the Unix epoch (0 when the clock reads earlier than the epoch). Nothing is promised of
/// the value: the clock may jump.
#[verifier::external_body]
pub fn now_utc() -> u64 {
    match SystemTime::now().duration_since(UNIX_EPOCH) {
        Ok(d) => d.as_micros() as u64,
        Err(_) => 0,
    }
}

} // verus!
