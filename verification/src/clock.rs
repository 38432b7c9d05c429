//! Time as the engine sees it: whole milliseconds on one clock.

use vstd::prelude::*;

verus! {

/// The time that passed from the reading `then` to the reading `now`. A
/// clock that went backwards counts as no time at all.
pub open spec fn elapsed(now: u64, then: u64) -> int {
    if now >= then {
        now - then
    } else {
        0
    }
}

/// Whether at least `interval` has passed from `then` to `now`.
pub open spec fn interval_over(now: u64, then: u64, interval: u64) -> bool {
    elapsed(now, then) >= interval
}

pub fn elapsed_millis(now: u64, then: u64) -> (e: u64)
    ensures
        e == elapsed(now, then),
{
    if now >= then {
        now - then
    } else {
        0
    }
}

pub fn is_interval_over(now: u64, then: u64, interval: u64) -> (over: bool)
    ensures
        over == interval_over(now, then, interval),
{
    elapsed_millis(now, then) >= interval
}

/// Reads the system clock with `std::time::SystemTime::elapsed` on the Unix
/// epoch and hands back the time since then in whole milliseconds, zero
/// where the clock stands before the epoch. Nothing is claimed of the
/// value: it is whatever the clock says.
#[verifier::external_body]
pub(crate) fn now_millis() -> u64 {
    match std::time::UNIX_EPOCH.elapsed() {
        Ok(d) => d.as_millis() as u64,
        Err(_) => 0,
    }
}

} // verus!
