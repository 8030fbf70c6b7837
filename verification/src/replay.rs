//! The replay guard: a payload is fresh while its age lies within the window.

use crate::error::{ApiError, BadRequestReason};
use vstd::prelude::*;

verus! {

/// A timestamp is fresh at `now` if it is not in the future and at most
/// `window` seconds old. The boundary `now - ts == window` is fresh.
pub open spec fn is_fresh(ts: int, now: int, window: int) -> bool {
    0 <= now - ts <= window
}

/// What the guard answers: nothing for a fresh timestamp, a malformed-request
/// error for any other.
pub open spec fn replay_verdict(ts: int, now: int, window: int) -> Result<(), ApiError> {
    if is_fresh(ts, now, window) {
        Ok(())
    } else {
        Err(ApiError::BadRequest(BadRequestReason::StaleTimestamp))
    }
}

/// Checks a payload's timestamp against the clock and the replay window.
pub fn validate(ts: i64, now: i64, window: i64) -> (r: Result<(), ApiError>)
    ensures
        r == replay_verdict(ts as int, now as int, window as int),
{
    if ts > now {
        return Err(ApiError::BadRequest(BadRequestReason::StaleTimestamp));
    }
    let age: i128 = now as i128 - ts as i128;
    if age > window as i128 {
        Err(ApiError::BadRequest(BadRequestReason::StaleTimestamp))
    } else {
        Ok(())
    }
}

/// A timestamp from the future, or one older than the window, is refused as
/// a malformed request, never as a failed authentication.
pub proof fn lemma_outside_window_is_bad_request(ts: int, now: int, window: int)
    requires
        now - ts < 0 || now - ts > window,
    ensures
        replay_verdict(ts, now, window) is Err,
        replay_verdict(ts, now, window)->Err_0.spec_status() == 400,
{
}

/// The window is inclusive: a payload exactly `window` seconds old passes,
/// one a second older does not.
pub proof fn lemma_window_boundary(ts: int, now: int, window: int)
    requires
        window >= 0,
    ensures
        now - ts == window ==> replay_verdict(ts, now, window) is Ok,
        now - ts == window + 1 ==> replay_verdict(ts, now, window) is Err,
{
}

/// A window below zero admits nothing.
pub proof fn lemma_negative_window_admits_nothing(ts: int, now: int, window: int)
    requires
        window < 0,
    ensures
        replay_verdict(ts, now, window) is Err,
{
}

} // verus!
