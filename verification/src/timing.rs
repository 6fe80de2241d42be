//! Elapsed-time bookkeeping for the animation. The animation parameter is
//! a pure function of the time elapsed since startup, never of the frame
//! count, so frame-rate variance does not accumulate drift.

use vstd::prelude::*;

verus! {

/// One reading of the wall clock during a frame, paired with the elapsed
/// time it implies.
#[derive(Copy, Clone, Debug, PartialEq, Eq, Structural)]
pub struct FrameClock {
    /// Milliseconds since the Unix epoch at the reading.
    pub now_ms: i64,
    /// Milliseconds elapsed since the session origin, never negative.
    pub elapsed_ms: i64,
}

/// Relies on chrono::Utc::now and chrono::DateTime::timestamp_millis: the
/// current UTC wall-clock time as milliseconds since the Unix epoch.
/// Nothing is assumed of the value; the clock may move arbitrarily
/// between calls. Note that chrono itself aborts the process when the
/// host clock reads before the Unix epoch; no argument of this function
/// can exclude that environment state.
#[verifier::external_body]
fn utc_now_millis() -> i64 {
    chrono::Utc::now().timestamp_millis()
}

/// The session's time origin, read once at startup: the wall clock now,
/// clamped to the epoch so that the origin is never negative.
pub fn session_start_millis() -> (r: i64)
    ensures
        r >= 0,
{
    let now = utc_now_millis();
    if now >= 0 {
        now
    } else {
        0
    }
}

/// Elapsed milliseconds between the session origin and a clock reading.
/// A clock that moved backwards past the origin yields zero rather than a
/// negative elapsed time.
pub fn elapsed_millis(start_ms: i64, now_ms: i64) -> (r: i64)
    requires
        start_ms >= 0,
    ensures
        now_ms >= start_ms ==> r == now_ms - start_ms,
        now_ms < start_ms ==> r == 0,
        r >= 0,
{
    if now_ms >= start_ms {
        now_ms - start_ms
    } else {
        0
    }
}

/// Read the wall clock once and pair it with the elapsed time since the
/// session origin. Whatever instant the clock reports, the elapsed time
/// in the result is exactly the distance from the origin (zero if the
/// clock fell behind it).
pub fn read_frame_clock(start_ms: i64) -> (r: FrameClock)
    requires
        start_ms >= 0,
    ensures
        r.now_ms >= start_ms ==> r.elapsed_ms == r.now_ms - start_ms,
        r.now_ms < start_ms ==> r.elapsed_ms == 0,
        r.elapsed_ms >= 0,
{
    let now = utc_now_millis();
    let elapsed = elapsed_millis(start_ms, now);
    FrameClock { now_ms: now, elapsed_ms: elapsed }
}

} // verus!
