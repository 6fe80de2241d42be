//! Frame pacing: the loop schedules one wake-up per frame at a fixed target
//! rate by cooperative `wait until` deadlines, not by measuring frame cost.

use vstd::prelude::*;

verus! {

/// The fixed target frame rate of the render loop.
pub const TARGET_FPS: u64 = 60;

/// Nanoseconds in one second.
pub const NANOS_PER_SECOND: u64 = 1_000_000_000;

/// The inter-frame wait budget for `TARGET_FPS`, in nanoseconds
/// (integer division, so the fractional nanosecond is dropped).
pub const FRAME_BUDGET_NS: u64 = 16_666_666;

/// Wait budget between frames for a target rate, in nanoseconds, with
/// integer-division semantics: the budget is rounded down.
pub fn frame_budget_ns(target_fps: u64) -> (r: u64)
    requires
        target_fps > 0,
    ensures
        r == NANOS_PER_SECOND / target_fps,
{
    NANOS_PER_SECOND / target_fps
}

/// The budget constant agrees with the formula for the fixed target rate.
pub proof fn lemma_frame_budget_at_target_fps()
    ensures
        NANOS_PER_SECOND / TARGET_FPS == FRAME_BUDGET_NS,
{
}

/// Deadline of the next frame: the current instant plus the wait budget,
/// both as nanosecond counts on the same monotonic clock.
pub fn next_frame_deadline(now_ns: u64) -> (r: u64)
    requires
        now_ns + FRAME_BUDGET_NS <= u64::MAX,
    ensures
        r == now_ns + FRAME_BUDGET_NS,
{
    now_ns + FRAME_BUDGET_NS
}

} // verus!
