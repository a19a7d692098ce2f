//! Movement clock: turns elapsed real time into discrete grid steps.
//!
//! All times are whole milliseconds.

use vstd::prelude::*;

verus! {

/// Step interval at the start of a session.
pub const MAX_INTERVAL: u64 = 300;

/// Step interval once the speed ramp is complete.
pub const MIN_INTERVAL: u64 = 150;

/// Play time over which the interval shrinks from `MAX_INTERVAL` to `MIN_INTERVAL`.
pub const RAMP_DURATION: u64 = 60_000;

/// `MAX_INTERVAL - min(1, t / RAMP_DURATION) * (MAX_INTERVAL - MIN_INTERVAL)`,
/// rounded to whole milliseconds in favour of the longer interval.
pub open spec fn interval_spec(t: int) -> int {
    if t >= RAMP_DURATION {
        MIN_INTERVAL as int
    } else {
        MAX_INTERVAL - t * (MAX_INTERVAL - MIN_INTERVAL) / (RAMP_DURATION as int)
    }
}

/// The step interval after `elapsed` milliseconds of play.
pub fn interval(elapsed: u64) -> (r: u64)
    ensures
        r == interval_spec(elapsed as int),
        MIN_INTERVAL <= r <= MAX_INTERVAL,
{
    if elapsed >= RAMP_DURATION {
        MIN_INTERVAL
    } else {
        assert(elapsed * (MAX_INTERVAL - MIN_INTERVAL) <= RAMP_DURATION * (MAX_INTERVAL
            - MIN_INTERVAL)) by (nonlinear_arith)
            requires
                elapsed < RAMP_DURATION,
        ;
        let shrink = elapsed * (MAX_INTERVAL - MIN_INTERVAL) / RAMP_DURATION;
        MAX_INTERVAL - shrink
    }
}

/// The accumulator after a frame of `delta` milliseconds, saturating at `u64::MAX`.
pub open spec fn accumulate_spec(since_last_step: u64, delta: u64) -> u64 {
    if since_last_step + delta > u64::MAX {
        u64::MAX
    } else {
        (since_last_step + delta) as u64
    }
}

/// Adds a frame's `delta` to the time since the last step.
pub fn accumulate(since_last_step: u64, delta: u64) -> (r: u64)
    ensures
        r == accumulate_spec(since_last_step, delta),
{
    if since_last_step > u64::MAX - delta {
        u64::MAX
    } else {
        since_last_step + delta
    }
}

/// Whether a step is due: the accumulated time exceeds the current interval.
pub open spec fn step_due_spec(since_last_step: u64, elapsed: u64) -> bool {
    since_last_step > interval_spec(elapsed as int)
}

/// Whether a step is due after `since_last_step` milliseconds without one, at
/// `elapsed` milliseconds of play.
pub fn step_due(since_last_step: u64, elapsed: u64) -> (r: bool)
    ensures
        r == step_due_spec(since_last_step, elapsed),
{
    since_last_step > interval(elapsed)
}

/// Outcome of one frame on the movement clock.
#[derive(Clone, Copy, Debug, PartialEq, Eq, Structural)]
pub struct Tick {
    /// Whether the snake takes one step in this frame.
    pub step: bool,
    /// The time since the last step once the frame is over.
    pub since_last_step: u64,
}

/// Runs the clock for one frame of `delta` milliseconds: the delta is added to the
/// accumulator; if that exceeds the interval, exactly one step is taken and the
/// accumulator goes back to 0, dropping any overshoot.
pub fn advance(since_last_step: u64, delta: u64, elapsed: u64) -> (r: Tick)
    ensures
        r.step == step_due_spec(accumulate_spec(since_last_step, delta), elapsed),
        r.since_last_step == if r.step {
            0
        } else {
            accumulate_spec(since_last_step, delta)
        },
{
    let total = accumulate(since_last_step, delta);
    if step_due(total, elapsed) {
        Tick { step: true, since_last_step: 0 }
    } else {
        Tick { step: false, since_last_step: total }
    }
}

/// The interval starts at `MAX_INTERVAL`, stays at `MIN_INTERVAL` from
/// `RAMP_DURATION` on, and never grows as play time goes on.
pub proof fn lemma_interval_ramp(t1: int, t2: int)
    requires
        0 <= t1 <= t2,
    ensures
        interval_spec(0) == MAX_INTERVAL,
        t1 >= RAMP_DURATION ==> interval_spec(t1) == MIN_INTERVAL,
        interval_spec(t1) >= interval_spec(t2),
        MIN_INTERVAL <= interval_spec(t2) <= MAX_INTERVAL,
{
    let span = (MAX_INTERVAL - MIN_INTERVAL) as int;
    let ramp = RAMP_DURATION as int;
    if t2 < ramp {
        assert(t1 * span / ramp <= t2 * span / ramp) by (nonlinear_arith)
            requires
                0 <= t1 <= t2,
                span >= 0,
                ramp > 0,
        ;
    }
    if t1 < ramp {
        assert(t1 * span / ramp <= span) by (nonlinear_arith)
            requires
                0 <= t1 < ramp,
                span >= 0,
                ramp > 0,
        ;
    }
    if t2 < ramp {
        assert(t2 * span / ramp <= span) by (nonlinear_arith)
            requires
                0 <= t2 < ramp,
                span >= 0,
                ramp > 0,
        ;
        assert(t2 * span / ramp >= 0) by (nonlinear_arith)
            requires
                0 <= t2,
                span >= 0,
                ramp > 0,
        ;
    }
}

} // verus!
