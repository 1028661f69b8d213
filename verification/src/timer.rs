//! The frame clock: the time that passed between two frames.

use std::time::Duration;
use std::time::Instant;
use vstd::prelude::*;

verus! {

/// A reading of the monotonic clock. Nothing inside it is visible to the
/// proofs.
#[verifier::external_type_specification]
#[verifier::external_body]
pub struct ExInstant(Instant);

/// `Instant::now` reads the clock. Its result depends on when it is called,
/// so nothing is claimed of it.
pub assume_specification[ Instant::now ]() -> (now: Instant);

/// `Instant::saturating_duration_since` gives the time from `earlier` to
/// `later`, or zero where `earlier` is the later of the two. Nothing is
/// claimed of the duration.
pub assume_specification[ Instant::saturating_duration_since ](
    later: &Instant,
    earlier: Instant,
) -> (elapsed: Duration);

/// `Duration::as_nanos` gives the whole duration in nanoseconds. Nothing is
/// claimed of the number.
pub assume_specification[ Duration::as_nanos ](duration: &Duration) -> (nanos: u128);

/// Measures the time between consecutive frames.
#[derive(Clone, Copy, Debug)]
pub struct Timer {
    /// The clock reading of the last update, or of the creation.
    pub last_frame: Instant,
    /// Whether the timer has been updated since it was made.
    pub ticked: bool,
    /// Nanoseconds between the last two updates; 0 until the second update.
    pub delta: u64,
}

/// A count of nanoseconds as a `u64`, the largest `u64` standing for all
/// that do not fit.
pub open spec fn saturate(nanos: u128) -> u64 {
    if nanos > u64::MAX {
        u64::MAX
    } else {
        nanos as u64
    }
}

impl Timer {
    /// Starts the clock: no frame has been timed yet.
    pub fn new() -> (timer: Timer)
        ensures
            timer.delta == 0,
            !timer.ticked,
    {
        let now: Instant = Instant::now();
        Timer { last_frame: now, ticked: false, delta: 0 }
    }

    /// Takes `now` as the time of the current frame, `elapsed` nanoseconds
    /// after the previous one. The first frame has no previous one: its
    /// delta is zero.
    pub fn record(&mut self, now: Instant, elapsed: u128)
        ensures
            final(self).last_frame == now,
            final(self).ticked,
            final(self).delta == if old(self).ticked {
                saturate(elapsed)
            } else {
                0
            },
    {
        let delta: u64 = if !self.ticked {
            0
        } else if elapsed > u64::MAX as u128 {
            u64::MAX
        } else {
            elapsed as u64
        };
        self.last_frame = now;
        self.ticked = true;
        self.delta = delta;
    }

    /// Reads the clock and records the time since the previous update. What
    /// the clock says is not known beforehand; the delta of the first update
    /// is zero whatever it says.
    pub fn update(&mut self)
        ensures
            final(self).ticked,
            !old(self).ticked ==> final(self).delta == 0,
    {
        let now: Instant = Instant::now();
        let elapsed: Duration = now.saturating_duration_since(self.last_frame);
        let nanos: u128 = elapsed.as_nanos();
        self.record(now, nanos);
    }
}

} // verus!
