//! Frame-rate bookkeeping over the timestamps of frame-done signals.

use vstd::prelude::*;

verus! {

/// Milliseconds after which the frames counted so far are reported.
pub const REPORT_INTERVAL_MS: u32 = 5000;

/// The frames seen since `base_time`, not counting the one at `base_time`.
#[derive(Clone, Copy, Debug, PartialEq, Eq)]
pub struct FrameDone {
    pub base_time: Option<u32>,
    pub count: u32,
}

/// What one reporting interval saw: so many frames in so many milliseconds.
#[derive(Clone, Copy, Debug, PartialEq, Eq)]
pub struct FpsReport {
    pub frames: u32,
    pub elapsed_ms: u32,
}

impl FrameDone {
    /// Whether a frame at `time` can be counted: time has not run backwards
    /// and the count has room for one more.
    pub open spec fn admits(self, time: u32) -> bool {
        self.base_time matches Some(base) ==> base <= time && self.count < u32::MAX
    }

    /// Whether a frame at `time` closes the reporting interval.
    pub open spec fn closes_interval(self, time: u32) -> bool {
        self.base_time matches Some(base) && time - base >= REPORT_INTERVAL_MS
    }

    /// The bookkeeping after a frame at `time`. The first frame, and every
    /// frame that closes an interval, starts a new count at its own time.
    pub open spec fn after(self, time: u32) -> FrameDone {
        if self.base_time is None || self.closes_interval(time) {
            FrameDone { base_time: Some(time), count: 0 }
        } else {
            FrameDone { base_time: self.base_time, count: (self.count + 1) as u32 }
        }
    }

    /// What a frame at `time` reports: the interval it closes, if it closes
    /// one.
    pub open spec fn report(self, time: u32) -> Option<FpsReport> {
        if self.closes_interval(time) {
            Some(
                FpsReport {
                    frames: (self.count + 1) as u32,
                    elapsed_ms: (time - self.base_time.unwrap()) as u32,
                },
            )
        } else {
            None
        }
    }

    /// Bookkeeping that has seen no frame yet.
    pub fn new() -> (stats: FrameDone)
        ensures
            stats == (FrameDone { base_time: None, count: 0 }),
    {
        FrameDone { base_time: None, count: 0 }
    }

    /// Counts the frame that was done at `time`, in milliseconds.
    pub fn record(&self, time: u32) -> (outcome: (FrameDone, Option<FpsReport>))
        requires
            self.admits(time),
        ensures
            outcome.0 == self.after(time),
            outcome.1 == self.report(time),
    {
        match self.base_time {
            None => (FrameDone { base_time: Some(time), count: 0 }, None),
            Some(base) => {
                if time - base >= REPORT_INTERVAL_MS {
                    (
                        FrameDone { base_time: Some(time), count: 0 },
                        Some(FpsReport { frames: self.count + 1, elapsed_ms: time - base }),
                    )
                } else {
                    (FrameDone { base_time: Some(base), count: self.count + 1 }, None)
                }
            },
        }
    }
}

} // verus!
