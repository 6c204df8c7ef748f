//! The clock of the simulation as the renderer sees it.

use vstd::prelude::*;

verus! {

/// A frame that took longer than this many milliseconds has missed the
/// display's refresh.
pub const STALLED_FRAME_MILLIS: u64 = 8;

/// Times are counted in nanoseconds since the start of the clock.
#[derive(Clone, Copy, Debug, PartialEq, Eq)]
pub struct Timing {
    /// The time of the last simulation tick.
    pub physics_tick: u64,
    /// After a stalled frame, the time at which the next frame is expected
    /// to be shown.
    pub next_vsync: Option<u64>,
    /// The time from one simulation tick to the next.
    pub delta_time: u64,
}

impl Default for Timing {
    /// The clock at its start, with no tick duration set yet.
    fn default() -> (r: Self)
        ensures
            r == (Timing { physics_tick: 0, next_vsync: None, delta_time: 0 }),
    {
        Self { physics_tick: 0, next_vsync: None, delta_time: 0 }
    }
}

impl Timing {
    /// The time for which a frame drawn at `now` is interpolated: the
    /// expected time of showing after a stall, and `now` otherwise.
    pub open spec fn interp_time_spec(self, now: u64) -> u64 {
        match self.next_vsync {
            Some(next_vsync) => next_vsync,
            None => now,
        }
    }

    /// The time for which a frame drawn at `now` is interpolated.
    pub fn interp_time(&self, now: u64) -> (r: u64)
        ensures
            r == self.interp_time_spec(now),
    {
        match self.next_vsync {
            Some(next_vsync) => next_vsync,
            None => now,
        }
    }

    /// The timing after a frame that started at `frame_start` and ended at
    /// `frame_end`, where frames are `frame_period` apart. A frame that took
    /// more than [`STALLED_FRAME_MILLIS`] whole milliseconds has stalled: the
    /// next frame is expected one period after its end. Otherwise an
    /// expectation that has passed is dropped.
    pub open spec fn after_frame(self, frame_start: u64, frame_end: u64, frame_period: u64) -> Timing {
        let taken: int = if frame_end > frame_start {
            frame_end - frame_start
        } else {
            0
        };
        if taken / 1_000_000 > STALLED_FRAME_MILLIS {
            let expected: int = if frame_end + frame_period > u64::MAX {
                u64::MAX as int
            } else {
                frame_end + frame_period
            };
            Timing { next_vsync: Some(expected as u64), ..self }
        } else {
            match self.next_vsync {
                Some(next_vsync) if frame_end > next_vsync => Timing { next_vsync: None, ..self },
                _ => self,
            }
        }
    }

    /// Takes note of a frame that was drawn, to recover the interpolation
    /// after a stall.
    pub fn end_frame(&mut self, frame_start: u64, frame_end: u64, frame_period: u64)
        ensures
            *final(self) == old(self).after_frame(frame_start, frame_end, frame_period),
    {
        let taken: u64 = if frame_end > frame_start {
            frame_end - frame_start
        } else {
            0
        };
        if taken / 1_000_000 > STALLED_FRAME_MILLIS {
            let expected: u64 = if frame_period > u64::MAX - frame_end {
                u64::MAX
            } else {
                frame_end + frame_period
            };
            self.next_vsync = Some(expected);
        } else {
            match self.next_vsync {
                Some(next_vsync) => {
                    if frame_end > next_vsync {
                        self.next_vsync = None;
                    }
                },
                None => {},
            }
        }
    }
}

} // verus!
