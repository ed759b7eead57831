use vstd::prelude::*;

verus! {

/// Microseconds in one second.
pub const ONE_SECOND: u64 = 1_000_000;

/// Longest measuring interval, in microseconds.
pub const INTERVAL_LIMIT: u64 = 0x4000_0000_0000_0000;

/// Counts frames and, once per interval, turns the count into a rate.
pub struct FpsCounter {
    pub frame_ctr: u32,
    pub fps: u32,
    pub update_interval: u64,
    pub elapsed: u64,
}

/// Frames per second for `frames` frames in `elapsed` microseconds, capped
/// at `u32::MAX`.
pub open spec fn rate(frames: int, elapsed: int) -> int {
    if frames * ONE_SECOND / elapsed > u32::MAX {
        u32::MAX as int
    } else {
        frames * ONE_SECOND / elapsed
    }
}

impl FpsCounter {
    pub open spec fn wf(self) -> bool {
        0 < self.update_interval <= INTERVAL_LIMIT && self.elapsed < self.update_interval
    }

    /// A counter that measures over `update_interval` microseconds.
    pub fn new(update_interval: u64) -> (r: FpsCounter)
        ensures
            r.frame_ctr == 0,
            r.fps == 0,
            r.update_interval == update_interval,
            r.elapsed == 0,
    {
        FpsCounter { frame_ctr: 0, fps: 0, update_interval, elapsed: 0 }
    }

    /// A counter that measures over one second.
    pub fn default() -> (r: FpsCounter)
        ensures
            r.wf(),
            r.frame_ctr == 0,
            r.fps == 0,
            r.update_interval == ONE_SECOND,
            r.elapsed == 0,
    {
        FpsCounter::new(ONE_SECOND)
    }

    /// Counts one frame that came `dt` microseconds after the previous one;
    /// when the interval is over, the rate is taken and counting restarts.
    pub fn on_update(&mut self, dt: u64)
        requires
            old(self).wf(),
            dt <= INTERVAL_LIMIT,
        ensures
            final(self).wf(),
            final(self).update_interval == old(self).update_interval,
            ({
                let frames = if old(self).frame_ctr < u32::MAX {
                    old(self).frame_ctr + 1
                } else {
                    u32::MAX as int
                };
                let elapsed = old(self).elapsed + dt;
                if elapsed >= old(self).update_interval {
                    &&& final(self).fps == rate(frames, elapsed)
                    &&& final(self).frame_ctr == 0
                    &&& final(self).elapsed == 0
                } else {
                    &&& final(self).fps == old(self).fps
                    &&& final(self).frame_ctr == frames
                    &&& final(self).elapsed == elapsed
                }
            }),
    {
        if self.frame_ctr < u32::MAX {
            self.frame_ctr = self.frame_ctr + 1;
        }
        let elapsed = self.elapsed + dt;
        if elapsed >= self.update_interval {
            let per_second = (self.frame_ctr as u64) * ONE_SECOND / elapsed;
            self.fps = if per_second > u32::MAX as u64 {
                u32::MAX
            } else {
                per_second as u32
            };
            self.frame_ctr = 0;
            self.elapsed = 0;
        } else {
            self.elapsed = elapsed;
        }
    }
}

} // verus!
