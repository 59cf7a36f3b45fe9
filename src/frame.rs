use vstd::prelude::*;

verus! {

/// Milliseconds between two frame-rate reports.
pub const REPORT_PERIOD_MS: u64 = 1000;

/// Counts frames and says when a second is over, so that the frame rate can be shown.
pub struct FrameCounter {
    pub frame_count: u32,
    pub next_report_ms: u64,
}

pub open spec fn plus_period(t: u64) -> u64 {
    if t as int + REPORT_PERIOD_MS <= u64::MAX {
        (t + REPORT_PERIOD_MS) as u64
    } else {
        u64::MAX
    }
}

impl FrameCounter {
    /// No frame counted yet; the first report is due one period after `start_ms`.
    pub fn new(start_ms: u64) -> (f: FrameCounter)
        ensures
            f.frame_count == 0,
            f.next_report_ms == plus_period(start_ms),
    {
        FrameCounter { frame_count: 0, next_report_ms: start_ms.saturating_add(REPORT_PERIOD_MS) }
    }

    /// Counts a frame drawn at `now_ms`. Once the report is due, returns the number of
    /// frames counted since the last one, starts counting again, and sets the next report
    /// one period after `now_ms`; before that, returns `None`.
    pub fn frame(&mut self, now_ms: u64) -> (report: Option<u32>)
        ensures
            ({
                let count = if old(self).frame_count < u32::MAX {
                    (old(self).frame_count + 1) as u32
                } else {
                    u32::MAX
                };
                if now_ms >= old(self).next_report_ms {
                    &&& report == Some(count)
                    &&& final(self).frame_count == 0
                    &&& final(self).next_report_ms == plus_period(now_ms)
                } else {
                    &&& report.is_none()
                    &&& final(self).frame_count == count
                    &&& final(self).next_report_ms == old(self).next_report_ms
                }
            }),
    {
        self.frame_count = self.frame_count.saturating_add(1);
        if now_ms >= self.next_report_ms {
            let count = self.frame_count;
            self.frame_count = 0;
            self.next_report_ms = now_ms.saturating_add(REPORT_PERIOD_MS);
            Some(count)
        } else {
            None
        }
    }
}

} // verus!
