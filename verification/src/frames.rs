use vstd::prelude::*;

verus! {

/// Nanoseconds between two reports of the average frame time.
pub const REPORT_INTERVAL_NANOS: u64 = 1_000_000_000;

/// Frames drawn since the last report of the average frame time, and when that
/// report was made. Times are nanoseconds from a fixed start.
#[derive(Clone, Copy, Debug, PartialEq, Eq, Structural)]
pub struct FrameStats {
    pub frame_count: u32,
    pub last_print: u64,
}

/// What is reported: the time since the previous report and the frames drawn
/// in it. The average frame time is `elapsed / frames`, which has no value when
/// `frames` is 0.
#[derive(Clone, Copy, Debug, PartialEq, Eq, Structural)]
pub struct FrameReport {
    pub elapsed: u64,
    pub frames: u32,
}

/// Nanoseconds from `earlier` to `later`, or 0 when `earlier` is the later one.
pub open spec fn elapsed_between(earlier: u64, later: u64) -> u64 {
    if later >= earlier {
        (later - earlier) as u64
    } else {
        0
    }
}

impl FrameStats {
    /// The report that a frame begun at `now` makes, if any: one is due when
    /// more than `REPORT_INTERVAL_NANOS` passed since the last.
    pub open spec fn report_at(self, now: u64) -> Option<FrameReport> {
        let e = elapsed_between(self.last_print, now);
        if e > REPORT_INTERVAL_NANOS {
            Some(FrameReport { elapsed: e, frames: self.frame_count })
        } else {
            None
        }
    }

    /// The bookkeeping after a frame begun at `now`: a due report starts a new
    /// count at `now`; otherwise nothing changes.
    pub open spec fn after_begin(self, now: u64) -> FrameStats {
        if self.report_at(now) is Some {
            FrameStats { frame_count: 0, last_print: now }
        } else {
            self
        }
    }

    /// No frame drawn yet, the count starting at `start`.
    pub fn new(start: u64) -> (s: FrameStats)
        ensures
            s.frame_count == 0,
            s.last_print == start,
    {
        FrameStats { frame_count: 0, last_print: start }
    }

    /// Starts a frame at `now`, returning the report that is due, if any.
    pub fn begin_frame(&mut self, now: u64) -> (r: Option<FrameReport>)
        ensures
            r == old(self).report_at(now),
            *final(self) == old(self).after_begin(now),
    {
        let elapsed = if now >= self.last_print {
            now - self.last_print
        } else {
            0
        };
        if elapsed > REPORT_INTERVAL_NANOS {
            let report = FrameReport { elapsed, frames: self.frame_count };
            self.frame_count = 0;
            self.last_print = now;
            Some(report)
        } else {
            None
        }
    }

    /// Counts a drawn frame.
    pub fn end_frame(&mut self)
        requires
            old(self).frame_count < u32::MAX,
        ensures
            final(self).frame_count == old(self).frame_count + 1,
            final(self).last_print == old(self).last_print,
    {
        self.frame_count = self.frame_count + 1;
    }
}

/// After a report, none is made again until more than
/// `REPORT_INTERVAL_NANOS` have passed.
pub proof fn lemma_reports_are_spaced(s: FrameStats, now: u64, later: u64)
    requires
        s.report_at(now) is Some,
        now <= later,
        later - now <= REPORT_INTERVAL_NANOS,
    ensures
        s.after_begin(now).report_at(later) is None,
{
}

/// A report counts the frames ended since the count began; it counts none
/// when the first frame after the start, or after a report, begins more
/// than `REPORT_INTERVAL_NANOS` later.
pub proof fn lemma_report_counts_frames(start: u64, frames: u32, now: u64)
    requires
        now > start,
        now - start > REPORT_INTERVAL_NANOS,
    ensures
        (FrameStats { frame_count: frames, last_print: start }).report_at(now) == Some(
            FrameReport { elapsed: (now - start) as u64, frames },
        ),
        (FrameStats { frame_count: 0, last_print: start }).report_at(now)->Some_0.frames == 0,
{
}

/// Without a due report, beginning a frame changes nothing.
pub proof fn lemma_quiet_begin_keeps_count(s: FrameStats, now: u64)
    requires
        elapsed_between(s.last_print, now) <= REPORT_INTERVAL_NANOS,
    ensures
        s.report_at(now) is None,
        s.after_begin(now) == s,
{
}

} // verus!
