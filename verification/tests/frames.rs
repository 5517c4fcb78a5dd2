use voxels::frames::{FrameReport, FrameStats, REPORT_INTERVAL_NANOS};

#[test]
fn no_report_within_a_second() {
    let mut s = FrameStats::new(0);
    for t in [0u64, 1, 500_000_000, REPORT_INTERVAL_NANOS] {
        assert_eq!(s.begin_frame(t), None);
        s.end_frame();
    }
    assert_eq!(s.frame_count, 4);
    assert_eq!(s.last_print, 0);
}

#[test]
fn report_counts_frames_and_restarts() {
    let mut s = FrameStats::new(100);
    for t in [200u64, 300, 400] {
        assert_eq!(s.begin_frame(t), None);
        s.end_frame();
    }
    let r = s.begin_frame(100 + REPORT_INTERVAL_NANOS + 1);
    assert_eq!(r, Some(FrameReport { elapsed: REPORT_INTERVAL_NANOS + 1, frames: 3 }));
    assert_eq!(s, FrameStats { frame_count: 0, last_print: 100 + REPORT_INTERVAL_NANOS + 1 });
    s.end_frame();
    assert_eq!(s.begin_frame(100 + 2 * REPORT_INTERVAL_NANOS + 1), None);
    assert_eq!(s.begin_frame(100 + 2 * REPORT_INTERVAL_NANOS + 2), Some(FrameReport { elapsed: REPORT_INTERVAL_NANOS + 1, frames: 1 }));
}

#[test]
fn late_first_frame_reports_zero_frames() {
    let mut s = FrameStats::new(0);
    let r = s.begin_frame(3 * REPORT_INTERVAL_NANOS).expect("due");
    assert_eq!(r.frames, 0);
    assert_eq!(r.elapsed, 3 * REPORT_INTERVAL_NANOS);
}

#[test]
fn clock_before_last_report_counts_as_no_time() {
    let mut s = FrameStats::new(5 * REPORT_INTERVAL_NANOS);
    assert_eq!(s.begin_frame(0), None);
    assert_eq!(s, FrameStats::new(5 * REPORT_INTERVAL_NANOS));
}
