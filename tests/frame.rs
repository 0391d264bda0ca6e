use triangle_renderer::frame::{
    AcquireOutcome, FrameAction, FrameScheduler, InFlight, Phase, SubmitOutcome,
};

fn after_clean_frame() -> FrameScheduler {
    let mut s = FrameScheduler::new();
    assert!(!s.begin_tick());
    let a = s.on_acquire(AcquireOutcome::Acquired { image_index: 0, suboptimal: false }, 2);
    assert_eq!(a, FrameAction::Submit { image_index: 0, join_prior: false });
    s.on_submit(SubmitOutcome::Presented);
    assert!(!s.end_tick());
    s
}

#[test]
fn clean_frame_keeps_its_future() {
    let s = after_clean_frame();
    assert_eq!(s.in_flight, InFlight::Pending);
    assert_eq!(s.phase, Phase::Idle);
    assert!(!s.recreate_requested);
}

#[test]
fn second_frame_joins_the_first() {
    let mut s = after_clean_frame();
    assert!(s.begin_tick());
    let a = s.on_acquire(AcquireOutcome::Acquired { image_index: 1, suboptimal: false }, 2);
    assert_eq!(a, FrameAction::Submit { image_index: 1, join_prior: true });
    assert_eq!(s.in_flight, InFlight::Empty);
}

#[test]
fn out_of_date_acquire_skips_and_recreates() {
    let mut s = after_clean_frame();
    s.begin_tick();
    let a = s.on_acquire(AcquireOutcome::OutOfDate, 2);
    assert_eq!(a, FrameAction::Skip);
    assert!(s.recreate_requested);
    assert_eq!(s.in_flight, InFlight::Completed);
    assert!(s.end_tick());
    assert!(!s.recreate_requested);
}

#[test]
fn failed_acquire_drops_the_future() {
    let mut s = after_clean_frame();
    s.begin_tick();
    assert_eq!(s.on_acquire(AcquireOutcome::Failed, 2), FrameAction::Skip);
    assert_eq!(s.in_flight, InFlight::Empty);
    assert!(!s.end_tick());
}

#[test]
fn image_without_command_buffer_is_skipped() {
    let mut s = FrameScheduler::new();
    s.begin_tick();
    let a = s.on_acquire(AcquireOutcome::Acquired { image_index: 2, suboptimal: false }, 2);
    assert_eq!(a, FrameAction::Skip);
    assert!(s.end_tick());
}

#[test]
fn suboptimal_acquire_recreates_after_clean_present() {
    let mut s = FrameScheduler::new();
    s.begin_tick();
    s.on_acquire(AcquireOutcome::Acquired { image_index: 0, suboptimal: true }, 3);
    s.on_submit(SubmitOutcome::Presented);
    assert_eq!(s.in_flight, InFlight::Pending);
    assert!(s.recreate_requested);
    assert!(s.end_tick());
}

#[test]
fn out_of_date_flush_recreates() {
    let mut s = FrameScheduler::new();
    s.begin_tick();
    s.on_acquire(AcquireOutcome::Acquired { image_index: 0, suboptimal: false }, 3);
    s.on_submit(SubmitOutcome::OutOfDate);
    assert_eq!(s.in_flight, InFlight::Completed);
    assert!(s.end_tick());
}

#[test]
fn failed_flush_drops_the_future() {
    let mut s = FrameScheduler::new();
    s.begin_tick();
    s.on_acquire(AcquireOutcome::Acquired { image_index: 0, suboptimal: false }, 3);
    s.on_submit(SubmitOutcome::Failed);
    assert_eq!(s.in_flight, InFlight::Empty);
    assert!(!s.end_tick());
}

#[test]
fn resize_mid_loop_recreates_after_clean_frame() {
    let mut s = after_clean_frame();
    s.on_resize();
    assert!(s.begin_tick());
    s.on_acquire(AcquireOutcome::Acquired { image_index: 1, suboptimal: false }, 2);
    s.on_submit(SubmitOutcome::Presented);
    assert!(s.end_tick());
    assert!(!s.recreate_requested);
}
