use vk_present::scheduler::{FrameAction, FrameEvent, FrameSync, Phase, SchedulerState};
use vk_present::settings::{DrawContext, RenderLoopSettings};

fn run(s: &mut SchedulerState, events: &[FrameEvent]) -> Vec<FrameAction> {
    events.iter().map(|e| s.step(*e)).collect()
}

#[test]
fn starts_idle() {
    let s = SchedulerState::new();
    assert_eq!(s.phase, Phase::Idle);
    assert!(!s.resize_pending);
    assert!(!s.stop_requested);
    assert_eq!(s.previous_frame, FrameSync::Completed);
    assert!(!s.is_stopped());
}

#[test]
fn full_frame_cycle() {
    let mut s = SchedulerState::new();
    let actions = run(
        &mut s,
        &[
            FrameEvent::FrameStart,
            FrameEvent::Released,
            FrameEvent::Acquired { image: 1, suboptimal: false },
            FrameEvent::Recorded,
            FrameEvent::Submitted { signal: 7 },
        ],
    );
    assert_eq!(
        actions,
        vec![
            FrameAction::ReleaseFinished,
            FrameAction::AcquireImage,
            FrameAction::DrawAndRecord { image: 1 },
            FrameAction::Submit { image: 1, wait_on: FrameSync::Completed },
            FrameAction::Nothing,
        ]
    );
    assert_eq!(s.phase, Phase::Idle);
    assert_eq!(s.previous_frame, FrameSync::Pending(7));
    // the next submission waits on the previous frame's signal
    let next = run(
        &mut s,
        &[
            FrameEvent::FrameStart,
            FrameEvent::Released,
            FrameEvent::Acquired { image: 0, suboptimal: false },
            FrameEvent::Recorded,
        ],
    );
    assert_eq!(next[3], FrameAction::Submit { image: 0, wait_on: FrameSync::Pending(7) });
}

#[test]
fn out_of_date_acquire_skips_then_recreates() {
    let mut s = SchedulerState::new();
    run(&mut s, &[FrameEvent::FrameStart, FrameEvent::Released]);
    assert_eq!(s.phase, Phase::Acquiring);
    assert_eq!(s.step(FrameEvent::AcquireOutOfDate), FrameAction::SkipFrame);
    assert_eq!(s.phase, Phase::Idle);
    assert!(s.resize_pending);
    assert_eq!(s.step(FrameEvent::FrameStart), FrameAction::ReleaseFinished);
    assert_eq!(s.step(FrameEvent::Released), FrameAction::RecreateChain);
    assert_eq!(s.step(FrameEvent::Recreated), FrameAction::AcquireImage);
    assert!(!s.resize_pending);
    assert_eq!(s.phase, Phase::Acquiring);
}

#[test]
fn unsupported_dimensions_keep_resize_pending() {
    let mut s = SchedulerState::new();
    s.step(FrameEvent::Resized);
    let actions = run(&mut s, &[FrameEvent::FrameStart, FrameEvent::Released, FrameEvent::RecreateUnsupported]);
    assert_eq!(actions, vec![FrameAction::ReleaseFinished, FrameAction::RecreateChain, FrameAction::SkipFrame]);
    assert!(s.resize_pending);
    assert_eq!(s.phase, Phase::Idle);
}

#[test]
fn suboptimal_proceeds_and_flags_rebuild() {
    let mut s = SchedulerState::new();
    run(&mut s, &[FrameEvent::FrameStart, FrameEvent::Released]);
    assert_eq!(
        s.step(FrameEvent::Acquired { image: 2, suboptimal: true }),
        FrameAction::DrawAndRecord { image: 2 }
    );
    assert!(s.resize_pending);
}

#[test]
fn submit_out_of_date_resets_signal() {
    let mut s = SchedulerState::new();
    run(
        &mut s,
        &[
            FrameEvent::FrameStart,
            FrameEvent::Released,
            FrameEvent::Acquired { image: 0, suboptimal: false },
            FrameEvent::Recorded,
            FrameEvent::Submitted { signal: 3 },
            FrameEvent::FrameStart,
            FrameEvent::Released,
            FrameEvent::Acquired { image: 1, suboptimal: false },
            FrameEvent::Recorded,
        ],
    );
    assert_eq!(s.step(FrameEvent::SubmitOutOfDate), FrameAction::SkipFrame);
    assert_eq!(s.previous_frame, FrameSync::Completed);
    assert!(s.resize_pending);
}

#[test]
fn other_submit_failure_is_reported_and_absorbed() {
    let mut s = SchedulerState::new();
    run(
        &mut s,
        &[
            FrameEvent::FrameStart,
            FrameEvent::Released,
            FrameEvent::Acquired { image: 0, suboptimal: false },
            FrameEvent::Recorded,
        ],
    );
    assert_eq!(s.step(FrameEvent::SubmitFailed), FrameAction::ReportFailure);
    assert_eq!(s.previous_frame, FrameSync::Completed);
    assert!(!s.resize_pending);
    assert_eq!(s.phase, Phase::Idle);
}

#[test]
fn close_tears_down_once_at_next_iteration() {
    let mut s = SchedulerState::new();
    assert_eq!(s.step(FrameEvent::CloseRequested), FrameAction::Nothing);
    assert_eq!(s.step(FrameEvent::FrameStart), FrameAction::Teardown);
    assert!(s.is_stopped());
    assert_eq!(s.step(FrameEvent::FrameStart), FrameAction::Nothing);
    assert_eq!(s.step(FrameEvent::RecreateFailed), FrameAction::Nothing);
}

#[test]
fn fatal_error_tears_down() {
    let mut s = SchedulerState::new();
    run(&mut s, &[FrameEvent::FrameStart, FrameEvent::Released]);
    assert_eq!(s.step(FrameEvent::AcquireFailed), FrameAction::Teardown);
    assert!(s.is_stopped());

    let mut t = SchedulerState::new();
    run(&mut t, &[FrameEvent::Resized, FrameEvent::FrameStart, FrameEvent::Released]);
    assert_eq!(t.step(FrameEvent::RecreateFailed), FrameAction::Teardown);
    assert!(t.is_stopped());
}

#[test]
fn events_out_of_phase_are_ignored() {
    let mut s = SchedulerState::new();
    let before = s;
    assert_eq!(s.step(FrameEvent::Recorded), FrameAction::Nothing);
    assert_eq!(s.step(FrameEvent::Submitted { signal: 1 }), FrameAction::Nothing);
    assert_eq!(s.step(FrameEvent::AcquireOutOfDate), FrameAction::Nothing);
    assert_eq!(s, before);
}

#[test]
fn default_settings() {
    let settings = RenderLoopSettings::default();
    assert_eq!(settings.window_title(), "");
    assert_eq!(settings.window_size(), (500, 500));
    let custom = RenderLoopSettings::new("demo".to_string(), (640, 480));
    assert_eq!(custom.window_title(), "demo");
    assert_eq!(custom.window_size(), (640, 480));
    let _ = DrawContext::new();
}
