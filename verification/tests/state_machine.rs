use cubevis::scheduler::{AcquireOutcome, FrameAction, RenderPlan, SurfaceStatus};
use cubevis::state::VisualizerState;
use cubevis::units::{DELTA_MAX_MICRO, DELTA_MIN_MICRO, MICRO};

fn configured(width: u32, height: u32) -> VisualizerState {
    let mut s = VisualizerState::new(width, height, 0);
    let reconfigure = s.resize(width, height);
    assert!(reconfigure);
    s
}

#[test]
fn initial_slots_are_all_written() {
    let s = VisualizerState::new(800, 600, 42);
    assert_eq!(s.bank.rotation_angle, 0);
    assert_eq!((s.bank.window_w, s.bank.window_h), (800, 600));
    assert_eq!(s.bank.time_micros, 0);
    assert_eq!((s.bank.camera_theta, s.bank.camera_delta), (0, 0));
    assert_eq!((s.bank.cuts_scale, s.bank.cuts_offset), (MICRO, 0));
    assert!(!s.bank.perspective);
    assert_eq!((s.bank.min_value, s.bank.max_value), (0, MICRO));
    assert_eq!(s.active_cube, 0);
    assert_eq!(s.sched.status, SurfaceStatus::Unconfigured);
}

#[test]
fn pan_scenario_normalized_travel() {
    // Press at (100,100) in an 800x600 viewport, move to (500,100): the
    // horizontal travel is 400 pixels = 1.0 of the half-extent, so the
    // previewed azimuth is committed + 2.0 radians.
    let mut s = configured(800, 600);
    s.cursor_move(100, 100);
    s.primary_press();
    s.cursor_move(500, 100);
    assert_eq!(s.ctrl.pending_dtheta, 2 * MICRO);
    assert_eq!(s.bank.camera_theta, 2 * MICRO);
    assert_eq!(s.bank.camera_delta, 0);
    s.primary_release();
    assert_eq!(s.ctrl.committed_theta, 2 * MICRO);
    assert_eq!(s.ctrl.committed_delta, 0);
}

#[test]
fn pan_release_clamps_elevation_high() {
    let mut s = configured(800, 600);
    s.cursor_move(100, 100);
    s.primary_press();
    // Drag very far down: the raw elevation delta is way past a quarter turn.
    s.cursor_move(100, 2_000_100);
    assert_eq!(s.bank.camera_delta, DELTA_MAX_MICRO);
    s.primary_release();
    assert_eq!(s.ctrl.committed_delta, DELTA_MAX_MICRO);
}

#[test]
fn pan_release_clamps_elevation_low() {
    let mut s = configured(800, 600);
    s.cursor_move(100, 2_000_100);
    s.primary_press();
    s.cursor_move(100, 100);
    assert_eq!(s.bank.camera_delta, DELTA_MIN_MICRO);
    s.primary_release();
    assert_eq!(s.ctrl.committed_delta, DELTA_MIN_MICRO);
}

#[test]
fn press_release_without_move_commits_zero_delta() {
    let mut s = configured(800, 600);
    s.cursor_move(250, 330);
    s.primary_press();
    s.primary_release();
    assert_eq!(s.ctrl.committed_theta, 0);
    assert_eq!(s.ctrl.committed_delta, 0);
    assert_eq!(s.bank.camera_theta, 0);
    assert_eq!(s.bank.camera_delta, 0);
}

#[test]
fn idle_move_touches_no_slot() {
    let mut s = configured(800, 600);
    let before = s.bank;
    s.cursor_move(123, 456);
    assert_eq!(s.bank, before);
    assert_eq!((s.ctrl.cursor_x, s.ctrl.cursor_y), (123, 456));
}

#[test]
fn abandoned_gesture_semantics() {
    // A primary press while adjusting is ignored: the adjusting gesture
    // keeps going and the camera is never touched.
    let mut s = configured(800, 600);
    s.cursor_move(100, 100);
    s.secondary_press();
    s.primary_press();
    s.cursor_move(500, 100);
    assert_eq!(s.bank.camera_theta, 0);
    assert_eq!(s.bank.cuts_offset, MICRO);
    // The primary release is not the matching release either: nothing commits.
    s.primary_release();
    assert_eq!(s.ctrl.committed_scale, MICRO);
    assert_eq!(s.ctrl.committed_offset, 0);
    s.secondary_release();
    assert_eq!(s.ctrl.committed_offset, MICRO);
}

#[test]
fn adjust_scenario_cuts_window() {
    let mut s = configured(800, 600);
    s.cursor_move(100, 100);
    s.secondary_press();
    // 400 pixels right: offset += 1.0; 300 pixels down: scale += 1.0.
    s.cursor_move(500, 400);
    assert_eq!(s.bank.cuts_scale, 2 * MICRO);
    assert_eq!(s.bank.cuts_offset, MICRO);
    s.secondary_release();
    assert_eq!(s.ctrl.committed_scale, 2 * MICRO);
    assert_eq!(s.ctrl.committed_offset, MICRO);
}

#[test]
fn update_is_idempotent() {
    let mut s = configured(800, 600);
    s.update(7_250_000);
    let first = (s.bank.rotation_angle, s.bank.time_micros);
    s.update(7_250_000);
    assert_eq!((s.bank.rotation_angle, s.bank.time_micros), first);
    assert_eq!(first, (7_250_000, 7_250_000));
}

#[test]
fn update_measures_from_clock_origin() {
    let mut s = VisualizerState::new(800, 600, 5_000_000);
    s.update(12_500_000);
    assert_eq!(s.bank.rotation_angle, 7_500_000);
    assert_eq!(s.bank.time_micros, 7_500_000);
    // A clock reading before the origin counts as zero elapsed time.
    s.update(4_000_000);
    assert_eq!(s.bank.time_micros, 0);
}

#[test]
fn resize_zero_stays_unconfigured_but_writes_window_size() {
    let mut s = VisualizerState::new(640, 480, 0);
    let reconfigure = s.resize(0, 0);
    assert!(!reconfigure);
    assert_eq!(s.sched.status, SurfaceStatus::Unconfigured);
    assert_eq!((s.bank.window_w, s.bank.window_h), (0, 0));
    assert_eq!(s.render_plan(), RenderPlan::Skip);
}

#[test]
fn resize_configures_and_render_acquires() {
    let mut s = VisualizerState::new(640, 480, 0);
    assert_eq!(s.render_plan(), RenderPlan::Skip);
    let reconfigure = s.resize(1024, 768);
    assert!(reconfigure);
    assert_eq!(s.sched.status, SurfaceStatus::Configured);
    assert_eq!((s.sched.viewport_w, s.sched.viewport_h), (1024, 768));
    assert_eq!(s.render_plan(), RenderPlan::Acquire);
    // Shrinking to zero area skips rendering but keeps the configuration.
    let reconfigure = s.resize(1024, 0);
    assert!(!reconfigure);
    assert_eq!(s.sched.status, SurfaceStatus::Configured);
    assert_eq!(s.render_plan(), RenderPlan::Skip);
}

#[test]
fn acquire_outcomes_map_to_recovery_policy() {
    let s = configured(800, 600);
    assert_eq!(s.handle_acquire(AcquireOutcome::Frame), FrameAction::Draw);
    assert_eq!(
        s.handle_acquire(AcquireOutcome::SurfaceLost),
        FrameAction::Reconfigure(800, 600)
    );
    assert_eq!(s.handle_acquire(AcquireOutcome::OutOfMemory), FrameAction::Fatal);
    assert_eq!(
        s.handle_acquire(AcquireOutcome::TransientPresent),
        FrameAction::SkipFrame
    );
}

#[test]
fn failed_swap_changes_nothing() {
    let mut s = configured(800, 600);
    s.swap_cube(Some(7));
    assert_eq!(s.active_cube, 7);
    let before_bank = s.bank;
    s.swap_cube(None);
    assert_eq!(s.active_cube, 7);
    assert_eq!(s.bank, before_bank);
}

#[test]
fn perspective_and_normalize_map_to_their_slots() {
    let mut s = configured(800, 600);
    s.set_perspective(true);
    assert!(s.bank.perspective);
    s.normalize(-500_000, 1_500_000);
    assert_eq!((s.bank.min_value, s.bank.max_value), (-500_000, 1_500_000));
    // No other slot moved.
    assert_eq!((s.bank.camera_theta, s.bank.camera_delta), (0, 0));
    assert_eq!((s.bank.cuts_scale, s.bank.cuts_offset), (MICRO, 0));
    s.set_perspective(false);
    assert!(!s.bank.perspective);
}

#[test]
fn empty_viewport_normalizes_drag_to_zero() {
    // Never configured: the gesture viewport is the initial 0x0 window, so
    // moves cannot produce a finite normalized travel and pend nothing.
    let mut s = VisualizerState::new(0, 0, 0);
    s.cursor_move(100, 100);
    s.primary_press();
    s.cursor_move(900, 900);
    assert_eq!(s.ctrl.pending_dtheta, 0);
    assert_eq!(s.ctrl.pending_ddelta, 0);
    assert_eq!(s.bank.camera_theta, 0);
}
