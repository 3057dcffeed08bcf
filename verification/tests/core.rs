use speed_overlay::detector::{MotionSample, MouseSpeedDetector};
use speed_overlay::math::{compute_speed, isqrt_u128};
use speed_overlay::overlay::{circle_geometry, overlay_rect, OverlayDisplayState};

#[test]
fn test_mouse_state_creation() {
    let state = MouseSpeedDetector::new(0).motion;
    assert_eq!(state.last_pos, (0, 0));
    assert_eq!(state.speed, 0);
}

#[test]
fn test_detector_creation() {
    let detector = MouseSpeedDetector::new(0);
    assert!(detector.overlay_timer.is_none());
    assert!(!detector.overlay.visible);
}

#[test]
fn test_isqrt_small_values() {
    assert_eq!(isqrt_u128(0), 0);
    assert_eq!(isqrt_u128(1), 1);
    assert_eq!(isqrt_u128(2), 1);
    assert_eq!(isqrt_u128(3), 1);
    assert_eq!(isqrt_u128(4), 2);
    assert_eq!(isqrt_u128(99), 9);
    assert_eq!(isqrt_u128(100), 10);
}

#[test]
fn test_isqrt_large_values() {
    assert_eq!(isqrt_u128(1_000_000_000_000), 1_000_000);
    assert_eq!(isqrt_u128(u128::MAX), (1u128 << 64) - 1);
}

#[test]
fn test_speed_exact_values() {
    // A 3-4-5 triangle: 5 px in one second.
    assert_eq!(compute_speed((0, 0), (3, 4), 1000), 5);
    // 1000 px in one second.
    assert_eq!(compute_speed((0, 0), (1000, 0), 1000), 1000);
    // sqrt(2) px in one second rounds down to 1.
    assert_eq!(compute_speed((0, 0), (1, 1), 1000), 1);
    // 500 px in half a second is 1000 px/s.
    assert_eq!(compute_speed((0, 0), (0, 500), 500), 1000);
    // Moving backwards counts the same distance.
    assert_eq!(compute_speed((1000, 0), (0, 0), 1000), 1000);
}

#[test]
fn test_stale_sample_keeps_speed() {
    // A sample with no elapsed time keeps the speed but advances the
    // accepted position and timestamp.
    let mut d = MouseSpeedDetector::new(0);
    let cmd = d.sample_tick(MotionSample { pos: (10, 10), time_ms: 100 });
    assert!(cmd.is_none());
    let prev_speed = d.motion.speed;
    let cmd = d.sample_tick(MotionSample { pos: (5000, 5000), time_ms: 100 });
    assert!(cmd.is_none());
    assert_eq!(d.motion.speed, prev_speed);
    assert_eq!(d.motion.last_pos, (5000, 5000));
    assert_eq!(d.motion.last_time_ms, 100);
    assert!(!d.overlay.visible);
}

#[test]
fn test_clock_going_backwards_is_skipped() {
    let mut d = MouseSpeedDetector::new(1000);
    let cmd = d.sample_tick(MotionSample { pos: (9000, 9000), time_ms: 500 });
    assert!(cmd.is_none());
    assert_eq!(d.motion.speed, 0);
    assert_eq!(d.motion.last_pos, (9000, 9000));
    assert_eq!(d.motion.last_time_ms, 500);
}

#[test]
fn test_threshold_boundary() {
    // Exactly 800 px/s: no trigger.
    let mut d = MouseSpeedDetector::new(0);
    let cmd = d.sample_tick(MotionSample { pos: (800, 0), time_ms: 1000 });
    assert_eq!(d.motion.speed, 800);
    assert!(cmd.is_none());
    assert!(!d.overlay.visible);
    assert!(d.overlay_timer.is_none());

    // One pixel per second above: triggers.
    let mut d = MouseSpeedDetector::new(0);
    let cmd = d.sample_tick(MotionSample { pos: (801, 0), time_ms: 1000 });
    assert_eq!(d.motion.speed, 801);
    assert_eq!(cmd, Some((801, 0)));
    assert!(d.overlay.visible);
    assert_eq!(d.overlay_timer, Some(1000));
}

#[test]
fn test_show_idempotent() {
    let mut s = OverlayDisplayState::new();
    s.show(10, 20);
    assert!(s.visible);
    assert_eq!(s.center, (10, 20));
    // A second show while visible does not toggle visibility off.
    s.show(30, 40);
    assert!(s.visible);
    assert_eq!(s.center, (30, 40));
}

#[test]
fn test_hide_idempotent() {
    let mut s = OverlayDisplayState::new();
    s.show(10, 20);
    assert!(s.hide_overlay());
    assert!(!s.visible);
    // A second hide while hidden is a no-op.
    assert!(!s.hide_overlay());
    assert!(!s.visible);
    assert_eq!(s.center, (10, 20));
}

#[test]
fn test_decay_hides_after_duration_not_before() {
    let mut d = MouseSpeedDetector::new(0);
    let cmd = d.sample_tick(MotionSample { pos: (1000, 0), time_ms: 1000 });
    assert!(cmd.is_some());
    assert!(d.overlay.visible);
    // One millisecond before the deadline: nothing happens.
    assert!(!d.controller_tick(1899));
    assert!(d.overlay.visible);
    assert_eq!(d.overlay_timer, Some(1000));
    // At the deadline: hidden, timer cleared.
    assert!(d.controller_tick(1900));
    assert!(!d.overlay.visible);
    assert!(d.overlay_timer.is_none());
    // Further ticks are no-ops.
    assert!(!d.controller_tick(5000));
    assert!(!d.overlay.visible);
}

#[test]
fn test_scenario_fast_motion_then_idle() {
    // 1000 px in 1 s (threshold 800): shown; idle past the decay: hidden.
    let mut d = MouseSpeedDetector::new(0);
    d.seed(MotionSample { pos: (0, 0), time_ms: 0 });
    let cmd = d.sample_tick(MotionSample { pos: (1000, 0), time_ms: 1000 });
    assert_eq!(cmd, Some((1000, 0)));
    assert_eq!(d.motion.speed, 1000);
    assert!(d.overlay.visible);
    assert_eq!(d.overlay.center, (1000, 0));
    // No further motion; poll well past duration + margin.
    assert!(d.controller_tick(2000));
    assert!(!d.overlay.visible);
}

#[test]
fn test_scenario_slow_motion_never_shown() {
    // 100 px in 1 s: far below the threshold, never shown.
    let mut d = MouseSpeedDetector::new(0);
    d.seed(MotionSample { pos: (0, 0), time_ms: 0 });
    let cmd = d.sample_tick(MotionSample { pos: (100, 0), time_ms: 1000 });
    assert!(cmd.is_none());
    assert_eq!(d.motion.speed, 100);
    assert!(!d.overlay.visible);
    assert!(d.overlay_timer.is_none());
    for now in [1050u64, 1500, 2500, 10000] {
        assert!(!d.controller_tick(now));
        assert!(!d.overlay.visible);
    }
}

#[test]
fn test_scenario_retrigger_extends_visibility() {
    // Two triggers 500 ms apart, decay 900 ms: continuously visible for
    // about 1400 ms, hiding once after the second trigger's decay.
    let mut d = MouseSpeedDetector::new(0);
    d.seed(MotionSample { pos: (0, 0), time_ms: 0 });
    let cmd = d.sample_tick(MotionSample { pos: (1000, 0), time_ms: 1000 });
    assert_eq!(cmd, Some((1000, 0)));
    // Second trigger 500 ms later: another 500 px in 0.5 s is 1000 px/s.
    let cmd = d.sample_tick(MotionSample { pos: (1500, 0), time_ms: 1500 });
    assert_eq!(cmd, Some((1500, 0)));
    assert_eq!(d.overlay_timer, Some(1500));
    // The first trigger's deadline (1900) passes without a hide.
    assert!(!d.controller_tick(1900));
    assert!(d.overlay.visible);
    assert!(!d.controller_tick(2399));
    assert!(d.overlay.visible);
    // The second trigger's deadline: hidden exactly once.
    assert!(d.controller_tick(2400));
    assert!(!d.overlay.visible);
    assert!(d.overlay_timer.is_none());
}

#[test]
fn test_seed_keeps_speed_and_timer() {
    let mut d = MouseSpeedDetector::new(0);
    d.sample_tick(MotionSample { pos: (1000, 0), time_ms: 1000 });
    let speed = d.motion.speed;
    d.seed(MotionSample { pos: (42, 43), time_ms: 1200 });
    assert_eq!(d.motion.last_pos, (42, 43));
    assert_eq!(d.motion.last_time_ms, 1200);
    assert_eq!(d.motion.speed, speed);
    assert_eq!(d.overlay_timer, Some(1000));
    assert!(d.overlay.visible);
}

#[test]
fn test_overlay_rect_centers_window() {
    assert_eq!(overlay_rect(100, 200), (52, 152, 96));
    assert_eq!(overlay_rect(0, 0), (-48, -48, 96));
}

#[test]
fn test_circle_geometry_exact() {
    assert_eq!(circle_geometry(96, 96), (48, 48, 46));
    assert_eq!(circle_geometry(100, 60), (50, 30, 28));
}
