//! The guarantees the library makes across several functions, each stated and
//! proved over the transition functions of `detector` and `overlay`.

use vstd::prelude::*;
use crate::config::{SPEED_THRESHOLD, OVERLAY_DURATION_MS, CONTROLLER_POLL_MS};
use crate::math::{dist_sq, sqrt_floor, speed_of, lemma_sqrt_floor_exists};
use crate::detector::{MotionSample, MouseSpeedDetector, trigger_on, timer_expired};
use crate::overlay::OverlayDisplayState;
use vstd::arithmetic::div_mod::{
    lemma_div_pos_is_pos,
    lemma_fundamental_div_mod,
    lemma_mod_division_less_than_divisor,
};
use vstd::arithmetic::mul::{lemma_mul_is_distributive_add, lemma_mul_is_commutative};

verus! {

/// Whenever time has passed, the speed is the distance between the two
/// positions divided by the elapsed time, and it is never negative.
pub proof fn lemma_speed_formula_nonneg(p1: (i32, i32), p2: (i32, i32), dt_ms: int)
    requires
        dt_ms > 0,
    ensures
        speed_of(p1, p2, dt_ms) == sqrt_floor(dist_sq(p1, p2) * 1000000) / dt_ms,
        speed_of(p1, p2, dt_ms) >= 0,
{
    assert((p2.0 - p1.0) * (p2.0 - p1.0) >= 0) by (nonlinear_arith);
    assert((p2.1 - p1.1) * (p2.1 - p1.1) >= 0) by (nonlinear_arith);
    lemma_sqrt_floor_exists(dist_sq(p1, p2) * 1000000);
    lemma_div_pos_is_pos(sqrt_floor(dist_sq(p1, p2) * 1000000), dt_ms);
}

/// A sample that is not newer than the previous one leaves the speed estimate
/// unchanged and touches nothing else, but the accepted position and
/// timestamp still advance.
pub proof fn lemma_stale_sample_keeps_speed(d: MouseSpeedDetector, s: MotionSample)
    requires
        s.time_ms <= d.motion.last_time_ms,
    ensures
        d.sample_step(s).motion.speed == d.motion.speed,
        d.sample_step(s).motion.last_pos == s.pos,
        d.sample_step(s).motion.last_time_ms == s.time_ms,
        d.sample_step(s).overlay_timer == d.overlay_timer,
        d.sample_step(s).overlay == d.overlay,
{
}

/// The trigger comparison is strict: a speed exactly at the threshold does
/// not trigger, and any speed at least one pixel per second above it does.
pub proof fn lemma_threshold_boundary(p1: (i32, i32), p2: (i32, i32), dt_ms: int)
    requires
        dt_ms > 0,
    ensures
        speed_of(p1, p2, dt_ms) == SPEED_THRESHOLD ==> !trigger_on(p1, p2, dt_ms),
        speed_of(p1, p2, dt_ms) >= SPEED_THRESHOLD + 1 ==> trigger_on(p1, p2, dt_ms),
{
}

/// Overlay visibility is idempotent: a repeated show keeps the overlay
/// visible and changes nothing further, and a repeated hide is a no-op.
pub proof fn lemma_show_hide_idempotent(s: OverlayDisplayState, cx: i32, cy: i32)
    ensures
        s.shown_at(cx, cy).visible,
        s.shown_at(cx, cy).shown_at(cx, cy) == s.shown_at(cx, cy),
        !s.hidden().visible,
        s.hidden().hidden() == s.hidden(),
{
}

/// Decay: while a decay timer armed at `t` is pending, a controller tick
/// strictly before `t` plus the decay duration changes nothing, and a tick at
/// or after that deadline hides the overlay and clears the timer.
pub proof fn lemma_decay_property(d: MouseSpeedDetector, t: u64, now_ms: u64)
    requires
        d.overlay_timer == Some(t),
    ensures
        !timer_expired(t, now_ms) ==> d.controller_step(now_ms) == d,
        timer_expired(t, now_ms) ==> !d.controller_step(now_ms).overlay.visible,
        timer_expired(t, now_ms) ==> d.controller_step(now_ms).overlay_timer is None,
{
}

/// A controller that polls at times `tick0 + k * CONTROLLER_POLL_MS` reaches
/// any deadline at or after `tick0` within one poll interval: some poll falls
/// at or after the deadline but before a full interval has passed beyond it.
/// With `lemma_decay_property`, the overlay is hidden within one controller
/// poll interval after the decay duration elapses, and not before.
pub proof fn lemma_poll_reaches_deadline(tick0: int, deadline: int)
    requires
        tick0 <= deadline,
    ensures
        exists|k: int|
            0 <= k && deadline <= tick0 + #[trigger] (k * (CONTROLLER_POLL_MS as int)) < deadline
                + CONTROLLER_POLL_MS,
{
    let poll = CONTROLLER_POLL_MS as int;
    let m = deadline - tick0;
    let q = m / poll;
    let r = m % poll;
    lemma_fundamental_div_mod(m, poll);
    lemma_mod_division_less_than_divisor(m, poll);
    lemma_div_pos_is_pos(m, poll);
    lemma_mul_is_commutative(poll, q);
    if r == 0 {
        assert(q * poll == m);
        assert(deadline <= tick0 + q * poll < deadline + poll);
    } else {
        lemma_mul_is_distributive_add(poll, q, 1);
        lemma_mul_is_commutative(poll, q + 1);
        assert((q + 1) * poll == m - r + poll);
        assert(deadline <= tick0 + (q + 1) * poll < deadline + poll);
    }
}

/// Decay, composed: while a decay timer armed at `t` is pending and no new
/// trigger occurs, a controller that polls at times `tick0 + k *
/// CONTROLLER_POLL_MS` hides the overlay at some poll within one poll
/// interval after the decay duration has elapsed — and, by
/// `lemma_decay_property`, at no poll before that.
pub proof fn lemma_decay_within_one_poll(d: MouseSpeedDetector, t: u64, tick0: int)
    requires
        d.overlay_timer == Some(t),
        0 <= tick0 <= t + OVERLAY_DURATION_MS,
        t + OVERLAY_DURATION_MS + CONTROLLER_POLL_MS <= u64::MAX,
    ensures
        exists|k: int|
            {
                let now = tick0 + #[trigger] (k * (CONTROLLER_POLL_MS as int));
                0 <= k && t + OVERLAY_DURATION_MS <= now < t + OVERLAY_DURATION_MS
                    + CONTROLLER_POLL_MS && !d.controller_step(now as u64).overlay.visible
                    && d.controller_step(now as u64).overlay_timer is None
            },
{
    let poll = CONTROLLER_POLL_MS as int;
    let deadline = t + OVERLAY_DURATION_MS;
    lemma_poll_reaches_deadline(tick0, deadline);
    let k = choose|k: int|
        0 <= k && deadline <= tick0 + #[trigger] (k * poll) < deadline + CONTROLLER_POLL_MS;
    let now = tick0 + k * poll;
    assert(now == now as u64);
    assert(timer_expired(t, now as u64));
    assert(0 <= k && deadline <= tick0 + k * poll < deadline + poll && !d.controller_step(
        now as u64,
    ).overlay.visible && d.controller_step(now as u64).overlay_timer is None);
}

/// Re-trigger: a trigger arms the decay timer at the new sample's time,
/// whatever was pending before, so the overlay stays visible for a full decay
/// duration measured from the latest trigger.
pub proof fn lemma_retrigger_resets_decay(d: MouseSpeedDetector, s: MotionSample, now_ms: u64)
    requires
        s.time_ms > d.motion.last_time_ms,
        trigger_on(d.motion.last_pos, s.pos, s.time_ms - d.motion.last_time_ms),
    ensures
        d.sample_step(s).overlay_timer == Some(s.time_ms),
        d.sample_step(s).overlay.visible,
        !timer_expired(s.time_ms, now_ms) ==> d.sample_step(s).controller_step(
            now_ms,
        ).overlay.visible,
{
}

/// A sampler tick preserves well-formedness: a pending decay timer always
/// goes with a visible overlay.
pub proof fn lemma_sample_step_preserves_wf(d: MouseSpeedDetector, s: MotionSample)
    requires
        d.wf(),
    ensures
        d.sample_step(s).wf(),
{
}

/// A controller tick preserves well-formedness: a pending decay timer always
/// goes with a visible overlay.
pub proof fn lemma_controller_step_preserves_wf(d: MouseSpeedDetector, now_ms: u64)
    requires
        d.wf(),
    ensures
        d.controller_step(now_ms).wf(),
{
}

} // verus!
