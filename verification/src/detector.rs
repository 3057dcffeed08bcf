//! The sampler and overlay-controller state machine. A sampler tick takes a
//! fresh pointer sample, derives a speed estimate from the previous accepted
//! sample, and arms the decay timer when the speed exceeds the threshold. A
//! controller tick hides the overlay once the decay duration has elapsed
//! since the most recent trigger. Both ticks are specified against pure
//! transition functions, so properties of whole schedules can be proved.

use vstd::prelude::*;
use crate::config::{SPEED_THRESHOLD, OVERLAY_DURATION_MS};
use crate::math::{speed_of, compute_speed};
use crate::overlay::OverlayDisplayState;

verus! {

/// One (position, timestamp) observation of the pointer. Positions are screen
/// pixels; timestamps are milliseconds on a monotonic clock.
#[derive(Clone, Copy, Debug)]
pub struct MotionSample {
    /// Observed pointer position.
    pub pos: (i32, i32),
    /// Observation time in milliseconds.
    pub time_ms: u64,
}

/// The most recently accepted sample and the speed estimate derived from it,
/// in pixels per second. The speed is unsigned, so it is never negative.
#[derive(Clone, Copy, Debug)]
pub struct MotionState {
    /// Position of the previous accepted sample.
    pub last_pos: (i32, i32),
    /// Timestamp of the previous accepted sample, in milliseconds.
    pub last_time_ms: u64,
    /// Latest computed speed, in pixels per second.
    pub speed: u64,
}

/// Whether a move from `p1` to `p2` over `dt_ms` milliseconds triggers the
/// overlay: its speed strictly exceeds the threshold. A speed exactly at the
/// threshold does not trigger.
pub open spec fn trigger_on(p1: (i32, i32), p2: (i32, i32), dt_ms: int) -> bool {
    speed_of(p1, p2, dt_ms) > SPEED_THRESHOLD
}

/// Whether a decay timer armed at `t` has run out by `now_ms`: the full decay
/// duration has elapsed. A clock reading before `t` has not expired.
pub open spec fn timer_expired(t: u64, now_ms: u64) -> bool {
    now_ms >= t + OVERLAY_DURATION_MS
}

/// The whole tracked state: the motion estimate, the pending decay timer
/// (`None` when idle, `Some(t)` after a trigger at `t`), and the overlay
/// surface as last commanded.
#[derive(Clone, Copy, Debug)]
pub struct MouseSpeedDetector {
    /// Latest accepted sample and speed estimate.
    pub motion: MotionState,
    /// When the overlay was last triggered, or `None` if no decay is pending.
    pub overlay_timer: Option<u64>,
    /// Visibility and position of the overlay surface.
    pub overlay: OverlayDisplayState,
}

impl MouseSpeedDetector {
    /// A decay timer is pending only while the overlay is shown.
    pub open spec fn wf(self) -> bool {
        self.overlay_timer is Some ==> self.overlay.visible
    }

    /// The state after one sampler tick on sample `s`.
    ///
    /// If no time has passed since the previous sample (or the clock went
    /// backwards), the speed estimate is kept and only the accepted sample
    /// advances. Otherwise the speed is recomputed, and if it exceeds the
    /// threshold the overlay is shown at the sample position and the decay
    /// timer is armed (re-arming it if it was already pending).
    pub open spec fn sample_step(self, s: MotionSample) -> MouseSpeedDetector {
        if s.time_ms <= self.motion.last_time_ms {
            MouseSpeedDetector {
                motion: MotionState {
                    last_pos: s.pos,
                    last_time_ms: s.time_ms,
                    speed: self.motion.speed,
                },
                overlay_timer: self.overlay_timer,
                overlay: self.overlay,
            }
        } else {
            let dt = s.time_ms - self.motion.last_time_ms;
            let sp = speed_of(self.motion.last_pos, s.pos, dt);
            let moved = MotionState {
                last_pos: s.pos,
                last_time_ms: s.time_ms,
                speed: sp as u64,
            };
            if sp > SPEED_THRESHOLD {
                MouseSpeedDetector {
                    motion: moved,
                    overlay_timer: Some(s.time_ms),
                    overlay: self.overlay.shown_at(s.pos.0, s.pos.1),
                }
            } else {
                MouseSpeedDetector {
                    motion: moved,
                    overlay_timer: self.overlay_timer,
                    overlay: self.overlay,
                }
            }
        }
    }

    /// The state after one controller tick at `now_ms`: if a decay timer is
    /// pending and has expired, the overlay is hidden and the timer cleared;
    /// otherwise nothing changes.
    pub open spec fn controller_step(self, now_ms: u64) -> MouseSpeedDetector {
        match self.overlay_timer {
            Some(t) => if timer_expired(t, now_ms) {
                MouseSpeedDetector {
                    motion: self.motion,
                    overlay_timer: None,
                    overlay: self.overlay.hidden(),
                }
            } else {
                self
            },
            None => self,
        }
    }

    /// Initial state: sentinel position at the origin, the given start time,
    /// zero speed, no pending decay, overlay hidden.
    pub fn new(now_ms: u64) -> (d: MouseSpeedDetector)
        ensures
            d.motion.last_pos == (0i32, 0i32),
            d.motion.last_time_ms == now_ms,
            d.motion.speed == 0,
            d.overlay_timer is None,
            !d.overlay.visible,
            d.overlay.center == (0i32, 0i32),
            d.wf(),
    {
        MouseSpeedDetector {
            motion: MotionState { last_pos: (0, 0), last_time_ms: now_ms, speed: 0 },
            overlay_timer: None,
            overlay: OverlayDisplayState::new(),
        }
    }

    /// Accept an initial sample before the sampler loop starts, so the first
    /// real tick measures displacement from a true reading rather than from
    /// the sentinel. Only the accepted sample changes.
    pub fn seed(&mut self, s: MotionSample)
        ensures
            final(self).motion.last_pos == s.pos,
            final(self).motion.last_time_ms == s.time_ms,
            final(self).motion.speed == old(self).motion.speed,
            final(self).overlay_timer == old(self).overlay_timer,
            final(self).overlay == old(self).overlay,
    {
        self.motion.last_pos = s.pos;
        self.motion.last_time_ms = s.time_ms;
    }

    /// One sampler tick. Returns the show command for the platform surface:
    /// `Some(pos)` exactly when this sample triggered the overlay.
    pub fn sample_tick(&mut self, s: MotionSample) -> (cmd: Option<(i32, i32)>)
        ensures
            *final(self) == old(self).sample_step(s),
            cmd == (if s.time_ms > old(self).motion.last_time_ms && trigger_on(
                old(self).motion.last_pos,
                s.pos,
                s.time_ms - old(self).motion.last_time_ms,
            ) {
                Some(s.pos)
            } else {
                None::<(i32, i32)>
            }),
    {
        if s.time_ms <= self.motion.last_time_ms {
            self.motion.last_pos = s.pos;
            self.motion.last_time_ms = s.time_ms;
            None
        } else {
            let dt: u64 = s.time_ms - self.motion.last_time_ms;
            let sp: u64 = compute_speed(self.motion.last_pos, s.pos, dt);
            self.motion.last_pos = s.pos;
            self.motion.last_time_ms = s.time_ms;
            self.motion.speed = sp;
            if sp > SPEED_THRESHOLD {
                self.overlay_timer = Some(s.time_ms);
                self.overlay.show(s.pos.0, s.pos.1);
                Some(s.pos)
            } else {
                None
            }
        }
    }

    /// One controller tick. Returns whether a platform hide call is due: the
    /// decay expired while the overlay was visible.
    pub fn controller_tick(&mut self, now_ms: u64) -> (hid: bool)
        ensures
            *final(self) == old(self).controller_step(now_ms),
            hid == (match old(self).overlay_timer {
                Some(t) => timer_expired(t, now_ms) && old(self).overlay.visible,
                None => false,
            }),
    {
        match self.overlay_timer {
            Some(t) => {
                if now_ms >= t && now_ms - t >= OVERLAY_DURATION_MS {
                    let was_visible = self.overlay.hide_overlay();
                    self.overlay_timer = None;
                    was_visible
                } else {
                    false
                }
            },
            None => false,
        }
    }
}

} // verus!
