//! Build-time tunables: the speed threshold, the overlay decay duration, the
//! two poll cadences, and the fixed overlay geometry.

use vstd::prelude::*;

verus! {

/// Speed above which the overlay is triggered, in pixels per second.
/// The comparison is strict: a speed exactly at the threshold does not trigger.
pub const SPEED_THRESHOLD: u64 = 800;

/// How long the overlay stays visible after the most recent trigger, in
/// milliseconds.
pub const OVERLAY_DURATION_MS: u64 = 900;

/// Period of the sampler loop, in milliseconds (roughly 60 samples a second).
pub const POLLING_INTERVAL_MS: u64 = 16;

/// Period of the overlay-controller loop, in milliseconds. The decay check
/// runs at this cadence, so the overlay hides within one such interval after
/// the decay duration has elapsed.
pub const CONTROLLER_POLL_MS: u64 = 50;

/// Nominal cursor size in pixels, before magnification.
pub const BASE_CURSOR_SIZE: i32 = 32;

/// Magnification factor applied to the nominal cursor size.
pub const CURSOR_SCALE_FACTOR: i32 = 3;

/// Side length of the square overlay window, in pixels: the nominal cursor
/// size magnified.
pub const CURSOR_SIZE: i32 = BASE_CURSOR_SIZE * CURSOR_SCALE_FACTOR;

/// Half the overlay side length; the overlay is centered on the pointer by
/// offsetting its top-left corner by this much.
pub const CURSOR_HALF_SIZE: i32 = 48;

} // verus!
