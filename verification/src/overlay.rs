//! Model of the overlay surface as the core sees it: a visibility flag and
//! the last commanded center position. The platform window itself is driven
//! elsewhere; it consults this state to decide which platform calls to issue,
//! and the geometry helpers here compute where and what it draws.

use vstd::prelude::*;
use crate::config::{CURSOR_SIZE, CURSOR_HALF_SIZE};

verus! {

/// Visibility and last commanded center of the overlay surface.
#[derive(Clone, Copy, Debug)]
pub struct OverlayDisplayState {
    /// Whether the surface is currently shown.
    pub visible: bool,
    /// Center the surface was last commanded to, in screen pixels.
    pub center: (i32, i32),
}

impl OverlayDisplayState {
    /// The state after a show command at `(cx, cy)`.
    pub open spec fn shown_at(self, cx: i32, cy: i32) -> OverlayDisplayState {
        OverlayDisplayState { visible: true, center: (cx, cy) }
    }

    /// The state after a hide command.
    pub open spec fn hidden(self) -> OverlayDisplayState {
        OverlayDisplayState { visible: false, center: self.center }
    }

    /// A fresh surface: hidden, centered at the origin.
    pub fn new() -> (s: OverlayDisplayState)
        ensures
            !s.visible,
            s.center == (0i32, 0i32),
    {
        OverlayDisplayState { visible: false, center: (0, 0) }
    }

    /// Show (or reposition) the surface centered at `(cx, cy)`. Showing while
    /// already visible does not toggle visibility; it only moves the surface.
    pub fn show(&mut self, cx: i32, cy: i32)
        ensures
            *final(self) == old(self).shown_at(cx, cy),
    {
        self.visible = true;
        self.center = (cx, cy);
    }

    /// Hide the surface. Returns whether it was visible, so the caller knows
    /// whether a platform hide call is due; hiding while hidden is a no-op.
    pub fn hide_overlay(&mut self) -> (was_visible: bool)
        ensures
            *final(self) == old(self).hidden(),
            was_visible == old(self).visible,
    {
        let was: bool = self.visible;
        self.visible = false;
        was
    }
}

/// Top-left corner and side length of the overlay window when centered on
/// `(cx, cy)`. The bounds keep the corner within `i32`.
pub fn overlay_rect(cx: i32, cy: i32) -> (r: (i32, i32, i32))
    requires
        cx >= i32::MIN + CURSOR_HALF_SIZE,
        cy >= i32::MIN + CURSOR_HALF_SIZE,
    ensures
        r.0 == cx - CURSOR_HALF_SIZE,
        r.1 == cy - CURSOR_HALF_SIZE,
        r.2 == CURSOR_SIZE,
{
    (cx - CURSOR_HALF_SIZE, cy - CURSOR_HALF_SIZE, CURSOR_SIZE)
}

/// Center and radius of the circle drawn in a client rectangle of the given
/// size: centered in the rectangle, inset two pixels from the shorter side.
pub fn circle_geometry(width: i32, height: i32) -> (g: (i32, i32, i32))
    requires
        width >= 0,
        height >= 0,
    ensures
        g.0 == width / 2,
        g.1 == height / 2,
        g.2 == (if width <= height { width } else { height }) / 2 - 2,
{
    let shorter: i32 = if width <= height { width } else { height };
    (width / 2, height / 2, shorter / 2 - 2)
}

} // verus!
