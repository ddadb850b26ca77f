//! The overlay state machine: dial events, the visibility timeout and
//! surface configuration update the state and say when a redraw is due.
use vstd::prelude::*;

use crate::config::{OverlayConfig, Style};
use crate::event::DialEvent;
use crate::frame::{FramePlan, frame_plan, frame_spec};

verus! {

/// How the overlay surface is shown.
#[derive(Debug, Clone, Copy, PartialEq, Eq, Structural)]
pub enum SurfaceMode {
    /// A wlr-layer-shell overlay surface.
    Layer,
    /// An xdg-shell window (fallback when layer-shell is unavailable).
    Window,
}

impl SurfaceMode {
    /// A short name for log messages.
    pub fn name(&self) -> (s: &'static str)
        ensures
            s@ == (match *self {
                SurfaceMode::Layer => "layer-shell"@,
                SurfaceMode::Window => "xdg-window"@,
            }),
    {
        match self {
            SurfaceMode::Layer => "layer-shell",
            SurfaceMode::Window => "xdg-window",
        }
    }
}

/// The state of the overlay apart from its Wayland objects. Times are in
/// microseconds on a monotonic clock chosen by the caller.
pub struct OverlayState {
    pub width: u32,
    pub height: u32,
    /// Accumulated rotation for the arc, fill and pie-menu styles, and for
    /// the dial-style value indicator (rotation without a button hold).
    pub rotation_accum: i64,
    /// True while the button is physically held down.
    pub is_pressed: bool,
    /// Dial style only: true while the radial menu is open (button held).
    pub menu_active: bool,
    /// Dial style only: rotation accumulated while the menu is open; reset
    /// to 0 each time the menu opens.
    pub menu_accum: i64,
    /// Time of the last dial event.
    pub last_event: Option<u64>,
    pub configured: bool,
    pub exit: bool,
    pub config: OverlayConfig,
}

/// `a + d` saturated into the range of `i64`.
pub open spec fn saturating_sum(a: int, d: int) -> int {
    if a + d > i64::MAX {
        i64::MAX as int
    } else if a + d < i64::MIN {
        i64::MIN as int
    } else {
        a + d
    }
}

/// The state after a dial event at time `now`.
pub open spec fn after_event(s: OverlayState, event: DialEvent, now: u64) -> OverlayState {
    let is_dial = s.config.style == Style::Dial;
    let s = OverlayState { last_event: Some(now), ..s };
    match event {
        DialEvent::Rotated(delta) => if is_dial && s.menu_active {
            OverlayState { menu_accum: saturating_sum(s.menu_accum as int, delta as int) as i64, ..s }
        } else {
            OverlayState {
                rotation_accum: saturating_sum(s.rotation_accum as int, delta as int) as i64,
                is_pressed: if is_dial {
                    s.is_pressed
                } else {
                    false
                },
                ..s
            }
        },
        DialEvent::Pressed => if is_dial {
            OverlayState { is_pressed: true, menu_active: true, menu_accum: 0, ..s }
        } else {
            OverlayState { is_pressed: true, ..s }
        },
        DialEvent::Released => OverlayState { is_pressed: false, menu_active: false, ..s },
    }
}

/// Time from `last` to `now`, or zero when the clock reads earlier.
pub open spec fn elapsed(last: u64, now: u64) -> int {
    if now >= last {
        now - last
    } else {
        0
    }
}

/// More than the configured timeout has passed since the last event.
pub open spec fn is_stale(s: OverlayState, now: u64) -> bool {
    match s.last_event {
        Some(t) => elapsed(t, now) > s.config.timeout_ms * 1000,
        None => false,
    }
}

/// Something is on screen: a rotation, a held button or an open menu.
pub open spec fn is_visible(s: OverlayState) -> bool {
    s.rotation_accum != 0 || s.is_pressed || s.menu_active
}

/// The state after a visibility tick at time `now`: a stale, visible overlay
/// is reset to idle; otherwise nothing changes.
pub open spec fn after_tick(s: OverlayState, now: u64) -> OverlayState {
    if is_stale(s, now) && is_visible(s) {
        OverlayState {
            rotation_accum: 0,
            is_pressed: false,
            menu_active: false,
            menu_accum: 0,
            ..s
        }
    } else {
        s
    }
}

/// The frame that a state shows.
pub open spec fn state_frame(s: OverlayState, f: FramePlan) -> bool {
    frame_spec(s.config, s.rotation_accum as int, s.is_pressed, s.menu_active, s.menu_accum as int, f)
}

fn add_saturating(a: i64, d: i32) -> (r: i64)
    ensures
        r == saturating_sum(a as int, d as int),
{
    match a.checked_add(d as i64) {
        Some(r) => r,
        None => if d > 0 {
            i64::MAX
        } else {
            i64::MIN
        },
    }
}

impl OverlayState {
    /// A fresh, idle, unconfigured state of the configured size.
    pub fn new(config: OverlayConfig) -> (s: Self)
        ensures
            s.width == config.size,
            s.height == config.size,
            s.rotation_accum == 0,
            !s.is_pressed,
            !s.menu_active,
            s.menu_accum == 0,
            s.last_event is None,
            !s.configured,
            !s.exit,
            s.config == config,
    {
        let size = config.size;
        OverlayState {
            width: size,
            height: size,
            rotation_accum: 0,
            is_pressed: false,
            menu_active: false,
            menu_accum: 0,
            last_event: None,
            configured: false,
            exit: false,
            config,
        }
    }

    /// Apply a dial event received at time `now`. Returns whether the
    /// overlay must be redrawn, which it must once it is configured.
    pub fn handle_dial_event(&mut self, event: DialEvent, now: u64) -> (redraw: bool)
        ensures
            *final(self) == after_event(*old(self), event, now),
            redraw == old(self).configured,
    {
        self.last_event = Some(now);
        let is_dial = match self.config.style {
            Style::Dial => true,
            _ => false,
        };
        match event {
            DialEvent::Rotated(delta) => {
                if is_dial && self.menu_active {
                    self.menu_accum = add_saturating(self.menu_accum, delta);
                } else {
                    self.rotation_accum = add_saturating(self.rotation_accum, delta);
                    if !is_dial {
                        self.is_pressed = false;
                    }
                }
            },
            DialEvent::Pressed => {
                self.is_pressed = true;
                if is_dial {
                    self.menu_active = true;
                    self.menu_accum = 0;
                }
            },
            DialEvent::Released => {
                self.is_pressed = false;
                self.menu_active = false;
            },
        }
        self.configured
    }

    /// Hide the overlay once more than the timeout has passed since the last
    /// event: a visible overlay is reset to idle, and every tick past the
    /// timeout redraws the (transparent) overlay once it is configured.
    /// Returns whether the overlay must be redrawn.
    pub fn tick_visibility(&mut self, now: u64) -> (redraw: bool)
        ensures
            *final(self) == after_tick(*old(self), now),
            redraw == (is_stale(*old(self), now) && old(self).configured),
    {
        let stale = match self.last_event {
            Some(t) => {
                let e: u64 = if now >= t {
                    now - t
                } else {
                    0
                };
                (e as u128) > (self.config.timeout_ms as u128) * 1000
            },
            None => false,
        };
        let visible = self.rotation_accum != 0 || self.is_pressed || self.menu_active;
        if stale && visible {
            self.rotation_accum = 0;
            self.is_pressed = false;
            self.menu_active = false;
            self.menu_accum = 0;
        }
        stale && self.configured
    }

    /// A layer-shell configure: non-zero sizes replace the current ones.
    /// Returns whether to draw, which is on the first configure only.
    pub fn configure_layer(&mut self, new_width: u32, new_height: u32) -> (redraw: bool)
        ensures
            final(self).width == (if new_width != 0 {
                new_width
            } else {
                old(self).width
            }),
            final(self).height == (if new_height != 0 {
                new_height
            } else {
                old(self).height
            }),
            final(self).configured,
            redraw == !old(self).configured,
            *final(self) == (OverlayState {
                width: final(self).width,
                height: final(self).height,
                configured: true,
                ..*old(self)
            }),
    {
        if new_width != 0 {
            self.width = new_width;
        }
        if new_height != 0 {
            self.height = new_height;
        }
        let first = !self.configured;
        self.configured = true;
        first
    }

    /// An xdg-window configure: suggested sizes replace the current ones.
    /// The window is drawn after every configure.
    pub fn configure_window(&mut self, new_width: Option<u32>, new_height: Option<u32>) -> (redraw:
        bool)
        ensures
            final(self).width == (match new_width {
                Some(w) => w,
                None => old(self).width,
            }),
            final(self).height == (match new_height {
                Some(h) => h,
                None => old(self).height,
            }),
            redraw,
            *final(self) == (OverlayState {
                width: final(self).width,
                height: final(self).height,
                configured: true,
                ..*old(self)
            }),
    {
        if let Some(w) = new_width {
            self.width = w;
        }
        if let Some(h) = new_height {
            self.height = h;
        }
        self.configured = true;
        true
    }

    /// The surface was closed by the compositor or the user: the program
    /// is to exit.
    pub fn close(&mut self)
        ensures
            *final(self) == (OverlayState { exit: true, ..*old(self) }),
    {
        self.exit = true;
    }

    /// The buffer size to draw: the surface size, at least one pixel each way.
    pub fn surface_size(&self) -> (wh: (u32, u32))
        ensures
            wh.0 == (if self.width == 0 {
                1
            } else {
                self.width
            }),
            wh.1 == (if self.height == 0 {
                1
            } else {
                self.height
            }),
    {
        let w = if self.width == 0 {
            1
        } else {
            self.width
        };
        let h = if self.height == 0 {
            1
        } else {
            self.height
        };
        (w, h)
    }

    /// The content of the next frame.
    pub fn frame(&self) -> (f: FramePlan)
        requires
            self.config.style == Style::PieMenu || (self.config.style == Style::Dial
                && self.menu_active) ==> self.config.pie_menu.sections@.len() <= i32::MAX,
        ensures
            state_frame(*self, f),
    {
        frame_plan(&self.config, self.rotation_accum, self.is_pressed, self.menu_active, self.menu_accum)
    }
}

} // verus!
