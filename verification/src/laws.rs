//! Properties that span several operations of the overlay.
use vstd::prelude::*;

use crate::config::{OverlayConfig, Style};
use crate::event::{DialEvent, DialSignal, signal_event};
use crate::frame::{FramePlan, brighten_channel, frame_spec, glow_alphas};
use crate::menu::section_colors;
use crate::menu::{floor_div, section_counter, selected_section};
use crate::pixels::{converted, whole_pixels};
use crate::state::{OverlayState, after_event, after_tick, is_stale, state_frame};

verus! {

/// An idle overlay (no rotation, button up, menu closed) is fully
/// transparent, whatever the style.
pub proof fn lemma_idle_is_transparent(config: OverlayConfig, menu: int, f: FramePlan)
    requires
        frame_spec(config, 0, false, false, menu, f),
    ensures
        f is Clear,
{
}

/// Once more than the timeout has passed since the last event, a
/// visibility tick leaves the overlay fully transparent.
pub proof fn lemma_timeout_hides(s: OverlayState, now: u64, f: FramePlan)
    requires
        is_stale(s, now),
        state_frame(after_tick(s, now), f),
    ensures
        f is Clear,
{
}

/// Within the timeout after an event, a visibility tick changes nothing.
pub proof fn lemma_recent_event_stays(s: OverlayState, event: DialEvent, t: u64, now: u64)
    requires
        t <= now,
        now - t <= s.config.timeout_ms * 1000,
    ensures
        after_tick(after_event(s, event, t), now) == after_event(s, event, t),
{
}

/// A second visibility tick at the same time changes nothing more.
pub proof fn lemma_tick_idempotent(s: OverlayState, now: u64)
    ensures
        after_tick(after_tick(s, now), now) == after_tick(s, now),
{
}

/// Rotating by `delta` and then by `-delta` restores the accumulated
/// rotation (when the dial menu is closed and no saturation occurs).
pub proof fn lemma_rotation_undone(s: OverlayState, delta: i32, t1: u64, t2: u64)
    requires
        !(s.config.style == Style::Dial && s.menu_active),
        delta > i32::MIN,
        i64::MIN <= s.rotation_accum + delta <= i64::MAX,
    ensures
        after_event(after_event(s, DialEvent::Rotated(delta), t1), DialEvent::Rotated((-delta) as i32), t2).rotation_accum
            == s.rotation_accum,
{
}

/// Pressing and then releasing the button leaves it up, the menu closed and
/// the accumulated rotation unchanged.
pub proof fn lemma_press_release(s: OverlayState, t1: u64, t2: u64)
    ensures
        ({
            let r = after_event(after_event(s, DialEvent::Pressed, t1), DialEvent::Released, t2);
            !r.is_pressed && !r.menu_active && r.rotation_accum == s.rotation_accum
        }),
{
}

/// Arc and fill styles: while the button is held the press indicator is
/// shown, whatever the rotation.
pub proof fn lemma_press_shown(config: OverlayConfig, rot: int, menu: int, f: FramePlan)
    requires
        config.style == Style::Arc || config.style == Style::Fill,
        frame_spec(config, rot, true, false, menu, f),
    ensures
        f == (FramePlan::Press { background: config.colors.background, press: config.colors.press }),
{
}

/// Arc and fill styles: a clockwise rotation draws a clockwise sweep in the
/// clockwise colour, a counter-clockwise one a counter-clockwise sweep in
/// the counter-clockwise colour.
pub proof fn lemma_rotation_direction(config: OverlayConfig, rot: int, menu: int, f: FramePlan)
    requires
        config.style == Style::Arc || config.style == Style::Fill,
        rot != 0,
        frame_spec(config, rot, false, false, menu, f),
    ensures
        f matches FramePlan::RotationArc { color, sweep_degrees, .. } ==> (if rot > 0 {
            color == config.colors.cw && sweep_degrees > 0
        } else {
            color == config.colors.ccw && sweep_degrees < 0
        }),
        f matches FramePlan::RotationFill { color, sweep_degrees, .. } ==> (if rot > 0 {
            color == config.colors.cw && sweep_degrees > 0
        } else {
            color == config.colors.ccw && sweep_degrees < 0
        }),
        f is RotationArc || f is RotationFill,
{
    assert(rot * 15 > 0 <==> rot > 0) by (nonlinear_arith)
        requires
            rot != 0,
    ;
    assert(rot * 15 < 0 <==> rot < 0) by (nonlinear_arith)
        requires
            rot != 0,
    ;
}

/// Dial style: pressing the button opens the menu with the first section
/// selected.
pub proof fn lemma_press_opens_menu(s: OverlayState, t: u64, f: FramePlan)
    requires
        s.config.style == Style::Dial,
        state_frame(after_event(s, DialEvent::Pressed, t), f),
    ensures
        f matches FramePlan::DialMenu(m) && m.selected == 0,
{
    let step = s.config.pie_menu.selection_step_milli as int;
    if step != 0 {
        vstd::arithmetic::div_mod::lemma_div_of0(if step > 0 {
            step
        } else {
            -step
        });
    }
    let n = crate::frame::dial_menu_sections(s.config) as int;
    vstd::arithmetic::div_mod::lemma_small_mod(0, n as nat);
}

/// Dial style: releasing the button closes the menu.
pub proof fn lemma_release_closes_menu(s: OverlayState, t: u64, f: FramePlan)
    requires
        s.config.style == Style::Dial,
        state_frame(after_event(s, DialEvent::Released, t), f),
    ensures
        !(f is DialMenu),
{
}

/// With a whole step of `k` rotation units, rotating `k` units further
/// advances the selection by one section, wrapping around after the last
/// (while the section counter stays inside the range of `i32`).
pub proof fn lemma_selection_advances(accum: int, k: int, n: int)
    requires
        k > 0,
        n > 0,
        i32::MIN < section_counter(accum, 1000 * k) < i32::MAX,
    ensures
        selected_section(accum + k, 1000 * k, n) == (selected_section(accum, 1000 * k, n) + 1) % n,
        section_counter(accum + k, 1000 * k) == section_counter(accum, 1000 * k) + 1,
{
    let d = 1000 * k;
    assert((accum + k) * 1000 == d + accum * 1000) by (nonlinear_arith)
        requires
            d == 1000 * k,
    ;
    vstd::arithmetic::div_mod::lemma_div_plus_one(accum * 1000, d);
    let c = section_counter(accum, d);
    vstd::arithmetic::div_mod::lemma_add_mod_noop_right(1, c, n);
}

/// The state after a sequence of dial events, each with its time, applied
/// in order.
pub open spec fn after_events(s: OverlayState, events: Seq<(DialEvent, u64)>) -> OverlayState
    decreases events.len(),
{
    if events.len() == 0 {
        s
    } else {
        after_events(after_event(s, events[0].0, events[0].1), events.drop_first())
    }
}

/// The total rotation of a sequence of events (non-rotation events count 0).
pub open spec fn rotation_total(events: Seq<(DialEvent, u64)>) -> int
    decreases events.len(),
{
    if events.len() == 0 {
        0
    } else {
        (match events[0].0 {
            DialEvent::Rotated(d) => d as int,
            _ => 0,
        }) + rotation_total(events.drop_first())
    }
}

/// Every event of the sequence is a rotation.
pub open spec fn all_rotations(events: Seq<(DialEvent, u64)>) -> bool {
    forall|i: int| 0 <= i < events.len() ==> #[trigger] events[i].0 is Rotated
}

/// Every running total `base + rotation_total(first k events)` fits in `i64`.
pub open spec fn partial_sums_fit(base: int, events: Seq<(DialEvent, u64)>) -> bool {
    forall|k: int|
        0 <= k <= events.len() ==> i64::MIN <= base + #[trigger] rotation_total(events.take(k))
            <= i64::MAX
}

proof fn lemma_total_take_tail(events: Seq<(DialEvent, u64)>, k: int)
    requires
        events.len() > 0,
        0 <= k < events.len(),
    ensures
        rotation_total(events.take(k + 1)) == rotation_total(events.take(1))
            + rotation_total(events.drop_first().take(k)),
{
    let e1 = events.take(1);
    let ek = events.take(k + 1);
    assert(ek.drop_first() =~= events.drop_first().take(k));
    assert(e1.drop_first() =~= Seq::<(DialEvent, u64)>::empty());
    assert(ek[0] == events[0]);
    assert(e1[0] == events[0]);
    assert(rotation_total(Seq::<(DialEvent, u64)>::empty()) == 0);
    assert(rotation_total(e1) == rotation_total(e1.drop_first()) + (match e1[0].0 {
        DialEvent::Rotated(d) => d as int,
        _ => 0,
    }));
}

/// With the dial menu closed (or a style without one), a sequence of
/// rotation events adds up: the accumulated rotation grows by the sum of the
/// deltas, whatever their order, as long as no running total leaves `i64`.
pub proof fn lemma_rotations_add_up(s: OverlayState, events: Seq<(DialEvent, u64)>)
    requires
        !(s.config.style == Style::Dial && s.menu_active),
        all_rotations(events),
        partial_sums_fit(s.rotation_accum as int, events),
    ensures
        after_events(s, events).rotation_accum == s.rotation_accum + rotation_total(events),
    decreases events.len(),
{
    if events.len() > 0 {
        let (e, t) = events[0];
        let s1 = after_event(s, e, t);
        let rest = events.drop_first();
        assert(events[0].0 is Rotated);
        let e1 = events.take(1);
        assert(e1.drop_first() =~= Seq::<(DialEvent, u64)>::empty());
        assert(e1[0] == events[0]);
        assert(rotation_total(Seq::<(DialEvent, u64)>::empty()) == 0);
        let d = match e {
            DialEvent::Rotated(d) => d as int,
            _ => 0,
        };
        assert(rotation_total(e1) == d);
        assert(0 <= 1 <= events.len());
        assert(i64::MIN <= s.rotation_accum + rotation_total(e1) <= i64::MAX);
        assert(s1.rotation_accum == s.rotation_accum + rotation_total(e1));
        assert forall|i: int| 0 <= i < rest.len() implies #[trigger] rest[i].0 is Rotated by {
            assert(events[i + 1].0 is Rotated);
        }
        assert forall|k: int| 0 <= k <= rest.len() implies i64::MIN <= s1.rotation_accum
            + #[trigger] rotation_total(rest.take(k)) <= i64::MAX by {
            lemma_total_take_tail(events, k);
            assert(0 <= k + 1 <= events.len());
        }
        lemma_rotations_add_up(s1, rest);
        assert(events.take(events.len() as int) =~= events);
        lemma_total_take_tail(events, rest.len() as int);
        assert(rest.take(rest.len() as int) =~= rest);
    }
}

/// The selection wraps around: two rotations whose difference is a whole
/// number `j` of turns of `n` sections (`j * n` steps of `step_milli`
/// thousandths) select the same section, negative rotations included, as
/// long as neither section counter is saturated.
pub proof fn lemma_selection_wraps(accum: int, accum2: int, step_milli: int, n: int, j: int)
    requires
        step_milli > 0,
        n > 0,
        accum2 * 1000 == accum * 1000 + j * n * step_milli,
        i32::MIN <= floor_div(accum * 1000, step_milli) <= i32::MAX,
        i32::MIN <= floor_div(accum2 * 1000, step_milli) <= i32::MAX,
    ensures
        selected_section(accum2, step_milli, n) == selected_section(accum, step_milli, n),
{
    let x = accum * 1000;
    let q = x / step_milli;
    let r = x % step_milli;
    vstd::arithmetic::div_mod::lemma_fundamental_div_mod(x, step_milli);
    assert(accum2 * 1000 == (q + j * n) * step_milli + r) by (nonlinear_arith)
        requires
            x == step_milli * q + r,
            x == accum * 1000,
            accum2 * 1000 == accum * 1000 + j * n * step_milli,
    ;
    vstd::arithmetic::div_mod::lemma_fundamental_div_mod_converse(
        accum2 * 1000,
        step_milli,
        q + j * n,
        r,
    );
    assert(q + j * n == n * j + q) by (nonlinear_arith);
    vstd::arithmetic::div_mod::lemma_mod_multiples_vanish(j, q, n);
}

/// Converting a buffer of whole pixels from RGBA to BGRA and back gives the
/// original bytes.
pub proof fn lemma_conversion_involution(d1: Seq<u8>, d2: Seq<u8>, s: Seq<u8>)
    requires
        d1.len() == s.len(),
        d2.len() == s.len(),
        s.len() % 4 == 0,
    ensures
        converted(d2, converted(d1, s)) == s,
{
    let t = converted(d1, s);
    let k = s.len() / 4;
    assert(4 * k == s.len()) by {
        vstd::arithmetic::div_mod::lemma_fundamental_div_mod(s.len() as int, 4);
    }
    assert forall|i: int| 0 <= i < s.len() implies converted(d2, t)[i] == s[i] by {
        let p = i / 4;
        vstd::arithmetic::div_mod::lemma_fundamental_div_mod(i, 4);
        if i % 4 == 0 {
            assert((i + 2) % 4 == 2) by {
                vstd::arithmetic::div_mod::lemma_fundamental_div_mod_converse(i + 2, 4, p, 2);
            }
        } else if i % 4 == 2 {
            assert((i - 2) % 4 == 0) by {
                vstd::arithmetic::div_mod::lemma_fundamental_div_mod_converse(i - 2, 4, p, 0);
            }
        }
    }
    assert(converted(d2, t) =~= s);
}

// ---------------------------------------------------------------------------
// What each dial event does
// ---------------------------------------------------------------------------

/// Every event records its time and leaves the surface, the configuration
/// and the exit flag alone.
pub proof fn lemma_event_records_time(s: OverlayState, event: DialEvent, t: u64)
    ensures
        ({
            let r = after_event(s, event, t);
            &&& r.last_event == Some(t)
            &&& r.width == s.width
            &&& r.height == s.height
            &&& r.configured == s.configured
            &&& r.exit == s.exit
            &&& r.config == s.config
        }),
{
}

/// With the dial menu open, a rotation adds its delta to the menu rotation
/// (when the sum fits in `i64`) and touches nothing else that is shown.
pub proof fn lemma_menu_rotation_adds(s: OverlayState, delta: i32, t: u64)
    requires
        s.config.style == Style::Dial,
        s.menu_active,
        i64::MIN <= s.menu_accum + delta <= i64::MAX,
    ensures
        ({
            let r = after_event(s, DialEvent::Rotated(delta), t);
            &&& r.menu_accum == s.menu_accum + delta
            &&& r.rotation_accum == s.rotation_accum
            &&& r.is_pressed == s.is_pressed
            &&& r.menu_active
        }),
{
}

/// With the dial menu open, the menu rotation saturates at the ends of
/// `i64` instead of wrapping.
pub proof fn lemma_menu_rotation_saturates(s: OverlayState, delta: i32, t: u64)
    requires
        s.config.style == Style::Dial,
        s.menu_active,
    ensures
        ({
            let m = after_event(s, DialEvent::Rotated(delta), t).menu_accum;
            &&& s.menu_accum + delta > i64::MAX ==> m == i64::MAX
            &&& s.menu_accum + delta < i64::MIN ==> m == i64::MIN
            &&& delta > 0 ==> m > s.menu_accum || m == i64::MAX
            &&& delta < 0 ==> m < s.menu_accum || m == i64::MIN
        }),
{
}

/// Without an open dial menu, a rotation adds its delta to the accumulated
/// rotation (when the sum fits in `i64`) and leaves the menu alone.
pub proof fn lemma_rotation_adds(s: OverlayState, delta: i32, t: u64)
    requires
        !(s.config.style == Style::Dial && s.menu_active),
        i64::MIN <= s.rotation_accum + delta <= i64::MAX,
    ensures
        ({
            let r = after_event(s, DialEvent::Rotated(delta), t);
            &&& r.rotation_accum == s.rotation_accum + delta
            &&& r.menu_accum == s.menu_accum
            &&& r.menu_active == s.menu_active
        }),
{
}

/// Without an open dial menu, the accumulated rotation saturates at the
/// ends of `i64` instead of wrapping.
pub proof fn lemma_rotation_saturates(s: OverlayState, delta: i32, t: u64)
    requires
        !(s.config.style == Style::Dial && s.menu_active),
    ensures
        ({
            let a = after_event(s, DialEvent::Rotated(delta), t).rotation_accum;
            &&& s.rotation_accum + delta > i64::MAX ==> a == i64::MAX
            &&& s.rotation_accum + delta < i64::MIN ==> a == i64::MIN
        }),
{
}

/// In the arc, fill and pie-menu styles any rotation releases the press
/// indicator; in the dial style a rotation leaves the button flag as it was.
pub proof fn lemma_rotation_and_button(s: OverlayState, delta: i32, t: u64)
    ensures
        s.config.style != Style::Dial ==> !after_event(s, DialEvent::Rotated(delta), t).is_pressed,
        s.config.style == Style::Dial ==> after_event(s, DialEvent::Rotated(delta), t).is_pressed
            == s.is_pressed,
{
}

/// Pressing sets the button flag and keeps the accumulated rotation; in the
/// dial style it opens the menu with a fresh menu rotation of zero, in the
/// other styles it leaves the menu alone.
pub proof fn lemma_press_effect(s: OverlayState, t: u64)
    ensures
        ({
            let r = after_event(s, DialEvent::Pressed, t);
            &&& r.is_pressed
            &&& r.rotation_accum == s.rotation_accum
            &&& s.config.style == Style::Dial ==> r.menu_active && r.menu_accum == 0
            &&& s.config.style != Style::Dial ==> r.menu_active == s.menu_active && r.menu_accum
                == s.menu_accum
        }),
{
}

/// Releasing clears the button flag and closes the menu, keeping both
/// rotations.
pub proof fn lemma_release_effect(s: OverlayState, t: u64)
    ensures
        ({
            let r = after_event(s, DialEvent::Released, t);
            &&& !r.is_pressed
            &&& !r.menu_active
            &&& r.rotation_accum == s.rotation_accum
            &&& r.menu_accum == s.menu_accum
        }),
{
}

// ---------------------------------------------------------------------------
// The visibility timeout
// ---------------------------------------------------------------------------

/// A tick more than `timeout_ms` milliseconds (in microseconds: `* 1000`)
/// after the last event is stale, and resets the overlay to idle.
pub proof fn lemma_late_tick_resets(s: OverlayState, t: u64, now: u64)
    requires
        s.last_event == Some(t),
        now > t + s.config.timeout_ms * 1000,
    ensures
        is_stale(s, now),
        ({
            let r = after_tick(s, now);
            &&& r.rotation_accum == 0
            &&& !r.is_pressed
            &&& !r.menu_active
            &&& r.config == s.config
            &&& r.last_event == s.last_event
        }),
{
}

/// A tick no later than the timeout after the last event, or before any
/// event, is not stale and changes nothing.
pub proof fn lemma_early_tick_keeps(s: OverlayState, now: u64)
    requires
        match s.last_event {
            Some(t) => now <= t + s.config.timeout_ms * 1000,
            None => true,
        },
    ensures
        !is_stale(s, now),
        after_tick(s, now) == s,
{
}

// ---------------------------------------------------------------------------
// What each style draws
// ---------------------------------------------------------------------------

/// Pie-menu style with at least one section: while the button is held the
/// pie menu is shown with the press dot, whatever the rotation (zero
/// included); with the button up it carries no press dot.
pub proof fn lemma_pie_menu_press(
    config: OverlayConfig,
    rot: int,
    pressed: bool,
    menu_active: bool,
    menu: int,
    f: FramePlan,
)
    requires
        config.style == Style::PieMenu,
        config.pie_menu.sections@.len() > 0,
        frame_spec(config, rot, pressed, menu_active, menu, f),
    ensures
        pressed ==> (f matches FramePlan::PieMenu(m) && m.press_dot == Some(config.colors.press)),
        !pressed && rot != 0 ==> (f matches FramePlan::PieMenu(m) && m.press_dot is None),
        !pressed && rot == 0 ==> f is Clear,
{
}

/// Pie-menu style: there is one coloured section per configured section,
/// exactly the selected one in the selected colour, and no pie menu at all
/// without sections.
pub proof fn lemma_pie_menu_sections(
    config: OverlayConfig,
    rot: int,
    pressed: bool,
    menu_active: bool,
    menu: int,
    f: FramePlan,
)
    requires
        config.style == Style::PieMenu,
        config.pie_menu.selected_color != config.pie_menu.unselected_color,
        frame_spec(config, rot, pressed, menu_active, menu, f),
    ensures
        config.pie_menu.sections@.len() == 0 ==> f is Clear,
        f matches FramePlan::PieMenu(m) ==> {
            let n = config.pie_menu.sections@.len() as int;
            let sel = selected_section(rot, config.pie_menu.selection_step_milli as int, n);
            &&& m.section_colors@.len() == n
            &&& 0 <= sel < n
            &&& forall|i: int|
                0 <= i < n ==> (#[trigger] m.section_colors@[i] == config.pie_menu.selected_color
                    <==> i == sel)
        },
{
    if let FramePlan::PieMenu(m) = f {
        let n = config.pie_menu.sections@.len() as int;
        let sel = selected_section(rot, config.pie_menu.selection_step_milli as int, n);
        assert(m.section_colors@ == section_colors(
            n as nat,
            sel,
            config.pie_menu.selected_color,
            config.pie_menu.unselected_color,
        ));
    }
}

/// Dial style: while the menu is open the dial menu is shown and its
/// selection follows the menu rotation only (not the accumulated
/// rotation); with the menu closed a non-zero rotation shows the value arc.
pub proof fn lemma_dial_frames(
    config: OverlayConfig,
    rot: int,
    rot2: int,
    pressed: bool,
    menu_active: bool,
    menu: int,
    f: FramePlan,
    g: FramePlan,
)
    requires
        config.style == Style::Dial,
        frame_spec(config, rot, pressed, menu_active, menu, f),
        frame_spec(config, rot2, pressed, menu_active, menu, g),
    ensures
        menu_active ==> (f matches FramePlan::DialMenu(m) && g matches FramePlan::DialMenu(m2)
            && m.selected == m2.selected && m.selected == selected_section(
            menu,
            config.pie_menu.selection_step_milli as int,
            (if config.pie_menu.sections@.len() == 0 {
                1
            } else {
                config.pie_menu.sections@.len()
            }) as int,
        )),
        !menu_active && rot > 0 ==> (f matches FramePlan::DialRotation { sweep_degrees, .. }
            && sweep_degrees == (if 12 * rot > 330 {
            330
        } else {
            12 * rot
        })),
        !menu_active && rot < 0 ==> (f matches FramePlan::DialRotation { sweep_degrees, .. }
            && sweep_degrees == (if 12 * rot < -330 {
            -330
        } else {
            12 * rot
        })),
        !menu_active && rot == 0 ==> f is Clear,
{
}

/// Arc and fill styles, button up: the sweep is 15 degrees per rotation
/// unit, clamped to 300 (arc) or 360 (fill) degrees either way.
pub proof fn lemma_arc_fill_sweep(config: OverlayConfig, rot: int, menu: int, f: FramePlan)
    requires
        config.style == Style::Arc || config.style == Style::Fill,
        frame_spec(config, rot, false, false, menu, f),
    ensures
        ({
            let limit: int = if config.style == Style::Arc {
                300
            } else {
                360
            };
            let expected = if 15 * rot > limit {
                limit
            } else if 15 * rot < -limit {
                -limit
            } else {
                15 * rot
            };
            &&& config.style == Style::Arc && rot != 0 ==> (f matches FramePlan::RotationArc {
                sweep_degrees,
                ..
            } && sweep_degrees == expected)
            &&& config.style == Style::Fill && rot != 0 ==> (f matches FramePlan::RotationFill {
                sweep_degrees,
                ..
            } && sweep_degrees == expected)
            &&& rot == 0 ==> f is Clear
        }),
{
}

// ---------------------------------------------------------------------------
// D-Bus signals
// ---------------------------------------------------------------------------

/// Every decoded rotation signal is forwarded with its delta unchanged, in
/// either direction; an undecodable one is dropped; press and release are
/// always forwarded.
pub proof fn lemma_signals_forwarded(delta: i32)
    ensures
        signal_event(DialSignal::Rotated(Some(delta))) == Some(DialEvent::Rotated(delta)),
        signal_event(DialSignal::Rotated(None)) is None,
        signal_event(DialSignal::Pressed) == Some(DialEvent::Pressed),
        signal_event(DialSignal::Released) == Some(DialEvent::Released),
{
}

// ---------------------------------------------------------------------------
// Colours, selection edges and pixel conversion
// ---------------------------------------------------------------------------

/// Brightening a channel adds the amount, stopping at 255: the result never
/// falls below the input, never exceeds 255, and equals the plain sum when
/// that fits.
pub proof fn lemma_brighten_channel(x: u8, amount: u16)
    ensures
        brighten_channel(x, amount) >= x,
        x + amount <= 255 ==> brighten_channel(x, amount) == x + amount,
        x + amount >= 255 ==> brighten_channel(x, amount) == 255,
        amount == 0 ==> brighten_channel(x, amount) == x,
{
}

/// The glow alphas of the dial arc are the accent alpha scaled by 8% and
/// 22%, rounded to nearest (halves up), and the accent alpha itself.
pub proof fn lemma_glow_alphas(a: u8)
    ensures
        ({
            let g = glow_alphas(a);
            &&& g.len() == 3
            &&& -50 < 100 * g[0] - 8 * a <= 50
            &&& -50 < 100 * g[1] - 22 * a <= 50
            &&& g[2] == a
        }),
{
    assert(0 <= (a * 8 + 50) / 100 <= 255 && 0 <= (a * 22 + 50) / 100 <= 255) by (nonlinear_arith)
        requires
            0 <= a <= 255,
    ;
    assert(-50 < 100 * ((a * 8 + 50) / 100) - 8 * a <= 50) by (nonlinear_arith)
        requires
            0 <= a <= 255,
    ;
    assert(-50 < 100 * ((a * 22 + 50) / 100) - 22 * a <= 50) by (nonlinear_arith)
        requires
            0 <= a <= 255,
    ;
}

/// Every frame that draws a background uses the configured background; the
/// press frame uses the press colour; the dial frames use the clockwise
/// colour as accent and a hub that is the background brightened by 38 with
/// the same alpha.
pub proof fn lemma_frame_colours(
    config: OverlayConfig,
    rot: int,
    pressed: bool,
    menu_active: bool,
    menu: int,
    f: FramePlan,
)
    requires
        frame_spec(config, rot, pressed, menu_active, menu, f),
    ensures
        f matches FramePlan::Press { background, press } ==> background == config.colors.background
            && press == config.colors.press,
        f matches FramePlan::RotationArc { background, .. } ==> background
            == config.colors.background,
        f matches FramePlan::RotationFill { background, .. } ==> background
            == config.colors.background,
        f matches FramePlan::DialRotation { background, accent, glow_alphas: g, .. } ==> background
            == config.colors.background && accent == config.colors.cw && g@ == glow_alphas(
            config.colors.cw@[3],
        ),
        f matches FramePlan::PieMenu(m) ==> m.background == config.colors.background,
        f matches FramePlan::DialMenu(m) ==> {
            let bg = config.colors.background;
            &&& m.background == bg
            &&& m.accent == config.colors.cw
            &&& m.hub@.len() == 4
            &&& m.hub@[3] == bg@[3]
            &&& forall|i: int| 0 <= i < 3 ==> #[trigger] m.hub@[i] == brighten_channel(bg@[i], 38)
        },
{
    if let FramePlan::DialMenu(m) = f {
        assert(m.hub@.len() == 4);
    }
}

/// The selection starts at section 0 for a rotation below one step, and a
/// rotation of less than one step backwards selects the last section.
pub proof fn lemma_selection_edges(accum: int, step_milli: int, n: int)
    requires
        step_milli > 0,
        n > 0,
    ensures
        0 <= accum * 1000 < step_milli ==> selected_section(accum, step_milli, n) == 0,
        -step_milli <= accum * 1000 < 0 ==> selected_section(accum, step_milli, n) == n - 1,
{
    let x = accum * 1000;
    if 0 <= x < step_milli {
        vstd::arithmetic::div_mod::lemma_fundamental_div_mod_converse(x, step_milli, 0, x);
        vstd::arithmetic::div_mod::lemma_small_mod(0, n as nat);
    }
    if -step_milli <= x < 0 {
        vstd::arithmetic::div_mod::lemma_fundamental_div_mod_converse(
            x,
            step_milli,
            -1,
            x + step_milli,
        );
        vstd::arithmetic::div_mod::lemma_fundamental_div_mod_converse(-1, n, -1, n - 1);
    }
}

/// Converting RGBA to BGRA puts byte 2 of each whole source pixel first,
/// byte 0 third, keeps bytes 1 and 3 in place, and leaves the bytes of the
/// destination past the whole pixels untouched.
pub proof fn lemma_conversion_bytes(d: Seq<u8>, s: Seq<u8>, p: int, i: int)
    requires
        0 <= p < whole_pixels(d.len() as int, s.len() as int),
    ensures
        converted(d, s).len() == d.len(),
        converted(d, s)[4 * p] == s[4 * p + 2],
        converted(d, s)[4 * p + 1] == s[4 * p + 1],
        converted(d, s)[4 * p + 2] == s[4 * p],
        converted(d, s)[4 * p + 3] == s[4 * p + 3],
        4 * whole_pixels(d.len() as int, s.len() as int) <= i < d.len() ==> converted(d, s)[i]
            == d[i],
{
    let k = whole_pixels(d.len() as int, s.len() as int);
    assert(4 * k <= d.len()) by {
        vstd::arithmetic::div_mod::lemma_fundamental_div_mod(d.len() as int, 4);
        vstd::arithmetic::div_mod::lemma_fundamental_div_mod(s.len() as int, 4);
    }
    vstd::arithmetic::div_mod::lemma_fundamental_div_mod_converse(4 * p, 4, p, 0);
    vstd::arithmetic::div_mod::lemma_fundamental_div_mod_converse(4 * p + 1, 4, p, 1);
    vstd::arithmetic::div_mod::lemma_fundamental_div_mod_converse(4 * p + 2, 4, p, 2);
    vstd::arithmetic::div_mod::lemma_fundamental_div_mod_converse(4 * p + 3, 4, p, 3);
}

} // verus!
