use surface_dial_overlay::config::{OverlayConfig, Style};
use surface_dial_overlay::event::{DialEvent, DialSignal};
use surface_dial_overlay::frame::FramePlan;
use surface_dial_overlay::state::{OverlayState, SurfaceMode};

fn state(style: Style) -> OverlayState {
    let mut c = OverlayConfig::default();
    c.style = style;
    OverlayState::new(c)
}

#[test]
fn new_state_is_idle() {
    let s = state(Style::Fill);
    assert_eq!((s.width, s.height), (200, 200));
    assert_eq!(s.rotation_accum, 0);
    assert!(!s.is_pressed && !s.menu_active && !s.configured && !s.exit);
    assert_eq!(s.last_event, None);
}

#[test]
fn rotation_accumulates_and_clears_press() {
    let mut s = state(Style::Fill);
    assert!(!s.handle_dial_event(DialEvent::Pressed, 10));
    assert!(s.is_pressed);
    s.handle_dial_event(DialEvent::Rotated(1), 20);
    s.handle_dial_event(DialEvent::Rotated(1), 30);
    s.handle_dial_event(DialEvent::Rotated(-3), 40);
    assert_eq!(s.rotation_accum, -1);
    assert!(!s.is_pressed);
    assert_eq!(s.last_event, Some(40));
}

#[test]
fn redraw_only_once_configured() {
    let mut s = state(Style::Arc);
    assert!(!s.handle_dial_event(DialEvent::Rotated(1), 1));
    assert!(s.configure_layer(0, 0));
    assert!(s.handle_dial_event(DialEvent::Rotated(1), 2));
}

#[test]
fn rotation_saturates() {
    let mut s = state(Style::Fill);
    s.rotation_accum = i64::MAX - 1;
    s.handle_dial_event(DialEvent::Rotated(5), 1);
    assert_eq!(s.rotation_accum, i64::MAX);
    s.rotation_accum = i64::MIN + 1;
    s.handle_dial_event(DialEvent::Rotated(-5), 1);
    assert_eq!(s.rotation_accum, i64::MIN);
}

#[test]
fn dial_press_opens_menu_and_rotation_moves_selection() {
    let mut s = state(Style::Dial);
    s.handle_dial_event(DialEvent::Rotated(4), 1);
    assert_eq!(s.rotation_accum, 4);
    s.handle_dial_event(DialEvent::Pressed, 2);
    assert!(s.is_pressed && s.menu_active);
    assert_eq!(s.menu_accum, 0);
    s.handle_dial_event(DialEvent::Rotated(6), 3);
    assert_eq!(s.menu_accum, 6);
    assert_eq!(s.rotation_accum, 4);
    match s.frame() {
        FramePlan::DialMenu(m) => assert_eq!(m.selected, 1),
        _ => panic!("expected a dial menu"),
    }
    s.handle_dial_event(DialEvent::Released, 4);
    assert!(!s.is_pressed && !s.menu_active);
    assert!(matches!(s.frame(), FramePlan::DialRotation { .. }));
    // the next press starts a fresh selection
    s.handle_dial_event(DialEvent::Pressed, 5);
    assert_eq!(s.menu_accum, 0);
}

#[test]
fn dial_rotation_keeps_press_flag_when_menu_closed() {
    let mut s = state(Style::Dial);
    s.is_pressed = true;
    s.handle_dial_event(DialEvent::Rotated(2), 1);
    assert!(s.is_pressed);
    assert_eq!(s.rotation_accum, 2);
}

#[test]
fn tick_hides_after_timeout() {
    let mut s = state(Style::Fill);
    s.configure_layer(200, 200);
    s.handle_dial_event(DialEvent::Rotated(3), 1_000_000);
    // exactly at the timeout: still shown
    assert!(!s.tick_visibility(3_000_000));
    assert_eq!(s.rotation_accum, 3);
    // past the timeout: reset and redraw
    assert!(s.tick_visibility(3_000_001));
    assert_eq!(s.rotation_accum, 0);
    assert!(matches!(s.frame(), FramePlan::Clear));
    // every later tick past the timeout redraws the transparent overlay
    assert!(s.tick_visibility(9_000_000));
    assert_eq!(s.rotation_accum, 0);
    assert!(!s.is_pressed && !s.menu_active);
    assert!(matches!(s.frame(), FramePlan::Clear));
}

#[test]
fn stale_tick_on_idle_overlay_redraws_without_change() {
    let mut s = state(Style::Dial);
    s.configure_layer(0, 0);
    s.handle_dial_event(DialEvent::Pressed, 0);
    s.handle_dial_event(DialEvent::Rotated(3), 0);
    s.handle_dial_event(DialEvent::Released, 0);
    assert_eq!(s.menu_accum, 3);
    assert!(s.tick_visibility(2_000_001));
    assert_eq!(s.menu_accum, 3);
    assert_eq!(s.rotation_accum, 0);
    assert!(matches!(s.frame(), FramePlan::Clear));
}

#[test]
fn tick_without_events_does_nothing() {
    let mut s = state(Style::Fill);
    s.is_pressed = true;
    assert!(!s.tick_visibility(u64::MAX));
    assert!(s.is_pressed);
}

#[test]
fn tick_with_clock_behind_last_event() {
    let mut s = state(Style::Fill);
    s.configure_layer(0, 0);
    s.handle_dial_event(DialEvent::Pressed, 500);
    assert!(!s.tick_visibility(100));
    assert!(s.is_pressed);
}

#[test]
fn tick_resets_dial_menu() {
    let mut s = state(Style::Dial);
    s.handle_dial_event(DialEvent::Pressed, 0);
    s.handle_dial_event(DialEvent::Rotated(9), 0);
    assert!(!s.tick_visibility(2_000_001)); // not configured: no redraw
    assert!(!s.is_pressed && !s.menu_active);
    assert_eq!(s.menu_accum, 0);
}

#[test]
fn layer_configure_draws_first_time_only() {
    let mut s = state(Style::Fill);
    assert!(s.configure_layer(300, 0));
    assert_eq!((s.width, s.height), (300, 200));
    assert!(s.configured);
    assert!(!s.configure_layer(0, 150));
    assert_eq!((s.width, s.height), (300, 150));
}

#[test]
fn window_configure_always_draws() {
    let mut s = state(Style::Fill);
    assert!(s.configure_window(Some(640), None));
    assert!(s.configure_window(None, Some(480)));
    assert_eq!((s.width, s.height), (640, 480));
    assert!(s.configured);
}

#[test]
fn close_requests_exit() {
    let mut s = state(Style::Fill);
    s.close();
    assert!(s.exit);
}

#[test]
fn surface_size_at_least_one() {
    let mut s = state(Style::Fill);
    s.width = 0;
    s.height = 7;
    assert_eq!(s.surface_size(), (1, 7));
}

#[test]
fn surface_mode_names() {
    assert_eq!(SurfaceMode::Layer.name(), "layer-shell");
    assert_eq!(SurfaceMode::Window.name(), "xdg-window");
}

#[test]
fn signals_become_events() {
    assert_eq!(DialEvent::from_signal(DialSignal::Rotated(Some(-1))), Some(DialEvent::Rotated(-1)));
    assert_eq!(DialEvent::from_signal(DialSignal::Rotated(None)), None);
    assert_eq!(DialEvent::from_signal(DialSignal::Pressed), Some(DialEvent::Pressed));
    assert_eq!(DialEvent::from_signal(DialSignal::Released), Some(DialEvent::Released));
}
