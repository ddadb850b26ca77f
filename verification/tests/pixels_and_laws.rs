use surface_dial_overlay::config::{OverlayConfig, Style};
use surface_dial_overlay::event::DialEvent;
use surface_dial_overlay::frame::{frame_plan, FramePlan};
use surface_dial_overlay::menu::{section_counter_of, select_section};
use surface_dial_overlay::pixels::rgba_to_bgra;
use surface_dial_overlay::state::OverlayState;

#[test]
fn conversion_swaps_red_and_blue() {
    let src = [1u8, 2, 3, 4, 5, 6, 7, 8, 9];
    let mut dst = [0u8; 9];
    rgba_to_bgra(&mut dst, &src);
    assert_eq!(dst, [3, 2, 1, 4, 7, 6, 5, 8, 0]);
}

#[test]
fn conversion_stops_at_shorter_buffer() {
    let src = [1u8, 2, 3, 4, 5, 6, 7, 8];
    let mut dst = [9u8; 6];
    rgba_to_bgra(&mut dst, &src);
    assert_eq!(dst, [3, 2, 1, 4, 9, 9]);
    let mut big = [9u8; 10];
    rgba_to_bgra(&mut big, &src[..5]);
    assert_eq!(big, [3, 2, 1, 4, 9, 9, 9, 9, 9, 9]);
}

#[test]
fn conversion_twice_is_identity() {
    let src: Vec<u8> = (0..64u8).collect();
    let mut once = vec![0u8; 64];
    rgba_to_bgra(&mut once, &src);
    assert_ne!(once, src);
    let mut twice = vec![0u8; 64];
    rgba_to_bgra(&mut twice, &once);
    assert_eq!(twice, src);
}

#[test]
fn reverse_rotation_restores_accumulator() {
    let mut s = OverlayState::new(OverlayConfig::default());
    s.rotation_accum = 17;
    s.handle_dial_event(DialEvent::Rotated(5), 1);
    s.handle_dial_event(DialEvent::Rotated(-5), 2);
    assert_eq!(s.rotation_accum, 17);
}

#[test]
fn press_then_release_leaves_button_up() {
    let mut c = OverlayConfig::default();
    c.style = Style::Dial;
    let mut s = OverlayState::new(c);
    s.rotation_accum = 3;
    s.handle_dial_event(DialEvent::Pressed, 1);
    s.handle_dial_event(DialEvent::Released, 2);
    assert!(!s.is_pressed && !s.menu_active);
    assert_eq!(s.rotation_accum, 3);
}

#[test]
fn each_step_advances_one_section() {
    for a in -30i64..30 {
        let next = select_section(a + 5, 5000, 4);
        assert_eq!(next, (select_section(a, 5000, 4) + 1) % 4);
        assert_eq!(section_counter_of(a + 5, 5000), section_counter_of(a, 5000) + 1);
    }
}

#[test]
fn rotation_direction_picks_colour_and_sign() {
    let mut c = OverlayConfig::default();
    c.style = Style::Arc;
    for rot in [-7i64, -1, 1, 7] {
        match frame_plan(&c, rot, false, false, 0) {
            FramePlan::RotationArc { color, sweep_degrees, .. } => {
                if rot > 0 {
                    assert_eq!(color, c.colors.cw);
                    assert!(sweep_degrees > 0);
                } else {
                    assert_eq!(color, c.colors.ccw);
                    assert!(sweep_degrees < 0);
                }
            }
            _ => panic!("expected an arc frame"),
        }
    }
}

#[test]
fn recent_event_survives_tick() {
    let mut s = OverlayState::new(OverlayConfig::default());
    s.handle_dial_event(DialEvent::Rotated(2), 5_000);
    assert!(!s.tick_visibility(5_000 + 2_000_000));
    assert_eq!(s.rotation_accum, 2);
    s.tick_visibility(5_000 + 2_000_001);
    s.tick_visibility(5_000 + 2_000_001);
    assert_eq!(s.rotation_accum, 0);
}

#[test]
fn rotations_add_up_in_any_order() {
    let mut a = OverlayState::new(OverlayConfig::default());
    let mut b = OverlayState::new(OverlayConfig::default());
    for (i, d) in [1, 1, -1, 3, -2].into_iter().enumerate() {
        a.handle_dial_event(DialEvent::Rotated(d), i as u64);
    }
    for (i, d) in [-2, 3, -1, 1, 1].into_iter().enumerate() {
        b.handle_dial_event(DialEvent::Rotated(d), i as u64);
    }
    assert_eq!(a.rotation_accum, 2);
    assert_eq!(b.rotation_accum, 2);
}

#[test]
fn selection_wraps_after_whole_turns() {
    for a in -40i64..40 {
        // 4 sections of 5 units: a whole turn is 20 units
        assert_eq!(select_section(a + 20, 5000, 4), select_section(a, 5000, 4));
        assert_eq!(select_section(a - 40, 5000, 4), select_section(a, 5000, 4));
        // 3 sections of 2.5 units: two turns are 15 units
        assert_eq!(select_section(a + 15, 2500, 3), select_section(a, 2500, 3));
    }
}
