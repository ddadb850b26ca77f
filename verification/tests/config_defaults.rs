use surface_dial_overlay::config::{
    default_size, default_timeout_ms, Colors, OverlayConfig, PieMenuConfig, Style,
};

#[test]
fn style_default_is_fill() {
    assert_eq!(Style::default(), Style::Fill);
}

#[test]
fn color_defaults() {
    assert_eq!(Colors::default_cw(), [80, 210, 120, 230]);
    assert_eq!(Colors::default_ccw(), [220, 90, 80, 230]);
    assert_eq!(Colors::default_press(), [80, 140, 255, 200]);
    assert_eq!(Colors::default_background(), [30, 30, 40, 180]);
    let c = Colors::default();
    assert_eq!(c.cw, [80, 210, 120, 230]);
    assert_eq!(c.ccw, [220, 90, 80, 230]);
    assert_eq!(c.press, [80, 140, 255, 200]);
    assert_eq!(c.background, [30, 30, 40, 180]);
}

#[test]
fn pie_menu_defaults() {
    let pm = PieMenuConfig::default();
    assert_eq!(pm.sections, vec!["Option 1", "Option 2", "Option 3", "Option 4"]);
    assert_eq!(pm.selected_color, [80, 140, 255, 230]);
    assert_eq!(pm.unselected_color, [50, 50, 60, 180]);
    assert_eq!(pm.gap_millidegrees, 4000);
    assert_eq!(pm.selection_step_milli, 5000);
    assert_eq!(PieMenuConfig::default_sections().len(), 4);
    assert_eq!(PieMenuConfig::default_selected_color(), [80, 140, 255, 230]);
    assert_eq!(PieMenuConfig::default_unselected_color(), [50, 50, 60, 180]);
    assert_eq!(PieMenuConfig::default_gap_millidegrees(), 4000);
    assert_eq!(PieMenuConfig::default_selection_step_milli(), 5000);
}

#[test]
fn overlay_defaults() {
    assert_eq!(default_timeout_ms(), 2000);
    assert_eq!(default_size(), 200);
    let c = OverlayConfig::default();
    assert_eq!(c.style, Style::Fill);
    assert_eq!(c.timeout_ms, 2000);
    assert_eq!(c.size, 200);
    assert_eq!(c.colors.cw, [80, 210, 120, 230]);
    assert_eq!(c.pie_menu.sections.len(), 4);
}
