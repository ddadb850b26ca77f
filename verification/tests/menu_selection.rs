use surface_dial_overlay::menu::{
    build_section_colors, section_counter_of, sections_fit_of, select_section, wrap_section,
};

#[test]
fn selection_with_default_step() {
    // 5 rotation units per section, 4 sections
    assert_eq!(select_section(0, 5000, 4), 0);
    assert_eq!(select_section(4, 5000, 4), 0);
    assert_eq!(select_section(5, 5000, 4), 1);
    assert_eq!(select_section(14, 5000, 4), 2);
    assert_eq!(select_section(19, 5000, 4), 3);
    assert_eq!(select_section(20, 5000, 4), 0);
}

#[test]
fn selection_backwards_wraps_to_last() {
    assert_eq!(select_section(-1, 5000, 4), 3);
    assert_eq!(select_section(-5, 5000, 4), 3);
    assert_eq!(select_section(-6, 5000, 4), 2);
    assert_eq!(select_section(-20, 5000, 4), 0);
}

#[test]
fn selection_fractional_step() {
    // 2.5 units per section
    assert_eq!(section_counter_of(5, 2500), 2);
    assert_eq!(section_counter_of(4, 2500), 1);
    assert_eq!(section_counter_of(-1, 2500), -1);
    assert_eq!(select_section(7, 2500, 3), 2);
}

#[test]
fn selection_negative_step() {
    assert_eq!(section_counter_of(5, -5000), -1);
    assert_eq!(section_counter_of(-5, -5000), 1);
    assert_eq!(section_counter_of(-4, -5000), 0);
    assert_eq!(section_counter_of(4, -5000), -1);
    assert_eq!(select_section(5, -5000, 4), 3);
}

#[test]
fn selection_zero_step() {
    assert_eq!(section_counter_of(3, 0), i32::MAX);
    assert_eq!(section_counter_of(-3, 0), i32::MIN);
    assert_eq!(section_counter_of(0, 0), 0);
    assert_eq!(select_section(3, 0, 4), 3);
    assert_eq!(select_section(-3, 0, 4), 0);
    assert_eq!(select_section(0, 0, 4), 0);
}

#[test]
fn selection_saturates() {
    assert_eq!(section_counter_of(i64::MAX, 1), i32::MAX);
    assert_eq!(section_counter_of(i64::MIN, 1), i32::MIN);
    assert_eq!(section_counter_of(i64::MIN, -1), i32::MAX);
}

#[test]
fn wrap_is_euclidean() {
    assert_eq!(wrap_section(7, 3), 1);
    assert_eq!(wrap_section(-7, 3), 2);
    assert_eq!(wrap_section(-6, 3), 0);
    assert_eq!(wrap_section(i32::MIN, 7), 5);
    assert_eq!(wrap_section(i32::MAX, 1), 0);
}

#[test]
fn sections_fit_cases() {
    assert!(sections_fit_of(4000, 4));
    assert!(sections_fit_of(89_999, 4));
    assert!(!sections_fit_of(90_000, 4));
    assert!(!sections_fit_of(400_000, 1));
    assert!(sections_fit_of(-5, 3));
    assert!(sections_fit_of(0, 1_000_000));
    assert!(!sections_fit_of(1, 400_000));
}

#[test]
fn section_colors_mark_selection() {
    let v = build_section_colors(3, 1, [1, 1, 1, 1], [2, 2, 2, 2]);
    assert_eq!(v, vec![[2, 2, 2, 2], [1, 1, 1, 1], [2, 2, 2, 2]]);
    let none = build_section_colors(0, 0, [1, 1, 1, 1], [2, 2, 2, 2]);
    assert!(none.is_empty());
}
