//! What each frame of the overlay shows, decided from the configuration and
//! the dial state. The geometry (centre, radius, angles in radians) is left
//! to the renderer; this module fixes which elements are drawn, with which
//! colours, sweeps and selection.
use vstd::prelude::*;

use crate::config::{Colors, OverlayConfig, Rgba, Style, rgba};
use crate::menu::{
    build_section_colors, section_colors, sections_fit, sections_fit_of, select_section,
    selected_section,
};

verus! {

/// The pie-menu style frame: a background disc, the sections around it, a
/// transparent centre and, while the button is held, a press dot.
pub struct PieMenuPlan {
    pub background: Rgba,
    /// One colour per section, in order from 12 o'clock clockwise.
    pub section_colors: Vec<Rgba>,
    /// Whether the sections are drawn at all (their sweep is positive).
    pub sections_visible: bool,
    /// Gap between sections, in thousandths of a degree.
    pub gap_millidegrees: i64,
    /// Colour of the centre dot shown while the button is held.
    pub press_dot: Option<Rgba>,
}

/// The dial-style menu frame, shown while the button is held.
pub struct DialMenuPlan {
    pub background: Rgba,
    /// Accent colour of the selection indicator and of the hub dot.
    pub accent: Rgba,
    /// One colour per section, in order from 12 o'clock clockwise.
    pub section_colors: Vec<Rgba>,
    /// Whether the sections (and the selection indicator) are drawn.
    pub sections_visible: bool,
    /// Gap between sections, in thousandths of a degree.
    pub gap_millidegrees: i64,
    /// Index of the selected section.
    pub selected: usize,
    /// Colour of the hub disc.
    pub hub: Rgba,
}

/// The content of one frame.
pub enum FramePlan {
    /// Nothing is drawn: the overlay is fully transparent.
    Clear,
    /// Button held (arc and fill styles): background disc, press disc and a
    /// white centre dot.
    Press { background: Rgba, press: Rgba },
    /// Arc style: background ring and an arc stroke of `sweep_degrees`
    /// starting at 12 o'clock (positive is clockwise).
    RotationArc { background: Rgba, color: Rgba, sweep_degrees: i64 },
    /// Fill style: background disc and a wedge of `sweep_degrees` starting at
    /// 12 o'clock (positive is clockwise).
    RotationFill { background: Rgba, color: Rgba, sweep_degrees: i64 },
    /// Dial style, menu closed: background disc, track ring, an accent arc of
    /// `sweep_degrees` drawn in three glow passes with the given alphas, a tip
    /// dot and a centre dot.
    DialRotation { background: Rgba, accent: Rgba, glow_alphas: [u8; 3], sweep_degrees: i64 },
    /// Pie-menu style.
    PieMenu(PieMenuPlan),
    /// Dial style, menu open.
    DialMenu(DialMenuPlan),
}

/// `x` clamped into `-limit..=limit`.
pub open spec fn clamp_sym(x: int, limit: int) -> int {
    if x > limit {
        limit
    } else if x < -limit {
        -limit
    } else {
        x
    }
}

/// The sweep of a rotation indicator: `per_unit` degrees per rotation unit,
/// clamped to `limit` degrees either way.
pub open spec fn sweep(accum: int, per_unit: int, limit: int) -> int {
    clamp_sym(accum * per_unit, limit)
}

/// Clockwise colour for a positive rotation, counter-clockwise otherwise.
pub open spec fn rotation_color(c: Colors, accum: int) -> Rgba {
    if accum > 0 {
        c.cw
    } else {
        c.ccw
    }
}

/// One channel raised by `amount`, saturating at 255.
pub open spec fn brighten_channel(x: u8, amount: u16) -> u8 {
    if x + amount > 255 {
        255
    } else {
        (x + amount) as u8
    }
}

/// An alpha value scaled by `percent` percent, rounded to nearest.
pub open spec fn scale_alpha(a: u8, percent: int) -> int {
    (a * percent + 50) / 100
}

/// The alphas of the three glow passes of the dial arc: 8%, 22% and 100% of
/// the accent alpha.
pub open spec fn glow_alphas(a: u8) -> Seq<u8> {
    seq![scale_alpha(a, 8) as u8, scale_alpha(a, 22) as u8, a]
}

/// Brighten a colour by adding `amount` to its red, green and blue channels,
/// each clamped at 255; alpha is kept.
pub fn brighten(c: Rgba, amount: u16) -> (r: Rgba)
    ensures
        r@ == rgba(
            brighten_channel(c@[0], amount),
            brighten_channel(c@[1], amount),
            brighten_channel(c@[2], amount),
            c@[3],
        ),
{
    let r0: u32 = c[0] as u32 + amount as u32;
    let r1: u32 = c[1] as u32 + amount as u32;
    let r2: u32 = c[2] as u32 + amount as u32;
    let b0: u8 = if r0 > 255 { 255 } else { r0 as u8 };
    let b1: u8 = if r1 > 255 { 255 } else { r1 as u8 };
    let b2: u8 = if r2 > 255 { 255 } else { r2 as u8 };
    let r: Rgba = [b0, b1, b2, c[3]];
    assert(r@ =~= rgba(
        brighten_channel(c@[0], amount),
        brighten_channel(c@[1], amount),
        brighten_channel(c@[2], amount),
        c@[3],
    ));
    r
}

/// The sweep of a rotation indicator, in whole degrees.
fn sweep_degrees(accum: i64, per_unit: i64, limit: i64) -> (s: i64)
    requires
        0 < per_unit <= limit <= 1000,
    ensures
        s == sweep(accum as int, per_unit as int, limit as int),
{
    let a: i64 = if accum > limit {
        limit
    } else if accum < -limit {
        -limit
    } else {
        accum
    };
    assert(-1000000 <= a * per_unit <= 1000000) by (nonlinear_arith)
        requires
            -limit <= a <= limit,
            0 < per_unit <= limit <= 1000,
    ;
    assert(sweep(accum as int, per_unit as int, limit as int) == clamp_sym(
        a * per_unit,
        limit as int,
    )) by (nonlinear_arith)
        requires
            0 < per_unit <= limit,
            a == (if accum > limit {
                limit as int
            } else if accum < -limit {
                -limit
            } else {
                accum as int
            }),
    ;
    let x: i64 = a * per_unit;
    if x > limit {
        limit
    } else if x < -limit {
        -limit
    } else {
        x
    }
}

fn glow_alphas_of(a: u8) -> (g: [u8; 3])
    ensures
        g@ == glow_alphas(a),
{
    let a16: u16 = a as u16;
    let g0: u8 = ((a16 * 8 + 50) / 100) as u8;
    let g1: u8 = ((a16 * 22 + 50) / 100) as u8;
    let g: [u8; 3] = [g0, g1, a];
    assert(g@ =~= glow_alphas(a));
    g
}

/// The pie-menu frame that a rotation `rot` and press state show.
pub open spec fn pie_menu_spec(config: OverlayConfig, rot: int, pressed: bool, m: PieMenuPlan) -> bool {
    let pm = config.pie_menu;
    let n = pm.sections@.len();
    let sel = selected_section(rot, pm.selection_step_milli as int, n as int);
    &&& m.background == config.colors.background
    &&& m.section_colors@ == section_colors(n, sel, pm.selected_color, pm.unselected_color)
    &&& m.sections_visible == sections_fit(pm.gap_millidegrees as int, n as int)
    &&& m.gap_millidegrees == pm.gap_millidegrees
    &&& m.press_dot == (if pressed {
        Some(config.colors.press)
    } else {
        None
    })
}

/// Number of sections of the dial menu: at least one.
pub open spec fn dial_menu_sections(config: OverlayConfig) -> nat {
    let len = config.pie_menu.sections@.len();
    if len == 0 {
        1
    } else {
        len
    }
}

/// The dial-menu frame that a menu rotation `menu` shows.
pub open spec fn dial_menu_spec(config: OverlayConfig, menu: int, m: DialMenuPlan) -> bool {
    let pm = config.pie_menu;
    let n = dial_menu_sections(config);
    let sel = selected_section(menu, pm.selection_step_milli as int, n as int);
    let bg = config.colors.background;
    &&& m.background == bg
    &&& m.accent == config.colors.cw
    &&& m.section_colors@ == section_colors(n, sel, pm.selected_color, pm.unselected_color)
    &&& m.sections_visible == sections_fit(pm.gap_millidegrees as int, n as int)
    &&& m.gap_millidegrees == pm.gap_millidegrees
    &&& m.selected == sel
    &&& m.hub@ == rgba(
        brighten_channel(bg@[0], 38),
        brighten_channel(bg@[1], 38),
        brighten_channel(bg@[2], 38),
        bg@[3],
    )
}

/// The frame shown for a configuration, an accumulated rotation `rot`, the
/// button state, the dial-menu state and the menu rotation `menu`.
pub open spec fn frame_spec(
    config: OverlayConfig,
    rot: int,
    pressed: bool,
    menu_active: bool,
    menu: int,
    f: FramePlan,
) -> bool {
    let c = config.colors;
    match config.style {
        Style::Fill => if pressed {
            f == (FramePlan::Press { background: c.background, press: c.press })
        } else if rot != 0 {
            f == (FramePlan::RotationFill {
                background: c.background,
                color: rotation_color(c, rot),
                sweep_degrees: sweep(rot, 15, 360) as i64,
            })
        } else {
            f is Clear
        },
        Style::Arc => if pressed {
            f == (FramePlan::Press { background: c.background, press: c.press })
        } else if rot != 0 {
            f == (FramePlan::RotationArc {
                background: c.background,
                color: rotation_color(c, rot),
                sweep_degrees: sweep(rot, 15, 300) as i64,
            })
        } else {
            f is Clear
        },
        Style::PieMenu => if (rot != 0 || pressed) && config.pie_menu.sections@.len() > 0 {
            f matches FramePlan::PieMenu(m) && pie_menu_spec(config, rot, pressed, m)
        } else {
            f is Clear
        },
        Style::Dial => if menu_active {
            f matches FramePlan::DialMenu(m) && dial_menu_spec(config, menu, m)
        } else if rot != 0 {
            f matches FramePlan::DialRotation { background, accent, glow_alphas: g, sweep_degrees }
                && background == c.background && accent == c.cw && g@ == glow_alphas(c.cw@[3])
                && sweep_degrees == sweep(rot, 12, 330)
        } else {
            f is Clear
        },
    }
}

/// Decide the content of a frame. A rotation indicator is shown for any
/// non-zero accumulated rotation; what is shown depends on the style.
pub fn frame_plan(
    config: &OverlayConfig,
    rotation_accum: i64,
    is_pressed: bool,
    menu_active: bool,
    menu_accum: i64,
) -> (f: FramePlan)
    requires
        config.style == Style::PieMenu || (config.style == Style::Dial && menu_active)
            ==> config.pie_menu.sections@.len() <= i32::MAX,
    ensures
        frame_spec(*config, rotation_accum as int, is_pressed, menu_active, menu_accum as int, f),
{
    let c = &config.colors;
    let pm = &config.pie_menu;
    match config.style {
        Style::Fill => {
            if is_pressed {
                FramePlan::Press { background: c.background, press: c.press }
            } else if rotation_accum != 0 {
                let color = if rotation_accum > 0 {
                    c.cw
                } else {
                    c.ccw
                };
                FramePlan::RotationFill {
                    background: c.background,
                    color,
                    sweep_degrees: sweep_degrees(rotation_accum, 15, 360),
                }
            } else {
                FramePlan::Clear
            }
        },
        Style::Arc => {
            if is_pressed {
                FramePlan::Press { background: c.background, press: c.press }
            } else if rotation_accum != 0 {
                let color = if rotation_accum > 0 {
                    c.cw
                } else {
                    c.ccw
                };
                FramePlan::RotationArc {
                    background: c.background,
                    color,
                    sweep_degrees: sweep_degrees(rotation_accum, 15, 300),
                }
            } else {
                FramePlan::Clear
            }
        },
        Style::PieMenu => {
            let n = pm.sections.len();
            if (rotation_accum != 0 || is_pressed) && n > 0 {
                let sel = select_section(rotation_accum, pm.selection_step_milli, n);
                let colors = build_section_colors(n, sel, pm.selected_color, pm.unselected_color);
                let visible = sections_fit_of(pm.gap_millidegrees, n);
                let press_dot = if is_pressed {
                    Some(c.press)
                } else {
                    None
                };
                FramePlan::PieMenu(
                    PieMenuPlan {
                        background: c.background,
                        section_colors: colors,
                        sections_visible: visible,
                        gap_millidegrees: pm.gap_millidegrees,
                        press_dot,
                    },
                )
            } else {
                FramePlan::Clear
            }
        },
        Style::Dial => {
            if menu_active {
                let len = pm.sections.len();
                let n = if len == 0 {
                    1
                } else {
                    len
                };
                let sel = select_section(menu_accum, pm.selection_step_milli, n);
                let colors = build_section_colors(n, sel, pm.selected_color, pm.unselected_color);
                let visible = sections_fit_of(pm.gap_millidegrees, n);
                let hub = brighten(c.background, 38);
                FramePlan::DialMenu(
                    DialMenuPlan {
                        background: c.background,
                        accent: c.cw,
                        section_colors: colors,
                        sections_visible: visible,
                        gap_millidegrees: pm.gap_millidegrees,
                        selected: sel,
                        hub,
                    },
                )
            } else if rotation_accum != 0 {
                FramePlan::DialRotation {
                    background: c.background,
                    accent: c.cw,
                    glow_alphas: glow_alphas_of(c.cw[3]),
                    sweep_degrees: sweep_degrees(rotation_accum, 12, 330),
                }
            } else {
                FramePlan::Clear
            }
        },
    }
}

} // verus!
