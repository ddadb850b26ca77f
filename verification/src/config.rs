//! Overlay configuration and its defaults.
use vstd::prelude::*;

verus! {

/// An RGBA colour, one byte per channel, in the order red, green, blue, alpha.
pub type Rgba = [u8; 4];

/// The four channels of a colour, as a sequence.
pub open spec fn rgba(r: u8, g: u8, b: u8, a: u8) -> Seq<u8> {
    seq![r, g, b, a]
}

/// Which visual style to use for the overlay.
#[derive(Debug, Clone, Copy, PartialEq, Eq, Structural)]
pub enum Style {
    /// Rotating ring with a coloured arc stroke.
    Arc,
    /// Filled wedge that grows from 12 o'clock as the dial rotates.
    Fill,
    /// Circle split into equal pie sections; rotation changes the selection.
    PieMenu,
    /// Value arc while rotating; radial section menu while the button is held.
    Dial,
}

impl Default for Style {
    fn default() -> (s: Self)
        ensures
            s == Style::Fill,
    {
        Style::Fill
    }
}

/// Colour palette used by the arc, fill and dial styles.
#[derive(Debug, Clone, Copy)]
pub struct Colors {
    /// Clockwise rotation colour.
    pub cw: Rgba,
    /// Counter-clockwise rotation colour.
    pub ccw: Rgba,
    /// Button-press indicator colour.
    pub press: Rgba,
    /// Background ring/circle colour.
    pub background: Rgba,
}

impl Colors {
    /// Default clockwise colour: green.
    pub fn default_cw() -> (c: Rgba)
        ensures
            c@ == rgba(80, 210, 120, 230),
    {
        [80, 210, 120, 230]
    }

    /// Default counter-clockwise colour: red.
    pub fn default_ccw() -> (c: Rgba)
        ensures
            c@ == rgba(220, 90, 80, 230),
    {
        [220, 90, 80, 230]
    }

    /// Default press colour: blue.
    pub fn default_press() -> (c: Rgba)
        ensures
            c@ == rgba(80, 140, 255, 200),
    {
        [80, 140, 255, 200]
    }

    /// Default background colour: translucent dark grey.
    pub fn default_background() -> (c: Rgba)
        ensures
            c@ == rgba(30, 30, 40, 180),
    {
        [30, 30, 40, 180]
    }

    /// The default palette.
    pub open spec fn is_default(self) -> bool {
        &&& self.cw@ == rgba(80, 210, 120, 230)
        &&& self.ccw@ == rgba(220, 90, 80, 230)
        &&& self.press@ == rgba(80, 140, 255, 200)
        &&& self.background@ == rgba(30, 30, 40, 180)
    }
}

impl Default for Colors {
    fn default() -> (c: Self)
        ensures
            c.is_default(),
    {
        Colors {
            cw: Self::default_cw(),
            ccw: Self::default_ccw(),
            press: Self::default_press(),
            background: Self::default_background(),
        }
    }
}

/// Settings of the pie-menu and dial-menu sections.
///
/// Angles and rotation steps are fixed-point numbers in thousandths
/// (a gap of 4 degrees is `4000`, a step of 5 rotation units is `5000`).
#[derive(Debug, Clone)]
pub struct PieMenuConfig {
    /// Labels for each section (one section per entry).
    pub sections: Vec<String>,
    /// Colour of the currently selected section.
    pub selected_color: Rgba,
    /// Colour of unselected sections.
    pub unselected_color: Rgba,
    /// Gap between sections, in thousandths of a degree.
    pub gap_millidegrees: i64,
    /// Rotation (raw delta) needed to advance one section, in thousandths.
    pub selection_step_milli: i64,
}

/// The labels of the default sections: "Option 1" to "Option 4".
pub open spec fn default_section_labels() -> Seq<Seq<char>> {
    seq!["Option 1"@, "Option 2"@, "Option 3"@, "Option 4"@]
}

impl PieMenuConfig {
    /// Four sections labelled "Option 1" to "Option 4".
    pub fn default_sections() -> (v: Vec<String>)
        ensures
            v@.map_values(|s: String| s@) == default_section_labels(),
    {
        let mut v: Vec<String> = Vec::new();
        v.push("Option 1".to_owned());
        v.push("Option 2".to_owned());
        v.push("Option 3".to_owned());
        v.push("Option 4".to_owned());
        assert(v@.map_values(|s: String| s@) =~= default_section_labels());
        v
    }

    /// Default colour of the selected section.
    pub fn default_selected_color() -> (c: Rgba)
        ensures
            c@ == rgba(80, 140, 255, 230),
    {
        [80, 140, 255, 230]
    }

    /// Default colour of the unselected sections.
    pub fn default_unselected_color() -> (c: Rgba)
        ensures
            c@ == rgba(50, 50, 60, 180),
    {
        [50, 50, 60, 180]
    }

    /// Default gap between sections: 4 degrees.
    pub fn default_gap_millidegrees() -> (g: i64)
        ensures
            g == 4000,
    {
        4000
    }

    /// Default selection step: 5 rotation units per section.
    pub fn default_selection_step_milli() -> (s: i64)
        ensures
            s == 5000,
    {
        5000
    }

    /// The default pie-menu settings.
    pub open spec fn is_default(self) -> bool {
        &&& self.sections@.map_values(|s: String| s@) == default_section_labels()
        &&& self.selected_color@ == rgba(80, 140, 255, 230)
        &&& self.unselected_color@ == rgba(50, 50, 60, 180)
        &&& self.gap_millidegrees == 4000
        &&& self.selection_step_milli == 5000
    }
}

impl Default for PieMenuConfig {
    fn default() -> (c: Self)
        ensures
            c.is_default(),
    {
        PieMenuConfig {
            sections: Self::default_sections(),
            selected_color: Self::default_selected_color(),
            unselected_color: Self::default_unselected_color(),
            gap_millidegrees: Self::default_gap_millidegrees(),
            selection_step_milli: Self::default_selection_step_milli(),
        }
    }
}

/// Default time the overlay stays visible after the last event: 2000 ms.
pub fn default_timeout_ms() -> (t: u64)
    ensures
        t == 2000,
{
    2000
}

/// Default overlay width and height: 200 pixels.
pub fn default_size() -> (s: u32)
    ensures
        s == 200,
{
    200
}

/// The whole overlay configuration.
#[derive(Debug, Clone)]
pub struct OverlayConfig {
    /// Visual style.
    pub style: Style,
    /// How long to keep the overlay visible after the last event (ms).
    pub timeout_ms: u64,
    /// Overlay width and height in pixels.
    pub size: u32,
    /// Colour palette used by arc, fill and dial styles.
    pub colors: Colors,
    /// Pie-menu specific settings.
    pub pie_menu: PieMenuConfig,
}

impl OverlayConfig {
    /// The default configuration.
    pub open spec fn is_default(self) -> bool {
        &&& self.style == Style::Fill
        &&& self.timeout_ms == 2000
        &&& self.size == 200
        &&& self.colors.is_default()
        &&& self.pie_menu.is_default()
    }
}

impl Default for OverlayConfig {
    fn default() -> (c: Self)
        ensures
            c.is_default(),
    {
        OverlayConfig {
            style: Style::default(),
            timeout_ms: default_timeout_ms(),
            size: default_size(),
            colors: Colors::default(),
            pie_menu: PieMenuConfig::default(),
        }
    }
}

} // verus!
