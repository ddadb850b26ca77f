//! Decision logic of the Surface Dial overlay: configuration defaults, the
//! overlay state machine driven by dial events and a clock, the choice of
//! what each frame shows, and the pixel-format conversion of rendered frames.
pub mod config;
pub mod menu;
pub mod frame;
pub mod event;
pub mod state;
pub mod pixels;
pub mod laws;
