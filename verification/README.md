# surface-dial-overlay

A Wayland overlay for the Microsoft Surface Dial: it listens for the dial
daemon's D-Bus signals (`DialRotated`, `DialPressed`, `DialReleased`) and
draws a centred, transparent overlay that hides itself after a period of
inactivity.

## Layout

- `src/` — the verified library (Verus):
  - `config.rs` — configuration types and their defaults;
  - `event.rs` — dial events and the daemon signals they come from;
  - `state.rs` — the overlay state machine (events, visibility timeout,
    surface configuration);
  - `menu.rs` — section selection and section layout arithmetic;
  - `frame.rs` — what each frame shows, per style;
  - `pixels.rs` — RGBA to BGRA conversion of rendered pixels;
  - `laws.rs` — properties across several operations.
- `app/` — the program: Wayland and D-Bus plumbing, reading the TOML
  configuration, and drawing frame plans with tiny-skia.
- `tests/` — tests of the library.

Angles and rotation steps in the configuration are held in the library as
fixed-point thousandths (`gap_degrees = 4.0` becomes `4000`); times are
microseconds on the program's monotonic clock.
