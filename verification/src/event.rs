//! Dial events and the D-Bus signals they come from.
use vstd::prelude::*;

verus! {

/// One input event from the Surface Dial.
#[derive(Debug, Clone, Copy, PartialEq, Eq, Structural)]
pub enum DialEvent {
    /// One rotation step of `delta` units (+1 clockwise, -1 counter-clockwise).
    Rotated(i32),
    /// The button was pressed.
    Pressed,
    /// The button was released.
    Released,
}

/// A signal received from the dial daemon. `Rotated` carries its `delta`
/// argument, or `None` when the argument could not be decoded.
#[derive(Debug, Clone, Copy, PartialEq, Eq, Structural)]
pub enum DialSignal {
    Rotated(Option<i32>),
    Pressed,
    Released,
}

/// The event that a signal forwards, if any.
pub open spec fn signal_event(signal: DialSignal) -> Option<DialEvent> {
    match signal {
        DialSignal::Rotated(Some(delta)) => Some(DialEvent::Rotated(delta)),
        DialSignal::Rotated(None) => None,
        DialSignal::Pressed => Some(DialEvent::Pressed),
        DialSignal::Released => Some(DialEvent::Released),
    }
}

impl DialEvent {
    /// The event to forward for a daemon signal: a rotation signal whose
    /// argument cannot be decoded is dropped.
    pub fn from_signal(signal: DialSignal) -> (e: Option<DialEvent>)
        ensures
            e == signal_event(signal),
    {
        match signal {
            DialSignal::Rotated(Some(delta)) => Some(DialEvent::Rotated(delta)),
            DialSignal::Rotated(None) => None,
            DialSignal::Pressed => Some(DialEvent::Pressed),
            DialSignal::Released => Some(DialEvent::Released),
        }
    }
}

} // verus!
