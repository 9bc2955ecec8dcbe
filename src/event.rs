use vstd::prelude::*;

verus! {

/// The key code that is monitored: the space bar.
pub const TARGET_KEY: u32 = 57;

/// The fixed input lag, in device time units, taken off each reported time.
pub const TIME_CORRECTION: u32 = 2;

/// Whether a key went down or came up.
#[derive(Clone, Copy, Debug, PartialEq, Eq, Structural)]
pub enum KeyState {
    Pressed,
    Released,
}

/// A decoded input event, as far as the reporter reads it.
#[derive(Clone, Copy, Debug, PartialEq, Eq, Structural)]
pub enum InputEvent {
    /// A keyboard key transition with the device's timestamp.
    Key { code: u32, state: KeyState, time: u32 },
    /// Any event that is not a keyboard key transition.
    Other,
}

/// An event is reported exactly when it is a press of the monitored key.
pub open spec fn reported(e: InputEvent) -> bool {
    match e {
        InputEvent::Key { code, state, time: _ } => code == TARGET_KEY && state == KeyState::Pressed,
        InputEvent::Other => false,
    }
}

/// The corrected time: the reported time less the correction, held at zero
/// where the reported time is smaller than the correction.
pub open spec fn corrected(t: u32) -> nat {
    if t >= TIME_CORRECTION {
        (t - TIME_CORRECTION) as nat
    } else {
        0
    }
}

/// Applies the lag correction to a device timestamp, saturating at zero.
pub fn adjusted_time(t: u32) -> (r: u32)
    ensures
        r == corrected(t),
{
    t.saturating_sub(TIME_CORRECTION)
}

/// Whether the event is one that produces an output line.
pub fn is_reported(e: &InputEvent) -> (r: bool)
    ensures
        r == reported(*e),
{
    match e {
        InputEvent::Key { code, state, time: _ } => *code == TARGET_KEY && *state == KeyState::Pressed,
        InputEvent::Other => false,
    }
}

} // verus!
