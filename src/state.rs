use vstd::prelude::*;

use crate::error::TPadError;

verus! {

/// The four states that the touchpad's enable feature report encodes.
#[derive(Copy, Clone, Debug, PartialEq, Eq, Structural)]
pub enum TouchpadState {
    Disabled,
    ButtonsEnabled,
    SurfaceEnabled,
    Enabled,
}

/// The byte that encodes `s` in the feature report.
pub open spec fn encode_spec(s: TouchpadState) -> u8 {
    match s {
        TouchpadState::Disabled => 0,
        TouchpadState::ButtonsEnabled => 1,
        TouchpadState::SurfaceEnabled => 2,
        TouchpadState::Enabled => 3,
    }
}

/// The state a byte decodes to, if it encodes one.
pub open spec fn decode_spec(b: u8) -> Option<TouchpadState> {
    if b == 0 {
        Some(TouchpadState::Disabled)
    } else if b == 1 {
        Some(TouchpadState::ButtonsEnabled)
    } else if b == 2 {
        Some(TouchpadState::SurfaceEnabled)
    } else if b == 3 {
        Some(TouchpadState::Enabled)
    } else {
        None
    }
}

/// The state that a toggle moves `s` to: anything but `Disabled` counts as enabled.
pub open spec fn toggled_spec(s: TouchpadState) -> TouchpadState {
    if s == TouchpadState::Disabled {
        TouchpadState::Enabled
    } else {
        TouchpadState::Disabled
    }
}

impl TouchpadState {
    /// Decodes a feature-report byte; an out-of-range byte is reported, never coerced.
    pub fn try_from(value: u8) -> (r: Result<TouchpadState, TPadError>)
        ensures
            value <= 3 ==> (r matches Ok(s) && Some(s) == decode_spec(value)),
            value > 3 ==> (r matches Err(TPadError::InvalidState(v)) && v == value),
    {
        match value {
            0 => Ok(TouchpadState::Disabled),
            1 => Ok(TouchpadState::ButtonsEnabled),
            2 => Ok(TouchpadState::SurfaceEnabled),
            3 => Ok(TouchpadState::Enabled),
            v => Err(TPadError::InvalidState(v)),
        }
    }

    /// The byte that encodes this state in the feature report.
    pub fn as_u8(self) -> (r: u8)
        ensures
            r == encode_spec(self),
    {
        match self {
            TouchpadState::Disabled => 0,
            TouchpadState::ButtonsEnabled => 1,
            TouchpadState::SurfaceEnabled => 2,
            TouchpadState::Enabled => 3,
        }
    }

    /// Whether this state counts as the enabled side when deciding a toggle.
    pub fn is_enabled(self) -> (r: bool)
        ensures
            r == (self != TouchpadState::Disabled),
    {
        !matches!(self, TouchpadState::Disabled)
    }

    /// The state that toggling this one leads to.
    pub fn not(self) -> (r: TouchpadState)
        ensures
            r == toggled_spec(self),
    {
        if self.is_enabled() {
            TouchpadState::Disabled
        } else {
            TouchpadState::Enabled
        }
    }
}

/// What the command-line tool is asked to do.
#[derive(Copy, Clone, Debug, PartialEq, Eq, Structural)]
pub enum TouchpadAction {
    On,
    Off,
    Toggle,
}

/// The state an action sets, given the state the hardware reports now.
pub open spec fn action_target_spec(a: TouchpadAction, current: TouchpadState) -> TouchpadState {
    match a {
        TouchpadAction::On => TouchpadState::Enabled,
        TouchpadAction::Off => TouchpadState::Disabled,
        TouchpadAction::Toggle => toggled_spec(current),
    }
}

impl TouchpadAction {
    /// Whether the action depends on the hardware's current state.
    pub fn needs_current_state(self) -> (r: bool)
        ensures
            r == (self == TouchpadAction::Toggle),
    {
        matches!(self, TouchpadAction::Toggle)
    }

    /// The state this action sets when the hardware reports `current`.
    pub fn target_state(self, current: TouchpadState) -> (r: TouchpadState)
        ensures
            r == action_target_spec(self, current),
    {
        match self {
            TouchpadAction::On => TouchpadState::Enabled,
            TouchpadAction::Off => TouchpadState::Disabled,
            TouchpadAction::Toggle => current.not(),
        }
    }
}

/// Decoding and re-encoding any byte of `{0, 1, 2, 3}` gives the byte back,
/// and encoding then decoding any state gives the state back.
pub proof fn lemma_round_trip(b: u8, s: TouchpadState)
    ensures
        b <= 3 ==> (decode_spec(b) matches Some(d) && encode_spec(d) == b),
        decode_spec(encode_spec(s)) == Some(s),
{
}

/// Every byte outside `{0, 1, 2, 3}` decodes to nothing.
pub proof fn lemma_out_of_range_rejected(b: u8)
    requires
        b > 3,
    ensures
        decode_spec(b).is_none(),
{
}

/// `Disabled` toggles to `Enabled`; each of the other three states toggles to `Disabled`.
pub proof fn lemma_toggle(s: TouchpadState)
    ensures
        s == TouchpadState::Disabled ==> toggled_spec(s) == TouchpadState::Enabled,
        s != TouchpadState::Disabled ==> toggled_spec(s) == TouchpadState::Disabled,
{
}

} // verus!
