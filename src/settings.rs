use vstd::prelude::*;

use crate::device::{device_matches, is_touchpad_device, DeviceInfo};
use crate::error::DaemonError;
use crate::state::TouchpadState;
use crate::text::{is_prefix_of, same_text, starts_with_text};

verus! {

/// The schema that holds the touchpad's settings.
pub const TOUCHPAD_SETTINGS_SCHEMA_ID: &'static str = "org.cinnamon.desktop.peripherals.touchpad";

/// The key whose changes the daemon follows.
pub const SEND_EVENTS_SIGNAL: &'static str = "send-events";

/// The device-node name prefix of a mouse-class device.
pub const MOUSE_DEV_PREFIX: &'static str = "mouse";

/// The subsystem scanned for mice.
pub const INPUT_SUBSYSTEM: &'static str = "input";

/// The three values the settings key may hold.
#[derive(Copy, Clone, Debug, PartialEq, Eq, Structural)]
pub enum TouchpadDbusState {
    Enabled,
    Disabled,
    DisabledOnExternalMouse,
}

/// The token a settings string stands for, if any.
pub open spec fn dbus_state_spec(s: Seq<char>) -> Option<TouchpadDbusState> {
    if s == "enabled"@ {
        Some(TouchpadDbusState::Enabled)
    } else if s == "disabled"@ {
        Some(TouchpadDbusState::Disabled)
    } else if s == "disabled-on-external-mouse"@ {
        Some(TouchpadDbusState::DisabledOnExternalMouse)
    } else {
        None
    }
}

/// The hardware state a token asks for, given whether an external mouse is present.
pub open spec fn resolve_spec(token: TouchpadDbusState, mouse_present: bool) -> TouchpadState {
    match token {
        TouchpadDbusState::Enabled => TouchpadState::Enabled,
        TouchpadDbusState::Disabled => TouchpadState::Disabled,
        TouchpadDbusState::DisabledOnExternalMouse => if mouse_present {
            TouchpadState::Disabled
        } else {
            TouchpadState::Enabled
        },
    }
}

/// Whether a device-node name is that of a mouse-class device.
pub open spec fn is_mouse_name(name: Seq<char>) -> bool {
    is_prefix_of(MOUSE_DEV_PREFIX@, name)
}

/// Whether a device is a mouse other than the touchpad.
pub open spec fn is_other_mouse(d: DeviceInfo) -> bool {
    d.devnode is Some && match d.devnode_name {
        Some(n) => is_mouse_name(n@),
        None => false,
    } && !is_touchpad_device(d)
}

/// Whether some enumerated input device is a mouse other than the touchpad.
pub open spec fn mouse_present_spec(devices: Seq<DeviceInfo>) -> bool {
    exists|i: int| 0 <= i < devices.len() && is_other_mouse(#[trigger] devices[i])
}

impl TouchpadDbusState {
    /// Reads a settings string as one of the known tokens.
    pub fn try_from(value: &str) -> (r: Result<TouchpadDbusState, DaemonError>)
        ensures
            dbus_state_spec(value@) matches Some(t) ==> r == Ok::<TouchpadDbusState, DaemonError>(t),
            dbus_state_spec(value@) is None ==> (r matches Err(DaemonError::UnknownDbusState(v))
                && v@ == value@),
    {
        if same_text(value, "enabled") {
            Ok(TouchpadDbusState::Enabled)
        } else if same_text(value, "disabled") {
            Ok(TouchpadDbusState::Disabled)
        } else if same_text(value, "disabled-on-external-mouse") {
            Ok(TouchpadDbusState::DisabledOnExternalMouse)
        } else {
            Err(DaemonError::UnknownDbusState(value.to_owned()))
        }
    }

    /// The hardware state this token asks for.
    pub fn resolve(self, mouse_present: bool) -> (r: TouchpadState)
        ensures
            r == resolve_spec(self, mouse_present),
    {
        match self {
            TouchpadDbusState::Enabled => TouchpadState::Enabled,
            TouchpadDbusState::Disabled => TouchpadState::Disabled,
            TouchpadDbusState::DisabledOnExternalMouse => if mouse_present {
                TouchpadState::Disabled
            } else {
                TouchpadState::Enabled
            },
        }
    }
}

/// Whether a device-node name marks a mouse-class device.
pub fn is_mouse_device(name: &str) -> (r: bool)
    ensures
        r == is_mouse_name(name@),
{
    starts_with_text(name, MOUSE_DEV_PREFIX)
}

/// Whether a device is a mouse that is not the touchpad itself.
pub fn is_different_mouse(device: &DeviceInfo) -> (r: bool)
    ensures
        r == is_other_mouse(*device),
{
    if device.devnode.is_none() {
        return false;
    }
    let is_mouse = match &device.devnode_name {
        Some(name) => is_mouse_device(name.as_str()),
        None => false,
    };
    is_mouse && !device_matches(device)
}

/// Whether any of the enumerated input devices is an external mouse.
pub fn is_mouse_connected(devices: &Vec<DeviceInfo>) -> (r: bool)
    ensures
        r == mouse_present_spec(devices@),
{
    let n = devices.len();
    let mut i: usize = 0;
    while i < n
        invariant
            n == devices@.len(),
            i <= n,
            forall|j: int| 0 <= j < i ==> !is_other_mouse(#[trigger] devices@[j]),
        decreases n - i,
    {
        if is_different_mouse(&devices[i]) {
            return true;
        }
        i = i + 1;
    }
    false
}

/// The hardware state that a new value of the settings key asks for, given
/// the input devices present now; an unknown value is an error and asks for
/// no change.
pub fn act_on_changed_settings(value: &str, devices: &Vec<DeviceInfo>) -> (r: Result<
    TouchpadState,
    DaemonError,
>)
    ensures
        dbus_state_spec(value@) matches Some(t) ==> r == Ok::<TouchpadState, DaemonError>(
            resolve_spec(t, mouse_present_spec(devices@)),
        ),
        dbus_state_spec(value@) is None ==> (r matches Err(DaemonError::UnknownDbusState(v))
            && v@ == value@),
{
    let token = TouchpadDbusState::try_from(value)?;
    let mouse_present = match token {
        TouchpadDbusState::DisabledOnExternalMouse => is_mouse_connected(devices),
        _ => false,
    };
    Ok(token.resolve(mouse_present))
}

/// The conditional token resolves to `Disabled` when a qualifying external
/// mouse is among the devices, and to `Enabled` when none is.
pub proof fn lemma_conditional_policy(devices: Seq<DeviceInfo>)
    ensures
        dbus_state_spec("disabled-on-external-mouse"@) == Some(
            TouchpadDbusState::DisabledOnExternalMouse,
        ),
        mouse_present_spec(devices) ==> resolve_spec(
            TouchpadDbusState::DisabledOnExternalMouse,
            mouse_present_spec(devices),
        ) == TouchpadState::Disabled,
        !mouse_present_spec(devices) ==> resolve_spec(
            TouchpadDbusState::DisabledOnExternalMouse,
            mouse_present_spec(devices),
        ) == TouchpadState::Enabled,
{
    reveal_strlit("enabled");
    reveal_strlit("disabled");
    reveal_strlit("disabled-on-external-mouse");
    assert("disabled-on-external-mouse"@.len() != "enabled"@.len());
    assert("disabled-on-external-mouse"@.len() != "disabled"@.len());
}

} // verus!
