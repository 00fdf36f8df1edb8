//! Hardware enable state of a Tongfang laptop touchpad, and the daemon logic
//! that keeps it consistent across settings changes and sleep/wake cycles.

mod device;
mod error;
mod report;
mod resume;
mod settings;
mod state;
mod text;

pub use device::{
    device_matches, find_touchpad, path_component_matches, DeviceInfo, HIDRAW_SUBSYSTEM,
    TOUCHPAD_SYSNAME,
};
pub use error::{DaemonError, TPadError};
pub use state::{TouchpadAction, TouchpadState};
pub use text::{same_text, starts_with_text};
pub use report::{
    decode_feature_report, get_feature_request, set_feature_request, HID_IOC_G_FEATURE,
    HID_IOC_MAGIC, HID_IOC_S_FEATURE, TOUCHPAD_ENABLED_FEATURE,
};
pub use settings::{
    act_on_changed_settings, is_different_mouse, is_mouse_connected, is_mouse_device,
    TouchpadDbusState, INPUT_SUBSYSTEM, MOUSE_DEV_PREFIX, SEND_EVENTS_SIGNAL,
    TOUCHPAD_SETTINGS_SCHEMA_ID,
};
pub use resume::{
    SignalValue, SleepAction, TouchpadResumer, LOGIN1_MANAGER_INTERFACE_NAME, LOGIN1_OBJECT_PATH,
    LOGIN1_SERVICE_NAME, PREPARE_FOR_SLEEP_SIGNAL,
};
