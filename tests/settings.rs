use tongfang_touchpad::{
    act_on_changed_settings, is_different_mouse, is_mouse_connected, is_mouse_device,
    DaemonError, DeviceInfo, TouchpadDbusState, TouchpadState,
};

fn input_device(syspath: &str, devnode: Option<&str>) -> DeviceInfo {
    DeviceInfo {
        syspath: syspath
            .split('/')
            .filter(|c| !c.is_empty())
            .map(String::from)
            .collect(),
        devnode: devnode.map(String::from),
        devnode_name: devnode.and_then(|p| p.rsplit('/').next()).map(String::from),
    }
}

fn usb_mouse() -> DeviceInfo {
    input_device("/sys/devices/pci0000:00/usb1/1-2/input/input9/mouse1", Some("/dev/input/mouse1"))
}

fn touchpad_mouse() -> DeviceInfo {
    input_device(
        "/sys/devices/platform/i2c-UNIW0001:00/0018:093A:0255.0001/input/input5/mouse0",
        Some("/dev/input/mouse0"),
    )
}

fn keyboard() -> DeviceInfo {
    input_device("/sys/devices/platform/i8042/serio0/input/input3/event3", Some("/dev/input/event3"))
}

#[test]
fn tokens_parse() {
    assert_eq!(TouchpadDbusState::try_from("enabled").unwrap(), TouchpadDbusState::Enabled);
    assert_eq!(TouchpadDbusState::try_from("disabled").unwrap(), TouchpadDbusState::Disabled);
    assert_eq!(
        TouchpadDbusState::try_from("disabled-on-external-mouse").unwrap(),
        TouchpadDbusState::DisabledOnExternalMouse
    );
    match TouchpadDbusState::try_from("Enabled") {
        Err(DaemonError::UnknownDbusState(v)) => assert_eq!(v, "Enabled"),
        other => panic!("unexpected {other:?}"),
    }
}

#[test]
fn resolve_table() {
    assert_eq!(TouchpadDbusState::Enabled.resolve(true), TouchpadState::Enabled);
    assert_eq!(TouchpadDbusState::Disabled.resolve(false), TouchpadState::Disabled);
    assert_eq!(TouchpadDbusState::DisabledOnExternalMouse.resolve(true), TouchpadState::Disabled);
    assert_eq!(TouchpadDbusState::DisabledOnExternalMouse.resolve(false), TouchpadState::Enabled);
}

#[test]
fn mouse_detection() {
    assert!(is_mouse_device("mouse0"));
    assert!(is_mouse_device("mice") == false);
    assert!(!is_mouse_device("event3"));
    assert!(is_different_mouse(&usb_mouse()));
    assert!(!is_different_mouse(&touchpad_mouse()));
    assert!(!is_different_mouse(&keyboard()));
    assert!(!is_different_mouse(&input_device("/sys/devices/virtual/input/mouse4", None)));
    assert!(!is_mouse_connected(&Vec::new()));
    assert!(!is_mouse_connected(&vec![keyboard(), touchpad_mouse()]));
    assert!(is_mouse_connected(&vec![keyboard(), touchpad_mouse(), usb_mouse()]));
}

#[test]
fn conditional_token_follows_mouse_presence() {
    let token = "disabled-on-external-mouse";
    let without = vec![keyboard(), touchpad_mouse()];
    assert_eq!(act_on_changed_settings(token, &without).unwrap(), TouchpadState::Enabled);
    let with = vec![keyboard(), usb_mouse()];
    assert_eq!(act_on_changed_settings(token, &with).unwrap(), TouchpadState::Disabled);
}

#[test]
fn conditional_token_scenario_from_disabled() {
    let mut hardware = TouchpadState::Disabled;
    hardware = act_on_changed_settings("disabled-on-external-mouse", &vec![]).unwrap();
    assert_eq!(hardware.as_u8(), 3);
    hardware = act_on_changed_settings("disabled-on-external-mouse", &vec![usb_mouse()]).unwrap();
    assert_eq!(hardware.as_u8(), 0);
}

#[test]
fn plain_tokens_ignore_mice() {
    let devices = vec![usb_mouse()];
    assert_eq!(act_on_changed_settings("enabled", &devices).unwrap(), TouchpadState::Enabled);
    assert_eq!(act_on_changed_settings("disabled", &vec![]).unwrap(), TouchpadState::Disabled);
}

#[test]
fn unknown_token_is_reported_and_changes_nothing() {
    let mut hardware = TouchpadState::SurfaceEnabled;
    match act_on_changed_settings("sometimes", &vec![usb_mouse()]) {
        Ok(s) => hardware = s,
        Err(DaemonError::UnknownDbusState(v)) => assert_eq!(v, "sometimes"),
        Err(e) => panic!("unexpected {e:?}"),
    }
    assert_eq!(hardware, TouchpadState::SurfaceEnabled);
}
