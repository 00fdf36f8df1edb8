use tongfang_touchpad::{
    act_on_changed_settings, DaemonError, SignalValue, SleepAction, TPadError, TouchpadResumer,
    TouchpadState,
};

fn signal(name: &str, flag: bool) -> Vec<SignalValue> {
    vec![
        SignalValue::Other,
        SignalValue::Text(":1.4".to_string()),
        SignalValue::Text(name.to_string()),
        SignalValue::Args(Some(flag)),
    ]
}

#[test]
fn extraction_checks_position_and_type() {
    let ok = signal("PrepareForSleep", true);
    assert_eq!(TouchpadResumer::extract_signal_name(&ok).unwrap(), "PrepareForSleep");
    assert!(TouchpadResumer::extract_arg(&ok).unwrap());
    let short = vec![SignalValue::Other, SignalValue::Other];
    assert!(matches!(
        TouchpadResumer::extract_signal_name(&short),
        Err(DaemonError::MissingValue(2, _))
    ));
    assert!(matches!(TouchpadResumer::extract_arg(&short), Err(DaemonError::MissingValue(3, _))));
    let mistyped = vec![
        SignalValue::Other,
        SignalValue::Other,
        SignalValue::Args(Some(true)),
        SignalValue::Args(None),
    ];
    assert!(matches!(
        TouchpadResumer::extract_signal_name(&mistyped),
        Err(DaemonError::ValueMismatch(2, _))
    ));
    assert!(matches!(
        TouchpadResumer::extract_arg(&mistyped),
        Err(DaemonError::ValueMismatch(3, _))
    ));
}

#[test]
fn other_signals_are_ignored() {
    let r = TouchpadResumer::new();
    assert_eq!(r.handle_sleep_signal(&signal("SessionNew", true)).unwrap(), SleepAction::Ignore);
    let no_arg = vec![SignalValue::Other, SignalValue::Other, SignalValue::Text("Lock".into())];
    assert_eq!(r.handle_sleep_signal(&no_arg).unwrap(), SleepAction::Ignore);
}

#[test]
fn malformed_sleep_signal_is_an_error() {
    let r = TouchpadResumer::new();
    let no_arg = vec![
        SignalValue::Other,
        SignalValue::Other,
        SignalValue::Text("PrepareForSleep".into()),
    ];
    assert!(matches!(r.handle_sleep_signal(&no_arg), Err(DaemonError::MissingValue(3, _))));
    assert!(matches!(r.handle_sleep_signal(&vec![]), Err(DaemonError::MissingValue(2, _))));
}

#[test]
fn sleep_asks_to_save() {
    let r = TouchpadResumer::new();
    assert_eq!(r.handle_sleep_signal(&signal("PrepareForSleep", true)).unwrap(), SleepAction::Save);
}

#[test]
fn wake_before_any_sleep_fails_cleanly() {
    let r = TouchpadResumer::new();
    assert!(matches!(r.load_power_state(), Err(DaemonError::NoSavedState)));
    assert!(matches!(
        r.handle_sleep_signal(&signal("PrepareForSleep", false)),
        Err(DaemonError::NoSavedState)
    ));
}

#[test]
fn wake_restores_the_latest_saved_state() {
    let mut r = TouchpadResumer::new();
    r.store_power_state(TouchpadState::ButtonsEnabled);
    r.store_power_state(TouchpadState::SurfaceEnabled);
    let wake = signal("PrepareForSleep", false);
    assert_eq!(
        r.handle_sleep_signal(&wake).unwrap(),
        SleepAction::Restore(TouchpadState::SurfaceEnabled)
    );
    // The saved value stays for a later wake.
    assert_eq!(
        r.handle_sleep_signal(&wake).unwrap(),
        SleepAction::Restore(TouchpadState::SurfaceEnabled)
    );
    assert_eq!(r.load_power_state().unwrap(), TouchpadState::SurfaceEnabled);
}

#[test]
fn settings_sleep_stray_write_wake_scenario() {
    let mut hardware = TouchpadState::Disabled;
    let mut resumer = TouchpadResumer::new();

    hardware = act_on_changed_settings("enabled", &vec![]).unwrap();
    assert_eq!(hardware.as_u8(), 3);

    match resumer.handle_sleep_signal(&signal("PrepareForSleep", true)).unwrap() {
        SleepAction::Save => resumer.store_power_state(hardware),
        other => panic!("unexpected {other:?}"),
    }
    assert_eq!(resumer.load_power_state().unwrap().as_u8(), 3);

    hardware = TouchpadState::Disabled;
    assert_eq!(hardware.as_u8(), 0);

    match resumer.handle_sleep_signal(&signal("PrepareForSleep", false)).unwrap() {
        SleepAction::Restore(s) => hardware = s,
        other => panic!("unexpected {other:?}"),
    }
    assert_eq!(hardware, TouchpadState::Enabled);
    assert_eq!(hardware.as_u8(), 3);
}

#[test]
fn invalid_state_error_carries_byte() {
    assert!(matches!(
        TouchpadState::try_from(200),
        Err(TPadError::InvalidState(200))
    ));
}
