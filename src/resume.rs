use vstd::prelude::*;

use crate::error::{DaemonError, TPadError};
use crate::state::{decode_spec, encode_spec, TouchpadState};
use crate::text::same_text;

verus! {

/// The signal that announces sleep (`true`) and wake (`false`).
pub const PREPARE_FOR_SLEEP_SIGNAL: &'static str = "PrepareForSleep";

/// The bus name of the login manager.
pub const LOGIN1_SERVICE_NAME: &'static str = "org.freedesktop.login1";

/// The object path of the login manager.
pub const LOGIN1_OBJECT_PATH: &'static str = "/org/freedesktop/login1";

/// The interface that emits the sleep signal.
pub const LOGIN1_MANAGER_INTERFACE_NAME: &'static str = "org.freedesktop.login1.Manager";

/// The payload position of the signal's name.
pub const SIGNAL_NAME_POS: usize = 2;

/// The payload position of the signal's arguments.
pub const SIGNAL_ARG_POS: usize = 3;

/// What an error names when the signal's name is missing or mistyped.
pub const SIGNAL_NAME_LABEL: &'static str = "signal name";

/// What an error names when the signal's argument is missing or mistyped.
pub const SIGNAL_ARG_LABEL: &'static str = "signal argument";

/// One value of a bus signal's payload, as far as the handler reads it.
#[derive(Debug)]
pub enum SignalValue {
    /// A string.
    Text(String),
    /// A tuple of signal arguments, with its first element where that is a boolean.
    Args(Option<bool>),
    /// A value of any other type.
    Other,
}

/// What the daemon must do with the hardware after a sleep signal.
#[derive(Copy, Clone, Debug, PartialEq, Eq, Structural)]
pub enum SleepAction {
    /// The signal is not the sleep signal: do nothing.
    Ignore,
    /// Entering sleep: read the current state and save it.
    Save,
    /// Resuming: write this saved state back.
    Restore(TouchpadState),
}

/// The saved-state slot of the sleep/wake monitor: empty before the first
/// sleep, then the encoded state read at the latest sleep.
pub struct TouchpadResumer {
    saved: Option<u8>,
}

impl View for TouchpadResumer {
    type V = Option<u8>;

    closed spec fn view(&self) -> Option<u8> {
        self.saved
    }
}

/// The signal name at its position, or the error of a missing or mistyped one.
pub open spec fn signal_name_spec(values: Seq<SignalValue>) -> Result<Seq<char>, DaemonError> {
    if values.len() <= SIGNAL_NAME_POS {
        Err(DaemonError::MissingValue(SIGNAL_NAME_POS, SIGNAL_NAME_LABEL))
    } else {
        match values[SIGNAL_NAME_POS as int] {
            SignalValue::Text(s) => Ok(s@),
            _ => Err(DaemonError::ValueMismatch(SIGNAL_NAME_POS, SIGNAL_NAME_LABEL)),
        }
    }
}

/// The sleep flag at its position, or the error of a missing or mistyped one.
pub open spec fn signal_arg_spec(values: Seq<SignalValue>) -> Result<bool, DaemonError> {
    if values.len() <= SIGNAL_ARG_POS {
        Err(DaemonError::MissingValue(SIGNAL_ARG_POS, SIGNAL_ARG_LABEL))
    } else {
        match values[SIGNAL_ARG_POS as int] {
            SignalValue::Args(Some(b)) => Ok(b),
            _ => Err(DaemonError::ValueMismatch(SIGNAL_ARG_POS, SIGNAL_ARG_LABEL)),
        }
    }
}

/// The state that a wake restores from the slot, or why it cannot.
pub open spec fn restore_spec(saved: Option<u8>) -> Result<TouchpadState, DaemonError> {
    match saved {
        None => Err(DaemonError::NoSavedState),
        Some(b) => match decode_spec(b) {
            Some(s) => Ok(s),
            None => Err(DaemonError::TPadError(TPadError::InvalidState(b))),
        },
    }
}

/// What a signal asks of the hardware, given the slot's content.
pub open spec fn sleep_signal_spec(saved: Option<u8>, values: Seq<SignalValue>) -> Result<
    SleepAction,
    DaemonError,
> {
    match signal_name_spec(values) {
        Err(e) => Err(e),
        Ok(name) => if name != PREPARE_FOR_SLEEP_SIGNAL@ {
            Ok(SleepAction::Ignore)
        } else {
            match signal_arg_spec(values) {
                Err(e) => Err(e),
                Ok(true) => Ok(SleepAction::Save),
                Ok(false) => match restore_spec(saved) {
                    Ok(s) => Ok(SleepAction::Restore(s)),
                    Err(e) => Err(e),
                },
            }
        },
    }
}

/// Whether the payload is a well-formed sleep signal with this flag.
pub open spec fn is_sleep_signal(values: Seq<SignalValue>, flag: bool) -> bool {
    signal_name_spec(values) == Ok::<Seq<char>, DaemonError>(PREPARE_FOR_SLEEP_SIGNAL@)
        && signal_arg_spec(values) == Ok::<bool, DaemonError>(flag)
}

impl TouchpadResumer {
    /// A monitor with nothing saved yet.
    pub fn new() -> (r: TouchpadResumer)
        ensures
            r@ is None,
    {
        TouchpadResumer { saved: None }
    }

    /// The signal's name, validated by position and type.
    pub fn extract_signal_name(values: &Vec<SignalValue>) -> (r: Result<&str, DaemonError>)
        ensures
            match signal_name_spec(values@) {
                Ok(n) => r matches Ok(s) && s@ == n,
                Err(e) => r == Err::<&str, DaemonError>(e),
            },
    {
        if values.len() <= SIGNAL_NAME_POS {
            return Err(DaemonError::MissingValue(SIGNAL_NAME_POS, SIGNAL_NAME_LABEL));
        }
        match &values[SIGNAL_NAME_POS] {
            SignalValue::Text(s) => Ok(s.as_str()),
            _ => Err(DaemonError::ValueMismatch(SIGNAL_NAME_POS, SIGNAL_NAME_LABEL)),
        }
    }

    /// The signal's sleep flag, validated by position and type.
    pub fn extract_arg(values: &Vec<SignalValue>) -> (r: Result<bool, DaemonError>)
        ensures
            r == signal_arg_spec(values@),
    {
        if values.len() <= SIGNAL_ARG_POS {
            return Err(DaemonError::MissingValue(SIGNAL_ARG_POS, SIGNAL_ARG_LABEL));
        }
        match &values[SIGNAL_ARG_POS] {
            SignalValue::Args(Some(b)) => Ok(*b),
            _ => Err(DaemonError::ValueMismatch(SIGNAL_ARG_POS, SIGNAL_ARG_LABEL)),
        }
    }

    /// Saves the state read from the hardware as sleep begins, replacing any
    /// earlier one.
    pub fn store_power_state(&mut self, current: TouchpadState)
        ensures
            final(self)@ == Some(encode_spec(current)),
    {
        self.saved = Some(current.as_u8());
    }

    /// The state to write back on wake: the one saved at the latest sleep.
    pub fn load_power_state(&self) -> (r: Result<TouchpadState, DaemonError>)
        ensures
            r == restore_spec(self@),
    {
        match self.saved {
            None => Err(DaemonError::NoSavedState),
            Some(b) => match TouchpadState::try_from(b) {
                Ok(s) => Ok(s),
                Err(e) => Err(DaemonError::TPadError(e)),
            },
        }
    }

    /// Decides what a bus signal asks of the hardware: other signals are
    /// ignored, a sleep asks to save the current state, a wake asks to restore
    /// the saved one.
    pub fn handle_sleep_signal(&self, values: &Vec<SignalValue>) -> (r: Result<
        SleepAction,
        DaemonError,
    >)
        ensures
            r == sleep_signal_spec(self@, values@),
    {
        let signal_name = Self::extract_signal_name(values)?;
        if !same_text(signal_name, PREPARE_FOR_SLEEP_SIGNAL) {
            return Ok(SleepAction::Ignore);
        }
        if Self::extract_arg(values)? {
            Ok(SleepAction::Save)
        } else {
            let state = self.load_power_state()?;
            Ok(SleepAction::Restore(state))
        }
    }
}

/// After a sleep that saved state `s`, a wake asks to write back exactly `s`,
/// whatever was saved before.
pub proof fn lemma_wake_restores_saved(s: TouchpadState, values: Seq<SignalValue>)
    requires
        is_sleep_signal(values, false),
    ensures
        sleep_signal_spec(Some(encode_spec(s)), values) == Ok::<SleepAction, DaemonError>(
            SleepAction::Restore(s),
        ),
{
}

/// A sleep signal asks to save, whatever the slot holds.
pub proof fn lemma_sleep_saves(saved: Option<u8>, values: Seq<SignalValue>)
    requires
        is_sleep_signal(values, true),
    ensures
        sleep_signal_spec(saved, values) == Ok::<SleepAction, DaemonError>(SleepAction::Save),
{
}

} // verus!
