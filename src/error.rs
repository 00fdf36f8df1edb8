use vstd::prelude::*;

verus! {

/// An `errno` value reported by a failed `ioctl`.
#[verifier::external_type_specification]
#[verifier::external_body]
pub struct ExErrno(nix::errno::Errno);

/// An I/O failure, such as opening the device node.
#[verifier::external_type_specification]
#[verifier::external_body]
pub struct ExIoError(std::io::Error);

/// Errors of the touchpad hardware link.
#[derive(Debug)]
pub enum TPadError {
    /// A feature-report `ioctl` failed.
    Nix(nix::errno::Errno),
    /// Opening the device node failed.
    Io(std::io::Error),
    /// The feature report held a byte that encodes no known state.
    InvalidState(u8),
    /// No hidraw device has the touchpad's identifying path component.
    NoDevice,
    /// The touchpad device was found but exposes no device node.
    NoDevNode,
}

/// Errors of the daemon's event handlers.
#[derive(Debug)]
pub enum DaemonError {
    /// The settings key held a string that is none of the known tokens.
    UnknownDbusState(String),
    /// The hardware link failed.
    TPadError(TPadError),
    /// Device enumeration failed.
    Io(std::io::Error),
    /// The desktop bus or settings layer failed; its message.
    Glib(String),
    /// The signal payload has no value at this position.
    MissingValue(usize, &'static str),
    /// The signal payload's value at this position has the wrong type.
    ValueMismatch(usize, &'static str),
    /// A wake event came before any state was saved.
    NoSavedState,
}

} // verus!
