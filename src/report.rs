use vstd::prelude::*;

use crate::error::TPadError;
use crate::state::{decode_spec, encode_spec, TouchpadState};

verus! {

/// The `ioctl` family of the HID raw driver: the ASCII code of `H`.
pub const HID_IOC_MAGIC: u8 = 0x48;

/// The `ioctl` number that writes a feature report.
pub const HID_IOC_S_FEATURE: u8 = 6;

/// The `ioctl` number that reads a feature report.
pub const HID_IOC_G_FEATURE: u8 = 7;

/// The identifier of the feature report that holds the enable state.
pub const TOUCHPAD_ENABLED_FEATURE: u8 = 7;

/// The buffer handed to the read-feature `ioctl`: the report id, then a byte
/// for the device to fill in.
pub fn get_feature_request() -> (r: [u8; 2])
    ensures
        r@ == seq![TOUCHPAD_ENABLED_FEATURE, 0u8],
{
    let r = [TOUCHPAD_ENABLED_FEATURE, 0];
    assert(r@ =~= seq![TOUCHPAD_ENABLED_FEATURE, 0u8]);
    r
}

/// The buffer handed to the write-feature `ioctl` to set `state`.
pub fn set_feature_request(state: TouchpadState) -> (r: [u8; 2])
    ensures
        r@ == seq![TOUCHPAD_ENABLED_FEATURE, encode_spec(state)],
{
    let r = [TOUCHPAD_ENABLED_FEATURE, state.as_u8()];
    assert(r@ =~= seq![TOUCHPAD_ENABLED_FEATURE, encode_spec(state)]);
    r
}

/// The state that a filled-in read-feature buffer reports.
pub fn decode_feature_report(data: &[u8; 2]) -> (r: Result<TouchpadState, TPadError>)
    ensures
        data@[1] <= 3 ==> (r matches Ok(s) && Some(s) == decode_spec(data@[1])),
        data@[1] > 3 ==> (r matches Err(TPadError::InvalidState(v)) && v == data@[1]),
{
    TouchpadState::try_from(data[1])
}

} // verus!
