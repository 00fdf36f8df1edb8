use vstd::prelude::*;

use crate::error::TPadError;
use crate::text::same_text;

verus! {

/// The subsystem whose devices are searched for the touchpad.
pub const HIDRAW_SUBSYSTEM: &'static str = "hidraw";

/// The system-path component that identifies the touchpad.
pub const TOUCHPAD_SYSNAME: &'static str = "i2c-UNIW0001:00";

/// What the logic reads of one enumerated device.
#[derive(Debug)]
pub struct DeviceInfo {
    /// The components of the device's system path, in order.
    pub syspath: Vec<String>,
    /// The path of the device node, if the device has one.
    pub devnode: Option<String>,
    /// The last component of the device node's path, where it is text.
    pub devnode_name: Option<String>,
}

/// Whether a system-path component is the touchpad's identifier.
pub open spec fn is_touchpad_component(c: Seq<char>) -> bool {
    c == TOUCHPAD_SYSNAME@
}

/// Whether some component of the device's system path is the touchpad's identifier.
pub open spec fn is_touchpad_device(d: DeviceInfo) -> bool {
    exists|i: int| 0 <= i < d.syspath@.len() && is_touchpad_component(#[trigger] d.syspath@[i]@)
}

/// Whether no device before position `n` is the touchpad.
pub open spec fn no_touchpad_before(devices: Seq<DeviceInfo>, n: int) -> bool {
    forall|j: int| 0 <= j < n ==> !is_touchpad_device(#[trigger] devices[j])
}

/// Whether a system-path component is exactly the touchpad's identifier.
pub fn path_component_matches(comp: &str) -> (r: bool)
    ensures
        r == is_touchpad_component(comp@),
{
    same_text(comp, TOUCHPAD_SYSNAME)
}

/// Whether the device's system path holds the touchpad's identifier as a component.
pub fn device_matches(device: &DeviceInfo) -> (r: bool)
    ensures
        r == is_touchpad_device(*device),
{
    let n = device.syspath.len();
    let mut i: usize = 0;
    while i < n
        invariant
            n == device.syspath@.len(),
            i <= n,
            forall|j: int| 0 <= j < i ==> !is_touchpad_component(#[trigger] device.syspath@[j]@),
        decreases n - i,
    {
        if path_component_matches(device.syspath[i].as_str()) {
            return true;
        }
        i = i + 1;
    }
    false
}

/// Picks the touchpad among enumerated hidraw devices: the first that matches,
/// in enumeration order, and returns the path of its device node.
pub fn find_touchpad(devices: &Vec<DeviceInfo>) -> (r: Result<String, TPadError>)
    ensures
        no_touchpad_before(devices@, devices@.len() as int) <==> r matches Err(
            TPadError::NoDevice,
        ),
        forall|k: int|
            0 <= k < devices@.len() && is_touchpad_device(#[trigger] devices@[k])
                && no_touchpad_before(devices@, k) ==> match devices@[k].devnode {
                Some(p) => r matches Ok(q) && q@ == p@,
                None => r matches Err(TPadError::NoDevNode),
            },
{
    let n = devices.len();
    let mut i: usize = 0;
    while i < n
        invariant
            n == devices@.len(),
            i <= n,
            no_touchpad_before(devices@, i as int),
        decreases n - i,
    {
        let device = &devices[i];
        if device_matches(device) {
            assert(forall|k: int|
                0 <= k < devices@.len() && is_touchpad_device(#[trigger] devices@[k])
                    && no_touchpad_before(devices@, k) ==> k == i);
            return match &device.devnode {
                Some(path) => Ok(path.clone()),
                None => Err(TPadError::NoDevNode),
            };
        }
        i = i + 1;
    }
    Err(TPadError::NoDevice)
}

} // verus!
