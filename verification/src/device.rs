//! A device as the core last described it, with what it can take.

use vstd::prelude::*;
use crate::text::same;

verus! {

/// How the core can reach a device.
#[derive(Debug, Clone, Copy, PartialEq, Eq, Structural)]
pub enum DeviceReachability {
    /// Seen on the network, not connected.
    Discovered,
    /// Connected now.
    Connected,
    /// Known, but neither seen nor connected.
    Unavailable,
}

/// What kind of device it is.
#[derive(Debug, Clone, Copy, PartialEq, Eq, Structural)]
pub enum DeviceType {
    Desktop,
    Laptop,
    Phone,
    Tablet,
    Tv,
}

/// A device's battery, as it last reported it.
#[derive(Debug, Clone, Copy, PartialEq, Eq, Structural)]
pub struct Battery {
    /// Percent charged.
    pub charge: u8,
    pub charging: bool,
}

/// A device as the core describes it.
#[derive(Debug, Clone)]
pub struct DeviceSnapshot {
    pub device_id: String,
    pub device_name: String,
    pub device_type: DeviceType,
    pub paired: bool,
    pub reachability: DeviceReachability,
    /// The packet types the device takes.
    pub incoming_capabilities: Vec<String>,
    /// The packet types the device sends.
    pub outgoing_capabilities: Vec<String>,
    /// The battery it reported, if any.
    pub battery: Option<Battery>,
}

/// Whether `capabilities` names the packet type `wanted`.
pub open spec fn names(capabilities: Seq<String>, wanted: Seq<char>) -> bool {
    exists|i: int| 0 <= i < capabilities.len() && (#[trigger] capabilities[i])@ == wanted
}

/// Whether `capabilities` names `wanted`.
pub fn has_capability(capabilities: &Vec<String>, wanted: &str) -> (r: bool)
    ensures
        r == names(capabilities@, wanted@),
{
    let mut i: usize = 0;
    while i < capabilities.len()
        invariant
            i <= capabilities@.len(),
            forall|j: int| 0 <= j < i ==> (#[trigger] capabilities@[j])@ != wanted@,
        decreases capabilities@.len() - i,
    {
        if same(capabilities[i].as_str(), wanted) {
            assert((capabilities@[i as int])@ == wanted@);
            return true;
        }
        i = i + 1;
    }
    false
}

/// Whether the device is connected now.
pub open spec fn connected(device: DeviceSnapshot) -> bool {
    device.reachability == DeviceReachability::Connected
}

pub fn is_connected(device: &DeviceSnapshot) -> (r: bool)
    ensures
        r == connected(*device),
{
    match device.reachability {
        DeviceReachability::Connected => true,
        _ => false,
    }
}

} // verus!
