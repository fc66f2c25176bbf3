//! Target device selection: the fixed identity of the one supported
//! peripheral, and the choice of the first matching endpoint among the
//! HID devices enumerated by the host.

use vstd::prelude::*;

verus! {

/// Vendor ID of the supported peripheral.
pub const VENDOR_ID: u16 = 0x048d;

/// Product ID of the supported peripheral.
pub const PRODUCT_ID: u16 = 0xc965;

/// HID usage page of the lighting endpoint.
pub const USAGE_PAGE: u16 = 0xff89;

/// HID usage of the lighting endpoint.
pub const USAGE: u16 = 0x00cc;

/// The 4-tuple identifying one HID endpoint on the host.
#[derive(Clone, Copy, Debug, PartialEq, Eq, Structural)]
pub struct DeviceIdentity {
    pub vendor_id: u16,
    pub product_id: u16,
    pub usage_page: u16,
    pub usage: u16,
}

/// The fixed identity of the target peripheral.
pub open spec fn spec_target_identity() -> DeviceIdentity {
    DeviceIdentity { vendor_id: VENDOR_ID, product_id: PRODUCT_ID, usage_page: USAGE_PAGE, usage: USAGE }
}

/// The fixed identity of the target peripheral.
pub fn target_identity() -> (d: DeviceIdentity)
    ensures
        d == spec_target_identity(),
{
    DeviceIdentity { vendor_id: VENDOR_ID, product_id: PRODUCT_ID, usage_page: USAGE_PAGE, usage: USAGE }
}

/// Picks the target among enumerated endpoints: the index of the first
/// entry equal to the fixed identity, or `None` when no entry matches
/// (the device-not-found condition; nothing must be written then).
pub fn find_target(devices: &Vec<DeviceIdentity>) -> (r: Option<usize>)
    ensures
        match r {
            Some(i) => {
                &&& i < devices@.len()
                &&& devices@[i as int] == spec_target_identity()
                &&& forall|j: int| 0 <= j < i ==> devices@[j] != spec_target_identity()
            },
            None => forall|j: int| 0 <= j < devices@.len() ==> devices@[j] != spec_target_identity(),
        },
{
    let target = target_identity();
    let mut i: usize = 0;
    while i < devices.len()
        invariant
            0 <= i <= devices@.len(),
            target == spec_target_identity(),
            forall|j: int| 0 <= j < i ==> devices@[j] != spec_target_identity(),
        decreases devices@.len() - i,
    {
        if devices[i] == target {
            return Some(i);
        }
        i += 1;
    }
    None
}

} // verus!
