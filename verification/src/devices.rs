//! Records of the devices that discovery reports. They are handed to the
//! caller as they are; the formatting core does not read them.

use vstd::prelude::*;

verus! {

/// A USB device: vendor, product and the product's name.
#[derive(Debug, Clone)]
pub struct DeviceInfo {
    pub vendor_id: u16,
    pub device_id: u16,
    pub name: String,
}

/// A Bluetooth device: address and name.
#[derive(Debug, Clone)]
pub struct BluetoothDevice {
    pub address: String,
    pub name: String,
}

} // verus!
