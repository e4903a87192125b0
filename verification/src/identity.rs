//! The wire-visible USB identity of the probe.
//!
//! A host operating system selects drivers from these values, so they are a
//! stable contract across boots: a fixed vendor/product pair, the standard
//! miscellaneous/common/interface-association class triple required for a
//! multi-class composite device, a 64-byte control endpoint, and two
//! human-readable descriptor strings. No serial number is populated.

use vstd::prelude::*;

verus! {

/// The fixed identity under which the composite device enumerates.
#[derive(Clone, Copy, Debug, PartialEq, Eq, Structural)]
pub struct UsbIdentity {
    /// USB vendor identifier.
    pub vendor_id: u16,
    /// USB product identifier.
    pub product_id: u16,
    /// Device class: miscellaneous.
    pub device_class: u8,
    /// Device subclass: common.
    pub device_sub_class: u8,
    /// Device protocol: interface association descriptor.
    pub device_protocol: u8,
    /// Max packet size of the control endpoint, in bytes.
    pub max_packet_size: u8,
    /// Whether the device enumerates as a composite with interface
    /// association descriptors.
    pub composite_with_iads: bool,
}

/// The one identity this firmware ever presents.
pub open spec fn spec_identity() -> UsbIdentity {
    UsbIdentity {
        vendor_id: 0x2E8A,
        product_id: 0x106B,
        device_class: 0xEF,
        device_sub_class: 0x02,
        device_protocol: 0x01,
        max_packet_size: 64,
        composite_with_iads: true,
    }
}

/// Build the identity the device descriptor is populated from.
pub fn device_identity() -> (id: UsbIdentity)
    ensures
        id == spec_identity(),
{
    UsbIdentity {
        vendor_id: 0x2E8A,
        product_id: 0x106B,
        device_class: 0xEF,
        device_sub_class: 0x02,
        device_protocol: 0x01,
        max_packet_size: 64,
        composite_with_iads: true,
    }
}

/// The manufacturer descriptor string.
pub fn manufacturer() -> (s: &'static str)
    ensures
        s@ == "Seebeck inc."@,
{
    "Seebeck inc."
}

/// The product descriptor string.
pub fn product() -> (s: &'static str)
    ensures
        s@ == "Baker link. Dev(CMSIS-DAP)"@,
{
    "Baker link. Dev(CMSIS-DAP)"
}

} // verus!
