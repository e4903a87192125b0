//! The wire-visible USB identity.

use probe_core::identity::{device_identity, manufacturer, product};

#[test]
fn vendor_and_product_identifiers() {
    let id = device_identity();
    assert_eq!(id.vendor_id, 0x2E8A);
    assert_eq!(id.product_id, 0x106B);
}

#[test]
fn composite_class_triple() {
    let id = device_identity();
    assert_eq!(id.device_class, 0xEF);
    assert_eq!(id.device_sub_class, 0x02);
    assert_eq!(id.device_protocol, 0x01);
    assert!(id.composite_with_iads);
}

#[test]
fn control_endpoint_packet_size() {
    assert_eq!(device_identity().max_packet_size, 64);
}

#[test]
fn descriptor_strings() {
    assert_eq!(manufacturer(), "Seebeck inc.");
    assert_eq!(product(), "Baker link. Dev(CMSIS-DAP)");
}
