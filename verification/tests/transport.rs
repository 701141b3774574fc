#![allow(unused_imports)]
use mtp_rs::transport::location::{find_location_id, KnownLocation};
use mtp_rs::transport::virtual_device::config::{VirtualDeviceConfig, VirtualStorageConfig};
use mtp_rs::transport::{align_to_packet_size, is_mtp_class};
use std::path::PathBuf;
use std::time::Duration;

#[test]
fn test_align_to_packet_size() {
    // Zero size rounds up to packet_size
    assert_eq!(align_to_packet_size(0, 512), 512);
    // Size smaller than packet rounds up
    assert_eq!(align_to_packet_size(1, 512), 512);
    // Exact multiple stays the same
    assert_eq!(align_to_packet_size(512, 512), 512);
    assert_eq!(align_to_packet_size(1024, 512), 1024);
    // Non-multiple rounds up
    assert_eq!(align_to_packet_size(513, 512), 1024);
    assert_eq!(align_to_packet_size(100, 64), 128);
    // Zero packet_size edge case
    assert_eq!(align_to_packet_size(0, 0), 1);
    assert_eq!(align_to_packet_size(100, 0), 100);
}

#[test]
fn test_mtp_class_detection() {
    // Image class with MTP subclass/protocol
    assert!(is_mtp_class(0x06, 0x01, 0x01));

    // Vendor class with MTP subclass/protocol
    assert!(is_mtp_class(0xFF, 0x01, 0x01));

    // Wrong class
    assert!(!is_mtp_class(0x08, 0x01, 0x01));

    // Wrong subclass
    assert!(!is_mtp_class(0x06, 0x00, 0x01));

    // Wrong protocol
    assert!(!is_mtp_class(0x06, 0x01, 0x00));
}

fn known(vendor_id: u16, product_id: u16, serial: Option<&str>, location_id: u64) -> KnownLocation {
    KnownLocation { vendor_id, product_id, serial: serial.map(String::from), location_id }
}

#[test]
fn location_from_bus_and_address_when_nothing_is_recorded() {
    assert_eq!(find_location_id(0x18d1, 0x4ee1, &None, "3", 7, &[]), (3u64 << 32) | 7);
    assert_eq!(find_location_id(0x18d1, 0x4ee1, &Some("abc".to_string()), "+12", 1, &[]), (12u64 << 32) | 1);
}

#[test]
fn location_with_unreadable_bus_id_uses_bus_zero() {
    assert_eq!(find_location_id(1, 2, &None, "usb-3", 9, &[]), 9);
    assert_eq!(find_location_id(1, 2, &None, "", 9, &[]), 9);
    assert_eq!(find_location_id(1, 2, &None, "-1", 9, &[]), 9);
}

#[test]
fn location_bus_number_keeps_its_low_32_bits() {
    assert_eq!(find_location_id(1, 2, &None, "4294967297", 5, &[]), (1u64 << 32) | 5);
}

#[test]
fn location_recorded_for_identity_with_serial_wins() {
    let table = vec![
        known(0x18d1, 0x4ee1, None, 0x1000),
        known(0x18d1, 0x4ee1, Some("SER1"), 0x2000),
        known(0x04e8, 0x6860, Some("SER1"), 0x3000),
    ];
    assert_eq!(find_location_id(0x18d1, 0x4ee1, &Some("SER1".to_string()), "1", 1, &table), 0x2000);
    assert_eq!(find_location_id(0x04e8, 0x6860, &Some("SER1".to_string()), "1", 1, &table), 0x3000);
}

#[test]
fn location_falls_back_to_entry_without_serial() {
    let table = vec![known(0x18d1, 0x4ee1, None, 0x1000), known(0x18d1, 0x4ee1, Some("OTHER"), 0x2000)];
    assert_eq!(find_location_id(0x18d1, 0x4ee1, &Some("SER9".to_string()), "2", 3, &table), 0x1000);
    assert_eq!(find_location_id(0x18d1, 0x4ee1, &None, "2", 3, &table), 0x1000);
    // A different product has no entry: bus and address are used.
    assert_eq!(find_location_id(0x18d1, 0x4ee2, &None, "2", 3, &table), (2u64 << 32) | 3);
}

#[test]
fn virtual_device_config_clones_field_by_field() {
    let config = VirtualDeviceConfig {
        manufacturer: "Google".into(),
        model: "Virtual Pixel 9".into(),
        serial: "virtual-001".into(),
        storages: vec![VirtualStorageConfig {
            description: "Internal Storage".into(),
            capacity: 64 * 1024 * 1024 * 1024,
            backing_dir: PathBuf::from("/tmp/mtp-test"),
            read_only: false,
        }],
        supports_rename: true,
        event_poll_interval: Duration::from_millis(50),
    };
    let copy = config.clone();
    assert_eq!(copy.manufacturer, "Google");
    assert_eq!(copy.model, "Virtual Pixel 9");
    assert_eq!(copy.serial, "virtual-001");
    assert_eq!(copy.storages.len(), 1);
    assert_eq!(copy.storages[0].description, "Internal Storage");
    assert_eq!(copy.storages[0].capacity, 64 * 1024 * 1024 * 1024);
    assert_eq!(copy.storages[0].backing_dir, PathBuf::from("/tmp/mtp-test"));
    assert!(!copy.storages[0].read_only);
    assert!(copy.supports_rename);
    assert_eq!(copy.event_poll_interval, Duration::from_millis(50));
}
