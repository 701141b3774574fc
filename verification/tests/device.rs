#![allow(unused_imports)]
use mtp_rs::mtp::{MtpDeviceBuilder, MtpDeviceInfo};
use std::time::Duration;

#[test]
fn test_builder_default() {
    let builder = MtpDeviceBuilder::new();
    assert_eq!(builder.timeout, Duration::from_secs(30));
}

#[test]
fn test_builder_timeout() {
    let custom_timeout = Duration::from_secs(60);
    let builder = MtpDeviceBuilder::new().timeout(custom_timeout);
    assert_eq!(builder.timeout, custom_timeout);
}

#[test]
fn test_mtp_device_info_display() {
    let info = MtpDeviceInfo {
        bus: 1,
        address: 5,
        vendor_id: 0x04e8,
        product_id: 0x6860,
    };
    let display = info.display();
    assert!(display.contains("04e8:6860"));
    assert!(display.contains("1:5"));
}
