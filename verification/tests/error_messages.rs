use mtp_rs::ptp::pack::{unpack_datetime, unpack_string, unpack_u16, unpack_u32_array, unpack_u8};
use mtp_rs::ptp::receive::{DataReceiver, ReceiveState, StreamStep};
use mtp_rs::ptp::types::{DeviceInfo, DevicePropDesc, ObjectInfo, PropertyRange, PropertyValue, StorageInfo};
use mtp_rs::ptp::{
    container_type, DataContainer, EventContainer, OperationCode, PropertyDataType, ResponseContainer,
};
use mtp_rs::Error;

fn message<T: std::fmt::Debug>(r: Result<T, Error>) -> String {
    match r {
        Err(Error::InvalidData { message }) => message,
        other => panic!("expected invalid data, got {:?}", other),
    }
}

fn header(length: u32, ty: u16, code: u16, tx: u32) -> Vec<u8> {
    let mut b = Vec::new();
    b.extend_from_slice(&length.to_le_bytes());
    b.extend_from_slice(&ty.to_le_bytes());
    b.extend_from_slice(&code.to_le_bytes());
    b.extend_from_slice(&tx.to_le_bytes());
    b
}

#[test]
fn integer_messages_name_the_bytes_present() {
    assert_eq!(message(unpack_u8(&[])), "insufficient bytes for u8: need 1, have 0");
    assert_eq!(message(unpack_u16(&[1])), "insufficient bytes for u16: need 2, have 1");
}

#[test]
fn array_messages_give_need_and_have() {
    assert_eq!(message(unpack_u32_array(&[1, 0])), "insufficient bytes for array count: need 4, have 2");
    assert_eq!(
        message(unpack_u32_array(&[2, 0, 0, 0, 1, 0])),
        "insufficient bytes for u32 array: need 12, have 6"
    );
}

#[test]
fn string_messages() {
    assert_eq!(message(unpack_string(&[])), "insufficient bytes for string length");
    assert_eq!(message(unpack_string(&[3, 0x41, 0])), "insufficient bytes for string: need 7, have 3");
    // A lone high surrogate is not UTF-16.
    assert_eq!(message(unpack_string(&[1, 0x00, 0xD8])), "invalid UTF-16 encoding");
}

#[test]
fn datetime_message_quotes_the_text() {
    let mut buf = vec![6u8];
    for c in "hello".encode_utf16() {
        buf.extend_from_slice(&c.to_le_bytes());
    }
    buf.extend_from_slice(&[0, 0]);
    assert_eq!(message(unpack_datetime(&buf)), "invalid datetime format: hello");
}

#[test]
fn container_messages() {
    assert_eq!(message(container_type(&[0; 5])), "container too small: need at least 12 bytes, have 5");
    assert_eq!(message(container_type(&header(12, 9, 0, 0))), "invalid container type: 9");
    assert_eq!(
        message(DataContainer::from_bytes(&[0; 5])),
        "data container too small: need at least 12 bytes, have 5"
    );
    assert_eq!(
        message(DataContainer::from_bytes(&header(12, 3, 0, 0))),
        "expected Data container type (2), got 3"
    );
    assert_eq!(
        message(DataContainer::from_bytes(&header(8, 2, 0, 0))),
        "data container length too small: 8 < header size 12"
    );
    assert_eq!(
        message(DataContainer::from_bytes(&header(20, 2, 0, 0))),
        "data container length mismatch: header says 20, have 12"
    );
    let mut unaligned = header(14, 3, 0x2001, 1);
    unaligned.extend_from_slice(&[0, 0]);
    assert_eq!(
        message(ResponseContainer::from_bytes(&unaligned)),
        "response parameter bytes not aligned: 2 bytes"
    );
    assert_eq!(
        message(ResponseContainer::from_bytes(&header(16, 3, 0x2001, 1))),
        "response container length mismatch: header says 16, have 12"
    );
    assert_eq!(
        message(EventContainer::from_bytes(&header(28, 4, 0x4002, 0))),
        "event container invalid size: expected 12-24, got 28"
    );
    assert_eq!(
        message(EventContainer::from_bytes(&header(14, 4, 0x4002, 0))),
        "event parameter bytes not aligned: 2 bytes"
    );
    assert_eq!(
        message(EventContainer::from_bytes(&header(16, 4, 0x4002, 0))),
        "event container buffer too small: need 16, have 12"
    );
    assert_eq!(
        message(EventContainer::from_bytes(&header(12, 1, 0x4002, 0))),
        "expected Event container type (4), got 1"
    );
}

#[test]
fn unsupported_property_types_are_named() {
    assert_eq!(
        message(PropertyValue::from_bytes(&[0; 16], PropertyDataType::Int128)),
        "unsupported property data type: Int128"
    );
    assert_eq!(
        message(PropertyValue::from_bytes(&[0; 16], PropertyDataType::Unknown(0x4002))),
        "unsupported property data type: Unknown(16386)"
    );
    assert_eq!(
        message(PropertyValue::from_bytes(&[1], PropertyDataType::Uint32)),
        "insufficient bytes for u32: need 4, have 1"
    );
}

#[test]
fn dataset_messages_come_from_the_first_unreadable_field() {
    assert_eq!(message(DeviceInfo::from_bytes(&[1])), "insufficient bytes for u16: need 2, have 1");
    // Standard version and vendor extension id present, vendor extension version cut short.
    assert_eq!(
        message(DeviceInfo::from_bytes(&[100, 0, 6, 0, 0, 0, 1])),
        "insufficient bytes for u16: need 2, have 1"
    );
    assert_eq!(
        message(StorageInfo::from_bytes(&[3, 0, 2, 0, 0, 0, 1, 2, 3])),
        "insufficient bytes for u64: need 8, have 3"
    );
    assert_eq!(message(ObjectInfo::from_bytes(&[1, 0, 0])), "insufficient bytes for u32: need 4, have 3");
}

#[test]
fn property_descriptor_messages() {
    assert_eq!(message(DevicePropDesc::from_bytes(&[1])), "insufficient bytes for u16: need 2, have 1");
    assert_eq!(
        message(DevicePropDesc::from_bytes(&[0x01, 0x50, 0x04, 0x00])),
        "DevicePropDesc: insufficient bytes for GetSet"
    );
    // A u16 property with default and current values, then no form flag.
    assert_eq!(
        message(DevicePropDesc::from_bytes(&[0x01, 0x50, 0x04, 0x00, 0x01, 1, 0, 2, 0])),
        "DevicePropDesc: insufficient bytes for FormFlag"
    );
    // A range whose step is missing.
    assert_eq!(
        message(PropertyRange::from_bytes(&[1, 0, 2, 0], PropertyDataType::Uint16)),
        "insufficient bytes for u16: need 2, have 0"
    );
    // An enumeration of two u16 values with only one present.
    assert_eq!(
        message(DevicePropDesc::from_bytes(&[0x01, 0x50, 0x04, 0x00, 0x01, 1, 0, 2, 0, 0x02, 2, 0, 7, 0])),
        "insufficient bytes for u16: need 2, have 0"
    );
}

#[test]
fn receiver_messages() {
    let mut rx = DataReceiver::new(5);
    assert_eq!(message(rx.feed(Vec::new())), "Empty response");
    let mut rx = DataReceiver::new(5);
    assert_eq!(message(rx.feed(header(12, 4, 0x4002, 5))), "Unexpected container type: Event");
    let mut rx = DataReceiver::new(5);
    assert_eq!(message(rx.feed(header(12, 3, 0x2001, 6))), "Transaction ID mismatch: expected 5, got 6");
    let mut rx = DataReceiver::new(5);
    let mut first = header(20, 2, 0x1009, 5);
    first.extend_from_slice(&[1, 2]);
    assert!(matches!(rx.feed(first), Ok(None)));
    assert_eq!(message(rx.feed(Vec::new())), "Incomplete data container: device stopped sending");
}

#[test]
fn stream_messages() {
    let mut st = ReceiveState::new(3, OperationCode::GetObject);
    match st.on_receive(Ok(header(12, 1, 0x1009, 3))) {
        StreamStep::Fail(Error::InvalidData { message }) => assert_eq!(message, "Unexpected container type: Command"),
        _ => panic!("expected invalid data"),
    }
    let mut st = ReceiveState::new(3, OperationCode::GetObject);
    match st.on_receive(Ok(header(12, 3, 0x2001, 4))) {
        StreamStep::Fail(Error::InvalidData { message }) => {
            assert_eq!(message, "Transaction ID mismatch: expected 3, got 4")
        }
        _ => panic!("expected invalid data"),
    }
    let mut st = ReceiveState::new(3, OperationCode::GetObject);
    match st.on_receive(Ok(Vec::new())) {
        StreamStep::Fail(Error::InvalidData { message }) => assert_eq!(message, "Empty response from device"),
        _ => panic!("expected invalid data"),
    }
}
