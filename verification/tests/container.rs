#![allow(unused_imports)]
use mtp_rs::ptp::{
    container_type, CommandContainer, ContainerType, DataContainer, EventCode, EventContainer,
    OperationCode, ResponseCode, ResponseContainer,
};
use mtp_rs::ptp::pack::{pack_u16, pack_u32};

const HEADER_SIZE: usize = 12;

#[test]
fn container_type_from_code() {
    assert_eq!(ContainerType::from_code(1), Some(ContainerType::Command));
    assert_eq!(ContainerType::from_code(2), Some(ContainerType::Data));
    assert_eq!(ContainerType::from_code(3), Some(ContainerType::Response));
    assert_eq!(ContainerType::from_code(4), Some(ContainerType::Event));
    assert_eq!(ContainerType::from_code(0), None);
    assert_eq!(ContainerType::from_code(5), None);
    assert_eq!(ContainerType::from_code(0xFFFF), None);
}

#[test]
fn container_type_to_code() {
    assert_eq!(ContainerType::Command.to_code(), 1);
    assert_eq!(ContainerType::Data.to_code(), 2);
    assert_eq!(ContainerType::Response.to_code(), 3);
    assert_eq!(ContainerType::Event.to_code(), 4);
}

#[test]
fn container_type_roundtrip() {
    for ct in [
        ContainerType::Command,
        ContainerType::Data,
        ContainerType::Response,
        ContainerType::Event,
    ] {
        assert_eq!(ContainerType::from_code(ct.to_code()), Some(ct));
    }
}

#[test]
fn container_type_function_command() {
    let bytes = vec![
        0x0C, 0x00, 0x00, 0x00, // length = 12
        0x01, 0x00, // type = Command
        0x03, 0x10, // code
        0x05, 0x00, 0x00, 0x00, // transaction_id
    ];
    assert_eq!(container_type(&bytes).unwrap(), ContainerType::Command);
}

#[test]
fn container_type_function_data() {
    let bytes = vec![
        0x0C, 0x00, 0x00, 0x00, // length = 12
        0x02, 0x00, // type = Data
        0x04, 0x10, // code
        0x02, 0x00, 0x00, 0x00, // transaction_id
    ];
    assert_eq!(container_type(&bytes).unwrap(), ContainerType::Data);
}

#[test]
fn container_type_function_response() {
    let bytes = vec![
        0x0C, 0x00, 0x00, 0x00, // length = 12
        0x03, 0x00, // type = Response
        0x01, 0x20, // code
        0x01, 0x00, 0x00, 0x00, // transaction_id
    ];
    assert_eq!(container_type(&bytes).unwrap(), ContainerType::Response);
}

#[test]
fn container_type_function_event() {
    let bytes = vec![
        0x18, 0x00, 0x00, 0x00, // length = 24
        0x04, 0x00, // type = Event
        0x02, 0x40, // code
        0x00, 0x00, 0x00, 0x00, // transaction_id
        0x00, 0x00, 0x00, 0x00, // param1
        0x00, 0x00, 0x00, 0x00, // param2
        0x00, 0x00, 0x00, 0x00, // param3
    ];
    assert_eq!(container_type(&bytes).unwrap(), ContainerType::Event);
}

#[test]
fn container_type_function_insufficient_bytes() {
    assert!(container_type(&[]).is_err());
    assert!(container_type(&[0x00; 11]).is_err());
}

#[test]
fn container_type_function_invalid_type() {
    let bytes = vec![
        0x0C, 0x00, 0x00, 0x00, // length = 12
        0x00, 0x00, // type = invalid (0)
        0x01, 0x20, // code
        0x01, 0x00, 0x00, 0x00, // transaction_id
    ];
    assert!(container_type(&bytes).is_err());

    let bytes = vec![
        0x0C, 0x00, 0x00, 0x00, // length = 12
        0x05, 0x00, // type = invalid (5)
        0x01, 0x20, // code
        0x01, 0x00, 0x00, 0x00, // transaction_id
    ];
    assert!(container_type(&bytes).is_err());
}

#[test]
fn command_container_no_params() {
    let cmd = CommandContainer {
        code: OperationCode::CloseSession,
        transaction_id: 5,
        params: vec![],
    };
    let bytes = cmd.to_bytes();
    assert_eq!(bytes.len(), 12);
    assert_eq!(&bytes[0..4], &[0x0C, 0x00, 0x00, 0x00]); // length = 12
    assert_eq!(&bytes[4..6], &[0x01, 0x00]); // type = Command
    assert_eq!(&bytes[6..8], &[0x03, 0x10]); // code = CloseSession (0x1003)
    assert_eq!(&bytes[8..12], &[0x05, 0x00, 0x00, 0x00]); // transaction_id = 5
}

#[test]
fn command_container_one_param() {
    let cmd = CommandContainer {
        code: OperationCode::OpenSession,
        transaction_id: 1,
        params: vec![1],
    };
    let bytes = cmd.to_bytes();
    assert_eq!(bytes.len(), 16);
    assert_eq!(&bytes[0..4], &[0x10, 0x00, 0x00, 0x00]); // length = 16
    assert_eq!(&bytes[12..16], &[0x01, 0x00, 0x00, 0x00]); // param1 = 1
}

#[test]
fn command_container_multiple_params() {
    let cmd = CommandContainer {
        code: OperationCode::GetObjectHandles,
        transaction_id: 10,
        params: vec![0x00010001, 0x00000000, 0xFFFFFFFF],
    };
    let bytes = cmd.to_bytes();
    assert_eq!(bytes.len(), 24); // 12 header + 12 params
    assert_eq!(&bytes[0..4], &[0x18, 0x00, 0x00, 0x00]); // length = 24
    assert_eq!(&bytes[4..6], &[0x01, 0x00]); // type = Command
    assert_eq!(&bytes[6..8], &[0x07, 0x10]); // code = GetObjectHandles (0x1007)
    assert_eq!(&bytes[8..12], &[0x0A, 0x00, 0x00, 0x00]); // transaction_id = 10
    assert_eq!(&bytes[12..16], &[0x01, 0x00, 0x01, 0x00]); // param1 = 0x00010001
    assert_eq!(&bytes[16..20], &[0x00, 0x00, 0x00, 0x00]); // param2 = 0
    assert_eq!(&bytes[20..24], &[0xFF, 0xFF, 0xFF, 0xFF]); // param3 = 0xFFFFFFFF
}

#[test]
fn command_container_five_params() {
    let cmd = CommandContainer {
        code: OperationCode::GetPartialObject,
        transaction_id: 42,
        params: vec![1, 2, 3, 4, 5],
    };
    let bytes = cmd.to_bytes();
    assert_eq!(bytes.len(), 32); // 12 header + 20 params
    assert_eq!(&bytes[0..4], &[0x20, 0x00, 0x00, 0x00]); // length = 32
}

#[test]
fn data_container_to_bytes() {
    let data = DataContainer {
        code: OperationCode::GetStorageIds,
        transaction_id: 2,
        payload: vec![0x01, 0x00, 0x00, 0x00, 0x01, 0x00, 0x01, 0x00],
    };
    let bytes = data.to_bytes();
    assert_eq!(bytes.len(), 20); // 12 header + 8 payload
    assert_eq!(&bytes[0..4], &[0x14, 0x00, 0x00, 0x00]); // length = 20
    assert_eq!(&bytes[4..6], &[0x02, 0x00]); // type = Data
    assert_eq!(&bytes[6..8], &[0x04, 0x10]); // code = GetStorageIds (0x1004)
    assert_eq!(&bytes[8..12], &[0x02, 0x00, 0x00, 0x00]); // transaction_id = 2
    assert_eq!(
        &bytes[12..20],
        &[0x01, 0x00, 0x00, 0x00, 0x01, 0x00, 0x01, 0x00]
    ); // payload
}

#[test]
fn data_container_parse() {
    let bytes = vec![
        0x14, 0x00, 0x00, 0x00, // length = 20
        0x02, 0x00, // type = Data
        0x04, 0x10, // code = GetStorageIds (0x1004)
        0x02, 0x00, 0x00, 0x00, // transaction_id = 2
        0x01, 0x00, 0x00, 0x00, // payload: count=1
        0x01, 0x00, 0x01, 0x00, // payload: 0x00010001
    ];
    let data = DataContainer::from_bytes(&bytes).unwrap();
    assert_eq!(data.code, OperationCode::GetStorageIds);
    assert_eq!(data.transaction_id, 2);
    assert_eq!(data.payload.len(), 8);
    assert_eq!(
        data.payload,
        vec![0x01, 0x00, 0x00, 0x00, 0x01, 0x00, 0x01, 0x00]
    );
}

#[test]
fn data_container_roundtrip() {
    let original = DataContainer {
        code: OperationCode::GetObject,
        transaction_id: 100,
        payload: vec![1, 2, 3, 4, 5, 6, 7, 8, 9, 10],
    };
    let bytes = original.to_bytes();
    let parsed = DataContainer::from_bytes(&bytes).unwrap();
    assert_eq!(parsed, original);
}

#[test]
fn data_container_empty_payload() {
    let data = DataContainer {
        code: OperationCode::SendObject,
        transaction_id: 5,
        payload: vec![],
    };
    let bytes = data.to_bytes();
    assert_eq!(bytes.len(), 12);
    let parsed = DataContainer::from_bytes(&bytes).unwrap();
    assert_eq!(parsed, data);
}

#[test]
fn data_container_parse_insufficient_bytes() {
    // Too small for header
    assert!(DataContainer::from_bytes(&[0x00; 11]).is_err());

    // Header says more bytes than available
    let bytes = vec![
        0x20, 0x00, 0x00, 0x00, // length = 32 (but we won't provide that many)
        0x02, 0x00, // type = Data
        0x04, 0x10, // code
        0x02, 0x00, 0x00, 0x00, // transaction_id
    ];
    assert!(DataContainer::from_bytes(&bytes).is_err());
}

#[test]
fn data_container_parse_wrong_type() {
    let bytes = vec![
        0x0C, 0x00, 0x00, 0x00, // length = 12
        0x03, 0x00, // type = Response (wrong!)
        0x04, 0x10, // code
        0x02, 0x00, 0x00, 0x00, // transaction_id
    ];
    assert!(DataContainer::from_bytes(&bytes).is_err());
}

#[test]
fn response_container_ok() {
    let bytes = vec![
        0x0C, 0x00, 0x00, 0x00, // length = 12
        0x03, 0x00, // type = Response
        0x01, 0x20, // code = OK (0x2001)
        0x01, 0x00, 0x00, 0x00, // transaction_id = 1
    ];
    let resp = ResponseContainer::from_bytes(&bytes).unwrap();
    assert_eq!(resp.code, ResponseCode::Success);
    assert_eq!(resp.transaction_id, 1);
    assert!(resp.params.is_empty());
    assert!(resp.is_ok());
}

#[test]
fn response_container_with_params() {
    let bytes = vec![
        0x18, 0x00, 0x00, 0x00, // length = 24
        0x03, 0x00, // type = Response
        0x01, 0x20, // code = OK
        0x02, 0x00, 0x00, 0x00, // transaction_id = 2
        0x01, 0x00, 0x01, 0x00, // param1 = 0x00010001
        0x00, 0x00, 0x00, 0x00, // param2 = 0
        0x05, 0x00, 0x00, 0x00, // param3 = 5
    ];
    let resp = ResponseContainer::from_bytes(&bytes).unwrap();
    assert_eq!(resp.code, ResponseCode::Success);
    assert_eq!(resp.transaction_id, 2);
    assert_eq!(resp.params.len(), 3);
    assert_eq!(resp.params[0], 0x00010001);
    assert_eq!(resp.params[1], 0);
    assert_eq!(resp.params[2], 5);
    assert!(resp.is_ok());
}

#[test]
fn response_container_error_code() {
    let bytes = vec![
        0x0C, 0x00, 0x00, 0x00, // length = 12
        0x03, 0x00, // type = Response
        0x02, 0x20, // code = GeneralError (0x2002)
        0x03, 0x00, 0x00, 0x00, // transaction_id = 3
    ];
    let resp = ResponseContainer::from_bytes(&bytes).unwrap();
    assert_eq!(resp.code, ResponseCode::GeneralError);
    assert!(!resp.is_ok());
}

#[test]
fn response_container_insufficient_bytes() {
    // Too small for header
    assert!(ResponseContainer::from_bytes(&[0x00; 11]).is_err());

    // Header says more bytes than available
    let bytes = vec![
        0x18, 0x00, 0x00, 0x00, // length = 24 (but we only provide 12)
        0x03, 0x00, // type = Response
        0x01, 0x20, // code
        0x01, 0x00, 0x00, 0x00, // transaction_id
    ];
    assert!(ResponseContainer::from_bytes(&bytes).is_err());
}

#[test]
fn response_container_wrong_type() {
    let bytes = vec![
        0x0C, 0x00, 0x00, 0x00, // length = 12
        0x01, 0x00, // type = Command (wrong!)
        0x01, 0x20, // code
        0x01, 0x00, 0x00, 0x00, // transaction_id
    ];
    assert!(ResponseContainer::from_bytes(&bytes).is_err());
}

#[test]
fn response_container_unaligned_params() {
    // 13 bytes total = 12 header + 1 byte (not aligned to 4)
    let bytes = vec![
        0x0D, 0x00, 0x00, 0x00, // length = 13
        0x03, 0x00, // type = Response
        0x01, 0x20, // code
        0x01, 0x00, 0x00, 0x00, // transaction_id
        0xFF, // 1 extra byte (not aligned)
    ];
    assert!(ResponseContainer::from_bytes(&bytes).is_err());
}

#[test]
fn event_container_object_added() {
    let bytes = vec![
        0x18, 0x00, 0x00, 0x00, // length = 24
        0x04, 0x00, // type = Event
        0x02, 0x40, // code = ObjectAdded (0x4002)
        0x00, 0x00, 0x00, 0x00, // transaction_id
        0x0A, 0x00, 0x00, 0x00, // param1 = 10
        0x00, 0x00, 0x00, 0x00, // param2
        0x00, 0x00, 0x00, 0x00, // param3
    ];
    let event = EventContainer::from_bytes(&bytes).unwrap();
    assert_eq!(event.code, EventCode::ObjectAdded);
    assert_eq!(event.transaction_id, 0);
    assert_eq!(event.params[0], 10);
    assert_eq!(event.params[1], 0);
    assert_eq!(event.params[2], 0);
}

#[test]
fn event_container_store_removed() {
    let bytes = vec![
        0x18, 0x00, 0x00, 0x00, // length = 24
        0x04, 0x00, // type = Event
        0x05, 0x40, // code = StoreRemoved (0x4005)
        0x0A, 0x00, 0x00, 0x00, // transaction_id = 10
        0x01, 0x00, 0x01, 0x00, // param1 = storage id
        0x00, 0x00, 0x00, 0x00, // param2
        0x00, 0x00, 0x00, 0x00, // param3
    ];
    let event = EventContainer::from_bytes(&bytes).unwrap();
    assert_eq!(event.code, EventCode::StoreRemoved);
    assert_eq!(event.transaction_id, 10);
    assert_eq!(event.params[0], 0x00010001);
}

#[test]
fn event_container_insufficient_bytes() {
    // Too small for header
    assert!(EventContainer::from_bytes(&[0x00; 11]).is_err());

    // Header ok but not enough for 3 params
    let bytes = vec![
        0x18, 0x00, 0x00, 0x00, // length = 24
        0x04, 0x00, // type = Event
        0x02, 0x40, // code
        0x00, 0x00, 0x00, 0x00, // transaction_id
              // Missing params
    ];
    assert!(EventContainer::from_bytes(&bytes).is_err());
}

#[test]
fn event_container_wrong_type() {
    let bytes = vec![
        0x18, 0x00, 0x00, 0x00, // length = 24
        0x02, 0x00, // type = Data (wrong!)
        0x02, 0x40, // code
        0x00, 0x00, 0x00, 0x00, // transaction_id
        0x00, 0x00, 0x00, 0x00, // param1
        0x00, 0x00, 0x00, 0x00, // param2
        0x00, 0x00, 0x00, 0x00, // param3
    ];
    assert!(EventContainer::from_bytes(&bytes).is_err());
}

#[test]
fn event_container_zero_params() {
    // Event with 0 parameters (12 bytes total)
    let bytes = vec![
        0x0C, 0x00, 0x00, 0x00, // length = 12
        0x04, 0x00, // type = Event
        0x08, 0x40, // code = DeviceInfoChanged (0x4008)
        0x00, 0x00, 0x00, 0x00, // transaction_id
    ];
    let event = EventContainer::from_bytes(&bytes).unwrap();
    assert_eq!(event.code, EventCode::DeviceInfoChanged);
    assert_eq!(event.params, [0, 0, 0]); // All default to 0
}

#[test]
fn event_container_one_param() {
    // Event with 1 parameter (16 bytes total) - common on Android
    let bytes = vec![
        0x10, 0x00, 0x00, 0x00, // length = 16
        0x04, 0x00, // type = Event
        0x02, 0x40, // code = ObjectAdded (0x4002)
        0x00, 0x00, 0x00, 0x00, // transaction_id
        0x2A, 0x00, 0x00, 0x00, // param1 = 42 (ObjectHandle)
    ];
    let event = EventContainer::from_bytes(&bytes).unwrap();
    assert_eq!(event.code, EventCode::ObjectAdded);
    assert_eq!(event.params[0], 42);
    assert_eq!(event.params[1], 0); // Default
    assert_eq!(event.params[2], 0); // Default
}

#[test]
fn event_container_two_params() {
    // Event with 2 parameters (20 bytes total)
    let bytes = vec![
        0x14, 0x00, 0x00, 0x00, // length = 20
        0x04, 0x00, // type = Event
        0x02, 0x40, // code = ObjectAdded
        0x05, 0x00, 0x00, 0x00, // transaction_id = 5
        0x0A, 0x00, 0x00, 0x00, // param1 = 10
        0x14, 0x00, 0x00, 0x00, // param2 = 20
    ];
    let event = EventContainer::from_bytes(&bytes).unwrap();
    assert_eq!(event.transaction_id, 5);
    assert_eq!(event.params[0], 10);
    assert_eq!(event.params[1], 20);
    assert_eq!(event.params[2], 0); // Default
}

#[test]
fn event_container_length_too_large() {
    // Event with length > 24 (too many params)
    let bytes = vec![
        0x1C, 0x00, 0x00, 0x00, // length = 28 (invalid - max is 24)
        0x04, 0x00, // type = Event
        0x02, 0x40, // code
        0x00, 0x00, 0x00, 0x00, // transaction_id
        0x00, 0x00, 0x00, 0x00, // param1
        0x00, 0x00, 0x00, 0x00, // param2
        0x00, 0x00, 0x00, 0x00, // param3
        0x00, 0x00, 0x00, 0x00, // extra param (not allowed)
    ];
    assert!(EventContainer::from_bytes(&bytes).is_err());
}

#[test]
fn event_container_unaligned_length() {
    // Event with unaligned parameter bytes (14 bytes = 12 header + 2 bytes)
    let bytes = vec![
        0x0E, 0x00, 0x00, 0x00, // length = 14 (not aligned to 4)
        0x04, 0x00, // type = Event
        0x02, 0x40, // code
        0x00, 0x00, 0x00, 0x00, // transaction_id
        0x00, 0x00, // 2 extra bytes (not a full param)
    ];
    assert!(EventContainer::from_bytes(&bytes).is_err());
}

#[test]
fn command_container_get_device_info() {
    // GetDeviceInfo is special: no session needed, transaction_id = 0
    let cmd = CommandContainer {
        code: OperationCode::GetDeviceInfo,
        transaction_id: 0,
        params: vec![],
    };
    let bytes = cmd.to_bytes();
    assert_eq!(&bytes[6..8], &[0x01, 0x10]); // code = GetDeviceInfo (0x1001)
    assert_eq!(&bytes[8..12], &[0x00, 0x00, 0x00, 0x00]); // transaction_id = 0
}

#[test]
fn response_container_device_busy() {
    let bytes = vec![
        0x0C, 0x00, 0x00, 0x00, // length = 12
        0x03, 0x00, // type = Response
        0x19, 0x20, // code = DeviceBusy (0x2019)
        0x05, 0x00, 0x00, 0x00, // transaction_id = 5
    ];
    let resp = ResponseContainer::from_bytes(&bytes).unwrap();
    assert_eq!(resp.code, ResponseCode::DeviceBusy);
    assert!(!resp.is_ok());
}

#[test]
fn data_container_large_payload() {
    let payload: Vec<u8> = (0..1000).map(|i| (i % 256) as u8).collect();
    let data = DataContainer {
        code: OperationCode::GetObject,
        transaction_id: 1,
        payload: payload.clone(),
    };
    let bytes = data.to_bytes();
    assert_eq!(bytes.len(), 12 + 1000);

    let parsed = DataContainer::from_bytes(&bytes).unwrap();
    assert_eq!(parsed.payload, payload);
}

#[test]
fn response_container_five_params() {
    let bytes = vec![
        0x20, 0x00, 0x00, 0x00, // length = 32
        0x03, 0x00, // type = Response
        0x01, 0x20, // code = OK
        0x01, 0x00, 0x00, 0x00, // transaction_id = 1
        0x01, 0x00, 0x00, 0x00, // param1 = 1
        0x02, 0x00, 0x00, 0x00, // param2 = 2
        0x03, 0x00, 0x00, 0x00, // param3 = 3
        0x04, 0x00, 0x00, 0x00, // param4 = 4
        0x05, 0x00, 0x00, 0x00, // param5 = 5
    ];
    let resp = ResponseContainer::from_bytes(&bytes).unwrap();
    assert_eq!(resp.params.len(), 5);
    assert_eq!(resp.params, vec![1, 2, 3, 4, 5]);
}

#[test]
fn container_type_exactly_11_bytes() {
    let buf = [0u8; 11];
    assert!(container_type(&buf).is_err());
}

#[test]
fn container_type_exactly_12_bytes_valid() {
    let mut buf = [0u8; 12];
    buf[4] = 1; // Type = Command
    assert!(container_type(&buf).is_ok());
}

#[test]
fn data_container_exactly_12_bytes_empty_payload() {
    let mut buf = Vec::new();
    buf.extend_from_slice(&12u32.to_le_bytes()); // length = 12
    buf.extend_from_slice(&2u16.to_le_bytes()); // Data type
    buf.extend_from_slice(&0x1001u16.to_le_bytes());
    buf.extend_from_slice(&0u32.to_le_bytes());

    let result = DataContainer::from_bytes(&buf).unwrap();
    assert!(result.payload.is_empty());
}

#[test]
fn response_container_exactly_12_bytes_no_params() {
    let mut buf = Vec::new();
    buf.extend_from_slice(&12u32.to_le_bytes()); // length = 12
    buf.extend_from_slice(&3u16.to_le_bytes()); // Response type
    buf.extend_from_slice(&0x2001u16.to_le_bytes());
    buf.extend_from_slice(&1u32.to_le_bytes());

    let result = ResponseContainer::from_bytes(&buf).unwrap();
    assert!(result.params.is_empty());
}
