use mtp_rs::ptp::pack::{pack_string, pack_u16, pack_u16_array, pack_u32, pack_u64};
use mtp_rs::ptp::receive::{DataReceiver, ReceiveState, StreamStep};
use mtp_rs::ptp::types::{
    AccessCapability, DeviceInfo, FilesystemType, StorageInfo, StorageType,
};
use mtp_rs::ptp::{EventCode, ObjectFormatCode, OperationCode, ResponseCode};
use mtp_rs::Error;

fn header(length: u32, ty: u16, code: u16, tx: u32) -> Vec<u8> {
    let mut b = Vec::new();
    b.extend_from_slice(&length.to_le_bytes());
    b.extend_from_slice(&ty.to_le_bytes());
    b.extend_from_slice(&code.to_le_bytes());
    b.extend_from_slice(&tx.to_le_bytes());
    b
}

/// Two data containers (the first split over two transfers), as transfers.
fn data_transfers(tx: u32) -> Vec<Vec<u8>> {
    let mut a = header(15, 2, 0x1009, tx);
    a.extend_from_slice(&[1, 2, 3]);
    let mut b = header(14, 2, 0x1009, tx);
    b.extend_from_slice(&[4, 5]);
    vec![a[..13].to_vec(), a[13..].to_vec(), b]
}

#[test]
fn receiver_joins_payloads_of_several_containers() {
    let mut rx = DataReceiver::new(9);
    for t in data_transfers(9) {
        assert!(matches!(rx.feed(t), Ok(None)));
    }
    match rx.feed(header(12, 3, 0x2001, 9)) {
        Ok(Some(resp)) => {
            assert_eq!(resp.code, ResponseCode::Success);
            assert_eq!(resp.transaction_id, 9);
            assert!(resp.params.is_empty());
        }
        _ => panic!("expected the response"),
    }
    assert_eq!(rx.into_data(), vec![1, 2, 3, 4, 5]);
}

#[test]
fn receiver_refuses_response_to_other_transaction_after_data() {
    let mut rx = DataReceiver::new(9);
    for t in data_transfers(9) {
        assert!(matches!(rx.feed(t), Ok(None)));
    }
    match rx.feed(header(12, 3, 0x2001, 8)) {
        Err(Error::InvalidData { message }) => {
            assert_eq!(message, "Transaction ID mismatch: expected 9, got 8")
        }
        _ => panic!("expected invalid data"),
    }
}

/// Runs a streamed receive over the transfers: each taken, then the buffered
/// payload handed out once. Returns the payload and the last step.
fn stream(transfers: Vec<Vec<u8>>) -> (Vec<u8>, StreamStep) {
    let mut st = ReceiveState::new(9, OperationCode::GetObject);
    let mut out = Vec::new();
    let mut last = StreamStep::Continue;
    for t in transfers {
        last = st.on_receive(Ok(t));
        match last {
            StreamStep::Continue => {
                if let Some(chunk) = st.take_buffered() {
                    assert!(!chunk.is_empty());
                    out.extend_from_slice(&chunk);
                }
            }
            _ => break,
        }
    }
    (out, last)
}

#[test]
fn stream_yields_payloads_then_ends() {
    let mut transfers = data_transfers(9);
    transfers.push(header(12, 3, 0x2001, 9));
    let (out, last) = stream(transfers);
    assert_eq!(out, vec![1, 2, 3, 4, 5]);
    assert!(matches!(last, StreamStep::End));
}

#[test]
fn stream_ends_with_refusal_or_mismatch() {
    let mut transfers = data_transfers(9);
    transfers.push(header(12, 3, 0x2019, 9));
    let (out, last) = stream(transfers);
    assert_eq!(out, vec![1, 2, 3, 4, 5]);
    match last {
        StreamStep::Fail(Error::Protocol { code, operation }) => {
            assert_eq!(code, ResponseCode::DeviceBusy);
            assert_eq!(operation, OperationCode::GetObject);
        }
        _ => panic!("expected a protocol error"),
    }
    let mut transfers = data_transfers(9);
    transfers.push(header(12, 3, 0x2001, 8));
    let (_, last) = stream(transfers);
    match last {
        StreamStep::Fail(Error::InvalidData { message }) => {
            assert_eq!(message, "Transaction ID mismatch: expected 9, got 8")
        }
        _ => panic!("expected invalid data"),
    }
}

#[test]
fn storage_info_packed_fields_read_back() {
    let mut buf = Vec::new();
    buf.extend_from_slice(&pack_u16(3));
    buf.extend_from_slice(&pack_u16(2));
    buf.extend_from_slice(&pack_u16(0));
    buf.extend_from_slice(&pack_u64(64_000_000_000));
    buf.extend_from_slice(&pack_u64(1_000));
    buf.extend_from_slice(&pack_u32(0xFFFF_FFFF));
    buf.extend_from_slice(&pack_string("Internal"));
    buf.extend_from_slice(&pack_string("vol1"));
    buf.extend_from_slice(&[9, 9]);
    let info = StorageInfo::from_bytes(&buf).unwrap();
    assert_eq!(info.storage_type, StorageType::from_code(3));
    assert_eq!(info.filesystem_type, FilesystemType::from_code(2));
    assert_eq!(info.access_capability, AccessCapability::from_code(0));
    assert_eq!(info.max_capacity, 64_000_000_000);
    assert_eq!(info.free_space_bytes, 1_000);
    assert_eq!(info.free_space_objects, 0xFFFF_FFFF);
    assert_eq!(info.description, "Internal");
    assert_eq!(info.volume_identifier, "vol1");
}

#[test]
fn device_info_packed_fields_read_back() {
    let mut buf = Vec::new();
    buf.extend_from_slice(&pack_u16(100));
    buf.extend_from_slice(&pack_u32(6));
    buf.extend_from_slice(&pack_u16(100));
    buf.extend_from_slice(&pack_string("microsoft.com: 1.0; android.com: 1.0;"));
    buf.extend_from_slice(&pack_u16(0));
    buf.extend_from_slice(&pack_u16_array(&[0x1001, 0x1002]));
    buf.extend_from_slice(&pack_u16_array(&[0x4002]));
    buf.extend_from_slice(&pack_u16_array(&[]));
    buf.extend_from_slice(&pack_u16_array(&[]));
    buf.extend_from_slice(&pack_u16_array(&[0x3801]));
    buf.extend_from_slice(&pack_string("Google"));
    buf.extend_from_slice(&pack_string("Pixel"));
    buf.extend_from_slice(&pack_string("1.0"));
    buf.extend_from_slice(&pack_string("ABC123"));
    buf.extend_from_slice(&[0xEE]);
    let info = DeviceInfo::from_bytes(&buf).unwrap();
    assert_eq!(info.standard_version, 100);
    assert_eq!(info.vendor_extension_id, 6);
    assert_eq!(info.vendor_extension_version, 100);
    assert_eq!(info.vendor_extension_desc, "microsoft.com: 1.0; android.com: 1.0;");
    assert_eq!(info.functional_mode, 0);
    assert_eq!(
        info.operations_supported,
        vec![OperationCode::from_code(0x1001), OperationCode::from_code(0x1002)]
    );
    assert_eq!(info.events_supported, vec![EventCode::from_code(0x4002)]);
    assert!(info.device_properties_supported.is_empty());
    assert!(info.capture_formats.is_empty());
    assert_eq!(info.playback_formats, vec![ObjectFormatCode::from_code(0x3801)]);
    assert_eq!(info.manufacturer, "Google");
    assert_eq!(info.model, "Pixel");
    assert_eq!(info.device_version, "1.0");
    assert_eq!(info.serial_number, "ABC123");
}
