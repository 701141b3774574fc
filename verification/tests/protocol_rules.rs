use mtp_rs::mtp::device::is_android;
use mtp_rs::mtp::listing::{
    accepts, effective_list_parent, filter_listing, listing_filter, native_listing_incomplete,
    recursive_list_parent, use_root_fallback, ListingFilter, ManualTraversal,
};
use mtp_rs::mtp::{DownloadStream, MtpDeviceInfo};
use mtp_rs::ptp::pack::{pack_datetime, pack_string, pack_u16, pack_u32, unpack_datetime, DateTime};
use mtp_rs::ptp::receive::{DataReceiver, ReceiveState, StreamStep};
use mtp_rs::ptp::session::{
    capture_params, check_response, check_transaction, copy_object_result, event_from_interrupt,
    object_handles_from_data, object_handles_params, open_session_step, partial_object_params,
    send_data_header, send_object_info_result, storage_ids_from_data, typed_property_value,
    OpenSessionStep,
};
use mtp_rs::ptp::types::{AssociationType, DevicePropDesc, ObjectInfo, PropertyRange, PropertyValue};
use mtp_rs::ptp::{
    container_type, CommandContainer, ContainerType, DataContainer, EventCode, EventContainer,
    ObjectFormatCode, ObjectHandle, OperationCode, PropertyDataType, ResponseCode,
    ResponseContainer, StorageId,
};
use mtp_rs::transport::{
    align_to_packet_size, device_announces_mtp, find_mtp_endpoints, transfer_failure_error,
    EndpointDesc, EndpointDirection, EndpointKind, InterfaceDesc, TransferFailure,
};
use mtp_rs::Error;

fn response_bytes(code: u16, tx: u32, params: &[u32]) -> Vec<u8> {
    let mut b = Vec::new();
    b.extend_from_slice(&pack_u32(12 + 4 * params.len() as u32));
    b.extend_from_slice(&pack_u16(3));
    b.extend_from_slice(&pack_u16(code));
    b.extend_from_slice(&pack_u32(tx));
    for p in params {
        b.extend_from_slice(&pack_u32(*p));
    }
    b
}

fn response(code: ResponseCode, params: Vec<u32>) -> ResponseContainer {
    ResponseContainer { code, transaction_id: 7, params }
}

#[test]
fn datetime_format_then_parse_gives_it_back() {
    let dt = DateTime { year: 1999, month: 12, day: 31, hour: 23, minute: 59, second: 58 };
    assert_eq!(dt.format(), "19991231T235958");
    assert_eq!(DateTime::parse(&dt.format()), Some(dt));
    let early = DateTime { year: 7, month: 1, day: 2, hour: 3, minute: 4, second: 5 };
    assert_eq!(early.format(), "00070102T030405");
    assert_eq!(DateTime::parse(&early.format()), Some(early));
}

#[test]
fn datetime_wide_year_formats_with_more_digits() {
    let dt = DateTime { year: 10000, month: 1, day: 1, hour: 0, minute: 0, second: 0 };
    assert_eq!(dt.format(), "100000101T000000");
    assert_ne!(DateTime::parse(&dt.format()), Some(dt));
}

#[test]
fn datetime_parse_accepts_plus_sign_fields() {
    assert_eq!(
        DateTime::parse("+024+1+1T+1+1+1"),
        Some(DateTime { year: 24, month: 1, day: 1, hour: 1, minute: 1, second: 1 })
    );
    assert_eq!(DateTime::parse("2024-1-1T010101"), None);
}

#[test]
fn datetime_pack_roundtrip_with_trailing_bytes() {
    let dt = DateTime { year: 2023, month: 2, day: 28, hour: 12, minute: 0, second: 9 };
    let mut bytes = pack_datetime(&dt);
    let n = bytes.len();
    bytes.extend_from_slice(&[1, 2, 3]);
    assert_eq!(unpack_datetime(&bytes).unwrap(), (Some(dt), n));
}

#[test]
fn unpack_datetime_error_names_the_text() {
    let bytes = pack_string("garbage");
    match unpack_datetime(&bytes) {
        Err(Error::InvalidData { message }) => assert!(message.contains("garbage")),
        _ => panic!("expected invalid data"),
    }
}

#[test]
fn data_container_bytes_parse_back_with_trailing_bytes() {
    let c = DataContainer { code: OperationCode::GetThumb, transaction_id: 9, payload: vec![5, 6, 7] };
    let mut bytes = c.to_bytes();
    assert_eq!(container_type(&bytes).unwrap(), ContainerType::Data);
    assert_eq!(&bytes[0..4], &[15, 0, 0, 0]);
    bytes.extend_from_slice(&[0xAA, 0xBB]);
    assert_eq!(DataContainer::from_bytes(&bytes).unwrap(), c);
}

#[test]
fn command_container_is_command_type() {
    let c = CommandContainer { code: OperationCode::DeleteObject, transaction_id: 3, params: vec![9, 0] };
    let bytes = c.to_bytes();
    assert_eq!(bytes.len(), 20);
    assert_eq!(container_type(&bytes).unwrap(), ContainerType::Command);
}

#[test]
fn response_container_short_length_is_refused() {
    let mut bytes = response_bytes(0x2001, 1, &[]);
    bytes[0] = 8;
    assert!(matches!(ResponseContainer::from_bytes(&bytes), Err(Error::InvalidData { .. })));
}

#[test]
fn response_container_params_read_back() {
    let bytes = response_bytes(0x2019, 4, &[1, 0xFFFF_FFFF]);
    let r = ResponseContainer::from_bytes(&bytes).unwrap();
    assert_eq!(r.code, ResponseCode::DeviceBusy);
    assert_eq!(r.params, vec![1, 0xFFFF_FFFF]);
    assert!(!r.is_ok());
}

#[test]
fn event_container_missing_params_are_zero() {
    let mut bytes = Vec::new();
    bytes.extend_from_slice(&pack_u32(16));
    bytes.extend_from_slice(&pack_u16(4));
    bytes.extend_from_slice(&pack_u16(0x4004));
    bytes.extend_from_slice(&pack_u32(0));
    bytes.extend_from_slice(&pack_u32(0x00020001));
    let e = EventContainer::from_bytes(&bytes).unwrap();
    assert_eq!(e.code, EventCode::StoreAdded);
    assert_eq!(e.params, [0x00020001, 0, 0]);
}

#[test]
fn property_value_roundtrip_each_type() {
    let values = vec![
        PropertyValue::Int8(-5),
        PropertyValue::Uint8(200),
        PropertyValue::Int16(-300),
        PropertyValue::Uint16(60000),
        PropertyValue::Int32(-70000),
        PropertyValue::Uint32(4_000_000_000),
        PropertyValue::Int64(-5_000_000_000),
        PropertyValue::Uint64(10_000_000_000),
        PropertyValue::String("ISO 100".to_string()),
    ];
    for v in values {
        let mut bytes = v.to_bytes();
        let n = bytes.len();
        bytes.push(0x7F);
        assert_eq!(PropertyValue::from_bytes(&bytes, v.data_type()).unwrap(), (v.clone(), n));
    }
}

#[test]
fn property_value_unsupported_types_are_refused() {
    for t in [PropertyDataType::Undefined, PropertyDataType::Int128, PropertyDataType::Uint128] {
        assert!(matches!(PropertyValue::from_bytes(&[0; 32], t), Err(Error::InvalidData { .. })));
    }
}

#[test]
fn property_range_roundtrip_signed() {
    let r = PropertyRange {
        min: PropertyValue::Int16(-3000),
        max: PropertyValue::Int16(3000),
        step: PropertyValue::Int16(333),
    };
    let bytes = r.to_bytes();
    assert_eq!(PropertyRange::from_bytes(&bytes, PropertyDataType::Int16).unwrap(), (r, 6));
}

#[test]
fn device_prop_desc_range_form() {
    let mut buf = Vec::new();
    buf.extend_from_slice(&pack_u16(0x5001));
    buf.extend_from_slice(&pack_u16(0x0002));
    buf.push(0x00);
    buf.push(50);
    buf.push(75);
    buf.push(0x01);
    buf.extend_from_slice(&[0, 100, 1]);
    let desc = DevicePropDesc::from_bytes(&buf).unwrap();
    assert!(!desc.writable);
    assert_eq!(desc.current_value, PropertyValue::Uint8(75));
    let range = desc.range.unwrap();
    assert_eq!(range.max, PropertyValue::Uint8(100));
    assert!(desc.enum_values.is_none());
}

#[test]
fn device_prop_desc_missing_form_flag_is_refused() {
    let mut buf = Vec::new();
    buf.extend_from_slice(&pack_u16(0x5001));
    buf.extend_from_slice(&pack_u16(0x0002));
    buf.extend_from_slice(&[0x01, 50, 75]);
    assert!(DevicePropDesc::from_bytes(&buf).is_err());
}

#[test]
fn object_info_roundtrip_clears_handle() {
    let info = ObjectInfo {
        handle: ObjectHandle(99),
        storage_id: StorageId(0x00010001),
        format: ObjectFormatCode::Association,
        association_type: AssociationType::GenericFolder,
        filename: "DCIM".to_string(),
        keywords: "κλειδί".to_string(),
        ..Default::default()
    };
    let mut bytes = info.to_bytes();
    bytes.extend_from_slice(&[9, 9, 9]);
    let parsed = ObjectInfo::from_bytes(&bytes).unwrap();
    assert_eq!(parsed.handle, ObjectHandle(0));
    assert_eq!(parsed.filename, "DCIM");
    assert_eq!(parsed.keywords, "κλειδί");
    assert!(parsed.is_folder());
    assert!(!parsed.is_file());
}

#[test]
fn data_receiver_reassembles_split_container() {
    let payload: Vec<u8> = (0..40u8).collect();
    let bytes = DataContainer { code: OperationCode::GetObject, transaction_id: 5, payload: payload.clone() }.to_bytes();
    let mut rx = DataReceiver::new(5);
    assert!(rx.feed(bytes[0..14].to_vec()).unwrap().is_none());
    assert!(rx.feed(bytes[14..30].to_vec()).unwrap().is_none());
    assert!(rx.feed(bytes[30..].to_vec()).unwrap().is_none());
    let resp = rx.feed(response_bytes(0x2001, 5, &[])).unwrap().unwrap();
    assert_eq!(resp.code, ResponseCode::Success);
    assert_eq!(rx.into_data(), payload);
}

#[test]
fn data_receiver_refuses_other_transaction_and_empty_transfers() {
    let mut rx = DataReceiver::new(5);
    assert!(matches!(rx.feed(response_bytes(0x2001, 6, &[])), Err(Error::InvalidData { .. })));
    let mut rx = DataReceiver::new(5);
    assert!(matches!(rx.feed(Vec::new()), Err(Error::InvalidData { .. })));
    let bytes = DataContainer { code: OperationCode::GetObject, transaction_id: 5, payload: vec![1; 20] }.to_bytes();
    let mut rx = DataReceiver::new(5);
    assert!(rx.feed(bytes[0..12].to_vec()).unwrap().is_none());
    assert!(matches!(rx.feed(Vec::new()), Err(Error::InvalidData { .. })));
    let mut rx = DataReceiver::new(5);
    let event = vec![12, 0, 0, 0, 4, 0, 2, 0x40, 0, 0, 0, 0];
    assert!(rx.feed(event).is_err());
}

#[test]
fn receive_state_streams_payload_and_ends() {
    let payload: Vec<u8> = (0..30u8).collect();
    let bytes = DataContainer { code: OperationCode::GetObject, transaction_id: 8, payload: payload.clone() }.to_bytes();
    let mut st = ReceiveState::new(8, OperationCode::GetObject);
    let mut out = Vec::new();
    for piece in [bytes[0..13].to_vec(), bytes[13..25].to_vec(), bytes[25..].to_vec()] {
        assert!(matches!(st.on_receive(Ok(piece)), StreamStep::Continue));
        if let Some(chunk) = st.take_buffered() {
            out.extend_from_slice(&chunk);
        }
    }
    assert_eq!(out, payload);
    assert!(matches!(st.on_receive(Ok(response_bytes(0x2001, 8, &[]))), StreamStep::End));
    assert!(st.done);
}

#[test]
fn receive_state_reports_refusal_and_failures() {
    let mut st = ReceiveState::new(8, OperationCode::GetObject);
    match st.on_receive(Ok(response_bytes(0x2009, 8, &[]))) {
        StreamStep::Fail(Error::Protocol { code, operation }) => {
            assert_eq!(code, ResponseCode::InvalidObjectHandle);
            assert_eq!(operation, OperationCode::GetObject);
        }
        _ => panic!("expected a protocol error"),
    }
    let mut st = ReceiveState::new(8, OperationCode::GetObject);
    assert!(matches!(st.on_receive(Err(Error::Disconnected)), StreamStep::Fail(Error::Disconnected)));
    assert!(st.done);
    let mut st = ReceiveState::new(8, OperationCode::GetObject);
    assert!(matches!(st.on_receive(Ok(Vec::new())), StreamStep::Fail(Error::InvalidData { .. })));
    assert!(!st.done);
}

#[test]
fn download_stream_chunks_cover_data() {
    let data: Vec<u8> = (0..150_000u32).map(|i| (i % 251) as u8).collect();
    let mut s = DownloadStream::new(data.clone());
    assert_eq!(s.total_size(), 150_000);
    let mut out = Vec::new();
    let mut sizes = Vec::new();
    while let Some((chunk, so_far)) = s.next_chunk() {
        out.extend_from_slice(&chunk);
        sizes.push(chunk.len());
        assert_eq!(so_far as usize, out.len());
    }
    assert_eq!(sizes, vec![65536, 65536, 18928]);
    assert_eq!(out, data);
    assert!(s.next_chunk().is_none());
    assert!(s.into_data().is_empty());
}

#[test]
fn download_stream_empty_yields_nothing() {
    let mut s = DownloadStream::new(Vec::new());
    assert!(s.next_chunk().is_none());
}

#[test]
fn session_response_checks() {
    assert!(check_response(&response(ResponseCode::Success, vec![]), OperationCode::GetObject).is_ok());
    match check_response(&response(ResponseCode::AccessDenied, vec![]), OperationCode::DeleteObject) {
        Err(Error::Protocol { code, operation }) => {
            assert_eq!(code, ResponseCode::AccessDenied);
            assert_eq!(operation, OperationCode::DeleteObject);
        }
        _ => panic!("expected a protocol error"),
    }
    assert!(check_transaction(7, response(ResponseCode::Success, vec![])).is_ok());
    match check_transaction(8, response(ResponseCode::Success, vec![])) {
        Err(Error::InvalidData { message }) => {
            assert_eq!(message, "Transaction ID mismatch: expected 8, got 7")
        }
        _ => panic!("expected invalid data"),
    }
}

#[test]
fn open_session_steps() {
    assert_eq!(open_session_step(ResponseCode::Success, true).unwrap(), OpenSessionStep::Opened);
    assert_eq!(
        open_session_step(ResponseCode::SessionAlreadyOpen, true).unwrap(),
        OpenSessionStep::CloseAndRetry
    );
    assert!(matches!(
        open_session_step(ResponseCode::SessionAlreadyOpen, false),
        Err(Error::Protocol { code: ResponseCode::SessionAlreadyOpen, operation: OperationCode::OpenSession })
    ));
    assert!(open_session_step(ResponseCode::GeneralError, true).is_err());
}

#[test]
fn session_parameters() {
    assert_eq!(object_handles_params(StorageId(1), None, None), vec![1, 0, 0]);
    assert_eq!(
        object_handles_params(StorageId(1), Some(ObjectFormatCode::Jpeg), Some(ObjectHandle::all())),
        vec![1, 0x3801, 0xFFFF_FFFF]
    );
    assert_eq!(capture_params(StorageId(0), ObjectFormatCode::Undefined), vec![0, 0]);
    assert_eq!(capture_params(StorageId(0), ObjectFormatCode::Png), vec![0, 0x380B]);
    assert_eq!(partial_object_params(ObjectHandle(4), 0x1_0000_0010, 512), vec![4, 0x10, 512]);
}

#[test]
fn session_response_params() {
    let r = response(ResponseCode::Success, vec![1, 2, 3]);
    assert_eq!(send_object_info_result(&r).unwrap(), (StorageId(1), ObjectHandle(2), ObjectHandle(3)));
    assert!(send_object_info_result(&response(ResponseCode::Success, vec![1, 2])).is_err());
    assert_eq!(copy_object_result(&r).unwrap(), ObjectHandle(1));
    assert!(copy_object_result(&response(ResponseCode::Success, vec![])).is_err());
}

#[test]
fn session_data_decoding() {
    let data = [2, 0, 0, 0, 1, 0, 1, 0, 2, 0, 1, 0];
    assert_eq!(storage_ids_from_data(&data).unwrap(), vec![StorageId(0x00010001), StorageId(0x00010002)]);
    assert_eq!(object_handles_from_data(&data).unwrap(), vec![ObjectHandle(0x00010001), ObjectHandle(0x00010002)]);
    assert!(storage_ids_from_data(&data[0..8]).is_err());
    assert_eq!(typed_property_value(&[0x34, 0x12, 0xFF], PropertyDataType::Uint16).unwrap(), PropertyValue::Uint16(0x1234));
}

#[test]
fn send_header_caps_length() {
    let h = send_data_header(OperationCode::SendObject, 9, 100);
    assert_eq!(h, vec![112, 0, 0, 0, 2, 0, 0x0D, 0x10, 9, 0, 0, 0]);
    let big = send_data_header(OperationCode::SendObject, 9, 0x1_0000_0000);
    assert_eq!(&big[0..4], &[0xFF, 0xFF, 0xFF, 0xFF]);
}

#[test]
fn interrupt_events() {
    assert!(matches!(event_from_interrupt(Err(Error::Timeout)), Ok(None)));
    assert!(matches!(event_from_interrupt(Err(Error::Disconnected)), Err(Error::Disconnected)));
    let bytes = vec![16, 0, 0, 0, 4, 0, 2, 0x40, 0, 0, 0, 0, 5, 0, 0, 0];
    let e = event_from_interrupt(Ok(bytes)).unwrap().unwrap();
    assert_eq!(e.code, EventCode::ObjectAdded);
    assert_eq!(e.params, [5, 0, 0]);
    assert!(event_from_interrupt(Ok(vec![1, 2, 3])).is_err());
}

#[test]
fn android_detection_ignores_case() {
    assert!(is_android("microsoft.com: 1.0; Android.COM: 1.0;"));
    assert!(is_android("android.com"));
    assert!(!is_android("microsoft.com: 1.0"));
    assert!(!is_android(""));
}

#[test]
fn device_display_formats_hex_and_decimal() {
    let info = MtpDeviceInfo { bus: 255, address: 0, vendor_id: 0xABCD, product_id: 0x0001 };
    assert_eq!(info.display(), "abcd:0001 at 255:0");
}

#[test]
fn listing_rules() {
    assert_eq!(effective_list_parent(None, true), Some(ObjectHandle(0xFFFF_FFFF)));
    assert_eq!(effective_list_parent(None, false), None);
    assert_eq!(effective_list_parent(Some(ObjectHandle(5)), true), Some(ObjectHandle(5)));
    assert_eq!(listing_filter(None, true), ListingFilter::Root);
    assert_eq!(listing_filter(None, false), ListingFilter::Parent(ObjectHandle(0)));
    assert!(accepts(ListingFilter::Root, ObjectHandle(0xFFFF_FFFF)));
    assert!(!accepts(ListingFilter::Parent(ObjectHandle(0)), ObjectHandle(0xFFFF_FFFF)));
    assert_eq!(recursive_list_parent(None), Some(ObjectHandle::all()));
    let refused = Error::Protocol { code: ResponseCode::InvalidObjectHandle, operation: OperationCode::GetObjectHandles };
    assert!(use_root_fallback(None, &refused));
    assert!(!use_root_fallback(Some(ObjectHandle(1)), &refused));
    assert!(!use_root_fallback(None, &Error::Timeout));
}

fn object(handle: u32, parent: u32, folder: bool) -> ObjectInfo {
    ObjectInfo {
        handle: ObjectHandle(handle),
        parent: ObjectHandle(parent),
        format: if folder { ObjectFormatCode::Association } else { ObjectFormatCode::Jpeg },
        ..Default::default()
    }
}

#[test]
fn listing_filter_keeps_order() {
    let objs = vec![object(1, 0, false), object(2, 7, false), object(3, 0, true)];
    let kept = filter_listing(objs, ListingFilter::Parent(ObjectHandle(0)));
    let handles: Vec<u32> = kept.iter().map(|o| o.handle.0).collect();
    assert_eq!(handles, vec![1, 3]);
    assert!(native_listing_incomplete(&vec![object(3, 0, true)]));
    assert!(!native_listing_incomplete(&vec![object(3, 0, true), object(1, 3, false)]));
    assert!(!native_listing_incomplete(&vec![]));
}

#[test]
fn manual_traversal_visits_folders() {
    let mut t = ManualTraversal::new(None);
    assert_eq!(t.next_folder(), Some(None));
    t.add_listing(vec![object(1, 0, true), object(2, 0, false), object(3, 0, true)]);
    assert_eq!(t.next_folder(), Some(Some(ObjectHandle(3))));
    t.add_listing(vec![]);
    assert_eq!(t.next_folder(), Some(Some(ObjectHandle(1))));
    assert_eq!(t.next_folder(), None);
    assert_eq!(t.found.len(), 3);
}

#[test]
fn packet_alignment_and_transfer_errors() {
    assert_eq!(align_to_packet_size(1025, 1024), 2048);
    assert_eq!(align_to_packet_size(7, 1), 7);
    assert!(matches!(transfer_failure_error(TransferFailure::Cancelled), Some(Error::Timeout)));
    assert!(transfer_failure_error(TransferFailure::Cancelled).unwrap().is_retryable());
    assert!(matches!(transfer_failure_error(TransferFailure::Disconnected), Some(Error::Disconnected)));
    assert!(transfer_failure_error(TransferFailure::Stall).is_none());
    assert!(transfer_failure_error(TransferFailure::Unknown(5)).is_none());
}

#[test]
fn mtp_descriptors() {
    assert!(device_announces_mtp(0, 0, 0, &vec![(0x08, 6, 0x50), (0x06, 1, 1)]));
    assert!(!device_announces_mtp(2, 0, 0, &vec![(0x06, 1, 1)]));
    let ep = |address, direction, kind| EndpointDesc { address, direction, kind };
    let ifs = vec![
        InterfaceDesc { number: 0, class: None, endpoints: vec![] },
        InterfaceDesc { number: 1, class: Some((0x08, 6, 0x50)), endpoints: vec![] },
        InterfaceDesc {
            number: 2,
            class: Some((0x06, 1, 1)),
            endpoints: vec![
                ep(0x81, EndpointDirection::In, EndpointKind::Bulk),
                ep(0x02, EndpointDirection::Out, EndpointKind::Bulk),
                ep(0x83, EndpointDirection::In, EndpointKind::Interrupt),
            ],
        },
    ];
    let found = find_mtp_endpoints(&ifs).unwrap();
    assert_eq!((found.interface_number, found.bulk_in, found.bulk_out, found.interrupt_in), (2, 0x81, 0x02, 0x83));
    let no_interrupt = vec![InterfaceDesc {
        number: 0,
        class: Some((0xFF, 1, 1)),
        endpoints: vec![ep(0x81, EndpointDirection::In, EndpointKind::Bulk), ep(0x02, EndpointDirection::Out, EndpointKind::Bulk)],
    }];
    assert!(matches!(find_mtp_endpoints(&no_interrupt), Err(Error::InvalidData { .. })));
    assert!(find_mtp_endpoints(&vec![]).is_err());
}

#[test]
fn invalid_data_keeps_message() {
    match Error::invalid_data("bad header") {
        Error::InvalidData { message } => assert_eq!(message, "bad header"),
        _ => panic!("expected invalid data"),
    }
    assert!(!Error::invalid_data(String::from("x")).is_retryable());
}
