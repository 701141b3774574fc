#![allow(unused_imports)]
use mtp_rs::ptp::types::{
    AccessCapability, AssociationType, DeviceInfo, DevicePropDesc, FilesystemType, ObjectInfo,
    PropertyFormType, PropertyRange, PropertyValue, ProtectionStatus, StorageInfo, StorageType,
};
use mtp_rs::ptp::{ObjectHandle, StorageId};
use mtp_rs::ptp::{
    DevicePropertyCode, EventCode, ObjectFormatCode, ObjectPropertyCode, OperationCode,
    PropertyDataType, ResponseCode,
};
use mtp_rs::ptp::pack::{
    pack_datetime, pack_i16, pack_i32, pack_i64, pack_i8, pack_string, pack_u16, pack_u16_array,
    pack_u32, pack_u32_array, pack_u64, pack_u8, unpack_datetime, unpack_i16, unpack_i32,
    unpack_i64, unpack_i8, unpack_string, unpack_u16, unpack_u16_array, unpack_u32,
    unpack_u32_array, unpack_u64, unpack_u8, DateTime,
};

#[test]
fn properties_property_value_to_bytes_int8() {
    assert_eq!(PropertyValue::Int8(0).to_bytes(), vec![0x00]);
    assert_eq!(PropertyValue::Int8(127).to_bytes(), vec![0x7F]);
    assert_eq!(PropertyValue::Int8(-1).to_bytes(), vec![0xFF]);
    assert_eq!(PropertyValue::Int8(-128).to_bytes(), vec![0x80]);
}

#[test]
fn properties_property_value_to_bytes_uint8() {
    assert_eq!(PropertyValue::Uint8(0).to_bytes(), vec![0x00]);
    assert_eq!(PropertyValue::Uint8(255).to_bytes(), vec![0xFF]);
}

#[test]
fn properties_property_value_to_bytes_int16() {
    assert_eq!(PropertyValue::Int16(0).to_bytes(), vec![0x00, 0x00]);
    assert_eq!(PropertyValue::Int16(-1).to_bytes(), vec![0xFF, 0xFF]);
    assert_eq!(PropertyValue::Int16(0x1234).to_bytes(), vec![0x34, 0x12]);
}

#[test]
fn properties_property_value_to_bytes_uint16() {
    assert_eq!(PropertyValue::Uint16(0).to_bytes(), vec![0x00, 0x00]);
    assert_eq!(PropertyValue::Uint16(0x1234).to_bytes(), vec![0x34, 0x12]);
}

#[test]
fn properties_property_value_to_bytes_int32() {
    assert_eq!(
        PropertyValue::Int32(0x12345678).to_bytes(),
        vec![0x78, 0x56, 0x34, 0x12]
    );
    assert_eq!(
        PropertyValue::Int32(-1).to_bytes(),
        vec![0xFF, 0xFF, 0xFF, 0xFF]
    );
}

#[test]
fn properties_property_value_to_bytes_uint32() {
    assert_eq!(
        PropertyValue::Uint32(0x12345678).to_bytes(),
        vec![0x78, 0x56, 0x34, 0x12]
    );
}

#[test]
fn properties_property_value_to_bytes_string() {
    // Empty string
    assert_eq!(PropertyValue::String("".to_string()).to_bytes(), vec![0x00]);
    // Non-empty string
    let bytes = PropertyValue::String("Hi".to_string()).to_bytes();
    assert_eq!(bytes[0], 3); // length including null
}

#[test]
fn properties_property_value_from_bytes_int8() {
    let (val, consumed) = PropertyValue::from_bytes(&[0x80], PropertyDataType::Int8).unwrap();
    assert_eq!(val, PropertyValue::Int8(-128));
    assert_eq!(consumed, 1);
}

#[test]
fn properties_property_value_from_bytes_uint8() {
    let (val, consumed) = PropertyValue::from_bytes(&[0x64], PropertyDataType::Uint8).unwrap();
    assert_eq!(val, PropertyValue::Uint8(100));
    assert_eq!(consumed, 1);
}

#[test]
fn properties_property_value_from_bytes_int16() {
    let (val, consumed) =
        PropertyValue::from_bytes(&[0xFE, 0xFF], PropertyDataType::Int16).unwrap();
    assert_eq!(val, PropertyValue::Int16(-2));
    assert_eq!(consumed, 2);
}

#[test]
fn properties_property_value_from_bytes_uint16() {
    let (val, consumed) =
        PropertyValue::from_bytes(&[0x90, 0x01], PropertyDataType::Uint16).unwrap();
    assert_eq!(val, PropertyValue::Uint16(400));
    assert_eq!(consumed, 2);
}

#[test]
fn properties_property_value_from_bytes_int32() {
    let (val, consumed) =
        PropertyValue::from_bytes(&[0xFF, 0xFF, 0xFF, 0xFF], PropertyDataType::Int32).unwrap();
    assert_eq!(val, PropertyValue::Int32(-1));
    assert_eq!(consumed, 4);
}

#[test]
fn properties_property_value_from_bytes_uint32() {
    let (val, consumed) =
        PropertyValue::from_bytes(&[0x78, 0x56, 0x34, 0x12], PropertyDataType::Uint32).unwrap();
    assert_eq!(val, PropertyValue::Uint32(0x12345678));
    assert_eq!(consumed, 4);
}

#[test]
fn properties_property_value_from_bytes_int64() {
    let (val, consumed) = PropertyValue::from_bytes(
        &[0xFF, 0xFF, 0xFF, 0xFF, 0xFF, 0xFF, 0xFF, 0xFF],
        PropertyDataType::Int64,
    )
    .unwrap();
    assert_eq!(val, PropertyValue::Int64(-1));
    assert_eq!(consumed, 8);
}

#[test]
fn properties_property_value_from_bytes_uint64() {
    let (val, consumed) = PropertyValue::from_bytes(
        &[0x08, 0x07, 0x06, 0x05, 0x04, 0x03, 0x02, 0x01],
        PropertyDataType::Uint64,
    )
    .unwrap();
    assert_eq!(val, PropertyValue::Uint64(0x0102030405060708));
    assert_eq!(consumed, 8);
}

#[test]
fn properties_property_value_from_bytes_string() {
    let buf = vec![
        0x03, // length = 3
        0x48, 0x00, // 'H'
        0x69, 0x00, // 'i'
        0x00, 0x00, // null
    ];
    let (val, consumed) = PropertyValue::from_bytes(&buf, PropertyDataType::String).unwrap();
    assert_eq!(val, PropertyValue::String("Hi".to_string()));
    assert_eq!(consumed, 7);
}

#[test]
fn properties_property_value_roundtrip() {
    let values = [
        PropertyValue::Int8(-42),
        PropertyValue::Uint8(100),
        PropertyValue::Int16(-1000),
        PropertyValue::Uint16(5000),
        PropertyValue::Int32(-100000),
        PropertyValue::Uint32(100000),
        PropertyValue::Int64(-1_000_000_000),
        PropertyValue::Uint64(1_000_000_000),
        PropertyValue::String("Test".to_string()),
    ];

    for val in &values {
        let bytes = val.to_bytes();
        let (parsed, _) = PropertyValue::from_bytes(&bytes, val.data_type()).unwrap();
        assert_eq!(&parsed, val);
    }
}

#[test]
fn properties_property_value_data_type() {
    assert_eq!(PropertyValue::Int8(0).data_type(), PropertyDataType::Int8);
    assert_eq!(PropertyValue::Uint8(0).data_type(), PropertyDataType::Uint8);
    assert_eq!(PropertyValue::Int16(0).data_type(), PropertyDataType::Int16);
    assert_eq!(
        PropertyValue::Uint16(0).data_type(),
        PropertyDataType::Uint16
    );
    assert_eq!(PropertyValue::Int32(0).data_type(), PropertyDataType::Int32);
    assert_eq!(
        PropertyValue::Uint32(0).data_type(),
        PropertyDataType::Uint32
    );
    assert_eq!(PropertyValue::Int64(0).data_type(), PropertyDataType::Int64);
    assert_eq!(
        PropertyValue::Uint64(0).data_type(),
        PropertyDataType::Uint64
    );
    assert_eq!(
        PropertyValue::String("".to_string()).data_type(),
        PropertyDataType::String
    );
}

#[test]
fn properties_property_value_from_bytes_unsupported_type() {
    assert!(PropertyValue::from_bytes(&[0x00], PropertyDataType::Undefined).is_err());
    assert!(PropertyValue::from_bytes(&[0x00], PropertyDataType::Int128).is_err());
    assert!(PropertyValue::from_bytes(&[0x00], PropertyDataType::Uint128).is_err());
    assert!(PropertyValue::from_bytes(&[0x00], PropertyDataType::Unknown(0x99)).is_err());
}

#[test]
fn properties_property_value_from_bytes_insufficient_bytes() {
    assert!(PropertyValue::from_bytes(&[], PropertyDataType::Int8).is_err());
    assert!(PropertyValue::from_bytes(&[0x00], PropertyDataType::Int16).is_err());
    assert!(PropertyValue::from_bytes(&[0x00, 0x00], PropertyDataType::Int32).is_err());
    assert!(PropertyValue::from_bytes(&[0x00; 7], PropertyDataType::Int64).is_err());
}

#[test]
fn properties_property_form_type_from_code() {
    assert_eq!(PropertyFormType::from_code(0x00), PropertyFormType::NoForm);
    assert_eq!(PropertyFormType::from_code(0x01), PropertyFormType::Range);
    assert_eq!(
        PropertyFormType::from_code(0x02),
        PropertyFormType::Enumeration
    );
    assert_eq!(
        PropertyFormType::from_code(0x99),
        PropertyFormType::Unknown(0x99)
    );
}

#[test]
fn properties_property_form_type_to_code() {
    assert_eq!(PropertyFormType::NoForm.to_code(), 0x00);
    assert_eq!(PropertyFormType::Range.to_code(), 0x01);
    assert_eq!(PropertyFormType::Enumeration.to_code(), 0x02);
    assert_eq!(PropertyFormType::Unknown(0x99).to_code(), 0x99);
}

#[test]
fn properties_property_form_type_roundtrip() {
    let forms = [
        PropertyFormType::NoForm,
        PropertyFormType::Range,
        PropertyFormType::Enumeration,
    ];
    for f in forms {
        assert_eq!(PropertyFormType::from_code(f.to_code()), f);
    }
}

#[test]
fn properties_property_range_from_bytes_uint8() {
    // Range: min=0, max=100, step=1
    let buf = vec![0x00, 0x64, 0x01];
    let (range, consumed) = PropertyRange::from_bytes(&buf, PropertyDataType::Uint8).unwrap();
    assert_eq!(range.min, PropertyValue::Uint8(0));
    assert_eq!(range.max, PropertyValue::Uint8(100));
    assert_eq!(range.step, PropertyValue::Uint8(1));
    assert_eq!(consumed, 3);
}

#[test]
fn properties_property_range_from_bytes_uint16() {
    // Range: min=100 (0x0064), max=6400 (0x1900), step=100 (0x0064)
    let buf = vec![0x64, 0x00, 0x00, 0x19, 0x64, 0x00];
    let (range, consumed) = PropertyRange::from_bytes(&buf, PropertyDataType::Uint16).unwrap();
    assert_eq!(range.min, PropertyValue::Uint16(100));
    assert_eq!(range.max, PropertyValue::Uint16(6400));
    assert_eq!(range.step, PropertyValue::Uint16(100));
    assert_eq!(consumed, 6);
}

#[test]
fn properties_property_range_to_bytes() {
    let range = PropertyRange {
        min: PropertyValue::Uint8(0),
        max: PropertyValue::Uint8(100),
        step: PropertyValue::Uint8(1),
    };
    assert_eq!(range.to_bytes(), vec![0x00, 0x64, 0x01]);
}

#[test]
fn properties_property_range_roundtrip() {
    let range = PropertyRange {
        min: PropertyValue::Uint16(100),
        max: PropertyValue::Uint16(6400),
        step: PropertyValue::Uint16(100),
    };
    let bytes = range.to_bytes();
    let (parsed, _) = PropertyRange::from_bytes(&bytes, PropertyDataType::Uint16).unwrap();
    assert_eq!(parsed.min, range.min);
    assert_eq!(parsed.max, range.max);
    assert_eq!(parsed.step, range.step);
}

fn build_battery_level_prop_desc(current: u8) -> Vec<u8> {
    let mut buf = Vec::new();
    // PropertyCode: 0x5001 (BatteryLevel)
    buf.extend_from_slice(&pack_u16(0x5001));
    // DataType: UINT8 (0x0002)
    buf.extend_from_slice(&pack_u16(0x0002));
    // GetSet: read-only (0x00)
    buf.push(0x00);
    // DefaultValue: 100
    buf.push(100);
    // CurrentValue
    buf.push(current);
    // FormFlag: Range (0x01)
    buf.push(0x01);
    // Range: min=0, max=100, step=1
    buf.push(0); // min
    buf.push(100); // max
    buf.push(1); // step
    buf
}

#[test]
fn properties_device_prop_desc_parse_battery_level() {
    let buf = build_battery_level_prop_desc(75);
    let desc = DevicePropDesc::from_bytes(&buf).unwrap();

    assert_eq!(desc.property_code, DevicePropertyCode::BatteryLevel);
    assert_eq!(desc.data_type, PropertyDataType::Uint8);
    assert!(!desc.writable);
    assert_eq!(desc.default_value, PropertyValue::Uint8(100));
    assert_eq!(desc.current_value, PropertyValue::Uint8(75));
    assert_eq!(desc.form_type, PropertyFormType::Range);
    assert!(desc.enum_values.is_none());
    assert!(desc.range.is_some());

    let range = desc.range.unwrap();
    assert_eq!(range.min, PropertyValue::Uint8(0));
    assert_eq!(range.max, PropertyValue::Uint8(100));
    assert_eq!(range.step, PropertyValue::Uint8(1));
}

fn build_iso_prop_desc() -> Vec<u8> {
    let mut buf = Vec::new();
    // PropertyCode: 0x500F (ExposureIndex/ISO)
    buf.extend_from_slice(&pack_u16(0x500F));
    // DataType: UINT16 (0x0004)
    buf.extend_from_slice(&pack_u16(0x0004));
    // GetSet: read-write (0x01)
    buf.push(0x01);
    // DefaultValue: 400
    buf.extend_from_slice(&pack_u16(400));
    // CurrentValue: 800
    buf.extend_from_slice(&pack_u16(800));
    // FormFlag: Enumeration (0x02)
    buf.push(0x02);
    // NumberOfValues: 4
    buf.extend_from_slice(&pack_u16(4));
    // Values: 100, 200, 400, 800
    buf.extend_from_slice(&pack_u16(100));
    buf.extend_from_slice(&pack_u16(200));
    buf.extend_from_slice(&pack_u16(400));
    buf.extend_from_slice(&pack_u16(800));
    buf
}

#[test]
fn properties_device_prop_desc_parse_iso_enumeration() {
    let buf = build_iso_prop_desc();
    let desc = DevicePropDesc::from_bytes(&buf).unwrap();

    assert_eq!(desc.property_code, DevicePropertyCode::ExposureIndex);
    assert_eq!(desc.data_type, PropertyDataType::Uint16);
    assert!(desc.writable);
    assert_eq!(desc.default_value, PropertyValue::Uint16(400));
    assert_eq!(desc.current_value, PropertyValue::Uint16(800));
    assert_eq!(desc.form_type, PropertyFormType::Enumeration);
    assert!(desc.range.is_none());
    assert!(desc.enum_values.is_some());

    let values = desc.enum_values.unwrap();
    assert_eq!(values.len(), 4);
    assert_eq!(values[0], PropertyValue::Uint16(100));
    assert_eq!(values[1], PropertyValue::Uint16(200));
    assert_eq!(values[2], PropertyValue::Uint16(400));
    assert_eq!(values[3], PropertyValue::Uint16(800));
}

fn build_datetime_prop_desc() -> Vec<u8> {
    let mut buf = Vec::new();
    // PropertyCode: 0x5011 (DateTime)
    buf.extend_from_slice(&pack_u16(0x5011));
    // DataType: String (0xFFFF)
    buf.extend_from_slice(&pack_u16(0xFFFF));
    // GetSet: read-write (0x01)
    buf.push(0x01);
    // DefaultValue: empty string
    buf.push(0x00);
    // CurrentValue: "20240315T120000"
    buf.extend_from_slice(&pack_string("20240315T120000"));
    // FormFlag: None (0x00)
    buf.push(0x00);
    buf
}

#[test]
fn properties_device_prop_desc_parse_datetime_no_form() {
    let buf = build_datetime_prop_desc();
    let desc = DevicePropDesc::from_bytes(&buf).unwrap();

    assert_eq!(desc.property_code, DevicePropertyCode::DateTime);
    assert_eq!(desc.data_type, PropertyDataType::String);
    assert!(desc.writable);
    assert_eq!(desc.default_value, PropertyValue::String("".to_string()));
    assert_eq!(
        desc.current_value,
        PropertyValue::String("20240315T120000".to_string())
    );
    assert_eq!(desc.form_type, PropertyFormType::NoForm);
    assert!(desc.range.is_none());
    assert!(desc.enum_values.is_none());
}

fn build_exposure_bias_prop_desc() -> Vec<u8> {
    let mut buf = Vec::new();
    // PropertyCode: 0x5010 (ExposureBiasCompensation)
    buf.extend_from_slice(&pack_u16(0x5010));
    // DataType: INT16 (0x0003)
    buf.extend_from_slice(&pack_u16(0x0003));
    // GetSet: read-write (0x01)
    buf.push(0x01);
    // DefaultValue: 0
    buf.extend_from_slice(&pack_i16(0));
    // CurrentValue: -1000 (-1 EV)
    buf.extend_from_slice(&pack_i16(-1000));
    // FormFlag: Range (0x01)
    buf.push(0x01);
    // Range: min=-3000, max=3000, step=333
    buf.extend_from_slice(&pack_i16(-3000));
    buf.extend_from_slice(&pack_i16(3000));
    buf.extend_from_slice(&pack_i16(333));
    buf
}

#[test]
fn properties_device_prop_desc_parse_exposure_bias_signed() {
    let buf = build_exposure_bias_prop_desc();
    let desc = DevicePropDesc::from_bytes(&buf).unwrap();

    assert_eq!(
        desc.property_code,
        DevicePropertyCode::ExposureBiasCompensation
    );
    assert_eq!(desc.data_type, PropertyDataType::Int16);
    assert!(desc.writable);
    assert_eq!(desc.default_value, PropertyValue::Int16(0));
    assert_eq!(desc.current_value, PropertyValue::Int16(-1000));
    assert_eq!(desc.form_type, PropertyFormType::Range);

    let range = desc.range.unwrap();
    assert_eq!(range.min, PropertyValue::Int16(-3000));
    assert_eq!(range.max, PropertyValue::Int16(3000));
    assert_eq!(range.step, PropertyValue::Int16(333));
}

#[test]
fn properties_device_prop_desc_parse_insufficient_bytes() {
    // Too short to contain even the property code
    assert!(DevicePropDesc::from_bytes(&[0x01]).is_err());
    // Missing data type
    assert!(DevicePropDesc::from_bytes(&[0x01, 0x50]).is_err());
}

#[test]
fn device_prop_desc_minimum_valid() {
    // DevicePropDesc needs: PropertyCode(2) + DataType(2) + GetSet(1) + Default + Current + FormFlag(1)
    // Minimum with Uint8 values: 2 + 2 + 1 + 1 + 1 + 1 = 8 bytes
    assert!(DevicePropDesc::from_bytes(&[]).is_err());
    assert!(DevicePropDesc::from_bytes(&[0; 4]).is_err());
}

#[test]
fn property_value_int8_boundary() {
    let bytes = [0x80]; // -128 in signed
    let (val, consumed) = PropertyValue::from_bytes(&bytes, PropertyDataType::Int8).unwrap();
    assert!(matches!(val, PropertyValue::Int8(-128)));
    assert_eq!(consumed, 1);

    let bytes = [0x7F]; // 127 in signed
    let (val, _) = PropertyValue::from_bytes(&bytes, PropertyDataType::Int8).unwrap();
    assert!(matches!(val, PropertyValue::Int8(127)));
}

#[test]
fn property_value_int16_boundary() {
    let bytes = [0x00, 0x80]; // -32768 in little-endian
    let (val, consumed) = PropertyValue::from_bytes(&bytes, PropertyDataType::Int16).unwrap();
    assert!(matches!(val, PropertyValue::Int16(-32768)));
    assert_eq!(consumed, 2);
}

#[test]
fn property_value_int32_boundary() {
    let bytes = [0x00, 0x00, 0x00, 0x80]; // i32::MIN in little-endian
    let (val, consumed) = PropertyValue::from_bytes(&bytes, PropertyDataType::Int32).unwrap();
    assert!(matches!(val, PropertyValue::Int32(i32::MIN)));
    assert_eq!(consumed, 4);
}

#[test]
fn property_value_int64_boundary() {
    let bytes = [0x00, 0x00, 0x00, 0x00, 0x00, 0x00, 0x00, 0x80]; // i64::MIN in little-endian
    let (val, consumed) = PropertyValue::from_bytes(&bytes, PropertyDataType::Int64).unwrap();
    assert!(matches!(val, PropertyValue::Int64(i64::MIN)));
    assert_eq!(consumed, 8);
}
