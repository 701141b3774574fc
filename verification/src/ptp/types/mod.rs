//! MTP/PTP data structures for device, storage, and object information.
//!
//! - [`DeviceInfo`]: Device capabilities and identification
//! - [`StorageInfo`]: Storage characteristics and capacity
//! - [`ObjectInfo`]: File/folder metadata
//! - [`DevicePropDesc`]: Device property descriptors
//! - [`PropertyValue`]: Property values of various types

pub mod fields;
pub mod object;
pub mod properties;
pub mod storage;

pub use object::ObjectInfo;
pub use properties::{DevicePropDesc, PropertyFormType, PropertyRange, PropertyValue};
pub use storage::{AccessCapability, AssociationType, FilesystemType, ProtectionStatus, StorageType};

use vstd::prelude::*;
use crate::error::{is_invalid_data_with, Error};
use crate::ptp::codes::{
    event_code_from_code, object_format_code_from_code, operation_code_from_code, EventCode,
    ObjectFormatCode, OperationCode,
};
use crate::ptp::pack::{bytes16, bytes32, bytes64, packed_u16_array};
use crate::ptp::strings::{packed_string, utf16_units};
use fields::{
    lemma_concat_assoc, lemma_take_string, lemma_take_u16, lemma_take_u16_array, lemma_take_u32,
    lemma_take_u64, read_string_at, rest_of, read_u16_array_at, read_u16_at, read_u32_at, read_u64_at, string_field_error,
    take_string, take_u16, take_u16_array, take_u32, take_u64, u16_array_field_error,
    u16_field_error, u32_field_error, u64_field_error,
};
use storage::{access_capability_from_code, filesystem_type_from_code, storage_type_from_code};

verus! {

// --- DeviceInfo ---

/// Device information returned by GetDeviceInfo.
///
/// Contains device capabilities, manufacturer info, and supported operations.
#[derive(Debug, Clone, Default)]
pub struct DeviceInfo {
    /// PTP standard version (e.g., 100 = v1.00).
    pub standard_version: u16,
    /// Vendor extension ID (0 = no extension).
    pub vendor_extension_id: u32,
    /// Vendor extension version.
    pub vendor_extension_version: u16,
    /// Vendor extension description.
    pub vendor_extension_desc: String,
    /// Functional mode (0 = standard).
    pub functional_mode: u16,
    /// Operations supported by the device.
    pub operations_supported: Vec<OperationCode>,
    /// Events supported by the device.
    pub events_supported: Vec<EventCode>,
    /// Device properties supported.
    pub device_properties_supported: Vec<u16>,
    /// Object formats the device can capture/create.
    pub capture_formats: Vec<ObjectFormatCode>,
    /// Object formats the device can play/display.
    pub playback_formats: Vec<ObjectFormatCode>,
    /// Manufacturer name.
    pub manufacturer: String,
    /// Device model name.
    pub model: String,
    /// Device version string.
    pub device_version: String,
    /// Device serial number.
    pub serial_number: String,
}

/// What a `DeviceInfo` denotes: its numbers and codes, strings as their
/// characters and lists as sequences.
pub struct DeviceInfoView {
    /// PTP standard version.
    pub standard_version: u16,
    /// Vendor extension ID.
    pub vendor_extension_id: u32,
    /// Vendor extension version.
    pub vendor_extension_version: u16,
    /// Vendor extension description.
    pub vendor_extension_desc: Seq<char>,
    /// Functional mode.
    pub functional_mode: u16,
    /// Operations supported by the device.
    pub operations_supported: Seq<OperationCode>,
    /// Events supported by the device.
    pub events_supported: Seq<EventCode>,
    /// Device properties supported.
    pub device_properties_supported: Seq<u16>,
    /// Object formats the device can capture/create.
    pub capture_formats: Seq<ObjectFormatCode>,
    /// Object formats the device can play/display.
    pub playback_formats: Seq<ObjectFormatCode>,
    /// Manufacturer name.
    pub manufacturer: Seq<char>,
    /// Device model name.
    pub model: Seq<char>,
    /// Device version string.
    pub device_version: Seq<char>,
    /// Device serial number.
    pub serial_number: Seq<char>,
}

impl View for DeviceInfo {
    type V = DeviceInfoView;

    open spec fn view(&self) -> DeviceInfoView {
        DeviceInfoView {
            standard_version: self.standard_version,
            vendor_extension_id: self.vendor_extension_id,
            vendor_extension_version: self.vendor_extension_version,
            vendor_extension_desc: self.vendor_extension_desc@,
            functional_mode: self.functional_mode,
            operations_supported: self.operations_supported@,
            events_supported: self.events_supported@,
            device_properties_supported: self.device_properties_supported@,
            capture_formats: self.capture_formats@,
            playback_formats: self.playback_formats@,
            manufacturer: self.manufacturer@,
            model: self.model@,
            device_version: self.device_version@,
            serial_number: self.serial_number@,
        }
    }
}

/// The device information that a GetDeviceInfo dataset holds, field after
/// field: standard version (u16), vendor extension id (u32) and version
/// (u16), vendor extension description (string), functional mode (u16), the
/// supported operations, events and device properties, the capture and
/// playback formats (u16 arrays), then manufacturer, model, device version and
/// serial number (strings). Bytes after the serial number are ignored.
pub open spec fn parsed_device_info(buf: Seq<u8>) -> Option<DeviceInfoView> {
    match take_u16(buf, 0) {
        None => None,
        Some((standard_version, o1)) => match take_u32(buf, o1) {
            None => None,
            Some((vendor_extension_id, o2)) => match take_u16(buf, o2) {
                None => None,
                Some((vendor_extension_version, o3)) => match take_string(buf, o3) {
                    None => None,
                    Some((vendor_extension_desc, o4)) => match take_u16(buf, o4) {
                        None => None,
                        Some((functional_mode, o5)) => match take_u16_array(buf, o5) {
                            None => None,
                            Some((operations_raw, o6)) => match take_u16_array(buf, o6) {
                                None => None,
                                Some((events_raw, o7)) => match take_u16_array(buf, o7) {
                                    None => None,
                                    Some((device_properties_supported, o8)) => match take_u16_array(buf, o8) {
                                        None => None,
                                        Some((capture_raw, o9)) => match take_u16_array(buf, o9) {
                                            None => None,
                                            Some((playback_raw, o10)) => match take_string(buf, o10) {
                                                None => None,
                                                Some((manufacturer, o11)) => match take_string(buf, o11) {
                                                    None => None,
                                                    Some((model, o12)) => match take_string(buf, o12) {
                                                        None => None,
                                                        Some((device_version, o13)) => match take_string(buf, o13) {
                                                            None => None,
                                                            Some((serial_number, _)) => Some(
                                                                DeviceInfoView {
                                                                    standard_version,
                                                                    vendor_extension_id,
                                                                    vendor_extension_version,
                                                                    vendor_extension_desc,
                                                                    functional_mode,
                                                                    operations_supported: operations_raw.map_values(|c: u16| operation_code_from_code(c)),
                                                                    events_supported: events_raw.map_values(|c: u16| event_code_from_code(c)),
                                                                    device_properties_supported,
                                                                    capture_formats: capture_raw.map_values(|c: u16| object_format_code_from_code(c)),
                                                                    playback_formats: playback_raw.map_values(|c: u16| object_format_code_from_code(c)),
                                                                    manufacturer,
                                                                    model,
                                                                    device_version,
                                                                    serial_number,
                                                                },
                                                            ),
                                                        },
                                                    },
                                                },
                                            },
                                        },
                                    },
                                },
                            },
                        },
                    },
                },
            },
        },
    }
}

/// The message of the error `DeviceInfo::from_bytes` gives: that of the
/// first field, in the order of `parsed_device_info`, that cannot be read.
pub open spec fn device_info_error(buf: Seq<u8>) -> Seq<char> {
    match take_u16(buf, 0) {
        None => u16_field_error(buf, 0),
        Some((_, o1)) => match take_u32(buf, o1) {
            None => u32_field_error(buf, o1),
            Some((_, o2)) => match take_u16(buf, o2) {
                None => u16_field_error(buf, o2),
                Some((_, o3)) => match take_string(buf, o3) {
                    None => string_field_error(buf, o3),
                    Some((_, o4)) => match take_u16(buf, o4) {
                        None => u16_field_error(buf, o4),
                        Some((_, o5)) => match take_u16_array(buf, o5) {
                            None => u16_array_field_error(buf, o5),
                            Some((_, o6)) => match take_u16_array(buf, o6) {
                                None => u16_array_field_error(buf, o6),
                                Some((_, o7)) => match take_u16_array(buf, o7) {
                                    None => u16_array_field_error(buf, o7),
                                    Some((_, o8)) => match take_u16_array(buf, o8) {
                                        None => u16_array_field_error(buf, o8),
                                        Some((_, o9)) => match take_u16_array(buf, o9) {
                                            None => u16_array_field_error(buf, o9),
                                            Some((_, o10)) => match take_string(buf, o10) {
                                                None => string_field_error(buf, o10),
                                                Some((_, o11)) => match take_string(buf, o11) {
                                                    None => string_field_error(buf, o11),
                                                    Some((_, o12)) => match take_string(buf, o12) {
                                                        None => string_field_error(buf, o12),
                                                        Some((_, o13)) => match take_string(buf, o13) {
                                                            None => string_field_error(buf, o13),
                                                            Some(_) => Seq::empty(),
                                                        },
                                                    },
                                                },
                                            },
                                        },
                                    },
                                },
                            },
                        },
                    },
                },
            },
        },
    }
}

/// The operation codes of raw u16 values.
fn operation_codes(raw: &Vec<u16>) -> (r: Vec<OperationCode>)
    ensures
        r@ == raw@.map_values(|c: u16| operation_code_from_code(c)),
{
    let mut out: Vec<OperationCode> = Vec::new();
    let mut i: usize = 0;
    while i < raw.len()
        invariant
            i <= raw@.len(),
            out@ == raw@.subrange(0, i as int).map_values(|c: u16| operation_code_from_code(c)),
        decreases raw@.len() - i,
    {
        out.push(OperationCode::from_code(raw[i]));
        i = i + 1;
        assert(out@ =~= raw@.subrange(0, i as int).map_values(|c: u16| operation_code_from_code(c)));
    }
    assert(raw@.subrange(0, i as int) =~= raw@);
    out
}

/// The event codes of raw u16 values.
fn event_codes(raw: &Vec<u16>) -> (r: Vec<EventCode>)
    ensures
        r@ == raw@.map_values(|c: u16| event_code_from_code(c)),
{
    let mut out: Vec<EventCode> = Vec::new();
    let mut i: usize = 0;
    while i < raw.len()
        invariant
            i <= raw@.len(),
            out@ == raw@.subrange(0, i as int).map_values(|c: u16| event_code_from_code(c)),
        decreases raw@.len() - i,
    {
        out.push(EventCode::from_code(raw[i]));
        i = i + 1;
        assert(out@ =~= raw@.subrange(0, i as int).map_values(|c: u16| event_code_from_code(c)));
    }
    assert(raw@.subrange(0, i as int) =~= raw@);
    out
}

/// The object format codes of raw u16 values.
fn object_format_codes(raw: &Vec<u16>) -> (r: Vec<ObjectFormatCode>)
    ensures
        r@ == raw@.map_values(|c: u16| object_format_code_from_code(c)),
{
    let mut out: Vec<ObjectFormatCode> = Vec::new();
    let mut i: usize = 0;
    while i < raw.len()
        invariant
            i <= raw@.len(),
            out@ == raw@.subrange(0, i as int).map_values(|c: u16| object_format_code_from_code(c)),
        decreases raw@.len() - i,
    {
        out.push(ObjectFormatCode::from_code(raw[i]));
        i = i + 1;
        assert(out@ =~= raw@.subrange(0, i as int).map_values(|c: u16| object_format_code_from_code(c)));
    }
    assert(raw@.subrange(0, i as int) =~= raw@);
    out
}

impl DeviceInfo {
    /// Parse DeviceInfo from a byte buffer.
    ///
    /// The buffer should contain the DeviceInfo dataset as returned by GetDeviceInfo.
    pub fn from_bytes(buf: &[u8]) -> (r: Result<Self, Error>)
        ensures
            r is Ok <==> parsed_device_info(buf@) is Some,
            r matches Ok(info) ==> parsed_device_info(buf@) == Some(info@),
            r matches Err(e) ==> is_invalid_data_with(e, device_info_error(buf@)),
    {
        let (standard_version, o) = read_u16_at(buf, 0)?;
        let (vendor_extension_id, o) = read_u32_at(buf, o)?;
        let (vendor_extension_version, o) = read_u16_at(buf, o)?;
        let (vendor_extension_desc, o) = read_string_at(buf, o)?;
        let (functional_mode, o) = read_u16_at(buf, o)?;
        let (operations_raw, o) = read_u16_array_at(buf, o)?;
        let (events_raw, o) = read_u16_array_at(buf, o)?;
        let (device_properties_supported, o) = read_u16_array_at(buf, o)?;
        let (capture_raw, o) = read_u16_array_at(buf, o)?;
        let (playback_raw, o) = read_u16_array_at(buf, o)?;
        let (manufacturer, o) = read_string_at(buf, o)?;
        let (model, o) = read_string_at(buf, o)?;
        let (device_version, o) = read_string_at(buf, o)?;
        let (serial_number, _o) = read_string_at(buf, o)?;
        Ok(
            DeviceInfo {
                standard_version,
                vendor_extension_id,
                vendor_extension_version,
                vendor_extension_desc,
                functional_mode,
                operations_supported: operation_codes(&operations_raw),
                events_supported: event_codes(&events_raw),
                device_properties_supported,
                capture_formats: object_format_codes(&capture_raw),
                playback_formats: object_format_codes(&playback_raw),
                manufacturer,
                model,
                device_version,
                serial_number,
            },
        )
    }

    /// Check if the device supports a specific operation.
    ///
    /// Returns true if the operation is in the device's supported operations list.
    pub fn supports_operation(&self, operation: OperationCode) -> (r: bool)
        ensures
            r == self.operations_supported@.contains(operation),
    {
        let mut i: usize = 0;
        while i < self.operations_supported.len()
            invariant
                i <= self.operations_supported@.len(),
                forall|j: int| 0 <= j < i ==> self.operations_supported@[j] != operation,
            decreases self.operations_supported@.len() - i,
        {
            if self.operations_supported[i] == operation {
                return true;
            }
            i = i + 1;
        }
        false
    }

    /// Check if the device supports renaming objects.
    ///
    /// This checks for support of the SetObjectPropValue operation (0x9804),
    /// which is required to rename files and folders via the ObjectFileName property.
    pub fn supports_rename(&self) -> (r: bool)
        ensures
            r == self.operations_supported@.contains(OperationCode::SetObjectPropValue),
    {
        self.supports_operation(OperationCode::SetObjectPropValue)
    }
}

// --- StorageInfo ---

/// Storage information returned by GetStorageInfo.
///
/// Contains storage capacity, type, and access information.
#[derive(Debug, Clone, Default)]
pub struct StorageInfo {
    /// Type of storage medium.
    pub storage_type: StorageType,
    /// Type of filesystem.
    pub filesystem_type: FilesystemType,
    /// Access capability.
    pub access_capability: AccessCapability,
    /// Maximum storage capacity in bytes.
    pub max_capacity: u64,
    /// Free space in bytes.
    pub free_space_bytes: u64,
    /// Free space in number of objects (0xFFFFFFFF if unknown).
    pub free_space_objects: u32,
    /// Storage description string.
    pub description: String,
    /// Volume identifier/label.
    pub volume_identifier: String,
}

/// What a `StorageInfo` denotes: its numbers and codes, strings as their
/// characters.
pub struct StorageInfoView {
    /// Type of storage medium.
    pub storage_type: StorageType,
    /// Type of filesystem.
    pub filesystem_type: FilesystemType,
    /// Access capability.
    pub access_capability: AccessCapability,
    /// Maximum storage capacity in bytes.
    pub max_capacity: u64,
    /// Free space in bytes.
    pub free_space_bytes: u64,
    /// Free space in number of objects.
    pub free_space_objects: u32,
    /// Storage description string.
    pub description: Seq<char>,
    /// Volume identifier/label.
    pub volume_identifier: Seq<char>,
}

impl View for StorageInfo {
    type V = StorageInfoView;

    open spec fn view(&self) -> StorageInfoView {
        StorageInfoView {
            storage_type: self.storage_type,
            filesystem_type: self.filesystem_type,
            access_capability: self.access_capability,
            max_capacity: self.max_capacity,
            free_space_bytes: self.free_space_bytes,
            free_space_objects: self.free_space_objects,
            description: self.description@,
            volume_identifier: self.volume_identifier@,
        }
    }
}

/// The storage information that a GetStorageInfo dataset holds, field after
/// field: storage type, filesystem type and access capability (u16 codes),
/// maximum capacity and free space in bytes (u64), free space in objects
/// (u32), then description and volume identifier (strings). Bytes after the
/// volume identifier are ignored.
pub open spec fn parsed_storage_info(buf: Seq<u8>) -> Option<StorageInfoView> {
    match take_u16(buf, 0) {
        None => None,
        Some((storage_type, o1)) => match take_u16(buf, o1) {
            None => None,
            Some((filesystem_type, o2)) => match take_u16(buf, o2) {
                None => None,
                Some((access_capability, o3)) => match take_u64(buf, o3) {
                    None => None,
                    Some((max_capacity, o4)) => match take_u64(buf, o4) {
                        None => None,
                        Some((free_space_bytes, o5)) => match take_u32(buf, o5) {
                            None => None,
                            Some((free_space_objects, o6)) => match take_string(buf, o6) {
                                None => None,
                                Some((description, o7)) => match take_string(buf, o7) {
                                    None => None,
                                    Some((volume_identifier, _)) => Some(
                                        StorageInfoView {
                                            storage_type: storage_type_from_code(storage_type),
                                            filesystem_type: filesystem_type_from_code(filesystem_type),
                                            access_capability: access_capability_from_code(access_capability),
                                            max_capacity,
                                            free_space_bytes,
                                            free_space_objects,
                                            description,
                                            volume_identifier,
                                        },
                                    ),
                                },
                            },
                        },
                    },
                },
            },
        },
    }
}

/// The message of the error `StorageInfo::from_bytes` gives: that of the
/// first field, in the order of `parsed_storage_info`, that cannot be read.
pub open spec fn storage_info_error(buf: Seq<u8>) -> Seq<char> {
    match take_u16(buf, 0) {
        None => u16_field_error(buf, 0),
        Some((_, o1)) => match take_u16(buf, o1) {
            None => u16_field_error(buf, o1),
            Some((_, o2)) => match take_u16(buf, o2) {
                None => u16_field_error(buf, o2),
                Some((_, o3)) => match take_u64(buf, o3) {
                    None => u64_field_error(buf, o3),
                    Some((_, o4)) => match take_u64(buf, o4) {
                        None => u64_field_error(buf, o4),
                        Some((_, o5)) => match take_u32(buf, o5) {
                            None => u32_field_error(buf, o5),
                            Some((_, o6)) => match take_string(buf, o6) {
                                None => string_field_error(buf, o6),
                                Some((_, o7)) => match take_string(buf, o7) {
                                    None => string_field_error(buf, o7),
                                    Some(_) => Seq::empty(),
                                },
                            },
                        },
                    },
                },
            },
        },
    }
}

impl StorageInfo {
    /// Parse StorageInfo from a byte buffer.
    ///
    /// The buffer should contain the StorageInfo dataset as returned by GetStorageInfo.
    pub fn from_bytes(buf: &[u8]) -> (r: Result<Self, Error>)
        ensures
            r is Ok <==> parsed_storage_info(buf@) is Some,
            r matches Ok(info) ==> parsed_storage_info(buf@) == Some(info@),
            r matches Err(e) ==> is_invalid_data_with(e, storage_info_error(buf@)),
    {
        let (storage_type, o) = read_u16_at(buf, 0)?;
        let (filesystem_type, o) = read_u16_at(buf, o)?;
        let (access_capability, o) = read_u16_at(buf, o)?;
        let (max_capacity, o) = read_u64_at(buf, o)?;
        let (free_space_bytes, o) = read_u64_at(buf, o)?;
        let (free_space_objects, o) = read_u32_at(buf, o)?;
        let (description, o) = read_string_at(buf, o)?;
        let (volume_identifier, _o) = read_string_at(buf, o)?;
        Ok(
            StorageInfo {
                storage_type: StorageType::from_code(storage_type),
                filesystem_type: FilesystemType::from_code(filesystem_type),
                access_capability: AccessCapability::from_code(access_capability),
                max_capacity,
                free_space_bytes,
                free_space_objects,
                description,
                volume_identifier,
            },
        )
    }
}

/// The bytes of a GetStorageInfo dataset with these fields, in the order that
/// `parsed_storage_info` reads them.
pub open spec fn storage_info_bytes(
    storage_type: u16,
    filesystem_type: u16,
    access_capability: u16,
    max_capacity: u64,
    free_space_bytes: u64,
    free_space_objects: u32,
    description: Seq<char>,
    volume_identifier: Seq<char>,
) -> Seq<u8> {
    bytes16(storage_type as int) + bytes16(filesystem_type as int) + bytes16(access_capability as int)
        + bytes64(max_capacity as int) + bytes64(free_space_bytes as int) + bytes32(
        free_space_objects as int,
    ) + packed_string(description) + packed_string(volume_identifier)
}

/// Parsing a GetStorageInfo dataset made of packed fields, followed by any
/// further bytes, gives the fields back, the codes read as their variants,
/// when both strings have at most 254 UTF-16 code units.
#[verifier::rlimit(50)]
#[verifier::spinoff_prover]
pub proof fn lemma_storage_info_parse(
    storage_type: u16,
    filesystem_type: u16,
    access_capability: u16,
    max_capacity: u64,
    free_space_bytes: u64,
    free_space_objects: u32,
    description: Seq<char>,
    volume_identifier: Seq<char>,
    rest: Seq<u8>,
)
    requires
        utf16_units(description).len() <= 254,
        utf16_units(volume_identifier).len() <= 254,
    ensures
        parsed_storage_info(
            storage_info_bytes(
                storage_type,
                filesystem_type,
                access_capability,
                max_capacity,
                free_space_bytes,
                free_space_objects,
                description,
                volume_identifier,
            ) + rest,
        ) == Some(
            StorageInfoView {
                storage_type: storage_type_from_code(storage_type),
                filesystem_type: filesystem_type_from_code(filesystem_type),
                access_capability: access_capability_from_code(access_capability),
                max_capacity,
                free_space_bytes,
                free_space_objects,
                description,
                volume_identifier,
            },
        ),
{
    let e1 = bytes16(storage_type as int);
    let e2 = bytes16(filesystem_type as int);
    let e3 = bytes16(access_capability as int);
    let e4 = bytes64(max_capacity as int);
    let e5 = bytes64(free_space_bytes as int);
    let e6 = bytes32(free_space_objects as int);
    let e7 = packed_string(description);
    let e8 = packed_string(volume_identifier);
    let t9 = rest;
    let t8 = e8 + t9;
    let t7 = e7 + t8;
    let t6 = e6 + t7;
    let t5 = e5 + t6;
    let t4 = e4 + t5;
    let t3 = e3 + t4;
    let t2 = e2 + t3;
    let t1 = e1 + t2;
    let l1 = e1;
    let l2 = l1 + e2;
    let l3 = l2 + e3;
    let l4 = l3 + e4;
    let l5 = l4 + e5;
    let l6 = l5 + e6;
    let l7 = l6 + e7;
    lemma_concat_assoc(l7, e8, rest);
    lemma_concat_assoc(l6, e7, t8);
    lemma_concat_assoc(l5, e6, t7);
    lemma_concat_assoc(l4, e5, t6);
    lemma_concat_assoc(l3, e4, t5);
    lemma_concat_assoc(l2, e3, t4);
    lemma_concat_assoc(l1, e2, t3);
    let buf = storage_info_bytes(
        storage_type,
        filesystem_type,
        access_capability,
        max_capacity,
        free_space_bytes,
        free_space_objects,
        description,
        volume_identifier,
    ) + rest;
    assert(buf == t1);
    assert(rest_of(buf, 0) =~= t1);
    lemma_take_u16(buf, 0int, storage_type, t2);
    lemma_take_u16(buf, 2int, filesystem_type, t3);
    lemma_take_u16(buf, 4int, access_capability, t4);
    lemma_take_u64(buf, 6int, max_capacity, t5);
    lemma_take_u64(buf, 14int, free_space_bytes, t6);
    lemma_take_u32(buf, 22int, free_space_objects, t7);
    lemma_take_string(buf, 26int, description, t8);
    lemma_take_string(buf, 26 + e7.len() as int, volume_identifier, t9);
}

/// The bytes of a GetDeviceInfo dataset with these fields, in the order that
/// `parsed_device_info` reads them.
pub open spec fn device_info_bytes(
    standard_version: u16,
    vendor_extension_id: u32,
    vendor_extension_version: u16,
    vendor_extension_desc: Seq<char>,
    functional_mode: u16,
    operations: Seq<u16>,
    events: Seq<u16>,
    device_properties: Seq<u16>,
    capture_formats: Seq<u16>,
    playback_formats: Seq<u16>,
    manufacturer: Seq<char>,
    model: Seq<char>,
    device_version: Seq<char>,
    serial_number: Seq<char>,
) -> Seq<u8> {
    bytes16(standard_version as int)
        + bytes32(vendor_extension_id as int)
        + bytes16(vendor_extension_version as int)
        + packed_string(vendor_extension_desc)
        + bytes16(functional_mode as int)
        + packed_u16_array(operations)
        + packed_u16_array(events)
        + packed_u16_array(device_properties)
        + packed_u16_array(capture_formats)
        + packed_u16_array(playback_formats)
        + packed_string(manufacturer)
        + packed_string(model)
        + packed_string(device_version)
        + packed_string(serial_number)
}

/// Parsing a GetDeviceInfo dataset made of packed fields, followed by any
/// further bytes, gives the fields back, the code lists read as their
/// variants, when every string has at most 254 UTF-16 code units.
#[verifier::rlimit(100)]
#[verifier::spinoff_prover]
pub proof fn lemma_device_info_parse(
    standard_version: u16,
    vendor_extension_id: u32,
    vendor_extension_version: u16,
    vendor_extension_desc: Seq<char>,
    functional_mode: u16,
    operations: Seq<u16>,
    events: Seq<u16>,
    device_properties: Seq<u16>,
    capture_formats: Seq<u16>,
    playback_formats: Seq<u16>,
    manufacturer: Seq<char>,
    model: Seq<char>,
    device_version: Seq<char>,
    serial_number: Seq<char>,
    rest: Seq<u8>,
)
    requires
        utf16_units(vendor_extension_desc).len() <= 254,
        utf16_units(manufacturer).len() <= 254,
        utf16_units(model).len() <= 254,
        utf16_units(device_version).len() <= 254,
        utf16_units(serial_number).len() <= 254,
        operations.len() < 0x1_0000_0000,
        events.len() < 0x1_0000_0000,
        device_properties.len() < 0x1_0000_0000,
        capture_formats.len() < 0x1_0000_0000,
        playback_formats.len() < 0x1_0000_0000,
    ensures
        parsed_device_info(device_info_bytes(standard_version, vendor_extension_id, vendor_extension_version, vendor_extension_desc, functional_mode, operations, events, device_properties, capture_formats, playback_formats, manufacturer, model, device_version, serial_number) + rest) == Some(
            DeviceInfoView {
                standard_version,
                vendor_extension_id,
                vendor_extension_version,
                vendor_extension_desc,
                functional_mode,
                operations_supported: operations.map_values(|c: u16| operation_code_from_code(c)),
                events_supported: events.map_values(|c: u16| event_code_from_code(c)),
                device_properties_supported: device_properties,
                capture_formats: capture_formats.map_values(|c: u16| object_format_code_from_code(c)),
                playback_formats: playback_formats.map_values(|c: u16| object_format_code_from_code(c)),
                manufacturer,
                model,
                device_version,
                serial_number,
            },
        ),
{
    let e1 = bytes16(standard_version as int);
    let e2 = bytes32(vendor_extension_id as int);
    let e3 = bytes16(vendor_extension_version as int);
    let e4 = packed_string(vendor_extension_desc);
    let e5 = bytes16(functional_mode as int);
    let e6 = packed_u16_array(operations);
    let e7 = packed_u16_array(events);
    let e8 = packed_u16_array(device_properties);
    let e9 = packed_u16_array(capture_formats);
    let e10 = packed_u16_array(playback_formats);
    let e11 = packed_string(manufacturer);
    let e12 = packed_string(model);
    let e13 = packed_string(device_version);
    let e14 = packed_string(serial_number);
    let t15 = rest;
    let t14 = e14 + t15;
    let t13 = e13 + t14;
    let t12 = e12 + t13;
    let t11 = e11 + t12;
    let t10 = e10 + t11;
    let t9 = e9 + t10;
    let t8 = e8 + t9;
    let t7 = e7 + t8;
    let t6 = e6 + t7;
    let t5 = e5 + t6;
    let t4 = e4 + t5;
    let t3 = e3 + t4;
    let t2 = e2 + t3;
    let t1 = e1 + t2;
    let l1 = e1;
    let l2 = l1 + e2;
    let l3 = l2 + e3;
    let l4 = l3 + e4;
    let l5 = l4 + e5;
    let l6 = l5 + e6;
    let l7 = l6 + e7;
    let l8 = l7 + e8;
    let l9 = l8 + e9;
    let l10 = l9 + e10;
    let l11 = l10 + e11;
    let l12 = l11 + e12;
    let l13 = l12 + e13;
    lemma_concat_assoc(l13, e14, rest);
    lemma_concat_assoc(l12, e13, t14);
    lemma_concat_assoc(l11, e12, t13);
    lemma_concat_assoc(l10, e11, t12);
    lemma_concat_assoc(l9, e10, t11);
    lemma_concat_assoc(l8, e9, t10);
    lemma_concat_assoc(l7, e8, t9);
    lemma_concat_assoc(l6, e7, t8);
    lemma_concat_assoc(l5, e6, t7);
    lemma_concat_assoc(l4, e5, t6);
    lemma_concat_assoc(l3, e4, t5);
    lemma_concat_assoc(l2, e3, t4);
    lemma_concat_assoc(l1, e2, t3);
    let buf = device_info_bytes(standard_version, vendor_extension_id, vendor_extension_version, vendor_extension_desc, functional_mode, operations, events, device_properties, capture_formats, playback_formats, manufacturer, model, device_version, serial_number) + rest;
    assert(buf == t1);
    assert(rest_of(buf, 0) =~= t1);
    let p1: int = 0;
    lemma_take_u16(buf, p1, standard_version, t2);
    let p2: int = p1 + e1.len();
    lemma_take_u32(buf, p2, vendor_extension_id, t3);
    let p3: int = p2 + e2.len();
    lemma_take_u16(buf, p3, vendor_extension_version, t4);
    let p4: int = p3 + e3.len();
    lemma_take_string(buf, p4, vendor_extension_desc, t5);
    let p5: int = p4 + e4.len();
    lemma_take_u16(buf, p5, functional_mode, t6);
    let p6: int = p5 + e5.len();
    lemma_take_u16_array(buf, p6, operations, t7);
    let p7: int = p6 + e6.len();
    lemma_take_u16_array(buf, p7, events, t8);
    let p8: int = p7 + e7.len();
    lemma_take_u16_array(buf, p8, device_properties, t9);
    let p9: int = p8 + e8.len();
    lemma_take_u16_array(buf, p9, capture_formats, t10);
    let p10: int = p9 + e9.len();
    lemma_take_u16_array(buf, p10, playback_formats, t11);
    let p11: int = p10 + e10.len();
    lemma_take_string(buf, p11, manufacturer, t12);
    let p12: int = p11 + e11.len();
    lemma_take_string(buf, p12, model, t13);
    let p13: int = p12 + e12.len();
    lemma_take_string(buf, p13, device_version, t14);
    let p14: int = p13 + e13.len();
    lemma_take_string(buf, p14, serial_number, t15);
}

} // verus!
