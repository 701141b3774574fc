//! Object information (file/folder metadata).

use vstd::prelude::*;
use crate::error::{is_invalid_data_with, Error};
use crate::ptp::codes::{
    lemma_object_format_code_value_roundtrip, object_format_code_from_code,
    object_format_code_to_code, ObjectFormatCode,
};
use crate::ptp::datetime::{
    datetime_in_range, formatted_datetime, lemma_datetime_pack_roundtrip, pack_datetime,
    DateTime,
};
use crate::ptp::pack::{
    bytes16, bytes32, bytes_vec, pack_u16, pack_u32, push_bytes,
};
use crate::ptp::strings::{pack_string, packed_string, unpacked_string, utf16_units};
use crate::ptp::{ObjectHandle, StorageId};
use super::fields::{
    datetime_field_error, lemma_concat_assoc, lemma_rest_after, lemma_take_string, lemma_take_u16,
    lemma_take_u32, read_datetime_at, read_string_at, read_u16_at, read_u32_at, rest_of,
    string_field_error, take_datetime, take_string, take_u16, take_u32, u16_field_error,
    u32_field_error,
};
use super::storage::{
    association_type_from_code, association_type_to_code, lemma_association_type_value_roundtrip,
    lemma_protection_status_value_roundtrip, protection_status_from_code,
    protection_status_to_code, AssociationType, ProtectionStatus,
};

verus! {

/// Object information returned by GetObjectInfo.
///
/// Contains file/folder metadata including name, size, timestamps, and hierarchy info.
#[derive(Debug, Clone, Default)]
pub struct ObjectInfo {
    /// Object handle (set after parsing, not part of protocol data).
    pub handle: ObjectHandle,
    /// Storage containing this object.
    pub storage_id: StorageId,
    /// Object format code.
    pub format: ObjectFormatCode,
    /// Protection status.
    pub protection_status: ProtectionStatus,
    /// Object size in bytes.
    ///
    /// Note: Protocol uses u32, but we store as u64. Values of 0xFFFFFFFF indicate
    /// the object is larger than 4GB (use GetObjectPropValue for actual size).
    pub size: u64,
    /// Thumbnail format.
    pub thumb_format: ObjectFormatCode,
    /// Thumbnail size in bytes.
    pub thumb_size: u32,
    /// Thumbnail width in pixels.
    pub thumb_width: u32,
    /// Thumbnail height in pixels.
    pub thumb_height: u32,
    /// Image width in pixels.
    pub image_width: u32,
    /// Image height in pixels.
    pub image_height: u32,
    /// Image bit depth.
    pub image_bit_depth: u32,
    /// Parent object handle (ROOT for root-level objects).
    pub parent: ObjectHandle,
    /// Association type (folder type).
    pub association_type: AssociationType,
    /// Association description.
    pub association_desc: u32,
    /// Sequence number.
    pub sequence_number: u32,
    /// Filename.
    pub filename: String,
    /// Creation timestamp.
    pub created: Option<DateTime>,
    /// Modification timestamp.
    pub modified: Option<DateTime>,
    /// Keywords string.
    pub keywords: String,
}

/// What an `ObjectInfo` denotes: its numbers, codes and dates, strings as
/// their characters.
pub struct ObjectInfoView {
    /// Object handle.
    pub handle: ObjectHandle,
    /// Storage containing this object.
    pub storage_id: StorageId,
    /// Object format code.
    pub format: ObjectFormatCode,
    /// Protection status.
    pub protection_status: ProtectionStatus,
    /// Object size in bytes.
    pub size: u64,
    /// Thumbnail format.
    pub thumb_format: ObjectFormatCode,
    /// Thumbnail size in bytes.
    pub thumb_size: u32,
    /// Thumbnail width in pixels.
    pub thumb_width: u32,
    /// Thumbnail height in pixels.
    pub thumb_height: u32,
    /// Image width in pixels.
    pub image_width: u32,
    /// Image height in pixels.
    pub image_height: u32,
    /// Image bit depth.
    pub image_bit_depth: u32,
    /// Parent object handle.
    pub parent: ObjectHandle,
    /// Association type.
    pub association_type: AssociationType,
    /// Association description.
    pub association_desc: u32,
    /// Sequence number.
    pub sequence_number: u32,
    /// Filename.
    pub filename: Seq<char>,
    /// Creation timestamp.
    pub created: Option<DateTime>,
    /// Modification timestamp.
    pub modified: Option<DateTime>,
    /// Keywords string.
    pub keywords: Seq<char>,
}

impl View for ObjectInfo {
    type V = ObjectInfoView;

    open spec fn view(&self) -> ObjectInfoView {
        ObjectInfoView {
            handle: self.handle,
            storage_id: self.storage_id,
            format: self.format,
            protection_status: self.protection_status,
            size: self.size,
            thumb_format: self.thumb_format,
            thumb_size: self.thumb_size,
            thumb_width: self.thumb_width,
            thumb_height: self.thumb_height,
            image_width: self.image_width,
            image_height: self.image_height,
            image_bit_depth: self.image_bit_depth,
            parent: self.parent,
            association_type: self.association_type,
            association_desc: self.association_desc,
            sequence_number: self.sequence_number,
            filename: self.filename@,
            created: self.created,
            modified: self.modified,
            keywords: self.keywords@,
        }
    }
}

/// The object information that a GetObjectInfo dataset holds, field after
/// field: storage id (u32), format and protection status (u16 codes),
/// compressed size (u32), thumbnail format (u16), thumbnail size, width and
/// height, image width, height and bit depth, parent handle (u32 each),
/// association type (u16), association description and sequence number
/// (u32), filename (string), creation and modification dates (datetime
/// strings, empty for none) and keywords (string). The handle is 0; bytes
/// after the keywords are ignored.
pub open spec fn parsed_object_info(buf: Seq<u8>) -> Option<ObjectInfoView> {
    match take_u32(buf, 0) {
        None => None,
        Some((storage_id, o1)) => match take_u16(buf, o1) {
            None => None,
            Some((format, o2)) => match take_u16(buf, o2) {
                None => None,
                Some((protection_status, o3)) => match take_u32(buf, o3) {
                    None => None,
                    Some((size, o4)) => match take_u16(buf, o4) {
                        None => None,
                        Some((thumb_format, o5)) => match take_u32(buf, o5) {
                            None => None,
                            Some((thumb_size, o6)) => match take_u32(buf, o6) {
                                None => None,
                                Some((thumb_width, o7)) => match take_u32(buf, o7) {
                                    None => None,
                                    Some((thumb_height, o8)) => match take_u32(buf, o8) {
                                        None => None,
                                        Some((image_width, o9)) => match take_u32(buf, o9) {
                                            None => None,
                                            Some((image_height, o10)) => match take_u32(buf, o10) {
                                                None => None,
                                                Some((image_bit_depth, o11)) => match take_u32(buf, o11) {
                                                    None => None,
                                                    Some((parent, o12)) => match take_u16(buf, o12) {
                                                        None => None,
                                                        Some((association_type, o13)) => match take_u32(buf, o13) {
                                                            None => None,
                                                            Some((association_desc, o14)) => match take_u32(buf, o14) {
                                                                None => None,
                                                                Some((sequence_number, o15)) => match take_string(buf, o15) {
                                                                    None => None,
                                                                    Some((filename, o16)) => match take_datetime(buf, o16) {
                                                                        None => None,
                                                                        Some((created, o17)) => match take_datetime(buf, o17) {
                                                                            None => None,
                                                                            Some((modified, o18)) => match take_string(buf, o18) {
                                                                                None => None,
                                                                                Some((keywords, _)) => Some(
                                                                                    ObjectInfoView {
                                                                                        handle: ObjectHandle(0),
                                                                                        storage_id: StorageId(storage_id),
                                                                                        format: object_format_code_from_code(format),
                                                                                        protection_status: protection_status_from_code(protection_status),
                                                                                        size: size as u64,
                                                                                        thumb_format: object_format_code_from_code(thumb_format),
                                                                                        thumb_size,
                                                                                        thumb_width,
                                                                                        thumb_height,
                                                                                        image_width,
                                                                                        image_height,
                                                                                        image_bit_depth,
                                                                                        parent: ObjectHandle(parent),
                                                                                        association_type: association_type_from_code(association_type),
                                                                                        association_desc,
                                                                                        sequence_number,
                                                                                        filename,
                                                                                        created,
                                                                                        modified,
                                                                                        keywords,
                                                                                    },
                                                                                ),
                                                                            },
                                                                        },
                                                                    },
                                                                },
                                                            },
                                                        },
                                                    },
                                                },
                                            },
                                        },
                                    },
                                },
                            },
                        },
                    },
                },
            },
        },
    }
}

/// The message of the error `ObjectInfo::from_bytes` gives: that of the
/// first field, in the order of `parsed_object_info`, that cannot be read.
pub open spec fn object_info_error(buf: Seq<u8>) -> Seq<char> {
    match take_u32(buf, 0) {
        None => u32_field_error(buf, 0),
        Some((_, o1)) => match take_u16(buf, o1) {
            None => u16_field_error(buf, o1),
            Some((_, o2)) => match take_u16(buf, o2) {
                None => u16_field_error(buf, o2),
                Some((_, o3)) => match take_u32(buf, o3) {
                    None => u32_field_error(buf, o3),
                    Some((_, o4)) => match take_u16(buf, o4) {
                        None => u16_field_error(buf, o4),
                        Some((_, o5)) => match take_u32(buf, o5) {
                            None => u32_field_error(buf, o5),
                            Some((_, o6)) => match take_u32(buf, o6) {
                                None => u32_field_error(buf, o6),
                                Some((_, o7)) => match take_u32(buf, o7) {
                                    None => u32_field_error(buf, o7),
                                    Some((_, o8)) => match take_u32(buf, o8) {
                                        None => u32_field_error(buf, o8),
                                        Some((_, o9)) => match take_u32(buf, o9) {
                                            None => u32_field_error(buf, o9),
                                            Some((_, o10)) => match take_u32(buf, o10) {
                                                None => u32_field_error(buf, o10),
                                                Some((_, o11)) => match take_u32(buf, o11) {
                                                    None => u32_field_error(buf, o11),
                                                    Some((_, o12)) => match take_u16(buf, o12) {
                                                        None => u16_field_error(buf, o12),
                                                        Some((_, o13)) => match take_u32(buf, o13) {
                                                            None => u32_field_error(buf, o13),
                                                            Some((_, o14)) => match take_u32(buf, o14) {
                                                                None => u32_field_error(buf, o14),
                                                                Some((_, o15)) => match take_string(buf, o15) {
                                                                    None => string_field_error(buf, o15),
                                                                    Some((_, o16)) => match take_datetime(buf, o16) {
                                                                        None => datetime_field_error(buf, o16),
                                                                        Some((_, o17)) => match take_datetime(buf, o17) {
                                                                            None => datetime_field_error(buf, o17),
                                                                            Some((_, o18)) => match take_string(buf, o18) {
                                                                                None => string_field_error(buf, o18),
                                                                                Some(_) => Seq::empty(),
                                                                            },
                                                                        },
                                                                    },
                                                                },
                                                            },
                                                        },
                                                    },
                                                },
                                            },
                                        },
                                    },
                                },
                            },
                        },
                    },
                },
            },
        },
    }
}

/// The size sent on the wire: the protocol field is a u32, so sizes above
/// u32::MAX are sent as u32::MAX.
pub open spec fn capped_size(size: u64) -> u32 {
    if size > 0xFFFF_FFFF {
        0xFFFF_FFFF
    } else {
        size as u32
    }
}

/// The bytes of an optional date: the datetime string, or the empty string.
pub open spec fn datetime_field_bytes(d: Option<DateTime>) -> Seq<u8> {
    match d {
        Some(dt) => packed_string(formatted_datetime(dt)),
        None => seq![0u8],
    }
}

/// The SendObjectInfo dataset of an object, in the field order that
/// `parsed_object_info` reads.
pub open spec fn object_info_bytes(v: ObjectInfoView) -> Seq<u8> {
    bytes32(v.storage_id.0 as int)
        + bytes16(object_format_code_to_code(v.format) as int)
        + bytes16(protection_status_to_code(v.protection_status) as int)
        + bytes32(capped_size(v.size) as int)
        + bytes16(object_format_code_to_code(v.thumb_format) as int)
        + bytes32(v.thumb_size as int)
        + bytes32(v.thumb_width as int)
        + bytes32(v.thumb_height as int)
        + bytes32(v.image_width as int)
        + bytes32(v.image_height as int)
        + bytes32(v.image_bit_depth as int)
        + bytes32(v.parent.0 as int)
        + bytes16(association_type_to_code(v.association_type) as int)
        + bytes32(v.association_desc as int)
        + bytes32(v.sequence_number as int)
        + packed_string(v.filename)
        + datetime_field_bytes(v.created)
        + datetime_field_bytes(v.modified)
        + packed_string(v.keywords)
}

/// The bytes of an optional date.
fn datetime_field(d: &Option<DateTime>) -> (r: Vec<u8>)
    ensures
        r@ == datetime_field_bytes(*d),
{
    match d {
        Some(dt) => pack_datetime(dt),
        None => {
            let mut v: Vec<u8> = Vec::new();
            v.push(0x00);
            assert(v@ =~= seq![0u8]);
            v
        },
    }
}

impl ObjectInfo {
    /// Parse ObjectInfo from a byte buffer.
    ///
    /// The buffer should contain the ObjectInfo dataset as returned by GetObjectInfo.
    pub fn from_bytes(buf: &[u8]) -> (r: Result<Self, Error>)
        ensures
            r is Ok <==> parsed_object_info(buf@) is Some,
            r matches Ok(info) ==> parsed_object_info(buf@) == Some(info@),
            r matches Err(e) ==> is_invalid_data_with(e, object_info_error(buf@)),
    {
        let (storage_id, o) = read_u32_at(buf, 0)?;
        let (format, o) = read_u16_at(buf, o)?;
        let (protection_status, o) = read_u16_at(buf, o)?;
        let (size, o) = read_u32_at(buf, o)?;
        let (thumb_format, o) = read_u16_at(buf, o)?;
        let (thumb_size, o) = read_u32_at(buf, o)?;
        let (thumb_width, o) = read_u32_at(buf, o)?;
        let (thumb_height, o) = read_u32_at(buf, o)?;
        let (image_width, o) = read_u32_at(buf, o)?;
        let (image_height, o) = read_u32_at(buf, o)?;
        let (image_bit_depth, o) = read_u32_at(buf, o)?;
        let (parent, o) = read_u32_at(buf, o)?;
        let (association_type, o) = read_u16_at(buf, o)?;
        let (association_desc, o) = read_u32_at(buf, o)?;
        let (sequence_number, o) = read_u32_at(buf, o)?;
        let (filename, o) = read_string_at(buf, o)?;
        let (created, o) = read_datetime_at(buf, o)?;
        let (modified, o) = read_datetime_at(buf, o)?;
        let (keywords, _o) = read_string_at(buf, o)?;
        Ok(
            ObjectInfo {
                handle: ObjectHandle(0),
                storage_id: StorageId(storage_id),
                format: ObjectFormatCode::from_code(format),
                protection_status: ProtectionStatus::from_code(protection_status),
                size: size as u64,
                thumb_format: ObjectFormatCode::from_code(thumb_format),
                thumb_size,
                thumb_width,
                thumb_height,
                image_width,
                image_height,
                image_bit_depth,
                parent: ObjectHandle(parent),
                association_type: AssociationType::from_code(association_type),
                association_desc,
                sequence_number,
                filename,
                created,
                modified,
                keywords,
            },
        )
    }

    /// Serialize ObjectInfo to a byte buffer.
    ///
    /// Used for SendObjectInfo operation. Sizes above u32::MAX are sent as
    /// u32::MAX.
    pub fn to_bytes(&self) -> (r: Vec<u8>)
        ensures
            r@ == object_info_bytes(self@),
    {
        let size_u32: u32 = if self.size > 0xFFFF_FFFF {
            0xFFFF_FFFF
        } else {
            self.size as u32
        };
        let mut buf = bytes_vec(&pack_u32(self.storage_id.0));
        push_bytes(&mut buf, &pack_u16(self.format.to_code()));
        push_bytes(&mut buf, &pack_u16(self.protection_status.to_code()));
        push_bytes(&mut buf, &pack_u32(size_u32));
        push_bytes(&mut buf, &pack_u16(self.thumb_format.to_code()));
        push_bytes(&mut buf, &pack_u32(self.thumb_size));
        push_bytes(&mut buf, &pack_u32(self.thumb_width));
        push_bytes(&mut buf, &pack_u32(self.thumb_height));
        push_bytes(&mut buf, &pack_u32(self.image_width));
        push_bytes(&mut buf, &pack_u32(self.image_height));
        push_bytes(&mut buf, &pack_u32(self.image_bit_depth));
        push_bytes(&mut buf, &pack_u32(self.parent.0));
        push_bytes(&mut buf, &pack_u16(self.association_type.to_code()));
        push_bytes(&mut buf, &pack_u32(self.association_desc));
        push_bytes(&mut buf, &pack_u32(self.sequence_number));
        let name = pack_string(self.filename.as_str());
        push_bytes(&mut buf, name.as_slice());
        let created = datetime_field(&self.created);
        push_bytes(&mut buf, created.as_slice());
        let modified = datetime_field(&self.modified);
        push_bytes(&mut buf, modified.as_slice());
        let keywords = pack_string(self.keywords.as_str());
        push_bytes(&mut buf, keywords.as_slice());
        buf
    }

    /// Check if this object is a folder.
    ///
    /// Returns true if the format is Association or the association type is GenericFolder.
    pub fn is_folder(&self) -> (r: bool)
        ensures
            r == (self.format == ObjectFormatCode::Association || self.association_type
                == AssociationType::GenericFolder),
    {
        self.format == ObjectFormatCode::Association || self.association_type
            == AssociationType::GenericFolder
    }

    /// Check if this object is a file.
    ///
    /// Returns true if this is not a folder.
    pub fn is_file(&self) -> (r: bool)
        ensures
            r == !(self.format == ObjectFormatCode::Association || self.association_type
                == AssociationType::GenericFolder),
    {
        !self.is_folder()
    }
}

// --- Laws of the ObjectInfo dataset ---

/// An optional date that the text form can carry: none, or a datetime
/// whose fields are within range and whose year has at most four digits.
pub open spec fn datetime_field_ok(d: Option<DateTime>) -> bool {
    match d {
        Some(dt) => dt.year <= 9999 && datetime_in_range(
            dt.month as int,
            dt.day as int,
            dt.hour as int,
            dt.minute as int,
            dt.second as int,
        ),
        None => true,
    }
}

/// An optional date written at `off` reads back.
proof fn lemma_take_datetime(buf: Seq<u8>, off: int, d: Option<DateTime>, tail: Seq<u8>)
    requires
        0 <= off <= buf.len(),
        rest_of(buf, off) == datetime_field_bytes(d) + tail,
        datetime_field_ok(d),
    ensures
        take_datetime(buf, off) == Some((d, off + datetime_field_bytes(d).len())),
        rest_of(buf, off + datetime_field_bytes(d).len()) == tail,
{
    reveal(take_datetime);
    match d {
        Some(dt) => {
            lemma_datetime_pack_roundtrip(dt, tail);
        },
        None => {
            assert(unpacked_string(seq![0u8] + tail) == Some((Seq::<char>::empty(), 1int)));
        },
    }
    lemma_rest_after(buf, off, datetime_field_bytes(d), tail);
}

/// Whether the wire form can carry an object's information unchanged but
/// for the handle and the size: codes given as `Unknown` are ones outside the
/// tables, the filename and keywords have at most 254 UTF-16 code units, and
/// the dates are ones the text form carries.
pub open spec fn object_info_encodable(v: ObjectInfoView) -> bool {
    &&& v.format matches ObjectFormatCode::Unknown(c) ==> object_format_code_from_code(c) is Unknown
    &&& v.thumb_format matches ObjectFormatCode::Unknown(c) ==> object_format_code_from_code(c) is Unknown
    &&& v.protection_status matches ProtectionStatus::Unknown(c) ==> protection_status_from_code(c) is Unknown
    &&& v.association_type matches AssociationType::Unknown(c) ==> association_type_from_code(c) is Unknown
    &&& utf16_units(v.filename).len() <= 254
    &&& utf16_units(v.keywords).len() <= 254
    &&& datetime_field_ok(v.created)
    &&& datetime_field_ok(v.modified)
}

/// Whether the strings and dates of an object's information survive the wire
/// form: the filename and keywords have at most 254 UTF-16 code units, and
/// the dates are ones the text form carries.
pub open spec fn object_info_text_ok(v: ObjectInfoView) -> bool {
    &&& utf16_units(v.filename).len() <= 254
    &&& utf16_units(v.keywords).len() <= 254
    &&& datetime_field_ok(v.created)
    &&& datetime_field_ok(v.modified)
}

/// The bytes of an object's SendObjectInfo dataset begin with its storage id,
/// and bytes 8 to 12 hold its size capped at u32::MAX.
#[verifier::rlimit(100)]
#[verifier::spinoff_prover]
pub proof fn lemma_object_info_layout(v: ObjectInfoView)
    ensures
        object_info_bytes(v).subrange(0, 4) == bytes32(v.storage_id.0 as int),
        object_info_bytes(v).subrange(8, 12) == bytes32(capped_size(v.size) as int),
{
    lemma_object_info_head(v);
    let b = object_info_bytes(v);
    let h = object_info_head(v);
    assert(b.subrange(0, 4) =~= h.subrange(0, 4));
    assert(b.subrange(8, 12) =~= h.subrange(8, 12));
    assert(h.subrange(0, 4) =~= bytes32(v.storage_id.0 as int));
    assert(h.subrange(8, 12) =~= bytes32(capped_size(v.size) as int));
}

/// The first four fields of an object's dataset.
pub open spec fn object_info_head(v: ObjectInfoView) -> Seq<u8> {
    bytes32(v.storage_id.0 as int) + bytes16(object_format_code_to_code(v.format) as int) + bytes16(
        protection_status_to_code(v.protection_status) as int,
    ) + bytes32(capped_size(v.size) as int)
}

/// An object's dataset begins with its first four fields.
#[verifier::rlimit(100)]
#[verifier::spinoff_prover]
proof fn lemma_object_info_head(v: ObjectInfoView)
    ensures
        object_info_bytes(v).len() >= 12,
        object_info_bytes(v).subrange(0, 12) == object_info_head(v),
{
    let l4 = object_info_head(v);
    let l5 = l4 + bytes16(object_format_code_to_code(v.thumb_format) as int);
    let l6 = l5 + bytes32(v.thumb_size as int);
    let l7 = l6 + bytes32(v.thumb_width as int);
    let l8 = l7 + bytes32(v.thumb_height as int);
    let l9 = l8 + bytes32(v.image_width as int);
    let l10 = l9 + bytes32(v.image_height as int);
    let l11 = l10 + bytes32(v.image_bit_depth as int);
    let l12 = l11 + bytes32(v.parent.0 as int);
    let l13 = l12 + bytes16(association_type_to_code(v.association_type) as int);
    let l14 = l13 + bytes32(v.association_desc as int);
    let l15 = l14 + bytes32(v.sequence_number as int);
    let l16 = l15 + packed_string(v.filename);
    let l17 = l16 + datetime_field_bytes(v.created);
    let l18 = l17 + datetime_field_bytes(v.modified);
    let l19 = l18 + packed_string(v.keywords);
    assert(object_info_bytes(v) == l19);
    lemma_prefix_of_sum(l18, packed_string(v.keywords));
    lemma_prefix_of_sum(l17, datetime_field_bytes(v.modified));
    lemma_prefix_of_sum(l16, datetime_field_bytes(v.created));
    lemma_prefix_of_sum(l15, packed_string(v.filename));
    lemma_prefix_of_sum(l14, bytes32(v.sequence_number as int));
    lemma_prefix_of_sum(l13, bytes32(v.association_desc as int));
    lemma_prefix_of_sum(l12, bytes16(association_type_to_code(v.association_type) as int));
    lemma_prefix_of_sum(l11, bytes32(v.parent.0 as int));
    lemma_prefix_of_sum(l10, bytes32(v.image_bit_depth as int));
    lemma_prefix_of_sum(l9, bytes32(v.image_height as int));
    lemma_prefix_of_sum(l8, bytes32(v.image_width as int));
    lemma_prefix_of_sum(l7, bytes32(v.thumb_height as int));
    lemma_prefix_of_sum(l6, bytes32(v.thumb_width as int));
    lemma_prefix_of_sum(l5, bytes32(v.thumb_size as int));
    lemma_prefix_of_sum(l4, bytes16(object_format_code_to_code(v.thumb_format) as int));
    assert(l4.subrange(0, 12) =~= l4);
}

/// Appending to a sequence of at least twelve bytes keeps its first twelve.
proof fn lemma_prefix_of_sum(x: Seq<u8>, e: Seq<u8>)
    requires
        x.len() >= 12,
    ensures
        (x + e).len() >= 12,
        (x + e).subrange(0, 12) == x.subrange(0, 12),
{
    assert((x + e).subrange(0, 12) =~= x.subrange(0, 12));
}

/// Parsing the SendObjectInfo dataset of an object whose strings and dates
/// survive the wire form, followed by any further bytes, gives its
/// information back with handle 0, the size capped at u32::MAX, and each code
/// read back from its raw value (the same code for a canonical one), whatever
/// its codes are.
#[verifier::rlimit(100)]
#[verifier::spinoff_prover]
pub proof fn lemma_object_info_read_back(v: ObjectInfoView, rest: Seq<u8>)
    requires
        object_info_text_ok(v),
    ensures
        parsed_object_info(object_info_bytes(v) + rest) == Some(
            ObjectInfoView {
                handle: ObjectHandle(0),
                size: capped_size(v.size) as u64,
                format: object_format_code_from_code(object_format_code_to_code(v.format)),
                thumb_format: object_format_code_from_code(object_format_code_to_code(v.thumb_format)),
                protection_status: protection_status_from_code(protection_status_to_code(v.protection_status)),
                association_type: association_type_from_code(association_type_to_code(v.association_type)),
                ..v
            },
        ),
{
    let e1 = bytes32(v.storage_id.0 as int);
    let e2 = bytes16(object_format_code_to_code(v.format) as int);
    let e3 = bytes16(protection_status_to_code(v.protection_status) as int);
    let e4 = bytes32(capped_size(v.size) as int);
    let e5 = bytes16(object_format_code_to_code(v.thumb_format) as int);
    let e6 = bytes32(v.thumb_size as int);
    let e7 = bytes32(v.thumb_width as int);
    let e8 = bytes32(v.thumb_height as int);
    let e9 = bytes32(v.image_width as int);
    let e10 = bytes32(v.image_height as int);
    let e11 = bytes32(v.image_bit_depth as int);
    let e12 = bytes32(v.parent.0 as int);
    let e13 = bytes16(association_type_to_code(v.association_type) as int);
    let e14 = bytes32(v.association_desc as int);
    let e15 = bytes32(v.sequence_number as int);
    let e16 = packed_string(v.filename);
    let e17 = datetime_field_bytes(v.created);
    let e18 = datetime_field_bytes(v.modified);
    let e19 = packed_string(v.keywords);
    let t20 = rest;
    let t19 = e19 + t20;
    let t18 = e18 + t19;
    let t17 = e17 + t18;
    let t16 = e16 + t17;
    let t15 = e15 + t16;
    let t14 = e14 + t15;
    let t13 = e13 + t14;
    let t12 = e12 + t13;
    let t11 = e11 + t12;
    let t10 = e10 + t11;
    let t9 = e9 + t10;
    let t8 = e8 + t9;
    let t7 = e7 + t8;
    let t6 = e6 + t7;
    let t5 = e5 + t6;
    let t4 = e4 + t5;
    let t3 = e3 + t4;
    let t2 = e2 + t3;
    let t1 = e1 + t2;
    let l1 = e1;
    let l2 = l1 + e2;
    let l3 = l2 + e3;
    let l4 = l3 + e4;
    let l5 = l4 + e5;
    let l6 = l5 + e6;
    let l7 = l6 + e7;
    let l8 = l7 + e8;
    let l9 = l8 + e9;
    let l10 = l9 + e10;
    let l11 = l10 + e11;
    let l12 = l11 + e12;
    let l13 = l12 + e13;
    let l14 = l13 + e14;
    let l15 = l14 + e15;
    let l16 = l15 + e16;
    let l17 = l16 + e17;
    let l18 = l17 + e18;
    let l19 = l18 + e19;
    lemma_concat_assoc(l18, e19, rest);
    lemma_concat_assoc(l17, e18, t19);
    lemma_concat_assoc(l16, e17, t18);
    lemma_concat_assoc(l15, e16, t17);
    lemma_concat_assoc(l14, e15, t16);
    lemma_concat_assoc(l13, e14, t15);
    lemma_concat_assoc(l12, e13, t14);
    lemma_concat_assoc(l11, e12, t13);
    lemma_concat_assoc(l10, e11, t12);
    lemma_concat_assoc(l9, e10, t11);
    lemma_concat_assoc(l8, e9, t10);
    lemma_concat_assoc(l7, e8, t9);
    lemma_concat_assoc(l6, e7, t8);
    lemma_concat_assoc(l5, e6, t7);
    lemma_concat_assoc(l4, e5, t6);
    lemma_concat_assoc(l3, e4, t5);
    lemma_concat_assoc(l2, e3, t4);
    lemma_concat_assoc(l1, e2, t3);
    let buf = object_info_bytes(v) + rest;
    assert(buf == t1);
    assert(rest_of(buf, 0) =~= t1);
    lemma_take_u32(buf, 0int, v.storage_id.0, t2);
    let p1: int = 0int + e1.len();
    lemma_take_u16(buf, p1, object_format_code_to_code(v.format), t3);
    let p2: int = p1 + e2.len();
    lemma_take_u16(buf, p2, protection_status_to_code(v.protection_status), t4);
    let p3: int = p2 + e3.len();
    lemma_take_u32(buf, p3, capped_size(v.size), t5);
    let p4: int = p3 + e4.len();
    lemma_take_u16(buf, p4, object_format_code_to_code(v.thumb_format), t6);
    let p5: int = p4 + e5.len();
    lemma_take_u32(buf, p5, v.thumb_size, t7);
    let p6: int = p5 + e6.len();
    lemma_take_u32(buf, p6, v.thumb_width, t8);
    let p7: int = p6 + e7.len();
    lemma_take_u32(buf, p7, v.thumb_height, t9);
    let p8: int = p7 + e8.len();
    lemma_take_u32(buf, p8, v.image_width, t10);
    let p9: int = p8 + e9.len();
    lemma_take_u32(buf, p9, v.image_height, t11);
    let p10: int = p9 + e10.len();
    lemma_take_u32(buf, p10, v.image_bit_depth, t12);
    let p11: int = p10 + e11.len();
    lemma_take_u32(buf, p11, v.parent.0, t13);
    let p12: int = p11 + e12.len();
    lemma_take_u16(buf, p12, association_type_to_code(v.association_type), t14);
    let p13: int = p12 + e13.len();
    lemma_take_u32(buf, p13, v.association_desc, t15);
    let p14: int = p13 + e14.len();
    lemma_take_u32(buf, p14, v.sequence_number, t16);
    let p15: int = p14 + e15.len();
    lemma_take_string(buf, p15, v.filename, t17);
    let p16: int = p15 + e16.len();
    lemma_take_datetime(buf, p16, v.created, t18);
    let p17: int = p16 + e17.len();
    lemma_take_datetime(buf, p17, v.modified, t19);
    let p18: int = p17 + e18.len();
    lemma_take_string(buf, p18, v.keywords, t20);
    let p19: int = p18 + e19.len();
}

/// Parsing the SendObjectInfo dataset of an object, followed by any further
/// bytes, gives the object's information back, with handle 0 and the size
/// capped at u32::MAX.
#[verifier::rlimit(100)]
#[verifier::spinoff_prover]
pub proof fn lemma_object_info_roundtrip(v: ObjectInfoView, rest: Seq<u8>)
    requires
        object_info_encodable(v),
    ensures
        parsed_object_info(object_info_bytes(v) + rest) == Some(
            ObjectInfoView { handle: ObjectHandle(0), size: capped_size(v.size) as u64, ..v },
        ),
{
    lemma_object_info_read_back(v, rest);
    lemma_object_format_code_value_roundtrip(v.format);
    lemma_object_format_code_value_roundtrip(v.thumb_format);
    lemma_protection_status_value_roundtrip(v.protection_status);
    lemma_association_type_value_roundtrip(v.association_type);
}

} // verus!
