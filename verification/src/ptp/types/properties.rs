//! Property-related types for MTP/PTP device properties.
//!
//! - [`PropertyValue`]: A property value with its associated type
//! - [`PropertyFormType`]: Form type for property value constraints
//! - [`PropertyRange`]: Range constraint for a property value
//! - [`DevicePropDesc`]: Device property descriptor

use vstd::prelude::*;
use vstd::slice::slice_subrange;
use crate::error::{data_error, data_error_chars, is_invalid_data_with, Error};
use crate::text::{chars_of, decimal, push_decimal, push_str};
use crate::ptp::codes::{
    device_property_code_from_code, device_property_code_to_code,
    lemma_device_property_code_value_roundtrip, lemma_property_data_type_value_roundtrip,
    property_data_type_from_code, property_data_type_to_code, DevicePropertyCode, PropertyDataType,
};
use crate::ptp::pack::{
    bytes16, bytes32, bytes64, bytes_vec, le16, le32, le64, lemma_i16_roundtrip,
    lemma_i32_roundtrip, lemma_i64_roundtrip, lemma_u16_roundtrip, lemma_u32_roundtrip,
    lemma_u64_roundtrip, pack_i16, pack_i32, pack_i64, pack_i8, pack_u16, pack_u32, pack_u64,
    pack_u8, push_bytes, signed_of, twos, unpack_i16, unpack_i32, unpack_i64, unpack_i8,
    unpack_u16, unpack_u32, unpack_u64, unpack_u8,
};
use crate::ptp::strings::{
    lemma_string_roundtrip, pack_string, packed_string, unpack_string, unpack_string_error,
    unpacked_string, utf16_units,
};

verus! {

// --- PropertyValue ---

/// A property value with its associated type.
///
/// Used for device property values in `DevicePropDesc`, as well as
/// for get/set device property operations.
#[derive(Debug, Clone, PartialEq)]
pub enum PropertyValue {
    /// Signed 8-bit integer.
    Int8(i8),
    /// Unsigned 8-bit integer.
    Uint8(u8),
    /// Signed 16-bit integer.
    Int16(i16),
    /// Unsigned 16-bit integer.
    Uint16(u16),
    /// Signed 32-bit integer.
    Int32(i32),
    /// Unsigned 32-bit integer.
    Uint32(u32),
    /// Signed 64-bit integer.
    Int64(i64),
    /// Unsigned 64-bit integer.
    Uint64(u64),
    /// UTF-16LE encoded string.
    String(String),
}

/// What a `PropertyValue` denotes: the same variant and number, a string
/// taken as its characters.
pub enum PropertyValueView {
    /// Signed 8-bit integer.
    Int8(i8),
    /// Unsigned 8-bit integer.
    Uint8(u8),
    /// Signed 16-bit integer.
    Int16(i16),
    /// Unsigned 16-bit integer.
    Uint16(u16),
    /// Signed 32-bit integer.
    Int32(i32),
    /// Unsigned 32-bit integer.
    Uint32(u32),
    /// Signed 64-bit integer.
    Int64(i64),
    /// Unsigned 64-bit integer.
    Uint64(u64),
    /// A string, as its characters.
    String(Seq<char>),
}

impl View for PropertyValue {
    type V = PropertyValueView;

    open spec fn view(&self) -> PropertyValueView {
        match self {
            PropertyValue::Int8(v) => PropertyValueView::Int8(*v),
            PropertyValue::Uint8(v) => PropertyValueView::Uint8(*v),
            PropertyValue::Int16(v) => PropertyValueView::Int16(*v),
            PropertyValue::Uint16(v) => PropertyValueView::Uint16(*v),
            PropertyValue::Int32(v) => PropertyValueView::Int32(*v),
            PropertyValue::Uint32(v) => PropertyValueView::Uint32(*v),
            PropertyValue::Int64(v) => PropertyValueView::Int64(*v),
            PropertyValue::Uint64(v) => PropertyValueView::Uint64(*v),
            PropertyValue::String(s) => PropertyValueView::String(s@),
        }
    }
}

/// The wire bytes of a property value: little-endian integers (signed ones
/// in two's complement), strings in the MTP string encoding.
pub open spec fn property_value_bytes(v: PropertyValueView) -> Seq<u8> {
    match v {
        PropertyValueView::Int8(x) => seq![twos(x as int, 0x100) as u8],
        PropertyValueView::Uint8(x) => seq![x],
        PropertyValueView::Int16(x) => bytes16(twos(x as int, 0x1_0000)),
        PropertyValueView::Uint16(x) => bytes16(x as int),
        PropertyValueView::Int32(x) => bytes32(twos(x as int, 0x1_0000_0000)),
        PropertyValueView::Uint32(x) => bytes32(x as int),
        PropertyValueView::Int64(x) => bytes64(twos(x as int, 0x1_0000_0000_0000_0000)),
        PropertyValueView::Uint64(x) => bytes64(x as int),
        PropertyValueView::String(s) => packed_string(s),
    }
}

/// The data type code of a property value's variant.
pub open spec fn property_value_type(v: PropertyValueView) -> PropertyDataType {
    match v {
        PropertyValueView::Int8(_) => PropertyDataType::Int8,
        PropertyValueView::Uint8(_) => PropertyDataType::Uint8,
        PropertyValueView::Int16(_) => PropertyDataType::Int16,
        PropertyValueView::Uint16(_) => PropertyDataType::Uint16,
        PropertyValueView::Int32(_) => PropertyDataType::Int32,
        PropertyValueView::Uint32(_) => PropertyDataType::Uint32,
        PropertyValueView::Int64(_) => PropertyDataType::Int64,
        PropertyValueView::Uint64(_) => PropertyDataType::Uint64,
        PropertyValueView::String(_) => PropertyDataType::String,
    }
}

/// The value of the given data type at the front of `buf`, with the number
/// of bytes it takes; `None` when the buffer is too short or invalid for the
/// type, or the type is Undefined, Int128, Uint128 or unknown.
#[verifier::opaque]
pub open spec fn parsed_property_value(buf: Seq<u8>, data_type: PropertyDataType) -> Option<(PropertyValueView, int)> {
    match data_type {
        PropertyDataType::Int8 => if buf.len() >= 1 {
            Some((PropertyValueView::Int8(signed_of(buf[0] as int, 0x100) as i8), 1))
        } else {
            None
        },
        PropertyDataType::Uint8 => if buf.len() >= 1 {
            Some((PropertyValueView::Uint8(buf[0]), 1))
        } else {
            None
        },
        PropertyDataType::Int16 => if buf.len() >= 2 {
            Some((PropertyValueView::Int16(signed_of(le16(buf), 0x1_0000) as i16), 2))
        } else {
            None
        },
        PropertyDataType::Uint16 => if buf.len() >= 2 {
            Some((PropertyValueView::Uint16(le16(buf) as u16), 2))
        } else {
            None
        },
        PropertyDataType::Int32 => if buf.len() >= 4 {
            Some((PropertyValueView::Int32(signed_of(le32(buf), 0x1_0000_0000) as i32), 4))
        } else {
            None
        },
        PropertyDataType::Uint32 => if buf.len() >= 4 {
            Some((PropertyValueView::Uint32(le32(buf) as u32), 4))
        } else {
            None
        },
        PropertyDataType::Int64 => if buf.len() >= 8 {
            Some((PropertyValueView::Int64(signed_of(le64(buf), 0x1_0000_0000_0000_0000) as i64), 8))
        } else {
            None
        },
        PropertyDataType::Uint64 => if buf.len() >= 8 {
            Some((PropertyValueView::Uint64(le64(buf) as u64), 8))
        } else {
            None
        },
        PropertyDataType::String => match unpacked_string(buf) {
            Some((s, n)) => Some((PropertyValueView::String(s), n)),
            None => None,
        },
        _ => None,
    }
}

/// A value read by `parsed_property_value` takes at least one byte and no
/// more than the buffer holds.
pub proof fn lemma_parsed_value_within(buf: Seq<u8>, data_type: PropertyDataType)
    ensures
        parsed_property_value(buf, data_type) matches Some((v, n)) ==> 1 <= n <= buf.len(),
{
    reveal(parsed_property_value);
}

/// How a data type that values cannot be read as is written in messages:
/// its variant's name, with the code in decimal for an unknown type.
pub open spec fn unsupported_type_name(t: PropertyDataType) -> Seq<char> {
    match t {
        PropertyDataType::Undefined => "Undefined"@,
        PropertyDataType::Int128 => "Int128"@,
        PropertyDataType::Uint128 => "Uint128"@,
        PropertyDataType::Unknown(c) => "Unknown("@ + decimal(c as nat) + ")"@,
        _ => Seq::empty(),
    }
}

/// The message of the error `PropertyValue::from_bytes` gives: that of the
/// unpacking of the data type when the buffer is too short for it, or the
/// name of a data type that values cannot be read as.
pub open spec fn property_value_error(buf: Seq<u8>, data_type: PropertyDataType) -> Seq<char> {
    match data_type {
        PropertyDataType::Int8 => "insufficient bytes for i8: need 1, have 0"@,
        PropertyDataType::Uint8 => "insufficient bytes for u8: need 1, have 0"@,
        PropertyDataType::Int16 => "insufficient bytes for i16: need 2, have "@ + decimal(buf.len()),
        PropertyDataType::Uint16 => "insufficient bytes for u16: need 2, have "@ + decimal(buf.len()),
        PropertyDataType::Int32 => "insufficient bytes for i32: need 4, have "@ + decimal(buf.len()),
        PropertyDataType::Uint32 => "insufficient bytes for u32: need 4, have "@ + decimal(buf.len()),
        PropertyDataType::Int64 => "insufficient bytes for i64: need 8, have "@ + decimal(buf.len()),
        PropertyDataType::Uint64 => "insufficient bytes for u64: need 8, have "@ + decimal(buf.len()),
        PropertyDataType::String => unpack_string_error(buf),
        _ => "unsupported property data type: "@ + unsupported_type_name(data_type),
    }
}

/// The error for a data type that values cannot be read as.
fn unsupported_type_error(t: PropertyDataType) -> (e: Error)
    ensures
        is_invalid_data_with(e, "unsupported property data type: "@ + unsupported_type_name(t)),
{
    let mut msg = chars_of("unsupported property data type: ");
    match t {
        PropertyDataType::Undefined => push_str(&mut msg, "Undefined"),
        PropertyDataType::Int128 => push_str(&mut msg, "Int128"),
        PropertyDataType::Uint128 => push_str(&mut msg, "Uint128"),
        PropertyDataType::Unknown(c) => {
            push_str(&mut msg, "Unknown(");
            push_decimal(&mut msg, c as u64);
            push_str(&mut msg, ")");
        },
        _ => {},
    }
    proof {
        assert(msg@ =~= "unsupported property data type: "@ + unsupported_type_name(t));
    }
    data_error_chars(msg)
}

impl PropertyValue {
    /// Serialize this property value to bytes.
    pub fn to_bytes(&self) -> (r: Vec<u8>)
        ensures
            r@ == property_value_bytes(self@),
    {
        match self {
            PropertyValue::Int8(v) => bytes_vec(&pack_i8(*v)),
            PropertyValue::Uint8(v) => bytes_vec(&pack_u8(*v)),
            PropertyValue::Int16(v) => bytes_vec(&pack_i16(*v)),
            PropertyValue::Uint16(v) => bytes_vec(&pack_u16(*v)),
            PropertyValue::Int32(v) => bytes_vec(&pack_i32(*v)),
            PropertyValue::Uint32(v) => bytes_vec(&pack_u32(*v)),
            PropertyValue::Int64(v) => bytes_vec(&pack_i64(*v)),
            PropertyValue::Uint64(v) => bytes_vec(&pack_u64(*v)),
            PropertyValue::String(v) => pack_string(v.as_str()),
        }
    }

    /// Parse a property value from bytes given the expected data type.
    ///
    /// Returns the parsed value and the number of bytes consumed.
    pub fn from_bytes(buf: &[u8], data_type: PropertyDataType) -> (r: Result<(Self, usize), Error>)
        ensures
            r is Ok <==> parsed_property_value(buf@, data_type) is Some,
            r matches Ok((v, n)) ==> parsed_property_value(buf@, data_type) == Some((v@, n as int)),
            r matches Err(e) ==> is_invalid_data_with(e, property_value_error(buf@, data_type)),
    {
        proof {
            reveal(parsed_property_value);
        }
        match data_type {
            PropertyDataType::Int8 => {
                let val = unpack_i8(buf)?;
                Ok((PropertyValue::Int8(val), 1))
            },
            PropertyDataType::Uint8 => {
                let val = unpack_u8(buf)?;
                Ok((PropertyValue::Uint8(val), 1))
            },
            PropertyDataType::Int16 => {
                let val = unpack_i16(buf)?;
                Ok((PropertyValue::Int16(val), 2))
            },
            PropertyDataType::Uint16 => {
                let val = unpack_u16(buf)?;
                Ok((PropertyValue::Uint16(val), 2))
            },
            PropertyDataType::Int32 => {
                let val = unpack_i32(buf)?;
                Ok((PropertyValue::Int32(val), 4))
            },
            PropertyDataType::Uint32 => {
                let val = unpack_u32(buf)?;
                Ok((PropertyValue::Uint32(val), 4))
            },
            PropertyDataType::Int64 => {
                let val = unpack_i64(buf)?;
                Ok((PropertyValue::Int64(val), 8))
            },
            PropertyDataType::Uint64 => {
                let val = unpack_u64(buf)?;
                Ok((PropertyValue::Uint64(val), 8))
            },
            PropertyDataType::String => {
                let (val, consumed) = unpack_string(buf)?;
                Ok((PropertyValue::String(val), consumed))
            },
            _ => Err(unsupported_type_error(data_type)),
        }
    }

    /// Get the data type of this property value.
    pub fn data_type(&self) -> (r: PropertyDataType)
        ensures
            r == property_value_type(self@),
    {
        match self {
            PropertyValue::Int8(_) => PropertyDataType::Int8,
            PropertyValue::Uint8(_) => PropertyDataType::Uint8,
            PropertyValue::Int16(_) => PropertyDataType::Int16,
            PropertyValue::Uint16(_) => PropertyDataType::Uint16,
            PropertyValue::Int32(_) => PropertyDataType::Int32,
            PropertyValue::Uint32(_) => PropertyDataType::Uint32,
            PropertyValue::Int64(_) => PropertyDataType::Int64,
            PropertyValue::Uint64(_) => PropertyDataType::Uint64,
            PropertyValue::String(_) => PropertyDataType::String,
        }
    }
}

/// Whether a value fits the wire format: a string has at most 254 UTF-16
/// code units (the length byte counts them with the terminator).
pub open spec fn property_value_encodable(v: PropertyValueView) -> bool {
    match v {
        PropertyValueView::String(s) => utf16_units(s).len() <= 254,
        _ => true,
    }
}

/// Reading back the bytes of a value, as its own data type and followed by
/// any further bytes, gives the value and consumes exactly its bytes.
pub proof fn lemma_property_value_roundtrip(v: PropertyValueView, rest: Seq<u8>)
    requires
        property_value_encodable(v),
    ensures
        parsed_property_value(property_value_bytes(v) + rest, property_value_type(v)) == Some(
            (v, property_value_bytes(v).len() as int),
        ),
{
    reveal(parsed_property_value);
    match v {
        PropertyValueView::Int8(x) => {
            assert((property_value_bytes(v) + rest)[0] == twos(x as int, 0x100) as u8);
        },
        PropertyValueView::Uint8(x) => {},
        PropertyValueView::Int16(x) => {
            lemma_i16_roundtrip(x, rest);
        },
        PropertyValueView::Uint16(x) => {
            lemma_u16_roundtrip(x, rest);
        },
        PropertyValueView::Int32(x) => {
            lemma_i32_roundtrip(x, rest);
        },
        PropertyValueView::Uint32(x) => {
            lemma_u32_roundtrip(x, rest);
        },
        PropertyValueView::Int64(x) => {
            lemma_i64_roundtrip(x, rest);
        },
        PropertyValueView::Uint64(x) => {
            lemma_u64_roundtrip(x, rest);
        },
        PropertyValueView::String(s) => {
            lemma_string_roundtrip(s, rest);
        },
    }
}

/// Form type for property value constraints.
///
/// Describes how allowed values are specified for a property.
#[derive(Debug, Clone, Copy, PartialEq, Eq, Structural, Hash, Default)]
pub enum PropertyFormType {
    /// No constraints (any value valid).
    #[default]
    NoForm,
    /// Value must be within a range (min, max, step).
    Range,
    /// Value must be one of an enumerated set.
    Enumeration,
    /// Unknown form type.
    Unknown(u8),
}

/// The variant that a raw code denotes: the named variant for a code of
/// the table above, `Unknown(code)` for any other code.
pub open spec fn property_form_type_from_code(code: u8) -> PropertyFormType {
    if code == 0x00 {
        PropertyFormType::NoForm
    } else if code == 0x01 {
        PropertyFormType::Range
    } else if code == 0x02 {
        PropertyFormType::Enumeration
    } else {
        PropertyFormType::Unknown(code)
    }
}

/// The raw code of a variant.
pub open spec fn property_form_type_to_code(v: PropertyFormType) -> u8 {
    match v {
        PropertyFormType::NoForm => 0x00,
        PropertyFormType::Range => 0x01,
        PropertyFormType::Enumeration => 0x02,
        PropertyFormType::Unknown(code) => code,
    }
}

impl PropertyFormType {
    /// Convert a raw u8 code to a PropertyFormType.
    pub fn from_code(code: u8) -> (r: Self)
        ensures
            r == property_form_type_from_code(code),
    {
        match code {
            0x00 => PropertyFormType::NoForm,
            0x01 => PropertyFormType::Range,
            0x02 => PropertyFormType::Enumeration,
            _ => PropertyFormType::Unknown(code),
        }
    }

    /// Convert a PropertyFormType to its raw u8 value.
    pub fn to_code(self) -> (r: u8)
        ensures
            r == property_form_type_to_code(self),
    {
        match self {
            PropertyFormType::NoForm => 0x00,
            PropertyFormType::Range => 0x01,
            PropertyFormType::Enumeration => 0x02,
            PropertyFormType::Unknown(code) => code,
        }
    }
}

/// Converting a raw code to a `PropertyFormType` and back gives the same code.
pub proof fn lemma_property_form_type_code_roundtrip(code: u8)
    ensures
        property_form_type_to_code(property_form_type_from_code(code)) == code,
{
}

/// A named variant, or an `Unknown` code outside the table, converts to its
/// raw code and back to itself.
pub proof fn lemma_property_form_type_value_roundtrip(v: PropertyFormType)
    requires
        v matches PropertyFormType::Unknown(c) ==> property_form_type_from_code(c) is Unknown,
    ensures
        property_form_type_from_code(property_form_type_to_code(v)) == v,
{
}

// --- PropertyRange ---

/// Range constraint for a property value.
///
/// Used when `PropertyFormType::Range` is specified.
#[derive(Debug, Clone, PartialEq)]
pub struct PropertyRange {
    /// Minimum allowed value.
    pub min: PropertyValue,
    /// Maximum allowed value.
    pub max: PropertyValue,
    /// Step size between allowed values.
    pub step: PropertyValue,
}

/// What a `PropertyRange` denotes.
pub struct PropertyRangeView {
    /// Minimum allowed value.
    pub min: PropertyValueView,
    /// Maximum allowed value.
    pub max: PropertyValueView,
    /// Step size between allowed values.
    pub step: PropertyValueView,
}

impl View for PropertyRange {
    type V = PropertyRangeView;

    open spec fn view(&self) -> PropertyRangeView {
        PropertyRangeView { min: self.min@, max: self.max@, step: self.step@ }
    }
}

/// The bytes of a range: minimum, maximum and step, one after another.
pub open spec fn property_range_bytes(r: PropertyRangeView) -> Seq<u8> {
    property_value_bytes(r.min) + property_value_bytes(r.max) + property_value_bytes(r.step)
}

/// Three values of the given type, one after another at the front of `buf`,
/// as minimum, maximum and step, with the number of bytes they take.
pub open spec fn parsed_property_range(buf: Seq<u8>, data_type: PropertyDataType) -> Option<(PropertyRangeView, int)> {
    match parsed_property_value(buf, data_type) {
        None => None,
        Some((min, n1)) => match parsed_property_value(buf.subrange(n1, buf.len() as int), data_type) {
            None => None,
            Some((max, n2)) => match parsed_property_value(
                buf.subrange(n1 + n2, buf.len() as int),
                data_type,
            ) {
                None => None,
                Some((step, n3)) => Some((PropertyRangeView { min, max, step }, n1 + n2 + n3)),
            },
        },
    }
}

/// The message of the error `PropertyRange::from_bytes` gives: that of the
/// first of minimum, maximum and step that cannot be read.
pub open spec fn property_range_error(buf: Seq<u8>, data_type: PropertyDataType) -> Seq<char> {
    match parsed_property_value(buf, data_type) {
        None => property_value_error(buf, data_type),
        Some((_, n1)) => match parsed_property_value(buf.subrange(n1, buf.len() as int), data_type) {
            None => property_value_error(buf.subrange(n1, buf.len() as int), data_type),
            Some((_, n2)) => property_value_error(buf.subrange(n1 + n2, buf.len() as int), data_type),
        },
    }
}

impl PropertyRange {
    /// Parse a PropertyRange from bytes given the data type.
    ///
    /// Returns the parsed range and the number of bytes consumed.
    pub fn from_bytes(buf: &[u8], data_type: PropertyDataType) -> (r: Result<(Self, usize), Error>)
        ensures
            r is Ok <==> parsed_property_range(buf@, data_type) is Some,
            r matches Ok((v, n)) ==> parsed_property_range(buf@, data_type) == Some((v@, n as int)),
            r matches Err(e) ==> is_invalid_data_with(e, property_range_error(buf@, data_type)),
    {
        proof {
            lemma_parsed_value_within(buf@, data_type);
        }
        let (min, c1) = PropertyValue::from_bytes(buf, data_type)?;
        let rest1 = slice_subrange(buf, c1, buf.len());
        proof {
            lemma_parsed_value_within(rest1@, data_type);
        }
        let (max, c2) = PropertyValue::from_bytes(rest1, data_type)?;
        let offset = c1 + c2;
        let rest2 = slice_subrange(buf, offset, buf.len());
        assert(rest2@ =~= buf@.subrange(c1 + c2, buf@.len() as int));
        proof {
            lemma_parsed_value_within(rest2@, data_type);
        }
        let (step, c3) = PropertyValue::from_bytes(rest2, data_type)?;
        Ok((PropertyRange { min, max, step }, offset + c3))
    }

    /// Serialize this property range to bytes.
    pub fn to_bytes(&self) -> (r: Vec<u8>)
        ensures
            r@ == property_range_bytes(self@),
    {
        let mut buf = self.min.to_bytes();
        let b = self.max.to_bytes();
        push_bytes(&mut buf, b.as_slice());
        let c = self.step.to_bytes();
        push_bytes(&mut buf, c.as_slice());
        buf
    }
}

/// Reading back the bytes of a range, as the type of its values and followed
/// by any further bytes, gives the range and consumes exactly its bytes.
pub proof fn lemma_property_range_roundtrip(r: PropertyRangeView, rest: Seq<u8>)
    requires
        property_value_type(r.max) == property_value_type(r.min),
        property_value_type(r.step) == property_value_type(r.min),
        property_value_encodable(r.min),
        property_value_encodable(r.max),
        property_value_encodable(r.step),
    ensures
        parsed_property_range(property_range_bytes(r) + rest, property_value_type(r.min)) == Some(
            (r, property_range_bytes(r).len() as int),
        ),
{
    let a = property_value_bytes(r.min);
    let b = property_value_bytes(r.max);
    let c = property_value_bytes(r.step);
    let buf = property_range_bytes(r) + rest;
    let t = property_value_type(r.min);
    lemma_property_value_roundtrip(r.min, b + c + rest);
    assert(buf =~= a + (b + c + rest));
    lemma_property_value_roundtrip(r.max, c + rest);
    assert(buf.subrange(a.len() as int, buf.len() as int) =~= b + (c + rest));
    lemma_property_value_roundtrip(r.step, rest);
    assert(buf.subrange((a.len() + b.len()) as int, buf.len() as int) =~= c + rest);
}

// --- DevicePropDesc ---

/// Device property descriptor.
///
/// Describes a device property including its type, current value,
/// default value, and allowed values/ranges.
///
/// Returned by the GetDevicePropDesc operation.
#[derive(Debug, Clone)]
pub struct DevicePropDesc {
    /// Property code identifying this property.
    pub property_code: DevicePropertyCode,
    /// Data type of the property value.
    pub data_type: PropertyDataType,
    /// Whether the property is writable (true) or read-only (false).
    pub writable: bool,
    /// Default/factory value.
    pub default_value: PropertyValue,
    /// Current value.
    pub current_value: PropertyValue,
    /// Form type (None, Range, or Enumeration).
    pub form_type: PropertyFormType,
    /// Allowed values (if form_type is Enumeration).
    pub enum_values: Option<Vec<PropertyValue>>,
    /// Value range (if form_type is Range).
    pub range: Option<PropertyRange>,
}

/// What a `DevicePropDesc` denotes.
pub struct DevicePropDescView {
    /// Property code identifying this property.
    pub property_code: DevicePropertyCode,
    /// Data type of the property value.
    pub data_type: PropertyDataType,
    /// Whether the property is writable.
    pub writable: bool,
    /// Default/factory value.
    pub default_value: PropertyValueView,
    /// Current value.
    pub current_value: PropertyValueView,
    /// Form type.
    pub form_type: PropertyFormType,
    /// Allowed values (if form_type is Enumeration).
    pub enum_values: Option<Seq<PropertyValueView>>,
    /// Value range (if form_type is Range).
    pub range: Option<PropertyRangeView>,
}

/// The views of a sequence of property values.
pub open spec fn property_value_views(v: Seq<PropertyValue>) -> Seq<PropertyValueView> {
    v.map_values(|x: PropertyValue| x@)
}

impl View for DevicePropDesc {
    type V = DevicePropDescView;

    open spec fn view(&self) -> DevicePropDescView {
        DevicePropDescView {
            property_code: self.property_code,
            data_type: self.data_type,
            writable: self.writable,
            default_value: self.default_value@,
            current_value: self.current_value@,
            form_type: self.form_type,
            enum_values: match self.enum_values {
                Some(v) => Some(property_value_views(v@)),
                None => None,
            },
            range: match self.range {
                Some(r) => Some(r@),
                None => None,
            },
        }
    }
}

/// `count` values of the given type, one after another at the front of
/// `buf`, with the number of bytes they take.
pub open spec fn parsed_property_values(buf: Seq<u8>, data_type: PropertyDataType, count: nat) -> Option<(Seq<PropertyValueView>, int)>
    decreases count,
{
    if count == 0 {
        Some((seq![], 0))
    } else {
        match parsed_property_values(buf, data_type, (count - 1) as nat) {
            None => None,
            Some((vs, n)) => match parsed_property_value(buf.subrange(n, buf.len() as int), data_type) {
                None => None,
                Some((v, m)) => Some((vs.push(v), n + m)),
            },
        }
    }
}

/// The bytes of values written one after another.
pub open spec fn property_values_bytes(vs: Seq<PropertyValueView>) -> Seq<u8>
    decreases vs.len(),
{
    if vs.len() == 0 {
        Seq::empty()
    } else {
        property_values_bytes(vs.drop_last()) + property_value_bytes(vs.last())
    }
}

/// Reading back values of one data type, written one after another and
/// followed by any further bytes, gives each value in turn, every one read
/// where the bytes of the ones before it end, and consumes exactly their
/// bytes.
pub proof fn lemma_property_values_roundtrip(vs: Seq<PropertyValueView>, data_type: PropertyDataType, rest: Seq<u8>)
    requires
        forall|i: int|
            0 <= i < vs.len() ==> property_value_type(#[trigger] vs[i]) == data_type
                && property_value_encodable(vs[i]),
    ensures
        parsed_property_values(property_values_bytes(vs) + rest, data_type, vs.len()) == Some(
            (vs, property_values_bytes(vs).len() as int),
        ),
    decreases vs.len(),
{
    if vs.len() > 0 {
        let d = vs.drop_last();
        let a = property_values_bytes(d);
        let b = property_value_bytes(vs.last());
        assert forall|i: int| 0 <= i < d.len() implies property_value_type(#[trigger] d[i]) == data_type
            && property_value_encodable(d[i]) by {
            assert(d[i] == vs[i]);
        }
        assert(property_value_type(vs[vs.len() - 1]) == data_type);
        lemma_property_values_roundtrip(d, data_type, b + rest);
        let buf = property_values_bytes(vs) + rest;
        assert(buf =~= a + (b + rest));
        lemma_property_value_roundtrip(vs.last(), rest);
        assert(buf.subrange(a.len() as int, buf.len() as int) =~= b + rest);
        assert(d.push(vs.last()) =~= vs);
    } else {
        assert(Seq::<PropertyValueView>::empty() =~= vs);
    }
}

/// Values read by `parsed_property_values` take no more than the buffer holds.
proof fn lemma_parsed_values_within(buf: Seq<u8>, data_type: PropertyDataType, count: nat)
    ensures
        parsed_property_values(buf, data_type, count) matches Some((vs, n)) ==> 0 <= n <= buf.len()
            && vs.len() == count,
    decreases count,
{
    if count > 0 {
        lemma_parsed_values_within(buf, data_type, (count - 1) as nat);
        if let Some((vs, n)) = parsed_property_values(buf, data_type, (count - 1) as nat) {
            lemma_parsed_value_within(buf.subrange(n, buf.len() as int), data_type);
        }
    }
}

/// The form data of a descriptor whose form flag is `form_type`, read from
/// `buf` (the bytes after the flag): nothing for no form or an unknown
/// form, a range, or a u16 count followed by that many values.
pub open spec fn parsed_form(buf: Seq<u8>, data_type: PropertyDataType, form_type: PropertyFormType) -> Option<(Option<Seq<PropertyValueView>>, Option<PropertyRangeView>)> {
    match form_type {
        PropertyFormType::Range => match parsed_property_range(buf, data_type) {
            Some((r, _)) => Some((None, Some(r))),
            None => None,
        },
        PropertyFormType::Enumeration => if buf.len() < 2 {
            None
        } else {
            match parsed_property_values(buf.subrange(2, buf.len() as int), data_type, le16(buf) as nat) {
                Some((vs, _)) => Some((Some(vs), None)),
                None => None,
            }
        },
        _ => Some((None, None)),
    }
}

/// The descriptor that a GetDevicePropDesc dataset holds: property code
/// (u16), data type (u16), get/set flag (u8, nonzero = writable), default
/// and current values of the data type, form flag (u8), then the form data.
pub open spec fn parsed_device_prop_desc(buf: Seq<u8>) -> Option<DevicePropDescView> {
    if buf.len() < 5 {
        None
    } else {
        let data_type = property_data_type_from_code(le16(buf.subrange(2, buf.len() as int)) as u16);
        match parsed_property_value(buf.subrange(5, buf.len() as int), data_type) {
            None => None,
            Some((default_value, n1)) => match parsed_property_value(
                buf.subrange(5 + n1, buf.len() as int),
                data_type,
            ) {
                None => None,
                Some((current_value, n2)) => if buf.len() <= 5 + n1 + n2 {
                    None
                } else {
                    let form_type = property_form_type_from_code(buf[5 + n1 + n2]);
                    match parsed_form(buf.subrange(6 + n1 + n2, buf.len() as int), data_type, form_type) {
                        None => None,
                        Some((enum_values, range)) => Some(
                            DevicePropDescView {
                                property_code: device_property_code_from_code(le16(buf) as u16),
                                data_type,
                                writable: buf[4] != 0,
                                default_value,
                                current_value,
                                form_type,
                                enum_values,
                                range,
                            },
                        ),
                    }
                },
            },
        }
    }
}

/// The message of the error reading `count` values gives: that of the first
/// value that cannot be read.
pub open spec fn property_values_error(buf: Seq<u8>, data_type: PropertyDataType, count: nat) -> Seq<char>
    decreases count,
{
    if count == 0 {
        Seq::empty()
    } else {
        match parsed_property_values(buf, data_type, (count - 1) as nat) {
            None => property_values_error(buf, data_type, (count - 1) as nat),
            Some((_, n)) => property_value_error(buf.subrange(n, buf.len() as int), data_type),
        }
    }
}

/// When the first `k` values can be read but the next one cannot, reading
/// any larger number of values fails with the message of that next value.
proof fn lemma_values_error_at(buf: Seq<u8>, data_type: PropertyDataType, k: nat, n: int, count: nat)
    requires
        parsed_property_values(buf, data_type, k) matches Some((_, m)) && m == n,
        parsed_property_values(buf, data_type, k + 1) is None,
        k < count,
    ensures
        property_values_error(buf, data_type, count) == property_value_error(
            buf.subrange(n, buf.len() as int),
            data_type,
        ),
    decreases count - k,
{
    if count > k + 1 {
        lemma_values_error_at(buf, data_type, k, n, (count - 1) as nat);
        lemma_parsed_values_none_after(buf, data_type, k + 1, (count - 1) as nat);
    }
}

/// Reads `count` values of the given type from the front of `buf`.
fn read_property_values(buf: &[u8], data_type: PropertyDataType, count: u16) -> (r: Result<Vec<PropertyValue>, Error>)
    ensures
        r is Ok <==> parsed_property_values(buf@, data_type, count as nat) is Some,
        r matches Ok(v) ==> parsed_property_values(buf@, data_type, count as nat) matches Some((vs, _))
            && property_value_views(v@) == vs,
        r matches Err(e) ==> is_invalid_data_with(e, property_values_error(buf@, data_type, count as nat)),
{
    let mut values: Vec<PropertyValue> = Vec::new();
    let mut offset: usize = 0;
    let mut i: u16 = 0;
    while i < count
        invariant
            i <= count,
            parsed_property_values(buf@, data_type, i as nat) == Some((property_value_views(values@), offset as int)),
            offset <= buf@.len(),
        decreases count - i,
    {
        proof {
            lemma_parsed_values_within(buf@, data_type, (i + 1) as nat);
            lemma_parsed_value_within(buf@.subrange(offset as int, buf@.len() as int), data_type);
        }
        let rest = slice_subrange(buf, offset, buf.len());
        let (val, consumed) = match PropertyValue::from_bytes(rest, data_type) {
            Ok(x) => x,
            Err(e) => {
                proof {
                    lemma_parsed_values_none_after(buf@, data_type, (i + 1) as nat, count as nat);
                    lemma_values_error_at(buf@, data_type, i as nat, offset as int, count as nat);
                }
                return Err(e);
            },
        };
        proof {
            assert(property_value_views(values@.push(val)) =~= property_value_views(values@).push(val@));
        }
        values.push(val);
        offset = offset + consumed;
        i = i + 1;
    }
    Ok(values)
}

/// Once `k` values cannot be read, no larger number of them can.
proof fn lemma_parsed_values_none_after(buf: Seq<u8>, data_type: PropertyDataType, k: nat, count: nat)
    requires
        parsed_property_values(buf, data_type, k) is None,
        k <= count,
    ensures
        parsed_property_values(buf, data_type, count) is None,
    decreases count - k,
{
    if k < count {
        lemma_parsed_values_none_after(buf, data_type, k, (count - 1) as nat);
    }
}

/// The message of the error reading the form data after a form flag gives:
/// that of the range, or of the enumeration's count or first unreadable value.
pub open spec fn form_error(buf: Seq<u8>, data_type: PropertyDataType, form_type: PropertyFormType) -> Seq<char> {
    match form_type {
        PropertyFormType::Range => property_range_error(buf, data_type),
        PropertyFormType::Enumeration => if buf.len() < 2 {
            "insufficient bytes for u16: need 2, have "@ + decimal(buf.len())
        } else {
            property_values_error(buf.subrange(2, buf.len() as int), data_type, le16(buf) as nat)
        },
        _ => Seq::empty(),
    }
}

/// The message of the error `DevicePropDesc::from_bytes` gives, by the first
/// field that cannot be read: property code, data type, get/set flag,
/// default value, current value, form flag, form data.
pub open spec fn device_prop_desc_error(buf: Seq<u8>) -> Seq<char> {
    if buf.len() < 2 {
        "insufficient bytes for u16: need 2, have "@ + decimal(buf.len())
    } else if buf.len() < 4 {
        "insufficient bytes for u16: need 2, have "@ + decimal((buf.len() - 2) as nat)
    } else if buf.len() < 5 {
        "DevicePropDesc: insufficient bytes for GetSet"@
    } else {
        let data_type = property_data_type_from_code(le16(buf.subrange(2, buf.len() as int)) as u16);
        let b1 = buf.subrange(5, buf.len() as int);
        match parsed_property_value(b1, data_type) {
            None => property_value_error(b1, data_type),
            Some((_, n1)) => match parsed_property_value(buf.subrange(5 + n1, buf.len() as int), data_type) {
                None => property_value_error(buf.subrange(5 + n1, buf.len() as int), data_type),
                Some((_, n2)) => if buf.len() <= 5 + n1 + n2 {
                    "DevicePropDesc: insufficient bytes for FormFlag"@
                } else {
                    form_error(
                        buf.subrange(6 + n1 + n2, buf.len() as int),
                        data_type,
                        property_form_type_from_code(buf[5 + n1 + n2]),
                    )
                },
            },
        }
    }
}

impl DevicePropDesc {
    /// Parse a DevicePropDesc from bytes.
    ///
    /// The buffer should contain the DevicePropDesc dataset as returned
    /// by GetDevicePropDesc.
    pub fn from_bytes(buf: &[u8]) -> (r: Result<Self, Error>)
        ensures
            r is Ok <==> parsed_device_prop_desc(buf@) is Some,
            r matches Ok(d) ==> parsed_device_prop_desc(buf@) == Some(d@),
            r matches Err(e) ==> is_invalid_data_with(e, device_prop_desc_error(buf@)),
    {
        let property_code = DevicePropertyCode::from_code(unpack_u16(buf)?);
        let data_type = PropertyDataType::from_code(unpack_u16(slice_subrange(buf, 2, buf.len()))?);
        if buf.len() <= 4 {
            return Err(data_error("DevicePropDesc: insufficient bytes for GetSet"));
        }
        let writable = buf[4] != 0x00;
        let rest = slice_subrange(buf, 5, buf.len());
        proof {
            lemma_parsed_value_within(rest@, data_type);
        }
        let (default_value, c1) = PropertyValue::from_bytes(rest, data_type)?;
        let rest = slice_subrange(buf, 5 + c1, buf.len());
        proof {
            lemma_parsed_value_within(rest@, data_type);
        }
        let (current_value, c2) = PropertyValue::from_bytes(rest, data_type)?;
        let offset = 5 + c1 + c2;
        if buf.len() <= offset {
            return Err(data_error("DevicePropDesc: insufficient bytes for FormFlag"));
        }
        let form_type = PropertyFormType::from_code(buf[offset]);
        let form = slice_subrange(buf, offset + 1, buf.len());
        let (enum_values, range) = match form_type {
            PropertyFormType::Range => {
                let (range, _consumed) = PropertyRange::from_bytes(form, data_type)?;
                (None, Some(range))
            },
            PropertyFormType::Enumeration => {
                let count = unpack_u16(form)?;
                let values = read_property_values(slice_subrange(form, 2, form.len()), data_type, count)?;
                (Some(values), None)
            },
            _ => (None, None),
        };
        Ok(
            DevicePropDesc {
                property_code,
                data_type,
                writable,
                default_value,
                current_value,
                form_type,
                enum_values,
                range,
            },
        )
    }
}

/// The table of property form flags that the standard fixes: each named variant
/// has its code, and that code reads back as the variant.
pub proof fn lemma_property_form_type_table()
    ensures
        property_form_type_to_code(PropertyFormType::NoForm) == 0x00,
        property_form_type_from_code(0x00) == PropertyFormType::NoForm,
        property_form_type_to_code(PropertyFormType::Range) == 0x01,
        property_form_type_from_code(0x01) == PropertyFormType::Range,
        property_form_type_to_code(PropertyFormType::Enumeration) == 0x02,
        property_form_type_from_code(0x02) == PropertyFormType::Enumeration,
{
}

/// The form data written after a descriptor's form flag: a range's minimum,
/// maximum and step, or an enumeration's u16 count followed by its values;
/// nothing for other forms.
pub open spec fn form_bytes(d: DevicePropDescView) -> Seq<u8> {
    match d.form_type {
        PropertyFormType::Range => match d.range {
            Some(r) => property_range_bytes(r),
            None => Seq::empty(),
        },
        PropertyFormType::Enumeration => match d.enum_values {
            Some(vs) => bytes16(vs.len() as int) + property_values_bytes(vs),
            None => Seq::empty(),
        },
        _ => Seq::empty(),
    }
}

/// The GetDevicePropDesc dataset of a descriptor: property code and data type
/// (u16), get/set flag (1 for writable, else 0), default and current values,
/// form flag, then the form data.
pub open spec fn device_prop_desc_bytes(d: DevicePropDescView) -> Seq<u8> {
    bytes16(device_property_code_to_code(d.property_code) as int) + bytes16(
        property_data_type_to_code(d.data_type) as int,
    ) + seq![if d.writable { 1u8 } else { 0u8 }] + property_value_bytes(d.default_value)
        + property_value_bytes(d.current_value) + seq![property_form_type_to_code(d.form_type)]
        + form_bytes(d)
}

/// Whether a value is of the data type and fits the wire format.
pub open spec fn value_fits(v: PropertyValueView, data_type: PropertyDataType) -> bool {
    property_value_type(v) == data_type && property_value_encodable(v)
}

/// Whether the wire form carries a descriptor unchanged: a code given as
/// `Unknown` is one outside the table, the values are of its data type and
/// fit the wire format, and the form data is there exactly for its form (at
/// most 65535 enumerated values).
pub open spec fn device_prop_desc_encodable(d: DevicePropDescView) -> bool {
    &&& d.property_code matches DevicePropertyCode::Unknown(c) ==> device_property_code_from_code(c) is Unknown
    &&& d.form_type matches PropertyFormType::Unknown(c) ==> property_form_type_from_code(c) is Unknown
    &&& value_fits(d.default_value, d.data_type)
    &&& value_fits(d.current_value, d.data_type)
    &&& match d.form_type {
        PropertyFormType::Range => {
            &&& d.enum_values is None
            &&& d.range matches Some(r) && value_fits(r.min, d.data_type) && value_fits(r.max, d.data_type)
                && value_fits(r.step, d.data_type)
        },
        PropertyFormType::Enumeration => {
            &&& d.range is None
            &&& d.enum_values matches Some(vs) && vs.len() <= 0xFFFF && forall|i: int|
                0 <= i < vs.len() ==> value_fits(#[trigger] vs[i], d.data_type)
        },
        _ => d.enum_values is None && d.range is None,
    }
}

/// Parsing the dataset of a descriptor that its wire form carries, followed
/// by any further bytes, gives the descriptor back: its code, data type,
/// get/set flag, values and form, and for an enumeration each value in turn,
/// every one read where the bytes of the ones before it end.
#[verifier::rlimit(100)]
#[verifier::spinoff_prover]
pub proof fn lemma_device_prop_desc_roundtrip(d: DevicePropDescView, rest: Seq<u8>)
    requires
        device_prop_desc_encodable(d),
    ensures
        parsed_device_prop_desc(device_prop_desc_bytes(d) + rest) == Some(d),
{
    let pc = device_property_code_to_code(d.property_code);
    let dc = property_data_type_to_code(d.data_type);
    let e1 = bytes16(pc as int);
    let e2 = bytes16(dc as int);
    let e3 = seq![if d.writable { 1u8 } else { 0u8 }];
    let e4 = property_value_bytes(d.default_value);
    let e5 = property_value_bytes(d.current_value);
    let e6 = seq![property_form_type_to_code(d.form_type)];
    let e7 = form_bytes(d);
    let t7 = e7 + rest;
    let t6 = e6 + t7;
    let t5 = e5 + t6;
    let t4 = e4 + t5;
    let t3 = e3 + t4;
    let t2 = e2 + t3;
    let buf = device_prop_desc_bytes(d) + rest;
    assert(buf =~= e1 + t2);
    lemma_u16_roundtrip(pc, t2);
    assert(buf.subrange(2, buf.len() as int) =~= t2);
    lemma_u16_roundtrip(dc, t3);
    lemma_property_data_type_value_roundtrip(d.data_type);
    lemma_device_property_code_value_roundtrip(d.property_code);
    assert(buf[4] == e3[0]);
    assert(buf.subrange(5, buf.len() as int) =~= t4);
    lemma_property_value_roundtrip(d.default_value, t5);
    let n1 = e4.len() as int;
    assert(buf.subrange(5 + n1, buf.len() as int) =~= t5);
    lemma_property_value_roundtrip(d.current_value, t6);
    let n2 = e5.len() as int;
    assert(buf[5 + n1 + n2] == e6[0]);
    assert(buf.subrange(6 + n1 + n2, buf.len() as int) =~= t7);
    lemma_property_form_type_value_roundtrip(d.form_type);
    match d.form_type {
        PropertyFormType::Range => {
            let r = d.range.unwrap();
            lemma_property_range_roundtrip(r, rest);
        },
        PropertyFormType::Enumeration => {
            let vs = d.enum_values.unwrap();
            let c = vs.len() as u16;
            let vb = property_values_bytes(vs);
            lemma_u16_roundtrip(c, vb + rest);
            assert(t7 =~= bytes16(c as int) + (vb + rest));
            assert(t7.subrange(2, t7.len() as int) =~= vb + rest);
            assert forall|i: int| 0 <= i < vs.len() implies property_value_type(#[trigger] vs[i]) == d.data_type
                && property_value_encodable(vs[i]) by {
                assert(value_fits(vs[i], d.data_type));
            }
            lemma_property_values_roundtrip(vs, d.data_type, rest);
        },
        _ => {},
    }
}

} // verus!
