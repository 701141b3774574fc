//! MTP/PTP protocol operation, response, event, format and property codes.
//!
//! Every code type converts from and to its raw value; a raw value outside the
//! table becomes the `Unknown` variant, so `to_code(from_code(x)) == x` for
//! every raw value `x`.

use vstd::prelude::*;
use crate::text::{chars_of, chars_eq_str, to_lowercase, unicode_lowercase};

verus! {

/// PTP operation codes (commands sent to device).
///
/// These codes identify the operation being requested in a PTP command container.
#[derive(Debug, Clone, Copy, PartialEq, Eq, Structural, Hash)]
pub enum OperationCode {
    /// Get device information (capabilities, manufacturer, etc.).
    GetDeviceInfo,
    /// Open a session with the device.
    OpenSession,
    /// Close the current session.
    CloseSession,
    /// Get list of storage IDs.
    GetStorageIds,
    /// Get information about a storage.
    GetStorageInfo,
    /// Get the number of objects in a storage/folder.
    GetNumObjects,
    /// Get list of object handles.
    GetObjectHandles,
    /// Get information about an object.
    GetObjectInfo,
    /// Download an object's data.
    GetObject,
    /// Get thumbnail for an object.
    GetThumb,
    /// Delete an object.
    DeleteObject,
    /// Send object metadata (before sending object data).
    SendObjectInfo,
    /// Send object data (after SendObjectInfo).
    SendObject,
    /// Initiate image capture on a camera.
    InitiateCapture,
    /// Get device property descriptor.
    GetDevicePropDesc,
    /// Get current device property value.
    GetDevicePropValue,
    /// Set device property value.
    SetDevicePropValue,
    /// Reset device property to default value.
    ResetDevicePropValue,
    /// Move an object to a different location.
    MoveObject,
    /// Copy an object.
    CopyObject,
    /// Get partial object data (range request).
    GetPartialObject,
    /// Get the value of an object property (MTP extension).
    GetObjectPropValue,
    /// Set the value of an object property (MTP extension).
    SetObjectPropValue,
    /// Unknown or vendor-specific code.
    Unknown(u16),
}

/// The variant that a raw code denotes: the named variant for a code of
/// the table above, `Unknown(code)` for any other code.
pub open spec fn operation_code_from_code(code: u16) -> OperationCode {
    if code == 0x1001 {
        OperationCode::GetDeviceInfo
    } else if code == 0x1002 {
        OperationCode::OpenSession
    } else if code == 0x1003 {
        OperationCode::CloseSession
    } else if code == 0x1004 {
        OperationCode::GetStorageIds
    } else if code == 0x1005 {
        OperationCode::GetStorageInfo
    } else if code == 0x1006 {
        OperationCode::GetNumObjects
    } else if code == 0x1007 {
        OperationCode::GetObjectHandles
    } else if code == 0x1008 {
        OperationCode::GetObjectInfo
    } else if code == 0x1009 {
        OperationCode::GetObject
    } else if code == 0x100A {
        OperationCode::GetThumb
    } else if code == 0x100B {
        OperationCode::DeleteObject
    } else if code == 0x100C {
        OperationCode::SendObjectInfo
    } else if code == 0x100D {
        OperationCode::SendObject
    } else if code == 0x100E {
        OperationCode::InitiateCapture
    } else if code == 0x1014 {
        OperationCode::GetDevicePropDesc
    } else if code == 0x1015 {
        OperationCode::GetDevicePropValue
    } else if code == 0x1016 {
        OperationCode::SetDevicePropValue
    } else if code == 0x1017 {
        OperationCode::ResetDevicePropValue
    } else if code == 0x1019 {
        OperationCode::MoveObject
    } else if code == 0x101A {
        OperationCode::CopyObject
    } else if code == 0x101B {
        OperationCode::GetPartialObject
    } else if code == 0x9803 {
        OperationCode::GetObjectPropValue
    } else if code == 0x9804 {
        OperationCode::SetObjectPropValue
    } else {
        OperationCode::Unknown(code)
    }
}

/// The raw code of a variant.
pub open spec fn operation_code_to_code(v: OperationCode) -> u16 {
    match v {
        OperationCode::GetDeviceInfo => 0x1001,
        OperationCode::OpenSession => 0x1002,
        OperationCode::CloseSession => 0x1003,
        OperationCode::GetStorageIds => 0x1004,
        OperationCode::GetStorageInfo => 0x1005,
        OperationCode::GetNumObjects => 0x1006,
        OperationCode::GetObjectHandles => 0x1007,
        OperationCode::GetObjectInfo => 0x1008,
        OperationCode::GetObject => 0x1009,
        OperationCode::GetThumb => 0x100A,
        OperationCode::DeleteObject => 0x100B,
        OperationCode::SendObjectInfo => 0x100C,
        OperationCode::SendObject => 0x100D,
        OperationCode::InitiateCapture => 0x100E,
        OperationCode::GetDevicePropDesc => 0x1014,
        OperationCode::GetDevicePropValue => 0x1015,
        OperationCode::SetDevicePropValue => 0x1016,
        OperationCode::ResetDevicePropValue => 0x1017,
        OperationCode::MoveObject => 0x1019,
        OperationCode::CopyObject => 0x101A,
        OperationCode::GetPartialObject => 0x101B,
        OperationCode::GetObjectPropValue => 0x9803,
        OperationCode::SetObjectPropValue => 0x9804,
        OperationCode::Unknown(code) => code,
    }
}

impl OperationCode {
    /// Convert a raw u16 code to a OperationCode.
    pub fn from_code(code: u16) -> (r: Self)
        ensures
            r == operation_code_from_code(code),
    {
        match code {
            0x1001 => OperationCode::GetDeviceInfo,
            0x1002 => OperationCode::OpenSession,
            0x1003 => OperationCode::CloseSession,
            0x1004 => OperationCode::GetStorageIds,
            0x1005 => OperationCode::GetStorageInfo,
            0x1006 => OperationCode::GetNumObjects,
            0x1007 => OperationCode::GetObjectHandles,
            0x1008 => OperationCode::GetObjectInfo,
            0x1009 => OperationCode::GetObject,
            0x100A => OperationCode::GetThumb,
            0x100B => OperationCode::DeleteObject,
            0x100C => OperationCode::SendObjectInfo,
            0x100D => OperationCode::SendObject,
            0x100E => OperationCode::InitiateCapture,
            0x1014 => OperationCode::GetDevicePropDesc,
            0x1015 => OperationCode::GetDevicePropValue,
            0x1016 => OperationCode::SetDevicePropValue,
            0x1017 => OperationCode::ResetDevicePropValue,
            0x1019 => OperationCode::MoveObject,
            0x101A => OperationCode::CopyObject,
            0x101B => OperationCode::GetPartialObject,
            0x9803 => OperationCode::GetObjectPropValue,
            0x9804 => OperationCode::SetObjectPropValue,
            _ => OperationCode::Unknown(code),
        }
    }

    /// Convert a OperationCode to its raw u16 value.
    pub fn to_code(self) -> (r: u16)
        ensures
            r == operation_code_to_code(self),
    {
        match self {
            OperationCode::GetDeviceInfo => 0x1001,
            OperationCode::OpenSession => 0x1002,
            OperationCode::CloseSession => 0x1003,
            OperationCode::GetStorageIds => 0x1004,
            OperationCode::GetStorageInfo => 0x1005,
            OperationCode::GetNumObjects => 0x1006,
            OperationCode::GetObjectHandles => 0x1007,
            OperationCode::GetObjectInfo => 0x1008,
            OperationCode::GetObject => 0x1009,
            OperationCode::GetThumb => 0x100A,
            OperationCode::DeleteObject => 0x100B,
            OperationCode::SendObjectInfo => 0x100C,
            OperationCode::SendObject => 0x100D,
            OperationCode::InitiateCapture => 0x100E,
            OperationCode::GetDevicePropDesc => 0x1014,
            OperationCode::GetDevicePropValue => 0x1015,
            OperationCode::SetDevicePropValue => 0x1016,
            OperationCode::ResetDevicePropValue => 0x1017,
            OperationCode::MoveObject => 0x1019,
            OperationCode::CopyObject => 0x101A,
            OperationCode::GetPartialObject => 0x101B,
            OperationCode::GetObjectPropValue => 0x9803,
            OperationCode::SetObjectPropValue => 0x9804,
            OperationCode::Unknown(code) => code,
        }
    }
}

/// Converting a raw code to a `OperationCode` and back gives the same code.
pub proof fn lemma_operation_code_code_roundtrip(code: u16)
    ensures
        operation_code_to_code(operation_code_from_code(code)) == code,
{
}

/// A named variant, or an `Unknown` code outside the table, converts to its
/// raw code and back to itself.
pub proof fn lemma_operation_code_value_roundtrip(v: OperationCode)
    requires
        v matches OperationCode::Unknown(c) ==> operation_code_from_code(c) is Unknown,
    ensures
        operation_code_from_code(operation_code_to_code(v)) == v,
{
}

/// PTP response codes (status returned by device).
///
/// These codes indicate the result of an operation.
#[derive(Debug, Clone, Copy, PartialEq, Eq, Structural, Hash)]
pub enum ResponseCode {
    /// Operation completed successfully (the protocol calls this code OK).
    Success,
    /// General unspecified error.
    GeneralError,
    /// Session is not open.
    SessionNotOpen,
    /// Invalid transaction ID.
    InvalidTransactionId,
    /// Operation is not supported.
    OperationNotSupported,
    /// Parameter is not supported.
    ParameterNotSupported,
    /// Transfer was incomplete.
    IncompleteTransfer,
    /// Invalid storage ID.
    InvalidStorageId,
    /// Invalid object handle.
    InvalidObjectHandle,
    /// Device property not supported.
    DevicePropNotSupported,
    /// Invalid object format code.
    InvalidObjectFormatCode,
    /// Storage is full.
    StoreFull,
    /// Object is write-protected.
    ObjectWriteProtected,
    /// Storage is read-only.
    StoreReadOnly,
    /// Access denied.
    AccessDenied,
    /// Object has no thumbnail.
    NoThumbnailPresent,
    /// Device is busy.
    DeviceBusy,
    /// Invalid parent object.
    InvalidParentObject,
    /// Invalid device property format.
    InvalidDevicePropFormat,
    /// Invalid device property value.
    InvalidDevicePropValue,
    /// Invalid parameter value.
    InvalidParameter,
    /// Session is already open.
    SessionAlreadyOpen,
    /// Transaction was cancelled.
    TransactionCancelled,
    /// Object is too large for the storage.
    ObjectTooLarge,
    /// Unknown or vendor-specific code.
    Unknown(u16),
}

/// The variant that a raw code denotes: the named variant for a code of
/// the table above, `Unknown(code)` for any other code.
pub open spec fn response_code_from_code(code: u16) -> ResponseCode {
    if code == 0x2001 {
        ResponseCode::Success
    } else if code == 0x2002 {
        ResponseCode::GeneralError
    } else if code == 0x2003 {
        ResponseCode::SessionNotOpen
    } else if code == 0x2004 {
        ResponseCode::InvalidTransactionId
    } else if code == 0x2005 {
        ResponseCode::OperationNotSupported
    } else if code == 0x2006 {
        ResponseCode::ParameterNotSupported
    } else if code == 0x2007 {
        ResponseCode::IncompleteTransfer
    } else if code == 0x2008 {
        ResponseCode::InvalidStorageId
    } else if code == 0x2009 {
        ResponseCode::InvalidObjectHandle
    } else if code == 0x200A {
        ResponseCode::DevicePropNotSupported
    } else if code == 0x200B {
        ResponseCode::InvalidObjectFormatCode
    } else if code == 0x200C {
        ResponseCode::StoreFull
    } else if code == 0x200D {
        ResponseCode::ObjectWriteProtected
    } else if code == 0x200E {
        ResponseCode::StoreReadOnly
    } else if code == 0x200F {
        ResponseCode::AccessDenied
    } else if code == 0x2010 {
        ResponseCode::NoThumbnailPresent
    } else if code == 0x2019 {
        ResponseCode::DeviceBusy
    } else if code == 0x201A {
        ResponseCode::InvalidParentObject
    } else if code == 0x201B {
        ResponseCode::InvalidDevicePropFormat
    } else if code == 0x201C {
        ResponseCode::InvalidDevicePropValue
    } else if code == 0x201D {
        ResponseCode::InvalidParameter
    } else if code == 0x201E {
        ResponseCode::SessionAlreadyOpen
    } else if code == 0x201F {
        ResponseCode::TransactionCancelled
    } else if code == 0xA809 {
        ResponseCode::ObjectTooLarge
    } else {
        ResponseCode::Unknown(code)
    }
}

/// The raw code of a variant.
pub open spec fn response_code_to_code(v: ResponseCode) -> u16 {
    match v {
        ResponseCode::Success => 0x2001,
        ResponseCode::GeneralError => 0x2002,
        ResponseCode::SessionNotOpen => 0x2003,
        ResponseCode::InvalidTransactionId => 0x2004,
        ResponseCode::OperationNotSupported => 0x2005,
        ResponseCode::ParameterNotSupported => 0x2006,
        ResponseCode::IncompleteTransfer => 0x2007,
        ResponseCode::InvalidStorageId => 0x2008,
        ResponseCode::InvalidObjectHandle => 0x2009,
        ResponseCode::DevicePropNotSupported => 0x200A,
        ResponseCode::InvalidObjectFormatCode => 0x200B,
        ResponseCode::StoreFull => 0x200C,
        ResponseCode::ObjectWriteProtected => 0x200D,
        ResponseCode::StoreReadOnly => 0x200E,
        ResponseCode::AccessDenied => 0x200F,
        ResponseCode::NoThumbnailPresent => 0x2010,
        ResponseCode::DeviceBusy => 0x2019,
        ResponseCode::InvalidParentObject => 0x201A,
        ResponseCode::InvalidDevicePropFormat => 0x201B,
        ResponseCode::InvalidDevicePropValue => 0x201C,
        ResponseCode::InvalidParameter => 0x201D,
        ResponseCode::SessionAlreadyOpen => 0x201E,
        ResponseCode::TransactionCancelled => 0x201F,
        ResponseCode::ObjectTooLarge => 0xA809,
        ResponseCode::Unknown(code) => code,
    }
}

impl ResponseCode {
    /// Convert a raw u16 code to a ResponseCode.
    pub fn from_code(code: u16) -> (r: Self)
        ensures
            r == response_code_from_code(code),
    {
        match code {
            0x2001 => ResponseCode::Success,
            0x2002 => ResponseCode::GeneralError,
            0x2003 => ResponseCode::SessionNotOpen,
            0x2004 => ResponseCode::InvalidTransactionId,
            0x2005 => ResponseCode::OperationNotSupported,
            0x2006 => ResponseCode::ParameterNotSupported,
            0x2007 => ResponseCode::IncompleteTransfer,
            0x2008 => ResponseCode::InvalidStorageId,
            0x2009 => ResponseCode::InvalidObjectHandle,
            0x200A => ResponseCode::DevicePropNotSupported,
            0x200B => ResponseCode::InvalidObjectFormatCode,
            0x200C => ResponseCode::StoreFull,
            0x200D => ResponseCode::ObjectWriteProtected,
            0x200E => ResponseCode::StoreReadOnly,
            0x200F => ResponseCode::AccessDenied,
            0x2010 => ResponseCode::NoThumbnailPresent,
            0x2019 => ResponseCode::DeviceBusy,
            0x201A => ResponseCode::InvalidParentObject,
            0x201B => ResponseCode::InvalidDevicePropFormat,
            0x201C => ResponseCode::InvalidDevicePropValue,
            0x201D => ResponseCode::InvalidParameter,
            0x201E => ResponseCode::SessionAlreadyOpen,
            0x201F => ResponseCode::TransactionCancelled,
            0xA809 => ResponseCode::ObjectTooLarge,
            _ => ResponseCode::Unknown(code),
        }
    }

    /// Convert a ResponseCode to its raw u16 value.
    pub fn to_code(self) -> (r: u16)
        ensures
            r == response_code_to_code(self),
    {
        match self {
            ResponseCode::Success => 0x2001,
            ResponseCode::GeneralError => 0x2002,
            ResponseCode::SessionNotOpen => 0x2003,
            ResponseCode::InvalidTransactionId => 0x2004,
            ResponseCode::OperationNotSupported => 0x2005,
            ResponseCode::ParameterNotSupported => 0x2006,
            ResponseCode::IncompleteTransfer => 0x2007,
            ResponseCode::InvalidStorageId => 0x2008,
            ResponseCode::InvalidObjectHandle => 0x2009,
            ResponseCode::DevicePropNotSupported => 0x200A,
            ResponseCode::InvalidObjectFormatCode => 0x200B,
            ResponseCode::StoreFull => 0x200C,
            ResponseCode::ObjectWriteProtected => 0x200D,
            ResponseCode::StoreReadOnly => 0x200E,
            ResponseCode::AccessDenied => 0x200F,
            ResponseCode::NoThumbnailPresent => 0x2010,
            ResponseCode::DeviceBusy => 0x2019,
            ResponseCode::InvalidParentObject => 0x201A,
            ResponseCode::InvalidDevicePropFormat => 0x201B,
            ResponseCode::InvalidDevicePropValue => 0x201C,
            ResponseCode::InvalidParameter => 0x201D,
            ResponseCode::SessionAlreadyOpen => 0x201E,
            ResponseCode::TransactionCancelled => 0x201F,
            ResponseCode::ObjectTooLarge => 0xA809,
            ResponseCode::Unknown(code) => code,
        }
    }
}

/// Converting a raw code to a `ResponseCode` and back gives the same code.
pub proof fn lemma_response_code_code_roundtrip(code: u16)
    ensures
        response_code_to_code(response_code_from_code(code)) == code,
{
}

/// A named variant, or an `Unknown` code outside the table, converts to its
/// raw code and back to itself.
pub proof fn lemma_response_code_value_roundtrip(v: ResponseCode)
    requires
        v matches ResponseCode::Unknown(c) ==> response_code_from_code(c) is Unknown,
    ensures
        response_code_from_code(response_code_to_code(v)) == v,
{
}

/// PTP event codes (asynchronous notifications from device).
///
/// These codes identify events that the device sends asynchronously.
#[derive(Debug, Clone, Copy, PartialEq, Eq, Structural, Hash)]
pub enum EventCode {
    /// A new object was added.
    ObjectAdded,
    /// An object was removed.
    ObjectRemoved,
    /// A new storage was added.
    StoreAdded,
    /// A storage was removed.
    StoreRemoved,
    /// A device property changed.
    DevicePropChanged,
    /// Object information changed.
    ObjectInfoChanged,
    /// Device information changed.
    DeviceInfoChanged,
    /// Storage information changed.
    StorageInfoChanged,
    /// Capture operation completed.
    CaptureComplete,
    /// Unknown or vendor-specific code.
    Unknown(u16),
}

/// The variant that a raw code denotes: the named variant for a code of
/// the table above, `Unknown(code)` for any other code.
pub open spec fn event_code_from_code(code: u16) -> EventCode {
    if code == 0x4002 {
        EventCode::ObjectAdded
    } else if code == 0x4003 {
        EventCode::ObjectRemoved
    } else if code == 0x4004 {
        EventCode::StoreAdded
    } else if code == 0x4005 {
        EventCode::StoreRemoved
    } else if code == 0x4006 {
        EventCode::DevicePropChanged
    } else if code == 0x4007 {
        EventCode::ObjectInfoChanged
    } else if code == 0x4008 {
        EventCode::DeviceInfoChanged
    } else if code == 0x400C {
        EventCode::StorageInfoChanged
    } else if code == 0x400D {
        EventCode::CaptureComplete
    } else {
        EventCode::Unknown(code)
    }
}

/// The raw code of a variant.
pub open spec fn event_code_to_code(v: EventCode) -> u16 {
    match v {
        EventCode::ObjectAdded => 0x4002,
        EventCode::ObjectRemoved => 0x4003,
        EventCode::StoreAdded => 0x4004,
        EventCode::StoreRemoved => 0x4005,
        EventCode::DevicePropChanged => 0x4006,
        EventCode::ObjectInfoChanged => 0x4007,
        EventCode::DeviceInfoChanged => 0x4008,
        EventCode::StorageInfoChanged => 0x400C,
        EventCode::CaptureComplete => 0x400D,
        EventCode::Unknown(code) => code,
    }
}

impl EventCode {
    /// Convert a raw u16 code to a EventCode.
    pub fn from_code(code: u16) -> (r: Self)
        ensures
            r == event_code_from_code(code),
    {
        match code {
            0x4002 => EventCode::ObjectAdded,
            0x4003 => EventCode::ObjectRemoved,
            0x4004 => EventCode::StoreAdded,
            0x4005 => EventCode::StoreRemoved,
            0x4006 => EventCode::DevicePropChanged,
            0x4007 => EventCode::ObjectInfoChanged,
            0x4008 => EventCode::DeviceInfoChanged,
            0x400C => EventCode::StorageInfoChanged,
            0x400D => EventCode::CaptureComplete,
            _ => EventCode::Unknown(code),
        }
    }

    /// Convert a EventCode to its raw u16 value.
    pub fn to_code(self) -> (r: u16)
        ensures
            r == event_code_to_code(self),
    {
        match self {
            EventCode::ObjectAdded => 0x4002,
            EventCode::ObjectRemoved => 0x4003,
            EventCode::StoreAdded => 0x4004,
            EventCode::StoreRemoved => 0x4005,
            EventCode::DevicePropChanged => 0x4006,
            EventCode::ObjectInfoChanged => 0x4007,
            EventCode::DeviceInfoChanged => 0x4008,
            EventCode::StorageInfoChanged => 0x400C,
            EventCode::CaptureComplete => 0x400D,
            EventCode::Unknown(code) => code,
        }
    }
}

/// Converting a raw code to a `EventCode` and back gives the same code.
pub proof fn lemma_event_code_code_roundtrip(code: u16)
    ensures
        event_code_to_code(event_code_from_code(code)) == code,
{
}

/// A named variant, or an `Unknown` code outside the table, converts to its
/// raw code and back to itself.
pub proof fn lemma_event_code_value_roundtrip(v: EventCode)
    requires
        v matches EventCode::Unknown(c) ==> event_code_from_code(c) is Unknown,
    ensures
        event_code_from_code(event_code_to_code(v)) == v,
{
}

/// PTP/MTP object format codes.
///
/// These codes identify the format/type of objects stored on the device.
#[derive(Debug, Clone, Copy, PartialEq, Eq, Structural, Hash, Default)]
pub enum ObjectFormatCode {
    /// Undefined/unknown format.
    #[default]
    Undefined,
    /// Association (folder/directory).
    Association,
    /// Script file.
    Script,
    /// Executable file.
    Executable,
    /// Plain text file.
    Text,
    /// HTML file.
    Html,
    /// DPOF (Digital Print Order Format).
    Dpof,
    /// AIFF audio.
    Aiff,
    /// WAV audio.
    Wav,
    /// MP3 audio.
    Mp3,
    /// AVI video.
    Avi,
    /// MPEG video.
    Mpeg,
    /// ASF (Advanced Systems Format).
    Asf,
    /// JPEG image.
    Jpeg,
    /// TIFF image.
    Tiff,
    /// GIF image.
    Gif,
    /// BMP image.
    Bmp,
    /// PICT image.
    Pict,
    /// PNG image.
    Png,
    /// WMA audio.
    WmaAudio,
    /// OGG audio.
    OggAudio,
    /// AAC audio.
    AacAudio,
    /// FLAC audio.
    FlacAudio,
    /// WMV video.
    WmvVideo,
    /// MP4 container.
    Mp4Container,
    /// M4A audio.
    M4aAudio,
    /// Unknown or vendor-specific code.
    Unknown(u16),
}

/// The variant that a raw code denotes: the named variant for a code of
/// the table above, `Unknown(code)` for any other code.
pub open spec fn object_format_code_from_code(code: u16) -> ObjectFormatCode {
    if code == 0x3000 {
        ObjectFormatCode::Undefined
    } else if code == 0x3001 {
        ObjectFormatCode::Association
    } else if code == 0x3002 {
        ObjectFormatCode::Script
    } else if code == 0x3003 {
        ObjectFormatCode::Executable
    } else if code == 0x3004 {
        ObjectFormatCode::Text
    } else if code == 0x3005 {
        ObjectFormatCode::Html
    } else if code == 0x3006 {
        ObjectFormatCode::Dpof
    } else if code == 0x3007 {
        ObjectFormatCode::Aiff
    } else if code == 0x3008 {
        ObjectFormatCode::Wav
    } else if code == 0x3009 {
        ObjectFormatCode::Mp3
    } else if code == 0x300A {
        ObjectFormatCode::Avi
    } else if code == 0x300B {
        ObjectFormatCode::Mpeg
    } else if code == 0x300C {
        ObjectFormatCode::Asf
    } else if code == 0x3801 {
        ObjectFormatCode::Jpeg
    } else if code == 0x3804 {
        ObjectFormatCode::Tiff
    } else if code == 0x3807 {
        ObjectFormatCode::Gif
    } else if code == 0x3808 {
        ObjectFormatCode::Bmp
    } else if code == 0x380A {
        ObjectFormatCode::Pict
    } else if code == 0x380B {
        ObjectFormatCode::Png
    } else if code == 0xB901 {
        ObjectFormatCode::WmaAudio
    } else if code == 0xB902 {
        ObjectFormatCode::OggAudio
    } else if code == 0xB903 {
        ObjectFormatCode::AacAudio
    } else if code == 0xB906 {
        ObjectFormatCode::FlacAudio
    } else if code == 0xB981 {
        ObjectFormatCode::WmvVideo
    } else if code == 0xB982 {
        ObjectFormatCode::Mp4Container
    } else if code == 0xB984 {
        ObjectFormatCode::M4aAudio
    } else {
        ObjectFormatCode::Unknown(code)
    }
}

/// The raw code of a variant.
pub open spec fn object_format_code_to_code(v: ObjectFormatCode) -> u16 {
    match v {
        ObjectFormatCode::Undefined => 0x3000,
        ObjectFormatCode::Association => 0x3001,
        ObjectFormatCode::Script => 0x3002,
        ObjectFormatCode::Executable => 0x3003,
        ObjectFormatCode::Text => 0x3004,
        ObjectFormatCode::Html => 0x3005,
        ObjectFormatCode::Dpof => 0x3006,
        ObjectFormatCode::Aiff => 0x3007,
        ObjectFormatCode::Wav => 0x3008,
        ObjectFormatCode::Mp3 => 0x3009,
        ObjectFormatCode::Avi => 0x300A,
        ObjectFormatCode::Mpeg => 0x300B,
        ObjectFormatCode::Asf => 0x300C,
        ObjectFormatCode::Jpeg => 0x3801,
        ObjectFormatCode::Tiff => 0x3804,
        ObjectFormatCode::Gif => 0x3807,
        ObjectFormatCode::Bmp => 0x3808,
        ObjectFormatCode::Pict => 0x380A,
        ObjectFormatCode::Png => 0x380B,
        ObjectFormatCode::WmaAudio => 0xB901,
        ObjectFormatCode::OggAudio => 0xB902,
        ObjectFormatCode::AacAudio => 0xB903,
        ObjectFormatCode::FlacAudio => 0xB906,
        ObjectFormatCode::WmvVideo => 0xB981,
        ObjectFormatCode::Mp4Container => 0xB982,
        ObjectFormatCode::M4aAudio => 0xB984,
        ObjectFormatCode::Unknown(code) => code,
    }
}

impl ObjectFormatCode {
    /// Convert a raw u16 code to a ObjectFormatCode.
    pub fn from_code(code: u16) -> (r: Self)
        ensures
            r == object_format_code_from_code(code),
    {
        match code {
            0x3000 => ObjectFormatCode::Undefined,
            0x3001 => ObjectFormatCode::Association,
            0x3002 => ObjectFormatCode::Script,
            0x3003 => ObjectFormatCode::Executable,
            0x3004 => ObjectFormatCode::Text,
            0x3005 => ObjectFormatCode::Html,
            0x3006 => ObjectFormatCode::Dpof,
            0x3007 => ObjectFormatCode::Aiff,
            0x3008 => ObjectFormatCode::Wav,
            0x3009 => ObjectFormatCode::Mp3,
            0x300A => ObjectFormatCode::Avi,
            0x300B => ObjectFormatCode::Mpeg,
            0x300C => ObjectFormatCode::Asf,
            0x3801 => ObjectFormatCode::Jpeg,
            0x3804 => ObjectFormatCode::Tiff,
            0x3807 => ObjectFormatCode::Gif,
            0x3808 => ObjectFormatCode::Bmp,
            0x380A => ObjectFormatCode::Pict,
            0x380B => ObjectFormatCode::Png,
            0xB901 => ObjectFormatCode::WmaAudio,
            0xB902 => ObjectFormatCode::OggAudio,
            0xB903 => ObjectFormatCode::AacAudio,
            0xB906 => ObjectFormatCode::FlacAudio,
            0xB981 => ObjectFormatCode::WmvVideo,
            0xB982 => ObjectFormatCode::Mp4Container,
            0xB984 => ObjectFormatCode::M4aAudio,
            _ => ObjectFormatCode::Unknown(code),
        }
    }

    /// Convert a ObjectFormatCode to its raw u16 value.
    pub fn to_code(self) -> (r: u16)
        ensures
            r == object_format_code_to_code(self),
    {
        match self {
            ObjectFormatCode::Undefined => 0x3000,
            ObjectFormatCode::Association => 0x3001,
            ObjectFormatCode::Script => 0x3002,
            ObjectFormatCode::Executable => 0x3003,
            ObjectFormatCode::Text => 0x3004,
            ObjectFormatCode::Html => 0x3005,
            ObjectFormatCode::Dpof => 0x3006,
            ObjectFormatCode::Aiff => 0x3007,
            ObjectFormatCode::Wav => 0x3008,
            ObjectFormatCode::Mp3 => 0x3009,
            ObjectFormatCode::Avi => 0x300A,
            ObjectFormatCode::Mpeg => 0x300B,
            ObjectFormatCode::Asf => 0x300C,
            ObjectFormatCode::Jpeg => 0x3801,
            ObjectFormatCode::Tiff => 0x3804,
            ObjectFormatCode::Gif => 0x3807,
            ObjectFormatCode::Bmp => 0x3808,
            ObjectFormatCode::Pict => 0x380A,
            ObjectFormatCode::Png => 0x380B,
            ObjectFormatCode::WmaAudio => 0xB901,
            ObjectFormatCode::OggAudio => 0xB902,
            ObjectFormatCode::AacAudio => 0xB903,
            ObjectFormatCode::FlacAudio => 0xB906,
            ObjectFormatCode::WmvVideo => 0xB981,
            ObjectFormatCode::Mp4Container => 0xB982,
            ObjectFormatCode::M4aAudio => 0xB984,
            ObjectFormatCode::Unknown(code) => code,
        }
    }
}

/// Converting a raw code to a `ObjectFormatCode` and back gives the same code.
pub proof fn lemma_object_format_code_code_roundtrip(code: u16)
    ensures
        object_format_code_to_code(object_format_code_from_code(code)) == code,
{
}

/// A named variant, or an `Unknown` code outside the table, converts to its
/// raw code and back to itself.
pub proof fn lemma_object_format_code_value_roundtrip(v: ObjectFormatCode)
    requires
        v matches ObjectFormatCode::Unknown(c) ==> object_format_code_from_code(c) is Unknown,
    ensures
        object_format_code_from_code(object_format_code_to_code(v)) == v,
{
}

/// MTP object property codes.
///
/// These codes identify object properties that can be get/set via MTP operations.
#[derive(Debug, Clone, Copy, PartialEq, Eq, Structural, Hash)]
pub enum ObjectPropertyCode {
    /// Storage ID containing the object.
    StorageId,
    /// Object format code.
    ObjectFormat,
    /// Protection status (read-only, etc.).
    ProtectionStatus,
    /// Object size in bytes.
    ObjectSize,
    /// Object filename (key property for renaming).
    ObjectFileName,
    /// Date the object was created.
    DateCreated,
    /// Date the object was last modified.
    DateModified,
    /// Parent object handle.
    ParentObject,
    /// Display name of the object.
    Name,
    /// Unknown or vendor-specific property code.
    Unknown(u16),
}

/// The variant that a raw code denotes: the named variant for a code of
/// the table above, `Unknown(code)` for any other code.
pub open spec fn object_property_code_from_code(code: u16) -> ObjectPropertyCode {
    if code == 0xDC01 {
        ObjectPropertyCode::StorageId
    } else if code == 0xDC02 {
        ObjectPropertyCode::ObjectFormat
    } else if code == 0xDC03 {
        ObjectPropertyCode::ProtectionStatus
    } else if code == 0xDC04 {
        ObjectPropertyCode::ObjectSize
    } else if code == 0xDC07 {
        ObjectPropertyCode::ObjectFileName
    } else if code == 0xDC08 {
        ObjectPropertyCode::DateCreated
    } else if code == 0xDC09 {
        ObjectPropertyCode::DateModified
    } else if code == 0xDC0B {
        ObjectPropertyCode::ParentObject
    } else if code == 0xDC44 {
        ObjectPropertyCode::Name
    } else {
        ObjectPropertyCode::Unknown(code)
    }
}

/// The raw code of a variant.
pub open spec fn object_property_code_to_code(v: ObjectPropertyCode) -> u16 {
    match v {
        ObjectPropertyCode::StorageId => 0xDC01,
        ObjectPropertyCode::ObjectFormat => 0xDC02,
        ObjectPropertyCode::ProtectionStatus => 0xDC03,
        ObjectPropertyCode::ObjectSize => 0xDC04,
        ObjectPropertyCode::ObjectFileName => 0xDC07,
        ObjectPropertyCode::DateCreated => 0xDC08,
        ObjectPropertyCode::DateModified => 0xDC09,
        ObjectPropertyCode::ParentObject => 0xDC0B,
        ObjectPropertyCode::Name => 0xDC44,
        ObjectPropertyCode::Unknown(code) => code,
    }
}

impl ObjectPropertyCode {
    /// Convert a raw u16 code to a ObjectPropertyCode.
    pub fn from_code(code: u16) -> (r: Self)
        ensures
            r == object_property_code_from_code(code),
    {
        match code {
            0xDC01 => ObjectPropertyCode::StorageId,
            0xDC02 => ObjectPropertyCode::ObjectFormat,
            0xDC03 => ObjectPropertyCode::ProtectionStatus,
            0xDC04 => ObjectPropertyCode::ObjectSize,
            0xDC07 => ObjectPropertyCode::ObjectFileName,
            0xDC08 => ObjectPropertyCode::DateCreated,
            0xDC09 => ObjectPropertyCode::DateModified,
            0xDC0B => ObjectPropertyCode::ParentObject,
            0xDC44 => ObjectPropertyCode::Name,
            _ => ObjectPropertyCode::Unknown(code),
        }
    }

    /// Convert a ObjectPropertyCode to its raw u16 value.
    pub fn to_code(self) -> (r: u16)
        ensures
            r == object_property_code_to_code(self),
    {
        match self {
            ObjectPropertyCode::StorageId => 0xDC01,
            ObjectPropertyCode::ObjectFormat => 0xDC02,
            ObjectPropertyCode::ProtectionStatus => 0xDC03,
            ObjectPropertyCode::ObjectSize => 0xDC04,
            ObjectPropertyCode::ObjectFileName => 0xDC07,
            ObjectPropertyCode::DateCreated => 0xDC08,
            ObjectPropertyCode::DateModified => 0xDC09,
            ObjectPropertyCode::ParentObject => 0xDC0B,
            ObjectPropertyCode::Name => 0xDC44,
            ObjectPropertyCode::Unknown(code) => code,
        }
    }
}

/// Converting a raw code to a `ObjectPropertyCode` and back gives the same code.
pub proof fn lemma_object_property_code_code_roundtrip(code: u16)
    ensures
        object_property_code_to_code(object_property_code_from_code(code)) == code,
{
}

/// A named variant, or an `Unknown` code outside the table, converts to its
/// raw code and back to itself.
pub proof fn lemma_object_property_code_value_roundtrip(v: ObjectPropertyCode)
    requires
        v matches ObjectPropertyCode::Unknown(c) ==> object_property_code_from_code(c) is Unknown,
    ensures
        object_property_code_from_code(object_property_code_to_code(v)) == v,
{
}

/// PTP property data type codes.
///
/// These codes identify the data type of property values in property descriptors.
#[derive(Debug, Clone, Copy, PartialEq, Eq, Structural, Hash)]
pub enum PropertyDataType {
    /// Undefined type (0x0000).
    Undefined,
    /// Signed 8-bit integer (0x0001).
    Int8,
    /// Unsigned 8-bit integer (0x0002).
    Uint8,
    /// Signed 16-bit integer (0x0003).
    Int16,
    /// Unsigned 16-bit integer (0x0004).
    Uint16,
    /// Signed 32-bit integer (0x0005).
    Int32,
    /// Unsigned 32-bit integer (0x0006).
    Uint32,
    /// Signed 64-bit integer (0x0007).
    Int64,
    /// Unsigned 64-bit integer (0x0008).
    Uint64,
    /// Signed 128-bit integer (0x0009, rarely used).
    Int128,
    /// Unsigned 128-bit integer (0x000A, rarely used).
    Uint128,
    /// UTF-16LE string (0xFFFF).
    String,
    /// Unknown type code.
    Unknown(u16),
}

/// The variant that a raw code denotes: the named variant for a code of
/// the table above, `Unknown(code)` for any other code.
pub open spec fn property_data_type_from_code(code: u16) -> PropertyDataType {
    if code == 0x0000 {
        PropertyDataType::Undefined
    } else if code == 0x0001 {
        PropertyDataType::Int8
    } else if code == 0x0002 {
        PropertyDataType::Uint8
    } else if code == 0x0003 {
        PropertyDataType::Int16
    } else if code == 0x0004 {
        PropertyDataType::Uint16
    } else if code == 0x0005 {
        PropertyDataType::Int32
    } else if code == 0x0006 {
        PropertyDataType::Uint32
    } else if code == 0x0007 {
        PropertyDataType::Int64
    } else if code == 0x0008 {
        PropertyDataType::Uint64
    } else if code == 0x0009 {
        PropertyDataType::Int128
    } else if code == 0x000A {
        PropertyDataType::Uint128
    } else if code == 0xFFFF {
        PropertyDataType::String
    } else {
        PropertyDataType::Unknown(code)
    }
}

/// The raw code of a variant.
pub open spec fn property_data_type_to_code(v: PropertyDataType) -> u16 {
    match v {
        PropertyDataType::Undefined => 0x0000,
        PropertyDataType::Int8 => 0x0001,
        PropertyDataType::Uint8 => 0x0002,
        PropertyDataType::Int16 => 0x0003,
        PropertyDataType::Uint16 => 0x0004,
        PropertyDataType::Int32 => 0x0005,
        PropertyDataType::Uint32 => 0x0006,
        PropertyDataType::Int64 => 0x0007,
        PropertyDataType::Uint64 => 0x0008,
        PropertyDataType::Int128 => 0x0009,
        PropertyDataType::Uint128 => 0x000A,
        PropertyDataType::String => 0xFFFF,
        PropertyDataType::Unknown(code) => code,
    }
}

impl PropertyDataType {
    /// Convert a raw u16 code to a PropertyDataType.
    pub fn from_code(code: u16) -> (r: Self)
        ensures
            r == property_data_type_from_code(code),
    {
        match code {
            0x0000 => PropertyDataType::Undefined,
            0x0001 => PropertyDataType::Int8,
            0x0002 => PropertyDataType::Uint8,
            0x0003 => PropertyDataType::Int16,
            0x0004 => PropertyDataType::Uint16,
            0x0005 => PropertyDataType::Int32,
            0x0006 => PropertyDataType::Uint32,
            0x0007 => PropertyDataType::Int64,
            0x0008 => PropertyDataType::Uint64,
            0x0009 => PropertyDataType::Int128,
            0x000A => PropertyDataType::Uint128,
            0xFFFF => PropertyDataType::String,
            _ => PropertyDataType::Unknown(code),
        }
    }

    /// Convert a PropertyDataType to its raw u16 value.
    pub fn to_code(self) -> (r: u16)
        ensures
            r == property_data_type_to_code(self),
    {
        match self {
            PropertyDataType::Undefined => 0x0000,
            PropertyDataType::Int8 => 0x0001,
            PropertyDataType::Uint8 => 0x0002,
            PropertyDataType::Int16 => 0x0003,
            PropertyDataType::Uint16 => 0x0004,
            PropertyDataType::Int32 => 0x0005,
            PropertyDataType::Uint32 => 0x0006,
            PropertyDataType::Int64 => 0x0007,
            PropertyDataType::Uint64 => 0x0008,
            PropertyDataType::Int128 => 0x0009,
            PropertyDataType::Uint128 => 0x000A,
            PropertyDataType::String => 0xFFFF,
            PropertyDataType::Unknown(code) => code,
        }
    }
}

/// Converting a raw code to a `PropertyDataType` and back gives the same code.
pub proof fn lemma_property_data_type_code_roundtrip(code: u16)
    ensures
        property_data_type_to_code(property_data_type_from_code(code)) == code,
{
}

/// A named variant, or an `Unknown` code outside the table, converts to its
/// raw code and back to itself.
pub proof fn lemma_property_data_type_value_roundtrip(v: PropertyDataType)
    requires
        v matches PropertyDataType::Unknown(c) ==> property_data_type_from_code(c) is Unknown,
    ensures
        property_data_type_from_code(property_data_type_to_code(v)) == v,
{
}

/// Standard PTP device property codes (0x5000 range).
///
/// These codes identify device-level properties that can be read or modified
/// using the GetDevicePropDesc, GetDevicePropValue, SetDevicePropValue, and
/// ResetDevicePropValue operations.
#[derive(Debug, Clone, Copy, PartialEq, Eq, Structural, Hash)]
pub enum DevicePropertyCode {
    /// Undefined property.
    Undefined,
    /// Battery level (UINT8, 0-100 percent).
    BatteryLevel,
    /// Device functional mode (UINT16).
    FunctionalMode,
    /// Image size setting (String, e.g., "1920x1080").
    ImageSize,
    /// Compression setting (UINT8).
    CompressionSetting,
    /// White balance (UINT16).
    WhiteBalance,
    /// RGB gain (String).
    RgbGain,
    /// F-Number/Aperture (UINT16, value/100 = f-stop).
    FNumber,
    /// Focal length (UINT32, units of 0.01mm).
    FocalLength,
    /// Focus distance (UINT16, mm).
    FocusDistance,
    /// Focus mode (UINT16).
    FocusMode,
    /// Exposure metering mode (UINT16).
    ExposureMeteringMode,
    /// Flash mode (UINT16).
    FlashMode,
    /// Exposure time/shutter speed (UINT32, units of 0.0001s).
    ExposureTime,
    /// Exposure program mode (UINT16).
    ExposureProgramMode,
    /// Exposure index/ISO (UINT16).
    ExposureIndex,
    /// Exposure bias compensation (INT16, units of 0.001 EV).
    ExposureBiasCompensation,
    /// Date and time (String, "YYYYMMDDThhmmss").
    DateTime,
    /// Capture delay (UINT32, ms).
    CaptureDelay,
    /// Still capture mode (UINT16).
    StillCaptureMode,
    /// Contrast (UINT8).
    Contrast,
    /// Sharpness (UINT8).
    Sharpness,
    /// Digital zoom (UINT8).
    DigitalZoom,
    /// Effect mode (UINT16).
    EffectMode,
    /// Burst number (UINT16).
    BurstNumber,
    /// Burst interval (UINT16, ms).
    BurstInterval,
    /// Timelapse number (UINT16).
    TimelapseNumber,
    /// Timelapse interval (UINT32, ms).
    TimelapseInterval,
    /// Focus metering mode (UINT16).
    FocusMeteringMode,
    /// Upload URL (String).
    UploadUrl,
    /// Artist name (String).
    Artist,
    /// Copyright info (String).
    CopyrightInfo,
    /// Unknown/vendor-specific property code.
    Unknown(u16),
}

/// The variant that a raw code denotes: the named variant for a code of
/// the table above, `Unknown(code)` for any other code.
pub open spec fn device_property_code_from_code(code: u16) -> DevicePropertyCode {
    if code == 0x5000 {
        DevicePropertyCode::Undefined
    } else if code == 0x5001 {
        DevicePropertyCode::BatteryLevel
    } else if code == 0x5002 {
        DevicePropertyCode::FunctionalMode
    } else if code == 0x5003 {
        DevicePropertyCode::ImageSize
    } else if code == 0x5004 {
        DevicePropertyCode::CompressionSetting
    } else if code == 0x5005 {
        DevicePropertyCode::WhiteBalance
    } else if code == 0x5006 {
        DevicePropertyCode::RgbGain
    } else if code == 0x5007 {
        DevicePropertyCode::FNumber
    } else if code == 0x5008 {
        DevicePropertyCode::FocalLength
    } else if code == 0x5009 {
        DevicePropertyCode::FocusDistance
    } else if code == 0x500A {
        DevicePropertyCode::FocusMode
    } else if code == 0x500B {
        DevicePropertyCode::ExposureMeteringMode
    } else if code == 0x500C {
        DevicePropertyCode::FlashMode
    } else if code == 0x500D {
        DevicePropertyCode::ExposureTime
    } else if code == 0x500E {
        DevicePropertyCode::ExposureProgramMode
    } else if code == 0x500F {
        DevicePropertyCode::ExposureIndex
    } else if code == 0x5010 {
        DevicePropertyCode::ExposureBiasCompensation
    } else if code == 0x5011 {
        DevicePropertyCode::DateTime
    } else if code == 0x5012 {
        DevicePropertyCode::CaptureDelay
    } else if code == 0x5013 {
        DevicePropertyCode::StillCaptureMode
    } else if code == 0x5014 {
        DevicePropertyCode::Contrast
    } else if code == 0x5015 {
        DevicePropertyCode::Sharpness
    } else if code == 0x5016 {
        DevicePropertyCode::DigitalZoom
    } else if code == 0x5017 {
        DevicePropertyCode::EffectMode
    } else if code == 0x5018 {
        DevicePropertyCode::BurstNumber
    } else if code == 0x5019 {
        DevicePropertyCode::BurstInterval
    } else if code == 0x501A {
        DevicePropertyCode::TimelapseNumber
    } else if code == 0x501B {
        DevicePropertyCode::TimelapseInterval
    } else if code == 0x501C {
        DevicePropertyCode::FocusMeteringMode
    } else if code == 0x501D {
        DevicePropertyCode::UploadUrl
    } else if code == 0x501E {
        DevicePropertyCode::Artist
    } else if code == 0x501F {
        DevicePropertyCode::CopyrightInfo
    } else {
        DevicePropertyCode::Unknown(code)
    }
}

/// The raw code of a variant.
pub open spec fn device_property_code_to_code(v: DevicePropertyCode) -> u16 {
    match v {
        DevicePropertyCode::Undefined => 0x5000,
        DevicePropertyCode::BatteryLevel => 0x5001,
        DevicePropertyCode::FunctionalMode => 0x5002,
        DevicePropertyCode::ImageSize => 0x5003,
        DevicePropertyCode::CompressionSetting => 0x5004,
        DevicePropertyCode::WhiteBalance => 0x5005,
        DevicePropertyCode::RgbGain => 0x5006,
        DevicePropertyCode::FNumber => 0x5007,
        DevicePropertyCode::FocalLength => 0x5008,
        DevicePropertyCode::FocusDistance => 0x5009,
        DevicePropertyCode::FocusMode => 0x500A,
        DevicePropertyCode::ExposureMeteringMode => 0x500B,
        DevicePropertyCode::FlashMode => 0x500C,
        DevicePropertyCode::ExposureTime => 0x500D,
        DevicePropertyCode::ExposureProgramMode => 0x500E,
        DevicePropertyCode::ExposureIndex => 0x500F,
        DevicePropertyCode::ExposureBiasCompensation => 0x5010,
        DevicePropertyCode::DateTime => 0x5011,
        DevicePropertyCode::CaptureDelay => 0x5012,
        DevicePropertyCode::StillCaptureMode => 0x5013,
        DevicePropertyCode::Contrast => 0x5014,
        DevicePropertyCode::Sharpness => 0x5015,
        DevicePropertyCode::DigitalZoom => 0x5016,
        DevicePropertyCode::EffectMode => 0x5017,
        DevicePropertyCode::BurstNumber => 0x5018,
        DevicePropertyCode::BurstInterval => 0x5019,
        DevicePropertyCode::TimelapseNumber => 0x501A,
        DevicePropertyCode::TimelapseInterval => 0x501B,
        DevicePropertyCode::FocusMeteringMode => 0x501C,
        DevicePropertyCode::UploadUrl => 0x501D,
        DevicePropertyCode::Artist => 0x501E,
        DevicePropertyCode::CopyrightInfo => 0x501F,
        DevicePropertyCode::Unknown(code) => code,
    }
}

impl DevicePropertyCode {
    /// Convert a raw u16 code to a DevicePropertyCode.
    pub fn from_code(code: u16) -> (r: Self)
        ensures
            r == device_property_code_from_code(code),
    {
        match code {
            0x5000 => DevicePropertyCode::Undefined,
            0x5001 => DevicePropertyCode::BatteryLevel,
            0x5002 => DevicePropertyCode::FunctionalMode,
            0x5003 => DevicePropertyCode::ImageSize,
            0x5004 => DevicePropertyCode::CompressionSetting,
            0x5005 => DevicePropertyCode::WhiteBalance,
            0x5006 => DevicePropertyCode::RgbGain,
            0x5007 => DevicePropertyCode::FNumber,
            0x5008 => DevicePropertyCode::FocalLength,
            0x5009 => DevicePropertyCode::FocusDistance,
            0x500A => DevicePropertyCode::FocusMode,
            0x500B => DevicePropertyCode::ExposureMeteringMode,
            0x500C => DevicePropertyCode::FlashMode,
            0x500D => DevicePropertyCode::ExposureTime,
            0x500E => DevicePropertyCode::ExposureProgramMode,
            0x500F => DevicePropertyCode::ExposureIndex,
            0x5010 => DevicePropertyCode::ExposureBiasCompensation,
            0x5011 => DevicePropertyCode::DateTime,
            0x5012 => DevicePropertyCode::CaptureDelay,
            0x5013 => DevicePropertyCode::StillCaptureMode,
            0x5014 => DevicePropertyCode::Contrast,
            0x5015 => DevicePropertyCode::Sharpness,
            0x5016 => DevicePropertyCode::DigitalZoom,
            0x5017 => DevicePropertyCode::EffectMode,
            0x5018 => DevicePropertyCode::BurstNumber,
            0x5019 => DevicePropertyCode::BurstInterval,
            0x501A => DevicePropertyCode::TimelapseNumber,
            0x501B => DevicePropertyCode::TimelapseInterval,
            0x501C => DevicePropertyCode::FocusMeteringMode,
            0x501D => DevicePropertyCode::UploadUrl,
            0x501E => DevicePropertyCode::Artist,
            0x501F => DevicePropertyCode::CopyrightInfo,
            _ => DevicePropertyCode::Unknown(code),
        }
    }

    /// Convert a DevicePropertyCode to its raw u16 value.
    pub fn to_code(self) -> (r: u16)
        ensures
            r == device_property_code_to_code(self),
    {
        match self {
            DevicePropertyCode::Undefined => 0x5000,
            DevicePropertyCode::BatteryLevel => 0x5001,
            DevicePropertyCode::FunctionalMode => 0x5002,
            DevicePropertyCode::ImageSize => 0x5003,
            DevicePropertyCode::CompressionSetting => 0x5004,
            DevicePropertyCode::WhiteBalance => 0x5005,
            DevicePropertyCode::RgbGain => 0x5006,
            DevicePropertyCode::FNumber => 0x5007,
            DevicePropertyCode::FocalLength => 0x5008,
            DevicePropertyCode::FocusDistance => 0x5009,
            DevicePropertyCode::FocusMode => 0x500A,
            DevicePropertyCode::ExposureMeteringMode => 0x500B,
            DevicePropertyCode::FlashMode => 0x500C,
            DevicePropertyCode::ExposureTime => 0x500D,
            DevicePropertyCode::ExposureProgramMode => 0x500E,
            DevicePropertyCode::ExposureIndex => 0x500F,
            DevicePropertyCode::ExposureBiasCompensation => 0x5010,
            DevicePropertyCode::DateTime => 0x5011,
            DevicePropertyCode::CaptureDelay => 0x5012,
            DevicePropertyCode::StillCaptureMode => 0x5013,
            DevicePropertyCode::Contrast => 0x5014,
            DevicePropertyCode::Sharpness => 0x5015,
            DevicePropertyCode::DigitalZoom => 0x5016,
            DevicePropertyCode::EffectMode => 0x5017,
            DevicePropertyCode::BurstNumber => 0x5018,
            DevicePropertyCode::BurstInterval => 0x5019,
            DevicePropertyCode::TimelapseNumber => 0x501A,
            DevicePropertyCode::TimelapseInterval => 0x501B,
            DevicePropertyCode::FocusMeteringMode => 0x501C,
            DevicePropertyCode::UploadUrl => 0x501D,
            DevicePropertyCode::Artist => 0x501E,
            DevicePropertyCode::CopyrightInfo => 0x501F,
            DevicePropertyCode::Unknown(code) => code,
        }
    }
}

/// Converting a raw code to a `DevicePropertyCode` and back gives the same code.
pub proof fn lemma_device_property_code_code_roundtrip(code: u16)
    ensures
        device_property_code_to_code(device_property_code_from_code(code)) == code,
{
}

/// A named variant, or an `Unknown` code outside the table, converts to its
/// raw code and back to itself.
pub proof fn lemma_device_property_code_value_roundtrip(v: DevicePropertyCode)
    requires
        v matches DevicePropertyCode::Unknown(c) ==> device_property_code_from_code(c) is Unknown,
    ensures
        device_property_code_from_code(device_property_code_to_code(v)) == v,
{
}

/// The format that a lowercase file extension denotes; `Undefined` for an
/// extension outside the table.
pub open spec fn format_for_extension(e: Seq<char>) -> ObjectFormatCode {
    if e == "txt"@ {
        ObjectFormatCode::Text
    } else if e == "html"@ || e == "htm"@ {
        ObjectFormatCode::Html
    } else if e == "dpof"@ {
        ObjectFormatCode::Dpof
    } else if e == "aiff"@ || e == "aif"@ {
        ObjectFormatCode::Aiff
    } else if e == "wav"@ {
        ObjectFormatCode::Wav
    } else if e == "mp3"@ {
        ObjectFormatCode::Mp3
    } else if e == "wma"@ {
        ObjectFormatCode::WmaAudio
    } else if e == "ogg"@ || e == "oga"@ {
        ObjectFormatCode::OggAudio
    } else if e == "aac"@ {
        ObjectFormatCode::AacAudio
    } else if e == "flac"@ {
        ObjectFormatCode::FlacAudio
    } else if e == "m4a"@ {
        ObjectFormatCode::M4aAudio
    } else if e == "avi"@ {
        ObjectFormatCode::Avi
    } else if e == "mpg"@ || e == "mpeg"@ {
        ObjectFormatCode::Mpeg
    } else if e == "asf"@ {
        ObjectFormatCode::Asf
    } else if e == "wmv"@ {
        ObjectFormatCode::WmvVideo
    } else if e == "mp4"@ || e == "m4v"@ {
        ObjectFormatCode::Mp4Container
    } else if e == "jpg"@ || e == "jpeg"@ {
        ObjectFormatCode::Jpeg
    } else if e == "tif"@ || e == "tiff"@ {
        ObjectFormatCode::Tiff
    } else if e == "gif"@ {
        ObjectFormatCode::Gif
    } else if e == "bmp"@ {
        ObjectFormatCode::Bmp
    } else if e == "pict"@ || e == "pct"@ {
        ObjectFormatCode::Pict
    } else if e == "png"@ {
        ObjectFormatCode::Png
    } else if e == "exe"@ || e == "dll"@ || e == "bin"@ {
        ObjectFormatCode::Executable
    } else if e == "sh"@ || e == "bat"@ || e == "cmd"@ || e == "ps1"@ {
        ObjectFormatCode::Script
    } else {
        ObjectFormatCode::Undefined
    }
}

impl ObjectFormatCode {
    /// Detect object format from an extension that is already in lowercase.
    ///
    /// Returns `Undefined` for unrecognized extensions.
    pub fn from_lowercase_extension(ext: &str) -> (r: Self)
        ensures
            r == format_for_extension(ext@),
    {
        let e = chars_of(ext);
        if chars_eq_str(e.as_slice(), "txt") {
            ObjectFormatCode::Text
        } else if chars_eq_str(e.as_slice(), "html") || chars_eq_str(e.as_slice(), "htm") {
            ObjectFormatCode::Html
        } else if chars_eq_str(e.as_slice(), "dpof") {
            ObjectFormatCode::Dpof
        } else if chars_eq_str(e.as_slice(), "aiff") || chars_eq_str(e.as_slice(), "aif") {
            ObjectFormatCode::Aiff
        } else if chars_eq_str(e.as_slice(), "wav") {
            ObjectFormatCode::Wav
        } else if chars_eq_str(e.as_slice(), "mp3") {
            ObjectFormatCode::Mp3
        } else if chars_eq_str(e.as_slice(), "wma") {
            ObjectFormatCode::WmaAudio
        } else if chars_eq_str(e.as_slice(), "ogg") || chars_eq_str(e.as_slice(), "oga") {
            ObjectFormatCode::OggAudio
        } else if chars_eq_str(e.as_slice(), "aac") {
            ObjectFormatCode::AacAudio
        } else if chars_eq_str(e.as_slice(), "flac") {
            ObjectFormatCode::FlacAudio
        } else if chars_eq_str(e.as_slice(), "m4a") {
            ObjectFormatCode::M4aAudio
        } else if chars_eq_str(e.as_slice(), "avi") {
            ObjectFormatCode::Avi
        } else if chars_eq_str(e.as_slice(), "mpg") || chars_eq_str(e.as_slice(), "mpeg") {
            ObjectFormatCode::Mpeg
        } else if chars_eq_str(e.as_slice(), "asf") {
            ObjectFormatCode::Asf
        } else if chars_eq_str(e.as_slice(), "wmv") {
            ObjectFormatCode::WmvVideo
        } else if chars_eq_str(e.as_slice(), "mp4") || chars_eq_str(e.as_slice(), "m4v") {
            ObjectFormatCode::Mp4Container
        } else if chars_eq_str(e.as_slice(), "jpg") || chars_eq_str(e.as_slice(), "jpeg") {
            ObjectFormatCode::Jpeg
        } else if chars_eq_str(e.as_slice(), "tif") || chars_eq_str(e.as_slice(), "tiff") {
            ObjectFormatCode::Tiff
        } else if chars_eq_str(e.as_slice(), "gif") {
            ObjectFormatCode::Gif
        } else if chars_eq_str(e.as_slice(), "bmp") {
            ObjectFormatCode::Bmp
        } else if chars_eq_str(e.as_slice(), "pict") || chars_eq_str(e.as_slice(), "pct") {
            ObjectFormatCode::Pict
        } else if chars_eq_str(e.as_slice(), "png") {
            ObjectFormatCode::Png
        } else if chars_eq_str(e.as_slice(), "exe") || chars_eq_str(e.as_slice(), "dll") || chars_eq_str(e.as_slice(), "bin") {
            ObjectFormatCode::Executable
        } else if chars_eq_str(e.as_slice(), "sh") || chars_eq_str(e.as_slice(), "bat") || chars_eq_str(e.as_slice(), "cmd") || chars_eq_str(e.as_slice(), "ps1") {
            ObjectFormatCode::Script
        } else {
            ObjectFormatCode::Undefined
        }
    }

    /// Detect object format from file extension (case insensitive): the
    /// extension is lowercased with `str::to_lowercase`, then looked up.
    ///
    /// Returns `Undefined` for unrecognized extensions.
    pub fn from_extension(ext: &str) -> (r: Self)
        ensures
            r == format_for_extension(unicode_lowercase(ext@)),
    {
        let lower = to_lowercase(ext);
        Self::from_lowercase_extension(lower.as_str())
    }
}

/// Extension lookup is case insensitive: two extensions with the same
/// lowercase form denote the same format.
pub proof fn lemma_from_extension_case_insensitive(a: Seq<char>, b: Seq<char>)
    requires
        unicode_lowercase(a) == unicode_lowercase(b),
    ensures
        format_for_extension(unicode_lowercase(a)) == format_for_extension(unicode_lowercase(b)),
{
}

/// Audio formats.
pub open spec fn format_is_audio(f: ObjectFormatCode) -> bool {
    match f {
        ObjectFormatCode::Aiff
        | ObjectFormatCode::Wav
        | ObjectFormatCode::Mp3
        | ObjectFormatCode::WmaAudio
        | ObjectFormatCode::OggAudio
        | ObjectFormatCode::AacAudio
        | ObjectFormatCode::FlacAudio
        | ObjectFormatCode::M4aAudio => true,
        _ => false,
    }
}

/// Video formats.
pub open spec fn format_is_video(f: ObjectFormatCode) -> bool {
    match f {
        ObjectFormatCode::Avi
        | ObjectFormatCode::Mpeg
        | ObjectFormatCode::Asf
        | ObjectFormatCode::WmvVideo
        | ObjectFormatCode::Mp4Container => true,
        _ => false,
    }
}

/// Image formats.
pub open spec fn format_is_image(f: ObjectFormatCode) -> bool {
    match f {
        ObjectFormatCode::Jpeg
        | ObjectFormatCode::Tiff
        | ObjectFormatCode::Gif
        | ObjectFormatCode::Bmp
        | ObjectFormatCode::Pict
        | ObjectFormatCode::Png => true,
        _ => false,
    }
}

impl ObjectFormatCode {
    /// Check if this format is an audio format.
    pub fn is_audio(&self) -> (r: bool)
        ensures
            r == format_is_audio(*self),
    {
        matches!(
            self,
            ObjectFormatCode::Aiff | ObjectFormatCode::Wav | ObjectFormatCode::Mp3
                | ObjectFormatCode::WmaAudio | ObjectFormatCode::OggAudio
                | ObjectFormatCode::AacAudio | ObjectFormatCode::FlacAudio
                | ObjectFormatCode::M4aAudio
        )
    }

    /// Check if this format is a video format.
    pub fn is_video(&self) -> (r: bool)
        ensures
            r == format_is_video(*self),
    {
        matches!(
            self,
            ObjectFormatCode::Avi | ObjectFormatCode::Mpeg | ObjectFormatCode::Asf
                | ObjectFormatCode::WmvVideo | ObjectFormatCode::Mp4Container
        )
    }

    /// Check if this format is an image format.
    pub fn is_image(&self) -> (r: bool)
        ensures
            r == format_is_image(*self),
    {
        matches!(
            self,
            ObjectFormatCode::Jpeg | ObjectFormatCode::Tiff | ObjectFormatCode::Gif
                | ObjectFormatCode::Bmp | ObjectFormatCode::Pict | ObjectFormatCode::Png
        )
    }
}

/// No format is in more than one of the audio, video and image categories.
pub proof fn lemma_format_categories_exclusive(f: ObjectFormatCode)
    ensures
        !(format_is_audio(f) && format_is_video(f)),
        !(format_is_audio(f) && format_is_image(f)),
        !(format_is_video(f) && format_is_image(f)),
{
}

/// Byte size of a fixed-size data type; `None` for strings, `Undefined` and
/// unknown types.
pub open spec fn data_type_byte_size(t: PropertyDataType) -> Option<usize> {
    match t {
        PropertyDataType::Int8 | PropertyDataType::Uint8 => Some(1),
        PropertyDataType::Int16 | PropertyDataType::Uint16 => Some(2),
        PropertyDataType::Int32 | PropertyDataType::Uint32 => Some(4),
        PropertyDataType::Int64 | PropertyDataType::Uint64 => Some(8),
        PropertyDataType::Int128 | PropertyDataType::Uint128 => Some(16),
        PropertyDataType::String | PropertyDataType::Undefined | PropertyDataType::Unknown(_) => None,
    }
}

impl PropertyDataType {
    /// Returns the byte size of this data type.
    ///
    /// Returns `None` for the variable-length `String` type and for
    /// `Undefined` and `Unknown` types.
    pub fn byte_size(&self) -> (r: Option<usize>)
        ensures
            r == data_type_byte_size(*self),
    {
        match self {
            PropertyDataType::Int8 | PropertyDataType::Uint8 => Some(1),
            PropertyDataType::Int16 | PropertyDataType::Uint16 => Some(2),
            PropertyDataType::Int32 | PropertyDataType::Uint32 => Some(4),
            PropertyDataType::Int64 | PropertyDataType::Uint64 => Some(8),
            PropertyDataType::Int128 | PropertyDataType::Uint128 => Some(16),
            PropertyDataType::String
            | PropertyDataType::Undefined
            | PropertyDataType::Unknown(_) => None,
        }
    }
}

/// The table of operation codes that the standard fixes: each named variant
/// has its code, and that code reads back as the variant.
pub proof fn lemma_operation_code_table()
    ensures
        operation_code_to_code(OperationCode::GetDeviceInfo) == 0x1001,
        operation_code_from_code(0x1001) == OperationCode::GetDeviceInfo,
        operation_code_to_code(OperationCode::OpenSession) == 0x1002,
        operation_code_from_code(0x1002) == OperationCode::OpenSession,
        operation_code_to_code(OperationCode::CloseSession) == 0x1003,
        operation_code_from_code(0x1003) == OperationCode::CloseSession,
        operation_code_to_code(OperationCode::GetStorageIds) == 0x1004,
        operation_code_from_code(0x1004) == OperationCode::GetStorageIds,
        operation_code_to_code(OperationCode::GetStorageInfo) == 0x1005,
        operation_code_from_code(0x1005) == OperationCode::GetStorageInfo,
        operation_code_to_code(OperationCode::GetNumObjects) == 0x1006,
        operation_code_from_code(0x1006) == OperationCode::GetNumObjects,
        operation_code_to_code(OperationCode::GetObjectHandles) == 0x1007,
        operation_code_from_code(0x1007) == OperationCode::GetObjectHandles,
        operation_code_to_code(OperationCode::GetObjectInfo) == 0x1008,
        operation_code_from_code(0x1008) == OperationCode::GetObjectInfo,
        operation_code_to_code(OperationCode::GetObject) == 0x1009,
        operation_code_from_code(0x1009) == OperationCode::GetObject,
        operation_code_to_code(OperationCode::GetThumb) == 0x100A,
        operation_code_from_code(0x100A) == OperationCode::GetThumb,
        operation_code_to_code(OperationCode::DeleteObject) == 0x100B,
        operation_code_from_code(0x100B) == OperationCode::DeleteObject,
        operation_code_to_code(OperationCode::SendObjectInfo) == 0x100C,
        operation_code_from_code(0x100C) == OperationCode::SendObjectInfo,
        operation_code_to_code(OperationCode::SendObject) == 0x100D,
        operation_code_from_code(0x100D) == OperationCode::SendObject,
        operation_code_to_code(OperationCode::InitiateCapture) == 0x100E,
        operation_code_from_code(0x100E) == OperationCode::InitiateCapture,
        operation_code_to_code(OperationCode::GetDevicePropDesc) == 0x1014,
        operation_code_from_code(0x1014) == OperationCode::GetDevicePropDesc,
        operation_code_to_code(OperationCode::GetDevicePropValue) == 0x1015,
        operation_code_from_code(0x1015) == OperationCode::GetDevicePropValue,
        operation_code_to_code(OperationCode::SetDevicePropValue) == 0x1016,
        operation_code_from_code(0x1016) == OperationCode::SetDevicePropValue,
        operation_code_to_code(OperationCode::ResetDevicePropValue) == 0x1017,
        operation_code_from_code(0x1017) == OperationCode::ResetDevicePropValue,
        operation_code_to_code(OperationCode::MoveObject) == 0x1019,
        operation_code_from_code(0x1019) == OperationCode::MoveObject,
        operation_code_to_code(OperationCode::CopyObject) == 0x101A,
        operation_code_from_code(0x101A) == OperationCode::CopyObject,
        operation_code_to_code(OperationCode::GetPartialObject) == 0x101B,
        operation_code_from_code(0x101B) == OperationCode::GetPartialObject,
        operation_code_to_code(OperationCode::GetObjectPropValue) == 0x9803,
        operation_code_from_code(0x9803) == OperationCode::GetObjectPropValue,
        operation_code_to_code(OperationCode::SetObjectPropValue) == 0x9804,
        operation_code_from_code(0x9804) == OperationCode::SetObjectPropValue,
{
}

/// The table of response codes that the standard fixes: each named variant
/// has its code, and that code reads back as the variant.
pub proof fn lemma_response_code_table()
    ensures
        response_code_to_code(ResponseCode::Success) == 0x2001,
        response_code_from_code(0x2001) == ResponseCode::Success,
        response_code_to_code(ResponseCode::GeneralError) == 0x2002,
        response_code_from_code(0x2002) == ResponseCode::GeneralError,
        response_code_to_code(ResponseCode::SessionNotOpen) == 0x2003,
        response_code_from_code(0x2003) == ResponseCode::SessionNotOpen,
        response_code_to_code(ResponseCode::InvalidTransactionId) == 0x2004,
        response_code_from_code(0x2004) == ResponseCode::InvalidTransactionId,
        response_code_to_code(ResponseCode::OperationNotSupported) == 0x2005,
        response_code_from_code(0x2005) == ResponseCode::OperationNotSupported,
        response_code_to_code(ResponseCode::ParameterNotSupported) == 0x2006,
        response_code_from_code(0x2006) == ResponseCode::ParameterNotSupported,
        response_code_to_code(ResponseCode::IncompleteTransfer) == 0x2007,
        response_code_from_code(0x2007) == ResponseCode::IncompleteTransfer,
        response_code_to_code(ResponseCode::InvalidStorageId) == 0x2008,
        response_code_from_code(0x2008) == ResponseCode::InvalidStorageId,
        response_code_to_code(ResponseCode::InvalidObjectHandle) == 0x2009,
        response_code_from_code(0x2009) == ResponseCode::InvalidObjectHandle,
        response_code_to_code(ResponseCode::DevicePropNotSupported) == 0x200A,
        response_code_from_code(0x200A) == ResponseCode::DevicePropNotSupported,
        response_code_to_code(ResponseCode::InvalidObjectFormatCode) == 0x200B,
        response_code_from_code(0x200B) == ResponseCode::InvalidObjectFormatCode,
        response_code_to_code(ResponseCode::StoreFull) == 0x200C,
        response_code_from_code(0x200C) == ResponseCode::StoreFull,
        response_code_to_code(ResponseCode::ObjectWriteProtected) == 0x200D,
        response_code_from_code(0x200D) == ResponseCode::ObjectWriteProtected,
        response_code_to_code(ResponseCode::StoreReadOnly) == 0x200E,
        response_code_from_code(0x200E) == ResponseCode::StoreReadOnly,
        response_code_to_code(ResponseCode::AccessDenied) == 0x200F,
        response_code_from_code(0x200F) == ResponseCode::AccessDenied,
        response_code_to_code(ResponseCode::NoThumbnailPresent) == 0x2010,
        response_code_from_code(0x2010) == ResponseCode::NoThumbnailPresent,
        response_code_to_code(ResponseCode::DeviceBusy) == 0x2019,
        response_code_from_code(0x2019) == ResponseCode::DeviceBusy,
        response_code_to_code(ResponseCode::InvalidParentObject) == 0x201A,
        response_code_from_code(0x201A) == ResponseCode::InvalidParentObject,
        response_code_to_code(ResponseCode::InvalidDevicePropFormat) == 0x201B,
        response_code_from_code(0x201B) == ResponseCode::InvalidDevicePropFormat,
        response_code_to_code(ResponseCode::InvalidDevicePropValue) == 0x201C,
        response_code_from_code(0x201C) == ResponseCode::InvalidDevicePropValue,
        response_code_to_code(ResponseCode::InvalidParameter) == 0x201D,
        response_code_from_code(0x201D) == ResponseCode::InvalidParameter,
        response_code_to_code(ResponseCode::SessionAlreadyOpen) == 0x201E,
        response_code_from_code(0x201E) == ResponseCode::SessionAlreadyOpen,
        response_code_to_code(ResponseCode::TransactionCancelled) == 0x201F,
        response_code_from_code(0x201F) == ResponseCode::TransactionCancelled,
        response_code_to_code(ResponseCode::ObjectTooLarge) == 0xA809,
        response_code_from_code(0xA809) == ResponseCode::ObjectTooLarge,
{
}

/// The table of event codes that the standard fixes: each named variant
/// has its code, and that code reads back as the variant.
pub proof fn lemma_event_code_table()
    ensures
        event_code_to_code(EventCode::ObjectAdded) == 0x4002,
        event_code_from_code(0x4002) == EventCode::ObjectAdded,
        event_code_to_code(EventCode::ObjectRemoved) == 0x4003,
        event_code_from_code(0x4003) == EventCode::ObjectRemoved,
        event_code_to_code(EventCode::StoreAdded) == 0x4004,
        event_code_from_code(0x4004) == EventCode::StoreAdded,
        event_code_to_code(EventCode::StoreRemoved) == 0x4005,
        event_code_from_code(0x4005) == EventCode::StoreRemoved,
        event_code_to_code(EventCode::DevicePropChanged) == 0x4006,
        event_code_from_code(0x4006) == EventCode::DevicePropChanged,
        event_code_to_code(EventCode::ObjectInfoChanged) == 0x4007,
        event_code_from_code(0x4007) == EventCode::ObjectInfoChanged,
        event_code_to_code(EventCode::DeviceInfoChanged) == 0x4008,
        event_code_from_code(0x4008) == EventCode::DeviceInfoChanged,
        event_code_to_code(EventCode::StorageInfoChanged) == 0x400C,
        event_code_from_code(0x400C) == EventCode::StorageInfoChanged,
        event_code_to_code(EventCode::CaptureComplete) == 0x400D,
        event_code_from_code(0x400D) == EventCode::CaptureComplete,
{
}

/// The table of object format codes that the standard fixes: each named variant
/// has its code, and that code reads back as the variant.
pub proof fn lemma_object_format_code_table()
    ensures
        object_format_code_to_code(ObjectFormatCode::Undefined) == 0x3000,
        object_format_code_from_code(0x3000) == ObjectFormatCode::Undefined,
        object_format_code_to_code(ObjectFormatCode::Association) == 0x3001,
        object_format_code_from_code(0x3001) == ObjectFormatCode::Association,
        object_format_code_to_code(ObjectFormatCode::Script) == 0x3002,
        object_format_code_from_code(0x3002) == ObjectFormatCode::Script,
        object_format_code_to_code(ObjectFormatCode::Executable) == 0x3003,
        object_format_code_from_code(0x3003) == ObjectFormatCode::Executable,
        object_format_code_to_code(ObjectFormatCode::Text) == 0x3004,
        object_format_code_from_code(0x3004) == ObjectFormatCode::Text,
        object_format_code_to_code(ObjectFormatCode::Html) == 0x3005,
        object_format_code_from_code(0x3005) == ObjectFormatCode::Html,
        object_format_code_to_code(ObjectFormatCode::Dpof) == 0x3006,
        object_format_code_from_code(0x3006) == ObjectFormatCode::Dpof,
        object_format_code_to_code(ObjectFormatCode::Aiff) == 0x3007,
        object_format_code_from_code(0x3007) == ObjectFormatCode::Aiff,
        object_format_code_to_code(ObjectFormatCode::Wav) == 0x3008,
        object_format_code_from_code(0x3008) == ObjectFormatCode::Wav,
        object_format_code_to_code(ObjectFormatCode::Mp3) == 0x3009,
        object_format_code_from_code(0x3009) == ObjectFormatCode::Mp3,
        object_format_code_to_code(ObjectFormatCode::Avi) == 0x300A,
        object_format_code_from_code(0x300A) == ObjectFormatCode::Avi,
        object_format_code_to_code(ObjectFormatCode::Mpeg) == 0x300B,
        object_format_code_from_code(0x300B) == ObjectFormatCode::Mpeg,
        object_format_code_to_code(ObjectFormatCode::Asf) == 0x300C,
        object_format_code_from_code(0x300C) == ObjectFormatCode::Asf,
        object_format_code_to_code(ObjectFormatCode::Jpeg) == 0x3801,
        object_format_code_from_code(0x3801) == ObjectFormatCode::Jpeg,
        object_format_code_to_code(ObjectFormatCode::Tiff) == 0x3804,
        object_format_code_from_code(0x3804) == ObjectFormatCode::Tiff,
        object_format_code_to_code(ObjectFormatCode::Gif) == 0x3807,
        object_format_code_from_code(0x3807) == ObjectFormatCode::Gif,
        object_format_code_to_code(ObjectFormatCode::Bmp) == 0x3808,
        object_format_code_from_code(0x3808) == ObjectFormatCode::Bmp,
        object_format_code_to_code(ObjectFormatCode::Pict) == 0x380A,
        object_format_code_from_code(0x380A) == ObjectFormatCode::Pict,
        object_format_code_to_code(ObjectFormatCode::Png) == 0x380B,
        object_format_code_from_code(0x380B) == ObjectFormatCode::Png,
        object_format_code_to_code(ObjectFormatCode::WmaAudio) == 0xB901,
        object_format_code_from_code(0xB901) == ObjectFormatCode::WmaAudio,
        object_format_code_to_code(ObjectFormatCode::OggAudio) == 0xB902,
        object_format_code_from_code(0xB902) == ObjectFormatCode::OggAudio,
        object_format_code_to_code(ObjectFormatCode::AacAudio) == 0xB903,
        object_format_code_from_code(0xB903) == ObjectFormatCode::AacAudio,
        object_format_code_to_code(ObjectFormatCode::FlacAudio) == 0xB906,
        object_format_code_from_code(0xB906) == ObjectFormatCode::FlacAudio,
        object_format_code_to_code(ObjectFormatCode::WmvVideo) == 0xB981,
        object_format_code_from_code(0xB981) == ObjectFormatCode::WmvVideo,
        object_format_code_to_code(ObjectFormatCode::Mp4Container) == 0xB982,
        object_format_code_from_code(0xB982) == ObjectFormatCode::Mp4Container,
        object_format_code_to_code(ObjectFormatCode::M4aAudio) == 0xB984,
        object_format_code_from_code(0xB984) == ObjectFormatCode::M4aAudio,
{
}

/// The table of object property codes that the standard fixes: each named variant
/// has its code, and that code reads back as the variant.
pub proof fn lemma_object_property_code_table()
    ensures
        object_property_code_to_code(ObjectPropertyCode::StorageId) == 0xDC01,
        object_property_code_from_code(0xDC01) == ObjectPropertyCode::StorageId,
        object_property_code_to_code(ObjectPropertyCode::ObjectFormat) == 0xDC02,
        object_property_code_from_code(0xDC02) == ObjectPropertyCode::ObjectFormat,
        object_property_code_to_code(ObjectPropertyCode::ProtectionStatus) == 0xDC03,
        object_property_code_from_code(0xDC03) == ObjectPropertyCode::ProtectionStatus,
        object_property_code_to_code(ObjectPropertyCode::ObjectSize) == 0xDC04,
        object_property_code_from_code(0xDC04) == ObjectPropertyCode::ObjectSize,
        object_property_code_to_code(ObjectPropertyCode::ObjectFileName) == 0xDC07,
        object_property_code_from_code(0xDC07) == ObjectPropertyCode::ObjectFileName,
        object_property_code_to_code(ObjectPropertyCode::DateCreated) == 0xDC08,
        object_property_code_from_code(0xDC08) == ObjectPropertyCode::DateCreated,
        object_property_code_to_code(ObjectPropertyCode::DateModified) == 0xDC09,
        object_property_code_from_code(0xDC09) == ObjectPropertyCode::DateModified,
        object_property_code_to_code(ObjectPropertyCode::ParentObject) == 0xDC0B,
        object_property_code_from_code(0xDC0B) == ObjectPropertyCode::ParentObject,
        object_property_code_to_code(ObjectPropertyCode::Name) == 0xDC44,
        object_property_code_from_code(0xDC44) == ObjectPropertyCode::Name,
{
}

/// The table of property data type codes that the standard fixes: each named variant
/// has its code, and that code reads back as the variant.
pub proof fn lemma_property_data_type_table()
    ensures
        property_data_type_to_code(PropertyDataType::Undefined) == 0x0000,
        property_data_type_from_code(0x0000) == PropertyDataType::Undefined,
        property_data_type_to_code(PropertyDataType::Int8) == 0x0001,
        property_data_type_from_code(0x0001) == PropertyDataType::Int8,
        property_data_type_to_code(PropertyDataType::Uint8) == 0x0002,
        property_data_type_from_code(0x0002) == PropertyDataType::Uint8,
        property_data_type_to_code(PropertyDataType::Int16) == 0x0003,
        property_data_type_from_code(0x0003) == PropertyDataType::Int16,
        property_data_type_to_code(PropertyDataType::Uint16) == 0x0004,
        property_data_type_from_code(0x0004) == PropertyDataType::Uint16,
        property_data_type_to_code(PropertyDataType::Int32) == 0x0005,
        property_data_type_from_code(0x0005) == PropertyDataType::Int32,
        property_data_type_to_code(PropertyDataType::Uint32) == 0x0006,
        property_data_type_from_code(0x0006) == PropertyDataType::Uint32,
        property_data_type_to_code(PropertyDataType::Int64) == 0x0007,
        property_data_type_from_code(0x0007) == PropertyDataType::Int64,
        property_data_type_to_code(PropertyDataType::Uint64) == 0x0008,
        property_data_type_from_code(0x0008) == PropertyDataType::Uint64,
        property_data_type_to_code(PropertyDataType::Int128) == 0x0009,
        property_data_type_from_code(0x0009) == PropertyDataType::Int128,
        property_data_type_to_code(PropertyDataType::Uint128) == 0x000A,
        property_data_type_from_code(0x000A) == PropertyDataType::Uint128,
        property_data_type_to_code(PropertyDataType::String) == 0xFFFF,
        property_data_type_from_code(0xFFFF) == PropertyDataType::String,
{
}

/// The table of device property codes that the standard fixes: each named variant
/// has its code, and that code reads back as the variant.
pub proof fn lemma_device_property_code_table()
    ensures
        device_property_code_to_code(DevicePropertyCode::Undefined) == 0x5000,
        device_property_code_from_code(0x5000) == DevicePropertyCode::Undefined,
        device_property_code_to_code(DevicePropertyCode::BatteryLevel) == 0x5001,
        device_property_code_from_code(0x5001) == DevicePropertyCode::BatteryLevel,
        device_property_code_to_code(DevicePropertyCode::FunctionalMode) == 0x5002,
        device_property_code_from_code(0x5002) == DevicePropertyCode::FunctionalMode,
        device_property_code_to_code(DevicePropertyCode::ImageSize) == 0x5003,
        device_property_code_from_code(0x5003) == DevicePropertyCode::ImageSize,
        device_property_code_to_code(DevicePropertyCode::CompressionSetting) == 0x5004,
        device_property_code_from_code(0x5004) == DevicePropertyCode::CompressionSetting,
        device_property_code_to_code(DevicePropertyCode::WhiteBalance) == 0x5005,
        device_property_code_from_code(0x5005) == DevicePropertyCode::WhiteBalance,
        device_property_code_to_code(DevicePropertyCode::RgbGain) == 0x5006,
        device_property_code_from_code(0x5006) == DevicePropertyCode::RgbGain,
        device_property_code_to_code(DevicePropertyCode::FNumber) == 0x5007,
        device_property_code_from_code(0x5007) == DevicePropertyCode::FNumber,
        device_property_code_to_code(DevicePropertyCode::FocalLength) == 0x5008,
        device_property_code_from_code(0x5008) == DevicePropertyCode::FocalLength,
        device_property_code_to_code(DevicePropertyCode::FocusDistance) == 0x5009,
        device_property_code_from_code(0x5009) == DevicePropertyCode::FocusDistance,
        device_property_code_to_code(DevicePropertyCode::FocusMode) == 0x500A,
        device_property_code_from_code(0x500A) == DevicePropertyCode::FocusMode,
        device_property_code_to_code(DevicePropertyCode::ExposureMeteringMode) == 0x500B,
        device_property_code_from_code(0x500B) == DevicePropertyCode::ExposureMeteringMode,
        device_property_code_to_code(DevicePropertyCode::FlashMode) == 0x500C,
        device_property_code_from_code(0x500C) == DevicePropertyCode::FlashMode,
        device_property_code_to_code(DevicePropertyCode::ExposureTime) == 0x500D,
        device_property_code_from_code(0x500D) == DevicePropertyCode::ExposureTime,
        device_property_code_to_code(DevicePropertyCode::ExposureProgramMode) == 0x500E,
        device_property_code_from_code(0x500E) == DevicePropertyCode::ExposureProgramMode,
        device_property_code_to_code(DevicePropertyCode::ExposureIndex) == 0x500F,
        device_property_code_from_code(0x500F) == DevicePropertyCode::ExposureIndex,
        device_property_code_to_code(DevicePropertyCode::ExposureBiasCompensation) == 0x5010,
        device_property_code_from_code(0x5010) == DevicePropertyCode::ExposureBiasCompensation,
        device_property_code_to_code(DevicePropertyCode::DateTime) == 0x5011,
        device_property_code_from_code(0x5011) == DevicePropertyCode::DateTime,
        device_property_code_to_code(DevicePropertyCode::CaptureDelay) == 0x5012,
        device_property_code_from_code(0x5012) == DevicePropertyCode::CaptureDelay,
        device_property_code_to_code(DevicePropertyCode::StillCaptureMode) == 0x5013,
        device_property_code_from_code(0x5013) == DevicePropertyCode::StillCaptureMode,
        device_property_code_to_code(DevicePropertyCode::Contrast) == 0x5014,
        device_property_code_from_code(0x5014) == DevicePropertyCode::Contrast,
        device_property_code_to_code(DevicePropertyCode::Sharpness) == 0x5015,
        device_property_code_from_code(0x5015) == DevicePropertyCode::Sharpness,
        device_property_code_to_code(DevicePropertyCode::DigitalZoom) == 0x5016,
        device_property_code_from_code(0x5016) == DevicePropertyCode::DigitalZoom,
        device_property_code_to_code(DevicePropertyCode::EffectMode) == 0x5017,
        device_property_code_from_code(0x5017) == DevicePropertyCode::EffectMode,
        device_property_code_to_code(DevicePropertyCode::BurstNumber) == 0x5018,
        device_property_code_from_code(0x5018) == DevicePropertyCode::BurstNumber,
        device_property_code_to_code(DevicePropertyCode::BurstInterval) == 0x5019,
        device_property_code_from_code(0x5019) == DevicePropertyCode::BurstInterval,
        device_property_code_to_code(DevicePropertyCode::TimelapseNumber) == 0x501A,
        device_property_code_from_code(0x501A) == DevicePropertyCode::TimelapseNumber,
        device_property_code_to_code(DevicePropertyCode::TimelapseInterval) == 0x501B,
        device_property_code_from_code(0x501B) == DevicePropertyCode::TimelapseInterval,
        device_property_code_to_code(DevicePropertyCode::FocusMeteringMode) == 0x501C,
        device_property_code_from_code(0x501C) == DevicePropertyCode::FocusMeteringMode,
        device_property_code_to_code(DevicePropertyCode::UploadUrl) == 0x501D,
        device_property_code_from_code(0x501D) == DevicePropertyCode::UploadUrl,
        device_property_code_to_code(DevicePropertyCode::Artist) == 0x501E,
        device_property_code_from_code(0x501E) == DevicePropertyCode::Artist,
        device_property_code_to_code(DevicePropertyCode::CopyrightInfo) == 0x501F,
        device_property_code_from_code(0x501F) == DevicePropertyCode::CopyrightInfo,
{
}

/// The extension table: each extension of the table denotes its format,
/// and an extension outside it denotes `Undefined`.
pub proof fn lemma_extension_table()
    ensures
        format_for_extension("txt"@) == ObjectFormatCode::Text,
        format_for_extension("html"@) == ObjectFormatCode::Html,
        format_for_extension("htm"@) == ObjectFormatCode::Html,
        format_for_extension("dpof"@) == ObjectFormatCode::Dpof,
        format_for_extension("aiff"@) == ObjectFormatCode::Aiff,
        format_for_extension("aif"@) == ObjectFormatCode::Aiff,
        format_for_extension("wav"@) == ObjectFormatCode::Wav,
        format_for_extension("mp3"@) == ObjectFormatCode::Mp3,
        format_for_extension("wma"@) == ObjectFormatCode::WmaAudio,
        format_for_extension("ogg"@) == ObjectFormatCode::OggAudio,
        format_for_extension("oga"@) == ObjectFormatCode::OggAudio,
        format_for_extension("aac"@) == ObjectFormatCode::AacAudio,
        format_for_extension("flac"@) == ObjectFormatCode::FlacAudio,
        format_for_extension("m4a"@) == ObjectFormatCode::M4aAudio,
        format_for_extension("avi"@) == ObjectFormatCode::Avi,
        format_for_extension("mpg"@) == ObjectFormatCode::Mpeg,
        format_for_extension("mpeg"@) == ObjectFormatCode::Mpeg,
        format_for_extension("asf"@) == ObjectFormatCode::Asf,
        format_for_extension("wmv"@) == ObjectFormatCode::WmvVideo,
        format_for_extension("mp4"@) == ObjectFormatCode::Mp4Container,
        format_for_extension("m4v"@) == ObjectFormatCode::Mp4Container,
        format_for_extension("jpg"@) == ObjectFormatCode::Jpeg,
        format_for_extension("jpeg"@) == ObjectFormatCode::Jpeg,
        format_for_extension("tif"@) == ObjectFormatCode::Tiff,
        format_for_extension("tiff"@) == ObjectFormatCode::Tiff,
        format_for_extension("gif"@) == ObjectFormatCode::Gif,
        format_for_extension("bmp"@) == ObjectFormatCode::Bmp,
        format_for_extension("pict"@) == ObjectFormatCode::Pict,
        format_for_extension("pct"@) == ObjectFormatCode::Pict,
        format_for_extension("png"@) == ObjectFormatCode::Png,
        format_for_extension("exe"@) == ObjectFormatCode::Executable,
        format_for_extension("dll"@) == ObjectFormatCode::Executable,
        format_for_extension("bin"@) == ObjectFormatCode::Executable,
        format_for_extension("sh"@) == ObjectFormatCode::Script,
        format_for_extension("bat"@) == ObjectFormatCode::Script,
        format_for_extension("cmd"@) == ObjectFormatCode::Script,
        format_for_extension("ps1"@) == ObjectFormatCode::Script,
        format_for_extension("xyz"@) == ObjectFormatCode::Undefined,
        format_for_extension("rs"@) == ObjectFormatCode::Undefined,
        format_for_extension(Seq::empty()) == ObjectFormatCode::Undefined,
{
    reveal_strlit("txt");
    reveal_strlit("html");
    reveal_strlit("htm");
    reveal_strlit("dpof");
    reveal_strlit("aiff");
    reveal_strlit("aif");
    reveal_strlit("wav");
    reveal_strlit("mp3");
    reveal_strlit("wma");
    reveal_strlit("ogg");
    reveal_strlit("oga");
    reveal_strlit("aac");
    reveal_strlit("flac");
    reveal_strlit("m4a");
    reveal_strlit("avi");
    reveal_strlit("mpg");
    reveal_strlit("mpeg");
    reveal_strlit("asf");
    reveal_strlit("wmv");
    reveal_strlit("mp4");
    reveal_strlit("m4v");
    reveal_strlit("jpg");
    reveal_strlit("jpeg");
    reveal_strlit("tif");
    reveal_strlit("tiff");
    reveal_strlit("gif");
    reveal_strlit("bmp");
    reveal_strlit("pict");
    reveal_strlit("pct");
    reveal_strlit("png");
    reveal_strlit("exe");
    reveal_strlit("dll");
    reveal_strlit("bin");
    reveal_strlit("sh");
    reveal_strlit("bat");
    reveal_strlit("cmd");
    reveal_strlit("ps1");
    reveal_strlit("xyz");
    reveal_strlit("rs");
    assert("txt"@ =~= seq!['t', 'x', 't']);
    assert("html"@ =~= seq!['h', 't', 'm', 'l']);
    assert("htm"@ =~= seq!['h', 't', 'm']);
    assert("dpof"@ =~= seq!['d', 'p', 'o', 'f']);
    assert("aiff"@ =~= seq!['a', 'i', 'f', 'f']);
    assert("aif"@ =~= seq!['a', 'i', 'f']);
    assert("wav"@ =~= seq!['w', 'a', 'v']);
    assert("mp3"@ =~= seq!['m', 'p', '3']);
    assert("wma"@ =~= seq!['w', 'm', 'a']);
    assert("ogg"@ =~= seq!['o', 'g', 'g']);
    assert("oga"@ =~= seq!['o', 'g', 'a']);
    assert("aac"@ =~= seq!['a', 'a', 'c']);
    assert("flac"@ =~= seq!['f', 'l', 'a', 'c']);
    assert("m4a"@ =~= seq!['m', '4', 'a']);
    assert("avi"@ =~= seq!['a', 'v', 'i']);
    assert("mpg"@ =~= seq!['m', 'p', 'g']);
    assert("mpeg"@ =~= seq!['m', 'p', 'e', 'g']);
    assert("asf"@ =~= seq!['a', 's', 'f']);
    assert("wmv"@ =~= seq!['w', 'm', 'v']);
    assert("mp4"@ =~= seq!['m', 'p', '4']);
    assert("m4v"@ =~= seq!['m', '4', 'v']);
    assert("jpg"@ =~= seq!['j', 'p', 'g']);
    assert("jpeg"@ =~= seq!['j', 'p', 'e', 'g']);
    assert("tif"@ =~= seq!['t', 'i', 'f']);
    assert("tiff"@ =~= seq!['t', 'i', 'f', 'f']);
    assert("gif"@ =~= seq!['g', 'i', 'f']);
    assert("bmp"@ =~= seq!['b', 'm', 'p']);
    assert("pict"@ =~= seq!['p', 'i', 'c', 't']);
    assert("pct"@ =~= seq!['p', 'c', 't']);
    assert("png"@ =~= seq!['p', 'n', 'g']);
    assert("exe"@ =~= seq!['e', 'x', 'e']);
    assert("dll"@ =~= seq!['d', 'l', 'l']);
    assert("bin"@ =~= seq!['b', 'i', 'n']);
    assert("sh"@ =~= seq!['s', 'h']);
    assert("bat"@ =~= seq!['b', 'a', 't']);
    assert("cmd"@ =~= seq!['c', 'm', 'd']);
    assert("ps1"@ =~= seq!['p', 's', '1']);
    assert("xyz"@ =~= seq!['x', 'y', 'z']);
    assert("rs"@ =~= seq!['r', 's']);
}

/// The format categories: which named formats are audio, video or image
/// formats.
pub proof fn lemma_format_category_table()
    ensures
        format_is_audio(ObjectFormatCode::Undefined) == false,
        format_is_video(ObjectFormatCode::Undefined) == false,
        format_is_image(ObjectFormatCode::Undefined) == false,
        format_is_audio(ObjectFormatCode::Association) == false,
        format_is_video(ObjectFormatCode::Association) == false,
        format_is_image(ObjectFormatCode::Association) == false,
        format_is_audio(ObjectFormatCode::Script) == false,
        format_is_video(ObjectFormatCode::Script) == false,
        format_is_image(ObjectFormatCode::Script) == false,
        format_is_audio(ObjectFormatCode::Executable) == false,
        format_is_video(ObjectFormatCode::Executable) == false,
        format_is_image(ObjectFormatCode::Executable) == false,
        format_is_audio(ObjectFormatCode::Text) == false,
        format_is_video(ObjectFormatCode::Text) == false,
        format_is_image(ObjectFormatCode::Text) == false,
        format_is_audio(ObjectFormatCode::Html) == false,
        format_is_video(ObjectFormatCode::Html) == false,
        format_is_image(ObjectFormatCode::Html) == false,
        format_is_audio(ObjectFormatCode::Dpof) == false,
        format_is_video(ObjectFormatCode::Dpof) == false,
        format_is_image(ObjectFormatCode::Dpof) == false,
        format_is_audio(ObjectFormatCode::Aiff) == true,
        format_is_video(ObjectFormatCode::Aiff) == false,
        format_is_image(ObjectFormatCode::Aiff) == false,
        format_is_audio(ObjectFormatCode::Wav) == true,
        format_is_video(ObjectFormatCode::Wav) == false,
        format_is_image(ObjectFormatCode::Wav) == false,
        format_is_audio(ObjectFormatCode::Mp3) == true,
        format_is_video(ObjectFormatCode::Mp3) == false,
        format_is_image(ObjectFormatCode::Mp3) == false,
        format_is_audio(ObjectFormatCode::Avi) == false,
        format_is_video(ObjectFormatCode::Avi) == true,
        format_is_image(ObjectFormatCode::Avi) == false,
        format_is_audio(ObjectFormatCode::Mpeg) == false,
        format_is_video(ObjectFormatCode::Mpeg) == true,
        format_is_image(ObjectFormatCode::Mpeg) == false,
        format_is_audio(ObjectFormatCode::Asf) == false,
        format_is_video(ObjectFormatCode::Asf) == true,
        format_is_image(ObjectFormatCode::Asf) == false,
        format_is_audio(ObjectFormatCode::Jpeg) == false,
        format_is_video(ObjectFormatCode::Jpeg) == false,
        format_is_image(ObjectFormatCode::Jpeg) == true,
        format_is_audio(ObjectFormatCode::Tiff) == false,
        format_is_video(ObjectFormatCode::Tiff) == false,
        format_is_image(ObjectFormatCode::Tiff) == true,
        format_is_audio(ObjectFormatCode::Gif) == false,
        format_is_video(ObjectFormatCode::Gif) == false,
        format_is_image(ObjectFormatCode::Gif) == true,
        format_is_audio(ObjectFormatCode::Bmp) == false,
        format_is_video(ObjectFormatCode::Bmp) == false,
        format_is_image(ObjectFormatCode::Bmp) == true,
        format_is_audio(ObjectFormatCode::Pict) == false,
        format_is_video(ObjectFormatCode::Pict) == false,
        format_is_image(ObjectFormatCode::Pict) == true,
        format_is_audio(ObjectFormatCode::Png) == false,
        format_is_video(ObjectFormatCode::Png) == false,
        format_is_image(ObjectFormatCode::Png) == true,
        format_is_audio(ObjectFormatCode::WmaAudio) == true,
        format_is_video(ObjectFormatCode::WmaAudio) == false,
        format_is_image(ObjectFormatCode::WmaAudio) == false,
        format_is_audio(ObjectFormatCode::OggAudio) == true,
        format_is_video(ObjectFormatCode::OggAudio) == false,
        format_is_image(ObjectFormatCode::OggAudio) == false,
        format_is_audio(ObjectFormatCode::AacAudio) == true,
        format_is_video(ObjectFormatCode::AacAudio) == false,
        format_is_image(ObjectFormatCode::AacAudio) == false,
        format_is_audio(ObjectFormatCode::FlacAudio) == true,
        format_is_video(ObjectFormatCode::FlacAudio) == false,
        format_is_image(ObjectFormatCode::FlacAudio) == false,
        format_is_audio(ObjectFormatCode::WmvVideo) == false,
        format_is_video(ObjectFormatCode::WmvVideo) == true,
        format_is_image(ObjectFormatCode::WmvVideo) == false,
        format_is_audio(ObjectFormatCode::Mp4Container) == false,
        format_is_video(ObjectFormatCode::Mp4Container) == true,
        format_is_image(ObjectFormatCode::Mp4Container) == false,
        format_is_audio(ObjectFormatCode::M4aAudio) == true,
        format_is_video(ObjectFormatCode::M4aAudio) == false,
        format_is_image(ObjectFormatCode::M4aAudio) == false,
{
}

/// The byte size of a fixed-size data type is the length of the encoding of
/// any value of that type; 128-bit types take 16 bytes, and strings,
/// undefined and unknown types have no fixed size.
pub proof fn lemma_byte_size_is_encoding_length(v: crate::ptp::types::properties::PropertyValueView)
    ensures
        (crate::ptp::types::properties::property_value_type(v) != PropertyDataType::String) ==> data_type_byte_size(
            crate::ptp::types::properties::property_value_type(v),
        ) == Some(crate::ptp::types::properties::property_value_bytes(v).len() as usize),
        data_type_byte_size(PropertyDataType::Int128) == Some(16usize),
        data_type_byte_size(PropertyDataType::Uint128) == Some(16usize),
        data_type_byte_size(PropertyDataType::String) is None,
        data_type_byte_size(PropertyDataType::Undefined) is None,
        forall|c: u16| #[trigger] data_type_byte_size(PropertyDataType::Unknown(c)) is None,
{
}

} // verus!
