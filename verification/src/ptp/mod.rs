//! Low-level PTP (Picture Transfer Protocol) types and functions.

pub mod codes;
pub mod container;
pub mod pack;
pub mod strings;
pub mod datetime;
pub mod receive;
pub mod session;
pub mod types;

pub use codes::{
    DevicePropertyCode, EventCode, ObjectFormatCode, ObjectPropertyCode, OperationCode,
    PropertyDataType, ResponseCode,
};
pub use container::{
    container_type, CommandContainer, ContainerType, DataContainer, EventContainer,
    ResponseContainer,
};
pub use pack::{
    pack_datetime, pack_string, pack_u16, pack_u16_array, pack_u32, pack_u32_array, pack_u64,
    pack_u8, unpack_datetime, unpack_string, unpack_u16, unpack_u16_array, unpack_u32,
    unpack_u32_array, unpack_u64, unpack_u8, DateTime,
};

use vstd::prelude::*;

verus! {

/// 32-bit object handle assigned by the device.
#[derive(Debug, Clone, Copy, PartialEq, Eq, Structural, Hash, Default)]
pub struct ObjectHandle(pub u32);

impl ObjectHandle {
    /// Root folder (parent = root means object is in storage root).
    pub fn root() -> (r: ObjectHandle)
        ensures
            r.0 == 0,
    {
        ObjectHandle(0x00000000)
    }

    /// All objects (used in GetObjectHandles to list recursively).
    pub fn all() -> (r: ObjectHandle)
        ensures
            r.0 == 0xFFFF_FFFF,
    {
        ObjectHandle(0xFFFFFFFF)
    }
}

/// 32-bit storage identifier.
#[derive(Debug, Clone, Copy, PartialEq, Eq, Structural, Hash, Default)]
pub struct StorageId(pub u32);

impl StorageId {
    /// All storages (used in GetObjectHandles to search all).
    pub fn all() -> (r: StorageId)
        ensures
            r.0 == 0xFFFF_FFFF,
    {
        StorageId(0xFFFFFFFF)
    }
}

/// 32-bit session identifier.
#[derive(Debug, Clone, Copy, PartialEq, Eq, Structural, Hash, Default)]
pub struct SessionId(pub u32);

/// 32-bit transaction identifier.
#[derive(Debug, Clone, Copy, PartialEq, Eq, Structural, Hash, Default)]
pub struct TransactionId(pub u32);

/// The transaction id that follows `id`: one more, except that the two reserved
/// values 0x00000000 and 0xFFFFFFFF are skipped by wrapping to 1.
pub open spec fn next_transaction_id(id: u32) -> u32 {
    if id as int + 1 >= 0xFFFF_FFFF {
        1
    } else {
        (id + 1) as u32
    }
}

impl TransactionId {
    /// The first valid transaction ID in a session.
    pub fn first() -> (r: TransactionId)
        ensures
            r.0 == 1,
    {
        TransactionId(0x00000001)
    }

    /// Invalid transaction ID (must never be used).
    pub fn invalid() -> (r: TransactionId)
        ensures
            r.0 == 0xFFFF_FFFF,
    {
        TransactionId(0xFFFFFFFF)
    }

    /// Transaction ID for session-less operations (e.g., GetDeviceInfo before OpenSession).
    pub fn session_less() -> (r: TransactionId)
        ensures
            r.0 == 0,
    {
        TransactionId(0x00000000)
    }

    /// Get the next transaction ID, wrapping from 0xFFFFFFFE (and 0xFFFFFFFF)
    /// to 0x00000001, so that neither 0x00000000 nor 0xFFFFFFFF is produced.
    pub fn next(self) -> (r: TransactionId)
        ensures
            r.0 == next_transaction_id(self.0),
            r.0 != 0,
            r.0 != 0xFFFF_FFFFu32,
    {
        let next = self.0.wrapping_add(1);
        if next == 0 || next == 0xFFFFFFFF {
            TransactionId(0x00000001)
        } else {
            TransactionId(next)
        }
    }
}

} // verus!
