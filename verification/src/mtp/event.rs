//! Device events.

use vstd::prelude::*;
use crate::ptp::codes::{event_code_from_code, event_code_to_code};
use crate::ptp::{EventCode, EventContainer, ObjectHandle, StorageId};

verus! {

/// Events from an MTP device.
#[derive(Debug, Clone)]
pub enum DeviceEvent {
    /// A new object was added.
    ObjectAdded {
        /// Handle of the new object.
        handle: ObjectHandle,
    },
    /// An object was removed.
    ObjectRemoved {
        /// Handle of the removed object.
        handle: ObjectHandle,
    },
    /// A storage was added (e.g., SD card inserted).
    StoreAdded {
        /// ID of the new storage.
        storage_id: StorageId,
    },
    /// A storage was removed.
    StoreRemoved {
        /// ID of the removed storage.
        storage_id: StorageId,
    },
    /// Storage info changed (e.g., free space).
    StorageInfoChanged {
        /// ID of the storage that changed.
        storage_id: StorageId,
    },
    /// Object info changed.
    ObjectInfoChanged {
        /// Handle of the object that changed.
        handle: ObjectHandle,
    },
    /// Device info changed.
    DeviceInfoChanged,
    /// Device is being reset.
    DeviceReset,
    /// Unknown event.
    Unknown {
        /// Raw event code.
        code: u16,
        /// Event parameters.
        params: [u32; 3],
    },
}

/// The device event that an event container reports: object and storage
/// events carry the first parameter as handle or storage id; any other code
/// is reported as `Unknown` with its raw code and all three parameters.
pub open spec fn device_event_of(code: EventCode, params: [u32; 3]) -> DeviceEvent {
    match code {
        EventCode::ObjectAdded => DeviceEvent::ObjectAdded { handle: ObjectHandle(params@[0]) },
        EventCode::ObjectRemoved => DeviceEvent::ObjectRemoved { handle: ObjectHandle(params@[0]) },
        EventCode::StoreAdded => DeviceEvent::StoreAdded { storage_id: StorageId(params@[0]) },
        EventCode::StoreRemoved => DeviceEvent::StoreRemoved { storage_id: StorageId(params@[0]) },
        EventCode::StorageInfoChanged => DeviceEvent::StorageInfoChanged {
            storage_id: StorageId(params@[0]),
        },
        EventCode::ObjectInfoChanged => DeviceEvent::ObjectInfoChanged {
            handle: ObjectHandle(params@[0]),
        },
        EventCode::DeviceInfoChanged => DeviceEvent::DeviceInfoChanged,
        _ => DeviceEvent::Unknown { code: event_code_to_code(code), params },
    }
}

impl DeviceEvent {
    /// Parse from an event container.
    pub fn from_container(container: &EventContainer) -> (r: Self)
        ensures
            r == device_event_of(container.code, container.params),
    {
        match container.code {
            EventCode::ObjectAdded => DeviceEvent::ObjectAdded { handle: ObjectHandle(container.params[0]) },
            EventCode::ObjectRemoved => DeviceEvent::ObjectRemoved { handle: ObjectHandle(container.params[0]) },
            EventCode::StoreAdded => DeviceEvent::StoreAdded { storage_id: StorageId(container.params[0]) },
            EventCode::StoreRemoved => DeviceEvent::StoreRemoved { storage_id: StorageId(container.params[0]) },
            EventCode::StorageInfoChanged => DeviceEvent::StorageInfoChanged {
                storage_id: StorageId(container.params[0]),
            },
            EventCode::ObjectInfoChanged => DeviceEvent::ObjectInfoChanged {
                handle: ObjectHandle(container.params[0]),
            },
            EventCode::DeviceInfoChanged => DeviceEvent::DeviceInfoChanged,
            EventCode::Unknown(code) => DeviceEvent::Unknown { code, params: container.params },
            _ => DeviceEvent::Unknown { code: container.code.to_code(), params: container.params },
        }
    }
}

/// What an event the device sends reports, by its raw code: 0x4002 an
/// object added, 0x4003 an object removed, 0x4004 a storage added, 0x4005 a
/// storage removed, 0x4007 an object's info changed and 0x400C a storage's
/// info changed, each naming the object or storage by the first parameter;
/// 0x4008 the device's info changed; any other code is reported as unknown,
/// with that raw code and all three parameters.
pub proof fn lemma_device_event_by_code(c: u16, params: [u32; 3])
    ensures
        ({
            let e = device_event_of(event_code_from_code(c), params);
            &&& c == 0x4002 ==> e == DeviceEvent::ObjectAdded { handle: ObjectHandle(params@[0]) }
            &&& c == 0x4003 ==> e == DeviceEvent::ObjectRemoved { handle: ObjectHandle(params@[0]) }
            &&& c == 0x4004 ==> e == DeviceEvent::StoreAdded { storage_id: StorageId(params@[0]) }
            &&& c == 0x4005 ==> e == DeviceEvent::StoreRemoved { storage_id: StorageId(params@[0]) }
            &&& c == 0x4007 ==> e == DeviceEvent::ObjectInfoChanged { handle: ObjectHandle(params@[0]) }
            &&& c == 0x400C ==> e == DeviceEvent::StorageInfoChanged { storage_id: StorageId(params@[0]) }
            &&& c == 0x4008 ==> e == DeviceEvent::DeviceInfoChanged
            &&& !(c == 0x4002 || c == 0x4003 || c == 0x4004 || c == 0x4005 || c == 0x4007 || c == 0x400C
                || c == 0x4008) ==> e == DeviceEvent::Unknown { code: c, params }
        }),
{
    crate::ptp::codes::lemma_event_code_code_roundtrip(c);
}

} // verus!
