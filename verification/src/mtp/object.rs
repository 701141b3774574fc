//! Information about objects to be created on a device.

use vstd::prelude::*;
use crate::ptp::codes::ObjectFormatCode;
use crate::ptp::strings::utf16_units;
use crate::ptp::types::object::{
    capped_size, lemma_object_info_roundtrip, object_info_bytes, parsed_object_info, ObjectInfoView,
};
use crate::ptp::types::{AssociationType, ObjectInfo, ProtectionStatus};
use crate::ptp::{ObjectHandle, StorageId};

verus! {

/// The information sent to create a folder named `name`: an association of
/// the generic-folder type with that filename, no protection, size 0, and
/// every other number zero, no dates and no keywords. The storage and the
/// parent are given with the SendObjectInfo command itself.
pub open spec fn folder_info_view(name: Seq<char>) -> ObjectInfoView {
    ObjectInfoView {
        handle: ObjectHandle(0),
        storage_id: StorageId(0),
        format: ObjectFormatCode::Association,
        protection_status: ProtectionStatus::NoProtection,
        size: 0,
        thumb_format: ObjectFormatCode::Undefined,
        thumb_size: 0,
        thumb_width: 0,
        thumb_height: 0,
        image_width: 0,
        image_height: 0,
        image_bit_depth: 0,
        parent: ObjectHandle(0),
        association_type: AssociationType::GenericFolder,
        association_desc: 0,
        sequence_number: 0,
        filename: name,
        created: None,
        modified: None,
        keywords: Seq::empty(),
    }
}

/// The object information that creates a folder named `name`.
pub fn folder_info(name: &str) -> (r: ObjectInfo)
    ensures
        r@ == folder_info_view(name@),
{
    ObjectInfo {
        handle: ObjectHandle(0),
        storage_id: StorageId(0),
        format: ObjectFormatCode::Association,
        protection_status: ProtectionStatus::NoProtection,
        size: 0,
        thumb_format: ObjectFormatCode::Undefined,
        thumb_size: 0,
        thumb_width: 0,
        thumb_height: 0,
        image_width: 0,
        image_height: 0,
        image_bit_depth: 0,
        parent: ObjectHandle(0),
        association_type: AssociationType::GenericFolder,
        association_desc: 0,
        sequence_number: 0,
        filename: name.to_owned(),
        created: None,
        modified: None,
        keywords: String::new(),
    }
}

/// The dataset sent for a new folder, followed by any further bytes, reads
/// back as the same folder, when its name has at most 254 UTF-16 code units.
pub proof fn lemma_folder_info_roundtrip(name: Seq<char>, rest: Seq<u8>)
    requires
        utf16_units(name).len() <= 254,
    ensures
        parsed_object_info(object_info_bytes(folder_info_view(name)) + rest) == Some(
            folder_info_view(name),
        ),
{
    lemma_object_info_roundtrip(folder_info_view(name), rest);
    assert(capped_size(0) == 0);
}

} // verus!
