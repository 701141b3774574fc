//! Storage-related type enums for MTP/PTP.
//!
//! - [`StorageType`]: Type of storage medium (ROM, RAM, etc.)
//! - [`FilesystemType`]: Type of filesystem (flat, hierarchical, DCF)
//! - [`AccessCapability`]: Read/write access permissions
//! - [`ProtectionStatus`]: Object protection status
//! - [`AssociationType`]: Association/folder type

use vstd::prelude::*;

verus! {

/// Type of storage medium.
#[derive(Debug, Clone, Copy, PartialEq, Eq, Structural, Hash, Default)]
pub enum StorageType {
    /// Undefined storage type.
    #[default]
    Undefined,
    /// Fixed ROM (e.g., internal flash).
    FixedRom,
    /// Removable ROM.
    RemovableRom,
    /// Fixed RAM.
    FixedRam,
    /// Removable RAM (e.g., SD card).
    RemovableRam,
    /// Unknown storage type code.
    Unknown(u16),
}

/// The variant that a raw code denotes: the named variant for a code of
/// the table above, `Unknown(code)` for any other code.
pub open spec fn storage_type_from_code(code: u16) -> StorageType {
    if code == 0 {
        StorageType::Undefined
    } else if code == 1 {
        StorageType::FixedRom
    } else if code == 2 {
        StorageType::RemovableRom
    } else if code == 3 {
        StorageType::FixedRam
    } else if code == 4 {
        StorageType::RemovableRam
    } else {
        StorageType::Unknown(code)
    }
}

/// The raw code of a variant.
pub open spec fn storage_type_to_code(v: StorageType) -> u16 {
    match v {
        StorageType::Undefined => 0,
        StorageType::FixedRom => 1,
        StorageType::RemovableRom => 2,
        StorageType::FixedRam => 3,
        StorageType::RemovableRam => 4,
        StorageType::Unknown(code) => code,
    }
}

impl StorageType {
    /// Convert a raw u16 code to a StorageType.
    pub fn from_code(code: u16) -> (r: Self)
        ensures
            r == storage_type_from_code(code),
    {
        match code {
            0 => StorageType::Undefined,
            1 => StorageType::FixedRom,
            2 => StorageType::RemovableRom,
            3 => StorageType::FixedRam,
            4 => StorageType::RemovableRam,
            _ => StorageType::Unknown(code),
        }
    }

    /// Convert a StorageType to its raw u16 value.
    pub fn to_code(self) -> (r: u16)
        ensures
            r == storage_type_to_code(self),
    {
        match self {
            StorageType::Undefined => 0,
            StorageType::FixedRom => 1,
            StorageType::RemovableRom => 2,
            StorageType::FixedRam => 3,
            StorageType::RemovableRam => 4,
            StorageType::Unknown(code) => code,
        }
    }
}

/// Converting a raw code to a `StorageType` and back gives the same code.
pub proof fn lemma_storage_type_code_roundtrip(code: u16)
    ensures
        storage_type_to_code(storage_type_from_code(code)) == code,
{
}

/// A named variant, or an `Unknown` code outside the table, converts to its
/// raw code and back to itself.
pub proof fn lemma_storage_type_value_roundtrip(v: StorageType)
    requires
        v matches StorageType::Unknown(c) ==> storage_type_from_code(c) is Unknown,
    ensures
        storage_type_from_code(storage_type_to_code(v)) == v,
{
}

/// Type of filesystem on the storage.
#[derive(Debug, Clone, Copy, PartialEq, Eq, Structural, Hash, Default)]
pub enum FilesystemType {
    /// Undefined filesystem type.
    #[default]
    Undefined,
    /// Generic flat filesystem (no folders).
    GenericFlat,
    /// Generic hierarchical filesystem (with folders).
    GenericHierarchical,
    /// DCF (Design rule for Camera File system).
    Dcf,
    /// Unknown filesystem type code.
    Unknown(u16),
}

/// The variant that a raw code denotes: the named variant for a code of
/// the table above, `Unknown(code)` for any other code.
pub open spec fn filesystem_type_from_code(code: u16) -> FilesystemType {
    if code == 0 {
        FilesystemType::Undefined
    } else if code == 1 {
        FilesystemType::GenericFlat
    } else if code == 2 {
        FilesystemType::GenericHierarchical
    } else if code == 3 {
        FilesystemType::Dcf
    } else {
        FilesystemType::Unknown(code)
    }
}

/// The raw code of a variant.
pub open spec fn filesystem_type_to_code(v: FilesystemType) -> u16 {
    match v {
        FilesystemType::Undefined => 0,
        FilesystemType::GenericFlat => 1,
        FilesystemType::GenericHierarchical => 2,
        FilesystemType::Dcf => 3,
        FilesystemType::Unknown(code) => code,
    }
}

impl FilesystemType {
    /// Convert a raw u16 code to a FilesystemType.
    pub fn from_code(code: u16) -> (r: Self)
        ensures
            r == filesystem_type_from_code(code),
    {
        match code {
            0 => FilesystemType::Undefined,
            1 => FilesystemType::GenericFlat,
            2 => FilesystemType::GenericHierarchical,
            3 => FilesystemType::Dcf,
            _ => FilesystemType::Unknown(code),
        }
    }

    /// Convert a FilesystemType to its raw u16 value.
    pub fn to_code(self) -> (r: u16)
        ensures
            r == filesystem_type_to_code(self),
    {
        match self {
            FilesystemType::Undefined => 0,
            FilesystemType::GenericFlat => 1,
            FilesystemType::GenericHierarchical => 2,
            FilesystemType::Dcf => 3,
            FilesystemType::Unknown(code) => code,
        }
    }
}

/// Converting a raw code to a `FilesystemType` and back gives the same code.
pub proof fn lemma_filesystem_type_code_roundtrip(code: u16)
    ensures
        filesystem_type_to_code(filesystem_type_from_code(code)) == code,
{
}

/// A named variant, or an `Unknown` code outside the table, converts to its
/// raw code and back to itself.
pub proof fn lemma_filesystem_type_value_roundtrip(v: FilesystemType)
    requires
        v matches FilesystemType::Unknown(c) ==> filesystem_type_from_code(c) is Unknown,
    ensures
        filesystem_type_from_code(filesystem_type_to_code(v)) == v,
{
}

/// Access capability of the storage.
#[derive(Debug, Clone, Copy, PartialEq, Eq, Structural, Hash, Default)]
pub enum AccessCapability {
    /// Read-write access.
    #[default]
    ReadWrite,
    /// Read-only, deletion not allowed.
    ReadOnlyWithoutDeletion,
    /// Read-only, deletion allowed.
    ReadOnlyWithDeletion,
    /// Unknown access capability code.
    Unknown(u16),
}

/// The variant that a raw code denotes: the named variant for a code of
/// the table above, `Unknown(code)` for any other code.
pub open spec fn access_capability_from_code(code: u16) -> AccessCapability {
    if code == 0 {
        AccessCapability::ReadWrite
    } else if code == 1 {
        AccessCapability::ReadOnlyWithoutDeletion
    } else if code == 2 {
        AccessCapability::ReadOnlyWithDeletion
    } else {
        AccessCapability::Unknown(code)
    }
}

/// The raw code of a variant.
pub open spec fn access_capability_to_code(v: AccessCapability) -> u16 {
    match v {
        AccessCapability::ReadWrite => 0,
        AccessCapability::ReadOnlyWithoutDeletion => 1,
        AccessCapability::ReadOnlyWithDeletion => 2,
        AccessCapability::Unknown(code) => code,
    }
}

impl AccessCapability {
    /// Convert a raw u16 code to a AccessCapability.
    pub fn from_code(code: u16) -> (r: Self)
        ensures
            r == access_capability_from_code(code),
    {
        match code {
            0 => AccessCapability::ReadWrite,
            1 => AccessCapability::ReadOnlyWithoutDeletion,
            2 => AccessCapability::ReadOnlyWithDeletion,
            _ => AccessCapability::Unknown(code),
        }
    }

    /// Convert a AccessCapability to its raw u16 value.
    pub fn to_code(self) -> (r: u16)
        ensures
            r == access_capability_to_code(self),
    {
        match self {
            AccessCapability::ReadWrite => 0,
            AccessCapability::ReadOnlyWithoutDeletion => 1,
            AccessCapability::ReadOnlyWithDeletion => 2,
            AccessCapability::Unknown(code) => code,
        }
    }
}

/// Converting a raw code to a `AccessCapability` and back gives the same code.
pub proof fn lemma_access_capability_code_roundtrip(code: u16)
    ensures
        access_capability_to_code(access_capability_from_code(code)) == code,
{
}

/// A named variant, or an `Unknown` code outside the table, converts to its
/// raw code and back to itself.
pub proof fn lemma_access_capability_value_roundtrip(v: AccessCapability)
    requires
        v matches AccessCapability::Unknown(c) ==> access_capability_from_code(c) is Unknown,
    ensures
        access_capability_from_code(access_capability_to_code(v)) == v,
{
}

/// Protection status of an object.
#[derive(Debug, Clone, Copy, PartialEq, Eq, Structural, Hash, Default)]
pub enum ProtectionStatus {
    /// No protection.
    #[default]
    NoProtection,
    /// Read-only protection.
    ReadOnly,
    /// Unknown protection status code.
    Unknown(u16),
}

/// The variant that a raw code denotes: the named variant for a code of
/// the table above, `Unknown(code)` for any other code.
pub open spec fn protection_status_from_code(code: u16) -> ProtectionStatus {
    if code == 0 {
        ProtectionStatus::NoProtection
    } else if code == 1 {
        ProtectionStatus::ReadOnly
    } else {
        ProtectionStatus::Unknown(code)
    }
}

/// The raw code of a variant.
pub open spec fn protection_status_to_code(v: ProtectionStatus) -> u16 {
    match v {
        ProtectionStatus::NoProtection => 0,
        ProtectionStatus::ReadOnly => 1,
        ProtectionStatus::Unknown(code) => code,
    }
}

impl ProtectionStatus {
    /// Convert a raw u16 code to a ProtectionStatus.
    pub fn from_code(code: u16) -> (r: Self)
        ensures
            r == protection_status_from_code(code),
    {
        match code {
            0 => ProtectionStatus::NoProtection,
            1 => ProtectionStatus::ReadOnly,
            _ => ProtectionStatus::Unknown(code),
        }
    }

    /// Convert a ProtectionStatus to its raw u16 value.
    pub fn to_code(self) -> (r: u16)
        ensures
            r == protection_status_to_code(self),
    {
        match self {
            ProtectionStatus::NoProtection => 0,
            ProtectionStatus::ReadOnly => 1,
            ProtectionStatus::Unknown(code) => code,
        }
    }
}

/// Converting a raw code to a `ProtectionStatus` and back gives the same code.
pub proof fn lemma_protection_status_code_roundtrip(code: u16)
    ensures
        protection_status_to_code(protection_status_from_code(code)) == code,
{
}

/// A named variant, or an `Unknown` code outside the table, converts to its
/// raw code and back to itself.
pub proof fn lemma_protection_status_value_roundtrip(v: ProtectionStatus)
    requires
        v matches ProtectionStatus::Unknown(c) ==> protection_status_from_code(c) is Unknown,
    ensures
        protection_status_from_code(protection_status_to_code(v)) == v,
{
}

/// Association type for objects (folder/container type).
#[derive(Debug, Clone, Copy, PartialEq, Eq, Structural, Hash, Default)]
pub enum AssociationType {
    /// No association (regular file).
    #[default]
    NoAssociation,
    /// Generic folder.
    GenericFolder,
    /// Unknown association type code.
    Unknown(u16),
}

/// The variant that a raw code denotes: the named variant for a code of
/// the table above, `Unknown(code)` for any other code.
pub open spec fn association_type_from_code(code: u16) -> AssociationType {
    if code == 0 {
        AssociationType::NoAssociation
    } else if code == 1 {
        AssociationType::GenericFolder
    } else {
        AssociationType::Unknown(code)
    }
}

/// The raw code of a variant.
pub open spec fn association_type_to_code(v: AssociationType) -> u16 {
    match v {
        AssociationType::NoAssociation => 0,
        AssociationType::GenericFolder => 1,
        AssociationType::Unknown(code) => code,
    }
}

impl AssociationType {
    /// Convert a raw u16 code to a AssociationType.
    pub fn from_code(code: u16) -> (r: Self)
        ensures
            r == association_type_from_code(code),
    {
        match code {
            0 => AssociationType::NoAssociation,
            1 => AssociationType::GenericFolder,
            _ => AssociationType::Unknown(code),
        }
    }

    /// Convert a AssociationType to its raw u16 value.
    pub fn to_code(self) -> (r: u16)
        ensures
            r == association_type_to_code(self),
    {
        match self {
            AssociationType::NoAssociation => 0,
            AssociationType::GenericFolder => 1,
            AssociationType::Unknown(code) => code,
        }
    }
}

/// Converting a raw code to a `AssociationType` and back gives the same code.
pub proof fn lemma_association_type_code_roundtrip(code: u16)
    ensures
        association_type_to_code(association_type_from_code(code)) == code,
{
}

/// A named variant, or an `Unknown` code outside the table, converts to its
/// raw code and back to itself.
pub proof fn lemma_association_type_value_roundtrip(v: AssociationType)
    requires
        v matches AssociationType::Unknown(c) ==> association_type_from_code(c) is Unknown,
    ensures
        association_type_from_code(association_type_to_code(v)) == v,
{
}

/// The table of storage type codes that the standard fixes: each named variant
/// has its code, and that code reads back as the variant.
pub proof fn lemma_storage_type_table()
    ensures
        storage_type_to_code(StorageType::Undefined) == 0x0000,
        storage_type_from_code(0x0000) == StorageType::Undefined,
        storage_type_to_code(StorageType::FixedRom) == 0x0001,
        storage_type_from_code(0x0001) == StorageType::FixedRom,
        storage_type_to_code(StorageType::RemovableRom) == 0x0002,
        storage_type_from_code(0x0002) == StorageType::RemovableRom,
        storage_type_to_code(StorageType::FixedRam) == 0x0003,
        storage_type_from_code(0x0003) == StorageType::FixedRam,
        storage_type_to_code(StorageType::RemovableRam) == 0x0004,
        storage_type_from_code(0x0004) == StorageType::RemovableRam,
{
}

/// The table of filesystem type codes that the standard fixes: each named variant
/// has its code, and that code reads back as the variant.
pub proof fn lemma_filesystem_type_table()
    ensures
        filesystem_type_to_code(FilesystemType::Undefined) == 0x0000,
        filesystem_type_from_code(0x0000) == FilesystemType::Undefined,
        filesystem_type_to_code(FilesystemType::GenericFlat) == 0x0001,
        filesystem_type_from_code(0x0001) == FilesystemType::GenericFlat,
        filesystem_type_to_code(FilesystemType::GenericHierarchical) == 0x0002,
        filesystem_type_from_code(0x0002) == FilesystemType::GenericHierarchical,
        filesystem_type_to_code(FilesystemType::Dcf) == 0x0003,
        filesystem_type_from_code(0x0003) == FilesystemType::Dcf,
{
}

/// The table of access capability codes that the standard fixes: each named variant
/// has its code, and that code reads back as the variant.
pub proof fn lemma_access_capability_table()
    ensures
        access_capability_to_code(AccessCapability::ReadWrite) == 0x0000,
        access_capability_from_code(0x0000) == AccessCapability::ReadWrite,
        access_capability_to_code(AccessCapability::ReadOnlyWithoutDeletion) == 0x0001,
        access_capability_from_code(0x0001) == AccessCapability::ReadOnlyWithoutDeletion,
        access_capability_to_code(AccessCapability::ReadOnlyWithDeletion) == 0x0002,
        access_capability_from_code(0x0002) == AccessCapability::ReadOnlyWithDeletion,
{
}

/// The table of protection status codes that the standard fixes: each named variant
/// has its code, and that code reads back as the variant.
pub proof fn lemma_protection_status_table()
    ensures
        protection_status_to_code(ProtectionStatus::NoProtection) == 0x0000,
        protection_status_from_code(0x0000) == ProtectionStatus::NoProtection,
        protection_status_to_code(ProtectionStatus::ReadOnly) == 0x0001,
        protection_status_from_code(0x0001) == ProtectionStatus::ReadOnly,
{
}

/// The table of association type codes that the standard fixes: each named variant
/// has its code, and that code reads back as the variant.
pub proof fn lemma_association_type_table()
    ensures
        association_type_to_code(AssociationType::NoAssociation) == 0x0000,
        association_type_from_code(0x0000) == AssociationType::NoAssociation,
        association_type_to_code(AssociationType::GenericFolder) == 0x0001,
        association_type_from_code(0x0001) == AssociationType::GenericFolder,
{
}

} // verus!
