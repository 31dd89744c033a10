//! Headers of the firmware file sections.

use crate::base::Guid;
use vstd::prelude::*;

verus! {

/// EFI_COMMON_SECTION_HEADER per PI spec 1.8A 3.2.4.1
#[derive(Debug, Clone, Copy)]
pub struct CommonSectionHeaderStandard {
    pub size: [u8; 3],
    pub section_type: u8,
}

/// EFI_COMMON_SECTION_HEADER2 per PI spec 1.8A 3.2.4.1
#[derive(Debug, Clone, Copy)]
pub struct CommonSectionHeaderExtended {
    pub size: [u8; 3],
    pub section_type: u8,
    pub extended_size: u32,
}

/// EFI_COMPRESSION_SECTION per PI spec 1.8A 3.2.5.2
#[derive(Debug, Clone, Copy, PartialEq, Eq, Structural)]
pub struct Compression {
    pub uncompressed_length: u32,
    pub compression_type: u8,
}

/// EFI_GUID_DEFINED_SECTION per PI spec 1.8A 3.2.5.7
#[derive(Debug, Clone, Copy, PartialEq, Eq, Structural)]
pub struct GuidDefined {
    pub section_definition_guid: Guid,
    pub data_offset: u16,
    pub attributes: u16,
}

/// EFI_VERSION_SECTION per PI spec 1.8A 3.2.5.15
#[derive(Debug, Clone, Copy, PartialEq, Eq, Structural)]
pub struct Version {
    pub build_number: u16,
}

/// EFI_FREEFORM_SUBTYPE_GUID_SECTION per PI spec 1.8A 3.2.5.6
#[derive(Debug, Clone, Copy, PartialEq, Eq, Structural)]
pub struct FreeformSubtypeGuid {
    pub sub_type_guid: Guid,
}

/// The number of bytes of the standard common header.
pub const STANDARD_HEADER_SIZE: usize = 4;

/// The number of bytes of the extended common header.
pub const EXTENDED_HEADER_SIZE: usize = 8;

/// The number of bytes of the compression section header.
pub const COMPRESSION_SIZE: usize = 5;

/// The number of bytes of the fixed part of the GUID-defined section header.
pub const GUID_DEFINED_SIZE: usize = 20;

/// The number of bytes of the version section header.
pub const VERSION_SIZE: usize = 2;

/// The number of bytes of the freeform subtype GUID section header.
pub const FREEFORM_SUBTYPE_GUID_SIZE: usize = 16;

} // verus!
