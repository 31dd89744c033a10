//! Firmware File System (FFS) section definitions.
//!
//! Based on the values defined in the UEFI Platform Initialization (PI) Specification V1.8A Section 3.2.4
//! Firmware File Section.

pub mod header;
pub mod raw_type;

use vstd::prelude::*;

verus! {

pub type EfiSectionType = u8;

/// The types of firmware file sections.
#[derive(Debug, Copy, Clone, PartialEq, Eq, Structural)]
pub enum Type {
    All,
    Compression,
    GuidDefined,
    Disposable,
    Pe32,
    Pic,
    Te,
    DxeDepex,
    Version,
    UserInterface,
    Compatibility16,
    FirmwareVolumeImage,
    FreeformSubtypeGuid,
    Raw,
    PeiDepex,
    MmDepex,
}

impl Type {
    /// The value that stands for the variant in the binary format.
    pub open spec fn spec_raw(self) -> u8 {
        match self {
            Type::All => raw_type::ALL,
            Type::Compression => raw_type::encapsulated::COMPRESSION,
            Type::GuidDefined => raw_type::encapsulated::GUID_DEFINED,
            Type::Disposable => raw_type::encapsulated::DISPOSABLE,
            Type::Pe32 => raw_type::PE32,
            Type::Pic => raw_type::PIC,
            Type::Te => raw_type::TE,
            Type::DxeDepex => raw_type::DXE_DEPEX,
            Type::Version => raw_type::VERSION,
            Type::UserInterface => raw_type::USER_INTERFACE,
            Type::Compatibility16 => raw_type::COMPATIBILITY16,
            Type::FirmwareVolumeImage => raw_type::FIRMWARE_VOLUME_IMAGE,
            Type::FreeformSubtypeGuid => raw_type::FREEFORM_SUBTYPE_GUID,
            Type::Raw => raw_type::RAW,
            Type::PeiDepex => raw_type::PEI_DEPEX,
            Type::MmDepex => raw_type::MM_DEPEX,
        }
    }

    /// The value that stands for the variant in the binary format.
    pub fn to_raw(&self) -> (raw: u8)
        ensures
            raw == self.spec_raw(),
    {
        match self {
            Type::All => raw_type::ALL,
            Type::Compression => raw_type::encapsulated::COMPRESSION,
            Type::GuidDefined => raw_type::encapsulated::GUID_DEFINED,
            Type::Disposable => raw_type::encapsulated::DISPOSABLE,
            Type::Pe32 => raw_type::PE32,
            Type::Pic => raw_type::PIC,
            Type::Te => raw_type::TE,
            Type::DxeDepex => raw_type::DXE_DEPEX,
            Type::Version => raw_type::VERSION,
            Type::UserInterface => raw_type::USER_INTERFACE,
            Type::Compatibility16 => raw_type::COMPATIBILITY16,
            Type::FirmwareVolumeImage => raw_type::FIRMWARE_VOLUME_IMAGE,
            Type::FreeformSubtypeGuid => raw_type::FREEFORM_SUBTYPE_GUID,
            Type::Raw => raw_type::RAW,
            Type::PeiDepex => raw_type::PEI_DEPEX,
            Type::MmDepex => raw_type::MM_DEPEX,
        }
    }
}

/// EFI_COMMON_SECTION_HEADER per PI spec 1.8A 3.2.4.1
#[derive(Debug, Clone, Copy)]
pub struct Header {
    pub size: [u8; 3],
    pub section_type: u8,
}

} // verus!
