//! Firmware File System (FFS) file definitions.
//!
//! Based on the values defined in the UEFI Platform Initialization (PI) Specification V1.8A Section 3.2.3.1
//! EFI_FFS_FILE_HEADER.

pub mod raw;

use crate::base::Guid;
use vstd::prelude::*;

verus! {

/// The types of firmware files.
#[derive(Debug, Copy, Clone, PartialEq, Eq, Structural)]
pub enum Type {
    All,
    Raw,
    FreeForm,
    SecurityCore,
    PeiCore,
    DxeCore,
    Peim,
    Driver,
    CombinedPeimDriver,
    Application,
    Mm,
    FirmwareVolumeImage,
    CombinedMmDxe,
    MmCore,
    MmStandalone,
    MmCoreStandalone,
    OemMin,
    OemMax,
    DebugMin,
    DebugMax,
    FfsPad,
    FfsUnknown,
    FfsMax,
}

impl Type {
    /// The value that stands for the variant in the binary format.
    pub open spec fn spec_raw(self) -> u8 {
        match self {
            Type::All => raw::file_type::ALL,
            Type::Raw => raw::file_type::RAW,
            Type::FreeForm => raw::file_type::FREEFORM,
            Type::SecurityCore => raw::file_type::SECURITY_CORE,
            Type::PeiCore => raw::file_type::PEI_CORE,
            Type::DxeCore => raw::file_type::DXE_CORE,
            Type::Peim => raw::file_type::PEIM,
            Type::Driver => raw::file_type::DRIVER,
            Type::CombinedPeimDriver => raw::file_type::COMBINED_PEIM_DRIVER,
            Type::Application => raw::file_type::APPLICATION,
            Type::Mm => raw::file_type::MM,
            Type::FirmwareVolumeImage => raw::file_type::FIRMWARE_VOLUME_IMAGE,
            Type::CombinedMmDxe => raw::file_type::COMBINED_MM_DXE,
            Type::MmCore => raw::file_type::MM_CORE,
            Type::MmStandalone => raw::file_type::MM_STANDALONE,
            Type::MmCoreStandalone => raw::file_type::MM_CORE_STANDALONE,
            Type::OemMin => raw::file_type::OEM_MIN,
            Type::OemMax => raw::file_type::OEM_MAX,
            Type::DebugMin => raw::file_type::DEBUG_MIN,
            Type::DebugMax => raw::file_type::DEBUG_MAX,
            Type::FfsPad => raw::file_type::FFS_PAD,
            Type::FfsUnknown => raw::file_type::FFS_MIN,
            Type::FfsMax => raw::file_type::FFS_MAX,
        }
    }

    /// The value that stands for the variant in the binary format.
    pub fn to_raw(&self) -> (raw: u8)
        ensures
            raw == self.spec_raw(),
    {
        match self {
            Type::All => raw::file_type::ALL,
            Type::Raw => raw::file_type::RAW,
            Type::FreeForm => raw::file_type::FREEFORM,
            Type::SecurityCore => raw::file_type::SECURITY_CORE,
            Type::PeiCore => raw::file_type::PEI_CORE,
            Type::DxeCore => raw::file_type::DXE_CORE,
            Type::Peim => raw::file_type::PEIM,
            Type::Driver => raw::file_type::DRIVER,
            Type::CombinedPeimDriver => raw::file_type::COMBINED_PEIM_DRIVER,
            Type::Application => raw::file_type::APPLICATION,
            Type::Mm => raw::file_type::MM,
            Type::FirmwareVolumeImage => raw::file_type::FIRMWARE_VOLUME_IMAGE,
            Type::CombinedMmDxe => raw::file_type::COMBINED_MM_DXE,
            Type::MmCore => raw::file_type::MM_CORE,
            Type::MmStandalone => raw::file_type::MM_STANDALONE,
            Type::MmCoreStandalone => raw::file_type::MM_CORE_STANDALONE,
            Type::OemMin => raw::file_type::OEM_MIN,
            Type::OemMax => raw::file_type::OEM_MAX,
            Type::DebugMin => raw::file_type::DEBUG_MIN,
            Type::DebugMax => raw::file_type::DEBUG_MAX,
            Type::FfsPad => raw::file_type::FFS_PAD,
            Type::FfsUnknown => raw::file_type::FFS_MIN,
            Type::FfsMax => raw::file_type::FFS_MAX,
        }
    }
}

/// The state bits of a firmware file.
#[derive(Debug, Copy, Clone, PartialEq, Eq, Structural)]
pub enum State {
    HeaderConstruction,
    HeaderValid,
    DataValid,
    MarkedForUpdate,
    Deleted,
    HeaderInvalid,
}

impl State {
    /// The value that stands for the variant in the binary format.
    pub open spec fn spec_raw(self) -> u8 {
        match self {
            State::HeaderConstruction => raw::state::HEADER_CONSTRUCTION,
            State::HeaderValid => raw::state::HEADER_VALID,
            State::DataValid => raw::state::DATA_VALID,
            State::MarkedForUpdate => raw::state::MARKED_FOR_UPDATE,
            State::Deleted => raw::state::DELETED,
            State::HeaderInvalid => raw::state::HEADER_INVALID,
        }
    }

    /// The value that stands for the variant in the binary format.
    pub fn to_raw(&self) -> (raw: u8)
        ensures
            raw == self.spec_raw(),
    {
        match self {
            State::HeaderConstruction => raw::state::HEADER_CONSTRUCTION,
            State::HeaderValid => raw::state::HEADER_VALID,
            State::DataValid => raw::state::DATA_VALID,
            State::MarkedForUpdate => raw::state::MARKED_FOR_UPDATE,
            State::Deleted => raw::state::DELETED,
            State::HeaderInvalid => raw::state::HEADER_INVALID,
        }
    }
}

/// EFI_FFS_FILE_HEADER
#[derive(Debug, Clone, Copy)]
pub struct Header {
    pub name: Guid,
    pub integrity_check_header: u8,
    pub integrity_check_file: u8,
    pub file_type: u8,
    pub attributes: u8,
    pub size: [u8; 3],
    pub state: u8,
}

/// EFI_FFS_FILE_HEADER2
#[derive(Debug, Clone, Copy)]
pub struct Header2 {
    pub header: Header,
    pub extended_size: u64,
}

/// The number of bytes of the standard file header.
pub const HEADER_SIZE: usize = 24;

/// The number of bytes of the extended size field that follows the header
/// of a large file.
pub const EXTENDED_SIZE_LENGTH: usize = 8;

} // verus!
