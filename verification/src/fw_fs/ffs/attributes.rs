//! Firmware File System (FFS) file attribute definitions.
//!
//! Based on the values defined in the UEFI Platform Initialization (PI) Specification V1.8A Section 3.2.3.1
//! EFI_FFS_FILE_HEADER.

pub mod raw;

use vstd::prelude::*;

verus! {

/// The attribute bits of a firmware file.
#[derive(Debug, Copy, Clone, PartialEq, Eq, Structural)]
pub enum Attribute {
    LargeFile,
    DataAlignment2,
    Fixed,
    DataAlignment,
    Checksum,
}

impl Attribute {
    /// The value that stands for the variant in the binary format.
    pub open spec fn spec_raw(self) -> u8 {
        match self {
            Attribute::LargeFile => raw::LARGE_FILE,
            Attribute::DataAlignment2 => raw::DATA_ALIGNMENT_2,
            Attribute::Fixed => raw::FIXED,
            Attribute::DataAlignment => raw::DATA_ALIGNMENT,
            Attribute::Checksum => raw::CHECKSUM,
        }
    }

    /// The value that stands for the variant in the binary format.
    pub fn to_raw(&self) -> (raw: u8)
        ensures
            raw == self.spec_raw(),
    {
        match self {
            Attribute::LargeFile => raw::LARGE_FILE,
            Attribute::DataAlignment2 => raw::DATA_ALIGNMENT_2,
            Attribute::Fixed => raw::FIXED,
            Attribute::DataAlignment => raw::DATA_ALIGNMENT,
            Attribute::Checksum => raw::CHECKSUM,
        }
    }
}

} // verus!
