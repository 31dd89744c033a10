//! Firmware Volume (FV) definitions.
//!
//! Based on the values defined in the UEFI Platform Initialization (PI) Specification V1.8A 3.1 Firmware Storage
//! Code Definitions.

pub mod attributes;
pub mod file;
pub mod raw;

use crate::base::Guid;
use vstd::prelude::*;

verus! {

pub type EfiFvFileType = u8;

/// The write policies of a firmware volume.
#[derive(Debug, Copy, Clone, PartialEq, Eq, Structural)]
pub enum WritePolicy {
    UnreliableWrite,
    ReliableWrite,
}

impl WritePolicy {
    /// The value that stands for the variant in the binary format.
    pub open spec fn spec_raw(self) -> u32 {
        match self {
            WritePolicy::UnreliableWrite => raw::write_policy::UNRELIABLE_WRITE,
            WritePolicy::ReliableWrite => raw::write_policy::RELIABLE_WRITE,
        }
    }

    /// The value that stands for the variant in the binary format.
    pub fn to_raw(&self) -> (raw: u32)
        ensures
            raw == self.spec_raw(),
    {
        match self {
            WritePolicy::UnreliableWrite => raw::write_policy::UNRELIABLE_WRITE,
            WritePolicy::ReliableWrite => raw::write_policy::RELIABLE_WRITE,
        }
    }
}

/// EFI_FIRMWARE_VOLUME_HEADER
///
/// The block map follows the header in the volume.
#[derive(Debug, Clone, Copy)]
pub struct Header {
    pub zero_vector: [u8; 16],
    pub file_system_guid: Guid,
    pub fv_length: u64,
    pub signature: u32,
    pub attributes: u32,
    pub header_length: u16,
    pub checksum: u16,
    pub ext_header_offset: u16,
    pub reserved: u8,
    pub revision: u8,
}

/// One run of equally sized blocks of a firmware volume.
#[derive(Debug, Clone, Copy, PartialEq, Eq, Structural)]
pub struct BlockMapEntry {
    pub num_blocks: u32,
    pub length: u32,
}

/// EFI_FIRMWARE_VOLUME_EXT_HEADER
#[derive(Debug, Clone, Copy, PartialEq, Eq, Structural)]
pub struct ExtHeader {
    pub fv_name: Guid,
    pub ext_header_size: u32,
}

/// The number of bytes of the volume header without its block map.
pub const HEADER_SIZE: usize = 56;

/// The number of bytes of the fixed part of the extended header.
pub const EXT_HEADER_SIZE: usize = 20;

/// The signature of a firmware volume header: ASCII `_FVH`.
pub const SIGNATURE: u32 = 0x4856465f;

} // verus!
