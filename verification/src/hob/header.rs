//! Headers that the hand off blocks share.

use crate::base::Guid;
use crate::hob::EfiPhysicalAddress;
use vstd::prelude::*;

verus! {

/// The type of a memory region, as the UEFI specification numbers it.
pub type MemoryType = u32;

/// The number of bytes of the generic HOB header.
pub const HOB_HEADER_SIZE: usize = 8;

/// Describes the format and size of the data inside the HOB.
/// All HOBs must contain this generic HOB header (EFI_HOB_GENERIC_HEADER).
///
#[derive(Copy, Clone, Debug)]
pub struct Hob {
    // EFI_HOB_GENERIC_HEADER
    /// Identifies the HOB data structure type.
    ///
    pub hob_type: u16,

    /// The length in bytes of the HOB.
    ///
    pub length: u16,

    /// This field must always be set to zero.
    ///
    pub reserved: u32,
}

/// MemoryAllocation (EFI_HOB_MEMORY_ALLOCATION_HEADER) describes the
/// various attributes of the logical memory allocation. The type field will be used for
/// subsequent inclusion in the UEFI memory map.
///
#[derive(Copy, Clone, Debug)]
pub struct MemoryAllocation {
    // EFI_HOB_MEMORY_ALLOCATION_HEADER
    /// A GUID that defines the memory allocation region's type and purpose, as well as
    /// other fields within the memory allocation HOB. This GUID is used to define the
    /// additional data within the HOB that may be present for the memory allocation HOB.
    /// Type EFI_GUID is defined in InstallProtocolInterface() in the UEFI 2.0
    /// specification.
    ///
    pub name: Guid,

    /// The base address of memory allocated by this HOB. Type
    /// EfiPhysicalAddress is defined in AllocatePages() in the UEFI 2.0
    /// specification.
    ///
    pub memory_base_address: EfiPhysicalAddress,

    /// The length in bytes of memory allocated by this HOB.
    ///
    pub memory_length: u64,

    /// Defines the type of memory allocated by this HOB. The memory type definition
    /// follows the EFI_MEMORY_TYPE definition. Type EFI_MEMORY_TYPE is defined
    /// in AllocatePages() in the UEFI 2.0 specification.
    ///
    pub memory_type: MemoryType,

    /// This field will always be set to zero.
    ///
    pub reserved: [u8; 4],
}

} // verus!
