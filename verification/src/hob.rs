//! Hand Off Block (HOB)
//!
//! The hand off blocks defined in UEFI's Platform Initialization (PI) Specification, and a list of them.
//! See <https://github.com/tianocore/edk2/blob/master/MdePkg/Include/Pi/PiHob.h>

pub mod header;

use crate::base::{Boolean, Guid};
use vstd::prelude::*;

verus! {

/// A physical address. It has 64 bits on the architectures that the crate supports.
pub type EfiPhysicalAddress = u64;

/// The boot mode that the HOB producer phase found.
pub type EfiBootMode = u32;

// HOB type field is a UINT16
pub const HANDOFF: u16 = 0x0001;
pub const MEMORY_ALLOCATION: u16 = 0x0002;
pub const RESOURCE_DESCRIPTOR: u16 = 0x0003;
pub const GUID_EXTENSION: u16 = 0x0004;
pub const FV: u16 = 0x0005;
pub const CPU: u16 = 0x0006;
pub const MEMORY_POOL: u16 = 0x0007;
pub const FV2: u16 = 0x0009;
pub const LOAD_PEIM_UNUSED: u16 = 0x000A;
pub const UEFI_CAPSULE: u16 = 0x000B;
pub const FV3: u16 = 0x000C;
pub const UNUSED: u16 = 0xFFFE;
pub const END_OF_HOB_LIST: u16 = 0xFFFF;

pub type MemoryPool = header::Hob;

/// Contains general state information used by the HOB producer phase.
/// This HOB must be the first one in the HOB list.
///
#[derive(Copy, Clone, Debug)]
pub struct PhaseHandoffInformationTable {
    /// The HOB generic header. Header.HobType = EFI_HOB_TYPE_HANDOFF.
    ///
    pub header: header::Hob, // EFI_HOB_GENERIC_HEADER

    /// The version number pertaining to the PHIT HOB definition.
    /// This value is four bytes in length to provide an 8-byte aligned entry
    /// when it is combined with the 4-byte BootMode.
    ///
    pub version: u32,

    /// The system boot mode as determined during the HOB producer phase.
    ///
    pub boot_mode: EfiBootMode,

    /// The highest address location of memory that is allocated for use by the HOB producer
    /// phase. This address must be 4-KB aligned to meet page restrictions of UEFI.
    ///
    pub memory_top: EfiPhysicalAddress,

    /// The lowest address location of memory that is allocated for use by the HOB producer phase.
    ///
    pub memory_bottom: EfiPhysicalAddress,

    /// The highest address location of free memory that is currently available
    /// for use by the HOB producer phase.
    ///
    pub free_memory_top: EfiPhysicalAddress,

    /// The lowest address location of free memory that is available for use by the HOB producer phase.
    ///
    pub free_memory_bottom: EfiPhysicalAddress,

    /// The end of the HOB list.
    ///
    pub end_of_hob_list: EfiPhysicalAddress,
}

/// Describes all memory ranges used during the HOB producer
/// phase that exist outside the HOB list. This HOB type
/// describes how memory is used, not the physical attributes of memory.
///
#[derive(Copy, Clone, Debug)]
pub struct MemoryAllocation {
    // EFI_HOB_MEMORY_ALLOCATION
    /// The HOB generic header. Header.HobType = EFI_HOB_TYPE_MEMORY_ALLOCATION.
    ///
    pub header: header::Hob,

    /// An instance of the EFI_HOB_MEMORY_ALLOCATION_HEADER that describes the
    /// various attributes of the logical memory allocation.
    ///
    pub alloc_descriptor: header::MemoryAllocation,
    // Additional data pertaining to the "Name" Guid memory
    // may go here.
    //
}

// EFI_HOB_MEMORY_ALLOCATION_STACK
/// Describes the memory stack that is produced by the HOB producer
/// phase and upon which all post-memory-installed executable
/// content in the HOB producer phase is executing.
///
pub type MemoryAllocationStack = MemoryAllocation;

// EFI_HOB_MEMORY_ALLOCATION_BSP_STORE
/// Defines the location of the boot-strap
/// processor (BSP) BSPStore ("Backing Store Pointer Store").
/// This HOB is valid for the Itanium processor family only
/// register overflow store.
///
pub type MemoryAllocationBspStore = MemoryAllocation;

/// Defines the location and entry point of the HOB consumer phase.
///
#[derive(Copy, Clone, Debug)]
pub struct MemoryAllocationModule {
    /// The HOB generic header. Header.HobType = EFI_HOB_TYPE_MEMORY_ALLOCATION.
    ///
    pub header: header::Hob,

    /// An instance of the EFI_HOB_MEMORY_ALLOCATION_HEADER that describes the
    /// various attributes of the logical memory allocation.
    ///
    pub alloc_descriptor: header::MemoryAllocation,

    /// The GUID specifying the values of the firmware file system name
    /// that contains the HOB consumer phase component.
    ///
    pub module_name: Guid, // EFI_GUID

    /// The address of the memory-mapped firmware volume
    /// that contains the HOB consumer phase firmware file.
    ///
    pub entry_point: u64, // EFI_PHYSICAL_ADDRESS
}

//
// Value of ResourceType in EFI_HOB_RESOURCE_DESCRIPTOR.
//
pub const EFI_RESOURCE_SYSTEM_MEMORY: u32 = 0x00000000;
pub const EFI_RESOURCE_MEMORY_MAPPED_IO: u32 = 0x00000001;
pub const EFI_RESOURCE_IO: u32 = 0x00000002;
pub const EFI_RESOURCE_FIRMWARE_DEVICE: u32 = 0x00000003;
pub const EFI_RESOURCE_MEMORY_MAPPED_IO_PORT: u32 = 0x00000004;
pub const EFI_RESOURCE_MEMORY_RESERVED: u32 = 0x00000005;
pub const EFI_RESOURCE_IO_RESERVED: u32 = 0x00000006;

//
// BZ3937_EFI_RESOURCE_MEMORY_UNACCEPTED is defined for unaccepted memory.
// But this definition has not been officially in the PI spec. Base
// on the code-first we define BZ3937_EFI_RESOURCE_MEMORY_UNACCEPTED at
// MdeModulePkg/Include/Pi/PrePiHob.h and update EFI_RESOURCE_MAX_MEMORY_TYPE
// to 8. After BZ3937_EFI_RESOURCE_MEMORY_UNACCEPTED is officially published
// in PI spec, we will re-visit here.
//
// #define BZ3937_EFI_RESOURCE_MEMORY_UNACCEPTED      0x00000007
pub const EFI_RESOURCE_MAX_MEMORY_TYPE: u32 = 0x00000007;

//
// These types can be ORed together as needed.
//
// The following attributes are used to describe settings
//
pub const EFI_RESOURCE_ATTRIBUTE_PRESENT: u32 = 0x00000001;
pub const EFI_RESOURCE_ATTRIBUTE_INITIALIZED: u32 = 0x00000002;
pub const EFI_RESOURCE_ATTRIBUTE_TESTED: u32 = 0x00000004;
pub const EFI_RESOURCE_ATTRIBUTE_READ_PROTECTED: u32 = 0x00000080;

//
// This is typically used as memory cacheability attribute today.
// NOTE: Since PI spec 1.4, please use EFI_RESOURCE_ATTRIBUTE_READ_ONLY_PROTECTED
// as Physical write protected attribute, and EFI_RESOURCE_ATTRIBUTE_WRITE_PROTECTED
// means Memory cacheability attribute: The memory supports being programmed with
// a writeprotected cacheable attribute.
//
pub const EFI_RESOURCE_ATTRIBUTE_WRITE_PROTECTED: u32 = 0x00000100;
pub const EFI_RESOURCE_ATTRIBUTE_EXECUTION_PROTECTED: u32 = 0x00000200;
pub const EFI_RESOURCE_ATTRIBUTE_PERSISTENT: u32 = 0x00800000;

//
// Physical memory relative reliability attribute. This
// memory provides higher reliability relative to other
// memory in the system. If all memory has the same
// reliability, then this bit is not used.
//
pub const EFI_RESOURCE_ATTRIBUTE_MORE_RELIABLE: u32 = 0x02000000;

//
// The rest of the attributes are used to describe capabilities
//
pub const EFI_RESOURCE_ATTRIBUTE_SINGLE_BIT_ECC: u32 = 0x00000008;
pub const EFI_RESOURCE_ATTRIBUTE_MULTIPLE_BIT_ECC: u32 = 0x00000010;
pub const EFI_RESOURCE_ATTRIBUTE_ECC_RESERVED_1: u32 = 0x00000020;
pub const EFI_RESOURCE_ATTRIBUTE_ECC_RESERVED_2: u32 = 0x00000040;
pub const EFI_RESOURCE_ATTRIBUTE_UNCACHEABLE: u32 = 0x00000400;
pub const EFI_RESOURCE_ATTRIBUTE_WRITE_COMBINEABLE: u32 = 0x00000800;
pub const EFI_RESOURCE_ATTRIBUTE_WRITE_THROUGH_CACHEABLE: u32 = 0x00001000;
pub const EFI_RESOURCE_ATTRIBUTE_WRITE_BACK_CACHEABLE: u32 = 0x00002000;
pub const EFI_RESOURCE_ATTRIBUTE_16_BIT_IO: u32 = 0x00004000;
pub const EFI_RESOURCE_ATTRIBUTE_32_BIT_IO: u32 = 0x00008000;
pub const EFI_RESOURCE_ATTRIBUTE_64_BIT_IO: u32 = 0x00010000;
pub const EFI_RESOURCE_ATTRIBUTE_UNCACHED_EXPORTED: u32 = 0x00020000;
pub const EFI_RESOURCE_ATTRIBUTE_READ_PROTECTABLE: u32 = 0x00100000;

//
// This is typically used as memory cacheability attribute today.
// NOTE: Since PI spec 1.4, please use EFI_RESOURCE_ATTRIBUTE_READ_ONLY_PROTECTABLE
// as Memory capability attribute: The memory supports being protected from processor
// writes, and EFI_RESOURCE_ATTRIBUTE_WRITE_PROTECTABLE TABLE means Memory cacheability attribute:
// The memory supports being programmed with a writeprotected cacheable attribute.
//
pub const EFI_RESOURCE_ATTRIBUTE_WRITE_PROTECTABLE: u32 = 0x00200000;
pub const EFI_RESOURCE_ATTRIBUTE_EXECUTION_PROTECTABLE: u32 = 0x00400000;
pub const EFI_RESOURCE_ATTRIBUTE_PERSISTABLE: u32 = 0x01000000;

pub const EFI_RESOURCE_ATTRIBUTE_READ_ONLY_PROTECTED: u32 = 0x00040000;
pub const EFI_RESOURCE_ATTRIBUTE_READ_ONLY_PROTECTABLE: u32 = 0x00080000;

pub const MEMORY_ATTRIBUTE_MASK: u32 = EFI_RESOURCE_ATTRIBUTE_PRESENT
    | EFI_RESOURCE_ATTRIBUTE_INITIALIZED
    | EFI_RESOURCE_ATTRIBUTE_TESTED
    | EFI_RESOURCE_ATTRIBUTE_READ_PROTECTED
    | EFI_RESOURCE_ATTRIBUTE_WRITE_PROTECTED
    | EFI_RESOURCE_ATTRIBUTE_EXECUTION_PROTECTED
    | EFI_RESOURCE_ATTRIBUTE_READ_ONLY_PROTECTED
    | EFI_RESOURCE_ATTRIBUTE_16_BIT_IO
    | EFI_RESOURCE_ATTRIBUTE_32_BIT_IO
    | EFI_RESOURCE_ATTRIBUTE_64_BIT_IO
    | EFI_RESOURCE_ATTRIBUTE_PERSISTENT;

pub const TESTED_MEMORY_ATTRIBUTES: u32 =
    EFI_RESOURCE_ATTRIBUTE_PRESENT | EFI_RESOURCE_ATTRIBUTE_INITIALIZED | EFI_RESOURCE_ATTRIBUTE_TESTED;

pub const INITIALIZED_MEMORY_ATTRIBUTES: u32 = EFI_RESOURCE_ATTRIBUTE_PRESENT | EFI_RESOURCE_ATTRIBUTE_INITIALIZED;

pub const PRESENT_MEMORY_ATTRIBUTES: u32 = EFI_RESOURCE_ATTRIBUTE_PRESENT;

/// Attributes for reserved memory before it is promoted to system memory
pub const EFI_MEMORY_PRESENT: u64 = 0x0100_0000_0000_0000;
pub const EFI_MEMORY_INITIALIZED: u64 = 0x0200_0000_0000_0000;
pub const EFI_MEMORY_TESTED: u64 = 0x0400_0000_0000_0000;

///
/// Physical memory persistence attribute.
/// The memory region supports byte-addressable non-volatility.
///
pub const EFI_MEMORY_NV: u64 = 0x0000_0000_0000_8000;
///
/// The memory region provides higher reliability relative to other memory in the system.
/// If all memory has the same reliability, then this bit is not used.
///
pub const EFI_MEMORY_MORE_RELIABLE: u64 = 0x0000_0000_0001_0000;

/// Describes the resource properties of all fixed,
/// nonrelocatable resource ranges found on the processor
/// host bus during the HOB producer phase.
///
#[derive(Copy, Clone, Debug)]
pub struct ResourceDescriptor {
    // EFI_HOB_RESOURCE_DESCRIPTOR
    /// The HOB generic header. Header.HobType = EFI_HOB_TYPE_RESOURCE_DESCRIPTOR.
    ///
    pub header: header::Hob,

    /// A GUID representing the owner of the resource. This GUID is used by HOB
    /// consumer phase components to correlate device ownership of a resource.
    ///
    pub owner: Guid,

    /// The resource type enumeration as defined by EFI_RESOURCE_TYPE.
    ///
    pub resource_type: u32,

    /// Resource attributes as defined by EFI_RESOURCE_ATTRIBUTE_TYPE.
    ///
    pub resource_attribute: u32,

    /// The physical start address of the resource region.
    ///
    pub physical_start: EfiPhysicalAddress,

    /// The number of bytes of the resource region.
    ///
    pub resource_length: u64,
}

impl ResourceDescriptor {
    /// Each protection that is in force is one that the resource supports.
    pub open spec fn spec_attributes_valid(self) -> bool {
        &&& (self.resource_attribute & EFI_RESOURCE_ATTRIBUTE_READ_PROTECTED == 0
            || self.resource_attribute & EFI_RESOURCE_ATTRIBUTE_READ_ONLY_PROTECTABLE != 0)
        &&& (self.resource_attribute & EFI_RESOURCE_ATTRIBUTE_WRITE_PROTECTED == 0
            || self.resource_attribute & EFI_RESOURCE_ATTRIBUTE_WRITE_PROTECTABLE != 0)
        &&& (self.resource_attribute & EFI_RESOURCE_ATTRIBUTE_EXECUTION_PROTECTED == 0
            || self.resource_attribute & EFI_RESOURCE_ATTRIBUTE_EXECUTION_PROTECTABLE != 0)
        &&& (self.resource_attribute & EFI_RESOURCE_ATTRIBUTE_READ_ONLY_PROTECTED == 0
            || self.resource_attribute & EFI_RESOURCE_ATTRIBUTE_READ_ONLY_PROTECTABLE != 0)
        &&& (self.resource_attribute & EFI_RESOURCE_ATTRIBUTE_PERSISTENT == 0
            || self.resource_attribute & EFI_RESOURCE_ATTRIBUTE_PERSISTABLE != 0)
    }

    /// Tells whether the attributes of the resource agree with each other:
    /// a protection or persistence that is in force is one that the
    /// resource supports.
    pub fn attributes_valid(&self) -> (r: bool)
        ensures
            r == self.spec_attributes_valid(),
    {
        (self.resource_attribute & EFI_RESOURCE_ATTRIBUTE_READ_PROTECTED == 0
            || self.resource_attribute & EFI_RESOURCE_ATTRIBUTE_READ_ONLY_PROTECTABLE != 0) && (
        self.resource_attribute & EFI_RESOURCE_ATTRIBUTE_WRITE_PROTECTED == 0
            || self.resource_attribute & EFI_RESOURCE_ATTRIBUTE_WRITE_PROTECTABLE != 0) && (
        self.resource_attribute & EFI_RESOURCE_ATTRIBUTE_EXECUTION_PROTECTED == 0
            || self.resource_attribute & EFI_RESOURCE_ATTRIBUTE_EXECUTION_PROTECTABLE != 0) && (
        self.resource_attribute & EFI_RESOURCE_ATTRIBUTE_READ_ONLY_PROTECTED == 0
            || self.resource_attribute & EFI_RESOURCE_ATTRIBUTE_READ_ONLY_PROTECTABLE != 0) && (
        self.resource_attribute & EFI_RESOURCE_ATTRIBUTE_PERSISTENT == 0
            || self.resource_attribute & EFI_RESOURCE_ATTRIBUTE_PERSISTABLE != 0)
    }
}

/// Allows writers of executable content in the HOB producer phase to
/// maintain and manage HOBs with specific GUID.
///
#[derive(Copy, Clone, Debug)]
pub struct GuidHob {
    // EFI_HOB_GUID_TYPE
    /// The HOB generic header. Header.HobType = EFI_HOB_TYPE_GUID_EXTENSION.
    ///
    pub header: header::Hob,

    /// A GUID that defines the contents of this HOB.
    ///
    pub name: Guid,
    // Guid specific data goes here
    //
}

/// Details the location of firmware volumes that contain firmware files.
///
#[derive(Copy, Clone, Debug)]
pub struct FirmwareVolume {
    // EFI_HOB_FIRMWARE_VOLUME
    /// The HOB generic header. Header.HobType = EFI_HOB_TYPE_FV.
    ///
    pub header: header::Hob,

    /// The physical memory-mapped base address of the firmware volume.
    ///
    pub base_address: EfiPhysicalAddress,

    /// The length in bytes of the firmware volume.
    ///
    pub length: u64,
}

/// Details the location of a firmware volume that was extracted
/// from a file within another firmware volume.
///
#[derive(Copy, Clone, Debug)]
pub struct FirmwareVolume2 {
    // EFI_HOB_FIRMWARE_VOLUME2
    /// The HOB generic header. Header.HobType = EFI_HOB_TYPE_FV2.
    ///
    pub header: header::Hob,

    /// The physical memory-mapped base address of the firmware volume.
    ///
    pub base_address: EfiPhysicalAddress,

    /// The length in bytes of the firmware volume.
    ///
    pub length: u64,

    /// The name of the firmware volume.
    ///
    pub fv_name: Guid,

    /// The name of the firmware file that contained this firmware volume.
    ///
    pub file_name: Guid,
}

/// Details the location of a firmware volume that was extracted
/// from a file within another firmware volume.
///
#[derive(Copy, Clone, Debug)]
pub struct FirmwareVolume3 {
    // EFI_HOB_FIRMWARE_VOLUME3
    /// The HOB generic header. Header.HobType = EFI_HOB_TYPE_FV3.
    ///
    pub header: header::Hob,

    /// The physical memory-mapped base address of the firmware volume.
    ///
    pub base_address: EfiPhysicalAddress,

    /// The length in bytes of the firmware volume.
    ///
    pub length: u64,

    /// The authentication status.
    ///
    pub authentication_status: u32,

    /// TRUE if the FV was extracted as a file within another firmware volume.
    /// FALSE otherwise.
    ///
    pub extracted_fv: Boolean,

    /// The name of the firmware volume.
    /// Valid only if IsExtractedFv is TRUE.
    ///
    pub fv_name: Guid,

    /// The name of the firmware file that contained this firmware volume.
    /// Valid only if IsExtractedFv is TRUE.
    ///
    pub file_name: Guid,
}

/// Describes processor information, such as address space and I/O space capabilities.
///
#[derive(Copy, Clone, Debug)]
pub struct Cpu {
    // EFI_HOB_CPU
    /// The HOB generic header. Header.HobType = EFI_HOB_TYPE_CPU.
    ///
    pub header: header::Hob,

    /// Identifies the maximum physical memory addressability of the processor.
    ///
    pub size_of_memory_space: u8,

    /// Identifies the maximum physical I/O addressability of the processor.
    ///
    pub size_of_io_space: u8,

    /// This field will always be set to zero.
    ///
    pub reserved: [u8; 6],
}

/// Each UEFI capsule HOB details the location of a UEFI capsule. It includes a base address and length
/// which is based upon memory blocks with a EFI_CAPSULE_HEADER and the associated
/// CapsuleImageSize-based payloads. These HOB's shall be created by the PEI PI firmware
/// sometime after the UEFI UpdateCapsule service invocation with the
/// CAPSULE_FLAGS_POPULATE_SYSTEM_TABLE flag set in the EFI_CAPSULE_HEADER.
///
#[derive(Copy, Clone, Debug)]
pub struct Capsule {
    // EFI_HOB_CAPSULE
    /// The HOB generic header where Header.HobType = EFI_HOB_TYPE_UEFI_CAPSULE.
    ///
    pub header: header::Hob,

    /// The physical memory-mapped base address of an UEFI capsule. This value is set to
    /// point to the base of the contiguous memory of the UEFI capsule.
    /// The length of the contiguous memory in bytes.
    ///
    pub base_address: u8,
    pub length: u8,
}

/// The number of bytes of a phase handoff information table HOB.
pub const PHASE_HANDOFF_INFORMATION_TABLE_SIZE: usize = 56;

/// The number of bytes of a memory allocation HOB.
pub const MEMORY_ALLOCATION_SIZE: usize = 48;

/// The number of bytes of a memory allocation module HOB.
pub const MEMORY_ALLOCATION_MODULE_SIZE: usize = 72;

/// The number of bytes of a capsule HOB.
pub const CAPSULE_SIZE: usize = 12;

/// The number of bytes of a resource descriptor HOB.
pub const RESOURCE_DESCRIPTOR_SIZE: usize = 48;

/// The number of bytes of the fixed part of a GUID extension HOB.
pub const GUID_HOB_SIZE: usize = 24;

/// The number of bytes of a firmware volume HOB.
pub const FIRMWARE_VOLUME_SIZE: usize = 24;

/// The number of bytes of a firmware volume 2 HOB.
pub const FIRMWARE_VOLUME2_SIZE: usize = 56;

/// The number of bytes of a firmware volume 3 HOB.
pub const FIRMWARE_VOLUME3_SIZE: usize = 64;

/// The number of bytes of a CPU HOB.
pub const CPU_SIZE: usize = 16;

/// The number of bytes that stand for a HOB of another type: those of its
/// type field.
pub const MISC_SIZE: usize = 2;

/// The kinds of HOBs that are told apart when a HOB list is read.
#[derive(Clone, Copy, Debug, PartialEq, Eq, Structural)]
pub enum HobKind {
    Handoff,
    MemoryAllocation,
    MemoryAllocationModule,
    ResourceDescriptor,
    GuidHob,
    FirmwareVolume,
    FirmwareVolume2,
    FirmwareVolume3,
    Cpu,
    Capsule,
    /// The HOB that ends the list.
    EndOfHobList,
    /// A HOB of any other type.
    Misc,
}

/// The kind of the HOB with the given type and length. A memory allocation
/// HOB of the length of a memory allocation module HOB is one.
pub open spec fn hob_kind_of(hob_type: u16, length: u16) -> HobKind {
    if hob_type == HANDOFF {
        HobKind::Handoff
    } else if hob_type == MEMORY_ALLOCATION {
        if length == MEMORY_ALLOCATION_MODULE_SIZE {
            HobKind::MemoryAllocationModule
        } else {
            HobKind::MemoryAllocation
        }
    } else if hob_type == RESOURCE_DESCRIPTOR {
        HobKind::ResourceDescriptor
    } else if hob_type == GUID_EXTENSION {
        HobKind::GuidHob
    } else if hob_type == FV {
        HobKind::FirmwareVolume
    } else if hob_type == FV2 {
        HobKind::FirmwareVolume2
    } else if hob_type == FV3 {
        HobKind::FirmwareVolume3
    } else if hob_type == CPU {
        HobKind::Cpu
    } else if hob_type == UEFI_CAPSULE {
        HobKind::Capsule
    } else if hob_type == END_OF_HOB_LIST {
        HobKind::EndOfHobList
    } else {
        HobKind::Misc
    }
}

/// The length that a HOB of the kind has, where every HOB of the kind has
/// the same.
pub open spec fn fixed_length_of(kind: HobKind) -> Option<nat> {
    match kind {
        HobKind::Handoff => Some(PHASE_HANDOFF_INFORMATION_TABLE_SIZE as nat),
        HobKind::MemoryAllocation => Some(MEMORY_ALLOCATION_SIZE as nat),
        HobKind::MemoryAllocationModule => Some(MEMORY_ALLOCATION_MODULE_SIZE as nat),
        HobKind::ResourceDescriptor => Some(RESOURCE_DESCRIPTOR_SIZE as nat),
        HobKind::GuidHob => None,
        HobKind::FirmwareVolume => Some(FIRMWARE_VOLUME_SIZE as nat),
        HobKind::FirmwareVolume2 => Some(FIRMWARE_VOLUME2_SIZE as nat),
        HobKind::FirmwareVolume3 => Some(FIRMWARE_VOLUME3_SIZE as nat),
        HobKind::Cpu => Some(CPU_SIZE as nat),
        HobKind::Capsule => Some(CAPSULE_SIZE as nat),
        HobKind::EndOfHobList => None,
        HobKind::Misc => None,
    }
}

/// Tells the kind of the HOB with the given header.
pub fn hob_kind(header: &header::Hob) -> (kind: HobKind)
    ensures
        kind == hob_kind_of(header.hob_type, header.length),
{
    let hob_type = header.hob_type;
    if hob_type == HANDOFF {
        HobKind::Handoff
    } else if hob_type == MEMORY_ALLOCATION {
        if header.length as usize == MEMORY_ALLOCATION_MODULE_SIZE {
            HobKind::MemoryAllocationModule
        } else {
            HobKind::MemoryAllocation
        }
    } else if hob_type == RESOURCE_DESCRIPTOR {
        HobKind::ResourceDescriptor
    } else if hob_type == GUID_EXTENSION {
        HobKind::GuidHob
    } else if hob_type == FV {
        HobKind::FirmwareVolume
    } else if hob_type == FV2 {
        HobKind::FirmwareVolume2
    } else if hob_type == FV3 {
        HobKind::FirmwareVolume3
    } else if hob_type == CPU {
        HobKind::Cpu
    } else if hob_type == UEFI_CAPSULE {
        HobKind::Capsule
    } else if hob_type == END_OF_HOB_LIST {
        HobKind::EndOfHobList
    } else {
        HobKind::Misc
    }
}

/// Tells whether the HOB with the given header has the length of its kind,
/// where every HOB of the kind has the same length.
pub fn has_length_of_kind(header: &header::Hob) -> (r: bool)
    ensures
        r == match fixed_length_of(hob_kind_of(header.hob_type, header.length)) {
            Some(length) => header.length == length,
            None => true,
        },
{
    let length = header.length as usize;
    match hob_kind(header) {
        HobKind::Handoff => length == PHASE_HANDOFF_INFORMATION_TABLE_SIZE,
        HobKind::MemoryAllocation => length == MEMORY_ALLOCATION_SIZE,
        HobKind::MemoryAllocationModule => length == MEMORY_ALLOCATION_MODULE_SIZE,
        HobKind::ResourceDescriptor => length == RESOURCE_DESCRIPTOR_SIZE,
        HobKind::GuidHob => true,
        HobKind::FirmwareVolume => length == FIRMWARE_VOLUME_SIZE,
        HobKind::FirmwareVolume2 => length == FIRMWARE_VOLUME2_SIZE,
        HobKind::FirmwareVolume3 => length == FIRMWARE_VOLUME3_SIZE,
        HobKind::Cpu => length == CPU_SIZE,
        HobKind::Capsule => length == CAPSULE_SIZE,
        HobKind::EndOfHobList => true,
        HobKind::Misc => true,
    }
}

/// Union of all the possible HOB Types.
///
#[derive(Clone, Copy, Debug)]
pub enum Hob<'a> {
    Handoff(&'a PhaseHandoffInformationTable),
    MemoryAllocation(&'a MemoryAllocation),
    MemoryAllocationModule(&'a MemoryAllocationModule),
    Capsule(&'a Capsule),
    ResourceDescriptor(&'a ResourceDescriptor),
    GuidHob(&'a GuidHob),
    FirmwareVolume(&'a FirmwareVolume),
    FirmwareVolume2(&'a FirmwareVolume2),
    FirmwareVolume3(&'a FirmwareVolume3),
    Cpu(&'a Cpu),
    Misc(u16),
}

/// What every HOB offers.
pub trait HobTrait {
    /// The number of bytes of the HOB.
    spec fn spec_size(&self) -> nat;

    /// Returns the size of the HOB.
    fn size(&self) -> (r: usize)
        ensures
            r == self.spec_size(),
    ;
}

// HOB Trait implementation.
impl HobTrait for Hob<'_> {
    open spec fn spec_size(&self) -> nat {
        match self {
            Hob::Handoff(_) => PHASE_HANDOFF_INFORMATION_TABLE_SIZE as nat,
            Hob::MemoryAllocation(_) => MEMORY_ALLOCATION_SIZE as nat,
            Hob::MemoryAllocationModule(_) => MEMORY_ALLOCATION_MODULE_SIZE as nat,
            Hob::Capsule(_) => CAPSULE_SIZE as nat,
            Hob::ResourceDescriptor(_) => RESOURCE_DESCRIPTOR_SIZE as nat,
            Hob::GuidHob(_) => GUID_HOB_SIZE as nat,
            Hob::FirmwareVolume(_) => FIRMWARE_VOLUME_SIZE as nat,
            Hob::FirmwareVolume2(_) => FIRMWARE_VOLUME2_SIZE as nat,
            Hob::FirmwareVolume3(_) => FIRMWARE_VOLUME3_SIZE as nat,
            Hob::Cpu(_) => CPU_SIZE as nat,
            Hob::Misc(_) => MISC_SIZE as nat,
        }
    }

    /// Returns the size of the HOB.
    fn size(&self) -> (r: usize) {
        match self {
            Hob::Handoff(_) => PHASE_HANDOFF_INFORMATION_TABLE_SIZE,
            Hob::MemoryAllocation(_) => MEMORY_ALLOCATION_SIZE,
            Hob::MemoryAllocationModule(_) => MEMORY_ALLOCATION_MODULE_SIZE,
            Hob::Capsule(_) => CAPSULE_SIZE,
            Hob::ResourceDescriptor(_) => RESOURCE_DESCRIPTOR_SIZE,
            Hob::GuidHob(_) => GUID_HOB_SIZE,
            Hob::FirmwareVolume(_) => FIRMWARE_VOLUME_SIZE,
            Hob::FirmwareVolume2(_) => FIRMWARE_VOLUME2_SIZE,
            Hob::FirmwareVolume3(_) => FIRMWARE_VOLUME3_SIZE,
            Hob::Cpu(_) => CPU_SIZE,
            Hob::Misc(_) => MISC_SIZE,
        }
    }
}

impl Hob<'_> {
    /// The generic header of the HOB.
    pub open spec fn spec_header(self) -> header::Hob {
        match self {
            Hob::Handoff(hob) => hob.header,
            Hob::MemoryAllocation(hob) => hob.header,
            Hob::MemoryAllocationModule(hob) => hob.header,
            Hob::Capsule(hob) => hob.header,
            Hob::ResourceDescriptor(hob) => hob.header,
            Hob::GuidHob(hob) => hob.header,
            Hob::FirmwareVolume(hob) => hob.header,
            Hob::FirmwareVolume2(hob) => hob.header,
            Hob::FirmwareVolume3(hob) => hob.header,
            Hob::Cpu(hob) => hob.header,
            Hob::Misc(hob_type) => header::Hob {
                hob_type,
                length: header::HOB_HEADER_SIZE as u16,
                reserved: 0,
            },
        }
    }

    /// Returns the generic header of the HOB. A HOB of another type than
    /// those that the crate knows has a header of its type and of the length
    /// of the header alone.
    pub fn header(&self) -> (r: header::Hob)
        ensures
            r == self.spec_header(),
    {
        match self {
            Hob::Handoff(hob) => hob.header,
            Hob::MemoryAllocation(hob) => hob.header,
            Hob::MemoryAllocationModule(hob) => hob.header,
            Hob::Capsule(hob) => hob.header,
            Hob::ResourceDescriptor(hob) => hob.header,
            Hob::GuidHob(hob) => hob.header,
            Hob::FirmwareVolume(hob) => hob.header,
            Hob::FirmwareVolume2(hob) => hob.header,
            Hob::FirmwareVolume3(hob) => hob.header,
            Hob::Cpu(hob) => hob.header,
            Hob::Misc(hob_type) => header::Hob {
                hob_type: *hob_type,
                length: header::HOB_HEADER_SIZE as u16,
                reserved: 0,
            },
        }
    }
}

/// The sizes of the first `n` HOBs of a sequence, added up.
pub open spec fn total_size(hobs: Seq<Hob<'_>>, n: int) -> nat
    decreases n,
{
    if n <= 0 {
        0
    } else {
        total_size(hobs, n - 1) + hobs[n - 1].spec_size()
    }
}

/// The total size of a longer part of a sequence is no smaller.
pub proof fn lemma_total_size_grows(hobs: Seq<Hob<'_>>, i: int, j: int)
    requires
        0 <= i <= j,
    ensures
        total_size(hobs, i) <= total_size(hobs, j),
    decreases j - i,
{
    if i < j {
        lemma_total_size_grows(hobs, i, j - 1);
    }
}

/// Represents a HOB list.
///
pub struct HobList<'a>(Vec<Hob<'a>>);

impl<'a> View for HobList<'a> {
    type V = Seq<Hob<'a>>;

    closed spec fn view(&self) -> Seq<Hob<'a>> {
        self.0@
    }
}

impl Default for HobList<'_> {
    fn default() -> (r: Self)
        ensures
            r@.len() == 0,
    {
        HobList::new()
    }
}

impl<'a> HobList<'a> {
    /// Instantiates a Hoblist.
    pub fn new() -> (r: Self)
        ensures
            r@.len() == 0,
    {
        HobList(Vec::new())
    }

    /// Returns the HOBs of the list in the order in which they were added.
    pub fn iter(&self) -> (r: &Vec<Hob<'a>>)
        ensures
            r@ == self@,
    {
        &self.0
    }

    /// Returns the size of the Hoblist in bytes.
    pub fn size(&self) -> (r: usize)
        requires
            total_size(self@, self@.len() as int) <= usize::MAX,
        ensures
            r == total_size(self@, self@.len() as int),
    {
        let mut size_of_hobs: usize = 0;
        let mut i: usize = 0;
        while i < self.0.len()
            invariant
                i <= self.0.len(),
                size_of_hobs == total_size(self.0@, i as int),
                total_size(self.0@, self.0@.len() as int) <= usize::MAX,
            decreases self.0.len() - i,
        {
            proof {
                lemma_total_size_grows(self.0@, i + 1, self.0@.len() as int);
            }
            size_of_hobs = size_of_hobs + self.0[i].size();
            i = i + 1;
        }
        size_of_hobs
    }

    /// Returns the number of hobs in the list.
    pub fn len(&self) -> (r: usize)
        ensures
            r == self@.len(),
    {
        self.0.len()
    }

    /// Returns true if the list is empty.
    pub fn is_empty(&self) -> (r: bool)
        ensures
            r == (self@.len() == 0),
    {
        self.0.len() == 0
    }

    /// Adds a hob to the end of the list.
    pub fn push(&mut self, hob: Hob<'a>)
        ensures
            final(self)@ == old(self)@.push(hob),
    {
        self.0.push(hob);
    }
}

} // verus!
