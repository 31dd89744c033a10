//! Firmware volume block attributes.
//!
//! Based on the values defined in the UEFI Platform Initialization (PI) Specification V1.8A Section 3.2.1.1
//! EFI_FIRMWARE_VOLUME_HEADER.

pub mod raw;

use vstd::prelude::*;

verus! {

pub type EfiFvbAttributes2 = u32;

/// The attributes of a firmware volume block.
#[derive(Debug, Copy, Clone, PartialEq, Eq, Structural)]
pub enum Fvb2 {
    ReadDisableCap,
    ReadEnableCap,
    ReadStatus,
    WriteDisableCap,
    WriteEnableCap,
    WriteStatus,
    LockCap,
    LockStatus,
    StickyWrite,
    MemoryMapped,
    ErasePolarity,
    ReadLockCap,
    ReadLockStatus,
    WriteLockCap,
    WriteLockStatus,
    Alignment1,
    Alignment2,
    Alignment4,
    Alignment8,
    Alignment16,
    Alignment32,
    Alignment64,
    Alignment128,
    Alignment256,
    Alignment512,
    Alignment1K,
    Alignment2K,
    Alignment4K,
    Alignment8K,
    Alignment16K,
    Alignment32K,
    Alignment64K,
    Alignment128K,
    Alignment256K,
    Alignment512K,
    Alignment1M,
    Alignment2M,
    Alignment4M,
    Alignment8M,
    Alignment16M,
    Alignment32M,
    Alignment64M,
    Alignment128M,
    Alignment256M,
    Alignment512M,
    Alignment1G,
    Alignment2G,
    WeakAlignment,
}

impl Fvb2 {
    /// The value that stands for the variant in the binary format.
    pub open spec fn spec_raw(self) -> u32 {
        match self {
            Fvb2::ReadDisableCap => raw::fvb2::READ_DISABLED_CAP,
            Fvb2::ReadEnableCap => raw::fvb2::READ_ENABLED_CAP,
            Fvb2::ReadStatus => raw::fvb2::READ_STATUS,
            Fvb2::WriteDisableCap => raw::fvb2::WRITE_DISABLED_CAP,
            Fvb2::WriteEnableCap => raw::fvb2::WRITE_ENABLED_CAP,
            Fvb2::WriteStatus => raw::fvb2::WRITE_STATUS,
            Fvb2::LockCap => raw::fvb2::LOCK_CAP,
            Fvb2::LockStatus => raw::fvb2::LOCK_STATUS,
            Fvb2::StickyWrite => raw::fvb2::STICKY_WRITE,
            Fvb2::MemoryMapped => raw::fvb2::MEMORY_MAPPED,
            Fvb2::ErasePolarity => raw::fvb2::ERASE_POLARITY,
            Fvb2::ReadLockCap => raw::fvb2::READ_LOCK_CAP,
            Fvb2::ReadLockStatus => raw::fvb2::READ_LOCK_STATUS,
            Fvb2::WriteLockCap => raw::fvb2::WRITE_LOCK_CAP,
            Fvb2::WriteLockStatus => raw::fvb2::WRITE_LOCK_STATUS,
            Fvb2::Alignment1 => raw::fvb2::ALIGNMENT_1,
            Fvb2::Alignment2 => raw::fvb2::ALIGNMENT_2,
            Fvb2::Alignment4 => raw::fvb2::ALIGNMENT_4,
            Fvb2::Alignment8 => raw::fvb2::ALIGNMENT_8,
            Fvb2::Alignment16 => raw::fvb2::ALIGNMENT_16,
            Fvb2::Alignment32 => raw::fvb2::ALIGNMENT_32,
            Fvb2::Alignment64 => raw::fvb2::ALIGNMENT_64,
            Fvb2::Alignment128 => raw::fvb2::ALIGNMENT_128,
            Fvb2::Alignment256 => raw::fvb2::ALIGNMENT_256,
            Fvb2::Alignment512 => raw::fvb2::ALIGNMENT_512,
            Fvb2::Alignment1K => raw::fvb2::ALIGNMENT_1K,
            Fvb2::Alignment2K => raw::fvb2::ALIGNMENT_2K,
            Fvb2::Alignment4K => raw::fvb2::ALIGNMENT_4K,
            Fvb2::Alignment8K => raw::fvb2::ALIGNMENT_8K,
            Fvb2::Alignment16K => raw::fvb2::ALIGNMENT_16K,
            Fvb2::Alignment32K => raw::fvb2::ALIGNMENT_32K,
            Fvb2::Alignment64K => raw::fvb2::ALIGNMENT_64K,
            Fvb2::Alignment128K => raw::fvb2::ALIGNMENT_128K,
            Fvb2::Alignment256K => raw::fvb2::ALIGNMENT_256K,
            Fvb2::Alignment512K => raw::fvb2::ALIGNMENT_512K,
            Fvb2::Alignment1M => raw::fvb2::ALIGNMENT_1M,
            Fvb2::Alignment2M => raw::fvb2::ALIGNMENT_2M,
            Fvb2::Alignment4M => raw::fvb2::ALIGNMENT_4M,
            Fvb2::Alignment8M => raw::fvb2::ALIGNMENT_8M,
            Fvb2::Alignment16M => raw::fvb2::ALIGNMENT_16M,
            Fvb2::Alignment32M => raw::fvb2::ALIGNMENT_32M,
            Fvb2::Alignment64M => raw::fvb2::ALIGNMENT_64M,
            Fvb2::Alignment128M => raw::fvb2::ALIGNMENT_128M,
            Fvb2::Alignment256M => raw::fvb2::ALIGNMENT_256M,
            Fvb2::Alignment512M => raw::fvb2::ALIGNMENT_512M,
            Fvb2::Alignment1G => raw::fvb2::ALIGNMENT_1G,
            Fvb2::Alignment2G => raw::fvb2::ALIGNMENT_2G,
            Fvb2::WeakAlignment => raw::fvb2::WEAK_ALIGNMENT,
        }
    }

    /// The value that stands for the variant in the binary format.
    pub fn to_raw(&self) -> (raw: u32)
        ensures
            raw == self.spec_raw(),
    {
        match self {
            Fvb2::ReadDisableCap => raw::fvb2::READ_DISABLED_CAP,
            Fvb2::ReadEnableCap => raw::fvb2::READ_ENABLED_CAP,
            Fvb2::ReadStatus => raw::fvb2::READ_STATUS,
            Fvb2::WriteDisableCap => raw::fvb2::WRITE_DISABLED_CAP,
            Fvb2::WriteEnableCap => raw::fvb2::WRITE_ENABLED_CAP,
            Fvb2::WriteStatus => raw::fvb2::WRITE_STATUS,
            Fvb2::LockCap => raw::fvb2::LOCK_CAP,
            Fvb2::LockStatus => raw::fvb2::LOCK_STATUS,
            Fvb2::StickyWrite => raw::fvb2::STICKY_WRITE,
            Fvb2::MemoryMapped => raw::fvb2::MEMORY_MAPPED,
            Fvb2::ErasePolarity => raw::fvb2::ERASE_POLARITY,
            Fvb2::ReadLockCap => raw::fvb2::READ_LOCK_CAP,
            Fvb2::ReadLockStatus => raw::fvb2::READ_LOCK_STATUS,
            Fvb2::WriteLockCap => raw::fvb2::WRITE_LOCK_CAP,
            Fvb2::WriteLockStatus => raw::fvb2::WRITE_LOCK_STATUS,
            Fvb2::Alignment1 => raw::fvb2::ALIGNMENT_1,
            Fvb2::Alignment2 => raw::fvb2::ALIGNMENT_2,
            Fvb2::Alignment4 => raw::fvb2::ALIGNMENT_4,
            Fvb2::Alignment8 => raw::fvb2::ALIGNMENT_8,
            Fvb2::Alignment16 => raw::fvb2::ALIGNMENT_16,
            Fvb2::Alignment32 => raw::fvb2::ALIGNMENT_32,
            Fvb2::Alignment64 => raw::fvb2::ALIGNMENT_64,
            Fvb2::Alignment128 => raw::fvb2::ALIGNMENT_128,
            Fvb2::Alignment256 => raw::fvb2::ALIGNMENT_256,
            Fvb2::Alignment512 => raw::fvb2::ALIGNMENT_512,
            Fvb2::Alignment1K => raw::fvb2::ALIGNMENT_1K,
            Fvb2::Alignment2K => raw::fvb2::ALIGNMENT_2K,
            Fvb2::Alignment4K => raw::fvb2::ALIGNMENT_4K,
            Fvb2::Alignment8K => raw::fvb2::ALIGNMENT_8K,
            Fvb2::Alignment16K => raw::fvb2::ALIGNMENT_16K,
            Fvb2::Alignment32K => raw::fvb2::ALIGNMENT_32K,
            Fvb2::Alignment64K => raw::fvb2::ALIGNMENT_64K,
            Fvb2::Alignment128K => raw::fvb2::ALIGNMENT_128K,
            Fvb2::Alignment256K => raw::fvb2::ALIGNMENT_256K,
            Fvb2::Alignment512K => raw::fvb2::ALIGNMENT_512K,
            Fvb2::Alignment1M => raw::fvb2::ALIGNMENT_1M,
            Fvb2::Alignment2M => raw::fvb2::ALIGNMENT_2M,
            Fvb2::Alignment4M => raw::fvb2::ALIGNMENT_4M,
            Fvb2::Alignment8M => raw::fvb2::ALIGNMENT_8M,
            Fvb2::Alignment16M => raw::fvb2::ALIGNMENT_16M,
            Fvb2::Alignment32M => raw::fvb2::ALIGNMENT_32M,
            Fvb2::Alignment64M => raw::fvb2::ALIGNMENT_64M,
            Fvb2::Alignment128M => raw::fvb2::ALIGNMENT_128M,
            Fvb2::Alignment256M => raw::fvb2::ALIGNMENT_256M,
            Fvb2::Alignment512M => raw::fvb2::ALIGNMENT_512M,
            Fvb2::Alignment1G => raw::fvb2::ALIGNMENT_1G,
            Fvb2::Alignment2G => raw::fvb2::ALIGNMENT_2G,
            Fvb2::WeakAlignment => raw::fvb2::WEAK_ALIGNMENT,
        }
    }
}

} // verus!
