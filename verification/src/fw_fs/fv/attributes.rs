//! Firmware volume attributes.
//!
//! Based on the values defined in the UEFI Platform Initialization (PI) Specification V1.8A Section 3.2.1.1
//! EFI_FIRMWARE_VOLUME_HEADER.

pub mod raw;

use vstd::prelude::*;

verus! {

pub type EfiFvAttributes = u64;

/// The attributes of a firmware volume.
#[derive(Debug, Copy, Clone, PartialEq, Eq, Structural)]
pub enum Fv2 {
    ReadDisableCap,
    ReadEnableCap,
    ReadStatus,
    WriteDisableCap,
    WriteEnableCap,
    WriteStatus,
    LockCap,
    LockStatus,
    WritePolicyReliable,
    ReadLockCap,
    ReadLockStatus,
    WriteLockCap,
    WriteLockStatus,
    Alignment1,
    Alignment2,
    Alignment4,
    Alignment8,
    Alignment16,
    Alignment32,
    Alignment64,
    Alignment128,
    Alignment256,
    Alignment512,
    Alignment1K,
    Alignment2K,
    Alignment4K,
    Alignment8K,
    Alignment16K,
    Alignment32K,
    Alignment64K,
    Alignment128K,
    Alignment256K,
    Alignment512K,
    Alignment1M,
    Alignment2M,
    Alignment4M,
    Alignment8M,
    Alignment16M,
    Alignment32M,
    Alignment64M,
    Alignment128M,
    Alignment256M,
    Alignment512M,
    Alignment1G,
    Alignment2G,
}

impl Fv2 {
    /// The value that stands for the variant in the binary format.
    pub open spec fn spec_raw(self) -> u64 {
        match self {
            Fv2::ReadDisableCap => raw::fv2::READ_DISABLE_CAP,
            Fv2::ReadEnableCap => raw::fv2::READ_ENABLE_CAP,
            Fv2::ReadStatus => raw::fv2::READ_STATUS,
            Fv2::WriteDisableCap => raw::fv2::WRITE_DISABLE_CAP,
            Fv2::WriteEnableCap => raw::fv2::WRITE_ENABLE_CAP,
            Fv2::WriteStatus => raw::fv2::WRITE_STATUS,
            Fv2::LockCap => raw::fv2::LOCK_CAP,
            Fv2::LockStatus => raw::fv2::LOCK_STATUS,
            Fv2::WritePolicyReliable => raw::fv2::WRITE_POLICY_RELIABLE,
            Fv2::ReadLockCap => raw::fv2::READ_LOCK_CAP,
            Fv2::ReadLockStatus => raw::fv2::READ_LOCK_STATUS,
            Fv2::WriteLockCap => raw::fv2::WRITE_LOCK_CAP,
            Fv2::WriteLockStatus => raw::fv2::WRITE_LOCK_STATUS,
            Fv2::Alignment1 => raw::fv2::ALIGNMENT_1,
            Fv2::Alignment2 => raw::fv2::ALIGNMENT_2,
            Fv2::Alignment4 => raw::fv2::ALIGNMENT_4,
            Fv2::Alignment8 => raw::fv2::ALIGNMENT_8,
            Fv2::Alignment16 => raw::fv2::ALIGNMENT_16,
            Fv2::Alignment32 => raw::fv2::ALIGNMENT_32,
            Fv2::Alignment64 => raw::fv2::ALIGNMENT_64,
            Fv2::Alignment128 => raw::fv2::ALIGNMENT_128,
            Fv2::Alignment256 => raw::fv2::ALIGNMENT_256,
            Fv2::Alignment512 => raw::fv2::ALIGNMENT_512,
            Fv2::Alignment1K => raw::fv2::ALIGNMENT_1K,
            Fv2::Alignment2K => raw::fv2::ALIGNMENT_2K,
            Fv2::Alignment4K => raw::fv2::ALIGNMENT_4K,
            Fv2::Alignment8K => raw::fv2::ALIGNMENT_8K,
            Fv2::Alignment16K => raw::fv2::ALIGNMENT_16K,
            Fv2::Alignment32K => raw::fv2::ALIGNMENT_32K,
            Fv2::Alignment64K => raw::fv2::ALIGNMENT_64K,
            Fv2::Alignment128K => raw::fv2::ALIGNMENT_128K,
            Fv2::Alignment256K => raw::fv2::ALIGNMENT_256K,
            Fv2::Alignment512K => raw::fv2::ALIGNMENT_512K,
            Fv2::Alignment1M => raw::fv2::ALIGNMENT_1M,
            Fv2::Alignment2M => raw::fv2::ALIGNMENT_2M,
            Fv2::Alignment4M => raw::fv2::ALIGNMENT_4M,
            Fv2::Alignment8M => raw::fv2::ALIGNMENT_8M,
            Fv2::Alignment16M => raw::fv2::ALIGNMENT_16M,
            Fv2::Alignment32M => raw::fv2::ALIGNMENT_32M,
            Fv2::Alignment64M => raw::fv2::ALIGNMENT_64M,
            Fv2::Alignment128M => raw::fv2::ALIGNMENT_128M,
            Fv2::Alignment256M => raw::fv2::ALIGNMENT_256M,
            Fv2::Alignment512M => raw::fv2::ALIGNMENT_512M,
            Fv2::Alignment1G => raw::fv2::ALIGNMENT_1G,
            Fv2::Alignment2G => raw::fv2::ALIGNMENT_2G,
        }
    }

    /// The value that stands for the variant in the binary format.
    pub fn to_raw(&self) -> (raw: u64)
        ensures
            raw == self.spec_raw(),
    {
        match self {
            Fv2::ReadDisableCap => raw::fv2::READ_DISABLE_CAP,
            Fv2::ReadEnableCap => raw::fv2::READ_ENABLE_CAP,
            Fv2::ReadStatus => raw::fv2::READ_STATUS,
            Fv2::WriteDisableCap => raw::fv2::WRITE_DISABLE_CAP,
            Fv2::WriteEnableCap => raw::fv2::WRITE_ENABLE_CAP,
            Fv2::WriteStatus => raw::fv2::WRITE_STATUS,
            Fv2::LockCap => raw::fv2::LOCK_CAP,
            Fv2::LockStatus => raw::fv2::LOCK_STATUS,
            Fv2::WritePolicyReliable => raw::fv2::WRITE_POLICY_RELIABLE,
            Fv2::ReadLockCap => raw::fv2::READ_LOCK_CAP,
            Fv2::ReadLockStatus => raw::fv2::READ_LOCK_STATUS,
            Fv2::WriteLockCap => raw::fv2::WRITE_LOCK_CAP,
            Fv2::WriteLockStatus => raw::fv2::WRITE_LOCK_STATUS,
            Fv2::Alignment1 => raw::fv2::ALIGNMENT_1,
            Fv2::Alignment2 => raw::fv2::ALIGNMENT_2,
            Fv2::Alignment4 => raw::fv2::ALIGNMENT_4,
            Fv2::Alignment8 => raw::fv2::ALIGNMENT_8,
            Fv2::Alignment16 => raw::fv2::ALIGNMENT_16,
            Fv2::Alignment32 => raw::fv2::ALIGNMENT_32,
            Fv2::Alignment64 => raw::fv2::ALIGNMENT_64,
            Fv2::Alignment128 => raw::fv2::ALIGNMENT_128,
            Fv2::Alignment256 => raw::fv2::ALIGNMENT_256,
            Fv2::Alignment512 => raw::fv2::ALIGNMENT_512,
            Fv2::Alignment1K => raw::fv2::ALIGNMENT_1K,
            Fv2::Alignment2K => raw::fv2::ALIGNMENT_2K,
            Fv2::Alignment4K => raw::fv2::ALIGNMENT_4K,
            Fv2::Alignment8K => raw::fv2::ALIGNMENT_8K,
            Fv2::Alignment16K => raw::fv2::ALIGNMENT_16K,
            Fv2::Alignment32K => raw::fv2::ALIGNMENT_32K,
            Fv2::Alignment64K => raw::fv2::ALIGNMENT_64K,
            Fv2::Alignment128K => raw::fv2::ALIGNMENT_128K,
            Fv2::Alignment256K => raw::fv2::ALIGNMENT_256K,
            Fv2::Alignment512K => raw::fv2::ALIGNMENT_512K,
            Fv2::Alignment1M => raw::fv2::ALIGNMENT_1M,
            Fv2::Alignment2M => raw::fv2::ALIGNMENT_2M,
            Fv2::Alignment4M => raw::fv2::ALIGNMENT_4M,
            Fv2::Alignment8M => raw::fv2::ALIGNMENT_8M,
            Fv2::Alignment16M => raw::fv2::ALIGNMENT_16M,
            Fv2::Alignment32M => raw::fv2::ALIGNMENT_32M,
            Fv2::Alignment64M => raw::fv2::ALIGNMENT_64M,
            Fv2::Alignment128M => raw::fv2::ALIGNMENT_128M,
            Fv2::Alignment256M => raw::fv2::ALIGNMENT_256M,
            Fv2::Alignment512M => raw::fv2::ALIGNMENT_512M,
            Fv2::Alignment1G => raw::fv2::ALIGNMENT_1G,
            Fv2::Alignment2G => raw::fv2::ALIGNMENT_2G,
        }
    }
}

} // verus!
