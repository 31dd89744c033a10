//! EFI_FVB_ATTRIBUTES_2 bit definitions.
//!
//! Typically named `EFI_FVB2_*` in EDK II code. `ALIGNMENT` traditionally has the same value as
//! `ALIGNMENT_2G`. To reduce confusion, only `ALIGNMENT_2G` is specified.

use vstd::prelude::*;

verus! {

pub const READ_DISABLED_CAP: u32 = 0x00000001;

pub const READ_ENABLED_CAP: u32 = 0x00000002;

pub const READ_STATUS: u32 = 0x00000004;

pub const WRITE_DISABLED_CAP: u32 = 0x00000008;

pub const WRITE_ENABLED_CAP: u32 = 0x00000010;

pub const WRITE_STATUS: u32 = 0x00000020;

pub const LOCK_CAP: u32 = 0x00000040;

pub const LOCK_STATUS: u32 = 0x00000080;

pub const STICKY_WRITE: u32 = 0x00000200;

pub const MEMORY_MAPPED: u32 = 0x00000400;

pub const ERASE_POLARITY: u32 = 0x00000800;

pub const READ_LOCK_CAP: u32 = 0x00001000;

pub const READ_LOCK_STATUS: u32 = 0x00002000;

pub const WRITE_LOCK_CAP: u32 = 0x00004000;

pub const WRITE_LOCK_STATUS: u32 = 0x00008000;

pub const ALIGNMENT_1: u32 = 0x00000000;

pub const ALIGNMENT_2: u32 = 0x00010000;

pub const ALIGNMENT_4: u32 = 0x00020000;

pub const ALIGNMENT_8: u32 = 0x00030000;

pub const ALIGNMENT_16: u32 = 0x00040000;

pub const ALIGNMENT_32: u32 = 0x00050000;

pub const ALIGNMENT_64: u32 = 0x00060000;

pub const ALIGNMENT_128: u32 = 0x00070000;

pub const ALIGNMENT_256: u32 = 0x00080000;

pub const ALIGNMENT_512: u32 = 0x00090000;

pub const ALIGNMENT_1K: u32 = 0x000A0000;

pub const ALIGNMENT_2K: u32 = 0x000B0000;

pub const ALIGNMENT_4K: u32 = 0x000C0000;

pub const ALIGNMENT_8K: u32 = 0x000D0000;

pub const ALIGNMENT_16K: u32 = 0x000E0000;

pub const ALIGNMENT_32K: u32 = 0x000F0000;

pub const ALIGNMENT_64K: u32 = 0x00100000;

pub const ALIGNMENT_128K: u32 = 0x00110000;

pub const ALIGNMENT_256K: u32 = 0x00120000;

pub const ALIGNMENT_512K: u32 = 0x00130000;

pub const ALIGNMENT_1M: u32 = 0x00140000;

pub const ALIGNMENT_2M: u32 = 0x00150000;

pub const ALIGNMENT_4M: u32 = 0x00160000;

pub const ALIGNMENT_8M: u32 = 0x00170000;

pub const ALIGNMENT_16M: u32 = 0x00180000;

pub const ALIGNMENT_32M: u32 = 0x00190000;

pub const ALIGNMENT_64M: u32 = 0x001A0000;

pub const ALIGNMENT_128M: u32 = 0x001B0000;

pub const ALIGNMENT_256M: u32 = 0x001C0000;

pub const ALIGNMENT_512M: u32 = 0x001D0000;

pub const ALIGNMENT_1G: u32 = 0x001E0000;

pub const ALIGNMENT_2G: u32 = 0x001F0000;

pub const WEAK_ALIGNMENT: u32 = 0x80000000;

} // verus!
