//! EFI_FV_ATTRIBUTES bit definitions.
//!
//! `ALIGNMENT` traditionally has the same value as `ALIGNMENT_2G`. To reduce confusion, only
//! `ALIGNMENT_2G` is specified.

use vstd::prelude::*;

verus! {

pub const READ_DISABLE_CAP: u64 = 0x0000000000000001;

pub const READ_ENABLE_CAP: u64 = 0x0000000000000002;

pub const READ_STATUS: u64 = 0x0000000000000004;

pub const WRITE_DISABLE_CAP: u64 = 0x0000000000000008;

pub const WRITE_ENABLE_CAP: u64 = 0x0000000000000010;

pub const WRITE_STATUS: u64 = 0x0000000000000020;

pub const LOCK_CAP: u64 = 0x0000000000000040;

pub const LOCK_STATUS: u64 = 0x0000000000000080;

pub const WRITE_POLICY_RELIABLE: u64 = 0x0000000000000100;

pub const READ_LOCK_CAP: u64 = 0x0000000000001000;

pub const READ_LOCK_STATUS: u64 = 0x0000000000002000;

pub const WRITE_LOCK_CAP: u64 = 0x0000000000004000;

pub const WRITE_LOCK_STATUS: u64 = 0x0000000000008000;

pub const ALIGNMENT_1: u64 = 0x0000000000000000;

pub const ALIGNMENT_2: u64 = 0x0000000000010000;

pub const ALIGNMENT_4: u64 = 0x0000000000020000;

pub const ALIGNMENT_8: u64 = 0x0000000000030000;

pub const ALIGNMENT_16: u64 = 0x0000000000040000;

pub const ALIGNMENT_32: u64 = 0x0000000000050000;

pub const ALIGNMENT_64: u64 = 0x0000000000060000;

pub const ALIGNMENT_128: u64 = 0x0000000000070000;

pub const ALIGNMENT_256: u64 = 0x0000000000080000;

pub const ALIGNMENT_512: u64 = 0x0000000000090000;

pub const ALIGNMENT_1K: u64 = 0x00000000000A0000;

pub const ALIGNMENT_2K: u64 = 0x00000000000B0000;

pub const ALIGNMENT_4K: u64 = 0x00000000000C0000;

pub const ALIGNMENT_8K: u64 = 0x00000000000D0000;

pub const ALIGNMENT_16K: u64 = 0x00000000000E0000;

pub const ALIGNMENT_32K: u64 = 0x00000000000F0000;

pub const ALIGNMENT_64K: u64 = 0x0000000000100000;

pub const ALIGNMENT_128K: u64 = 0x0000000000110000;

pub const ALIGNMENT_256K: u64 = 0x0000000000120000;

pub const ALIGNMENT_512K: u64 = 0x0000000000130000;

pub const ALIGNMENT_1M: u64 = 0x0000000000140000;

pub const ALIGNMENT_2M: u64 = 0x0000000000150000;

pub const ALIGNMENT_4M: u64 = 0x0000000000160000;

pub const ALIGNMENT_8M: u64 = 0x0000000000170000;

pub const ALIGNMENT_16M: u64 = 0x0000000000180000;

pub const ALIGNMENT_32M: u64 = 0x0000000000190000;

pub const ALIGNMENT_64M: u64 = 0x00000000001A0000;

pub const ALIGNMENT_128M: u64 = 0x00000000001B0000;

pub const ALIGNMENT_256M: u64 = 0x00000000001C0000;

pub const ALIGNMENT_512M: u64 = 0x00000000001D0000;

pub const ALIGNMENT_1G: u64 = 0x00000000001E0000;

pub const ALIGNMENT_2G: u64 = 0x00000000001F0000;

} // verus!
