//! Firmware file section types.
//!
//! Typically called `EFI_SECTION_*` in EDK II code.

pub mod encapsulated;

use vstd::prelude::*;

verus! {

pub const ALL: u8 = 0x00;

pub const PE32: u8 = 0x10;

pub const PIC: u8 = 0x11;

pub const TE: u8 = 0x12;

pub const DXE_DEPEX: u8 = 0x13;

pub const VERSION: u8 = 0x14;

pub const USER_INTERFACE: u8 = 0x15;

pub const COMPATIBILITY16: u8 = 0x16;

pub const FIRMWARE_VOLUME_IMAGE: u8 = 0x17;

pub const FREEFORM_SUBTYPE_GUID: u8 = 0x18;

pub const RAW: u8 = 0x19;

pub const PEI_DEPEX: u8 = 0x1B;

pub const MM_DEPEX: u8 = 0x1C;

pub const OEM_MIN: u8 = 0xC0;

pub const OEM_MAX: u8 = 0xDF;

pub const DEBUG_MIN: u8 = 0xE0;

pub const DEBUG_MAX: u8 = 0xEF;

pub const FFS_MIN: u8 = 0xF0;

pub const FFS_PAD: u8 = 0xF0;

pub const FFS_MAX: u8 = 0xFF;

} // verus!
