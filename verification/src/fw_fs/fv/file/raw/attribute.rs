//! Firmware volume file attributes.
//!
//! Typically named `EFI_FV_FILE_ATTRIB_*` in EDK II code.

use vstd::prelude::*;

verus! {

pub const ALIGNMENT: u32 = 0x0000001F;

pub const FIXED: u32 = 0x00000100;

pub const MEMORY_MAPPED: u32 = 0x00000200;

} // verus!
