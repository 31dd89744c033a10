//! Firmware volume write policy values.
//!
//! Typically named `EFI_FV_*` in EDK II code.

use vstd::prelude::*;

verus! {

pub const UNRELIABLE_WRITE: u32 = 0x00000000;

pub const RELIABLE_WRITE: u32 = 0x00000001;

} // verus!
