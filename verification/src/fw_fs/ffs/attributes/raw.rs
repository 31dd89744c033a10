//! Bits of the attributes byte of a firmware file header.

use vstd::prelude::*;

verus! {

pub const LARGE_FILE: u8 = 0x01;

pub const DATA_ALIGNMENT_2: u8 = 0x02;

pub const FIXED: u8 = 0x04;

pub const DATA_ALIGNMENT: u8 = 0x38;

pub const CHECKSUM: u8 = 0x40;

} // verus!
