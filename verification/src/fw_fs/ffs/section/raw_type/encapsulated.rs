//! Types of the sections that hold further sections.

use vstd::prelude::*;

verus! {

pub const COMPRESSION: u8 = 0x01;

pub const GUID_DEFINED: u8 = 0x02;

pub const DISPOSABLE: u8 = 0x03;

} // verus!
