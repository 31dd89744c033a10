//! Firmware volume file definitions.
//!
//! Based on the bindings and definitions in the UEFI Platform Initialization (PI)
//! Specification V1.8A 3.1 Firmware Storage Code Definitions.

pub mod raw;

use vstd::prelude::*;

verus! {

pub type EfiFvFileAttributes = u32;

/// The attributes of a file in a firmware volume.
#[derive(Debug, Copy, Clone, PartialEq, Eq, Structural)]
pub enum Attribute {
    Alignment,
    Fixed,
    MemoryMapped,
}

impl Attribute {
    /// The value that stands for the variant in the binary format.
    pub open spec fn spec_raw(self) -> u32 {
        match self {
            Attribute::Alignment => raw::attribute::ALIGNMENT,
            Attribute::Fixed => raw::attribute::FIXED,
            Attribute::MemoryMapped => raw::attribute::MEMORY_MAPPED,
        }
    }

    /// The value that stands for the variant in the binary format.
    pub fn to_raw(&self) -> (raw: u32)
        ensures
            raw == self.spec_raw(),
    {
        match self {
            Attribute::Alignment => raw::attribute::ALIGNMENT,
            Attribute::Fixed => raw::attribute::FIXED,
            Attribute::MemoryMapped => raw::attribute::MEMORY_MAPPED,
        }
    }
}

} // verus!
