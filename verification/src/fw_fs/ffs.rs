//! Firmware File System (FFS) definitions.
//!
//! Based on the values defined in the UEFI Platform Initialization (PI) Specification V1.8A Section 3.2.2
//! Firmware File System.

pub mod attributes;
pub mod file;
pub mod guid;
pub mod section;
