//! Firmware Volume Block (FVB) definitions.
//!
//! Based on the values defined in the UEFI Platform Initialization (PI) Specification V1.8A Section 3.4.2
//! Firmware Volume Block2 Protocol.

pub mod attributes;
