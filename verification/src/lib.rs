//! Platform Initialization (PI) Specification Definitions and Support Code
//!
//! This crate provides constants, definitions, and support code for the Platform Initialization (PI) Specification
//! maintained by the UEFI Forum. Its core is a read-only parser for firmware volumes, the firmware files they hold
//! and the sections inside those files; beside it stand the hand off blocks of the PI Specification and the rules
//! of UEFI variable policies.
//!
//! Every function of the crate is verified with Verus against the contract that it states: the parsers return what
//! the spec functions beside them describe, no function reads outside of the buffer that it is given, and none
//! panics.
//!
//! Refer to the Platform Initialization (PI) Specification for more background on the specification.
//! <https://uefi.org/specs/PI/1.8A/>

pub mod address_helper;
pub mod base;
pub mod bytes;
pub mod fw_fs;
pub mod hob;
pub mod variable_policy;
