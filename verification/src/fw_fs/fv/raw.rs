//! Raw values of the firmware volume definitions.

pub mod write_policy;
