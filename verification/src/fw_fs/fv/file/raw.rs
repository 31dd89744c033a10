//! Raw values of the firmware volume file definitions.

pub mod attribute;
