//! Raw values of the firmware volume block attributes.

pub mod fvb2;
