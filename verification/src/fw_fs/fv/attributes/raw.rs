//! Raw values of the firmware volume attributes.

pub mod fv2;
