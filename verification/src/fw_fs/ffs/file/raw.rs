//! Raw values of the firmware file header fields.

pub mod file_type;
pub mod state;
