//! Error taxonomy and small helpers.
pub mod errors;
pub mod helper;
