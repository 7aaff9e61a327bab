//! The records that the application keeps.

pub mod memo;
pub mod timestamp;
