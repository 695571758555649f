//! Small data structures shared by the packages.

pub mod errors;
pub mod structs;
