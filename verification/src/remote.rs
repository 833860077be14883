//! The size protocol for the types of other crates.

pub mod indexed;
pub mod json;
