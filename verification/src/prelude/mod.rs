//! Small helpers shared by the modules.
pub mod result;
