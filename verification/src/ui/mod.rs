//! Screen-level helpers that the user interface builds on.

pub mod network;
pub mod vm_config;
