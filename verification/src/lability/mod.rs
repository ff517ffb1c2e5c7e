//! The Lability domain: lab model, deployment records, file generators,
//! media repository and PowerShell command builders.

pub mod config;
pub mod deployment;
pub mod generator;
pub mod media;
pub mod powershell;
