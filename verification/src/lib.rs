//! Verified core of a terminal manager for Lability Hyper-V labs: the lab
//! model, the configuration-file generators, the PowerShell command builders
//! and the application state machine behind the screens.

pub mod app;
pub mod lability;
pub mod text;
pub mod ui;
