//! Data types and configuration shared by the audit and the interactive modules.
pub mod config;
pub mod privilege;
pub mod types;
