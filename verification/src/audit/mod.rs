//! Read-only audit of the system: the classification and scoring logic.
pub mod appx;
pub mod registry;
pub mod security;
pub mod services;
pub mod network;
pub mod compliance;
pub mod etw;
pub mod hardware;
pub mod report;
