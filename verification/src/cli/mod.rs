//! The decisions of the command-line program: log verbosity, the status
//! view's latency ranking, the integrity verification and the guided wizard.
pub mod analyze;
pub mod status;
pub mod tweaks;
pub mod verbosity;
pub mod verify;
pub mod wizard;
