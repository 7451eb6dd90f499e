//! Values read from the registry and the statuses assembled from them.
use vstd::prelude::*;

verus! {

/// Takes registry snapshots (the saving itself is done by the caller).
pub struct RegistryCleaner;

impl RegistryCleaner {
    pub fn new() -> (r: Self) {
        RegistryCleaner
    }
}

impl Default for RegistryCleaner {
    fn default() -> (r: Self) {
        RegistryCleaner
    }
}

/// Windows Defender status.
#[derive(Debug, Clone)]
pub struct DefenderStatus {
    pub antispyware_enabled: bool,
    pub realtime_protection: bool,
    pub tamper_protection: bool,
    pub sample_submission: u32,
    pub exclusion_paths: Vec<String>,
}

/// Windows Firewall status per profile.
#[derive(Debug, Clone, Copy)]
pub struct FirewallStatus {
    pub domain_enabled: bool,
    pub private_enabled: bool,
    pub public_enabled: bool,
}

/// User Account Control status.
#[derive(Debug, Clone, Copy)]
pub struct UacStatus {
    pub enabled: bool,
    pub consent_prompt_behavior: u32,
    pub secure_desktop: bool,
}

} // verus!
