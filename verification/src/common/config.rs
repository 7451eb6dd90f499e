//! Global configuration.
use vstd::prelude::*;

use crate::text::owned;

verus! {

/// Global configuration.
#[derive(Debug, Clone)]
pub struct PieuvreConfig {
    /// Directory that holds the snapshots.
    pub snapshot_dir: String,
    /// Log level.
    pub log_level: String,
    /// Dry-run by default.
    pub dry_run: bool,
}

impl Default for PieuvreConfig {
    fn default() -> (r: Self)
        ensures
            r.snapshot_dir@ == "C:\\ProgramData\\pieuvre\\snapshots"@,
            r.log_level@ == "info"@,
            !r.dry_run,
    {
        PieuvreConfig {
            snapshot_dir: owned("C:\\ProgramData\\pieuvre\\snapshots"),
            log_level: owned("info"),
            dry_run: false,
        }
    }
}

} // verus!
