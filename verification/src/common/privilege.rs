//! The privileges that low-level backup and restore operations need.
use vstd::prelude::*;

verus! {

/// Acquires the system privileges needed for low-level operations.
pub struct PrivilegeManager;

impl PrivilegeManager {
    /// The privileges that `enable_system_privileges` enables, in the order
    /// in which they are enabled: backup, then restore.
    pub fn system_privileges() -> (r: Vec<&'static str>)
        ensures
            r@.len() == 2,
            r@[0]@ == "SeBackupPrivilege"@,
            r@[1]@ == "SeRestorePrivilege"@,
    {
        vec!["SeBackupPrivilege", "SeRestorePrivilege"]
    }
}

} // verus!
