//! The option and result types of the modular interactive interface.
use vstd::prelude::*;

verus! {

/// Risk level of an option.
#[derive(Debug, Clone, Copy, PartialEq, Eq, Structural)]
pub enum RiskLevel {
    Safe,
    Low,
    Medium,
    High,
    Critical,
    Performance,
    Conditional,
    Warning,
}

/// An optimization option with its metadata.
#[derive(Debug, Clone, Copy)]
pub struct OptItem {
    pub id: &'static str,
    pub label: &'static str,
    pub description: &'static str,
    pub default: bool,
    pub risk: RiskLevel,
}

/// What running a tweak reports.
pub struct ExecutionResult {
    /// How many objects the tweak changed.
    pub _affected_count: usize,
    /// A message for the log.
    pub message: String,
}

impl ExecutionResult {
    /// A result that changed one object.
    pub fn ok(msg: String) -> (r: Self)
        ensures
            r._affected_count == 1,
            r.message@ == msg@,
    {
        ExecutionResult { _affected_count: 1, message: msg }
    }

    /// A result that changed `count` objects.
    pub fn ok_count(count: usize, msg: String) -> (r: Self)
        ensures
            r._affected_count == count,
            r.message@ == msg@,
    {
        ExecutionResult { _affected_count: count, message: msg }
    }
}

} // verus!
