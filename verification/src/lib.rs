//! Audit, classification and option catalogue of a Windows system tuning tool.
use vstd::prelude::*;

pub mod audit;
pub mod cli;
pub mod common;
pub mod interactive;
pub mod text;

verus! {
} // verus!
