//! Declarative partition-table planning: size policies, a view of a disk's
//! partition table, geometry compilation and the plan-execution state machine.

pub mod size;
pub mod view;
pub mod plan;
pub mod geometry;
pub mod executor;

use vstd::prelude::*;

verus! {

/// Errors of the command-line front end.
#[derive(Debug, Clone, PartialEq, Eq)]
pub enum NDiskError {
    /// The file at this path could not be found.
    FileNotFound(String),
}

} // verus!
