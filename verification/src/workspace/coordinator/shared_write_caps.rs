//! The capabilities that an adapter needs to share a workspace between writers.

use vstd::prelude::*;

verus! {

/// The capability of an adapter that locks against concurrent writes.
pub const LOCKING: &'static str = "workspace.locking";

/// The capability of an adapter whose writes check a version.
pub const VERSIONED_WRITE: &'static str = "workspace.versioned_write";

/// The capability of an adapter that reports conflicts.
pub const CONFLICT_REPORT: &'static str = "workspace.conflict_report";

} // verus!
