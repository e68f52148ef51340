//! The kinds of workspaces, as they are recorded.

use vstd::prelude::*;

verus! {

/// The kind of a workspace in a Git worktree.
pub const GIT_WORKTREE: &'static str = "git-worktree";

/// The kind of a workspace in a copied directory.
pub const COPY_FORK: &'static str = "copy-fork";

} // verus!
