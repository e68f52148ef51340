//! Workspaces: who may write to them, where their files lie, and how they are
//! forked and merged.

pub mod coordinator;
pub mod git;
pub mod laws;
pub mod local;
pub mod merge;
