//! Artifacts, by their ids and by their addresses.

use vstd::prelude::*;

use crate::domain::{ArtifactId, RunId};
use crate::errors::{
    conflict, conflict_error, failed_precondition, outcome, precondition_error, ErrorView,
    KernelError,
};
use crate::store::rows::{artifact_row, make_artifact, ArtifactRow, NewArtifact};
use crate::store::state::{MockState, StoreModel};
use crate::store::table::{added, insert_unique, selects};

verus! {

/// The store after an artifact was recorded, and what that returns: its address is
/// taken first, also where its id is there already.
pub open spec fn artifact_added(m: StoreModel, new: NewArtifact) -> (StoreModel, Result<(), ErrorView>) {
    if !m.runs.contains_key(new.origin_run_id) {
        (m, Err(failed_precondition("artifact references a missing run"@)))
    } else if new.origin_effect_id matches Some(e) && !m.effects.contains_key(e) {
        (m, Err(failed_precondition("artifact references a missing effect"@)))
    } else if m.artifacts_by_uri.contains_key(new.uri@) {
        (m, Err(conflict("duplicate artifact uri"@)))
    } else {
        let a = added(
            m.artifacts_by_id,
            new.artifact_id,
            artifact_row(new),
            "duplicate artifact id"@,
        );
        (
            StoreModel {
                artifacts_by_uri: m.artifacts_by_uri.insert(new.uri@, new.artifact_id),
                artifacts_by_id: a.0,
                ..m
            },
            a.1,
        )
    }
}

/// The artifact at an address.
pub open spec fn artifact_at(m: StoreModel, uri: Seq<char>) -> Option<ArtifactRow> {
    if m.artifacts_by_uri.contains_key(uri) && m.artifacts_by_id.contains_key(
        m.artifacts_by_uri[uri],
    ) {
        Some(m.artifacts_by_id[m.artifacts_by_uri[uri]])
    } else {
        None
    }
}

/// The artifacts of a run.
pub open spec fn artifact_of_run(run: RunId) -> spec_fn(ArtifactRow) -> bool {
    |row: ArtifactRow| row.origin_run_id == run
}

/// Artifacts by the time of their creation.
pub open spec fn artifact_order() -> spec_fn(ArtifactRow, ArtifactRow) -> bool {
    |a: ArtifactRow, b: ArtifactRow| a.created_at_ms < b.created_at_ms
}

impl MockState {
    /// The artifact `id`.
    pub fn get_artifact(&self, id: ArtifactId) -> (r: Option<&ArtifactRow>)
        ensures
            match r {
                Some(row) => self@.artifacts_by_id.contains_key(id) && self@.artifacts_by_id[id]
                    == *row,
                None => !self@.artifacts_by_id.contains_key(id),
            },
    {
        self.artifacts_by_id.get(&id)
    }

    /// The artifact at an address.
    pub fn get_artifact_by_uri(&self, uri: &str) -> (r: Option<&ArtifactRow>)
        ensures
            match r {
                Some(row) => artifact_at(self@, uri@) == Some(*row),
                None => artifact_at(self@, uri@) is None,
            },
    {
        match self.artifacts_by_uri.get(&uri.to_owned()) {
            Some(id) => self.artifacts_by_id.get(id),
            None => None,
        }
    }

    /// The artifacts of a run, the oldest first.
    pub fn list_artifacts_by_run(&self, run: RunId) -> (r: Vec<ArtifactRow>)
        ensures
            selects(r@, self@.artifacts_by_id, artifact_of_run(run), artifact_order()),
    {
        let test = |row: &ArtifactRow| -> (b: bool)
            ensures
                b == (row.origin_run_id == run),
            { row.origin_run_id == run };
        let less = |a: &ArtifactRow, b: &ArtifactRow| -> (c: bool)
            ensures
                c == (a.created_at_ms < b.created_at_ms),
            { a.created_at_ms < b.created_at_ms };
        self.artifacts_by_id.select(test, less, Ghost(artifact_of_run(run)), Ghost(artifact_order()))
    }

    /// Records an artifact.
    pub fn insert_artifact(&mut self, new: NewArtifact) -> (r: Result<(), KernelError>)
        ensures
            (final(self)@, outcome(r)) == artifact_added(old(self)@, new),
    {
        if !self.runs.contains(&new.origin_run_id) {
            return Err(precondition_error("artifact references a missing run"));
        }
        if let Some(effect) = new.origin_effect_id {
            if !self.effects.contains(&effect) {
                return Err(precondition_error("artifact references a missing effect"));
            }
        }
        let uri = new.uri.clone();
        if self.artifacts_by_uri.contains(&uri) {
            return Err(conflict_error("duplicate artifact uri"));
        }
        let id = new.artifact_id;
        let row = make_artifact(new);
        self.artifacts_by_uri.put(uri, id);
        insert_unique(&mut self.artifacts_by_id, id, row, "duplicate artifact id")
    }
}

/// An artifact that was recorded is found at its address.
pub proof fn recorded_artifacts_are_found(m: StoreModel, new: NewArtifact)
    requires
        artifact_added(m, new).1 is Ok,
    ensures
        artifact_at(artifact_added(m, new).0, new.uri@) == Some(artifact_row(new)),
{
}

} // verus!
