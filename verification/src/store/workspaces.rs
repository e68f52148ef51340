//! Workspaces and the leases on them.

use vstd::prelude::*;

use crate::domain::{
    Bytes, LeaseEnforcementState, LeaseId, RunId, WorkspaceAccessMode, WorkspaceId,
};
use crate::errors::{
    conflict, conflict_error, failed_precondition, outcome, precondition_error, ErrorView,
    KernelError,
};
use crate::store::rows::{
    make_workspace, make_workspace_lease, workspace_lease_row, workspace_row, NewWorkspace,
    NewWorkspaceLease, WorkspaceLeaseRow, WorkspaceRow,
};
use crate::store::runs::or_old;
use crate::store::state::{MockState, StoreModel};
use crate::store::table::{added, insert_unique, some_row, Row};

verus! {

/// Whether a lease gives the right to write to its workspace alone.
pub open spec fn is_exclusive(mode: WorkspaceAccessMode, state: LeaseEnforcementState) -> bool {
    mode == WorkspaceAccessMode::ExclusiveWrite && state == LeaseEnforcementState::Active
}

/// The leases, other than `exclude`, that give the right to write to `workspace`
/// alone.
pub open spec fn holds_exclusively(workspace: WorkspaceId, exclude: Option<LeaseId>) -> spec_fn(WorkspaceLeaseRow) -> bool {
    |row: WorkspaceLeaseRow|
        row.workspace_id == workspace && is_exclusive(row.mode, row.enforcement_state) && Some(
            row.lease_id,
        ) != exclude
}

/// Whether a lease would be the second one that gives the right to write to its
/// workspace alone.
pub open spec fn is_occupied(
    m: StoreModel,
    workspace: WorkspaceId,
    mode: WorkspaceAccessMode,
    state: LeaseEnforcementState,
    exclude: Option<LeaseId>,
) -> bool {
    is_exclusive(mode, state) && some_row(m.leases, holds_exclusively(workspace, exclude))
}

/// The store after a workspace was recorded, and what that returns.
pub open spec fn workspace_added(m: StoreModel, new: NewWorkspace) -> (StoreModel, Result<(), ErrorView>) {
    let a = added(m.workspaces, new.workspace_id, workspace_row(new), "duplicate workspace id"@);
    (StoreModel { workspaces: a.0, ..m }, a.1)
}

/// The store after a lease was recorded, and what that returns.
pub open spec fn lease_added(m: StoreModel, new: NewWorkspaceLease) -> (StoreModel, Result<(), ErrorView>) {
    if !m.workspaces.contains_key(new.workspace_id) {
        (m, Err(failed_precondition("lease references a missing workspace"@)))
    } else if !m.runs.contains_key(new.owner_run_id) {
        (m, Err(failed_precondition("lease references a missing owner run"@)))
    } else if is_occupied(m, new.workspace_id, new.mode, new.enforcement_state, None) {
        (m, Err(conflict("exclusive write lease already active for the workspace"@)))
    } else {
        let a = added(m.leases, new.lease_id, workspace_lease_row(new), "duplicate lease id"@);
        (StoreModel { leases: a.0, ..m }, a.1)
    }
}

/// A change of a lease: what is absent stays.
#[derive(Debug)]
pub struct LeasePatch {
    pub enforcement_state: Option<LeaseEnforcementState>,
    pub owner_run_id: Option<RunId>,
    pub mode: Option<WorkspaceAccessMode>,
    pub delegated_from: Option<Bytes>,
    pub lease_epoch: Option<u64>,
}

/// A change of a lease that changes nothing.
pub open spec fn no_lease_patch() -> LeasePatch {
    LeasePatch {
        enforcement_state: None,
        owner_run_id: None,
        mode: None,
        delegated_from: None,
        lease_epoch: None,
    }
}

impl Default for LeasePatch {
    /// A change that changes nothing.
    fn default() -> (r: Self)
        ensures
            r == no_lease_patch(),
    {
        LeasePatch {
            enforcement_state: None,
            owner_run_id: None,
            mode: None,
            delegated_from: None,
            lease_epoch: None,
        }
    }
}

/// A lease after a change.
pub open spec fn lease_patched(lease: WorkspaceLeaseRow, patch: LeasePatch) -> WorkspaceLeaseRow {
    WorkspaceLeaseRow {
        enforcement_state: or_old(patch.enforcement_state, lease.enforcement_state),
        owner_run_id: or_old(patch.owner_run_id, lease.owner_run_id),
        mode: or_old(patch.mode, lease.mode),
        delegated_from: or_old(patch.delegated_from, lease.delegated_from),
        lease_epoch: or_old(patch.lease_epoch, lease.lease_epoch),
        ..lease
    }
}

/// The store after a change of a lease, and what that returns: a lease at another
/// epoch than expected stays.
pub open spec fn lease_changed(m: StoreModel, id: LeaseId, expect_epoch: u64, patch: LeasePatch) -> (
    StoreModel,
    Result<bool, ErrorView>,
) {
    if !m.leases.contains_key(id) || m.leases[id].lease_epoch != expect_epoch {
        (m, Ok(false))
    } else {
        let lease = m.leases[id];
        let patched = lease_patched(lease, patch);
        if patch.owner_run_id matches Some(owner) && !m.runs.contains_key(owner) {
            (m, Err(failed_precondition("lease references a missing owner run"@)))
        } else if is_occupied(
            m,
            lease.workspace_id,
            patched.mode,
            patched.enforcement_state,
            Some(id),
        ) {
            (m, Err(conflict("exclusive write lease already active for the workspace"@)))
        } else {
            (StoreModel { leases: m.leases.insert(id, patched), ..m }, Ok(true))
        }
    }
}

impl MockState {
    /// The workspace `id`.
    pub fn get_workspace(&self, id: WorkspaceId) -> (r: Option<&WorkspaceRow>)
        ensures
            match r {
                Some(row) => self@.workspaces.contains_key(id) && self@.workspaces[id] == *row,
                None => !self@.workspaces.contains_key(id),
            },
    {
        self.workspaces.get(&id)
    }

    /// The lease `id`.
    pub fn get_lease(&self, id: LeaseId) -> (r: Option<&WorkspaceLeaseRow>)
        ensures
            match r {
                Some(row) => self@.leases.contains_key(id) && self@.leases[id] == *row,
                None => !self@.leases.contains_key(id),
            },
    {
        self.leases.get(&id)
    }

    fn check_exclusive_lease(
        &self,
        workspace: WorkspaceId,
        mode: WorkspaceAccessMode,
        state: LeaseEnforcementState,
        exclude: Option<LeaseId>,
    ) -> (r: Result<(), KernelError>)
        ensures
            match r {
                Ok(_) => !is_occupied(self@, workspace, mode, state, exclude),
                Err(e) => is_occupied(self@, workspace, mode, state, exclude) && e@ == conflict(
                    "exclusive write lease already active for the workspace"@,
                ),
            },
    {
        let test = |row: &WorkspaceLeaseRow| -> (b: bool)
            ensures
                b == (row.workspace_id == workspace && is_exclusive(
                    row.mode,
                    row.enforcement_state,
                ) && Some(row.lease_id) != exclude),
            {
                let other = match exclude {
                    Some(x) => row.lease_id != x,
                    None => true,
                };
                row.workspace_id == workspace && row.mode == WorkspaceAccessMode::ExclusiveWrite
                    && row.enforcement_state == LeaseEnforcementState::Active && other
            };
        let wanted = mode == WorkspaceAccessMode::ExclusiveWrite && state
            == LeaseEnforcementState::Active;
        if wanted && self.leases.any(test, Ghost(holds_exclusively(workspace, exclude))) {
            return Err(conflict_error("exclusive write lease already active for the workspace"));
        }
        Ok(())
    }

    /// Records a workspace.
    pub fn insert_workspace(&mut self, new: NewWorkspace) -> (r: Result<(), KernelError>)
        ensures
            (final(self)@, outcome(r)) == workspace_added(old(self)@, new),
    {
        let id = new.workspace_id;
        let row = make_workspace(new);
        insert_unique(&mut self.workspaces, id, row, "duplicate workspace id")
    }

    /// Records a lease.
    pub fn insert_lease(&mut self, new: NewWorkspaceLease) -> (r: Result<(), KernelError>)
        ensures
            (final(self)@, outcome(r)) == lease_added(old(self)@, new),
    {
        if !self.workspaces.contains(&new.workspace_id) {
            return Err(precondition_error("lease references a missing workspace"));
        }
        if !self.runs.contains(&new.owner_run_id) {
            return Err(precondition_error("lease references a missing owner run"));
        }
        if let Err(e) = self.check_exclusive_lease(
            new.workspace_id,
            new.mode,
            new.enforcement_state,
            None,
        ) {
            return Err(e);
        }
        let id = new.lease_id;
        let row = make_workspace_lease(new);
        insert_unique(&mut self.leases, id, row, "duplicate lease id")
    }

    /// Changes a lease that is at the expected epoch.
    pub fn cas_lease(&mut self, id: LeaseId, expect_epoch: u64, patch: LeasePatch) -> (r: Result<
        bool,
        KernelError,
    >)
        ensures
            (final(self)@, outcome(r)) == lease_changed(old(self)@, id, expect_epoch, patch),
    {
        let mut lease = match self.leases.get(&id) {
            Some(row) => row.copy_row(),
            None => return Ok(false),
        };
        if lease.lease_epoch != expect_epoch {
            return Ok(false);
        }
        let mode = match patch.mode {
            Some(mode) => mode,
            None => lease.mode,
        };
        let state = match patch.enforcement_state {
            Some(state) => state,
            None => lease.enforcement_state,
        };
        if let Some(owner) = patch.owner_run_id {
            if !self.runs.contains(&owner) {
                return Err(precondition_error("lease references a missing owner run"));
            }
        }
        if let Err(e) = self.check_exclusive_lease(lease.workspace_id, mode, state, Some(id)) {
            return Err(e);
        }
        lease.enforcement_state = state;
        lease.mode = mode;
        if let Some(value) = patch.owner_run_id {
            lease.owner_run_id = value;
        }
        if let Some(value) = patch.delegated_from {
            lease.delegated_from = value;
        }
        if let Some(epoch) = patch.lease_epoch {
            lease.lease_epoch = epoch;
        }
        self.leases.put(id, lease);
        Ok(true)
    }
}

// ---------------------------------------------------------------------------
// What holds of every lease
// ---------------------------------------------------------------------------

/// Whether each lease stands under its own id.
pub open spec fn leases_have_their_ids(m: StoreModel) -> bool {
    forall|id: LeaseId| #[trigger] m.leases.contains_key(id) ==> m.leases[id].lease_id == id
}

/// Whether each workspace has at most one lease that gives the right to write to
/// it alone.
pub open spec fn writers_are_alone(m: StoreModel) -> bool {
    forall|a: LeaseId, b: LeaseId|
        #![trigger m.leases[a], m.leases[b]]
        m.leases.contains_key(a) && m.leases.contains_key(b) && m.leases[a].workspace_id
            == m.leases[b].workspace_id && is_exclusive(
            m.leases[a].mode,
            m.leases[a].enforcement_state,
        ) && is_exclusive(m.leases[b].mode, m.leases[b].enforcement_state) ==> a == b
}

/// Recording a lease leaves every workspace with at most one writer.
pub proof fn recorded_writers_are_alone(m: StoreModel, new: NewWorkspaceLease)
    requires
        leases_have_their_ids(m),
        writers_are_alone(m),
    ensures
        leases_have_their_ids(lease_added(m, new).0),
        writers_are_alone(lease_added(m, new).0),
{
    let after = lease_added(m, new).0;
    let pick = holds_exclusively(new.workspace_id, None);
    assert forall|a: LeaseId, b: LeaseId|
        #![trigger after.leases[a], after.leases[b]]
        after.leases.contains_key(a) && after.leases.contains_key(b) && after.leases[a].workspace_id
            == after.leases[b].workspace_id && is_exclusive(
            after.leases[a].mode,
            after.leases[a].enforcement_state,
        ) && is_exclusive(after.leases[b].mode, after.leases[b].enforcement_state) implies a == b by {
        if after != m && a != b {
            let other = if a == new.lease_id { b } else { a };
            if a == new.lease_id || b == new.lease_id {
                assert(m.leases.contains_key(other) && pick(m.leases[other]));
            } else {
                assert(m.leases[a] == after.leases[a] && m.leases[b] == after.leases[b]);
            }
        }
    }
}

/// Changing a lease leaves every workspace with at most one writer.
pub proof fn changed_writers_are_alone(m: StoreModel, id: LeaseId, expect_epoch: u64, patch: LeasePatch)
    requires
        leases_have_their_ids(m),
        writers_are_alone(m),
    ensures
        leases_have_their_ids(lease_changed(m, id, expect_epoch, patch).0),
        writers_are_alone(lease_changed(m, id, expect_epoch, patch).0),
{
    let after = lease_changed(m, id, expect_epoch, patch).0;
    let pick = holds_exclusively(m.leases[id].workspace_id, Some(id));
    assert forall|a: LeaseId, b: LeaseId|
        #![trigger after.leases[a], after.leases[b]]
        after.leases.contains_key(a) && after.leases.contains_key(b) && after.leases[a].workspace_id
            == after.leases[b].workspace_id && is_exclusive(
            after.leases[a].mode,
            after.leases[a].enforcement_state,
        ) && is_exclusive(after.leases[b].mode, after.leases[b].enforcement_state) implies a == b by {
        if after != m && a != b {
            let other = if a == id { b } else { a };
            if a == id || b == id {
                assert(m.leases.contains_key(other) && pick(m.leases[other]));
            } else {
                assert(m.leases[a] == after.leases[a] && m.leases[b] == after.leases[b]);
            }
        }
    }
}

} // verus!
