//! Write authority over workspaces: leases are acquired, transferred, revoked and
//! verified.
//!
//! A lease token is its id with its epoch. Every transfer and every revocation
//! moves the epoch on, and with it every copy of the old token is dead.

use vstd::prelude::*;

use crate::domain::{
    Bytes, LeaseEnforcementState, LeaseId, RunId, WorkspaceAccessMode, WorkspaceId,
};
use crate::errors::{
    conflict, conflict_error, failed_precondition, never, never_error, not_found, not_found_error,
    outcome, precondition_error, ErrorCode, ErrorView, KernelError,
};
use crate::ids::{v7_number, DeterministicIds};
use crate::store::rows::{
    workspace_lease_row, NewWorkspace, NewWorkspaceLease, WorkspaceLeaseRow,
};
use crate::store::runs::{bump, next_number};
use crate::store::state::{MockState, StoreModel};
use crate::store::table::Row;
use crate::store::workspaces::{
    is_exclusive, lease_added, lease_changed, lease_patched, no_lease_patch, workspace_added,
    LeasePatch,
};
use crate::text::{same_text, texts};
use crate::workspace::coordinator::shared_write_caps::{
    CONFLICT_REPORT, LOCKING, VERSIONED_WRITE,
};
use crate::workspace::local::{record_fork, tells_of_fork};

pub mod shared_write_caps;

pub use crate::workspace::merge::{merge, MergeOutcome};

verus! {

pub const SHARED_NEEDS: &'static str = "SHARED_COORDINATED_WRITE requires an adapter with locking, \
                 versioned-write, and conflict-report capabilities";

pub const NOT_TRANSFERABLE: &'static str = "lease is not an active exclusive lease owned by the transferring run \
             at the expected epoch";

/// Whether an adapter with the given capabilities can share a workspace between
/// writers.
pub open spec fn can_share(capabilities: Seq<Seq<char>>) -> bool {
    capabilities.contains(LOCKING@) && capabilities.contains(VERSIONED_WRITE@)
        && capabilities.contains(CONFLICT_REPORT@)
}

fn lists_capability(capabilities: &Vec<String>, wanted: &str) -> (r: bool)
    ensures
        r == texts(capabilities@).contains(wanted@),
{
    let ghost views = texts(capabilities@);
    let mut i: usize = 0;
    while i < capabilities.len()
        invariant
            i <= capabilities.len(),
            views == texts(capabilities@),
            forall|k: int| 0 <= k < i ==> views[k] != wanted@,
        decreases capabilities.len() - i,
    {
        assert(views[i as int] == capabilities@[i as int]@);
        if same_text(capabilities[i].as_str(), wanted) {
            return true;
        }
        i += 1;
    }
    false
}

/// The lease that is asked for.
pub open spec fn asked_lease(
    id: LeaseId,
    workspace: WorkspaceId,
    owner: RunId,
    mode: WorkspaceAccessMode,
    delegated_from: Bytes,
    now_ms: i64,
) -> NewWorkspaceLease {
    NewWorkspaceLease {
        lease_id: id,
        workspace_id: workspace,
        owner_run_id: owner,
        mode,
        lease_epoch: 1,
        enforcement_state: LeaseEnforcementState::Active,
        delegated_from,
        created_at_ms: now_ms,
    }
}

/// The error of a lease that is refused before the store is asked.
pub open spec fn mode_refusal(mode: WorkspaceAccessMode, capabilities: Seq<Seq<char>>) -> Option<ErrorView> {
    if mode == WorkspaceAccessMode::SharedCoordinatedWrite && !can_share(capabilities) {
        Some(failed_precondition(SHARED_NEEDS@))
    } else if mode == WorkspaceAccessMode::Unspecified {
        Some(never(ErrorCode::InvalidArgument, "workspace access mode unspecified"@))
    } else {
        None
    }
}

/// Acquires a lease for a run, with the next id of `ids`. A lease to write
/// together with others needs an adapter that can share the workspace.
pub fn acquire_lease(
    state: &mut MockState,
    ids: &mut DeterministicIds,
    workspace: WorkspaceId,
    owner: RunId,
    mode: WorkspaceAccessMode,
    capabilities: &Vec<String>,
    delegated_from: Bytes,
    now_ms: i64,
) -> (r: Result<WorkspaceLeaseRow, KernelError>)
    ensures
        match mode_refusal(mode, texts(capabilities@)) {
            Some(e) => {
                &&& r is Err && (r->Err_0)@ == e
                &&& final(state)@ == old(state)@
                &&& *final(ids) == *old(ids)
            },
            None => {
                let id = LeaseId { number: v7_number(old(ids).seed(), old(ids).given()) as u128 };
                let new = asked_lease(id, workspace, owner, mode, delegated_from, now_ms);
                let v = lease_added(old(state)@, new);
                &&& final(state)@ == v.0
                &&& match v.1 {
                    Ok(_) => r == Ok::<WorkspaceLeaseRow, KernelError>(workspace_lease_row(new)),
                    Err(e) => r is Err && (r->Err_0)@ == e,
                }
                &&& final(ids).seed() == old(ids).seed()
                &&& final(ids).given() == (old(ids).given() + 1) % 0x1_0000_0000_0000_0000
            },
        },
{
    if mode == WorkspaceAccessMode::SharedCoordinatedWrite {
        let supported = lists_capability(capabilities, LOCKING) && lists_capability(
            capabilities,
            VERSIONED_WRITE,
        ) && lists_capability(capabilities, CONFLICT_REPORT);
        if !supported {
            return Err(precondition_error(SHARED_NEEDS));
        }
    }
    if mode == WorkspaceAccessMode::Unspecified {
        return Err(never_error(ErrorCode::InvalidArgument, "workspace access mode unspecified"));
    }
    let id = LeaseId::new(ids);
    let new = NewWorkspaceLease {
        lease_id: id,
        workspace_id: workspace,
        owner_run_id: owner,
        mode,
        lease_epoch: 1,
        enforcement_state: LeaseEnforcementState::Active,
        delegated_from: delegated_from.clone(),
        created_at_ms: now_ms,
    };
    match state.insert_lease(new) {
        Ok(_) => Ok(
            WorkspaceLeaseRow {
                lease_id: id,
                workspace_id: workspace,
                owner_run_id: owner,
                mode,
                lease_epoch: 1,
                enforcement_state: LeaseEnforcementState::Active,
                delegated_from,
                created_at_ms: now_ms,
                updated_at_ms: now_ms,
            },
        ),
        Err(e) => Err(e),
    }
}

/// The change that hands a lease to another run.
pub open spec fn transfer_patch(to: RunId, epoch: u64, proof_bytes: Bytes) -> LeasePatch {
    LeasePatch {
        owner_run_id: Some(to),
        lease_epoch: Some(next_number(epoch)),
        delegated_from: Some(proof_bytes),
        ..no_lease_patch()
    }
}

/// The store after the right to write alone was handed from one run to another,
/// and what that returns: the lease must be in force, owned by `from` and at the
/// expected epoch.
pub open spec fn transferred(
    m: StoreModel,
    id: LeaseId,
    from: RunId,
    to: RunId,
    expected_epoch: u64,
    proof_bytes: Bytes,
) -> (StoreModel, Result<WorkspaceLeaseRow, ErrorView>) {
    if !m.leases.contains_key(id) {
        (m, Err(not_found("lease not found"@)))
    } else {
        let lease = m.leases[id];
        if !is_exclusive(lease.mode, lease.enforcement_state) || lease.owner_run_id != from
            || lease.lease_epoch != expected_epoch {
            (m, Err(failed_precondition(NOT_TRANSFERABLE@)))
        } else {
            let patch = transfer_patch(to, expected_epoch, proof_bytes);
            let v = lease_changed(m, id, expected_epoch, patch);
            match v.1 {
                Ok(_) => (v.0, Ok(lease_patched(lease, patch))),
                Err(e) => (v.0, Err(e)),
            }
        }
    }
}

/// Hands the right to write alone from one run to another.
pub fn transfer_exclusive(
    state: &mut MockState,
    id: LeaseId,
    from: RunId,
    to: RunId,
    expected_epoch: u64,
    delegation_proof: Bytes,
) -> (r: Result<WorkspaceLeaseRow, KernelError>)
    ensures
        (final(state)@, outcome(r)) == transferred(
            old(state)@,
            id,
            from,
            to,
            expected_epoch,
            delegation_proof,
        ),
{
    let lease = match state.get_lease(id) {
        Some(row) => row.copy_row(),
        None => return Err(not_found_error("lease not found")),
    };
    if lease.mode != WorkspaceAccessMode::ExclusiveWrite || lease.enforcement_state
        != LeaseEnforcementState::Active || lease.owner_run_id != from || lease.lease_epoch
        != expected_epoch {
        return Err(precondition_error(NOT_TRANSFERABLE));
    }
    let patch = LeasePatch {
        enforcement_state: None,
        owner_run_id: Some(to),
        mode: None,
        delegated_from: Some(delegation_proof),
        lease_epoch: Some(bump(expected_epoch)),
    };
    match state.cas_lease(id, expected_epoch, patch) {
        Ok(moved) => {
            if !moved {
                return Err(conflict_error("lease epoch moved during transfer"));
            }
        },
        Err(e) => return Err(e),
    }
    match state.get_lease(id) {
        Some(row) => Ok(row.copy_row()),
        None => Err(never_error(ErrorCode::Internal, "lease vanished mid-transfer")),
    }
}

/// The change that takes a lease out of force.
pub open spec fn revoke_patch(epoch: u64) -> LeasePatch {
    LeasePatch {
        enforcement_state: Some(LeaseEnforcementState::Revoked),
        lease_epoch: Some(next_number(epoch)),
        ..no_lease_patch()
    }
}

/// The store after a lease was taken out of force, and what that returns.
pub open spec fn revoked(m: StoreModel, id: LeaseId, expected_epoch: u64) -> (StoreModel, Result<(), ErrorView>) {
    let v = lease_changed(m, id, expected_epoch, revoke_patch(expected_epoch));
    match v.1 {
        Ok(moved) => if moved {
            (v.0, Ok(()))
        } else {
            (v.0, Err(failed_precondition("lease epoch moved during revoke"@)))
        },
        Err(e) => (v.0, Err(e)),
    }
}

/// Takes a lease out of force.
pub fn revoke_lease(state: &mut MockState, id: LeaseId, expected_epoch: u64) -> (r: Result<
    (),
    KernelError,
>)
    ensures
        (final(state)@, outcome(r)) == revoked(old(state)@, id, expected_epoch),
{
    let patch = LeasePatch {
        enforcement_state: Some(LeaseEnforcementState::Revoked),
        owner_run_id: None,
        mode: None,
        delegated_from: None,
        lease_epoch: Some(bump(expected_epoch)),
    };
    match state.cas_lease(id, expected_epoch, patch) {
        Ok(moved) => if moved {
            Ok(())
        } else {
            Err(precondition_error("lease epoch moved during revoke"))
        },
        Err(e) => Err(e),
    }
}

/// Whether a token gives a run the right to write to a workspace alone.
pub open spec fn authorizes(m: StoreModel, id: LeaseId, workspace: WorkspaceId, owner: RunId, epoch: u64) -> bool {
    m.leases.contains_key(id) && ({
        let lease = m.leases[id];
        &&& lease.workspace_id == workspace
        &&& lease.owner_run_id == owner
        &&& lease.lease_epoch == epoch
        &&& is_exclusive(lease.mode, lease.enforcement_state)
    })
}

/// Verifies that a token gives a run the right to write to a workspace alone.
pub fn verify_write_authority(
    state: &MockState,
    id: LeaseId,
    workspace: WorkspaceId,
    owner: RunId,
    epoch: u64,
) -> (r: Result<(), KernelError>)
    ensures
        match r {
            Ok(_) => authorizes(state@, id, workspace, owner, epoch),
            Err(e) => !authorizes(state@, id, workspace, owner, epoch) && e@ == (
            if state@.leases.contains_key(id) {
                failed_precondition("stale or non-exclusive lease token"@)
            } else {
                not_found("lease not found"@)
            }),
        },
{
    let lease = match state.get_lease(id) {
        Some(row) => row,
        None => return Err(not_found_error("lease not found")),
    };
    if lease.workspace_id != workspace || lease.owner_run_id != owner || lease.lease_epoch != epoch
        || lease.enforcement_state != LeaseEnforcementState::Active || lease.mode
        != WorkspaceAccessMode::ExclusiveWrite {
        return Err(precondition_error("stale or non-exclusive lease token"));
    }
    Ok(())
}

/// The store after a fork was recorded and leased, and what that returns: a fork
/// that could be recorded stays, though its lease may be refused.
pub open spec fn forked(m: StoreModel, new: NewWorkspace, lease: NewWorkspaceLease) -> (
    StoreModel,
    Result<WorkspaceLeaseRow, ErrorView>,
) {
    let w = workspace_added(m, new);
    match w.1 {
        Err(e) => (w.0, Err(e)),
        Ok(_) => {
            let v = lease_added(w.0, lease);
            match v.1 {
                Err(e) => (v.0, Err(e)),
                Ok(_) => (v.0, Ok(workspace_lease_row(lease))),
            }
        },
    }
}

/// Whether `lease` asks for the right of a child run to write to its fork alone.
pub open spec fn asks_for_fork(
    lease: NewWorkspaceLease,
    id: LeaseId,
    child: WorkspaceId,
    owner: RunId,
    now_ms: i64,
) -> bool {
    lease == asked_lease(
        id,
        child,
        owner,
        WorkspaceAccessMode::ExclusiveWrite,
        lease.delegated_from,
        now_ms,
    ) && lease.delegated_from@ == Seq::<u8>::empty()
}

/// Records the fork of a workspace for a child run, and acquires the right to write
/// to the fork alone. `base` is the revision of the fork, if it is a worktree.
pub fn fork_for_child(
    state: &mut MockState,
    ids: &mut DeterministicIds,
    parent: WorkspaceId,
    child: WorkspaceId,
    base: Option<String>,
    owner: RunId,
    now_ms: i64,
) -> (r: Result<WorkspaceLeaseRow, KernelError>)
    ensures
        exists|new: NewWorkspace, lease: NewWorkspaceLease|
            tells_of_fork(new, parent, child, base, now_ms) && asks_for_fork(
                lease,
                LeaseId { number: v7_number(old(ids).seed(), old(ids).given()) as u128 },
                child,
                owner,
                now_ms,
            ) && #[trigger] forked(old(state)@, new, lease) == (final(state)@, outcome(r)),
        final(ids).seed() == old(ids).seed(),
        final(ids).given() == (if old(state)@.workspaces.contains_key(child) {
            old(ids).given()
        } else {
            (old(ids).given() + 1) % 0x1_0000_0000_0000_0000
        }),
{
    let ghost before = state@;
    let ghost id = LeaseId { number: v7_number(ids.seed(), ids.given()) as u128 };
    let none: Vec<String> = Vec::new();
    let nothing: Vec<u8> = Vec::new();
    let delegated_from = Bytes::new(nothing);
    let ghost lease = asked_lease(
        id,
        child,
        owner,
        WorkspaceAccessMode::ExclusiveWrite,
        delegated_from,
        now_ms,
    );
    assert(asks_for_fork(lease, id, child, owner, now_ms));
    let recorded = record_fork(state, parent, child, base, now_ms);
    let ghost new = choose|new: NewWorkspace|
        tells_of_fork(new, parent, child, base, now_ms) && #[trigger] workspace_added(before, new) == (
            state@,
            outcome(recorded),
        );
    if let Err(e) = recorded {
        assert(forked(before, new, lease) == (state@, Err::<WorkspaceLeaseRow, ErrorView>(e@)));
        return Err(e);
    }
    let r = acquire_lease(
        state,
        ids,
        child,
        owner,
        WorkspaceAccessMode::ExclusiveWrite,
        &none,
        delegated_from,
        now_ms,
    );
    assert(forked(before, new, lease) == (state@, outcome(r)));
    r
}

// ---------------------------------------------------------------------------
// What holds of every token
// ---------------------------------------------------------------------------

/// A transfer ends the authority of the old owner at once: no token at the old
/// epoch authorizes anybody, and the new owner's token at the next epoch does.
pub proof fn transfer_kills_old_tokens(
    m: StoreModel,
    id: LeaseId,
    from: RunId,
    to: RunId,
    epoch: u64,
    proof_bytes: Bytes,
    workspace: WorkspaceId,
    anybody: RunId,
)
    requires
        transferred(m, id, from, to, epoch, proof_bytes).1 is Ok,
        epoch < u64::MAX,
    ensures
        ({
            let after = transferred(m, id, from, to, epoch, proof_bytes).0;
            &&& !authorizes(after, id, workspace, anybody, epoch)
            &&& authorizes(after, id, m.leases[id].workspace_id, to, next_number(epoch))
            &&& transferred(after, id, from, anybody, epoch, proof_bytes).1 is Err
        }),
{
}

/// A child that has its fork may write to it alone, and the workspace of its parent
/// and every lease on it stay as they were.
pub proof fn forks_leave_their_parents(
    m: StoreModel,
    new: NewWorkspace,
    lease: NewWorkspaceLease,
    parent: WorkspaceId,
    child: WorkspaceId,
    base: Option<String>,
    id: LeaseId,
    owner: RunId,
    now_ms: i64,
    other: LeaseId,
)
    requires
        tells_of_fork(new, parent, child, base, now_ms),
        asks_for_fork(lease, id, child, owner, now_ms),
        forked(m, new, lease).1 is Ok,
        m.workspaces.contains_key(parent),
        m.leases.contains_key(other),
    ensures
        ({
            let after = forked(m, new, lease).0;
            &&& authorizes(after, id, child, owner, 1)
            &&& after.workspaces[child].parent_workspace_id == Some(parent)
            &&& after.workspaces[child].base_revision == base
            &&& after.workspaces[parent] == m.workspaces[parent]
            &&& after.leases[other] == m.leases[other]
        }),
{
}

/// A revocation ends the authority of a lease at once, at every epoch.
pub proof fn revocation_kills_tokens(
    m: StoreModel,
    id: LeaseId,
    epoch: u64,
    workspace: WorkspaceId,
    anybody: RunId,
    any_epoch: u64,
)
    requires
        revoked(m, id, epoch).1 is Ok,
    ensures
        !authorizes(revoked(m, id, epoch).0, id, workspace, anybody, any_epoch),
{
}

/// Where every workspace has at most one writer, two tokens that authorize for one
/// workspace are one token.
pub proof fn authority_is_exclusive(
    m: StoreModel,
    a: LeaseId,
    b: LeaseId,
    workspace: WorkspaceId,
    first: RunId,
    second: RunId,
    first_epoch: u64,
    second_epoch: u64,
)
    requires
        crate::store::workspaces::writers_are_alone(m),
        authorizes(m, a, workspace, first, first_epoch),
        authorizes(m, b, workspace, second, second_epoch),
    ensures
        a == b,
        first == second,
        first_epoch == second_epoch,
{
    let x = m.leases[a];
    let y = m.leases[b];
}

} // verus!
