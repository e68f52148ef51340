//! An in-memory store of the kernel's records, with transactions.
//!
//! A transaction works on a snapshot of the store. Its changes become visible all
//! at once when it commits, which it does only where nothing else has changed the
//! store since it began. Only the daemon whose epoch the store has recorded may
//! begin a transaction that writes.

use vstd::prelude::*;

use crate::domain::{CommandId, DaemonInstanceId, PrincipalId};
use crate::errors::{
    failed_precondition, outcome, precondition_error, ErrorCode, ErrorView, KernelError, RetryClass,
};
use crate::store::runs::{bump, next_number};
use crate::store::state::{empty_store, DaemonFence, MockState, StoreModel};

pub mod adapters;
pub mod artifacts;
pub mod changes;
pub mod config;
pub mod effects;
pub mod environments;
pub mod graph;
pub mod integrity;
pub mod listings;
pub mod literals;
pub mod records;
pub mod rows;
pub mod runs;
pub mod security;
pub mod state;
pub mod streams;
pub mod table;
pub mod turns;
pub mod workspaces;

verus! {

/// Who begins a transaction.
#[derive(Debug)]
pub struct TxContext {
    pub daemon_epoch: u64,
    pub principal_id: PrincipalId,
    pub command_id: CommandId,
    pub correlation_id: Option<String>,
}

/// The store.
#[derive(Debug)]
pub struct MockStore {
    state: MockState,
}

/// A transaction that writes: its snapshot of the store, and the revision of the
/// store at which it began.
#[derive(Debug)]
pub struct MockWriteTxn {
    pub ctx: TxContext,
    pub base_revision: u64,
    pub state: MockState,
}

/// A transaction that reads: its snapshot of the store.
#[derive(Debug)]
pub struct MockReadTxn {
    pub state: MockState,
}

impl View for MockStore {
    type V = StoreModel;

    closed spec fn view(&self) -> StoreModel {
        self.state@
    }
}

/// The store after a fence was set.
pub open spec fn fenced(m: StoreModel, epoch: u64, instance: DaemonInstanceId) -> StoreModel {
    StoreModel {
        daemon_epoch: epoch,
        daemon_fence: Some(
            DaemonFence { instance_id: instance, epoch, lease_expires_unix_ms: i64::MAX },
        ),
        revision: next_number(m.revision),
        ..m
    }
}

/// The store after the recorded epoch was set; the epoch 0 takes the fence away.
pub open spec fn epoch_set(m: StoreModel, epoch: u64, instance: DaemonInstanceId) -> StoreModel {
    if epoch == 0 {
        StoreModel {
            daemon_epoch: 0,
            daemon_fence: None,
            revision: next_number(m.revision),
            ..m
        }
    } else {
        fenced(m, epoch, instance)
    }
}

/// Whether a daemon at `epoch` may begin a transaction that writes.
pub open spec fn may_write(m: StoreModel, epoch: u64) -> bool {
    epoch != 0 && epoch == m.daemon_epoch
}

/// The store after a transaction that began at `base_revision` has committed the
/// state `state`, and what that returns.
pub open spec fn committed(m: StoreModel, state: StoreModel, base_revision: u64) -> (
    StoreModel,
    Result<(), ErrorView>,
) {
    if m.revision != base_revision {
        (
            m,
            Err(
                ErrorView {
                    code: ErrorCode::Conflict,
                    retry: RetryClass::Safe,
                    message: "mock store revision changed during the transaction"@,
                },
            ),
        )
    } else {
        (StoreModel { revision: next_number(m.revision), ..state }, Ok(()))
    }
}

impl MockStore {
    /// A store without records, and without a fence.
    pub fn new() -> (r: Self)
        ensures
            r@ == empty_store(),
    {
        MockStore { state: MockState::new() }
    }

    fn install_fence(&mut self, epoch: u64, instance: DaemonInstanceId) -> (r: DaemonFence)
        ensures
            final(self)@ == fenced(old(self)@, epoch, instance),
            Some(r) == final(self)@.daemon_fence,
    {
        let fence = DaemonFence { instance_id: instance, epoch, lease_expires_unix_ms: i64::MAX };
        self.state.daemon_epoch = epoch;
        self.state.daemon_fence = Some(fence);
        self.state.revision = bump(self.state.revision);
        fence
    }

    /// Sets the recorded epoch and its fence; the epoch 0 takes the fence away.
    pub fn set_daemon_epoch(&mut self, epoch: u64, instance: DaemonInstanceId)
        ensures
            final(self)@ == epoch_set(old(self)@, epoch, instance),
    {
        if epoch == 0 {
            self.state.daemon_epoch = 0;
            self.state.daemon_fence = None;
            self.state.revision = bump(self.state.revision);
        } else {
            let _ = self.install_fence(epoch, instance);
        }
    }

    /// Records the next epoch for a daemon.
    pub fn acquire_daemon_fence(&mut self, instance: DaemonInstanceId) -> (r: DaemonFence)
        ensures
            final(self)@ == fenced(
                old(self)@,
                next_number(old(self)@.daemon_epoch),
                instance,
            ),
            Some(r) == final(self)@.daemon_fence,
    {
        let epoch: u64 = bump(self.state.daemon_epoch);
        self.install_fence(epoch, instance)
    }

    /// The fence of the store.
    pub fn current_fence(&self) -> (r: Option<DaemonFence>)
        ensures
            r == self@.daemon_fence,
    {
        self.state.daemon_fence
    }

    /// Begins a transaction that writes, with a snapshot of the store.
    pub fn begin_write(&self, ctx: TxContext) -> (r: Result<MockWriteTxn, KernelError>)
        ensures
            match r {
                Ok(txn) => {
                    &&& may_write(self@, ctx.daemon_epoch)
                    &&& txn.ctx == ctx
                    &&& txn.base_revision == self@.revision
                    &&& txn.state@ == self@
                },
                Err(e) => !may_write(self@, ctx.daemon_epoch) && e@ == failed_precondition(
                    "write transaction rejected: daemon epoch is absent or stale"@,
                ),
            },
    {
        if ctx.daemon_epoch == 0 || ctx.daemon_epoch != self.state.daemon_epoch {
            return Err(
                precondition_error("write transaction rejected: daemon epoch is absent or stale"),
            );
        }
        Ok(
            MockWriteTxn {
                ctx,
                base_revision: self.state.revision,
                state: self.state.snapshot(),
            },
        )
    }

    /// Begins a transaction that reads, with a snapshot of the store.
    pub fn begin_read(&self) -> (r: MockReadTxn)
        ensures
            r.state@ == self@,
    {
        MockReadTxn { state: self.state.snapshot() }
    }
}

impl Default for MockStore {
    /// A store without records, and without a fence.
    fn default() -> (r: Self)
        ensures
            r@ == empty_store(),
    {
        MockStore::new()
    }
}

impl MockWriteTxn {
    /// Makes the changes of the transaction visible, all at once.
    pub fn commit(self, store: &mut MockStore) -> (r: Result<(), KernelError>)
        ensures
            (final(store)@, outcome(r)) == committed(old(store)@, self.state@, self.base_revision),
    {
        if store.state.revision != self.base_revision {
            return Err(
                KernelError::new(
                    ErrorCode::Conflict,
                    RetryClass::Safe,
                    "mock store revision changed during the transaction",
                ),
            );
        }
        let revision: u64 = bump(store.state.revision);
        let mut next = self.state;
        next.revision = revision;
        store.state = next;
        Ok(())
    }

    /// Gives the changes of the transaction up.
    pub fn rollback(self) {
    }
}

// ---------------------------------------------------------------------------
// What holds of every transaction
// ---------------------------------------------------------------------------

/// The changes of a transaction are visible after its commit, each of them, and
/// where the commit fails, none.
pub proof fn commits_are_atomic(m: StoreModel, state: StoreModel, base_revision: u64)
    ensures
        ({
            let (after, r) = committed(m, state, base_revision);
            &&& r is Ok ==> after == (StoreModel { revision: after.revision, ..state })
            &&& r is Err ==> after == m
            &&& r is Ok <==> m.revision == base_revision
        }),
{
}

/// Of two transactions that began at one revision only one commits.
pub proof fn overlapping_writers_conflict(m: StoreModel, first: StoreModel, second: StoreModel, base_revision: u64)
    requires
        m.revision < u64::MAX,
        committed(m, first, base_revision).1 is Ok,
    ensures
        committed(committed(m, first, base_revision).0, second, base_revision).1 is Err,
{
}

/// A new fence ends every transaction that writes and began before it: its commit
/// fails, the fence stays, and no other one begins at the old epoch.
pub proof fn fences_end_earlier_writers(
    m: StoreModel,
    state: StoreModel,
    epoch: u64,
    instance: DaemonInstanceId,
)
    requires
        m.revision < u64::MAX,
        m.daemon_epoch < u64::MAX,
        epoch == m.daemon_epoch,
    ensures
        ({
            let after = fenced(m, next_number(m.daemon_epoch), instance);
            &&& committed(after, state, m.revision).1 is Err
            &&& committed(after, state, m.revision).0.daemon_fence == after.daemon_fence
            &&& !may_write(after, epoch)
            &&& may_write(after, next_number(m.daemon_epoch))
        }),
{
}

} // verus!
