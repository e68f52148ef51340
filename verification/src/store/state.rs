//! The state of the store: its tables, and what they hold.

use vstd::prelude::*;

use crate::domain::{AdapterId, AdapterInstanceId, AgentSpecId, ApprovalRequestId, ArtifactId, CapabilityGrantId, ConfigGenerationId, DaemonInstanceId, DecisionId, DelegationChainId, DependencyId, EffectId, EnvironmentId, EventId, EventStreamKey, IdempotencyKey, LeaseId, PrincipalId, ReservationId, RunId, SessionId, TaskId, TimerId, TurnId, WorkspaceId};
use crate::store::rows::{ActiveConfigGenerationRow, AdapterInstanceRow, AdapterRegistrationRow, AgentSpecRow, ApprovalRequestRow, ApprovalResponseRow, ArtifactRow, CapabilityGrantRow, ConfigGenerationRow, ConformanceReportRow, DecisionRow, DelegationHopRow, EffectRow, IdempotencyRecordRow, LoopTurnRow, OutboxEventRow, ReservationRow, ResolvedBindingRow, ResolvedEnvironmentRow, RunDependencyRow, RunGraphHeadRow, RunRow, SessionRow, TaskRow, TimerRow, WorkspaceLeaseRow, WorkspaceRow};
use crate::store::table::{Row, Table};

verus! {

/// The mark of the daemon that may write to the store.
#[derive(Clone, Copy, Debug, PartialEq, Eq, Structural)]
pub struct DaemonFence {
    pub instance_id: DaemonInstanceId,
    pub epoch: u64,
    pub lease_expires_unix_ms: i64,
}

/// The tables of the store.
#[derive(Debug)]
pub struct MockState {
    pub revision: u64,
    pub logical_now_ms: i64,
    pub daemon_epoch: u64,
    pub daemon_fence: Option<DaemonFence>,
    pub active_config: Option<ActiveConfigGenerationRow>,
    pub sessions: Table<SessionId, SessionRow>,
    pub agent_specs: Table<(AgentSpecId, String), AgentSpecRow>,
    pub tasks: Table<TaskId, TaskRow>,
    pub environments: Table<EnvironmentId, ResolvedEnvironmentRow>,
    pub bindings: Table<(EnvironmentId, String), ResolvedBindingRow>,
    pub runs: Table<RunId, RunRow>,
    pub graph_heads: Table<TaskId, RunGraphHeadRow>,
    pub dependencies: Table<DependencyId, RunDependencyRow>,
    pub workspaces: Table<WorkspaceId, WorkspaceRow>,
    pub leases: Table<LeaseId, WorkspaceLeaseRow>,
    pub effects: Table<EffectId, EffectRow>,
    pub reservations: Table<ReservationId, ReservationRow>,
    pub timers: Table<TimerId, TimerRow>,
    pub grants: Table<CapabilityGrantId, CapabilityGrantRow>,
    pub delegation_hops: Table<(DelegationChainId, u32), DelegationHopRow>,
    pub approval_requests: Table<ApprovalRequestId, ApprovalRequestRow>,
    pub approval_responses: Table<ApprovalRequestId, ApprovalResponseRow>,
    pub registrations: Table<(AdapterId, String, String), AdapterRegistrationRow>,
    pub instances: Table<AdapterInstanceId, AdapterInstanceRow>,
    pub conformance_reports: Table<(AdapterId, String, String), ConformanceReportRow>,
    pub artifacts_by_id: Table<ArtifactId, ArtifactRow>,
    pub artifacts_by_uri: Table<String, ArtifactId>,
    pub config_generations: Table<ConfigGenerationId, ConfigGenerationRow>,
    pub turns: Table<TurnId, LoopTurnRow>,
    pub decisions: Table<(RunId, DecisionId), DecisionRow>,
    pub idempotency: Table<(PrincipalId, IdempotencyKey), IdempotencyRecordRow>,
    pub stream_heads: Table<EventStreamKey, u64>,
    pub outbox: Table<EventId, OutboxEventRow>,
    pub outbox_sequences: Table<(EventStreamKey, u64), u64>,
}

/// What the tables of the store hold.
#[verifier::ext_equal]
pub struct StoreModel {
    pub revision: u64,
    pub logical_now_ms: i64,
    pub daemon_epoch: u64,
    pub daemon_fence: Option<DaemonFence>,
    pub active_config: Option<ActiveConfigGenerationRow>,
    pub sessions: Map<SessionId, SessionRow>,
    pub agent_specs: Map<(AgentSpecId, Seq<char>), AgentSpecRow>,
    pub tasks: Map<TaskId, TaskRow>,
    pub environments: Map<EnvironmentId, ResolvedEnvironmentRow>,
    pub bindings: Map<(EnvironmentId, Seq<char>), ResolvedBindingRow>,
    pub runs: Map<RunId, RunRow>,
    pub graph_heads: Map<TaskId, RunGraphHeadRow>,
    pub dependencies: Map<DependencyId, RunDependencyRow>,
    pub workspaces: Map<WorkspaceId, WorkspaceRow>,
    pub leases: Map<LeaseId, WorkspaceLeaseRow>,
    pub effects: Map<EffectId, EffectRow>,
    pub reservations: Map<ReservationId, ReservationRow>,
    pub timers: Map<TimerId, TimerRow>,
    pub grants: Map<CapabilityGrantId, CapabilityGrantRow>,
    pub delegation_hops: Map<(DelegationChainId, u32), DelegationHopRow>,
    pub approval_requests: Map<ApprovalRequestId, ApprovalRequestRow>,
    pub approval_responses: Map<ApprovalRequestId, ApprovalResponseRow>,
    pub registrations: Map<(AdapterId, Seq<char>, Seq<char>), AdapterRegistrationRow>,
    pub instances: Map<AdapterInstanceId, AdapterInstanceRow>,
    pub conformance_reports: Map<(AdapterId, Seq<char>, Seq<char>), ConformanceReportRow>,
    pub artifacts_by_id: Map<ArtifactId, ArtifactRow>,
    pub artifacts_by_uri: Map<Seq<char>, ArtifactId>,
    pub config_generations: Map<ConfigGenerationId, ConfigGenerationRow>,
    pub turns: Map<TurnId, LoopTurnRow>,
    pub decisions: Map<(RunId, DecisionId), DecisionRow>,
    pub idempotency: Map<(PrincipalId, Seq<char>), IdempotencyRecordRow>,
    pub stream_heads: Map<Seq<char>, u64>,
    pub outbox: Map<EventId, OutboxEventRow>,
    pub outbox_sequences: Map<(Seq<char>, u64), u64>,
}

impl View for MockState {
    type V = StoreModel;

    open spec fn view(&self) -> StoreModel {
        StoreModel {
            revision: self.revision,
            logical_now_ms: self.logical_now_ms,
            daemon_epoch: self.daemon_epoch,
            daemon_fence: self.daemon_fence,
            active_config: self.active_config,
            sessions: self.sessions@,
            agent_specs: self.agent_specs@,
            tasks: self.tasks@,
            environments: self.environments@,
            bindings: self.bindings@,
            runs: self.runs@,
            graph_heads: self.graph_heads@,
            dependencies: self.dependencies@,
            workspaces: self.workspaces@,
            leases: self.leases@,
            effects: self.effects@,
            reservations: self.reservations@,
            timers: self.timers@,
            grants: self.grants@,
            delegation_hops: self.delegation_hops@,
            approval_requests: self.approval_requests@,
            approval_responses: self.approval_responses@,
            registrations: self.registrations@,
            instances: self.instances@,
            conformance_reports: self.conformance_reports@,
            artifacts_by_id: self.artifacts_by_id@,
            artifacts_by_uri: self.artifacts_by_uri@,
            config_generations: self.config_generations@,
            turns: self.turns@,
            decisions: self.decisions@,
            idempotency: self.idempotency@,
            stream_heads: self.stream_heads@,
            outbox: self.outbox@,
            outbox_sequences: self.outbox_sequences@,
        }
    }
}

/// A store without records.
pub open spec fn empty_store() -> StoreModel {
    StoreModel {
        revision: 0,
        logical_now_ms: 0,
        daemon_epoch: 0,
        daemon_fence: None,
        active_config: None,
        sessions: Map::empty(),
        agent_specs: Map::empty(),
        tasks: Map::empty(),
        environments: Map::empty(),
        bindings: Map::empty(),
        runs: Map::empty(),
        graph_heads: Map::empty(),
        dependencies: Map::empty(),
        workspaces: Map::empty(),
        leases: Map::empty(),
        effects: Map::empty(),
        reservations: Map::empty(),
        timers: Map::empty(),
        grants: Map::empty(),
        delegation_hops: Map::empty(),
        approval_requests: Map::empty(),
        approval_responses: Map::empty(),
        registrations: Map::empty(),
        instances: Map::empty(),
        conformance_reports: Map::empty(),
        artifacts_by_id: Map::empty(),
        artifacts_by_uri: Map::empty(),
        config_generations: Map::empty(),
        turns: Map::empty(),
        decisions: Map::empty(),
        idempotency: Map::empty(),
        stream_heads: Map::empty(),
        outbox: Map::empty(),
        outbox_sequences: Map::empty(),
    }
}

impl Row for ArtifactId {
    fn copy_row(&self) -> (r: Self) {
        *self
    }
}

impl MockState {
    /// A store without records.
    pub fn new() -> (r: Self)
        ensures
            r@ == empty_store(),
    {
        MockState {
            revision: 0,
            logical_now_ms: 0,
            daemon_epoch: 0,
            daemon_fence: None,
            active_config: None,
            sessions: Table::new(),
            agent_specs: Table::new(),
            tasks: Table::new(),
            environments: Table::new(),
            bindings: Table::new(),
            runs: Table::new(),
            graph_heads: Table::new(),
            dependencies: Table::new(),
            workspaces: Table::new(),
            leases: Table::new(),
            effects: Table::new(),
            reservations: Table::new(),
            timers: Table::new(),
            grants: Table::new(),
            delegation_hops: Table::new(),
            approval_requests: Table::new(),
            approval_responses: Table::new(),
            registrations: Table::new(),
            instances: Table::new(),
            conformance_reports: Table::new(),
            artifacts_by_id: Table::new(),
            artifacts_by_uri: Table::new(),
            config_generations: Table::new(),
            turns: Table::new(),
            decisions: Table::new(),
            idempotency: Table::new(),
            stream_heads: Table::new(),
            outbox: Table::new(),
            outbox_sequences: Table::new(),
        }
    }

    /// A copy of the state.
    pub fn snapshot(&self) -> (r: Self)
        ensures
            r@ == self@,
    {
        MockState {
            revision: self.revision,
            logical_now_ms: self.logical_now_ms,
            daemon_epoch: self.daemon_epoch,
            daemon_fence: self.daemon_fence,
            active_config: match &self.active_config {
                Some(row) => Some(row.copy_row()),
                None => None,
            },
            sessions: self.sessions.copy_table(),
            agent_specs: self.agent_specs.copy_table(),
            tasks: self.tasks.copy_table(),
            environments: self.environments.copy_table(),
            bindings: self.bindings.copy_table(),
            runs: self.runs.copy_table(),
            graph_heads: self.graph_heads.copy_table(),
            dependencies: self.dependencies.copy_table(),
            workspaces: self.workspaces.copy_table(),
            leases: self.leases.copy_table(),
            effects: self.effects.copy_table(),
            reservations: self.reservations.copy_table(),
            timers: self.timers.copy_table(),
            grants: self.grants.copy_table(),
            delegation_hops: self.delegation_hops.copy_table(),
            approval_requests: self.approval_requests.copy_table(),
            approval_responses: self.approval_responses.copy_table(),
            registrations: self.registrations.copy_table(),
            instances: self.instances.copy_table(),
            conformance_reports: self.conformance_reports.copy_table(),
            artifacts_by_id: self.artifacts_by_id.copy_table(),
            artifacts_by_uri: self.artifacts_by_uri.copy_table(),
            config_generations: self.config_generations.copy_table(),
            turns: self.turns.copy_table(),
            decisions: self.decisions.copy_table(),
            idempotency: self.idempotency.copy_table(),
            stream_heads: self.stream_heads.copy_table(),
            outbox: self.outbox.copy_table(),
            outbox_sequences: self.outbox_sequences.copy_table(),
        }
    }
}

} // verus!
