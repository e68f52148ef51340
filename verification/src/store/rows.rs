//! The records of the store, and what is told of each when it is recorded.

use vstd::prelude::*;

use crate::domain::{ActorId, AdapterId, AdapterInstanceId, AgentSpecId, ApprovalRequestId, ApprovalState, ArtifactId, Bytes, CapabilityGrantId, CommandId, ConfigGenerationId, ConformanceState, DaemonInstanceId, DecisionId, DelegationChainId, DependencyCondition, DependencyId, DeviceId, EffectClass, EffectId, EffectState, EnvironmentId, EventCursor, EventId, EventStreamKey, IdempotencyKey, IdempotencySemantics, LeaseEnforcementState, LeaseId, PrincipalId, ReconciliationSemantics, RecoveryDisposition, ReservationId, ReservationState, RetentionClass, RunId, RunState, SensitivityClass, SessionId, TaskId, TimerId, TimerState, TrustState, TurnId, WorkspaceAccessMode, WorkspaceId};
use crate::store::table::Row;

verus! {

/// The record of a session.
#[derive(Debug)]
pub struct SessionRow {
    pub session_id: SessionId,
    pub principal_id: PrincipalId,
    pub created_at_ms: i64,
    pub metadata: Option<Bytes>,
}

impl Row for SessionRow {
    fn copy_row(&self) -> (r: Self) {
        SessionRow {
            session_id: self.session_id,
            principal_id: self.principal_id,
            created_at_ms: self.created_at_ms,
            metadata: self.metadata.clone(),
        }
    }
}

/// What is told of a session when it is recorded.
#[derive(Debug)]
pub struct NewSession {
    pub session_id: SessionId,
    pub principal_id: PrincipalId,
    pub created_at_ms: i64,
    pub metadata: Option<Bytes>,
}

/// The first record of a session.
pub open spec fn session_row(new: NewSession) -> SessionRow {
    SessionRow {
        session_id: new.session_id,
        principal_id: new.principal_id,
        created_at_ms: new.created_at_ms,
        metadata: new.metadata,
    }
}

/// The first record of a session.
pub fn make_session(new: NewSession) -> (r: SessionRow)
    ensures
        r == session_row(new),
{
    SessionRow {
        session_id: new.session_id,
        principal_id: new.principal_id,
        created_at_ms: new.created_at_ms,
        metadata: new.metadata,
    }
}

/// The record of a revision of an agent's specification.
#[derive(Debug)]
pub struct AgentSpecRow {
    pub agent_spec_id: AgentSpecId,
    pub version: String,
    pub digest: String,
    pub body: Bytes,
    pub created_at_ms: i64,
}

impl Row for AgentSpecRow {
    fn copy_row(&self) -> (r: Self) {
        AgentSpecRow {
            agent_spec_id: self.agent_spec_id,
            version: self.version.clone(),
            digest: self.digest.clone(),
            body: self.body.clone(),
            created_at_ms: self.created_at_ms,
        }
    }
}

/// What is told of a revision of an agent's specification when it is recorded.
#[derive(Debug)]
pub struct NewAgentSpec {
    pub agent_spec_id: AgentSpecId,
    pub version: String,
    pub digest: String,
    pub body: Bytes,
    pub created_at_ms: i64,
}

/// The first record of a revision of an agent's specification.
pub open spec fn agent_spec_row(new: NewAgentSpec) -> AgentSpecRow {
    AgentSpecRow {
        agent_spec_id: new.agent_spec_id,
        version: new.version,
        digest: new.digest,
        body: new.body,
        created_at_ms: new.created_at_ms,
    }
}

/// The first record of a revision of an agent's specification.
pub fn make_agent_spec(new: NewAgentSpec) -> (r: AgentSpecRow)
    ensures
        r == agent_spec_row(new),
{
    AgentSpecRow {
        agent_spec_id: new.agent_spec_id,
        version: new.version,
        digest: new.digest,
        body: new.body,
        created_at_ms: new.created_at_ms,
    }
}

/// The record of a task.
#[derive(Debug)]
pub struct TaskRow {
    pub task_id: TaskId,
    pub session_id: Option<SessionId>,
    pub created_by_actor_id: ActorId,
    pub task_kind: String,
    pub payload: Bytes,
    pub created_at_ms: i64,
}

impl Row for TaskRow {
    fn copy_row(&self) -> (r: Self) {
        TaskRow {
            task_id: self.task_id,
            session_id: self.session_id,
            created_by_actor_id: self.created_by_actor_id,
            task_kind: self.task_kind.clone(),
            payload: self.payload.clone(),
            created_at_ms: self.created_at_ms,
        }
    }
}

/// What is told of a task when it is recorded.
#[derive(Debug)]
pub struct NewTask {
    pub task_id: TaskId,
    pub session_id: Option<SessionId>,
    pub created_by_actor_id: ActorId,
    pub task_kind: String,
    pub payload: Bytes,
    pub created_at_ms: i64,
}

/// The first record of a task.
pub open spec fn task_row(new: NewTask) -> TaskRow {
    TaskRow {
        task_id: new.task_id,
        session_id: new.session_id,
        created_by_actor_id: new.created_by_actor_id,
        task_kind: new.task_kind,
        payload: new.payload,
        created_at_ms: new.created_at_ms,
    }
}

/// The first record of a task.
pub fn make_task(new: NewTask) -> (r: TaskRow)
    ensures
        r == task_row(new),
{
    TaskRow {
        task_id: new.task_id,
        session_id: new.session_id,
        created_by_actor_id: new.created_by_actor_id,
        task_kind: new.task_kind,
        payload: new.payload,
        created_at_ms: new.created_at_ms,
    }
}

/// The record of the environment that was resolved for a run.
#[derive(Debug)]
pub struct ResolvedEnvironmentRow {
    pub environment_id: EnvironmentId,
    pub run_id: RunId,
    pub agent_spec_id: AgentSpecId,
    pub agent_spec_version: String,
    pub agent_spec_digest: String,
    pub agent_loop_id: String,
    pub agent_loop_version: String,
    pub agent_loop_digest: String,
    pub config_generation_id: ConfigGenerationId,
    pub workspace_uri: String,
    pub workspace_base_revision: Option<String>,
    pub workspace_mode: WorkspaceAccessMode,
    pub model_provider: String,
    pub model_id: String,
    pub model_parameters: Bytes,
    pub kernel_version: String,
    pub protocol_versions: Bytes,
    pub capability_grant_ids: Bytes,
    pub approval_request_ids: Bytes,
    pub created_at_ms: i64,
}

impl Row for ResolvedEnvironmentRow {
    fn copy_row(&self) -> (r: Self) {
        ResolvedEnvironmentRow {
            environment_id: self.environment_id,
            run_id: self.run_id,
            agent_spec_id: self.agent_spec_id,
            agent_spec_version: self.agent_spec_version.clone(),
            agent_spec_digest: self.agent_spec_digest.clone(),
            agent_loop_id: self.agent_loop_id.clone(),
            agent_loop_version: self.agent_loop_version.clone(),
            agent_loop_digest: self.agent_loop_digest.clone(),
            config_generation_id: self.config_generation_id,
            workspace_uri: self.workspace_uri.clone(),
            workspace_base_revision: self.workspace_base_revision.clone(),
            workspace_mode: self.workspace_mode,
            model_provider: self.model_provider.clone(),
            model_id: self.model_id.clone(),
            model_parameters: self.model_parameters.clone(),
            kernel_version: self.kernel_version.clone(),
            protocol_versions: self.protocol_versions.clone(),
            capability_grant_ids: self.capability_grant_ids.clone(),
            approval_request_ids: self.approval_request_ids.clone(),
            created_at_ms: self.created_at_ms,
        }
    }
}

/// What is told of the environment that was resolved for a run when it is recorded.
#[derive(Debug)]
pub struct NewResolvedEnvironment {
    pub environment_id: EnvironmentId,
    pub run_id: RunId,
    pub agent_spec_id: AgentSpecId,
    pub agent_spec_version: String,
    pub agent_spec_digest: String,
    pub agent_loop_id: String,
    pub agent_loop_version: String,
    pub agent_loop_digest: String,
    pub config_generation_id: ConfigGenerationId,
    pub workspace_uri: String,
    pub workspace_base_revision: Option<String>,
    pub workspace_mode: WorkspaceAccessMode,
    pub model_provider: String,
    pub model_id: String,
    pub model_parameters: Bytes,
    pub kernel_version: String,
    pub protocol_versions: Bytes,
    pub capability_grant_ids: Bytes,
    pub approval_request_ids: Bytes,
    pub created_at_ms: i64,
}

/// The first record of the environment that was resolved for a run.
pub open spec fn resolved_environment_row(new: NewResolvedEnvironment) -> ResolvedEnvironmentRow {
    ResolvedEnvironmentRow {
        environment_id: new.environment_id,
        run_id: new.run_id,
        agent_spec_id: new.agent_spec_id,
        agent_spec_version: new.agent_spec_version,
        agent_spec_digest: new.agent_spec_digest,
        agent_loop_id: new.agent_loop_id,
        agent_loop_version: new.agent_loop_version,
        agent_loop_digest: new.agent_loop_digest,
        config_generation_id: new.config_generation_id,
        workspace_uri: new.workspace_uri,
        workspace_base_revision: new.workspace_base_revision,
        workspace_mode: new.workspace_mode,
        model_provider: new.model_provider,
        model_id: new.model_id,
        model_parameters: new.model_parameters,
        kernel_version: new.kernel_version,
        protocol_versions: new.protocol_versions,
        capability_grant_ids: new.capability_grant_ids,
        approval_request_ids: new.approval_request_ids,
        created_at_ms: new.created_at_ms,
    }
}

/// The first record of the environment that was resolved for a run.
pub fn make_resolved_environment(new: NewResolvedEnvironment) -> (r: ResolvedEnvironmentRow)
    ensures
        r == resolved_environment_row(new),
{
    ResolvedEnvironmentRow {
        environment_id: new.environment_id,
        run_id: new.run_id,
        agent_spec_id: new.agent_spec_id,
        agent_spec_version: new.agent_spec_version,
        agent_spec_digest: new.agent_spec_digest,
        agent_loop_id: new.agent_loop_id,
        agent_loop_version: new.agent_loop_version,
        agent_loop_digest: new.agent_loop_digest,
        config_generation_id: new.config_generation_id,
        workspace_uri: new.workspace_uri,
        workspace_base_revision: new.workspace_base_revision,
        workspace_mode: new.workspace_mode,
        model_provider: new.model_provider,
        model_id: new.model_id,
        model_parameters: new.model_parameters,
        kernel_version: new.kernel_version,
        protocol_versions: new.protocol_versions,
        capability_grant_ids: new.capability_grant_ids,
        approval_request_ids: new.approval_request_ids,
        created_at_ms: new.created_at_ms,
    }
}

/// The record of the adapter that is bound to a port of an environment.
#[derive(Debug)]
pub struct ResolvedBindingRow {
    pub environment_id: EnvironmentId,
    pub port_id: String,
    pub adapter_id: AdapterId,
    pub adapter_version: String,
    pub adapter_digest: String,
    pub capabilities: Bytes,
}

impl Row for ResolvedBindingRow {
    fn copy_row(&self) -> (r: Self) {
        ResolvedBindingRow {
            environment_id: self.environment_id,
            port_id: self.port_id.clone(),
            adapter_id: self.adapter_id,
            adapter_version: self.adapter_version.clone(),
            adapter_digest: self.adapter_digest.clone(),
            capabilities: self.capabilities.clone(),
        }
    }
}

/// What is told of the adapter that is bound to a port of an environment when it is recorded.
#[derive(Debug)]
pub struct NewResolvedBinding {
    pub port_id: String,
    pub adapter_id: AdapterId,
    pub adapter_version: String,
    pub adapter_digest: String,
    pub capabilities: Bytes,
}

/// The first record of the adapter that is bound to a port of an environment.
pub open spec fn resolved_binding_row(new: NewResolvedBinding, environment: EnvironmentId) -> ResolvedBindingRow {
    ResolvedBindingRow {
        environment_id: environment,
        port_id: new.port_id,
        adapter_id: new.adapter_id,
        adapter_version: new.adapter_version,
        adapter_digest: new.adapter_digest,
        capabilities: new.capabilities,
    }
}

/// The first record of the adapter that is bound to a port of an environment.
pub fn make_resolved_binding(new: NewResolvedBinding, environment: EnvironmentId) -> (r: ResolvedBindingRow)
    ensures
        r == resolved_binding_row(new, environment),
{
    ResolvedBindingRow {
        environment_id: environment,
        port_id: new.port_id,
        adapter_id: new.adapter_id,
        adapter_version: new.adapter_version,
        adapter_digest: new.adapter_digest,
        capabilities: new.capabilities,
    }
}

/// The record of a run.
#[derive(Debug)]
pub struct RunRow {
    pub run_id: RunId,
    pub task_id: TaskId,
    pub session_id: Option<SessionId>,
    pub parent_run_id: Option<RunId>,
    pub state: RunState,
    pub recovery: RecoveryDisposition,
    pub run_revision: u64,
    pub loop_epoch: u64,
    pub step_sequence: u64,
    pub input_event_cursor: EventCursor,
    pub cancellation_epoch: u64,
    pub resolved_environment_id: Option<EnvironmentId>,
    pub claim_owner: Option<String>,
    pub claim_token: Option<u64>,
    pub claim_expires_ms: Option<i64>,
    pub claim_daemon_epoch: Option<u64>,
    pub terminal_reason: Option<String>,
    pub output_ref: Option<String>,
    pub current_turn_id: Option<TurnId>,
    pub created_at_ms: i64,
    pub updated_at_ms: i64,
}

impl Row for RunRow {
    fn copy_row(&self) -> (r: Self) {
        RunRow {
            run_id: self.run_id,
            task_id: self.task_id,
            session_id: self.session_id,
            parent_run_id: self.parent_run_id,
            state: self.state,
            recovery: self.recovery,
            run_revision: self.run_revision,
            loop_epoch: self.loop_epoch,
            step_sequence: self.step_sequence,
            input_event_cursor: self.input_event_cursor.clone(),
            cancellation_epoch: self.cancellation_epoch,
            resolved_environment_id: self.resolved_environment_id,
            claim_owner: self.claim_owner.clone(),
            claim_token: self.claim_token,
            claim_expires_ms: self.claim_expires_ms,
            claim_daemon_epoch: self.claim_daemon_epoch,
            terminal_reason: self.terminal_reason.clone(),
            output_ref: self.output_ref.clone(),
            current_turn_id: self.current_turn_id,
            created_at_ms: self.created_at_ms,
            updated_at_ms: self.updated_at_ms,
        }
    }
}

/// What is told of a run when it is recorded.
#[derive(Debug)]
pub struct NewRun {
    pub run_id: RunId,
    pub task_id: TaskId,
    pub session_id: Option<SessionId>,
    pub parent_run_id: Option<RunId>,
    pub state: RunState,
    pub recovery: RecoveryDisposition,
    pub loop_epoch: u64,
    pub step_sequence: u64,
    pub input_event_cursor: EventCursor,
    pub cancellation_epoch: u64,
    pub resolved_environment_id: Option<EnvironmentId>,
    pub created_at_ms: i64,
}

/// The first record of a run.
pub open spec fn run_row(new: NewRun) -> RunRow {
    RunRow {
        run_id: new.run_id,
        task_id: new.task_id,
        session_id: new.session_id,
        parent_run_id: new.parent_run_id,
        state: new.state,
        recovery: new.recovery,
        run_revision: 0,
        loop_epoch: new.loop_epoch,
        step_sequence: new.step_sequence,
        input_event_cursor: new.input_event_cursor,
        cancellation_epoch: new.cancellation_epoch,
        resolved_environment_id: new.resolved_environment_id,
        claim_owner: None,
        claim_token: None,
        claim_expires_ms: None,
        claim_daemon_epoch: None,
        terminal_reason: None,
        output_ref: None,
        current_turn_id: None,
        created_at_ms: new.created_at_ms,
        updated_at_ms: new.created_at_ms,
    }
}

/// The first record of a run.
pub fn make_run(new: NewRun) -> (r: RunRow)
    ensures
        r == run_row(new),
{
    RunRow {
        run_id: new.run_id,
        task_id: new.task_id,
        session_id: new.session_id,
        parent_run_id: new.parent_run_id,
        state: new.state,
        recovery: new.recovery,
        run_revision: 0,
        loop_epoch: new.loop_epoch,
        step_sequence: new.step_sequence,
        input_event_cursor: new.input_event_cursor,
        cancellation_epoch: new.cancellation_epoch,
        resolved_environment_id: new.resolved_environment_id,
        claim_owner: None,
        claim_token: None,
        claim_expires_ms: None,
        claim_daemon_epoch: None,
        terminal_reason: None,
        output_ref: None,
        current_turn_id: None,
        created_at_ms: new.created_at_ms,
        updated_at_ms: new.created_at_ms,
    }
}

/// The record of the revision of a task's graph of runs.
#[derive(Debug)]
pub struct RunGraphHeadRow {
    pub task_id: TaskId,
    pub graph_revision: u64,
}

impl Row for RunGraphHeadRow {
    fn copy_row(&self) -> (r: Self) {
        RunGraphHeadRow {
            task_id: self.task_id,
            graph_revision: self.graph_revision,
        }
    }
}

/// The record of a dependency between two runs.
#[derive(Debug)]
pub struct RunDependencyRow {
    pub dependency_id: DependencyId,
    pub task_id: TaskId,
    pub source_run_id: RunId,
    pub target_run_id: RunId,
    pub dependency_condition: DependencyCondition,
    pub created_graph_revision: u64,
    pub created_at_ms: i64,
}

impl Row for RunDependencyRow {
    fn copy_row(&self) -> (r: Self) {
        RunDependencyRow {
            dependency_id: self.dependency_id,
            task_id: self.task_id,
            source_run_id: self.source_run_id,
            target_run_id: self.target_run_id,
            dependency_condition: self.dependency_condition,
            created_graph_revision: self.created_graph_revision,
            created_at_ms: self.created_at_ms,
        }
    }
}

/// What is told of a dependency between two runs when it is recorded.
#[derive(Debug)]
pub struct NewRunDependency {
    pub dependency_id: DependencyId,
    pub task_id: TaskId,
    pub source_run_id: RunId,
    pub target_run_id: RunId,
    pub dependency_condition: DependencyCondition,
    pub created_at_ms: i64,
}

/// The first record of a dependency between two runs.
pub open spec fn run_dependency_row(new: NewRunDependency, expected_revision: u64) -> RunDependencyRow {
    RunDependencyRow {
        dependency_id: new.dependency_id,
        task_id: new.task_id,
        source_run_id: new.source_run_id,
        target_run_id: new.target_run_id,
        dependency_condition: new.dependency_condition,
        created_graph_revision: expected_revision,
        created_at_ms: new.created_at_ms,
    }
}

/// The first record of a dependency between two runs.
pub fn make_run_dependency(new: NewRunDependency, expected_revision: u64) -> (r: RunDependencyRow)
    ensures
        r == run_dependency_row(new, expected_revision),
{
    RunDependencyRow {
        dependency_id: new.dependency_id,
        task_id: new.task_id,
        source_run_id: new.source_run_id,
        target_run_id: new.target_run_id,
        dependency_condition: new.dependency_condition,
        created_graph_revision: expected_revision,
        created_at_ms: new.created_at_ms,
    }
}

/// The record of a workspace.
#[derive(Debug)]
pub struct WorkspaceRow {
    pub workspace_id: WorkspaceId,
    pub kind: String,
    pub base_revision: Option<String>,
    pub parent_workspace_id: Option<WorkspaceId>,
    pub created_at_ms: i64,
}

impl Row for WorkspaceRow {
    fn copy_row(&self) -> (r: Self) {
        WorkspaceRow {
            workspace_id: self.workspace_id,
            kind: self.kind.clone(),
            base_revision: self.base_revision.clone(),
            parent_workspace_id: self.parent_workspace_id,
            created_at_ms: self.created_at_ms,
        }
    }
}

/// What is told of a workspace when it is recorded.
#[derive(Debug)]
pub struct NewWorkspace {
    pub workspace_id: WorkspaceId,
    pub kind: String,
    pub base_revision: Option<String>,
    pub parent_workspace_id: Option<WorkspaceId>,
    pub created_at_ms: i64,
}

/// The first record of a workspace.
pub open spec fn workspace_row(new: NewWorkspace) -> WorkspaceRow {
    WorkspaceRow {
        workspace_id: new.workspace_id,
        kind: new.kind,
        base_revision: new.base_revision,
        parent_workspace_id: new.parent_workspace_id,
        created_at_ms: new.created_at_ms,
    }
}

/// The first record of a workspace.
pub fn make_workspace(new: NewWorkspace) -> (r: WorkspaceRow)
    ensures
        r == workspace_row(new),
{
    WorkspaceRow {
        workspace_id: new.workspace_id,
        kind: new.kind,
        base_revision: new.base_revision,
        parent_workspace_id: new.parent_workspace_id,
        created_at_ms: new.created_at_ms,
    }
}

/// The record of a lease on a workspace.
#[derive(Debug)]
pub struct WorkspaceLeaseRow {
    pub lease_id: LeaseId,
    pub workspace_id: WorkspaceId,
    pub owner_run_id: RunId,
    pub mode: WorkspaceAccessMode,
    pub lease_epoch: u64,
    pub enforcement_state: LeaseEnforcementState,
    pub delegated_from: Bytes,
    pub created_at_ms: i64,
    pub updated_at_ms: i64,
}

impl Row for WorkspaceLeaseRow {
    fn copy_row(&self) -> (r: Self) {
        WorkspaceLeaseRow {
            lease_id: self.lease_id,
            workspace_id: self.workspace_id,
            owner_run_id: self.owner_run_id,
            mode: self.mode,
            lease_epoch: self.lease_epoch,
            enforcement_state: self.enforcement_state,
            delegated_from: self.delegated_from.clone(),
            created_at_ms: self.created_at_ms,
            updated_at_ms: self.updated_at_ms,
        }
    }
}

/// What is told of a lease on a workspace when it is recorded.
#[derive(Debug)]
pub struct NewWorkspaceLease {
    pub lease_id: LeaseId,
    pub workspace_id: WorkspaceId,
    pub owner_run_id: RunId,
    pub mode: WorkspaceAccessMode,
    pub lease_epoch: u64,
    pub enforcement_state: LeaseEnforcementState,
    pub delegated_from: Bytes,
    pub created_at_ms: i64,
}

/// The first record of a lease on a workspace.
pub open spec fn workspace_lease_row(new: NewWorkspaceLease) -> WorkspaceLeaseRow {
    WorkspaceLeaseRow {
        lease_id: new.lease_id,
        workspace_id: new.workspace_id,
        owner_run_id: new.owner_run_id,
        mode: new.mode,
        lease_epoch: new.lease_epoch,
        enforcement_state: new.enforcement_state,
        delegated_from: new.delegated_from,
        created_at_ms: new.created_at_ms,
        updated_at_ms: new.created_at_ms,
    }
}

/// The first record of a lease on a workspace.
pub fn make_workspace_lease(new: NewWorkspaceLease) -> (r: WorkspaceLeaseRow)
    ensures
        r == workspace_lease_row(new),
{
    WorkspaceLeaseRow {
        lease_id: new.lease_id,
        workspace_id: new.workspace_id,
        owner_run_id: new.owner_run_id,
        mode: new.mode,
        lease_epoch: new.lease_epoch,
        enforcement_state: new.enforcement_state,
        delegated_from: new.delegated_from,
        created_at_ms: new.created_at_ms,
        updated_at_ms: new.created_at_ms,
    }
}

/// The record of an effect.
#[derive(Debug)]
pub struct EffectRow {
    pub effect_id: EffectId,
    pub run_id: RunId,
    pub step_sequence: u64,
    pub decision_id: DecisionId,
    pub operation: String,
    pub request_hash: String,
    pub request_payload: Bytes,
    pub effect_class: EffectClass,
    pub idempotency_semantics: IdempotencySemantics,
    pub reconciliation_semantics: ReconciliationSemantics,
    pub cancellation_semantics: String,
    pub compensation_capability: Option<String>,
    pub adapter_id: AdapterId,
    pub adapter_version: String,
    pub adapter_digest: String,
    pub state: EffectState,
    pub executor_id: Option<String>,
    pub executor_fencing_token: Option<u64>,
    pub daemon_fencing_epoch: Option<u64>,
    pub lease_expires_ms: Option<i64>,
    pub provider_operation_ref: Option<String>,
    pub result_ref: Option<String>,
    pub error_code: Option<String>,
    pub created_at_ms: i64,
    pub updated_at_ms: i64,
}

impl Row for EffectRow {
    fn copy_row(&self) -> (r: Self) {
        EffectRow {
            effect_id: self.effect_id,
            run_id: self.run_id,
            step_sequence: self.step_sequence,
            decision_id: self.decision_id,
            operation: self.operation.clone(),
            request_hash: self.request_hash.clone(),
            request_payload: self.request_payload.clone(),
            effect_class: self.effect_class,
            idempotency_semantics: self.idempotency_semantics,
            reconciliation_semantics: self.reconciliation_semantics,
            cancellation_semantics: self.cancellation_semantics.clone(),
            compensation_capability: self.compensation_capability.clone(),
            adapter_id: self.adapter_id,
            adapter_version: self.adapter_version.clone(),
            adapter_digest: self.adapter_digest.clone(),
            state: self.state,
            executor_id: self.executor_id.clone(),
            executor_fencing_token: self.executor_fencing_token,
            daemon_fencing_epoch: self.daemon_fencing_epoch,
            lease_expires_ms: self.lease_expires_ms,
            provider_operation_ref: self.provider_operation_ref.clone(),
            result_ref: self.result_ref.clone(),
            error_code: self.error_code.clone(),
            created_at_ms: self.created_at_ms,
            updated_at_ms: self.updated_at_ms,
        }
    }
}

/// What is told of an effect when it is recorded.
#[derive(Debug)]
pub struct NewEffect {
    pub effect_id: EffectId,
    pub run_id: RunId,
    pub step_sequence: u64,
    pub decision_id: DecisionId,
    pub operation: String,
    pub request_hash: String,
    pub request_payload: Bytes,
    pub effect_class: EffectClass,
    pub idempotency_semantics: IdempotencySemantics,
    pub reconciliation_semantics: ReconciliationSemantics,
    pub cancellation_semantics: String,
    pub compensation_capability: Option<String>,
    pub adapter_id: AdapterId,
    pub adapter_version: String,
    pub adapter_digest: String,
    pub state: EffectState,
    pub created_at_ms: i64,
}

/// The first record of an effect.
pub open spec fn effect_row(new: NewEffect) -> EffectRow {
    EffectRow {
        effect_id: new.effect_id,
        run_id: new.run_id,
        step_sequence: new.step_sequence,
        decision_id: new.decision_id,
        operation: new.operation,
        request_hash: new.request_hash,
        request_payload: new.request_payload,
        effect_class: new.effect_class,
        idempotency_semantics: new.idempotency_semantics,
        reconciliation_semantics: new.reconciliation_semantics,
        cancellation_semantics: new.cancellation_semantics,
        compensation_capability: new.compensation_capability,
        adapter_id: new.adapter_id,
        adapter_version: new.adapter_version,
        adapter_digest: new.adapter_digest,
        state: new.state,
        executor_id: None,
        executor_fencing_token: None,
        daemon_fencing_epoch: None,
        lease_expires_ms: None,
        provider_operation_ref: None,
        result_ref: None,
        error_code: None,
        created_at_ms: new.created_at_ms,
        updated_at_ms: new.created_at_ms,
    }
}

/// The first record of an effect.
pub fn make_effect(new: NewEffect) -> (r: EffectRow)
    ensures
        r == effect_row(new),
{
    EffectRow {
        effect_id: new.effect_id,
        run_id: new.run_id,
        step_sequence: new.step_sequence,
        decision_id: new.decision_id,
        operation: new.operation,
        request_hash: new.request_hash,
        request_payload: new.request_payload,
        effect_class: new.effect_class,
        idempotency_semantics: new.idempotency_semantics,
        reconciliation_semantics: new.reconciliation_semantics,
        cancellation_semantics: new.cancellation_semantics,
        compensation_capability: new.compensation_capability,
        adapter_id: new.adapter_id,
        adapter_version: new.adapter_version,
        adapter_digest: new.adapter_digest,
        state: new.state,
        executor_id: None,
        executor_fencing_token: None,
        daemon_fencing_epoch: None,
        lease_expires_ms: None,
        provider_operation_ref: None,
        result_ref: None,
        error_code: None,
        created_at_ms: new.created_at_ms,
        updated_at_ms: new.created_at_ms,
    }
}

/// The record of a reservation of a resource.
#[derive(Debug)]
pub struct ReservationRow {
    pub reservation_id: ReservationId,
    pub run_id: RunId,
    pub resource_type: String,
    pub state: ReservationState,
    pub amount: u64,
    pub unit: String,
    pub fencing_token: u64,
    pub parent_reservation_id: Option<ReservationId>,
    pub created_at_ms: i64,
    pub updated_at_ms: i64,
}

impl Row for ReservationRow {
    fn copy_row(&self) -> (r: Self) {
        ReservationRow {
            reservation_id: self.reservation_id,
            run_id: self.run_id,
            resource_type: self.resource_type.clone(),
            state: self.state,
            amount: self.amount,
            unit: self.unit.clone(),
            fencing_token: self.fencing_token,
            parent_reservation_id: self.parent_reservation_id,
            created_at_ms: self.created_at_ms,
            updated_at_ms: self.updated_at_ms,
        }
    }
}

/// What is told of a reservation of a resource when it is recorded.
#[derive(Debug)]
pub struct NewReservation {
    pub reservation_id: ReservationId,
    pub run_id: RunId,
    pub resource_type: String,
    pub state: ReservationState,
    pub amount: u64,
    pub unit: String,
    pub fencing_token: u64,
    pub parent_reservation_id: Option<ReservationId>,
    pub created_at_ms: i64,
}

/// The first record of a reservation of a resource.
pub open spec fn reservation_row(new: NewReservation) -> ReservationRow {
    ReservationRow {
        reservation_id: new.reservation_id,
        run_id: new.run_id,
        resource_type: new.resource_type,
        state: new.state,
        amount: new.amount,
        unit: new.unit,
        fencing_token: new.fencing_token,
        parent_reservation_id: new.parent_reservation_id,
        created_at_ms: new.created_at_ms,
        updated_at_ms: new.created_at_ms,
    }
}

/// The first record of a reservation of a resource.
pub fn make_reservation(new: NewReservation) -> (r: ReservationRow)
    ensures
        r == reservation_row(new),
{
    ReservationRow {
        reservation_id: new.reservation_id,
        run_id: new.run_id,
        resource_type: new.resource_type,
        state: new.state,
        amount: new.amount,
        unit: new.unit,
        fencing_token: new.fencing_token,
        parent_reservation_id: new.parent_reservation_id,
        created_at_ms: new.created_at_ms,
        updated_at_ms: new.created_at_ms,
    }
}

/// The record of a timer.
#[derive(Debug)]
pub struct TimerRow {
    pub timer_id: TimerId,
    pub run_id: Option<RunId>,
    pub timer_kind: String,
    pub payload: Bytes,
    pub due_at_ms: i64,
    pub state: TimerState,
    pub version: u64,
    pub claim_owner: Option<String>,
    pub claim_fencing_token: Option<u64>,
    pub claim_daemon_epoch: Option<u64>,
    pub created_at_ms: i64,
    pub updated_at_ms: i64,
}

impl Row for TimerRow {
    fn copy_row(&self) -> (r: Self) {
        TimerRow {
            timer_id: self.timer_id,
            run_id: self.run_id,
            timer_kind: self.timer_kind.clone(),
            payload: self.payload.clone(),
            due_at_ms: self.due_at_ms,
            state: self.state,
            version: self.version,
            claim_owner: self.claim_owner.clone(),
            claim_fencing_token: self.claim_fencing_token,
            claim_daemon_epoch: self.claim_daemon_epoch,
            created_at_ms: self.created_at_ms,
            updated_at_ms: self.updated_at_ms,
        }
    }
}

/// What is told of a timer when it is recorded.
#[derive(Debug)]
pub struct NewTimer {
    pub timer_id: TimerId,
    pub run_id: Option<RunId>,
    pub timer_kind: String,
    pub payload: Bytes,
    pub due_at_ms: i64,
    pub state: TimerState,
    pub version: u64,
    pub created_at_ms: i64,
}

/// The first record of a timer.
pub open spec fn timer_row(new: NewTimer) -> TimerRow {
    TimerRow {
        timer_id: new.timer_id,
        run_id: new.run_id,
        timer_kind: new.timer_kind,
        payload: new.payload,
        due_at_ms: new.due_at_ms,
        state: new.state,
        version: new.version,
        claim_owner: None,
        claim_fencing_token: None,
        claim_daemon_epoch: None,
        created_at_ms: new.created_at_ms,
        updated_at_ms: new.created_at_ms,
    }
}

/// The first record of a timer.
pub fn make_timer(new: NewTimer) -> (r: TimerRow)
    ensures
        r == timer_row(new),
{
    TimerRow {
        timer_id: new.timer_id,
        run_id: new.run_id,
        timer_kind: new.timer_kind,
        payload: new.payload,
        due_at_ms: new.due_at_ms,
        state: new.state,
        version: new.version,
        claim_owner: None,
        claim_fencing_token: None,
        claim_daemon_epoch: None,
        created_at_ms: new.created_at_ms,
        updated_at_ms: new.created_at_ms,
    }
}

/// The record of a grant of a capability.
#[derive(Debug)]
pub struct CapabilityGrantRow {
    pub grant_id: CapabilityGrantId,
    pub principal_id: PrincipalId,
    pub actor_id: ActorId,
    pub run_id: Option<RunId>,
    pub capability_id: String,
    pub scope: Bytes,
    pub delegated_from_grant_id: Option<CapabilityGrantId>,
    pub expires_at_ms: Option<i64>,
    pub revoked_at_ms: Option<i64>,
    pub created_at_ms: i64,
}

impl Row for CapabilityGrantRow {
    fn copy_row(&self) -> (r: Self) {
        CapabilityGrantRow {
            grant_id: self.grant_id,
            principal_id: self.principal_id,
            actor_id: self.actor_id,
            run_id: self.run_id,
            capability_id: self.capability_id.clone(),
            scope: self.scope.clone(),
            delegated_from_grant_id: self.delegated_from_grant_id,
            expires_at_ms: self.expires_at_ms,
            revoked_at_ms: self.revoked_at_ms,
            created_at_ms: self.created_at_ms,
        }
    }
}

/// What is told of a grant of a capability when it is recorded.
#[derive(Debug)]
pub struct NewCapabilityGrant {
    pub grant_id: CapabilityGrantId,
    pub principal_id: PrincipalId,
    pub actor_id: ActorId,
    pub run_id: Option<RunId>,
    pub capability_id: String,
    pub scope: Bytes,
    pub delegated_from_grant_id: Option<CapabilityGrantId>,
    pub expires_at_ms: Option<i64>,
    pub revoked_at_ms: Option<i64>,
    pub created_at_ms: i64,
}

/// The first record of a grant of a capability.
pub open spec fn capability_grant_row(new: NewCapabilityGrant) -> CapabilityGrantRow {
    CapabilityGrantRow {
        grant_id: new.grant_id,
        principal_id: new.principal_id,
        actor_id: new.actor_id,
        run_id: new.run_id,
        capability_id: new.capability_id,
        scope: new.scope,
        delegated_from_grant_id: new.delegated_from_grant_id,
        expires_at_ms: new.expires_at_ms,
        revoked_at_ms: new.revoked_at_ms,
        created_at_ms: new.created_at_ms,
    }
}

/// The first record of a grant of a capability.
pub fn make_capability_grant(new: NewCapabilityGrant) -> (r: CapabilityGrantRow)
    ensures
        r == capability_grant_row(new),
{
    CapabilityGrantRow {
        grant_id: new.grant_id,
        principal_id: new.principal_id,
        actor_id: new.actor_id,
        run_id: new.run_id,
        capability_id: new.capability_id,
        scope: new.scope,
        delegated_from_grant_id: new.delegated_from_grant_id,
        expires_at_ms: new.expires_at_ms,
        revoked_at_ms: new.revoked_at_ms,
        created_at_ms: new.created_at_ms,
    }
}

/// The record of a hop of a chain of delegations.
#[derive(Debug)]
pub struct DelegationHopRow {
    pub chain_id: DelegationChainId,
    pub hop_index: u32,
    pub principal_or_actor_id: String,
    pub run_id: Option<RunId>,
    pub capability_grant_ids: Bytes,
}

impl Row for DelegationHopRow {
    fn copy_row(&self) -> (r: Self) {
        DelegationHopRow {
            chain_id: self.chain_id,
            hop_index: self.hop_index,
            principal_or_actor_id: self.principal_or_actor_id.clone(),
            run_id: self.run_id,
            capability_grant_ids: self.capability_grant_ids.clone(),
        }
    }
}

/// What is told of a hop of a chain of delegations when it is recorded.
#[derive(Debug)]
pub struct NewDelegationHop {
    pub chain_id: DelegationChainId,
    pub hop_index: u32,
    pub principal_or_actor_id: String,
    pub run_id: Option<RunId>,
    pub capability_grant_ids: Bytes,
}

/// The first record of a hop of a chain of delegations.
pub open spec fn delegation_hop_row(new: NewDelegationHop) -> DelegationHopRow {
    DelegationHopRow {
        chain_id: new.chain_id,
        hop_index: new.hop_index,
        principal_or_actor_id: new.principal_or_actor_id,
        run_id: new.run_id,
        capability_grant_ids: new.capability_grant_ids,
    }
}

/// The first record of a hop of a chain of delegations.
pub fn make_delegation_hop(new: NewDelegationHop) -> (r: DelegationHopRow)
    ensures
        r == delegation_hop_row(new),
{
    DelegationHopRow {
        chain_id: new.chain_id,
        hop_index: new.hop_index,
        principal_or_actor_id: new.principal_or_actor_id,
        run_id: new.run_id,
        capability_grant_ids: new.capability_grant_ids,
    }
}

/// The record of a request for approval.
#[derive(Debug)]
pub struct ApprovalRequestRow {
    pub request_id: ApprovalRequestId,
    pub request_digest: String,
    pub principal_id: PrincipalId,
    pub actor_id: ActorId,
    pub run_id: Option<RunId>,
    pub operation: String,
    pub target_resource: Option<String>,
    pub capability_ids: Bytes,
    pub extension_bundle_digest: Option<String>,
    pub config_generation_digest: Option<String>,
    pub expires_at_ms: i64,
    pub nonce: String,
    pub state: ApprovalState,
    pub created_at_ms: i64,
    pub resolved_at_ms: Option<i64>,
}

impl Row for ApprovalRequestRow {
    fn copy_row(&self) -> (r: Self) {
        ApprovalRequestRow {
            request_id: self.request_id,
            request_digest: self.request_digest.clone(),
            principal_id: self.principal_id,
            actor_id: self.actor_id,
            run_id: self.run_id,
            operation: self.operation.clone(),
            target_resource: self.target_resource.clone(),
            capability_ids: self.capability_ids.clone(),
            extension_bundle_digest: self.extension_bundle_digest.clone(),
            config_generation_digest: self.config_generation_digest.clone(),
            expires_at_ms: self.expires_at_ms,
            nonce: self.nonce.clone(),
            state: self.state,
            created_at_ms: self.created_at_ms,
            resolved_at_ms: self.resolved_at_ms,
        }
    }
}

/// What is told of a request for approval when it is recorded.
#[derive(Debug)]
pub struct NewApprovalRequest {
    pub request_id: ApprovalRequestId,
    pub request_digest: String,
    pub principal_id: PrincipalId,
    pub actor_id: ActorId,
    pub run_id: Option<RunId>,
    pub operation: String,
    pub target_resource: Option<String>,
    pub capability_ids: Bytes,
    pub extension_bundle_digest: Option<String>,
    pub config_generation_digest: Option<String>,
    pub expires_at_ms: i64,
    pub nonce: String,
    pub state: ApprovalState,
    pub created_at_ms: i64,
    pub resolved_at_ms: Option<i64>,
}

/// The first record of a request for approval.
pub open spec fn approval_request_row(new: NewApprovalRequest) -> ApprovalRequestRow {
    ApprovalRequestRow {
        request_id: new.request_id,
        request_digest: new.request_digest,
        principal_id: new.principal_id,
        actor_id: new.actor_id,
        run_id: new.run_id,
        operation: new.operation,
        target_resource: new.target_resource,
        capability_ids: new.capability_ids,
        extension_bundle_digest: new.extension_bundle_digest,
        config_generation_digest: new.config_generation_digest,
        expires_at_ms: new.expires_at_ms,
        nonce: new.nonce,
        state: new.state,
        created_at_ms: new.created_at_ms,
        resolved_at_ms: new.resolved_at_ms,
    }
}

/// The first record of a request for approval.
pub fn make_approval_request(new: NewApprovalRequest) -> (r: ApprovalRequestRow)
    ensures
        r == approval_request_row(new),
{
    ApprovalRequestRow {
        request_id: new.request_id,
        request_digest: new.request_digest,
        principal_id: new.principal_id,
        actor_id: new.actor_id,
        run_id: new.run_id,
        operation: new.operation,
        target_resource: new.target_resource,
        capability_ids: new.capability_ids,
        extension_bundle_digest: new.extension_bundle_digest,
        config_generation_digest: new.config_generation_digest,
        expires_at_ms: new.expires_at_ms,
        nonce: new.nonce,
        state: new.state,
        created_at_ms: new.created_at_ms,
        resolved_at_ms: new.resolved_at_ms,
    }
}

/// The record of the response to a request for approval.
#[derive(Debug)]
pub struct ApprovalResponseRow {
    pub request_id: ApprovalRequestId,
    pub request_digest: String,
    pub decision: String,
    pub device_id: DeviceId,
    pub responder_principal_id: PrincipalId,
    pub responded_at_ms: i64,
}

impl Row for ApprovalResponseRow {
    fn copy_row(&self) -> (r: Self) {
        ApprovalResponseRow {
            request_id: self.request_id,
            request_digest: self.request_digest.clone(),
            decision: self.decision.clone(),
            device_id: self.device_id,
            responder_principal_id: self.responder_principal_id,
            responded_at_ms: self.responded_at_ms,
        }
    }
}

/// What is told of the response to a request for approval when it is recorded.
#[derive(Debug)]
pub struct NewApprovalResponse {
    pub request_id: ApprovalRequestId,
    pub request_digest: String,
    pub decision: String,
    pub device_id: DeviceId,
    pub responder_principal_id: PrincipalId,
    pub responded_at_ms: i64,
}

/// The first record of the response to a request for approval.
pub open spec fn approval_response_row(new: NewApprovalResponse) -> ApprovalResponseRow {
    ApprovalResponseRow {
        request_id: new.request_id,
        request_digest: new.request_digest,
        decision: new.decision,
        device_id: new.device_id,
        responder_principal_id: new.responder_principal_id,
        responded_at_ms: new.responded_at_ms,
    }
}

/// The first record of the response to a request for approval.
pub fn make_approval_response(new: NewApprovalResponse) -> (r: ApprovalResponseRow)
    ensures
        r == approval_response_row(new),
{
    ApprovalResponseRow {
        request_id: new.request_id,
        request_digest: new.request_digest,
        decision: new.decision,
        device_id: new.device_id,
        responder_principal_id: new.responder_principal_id,
        responded_at_ms: new.responded_at_ms,
    }
}

/// The record of the registration of an adapter.
#[derive(Debug)]
pub struct AdapterRegistrationRow {
    pub adapter_id: AdapterId,
    pub version: String,
    pub bundle_digest: String,
    pub manifest_digest: String,
    pub runtime_type: String,
    pub implemented_ports: Bytes,
    pub capabilities: Bytes,
    pub trust_state: TrustState,
    pub conformance_state: ConformanceState,
    pub created_at_ms: i64,
}

impl Row for AdapterRegistrationRow {
    fn copy_row(&self) -> (r: Self) {
        AdapterRegistrationRow {
            adapter_id: self.adapter_id,
            version: self.version.clone(),
            bundle_digest: self.bundle_digest.clone(),
            manifest_digest: self.manifest_digest.clone(),
            runtime_type: self.runtime_type.clone(),
            implemented_ports: self.implemented_ports.clone(),
            capabilities: self.capabilities.clone(),
            trust_state: self.trust_state,
            conformance_state: self.conformance_state,
            created_at_ms: self.created_at_ms,
        }
    }
}

/// What is told of the registration of an adapter when it is recorded.
#[derive(Debug)]
pub struct NewAdapterRegistration {
    pub adapter_id: AdapterId,
    pub version: String,
    pub bundle_digest: String,
    pub manifest_digest: String,
    pub runtime_type: String,
    pub implemented_ports: Bytes,
    pub capabilities: Bytes,
    pub trust_state: TrustState,
    pub conformance_state: ConformanceState,
    pub created_at_ms: i64,
}

/// The first record of the registration of an adapter.
pub open spec fn adapter_registration_row(new: NewAdapterRegistration) -> AdapterRegistrationRow {
    AdapterRegistrationRow {
        adapter_id: new.adapter_id,
        version: new.version,
        bundle_digest: new.bundle_digest,
        manifest_digest: new.manifest_digest,
        runtime_type: new.runtime_type,
        implemented_ports: new.implemented_ports,
        capabilities: new.capabilities,
        trust_state: new.trust_state,
        conformance_state: new.conformance_state,
        created_at_ms: new.created_at_ms,
    }
}

/// The first record of the registration of an adapter.
pub fn make_adapter_registration(new: NewAdapterRegistration) -> (r: AdapterRegistrationRow)
    ensures
        r == adapter_registration_row(new),
{
    AdapterRegistrationRow {
        adapter_id: new.adapter_id,
        version: new.version,
        bundle_digest: new.bundle_digest,
        manifest_digest: new.manifest_digest,
        runtime_type: new.runtime_type,
        implemented_ports: new.implemented_ports,
        capabilities: new.capabilities,
        trust_state: new.trust_state,
        conformance_state: new.conformance_state,
        created_at_ms: new.created_at_ms,
    }
}

/// The record of a running adapter.
#[derive(Debug)]
pub struct AdapterInstanceRow {
    pub adapter_instance_id: AdapterInstanceId,
    pub adapter_id: AdapterId,
    pub adapter_version: String,
    pub bundle_digest: String,
    pub daemon_instance_id: DaemonInstanceId,
    pub pid: Option<u32>,
    pub process_start_identity: Option<String>,
    pub state: String,
    pub exit_reason: Option<String>,
    pub last_heartbeat_ms: Option<i64>,
    pub started_at_ms: i64,
    pub ended_at_ms: Option<i64>,
}

impl Row for AdapterInstanceRow {
    fn copy_row(&self) -> (r: Self) {
        AdapterInstanceRow {
            adapter_instance_id: self.adapter_instance_id,
            adapter_id: self.adapter_id,
            adapter_version: self.adapter_version.clone(),
            bundle_digest: self.bundle_digest.clone(),
            daemon_instance_id: self.daemon_instance_id,
            pid: self.pid,
            process_start_identity: self.process_start_identity.clone(),
            state: self.state.clone(),
            exit_reason: self.exit_reason.clone(),
            last_heartbeat_ms: self.last_heartbeat_ms,
            started_at_ms: self.started_at_ms,
            ended_at_ms: self.ended_at_ms,
        }
    }
}

/// What is told of a running adapter when it is recorded.
#[derive(Debug)]
pub struct NewAdapterInstance {
    pub adapter_instance_id: AdapterInstanceId,
    pub adapter_id: AdapterId,
    pub adapter_version: String,
    pub bundle_digest: String,
    pub daemon_instance_id: DaemonInstanceId,
    pub pid: Option<u32>,
    pub process_start_identity: Option<String>,
    pub state: String,
    pub exit_reason: Option<String>,
    pub last_heartbeat_ms: Option<i64>,
    pub started_at_ms: i64,
    pub ended_at_ms: Option<i64>,
}

/// The first record of a running adapter.
pub open spec fn adapter_instance_row(new: NewAdapterInstance) -> AdapterInstanceRow {
    AdapterInstanceRow {
        adapter_instance_id: new.adapter_instance_id,
        adapter_id: new.adapter_id,
        adapter_version: new.adapter_version,
        bundle_digest: new.bundle_digest,
        daemon_instance_id: new.daemon_instance_id,
        pid: new.pid,
        process_start_identity: new.process_start_identity,
        state: new.state,
        exit_reason: new.exit_reason,
        last_heartbeat_ms: new.last_heartbeat_ms,
        started_at_ms: new.started_at_ms,
        ended_at_ms: new.ended_at_ms,
    }
}

/// The first record of a running adapter.
pub fn make_adapter_instance(new: NewAdapterInstance) -> (r: AdapterInstanceRow)
    ensures
        r == adapter_instance_row(new),
{
    AdapterInstanceRow {
        adapter_instance_id: new.adapter_instance_id,
        adapter_id: new.adapter_id,
        adapter_version: new.adapter_version,
        bundle_digest: new.bundle_digest,
        daemon_instance_id: new.daemon_instance_id,
        pid: new.pid,
        process_start_identity: new.process_start_identity,
        state: new.state,
        exit_reason: new.exit_reason,
        last_heartbeat_ms: new.last_heartbeat_ms,
        started_at_ms: new.started_at_ms,
        ended_at_ms: new.ended_at_ms,
    }
}

/// The record of a report of the conformance tests.
#[derive(Debug)]
pub struct ConformanceReportRow {
    pub adapter_id: AdapterId,
    pub adapter_version: String,
    pub bundle_digest: String,
    pub report_digest: String,
    pub harness_version: String,
    pub result: String,
    pub run_at_ms: i64,
    pub details: Option<String>,
}

impl Row for ConformanceReportRow {
    fn copy_row(&self) -> (r: Self) {
        ConformanceReportRow {
            adapter_id: self.adapter_id,
            adapter_version: self.adapter_version.clone(),
            bundle_digest: self.bundle_digest.clone(),
            report_digest: self.report_digest.clone(),
            harness_version: self.harness_version.clone(),
            result: self.result.clone(),
            run_at_ms: self.run_at_ms,
            details: self.details.clone(),
        }
    }
}

/// What is told of a report of the conformance tests when it is recorded.
#[derive(Debug)]
pub struct NewConformanceReport {
    pub adapter_id: AdapterId,
    pub adapter_version: String,
    pub bundle_digest: String,
    pub report_digest: String,
    pub harness_version: String,
    pub result: String,
    pub run_at_ms: i64,
    pub details: Option<String>,
}

/// The first record of a report of the conformance tests.
pub open spec fn conformance_report_row(new: NewConformanceReport) -> ConformanceReportRow {
    ConformanceReportRow {
        adapter_id: new.adapter_id,
        adapter_version: new.adapter_version,
        bundle_digest: new.bundle_digest,
        report_digest: new.report_digest,
        harness_version: new.harness_version,
        result: new.result,
        run_at_ms: new.run_at_ms,
        details: new.details,
    }
}

/// The first record of a report of the conformance tests.
pub fn make_conformance_report(new: NewConformanceReport) -> (r: ConformanceReportRow)
    ensures
        r == conformance_report_row(new),
{
    ConformanceReportRow {
        adapter_id: new.adapter_id,
        adapter_version: new.adapter_version,
        bundle_digest: new.bundle_digest,
        report_digest: new.report_digest,
        harness_version: new.harness_version,
        result: new.result,
        run_at_ms: new.run_at_ms,
        details: new.details,
    }
}

/// The record of an artifact.
#[derive(Debug)]
pub struct ArtifactRow {
    pub artifact_id: ArtifactId,
    pub uri: String,
    pub digest: String,
    pub media_type: String,
    pub size_bytes: u64,
    pub origin_run_id: RunId,
    pub origin_effect_id: Option<EffectId>,
    pub sensitivity: SensitivityClass,
    pub retention: RetentionClass,
    pub locator: String,
    pub created_at_ms: i64,
}

impl Row for ArtifactRow {
    fn copy_row(&self) -> (r: Self) {
        ArtifactRow {
            artifact_id: self.artifact_id,
            uri: self.uri.clone(),
            digest: self.digest.clone(),
            media_type: self.media_type.clone(),
            size_bytes: self.size_bytes,
            origin_run_id: self.origin_run_id,
            origin_effect_id: self.origin_effect_id,
            sensitivity: self.sensitivity,
            retention: self.retention,
            locator: self.locator.clone(),
            created_at_ms: self.created_at_ms,
        }
    }
}

/// What is told of an artifact when it is recorded.
#[derive(Debug)]
pub struct NewArtifact {
    pub artifact_id: ArtifactId,
    pub uri: String,
    pub digest: String,
    pub media_type: String,
    pub size_bytes: u64,
    pub origin_run_id: RunId,
    pub origin_effect_id: Option<EffectId>,
    pub sensitivity: SensitivityClass,
    pub retention: RetentionClass,
    pub locator: String,
    pub created_at_ms: i64,
}

/// The first record of an artifact.
pub open spec fn artifact_row(new: NewArtifact) -> ArtifactRow {
    ArtifactRow {
        artifact_id: new.artifact_id,
        uri: new.uri,
        digest: new.digest,
        media_type: new.media_type,
        size_bytes: new.size_bytes,
        origin_run_id: new.origin_run_id,
        origin_effect_id: new.origin_effect_id,
        sensitivity: new.sensitivity,
        retention: new.retention,
        locator: new.locator,
        created_at_ms: new.created_at_ms,
    }
}

/// The first record of an artifact.
pub fn make_artifact(new: NewArtifact) -> (r: ArtifactRow)
    ensures
        r == artifact_row(new),
{
    ArtifactRow {
        artifact_id: new.artifact_id,
        uri: new.uri,
        digest: new.digest,
        media_type: new.media_type,
        size_bytes: new.size_bytes,
        origin_run_id: new.origin_run_id,
        origin_effect_id: new.origin_effect_id,
        sensitivity: new.sensitivity,
        retention: new.retention,
        locator: new.locator,
        created_at_ms: new.created_at_ms,
    }
}

/// The record of a generation of the configuration.
#[derive(Debug)]
pub struct ConfigGenerationRow {
    pub generation_id: ConfigGenerationId,
    pub digest: String,
    pub document: Bytes,
    pub validation_state: String,
    pub test_state: String,
    pub created_by_actor_id: ActorId,
    pub created_at_ms: i64,
}

impl Row for ConfigGenerationRow {
    fn copy_row(&self) -> (r: Self) {
        ConfigGenerationRow {
            generation_id: self.generation_id,
            digest: self.digest.clone(),
            document: self.document.clone(),
            validation_state: self.validation_state.clone(),
            test_state: self.test_state.clone(),
            created_by_actor_id: self.created_by_actor_id,
            created_at_ms: self.created_at_ms,
        }
    }
}

/// What is told of a generation of the configuration when it is recorded.
#[derive(Debug)]
pub struct NewConfigGeneration {
    pub generation_id: ConfigGenerationId,
    pub digest: String,
    pub document: Bytes,
    pub validation_state: String,
    pub test_state: String,
    pub created_by_actor_id: ActorId,
    pub created_at_ms: i64,
}

/// The first record of a generation of the configuration.
pub open spec fn config_generation_row(new: NewConfigGeneration) -> ConfigGenerationRow {
    ConfigGenerationRow {
        generation_id: new.generation_id,
        digest: new.digest,
        document: new.document,
        validation_state: new.validation_state,
        test_state: new.test_state,
        created_by_actor_id: new.created_by_actor_id,
        created_at_ms: new.created_at_ms,
    }
}

/// The first record of a generation of the configuration.
pub fn make_config_generation(new: NewConfigGeneration) -> (r: ConfigGenerationRow)
    ensures
        r == config_generation_row(new),
{
    ConfigGenerationRow {
        generation_id: new.generation_id,
        digest: new.digest,
        document: new.document,
        validation_state: new.validation_state,
        test_state: new.test_state,
        created_by_actor_id: new.created_by_actor_id,
        created_at_ms: new.created_at_ms,
    }
}

/// The record of the active generation of the configuration.
#[derive(Debug)]
pub struct ActiveConfigGenerationRow {
    pub generation_id: ConfigGenerationId,
    pub revision: u64,
    pub activated_at_ms: i64,
}

impl Row for ActiveConfigGenerationRow {
    fn copy_row(&self) -> (r: Self) {
        ActiveConfigGenerationRow {
            generation_id: self.generation_id,
            revision: self.revision,
            activated_at_ms: self.activated_at_ms,
        }
    }
}

/// The record of a turn of an agent's loop.
#[derive(Debug)]
pub struct LoopTurnRow {
    pub turn_id: TurnId,
    pub run_id: RunId,
    pub run_revision: u64,
    pub loop_epoch: u64,
    pub step_sequence: u64,
    pub input_event_cursor: EventCursor,
    pub state: String,
    pub issued_at_ms: i64,
}

impl Row for LoopTurnRow {
    fn copy_row(&self) -> (r: Self) {
        LoopTurnRow {
            turn_id: self.turn_id,
            run_id: self.run_id,
            run_revision: self.run_revision,
            loop_epoch: self.loop_epoch,
            step_sequence: self.step_sequence,
            input_event_cursor: self.input_event_cursor.clone(),
            state: self.state.clone(),
            issued_at_ms: self.issued_at_ms,
        }
    }
}

/// What is told of a turn of an agent's loop when it is recorded.
#[derive(Debug)]
pub struct NewLoopTurn {
    pub turn_id: TurnId,
    pub run_id: RunId,
    pub run_revision: u64,
    pub loop_epoch: u64,
    pub step_sequence: u64,
    pub input_event_cursor: EventCursor,
    pub state: String,
    pub issued_at_ms: i64,
}

/// The first record of a turn of an agent's loop.
pub open spec fn loop_turn_row(new: NewLoopTurn) -> LoopTurnRow {
    LoopTurnRow {
        turn_id: new.turn_id,
        run_id: new.run_id,
        run_revision: new.run_revision,
        loop_epoch: new.loop_epoch,
        step_sequence: new.step_sequence,
        input_event_cursor: new.input_event_cursor,
        state: new.state,
        issued_at_ms: new.issued_at_ms,
    }
}

/// The first record of a turn of an agent's loop.
pub fn make_loop_turn(new: NewLoopTurn) -> (r: LoopTurnRow)
    ensures
        r == loop_turn_row(new),
{
    LoopTurnRow {
        turn_id: new.turn_id,
        run_id: new.run_id,
        run_revision: new.run_revision,
        loop_epoch: new.loop_epoch,
        step_sequence: new.step_sequence,
        input_event_cursor: new.input_event_cursor,
        state: new.state,
        issued_at_ms: new.issued_at_ms,
    }
}

/// The record of a decision of an agent's loop.
#[derive(Debug)]
pub struct DecisionRow {
    pub decision_id: DecisionId,
    pub run_id: RunId,
    pub turn_id: TurnId,
    pub decision_type: String,
    pub decision_digest: String,
    pub decision_bytes: Bytes,
    pub run_revision: u64,
    pub loop_epoch: u64,
    pub step_sequence: u64,
    pub input_event_cursor: EventCursor,
    pub accepted_at_ms: i64,
}

impl Row for DecisionRow {
    fn copy_row(&self) -> (r: Self) {
        DecisionRow {
            decision_id: self.decision_id,
            run_id: self.run_id,
            turn_id: self.turn_id,
            decision_type: self.decision_type.clone(),
            decision_digest: self.decision_digest.clone(),
            decision_bytes: self.decision_bytes.clone(),
            run_revision: self.run_revision,
            loop_epoch: self.loop_epoch,
            step_sequence: self.step_sequence,
            input_event_cursor: self.input_event_cursor.clone(),
            accepted_at_ms: self.accepted_at_ms,
        }
    }
}

/// What is told of a decision of an agent's loop when it is recorded.
#[derive(Debug)]
pub struct NewDecision {
    pub decision_id: DecisionId,
    pub run_id: RunId,
    pub turn_id: TurnId,
    pub decision_type: String,
    pub decision_digest: String,
    pub decision_bytes: Bytes,
    pub run_revision: u64,
    pub loop_epoch: u64,
    pub step_sequence: u64,
    pub input_event_cursor: EventCursor,
    pub accepted_at_ms: i64,
}

/// The first record of a decision of an agent's loop.
pub open spec fn decision_row(new: NewDecision) -> DecisionRow {
    DecisionRow {
        decision_id: new.decision_id,
        run_id: new.run_id,
        turn_id: new.turn_id,
        decision_type: new.decision_type,
        decision_digest: new.decision_digest,
        decision_bytes: new.decision_bytes,
        run_revision: new.run_revision,
        loop_epoch: new.loop_epoch,
        step_sequence: new.step_sequence,
        input_event_cursor: new.input_event_cursor,
        accepted_at_ms: new.accepted_at_ms,
    }
}

/// The first record of a decision of an agent's loop.
pub fn make_decision(new: NewDecision) -> (r: DecisionRow)
    ensures
        r == decision_row(new),
{
    DecisionRow {
        decision_id: new.decision_id,
        run_id: new.run_id,
        turn_id: new.turn_id,
        decision_type: new.decision_type,
        decision_digest: new.decision_digest,
        decision_bytes: new.decision_bytes,
        run_revision: new.run_revision,
        loop_epoch: new.loop_epoch,
        step_sequence: new.step_sequence,
        input_event_cursor: new.input_event_cursor,
        accepted_at_ms: new.accepted_at_ms,
    }
}

/// The record of a command that was carried out.
#[derive(Debug)]
pub struct IdempotencyRecordRow {
    pub principal_id: PrincipalId,
    pub idempotency_key: IdempotencyKey,
    pub request_digest: String,
    pub command_id: CommandId,
    pub outcome_code: String,
    pub outcome_payload: Bytes,
    pub created_at_ms: i64,
}

impl Row for IdempotencyRecordRow {
    fn copy_row(&self) -> (r: Self) {
        IdempotencyRecordRow {
            principal_id: self.principal_id,
            idempotency_key: self.idempotency_key.clone(),
            request_digest: self.request_digest.clone(),
            command_id: self.command_id,
            outcome_code: self.outcome_code.clone(),
            outcome_payload: self.outcome_payload.clone(),
            created_at_ms: self.created_at_ms,
        }
    }
}

/// What is told of a command that was carried out when it is recorded.
#[derive(Debug)]
pub struct NewIdempotencyRecord {
    pub principal_id: PrincipalId,
    pub idempotency_key: IdempotencyKey,
    pub request_digest: String,
    pub command_id: CommandId,
    pub outcome_code: String,
    pub outcome_payload: Bytes,
    pub created_at_ms: i64,
}

/// The first record of a command that was carried out.
pub open spec fn idempotency_record_row(new: NewIdempotencyRecord) -> IdempotencyRecordRow {
    IdempotencyRecordRow {
        principal_id: new.principal_id,
        idempotency_key: new.idempotency_key,
        request_digest: new.request_digest,
        command_id: new.command_id,
        outcome_code: new.outcome_code,
        outcome_payload: new.outcome_payload,
        created_at_ms: new.created_at_ms,
    }
}

/// The first record of a command that was carried out.
pub fn make_idempotency_record(new: NewIdempotencyRecord) -> (r: IdempotencyRecordRow)
    ensures
        r == idempotency_record_row(new),
{
    IdempotencyRecordRow {
        principal_id: new.principal_id,
        idempotency_key: new.idempotency_key,
        request_digest: new.request_digest,
        command_id: new.command_id,
        outcome_code: new.outcome_code,
        outcome_payload: new.outcome_payload,
        created_at_ms: new.created_at_ms,
    }
}

/// The record of an event that is to be published.
#[derive(Debug)]
pub struct OutboxEventRow {
    pub event_id: EventId,
    pub event_type: String,
    pub event_version: u32,
    pub stream_key: EventStreamKey,
    pub sequence: u64,
    pub occurred_at_ms: i64,
    pub run_id: Option<RunId>,
    pub task_id: Option<TaskId>,
    pub session_id: Option<SessionId>,
    pub effect_id: Option<EffectId>,
    pub causation_id: Option<String>,
    pub correlation_id: Option<String>,
    pub sensitivity: SensitivityClass,
    pub retention: RetentionClass,
    pub payload: Bytes,
    pub journal_published_at_ms: Option<i64>,
    pub live_published_at_ms: Option<i64>,
}

impl Row for OutboxEventRow {
    fn copy_row(&self) -> (r: Self) {
        OutboxEventRow {
            event_id: self.event_id,
            event_type: self.event_type.clone(),
            event_version: self.event_version,
            stream_key: self.stream_key.clone(),
            sequence: self.sequence,
            occurred_at_ms: self.occurred_at_ms,
            run_id: self.run_id,
            task_id: self.task_id,
            session_id: self.session_id,
            effect_id: self.effect_id,
            causation_id: self.causation_id.clone(),
            correlation_id: self.correlation_id.clone(),
            sensitivity: self.sensitivity,
            retention: self.retention,
            payload: self.payload.clone(),
            journal_published_at_ms: self.journal_published_at_ms,
            live_published_at_ms: self.live_published_at_ms,
        }
    }
}

/// What is told of an event that is to be published when it is recorded.
#[derive(Debug)]
pub struct NewOutboxEvent {
    pub event_id: EventId,
    pub event_type: String,
    pub event_version: u32,
    pub stream_key: EventStreamKey,
    pub sequence: u64,
    pub occurred_at_ms: i64,
    pub run_id: Option<RunId>,
    pub task_id: Option<TaskId>,
    pub session_id: Option<SessionId>,
    pub effect_id: Option<EffectId>,
    pub causation_id: Option<String>,
    pub correlation_id: Option<String>,
    pub sensitivity: SensitivityClass,
    pub retention: RetentionClass,
    pub payload: Bytes,
}

/// The first record of an event that is to be published.
pub open spec fn outbox_event_row(new: NewOutboxEvent) -> OutboxEventRow {
    OutboxEventRow {
        event_id: new.event_id,
        event_type: new.event_type,
        event_version: new.event_version,
        stream_key: new.stream_key,
        sequence: new.sequence,
        occurred_at_ms: new.occurred_at_ms,
        run_id: new.run_id,
        task_id: new.task_id,
        session_id: new.session_id,
        effect_id: new.effect_id,
        causation_id: new.causation_id,
        correlation_id: new.correlation_id,
        sensitivity: new.sensitivity,
        retention: new.retention,
        payload: new.payload,
        journal_published_at_ms: None,
        live_published_at_ms: None,
    }
}

/// The first record of an event that is to be published.
pub fn make_outbox_event(new: NewOutboxEvent) -> (r: OutboxEventRow)
    ensures
        r == outbox_event_row(new),
{
    OutboxEventRow {
        event_id: new.event_id,
        event_type: new.event_type,
        event_version: new.event_version,
        stream_key: new.stream_key,
        sequence: new.sequence,
        occurred_at_ms: new.occurred_at_ms,
        run_id: new.run_id,
        task_id: new.task_id,
        session_id: new.session_id,
        effect_id: new.effect_id,
        causation_id: new.causation_id,
        correlation_id: new.correlation_id,
        sensitivity: new.sensitivity,
        retention: new.retention,
        payload: new.payload,
        journal_published_at_ms: None,
        live_published_at_ms: None,
    }
}

} // verus!
