//! What holds of every state that a store can reach: rows stand under their own
//! keys, what they refer to is there, their literals are known, the graph of runs has
//! no cycle, and no workspace has two writers.

use vstd::prelude::*;

use crate::domain::{
    AdapterId, AdapterInstanceId, ConfigGenerationId, ConformanceState, DaemonInstanceId,
    EffectId, EffectState, EnvironmentId, EventId, LeaseId, PublishKind, ReservationId,
    ReservationState, RunId, TaskId, TimerId, TimerState, TurnId,
};
use crate::store::adapters::{
    bundle, conformance_set, instance_added, instance_changed, registration_added, report_added,
    AdapterInstanceStatePatch,
};
use crate::store::artifacts::artifact_added;
use crate::store::config::{active_changed, generation_added, generation_states_set};
use crate::store::effects::{
    effect_added, effect_changed, effect_claimed, reservation_added, reservation_changed,
    timer_added, timer_changed, EffectPatch, ReservationPatch, TimerPatch,
};
use crate::store::environments::{bindings_added, bindings_put, environment_added};
use crate::store::graph::{
    dependency_added, graph_stays_acyclic, head_changed, head_ensured, is_acyclic, is_edge,
};
use crate::store::literals::{
    is_approval_decision, is_decision_type, is_instance_state, is_report_result, is_test_state,
    is_turn_state, is_validation_state,
};
use crate::store::rows::{
    NewAdapterInstance, NewAdapterRegistration, NewAgentSpec, NewApprovalRequest,
    NewApprovalResponse, NewArtifact, NewCapabilityGrant, NewConfigGeneration, NewConformanceReport,
    NewDecision, NewDelegationHop, NewEffect, NewIdempotencyRecord, NewLoopTurn, NewOutboxEvent,
    NewReservation, NewResolvedBinding, NewResolvedEnvironment, NewRun, NewRunDependency,
    NewSession, NewTask, NewTimer, NewWorkspace, NewWorkspaceLease,
};
use crate::store::runs::{
    agent_spec_added, run_added, run_changed, session_added, task_added, RunCas, RunPatch,
};
use crate::store::security::{
    approval_request_added, approval_response_added, grant_added, hop_added,
};
use crate::store::state::{empty_store, StoreModel};
use crate::store::streams::{event_added, event_published, idempotency_added, number_allocated};
use crate::store::turns::{decision_added, turn_added, turn_changed, LoopTurnPatch};
use crate::store::workspaces::{
    changed_writers_are_alone, lease_added, lease_changed, leases_have_their_ids,
    recorded_writers_are_alone, workspace_added, writers_are_alone, LeasePatch,
};
use crate::store::{committed, epoch_set};

verus! {

// ---------------------------------------------------------------------------
// The tables
// ---------------------------------------------------------------------------

/// Tasks and runs: a task's session, and a run's task and parent, are there.
pub open spec fn runs_are_sound(m: StoreModel) -> bool {
    &&& forall|id| #[trigger]
        m.sessions.contains_key(id) ==> m.sessions[id].session_id == id
    &&& forall|id| #[trigger]
        m.tasks.contains_key(id) ==> m.tasks[id].task_id == id && (m.tasks[id].session_id matches Some(
            s,
        ) ==> m.sessions.contains_key(s))
    &&& forall|id| #[trigger]
        m.runs.contains_key(id) ==> m.runs[id].run_id == id && m.tasks.contains_key(
            m.runs[id].task_id,
        ) && (m.runs[id].parent_run_id matches Some(p) ==> m.runs.contains_key(p))
}

/// The graph of runs: what a dependency joins is there, its task has a head, and no run
/// waits for itself.
pub open spec fn graph_is_sound(m: StoreModel) -> bool {
    &&& is_acyclic(m.dependencies)
    &&& forall|id| #[trigger]
        m.graph_heads.contains_key(id) ==> m.graph_heads[id].task_id == id
    &&& forall|id| #[trigger]
        m.dependencies.contains_key(id) ==> m.dependencies[id].dependency_id == id
            && m.runs.contains_key(m.dependencies[id].source_run_id) && m.runs.contains_key(
            m.dependencies[id].target_run_id,
        ) && m.graph_heads.contains_key(m.dependencies[id].task_id)
}

/// Environments: a binding's environment is there.
pub open spec fn environments_are_sound(m: StoreModel) -> bool {
    &&& forall|id| #[trigger]
        m.environments.contains_key(id) ==> m.environments[id].environment_id == id
    &&& forall|k: (EnvironmentId, Seq<char>)| #[trigger]
        m.bindings.contains_key(k) ==> m.bindings[k].environment_id == k.0
            && m.bindings[k].port_id@ == k.1 && m.environments.contains_key(k.0)
}

/// Effects, reservations and timers: the runs of effects and timers are there.
pub open spec fn effects_are_sound(m: StoreModel) -> bool {
    &&& forall|id| #[trigger]
        m.effects.contains_key(id) ==> m.effects[id].effect_id == id && m.runs.contains_key(
            m.effects[id].run_id,
        )
    &&& forall|id| #[trigger]
        m.reservations.contains_key(id) ==> m.reservations[id].reservation_id == id
    &&& forall|id| #[trigger]
        m.timers.contains_key(id) ==> m.timers[id].timer_id == id && (m.timers[id].run_id matches Some(
            r,
        ) ==> m.runs.contains_key(r))
}

/// Grants and approvals: the runs, the parent grants and the requests are there, and a
/// response is one of the known decisions.
pub open spec fn security_is_sound(m: StoreModel) -> bool {
    &&& forall|id| #[trigger]
        m.grants.contains_key(id) ==> m.grants[id].grant_id == id && (m.grants[id].run_id matches Some(
            r,
        ) ==> m.runs.contains_key(r)) && (m.grants[id].delegated_from_grant_id matches Some(p)
            ==> m.grants.contains_key(p))
    &&& forall|k| #[trigger]
        m.delegation_hops.contains_key(k) ==> m.delegation_hops[k].chain_id == k.0
            && m.delegation_hops[k].hop_index == k.1 && (m.delegation_hops[k].run_id matches Some(r)
            ==> m.runs.contains_key(r))
    &&& forall|id| #[trigger]
        m.approval_requests.contains_key(id) ==> m.approval_requests[id].request_id == id
    &&& forall|id| #[trigger]
        m.approval_responses.contains_key(id) ==> m.approval_responses[id].request_id == id
            && m.approval_requests.contains_key(id) && is_approval_decision(
            m.approval_responses[id].decision@,
        )
}

/// Adapters: the registrations of instances and of reports are there, and their states
/// and results are known.
pub open spec fn adapters_are_sound(m: StoreModel) -> bool {
    &&& forall|k: (AdapterId, Seq<char>, Seq<char>)| #[trigger]
        m.registrations.contains_key(k) ==> bundle(
            m.registrations[k].adapter_id,
            m.registrations[k].version@,
            m.registrations[k].bundle_digest@,
        ) == k
    &&& forall|id| #[trigger]
        m.instances.contains_key(id) ==> m.instances[id].adapter_instance_id == id
            && is_instance_state(m.instances[id].state@) && m.registrations.contains_key(
            bundle(
                m.instances[id].adapter_id,
                m.instances[id].adapter_version@,
                m.instances[id].bundle_digest@,
            ),
        )
    &&& forall|k: (AdapterId, Seq<char>, Seq<char>)| #[trigger]
        m.conformance_reports.contains_key(k) ==> is_report_result(
            m.conformance_reports[k].result@,
        ) && m.registrations.contains_key(k)
}

/// Artifacts: the runs and effects that they come from are there, and a URI leads to an
/// artifact.
pub open spec fn artifacts_are_sound(m: StoreModel) -> bool {
    &&& forall|id| #[trigger]
        m.artifacts_by_id.contains_key(id) ==> m.artifacts_by_id[id].artifact_id == id
            && m.runs.contains_key(m.artifacts_by_id[id].origin_run_id) && (
        m.artifacts_by_id[id].origin_effect_id matches Some(e) ==> m.effects.contains_key(e))
    &&& forall|uri: Seq<char>| #[trigger]
        m.artifacts_by_uri.contains_key(uri) ==> m.artifacts_by_id.contains_key(
            m.artifacts_by_uri[uri],
        )
}

/// Configurations: their states are known, and the active one is there.
pub open spec fn config_is_sound(m: StoreModel) -> bool {
    &&& forall|id| #[trigger]
        m.config_generations.contains_key(id) ==> m.config_generations[id].generation_id == id
            && is_validation_state(m.config_generations[id].validation_state@) && is_test_state(
            m.config_generations[id].test_state@,
        )
    &&& m.active_config matches Some(a) ==> m.config_generations.contains_key(a.generation_id)
}

/// Turns and decisions: their runs and turns are there, and their states and types are
/// known.
pub open spec fn turns_are_sound(m: StoreModel) -> bool {
    &&& forall|id| #[trigger]
        m.turns.contains_key(id) ==> m.turns[id].turn_id == id && is_turn_state(m.turns[id].state@)
            && m.runs.contains_key(m.turns[id].run_id)
    &&& forall|k| #[trigger]
        m.decisions.contains_key(k) ==> m.decisions[k].run_id == k.0 && m.decisions[k].decision_id
            == k.1 && is_decision_type(m.decisions[k].decision_type@) && m.runs.contains_key(k.0)
            && m.turns.contains_key(m.decisions[k].turn_id)
}

/// Workspaces and leases: the workspaces and owners of leases are there, and a workspace
/// has at most one writer that writes to it alone.
pub open spec fn leases_are_sound(m: StoreModel) -> bool {
    &&& leases_have_their_ids(m)
    &&& writers_are_alone(m)
    &&& forall|id| #[trigger]
        m.workspaces.contains_key(id) ==> m.workspaces[id].workspace_id == id
    &&& forall|id| #[trigger]
        m.leases.contains_key(id) ==> m.workspaces.contains_key(m.leases[id].workspace_id)
            && m.runs.contains_key(m.leases[id].owner_run_id)
}

/// Streams: an event stands under its own id, and its place in its stream is taken.
pub open spec fn streams_are_sound(m: StoreModel) -> bool {
    &&& forall|id| #[trigger]
        m.outbox.contains_key(id) ==> m.outbox[id].event_id == id && m.outbox_sequences.contains_key(
            (m.outbox[id].stream_key.text@, m.outbox[id].sequence),
        )
    &&& forall|a: EventId, b: EventId|
        #![trigger m.outbox[a], m.outbox[b]]
        m.outbox.contains_key(a) && m.outbox.contains_key(b) && m.outbox[a].stream_key.text@
            == m.outbox[b].stream_key.text@ && m.outbox[a].sequence == m.outbox[b].sequence ==> a
            == b
}

/// Whether all of this holds.
pub open spec fn is_sound(m: StoreModel) -> bool {
    &&& runs_are_sound(m)
    &&& graph_is_sound(m)
    &&& environments_are_sound(m)
    &&& effects_are_sound(m)
    &&& security_is_sound(m)
    &&& adapters_are_sound(m)
    &&& artifacts_are_sound(m)
    &&& config_is_sound(m)
    &&& turns_are_sound(m)
    &&& leases_are_sound(m)
    &&& streams_are_sound(m)
}

// ---------------------------------------------------------------------------
// The operations
// ---------------------------------------------------------------------------

/// One operation on the rows of a store.
pub enum StoreOp {
    AddSession(NewSession),
    AddAgentSpec(NewAgentSpec),
    AddTask(NewTask),
    AddRun(NewRun),
    ChangeRun(RunId, RunCas, RunPatch),
    EnsureHead(TaskId),
    MoveHead(TaskId, u64),
    AddDependency(NewRunDependency, u64),
    AddEnvironment(NewResolvedEnvironment),
    AddBindings(EnvironmentId, Seq<NewResolvedBinding>),
    AddEffect(NewEffect),
    ClaimEffect(EffectId, String, u64, i64, i64),
    ChangeEffect(EffectId, EffectState, Option<u64>, EffectPatch),
    AddReservation(NewReservation),
    ChangeReservation(ReservationId, ReservationState, ReservationPatch),
    AddTimer(NewTimer),
    ChangeTimer(TimerId, TimerState, u64, TimerPatch),
    AddGrant(NewCapabilityGrant),
    AddHop(NewDelegationHop),
    AddApprovalRequest(NewApprovalRequest),
    AddApprovalResponse(NewApprovalResponse),
    AddRegistration(NewAdapterRegistration),
    SetConformance((AdapterId, Seq<char>, Seq<char>), ConformanceState),
    AddInstance(NewAdapterInstance),
    ChangeInstance(AdapterInstanceId, Seq<char>, AdapterInstanceStatePatch),
    AddReport(NewConformanceReport),
    AddArtifact(NewArtifact),
    AddGeneration(NewConfigGeneration),
    SetGenerationStates(ConfigGenerationId, Option<String>, Option<String>),
    Activate(u64, ConfigGenerationId, i64),
    AddTurn(NewLoopTurn),
    ChangeTurn(TurnId, Seq<char>, LoopTurnPatch),
    AddDecision(NewDecision),
    AddWorkspace(NewWorkspace),
    AddLease(NewWorkspaceLease),
    ChangeLease(LeaseId, u64, LeasePatch),
    AddIdempotency(NewIdempotencyRecord),
    Allocate(Seq<char>),
    AddEvent(NewOutboxEvent),
    Publish(EventId, PublishKind),
    SetEpoch(u64, DaemonInstanceId),
}

/// The store after an operation, whether it succeeds or not.
pub open spec fn after_op(m: StoreModel, op: StoreOp) -> StoreModel {
    match op {
        StoreOp::AddSession(new) => session_added(m, new).0,
        StoreOp::AddAgentSpec(new) => agent_spec_added(m, new).0,
        StoreOp::AddTask(new) => task_added(m, new).0,
        StoreOp::AddRun(new) => run_added(m, new).0,
        StoreOp::ChangeRun(id, expect, patch) => run_changed(m, id, expect, patch).0,
        StoreOp::EnsureHead(task) => head_ensured(m, task).0,
        StoreOp::MoveHead(task, expected) => head_changed(m, task, expected).0,
        StoreOp::AddDependency(new, expected) => dependency_added(m, new, expected).0,
        StoreOp::AddEnvironment(new) => environment_added(m, new).0,
        StoreOp::AddBindings(id, new) => bindings_added(m, id, new).0,
        StoreOp::AddEffect(new) => effect_added(m, new).0,
        StoreOp::ClaimEffect(id, executor, epoch, expires, now) => effect_claimed(
            m,
            id,
            executor,
            epoch,
            expires,
            now,
        ).0,
        StoreOp::ChangeEffect(id, state, token, patch) => effect_changed(m, id, state, token, patch).0,
        StoreOp::AddReservation(new) => reservation_added(m, new).0,
        StoreOp::ChangeReservation(id, state, patch) => reservation_changed(m, id, state, patch).0,
        StoreOp::AddTimer(new) => timer_added(m, new).0,
        StoreOp::ChangeTimer(id, state, version, patch) => timer_changed(
            m,
            id,
            state,
            version,
            patch,
        ).0,
        StoreOp::AddGrant(new) => grant_added(m, new).0,
        StoreOp::AddHop(new) => hop_added(m, new).0,
        StoreOp::AddApprovalRequest(new) => approval_request_added(m, new).0,
        StoreOp::AddApprovalResponse(new) => approval_response_added(m, new).0,
        StoreOp::AddRegistration(new) => registration_added(m, new).0,
        StoreOp::SetConformance(key, state) => conformance_set(m, key, state).0,
        StoreOp::AddInstance(new) => instance_added(m, new).0,
        StoreOp::ChangeInstance(id, state, patch) => instance_changed(m, id, state, patch).0,
        StoreOp::AddReport(new) => report_added(m, new).0,
        StoreOp::AddArtifact(new) => artifact_added(m, new).0,
        StoreOp::AddGeneration(new) => generation_added(m, new).0,
        StoreOp::SetGenerationStates(id, validation, test) => generation_states_set(
            m,
            id,
            validation,
            test,
        ).0,
        StoreOp::Activate(expected, id, at) => active_changed(m, expected, id, at).0,
        StoreOp::AddTurn(new) => turn_added(m, new).0,
        StoreOp::ChangeTurn(id, state, patch) => turn_changed(m, id, state, patch).0,
        StoreOp::AddDecision(new) => decision_added(m, new).0,
        StoreOp::AddWorkspace(new) => workspace_added(m, new).0,
        StoreOp::AddLease(new) => lease_added(m, new).0,
        StoreOp::ChangeLease(id, epoch, patch) => lease_changed(m, id, epoch, patch).0,
        StoreOp::AddIdempotency(new) => idempotency_added(m, new).0,
        StoreOp::Allocate(stream) => number_allocated(m, stream).0,
        StoreOp::AddEvent(new) => event_added(m, new).0,
        StoreOp::Publish(id, kind) => event_published(m, id, kind).0,
        StoreOp::SetEpoch(epoch, instance) => epoch_set(m, epoch, instance),
    }
}

/// The store after some operations.
pub open spec fn after_ops(m: StoreModel, ops: Seq<StoreOp>) -> StoreModel
    decreases ops.len(),
{
    if ops.len() == 0 {
        m
    } else {
        after_op(after_ops(m, ops.drop_last()), ops.last())
    }
}

proof fn binding_soundness(m: StoreModel, environment: EnvironmentId, new: Seq<NewResolvedBinding>, n: int)
    requires
        environments_are_sound(m),
        m.environments.contains_key(environment),
        0 <= n <= new.len(),
    ensures
        ({
            let after = bindings_put(m, environment, new, n).0;
            environments_are_sound(after) && after == StoreModel { bindings: after.bindings, ..m }
        }),
    decreases n,
{
    if n > 0 {
        binding_soundness(m, environment, new, n - 1);
    }
}

proof fn run_operations_keep_soundness(m: StoreModel, op: StoreOp)
    requires
        is_sound(m),
        op is AddSession || op is AddAgentSpec || op is AddTask || op is AddRun || op is ChangeRun,
    ensures
        is_sound(after_op(m, op)),
{
}

proof fn graph_operations_keep_soundness(m: StoreModel, op: StoreOp)
    requires
        is_sound(m),
        op is EnsureHead || op is MoveHead || op is AddDependency,
    ensures
        is_sound(after_op(m, op)),
{
    if let StoreOp::AddDependency(new, expected) = op {
        graph_stays_acyclic(m, new, expected);
    }
}

proof fn environment_operations_keep_soundness(m: StoreModel, op: StoreOp)
    requires
        is_sound(m),
        op is AddEnvironment || op is AddBindings,
    ensures
        is_sound(after_op(m, op)),
{
    if let StoreOp::AddBindings(id, new) = op {
        if m.environments.contains_key(id) {
            binding_soundness(m, id, new, new.len() as int);
        }
    }
}

proof fn effect_operations_keep_soundness(m: StoreModel, op: StoreOp)
    requires
        is_sound(m),
        op is AddEffect || op is ClaimEffect || op is ChangeEffect,
    ensures
        is_sound(after_op(m, op)),
{
}

proof fn timer_operations_keep_soundness(m: StoreModel, op: StoreOp)
    requires
        is_sound(m),
        op is AddReservation || op is ChangeReservation || op is AddTimer || op is ChangeTimer,
    ensures
        is_sound(after_op(m, op)),
{
}

proof fn security_operations_keep_soundness(m: StoreModel, op: StoreOp)
    requires
        is_sound(m),
        op is AddGrant || op is AddHop || op is AddApprovalRequest || op is AddApprovalResponse,
    ensures
        is_sound(after_op(m, op)),
{
}

proof fn adapter_operations_keep_soundness(m: StoreModel, op: StoreOp)
    requires
        is_sound(m),
        op is AddRegistration || op is SetConformance || op is AddInstance || op is ChangeInstance || op is AddReport,
    ensures
        is_sound(after_op(m, op)),
{
}

proof fn config_operations_keep_soundness(m: StoreModel, op: StoreOp)
    requires
        is_sound(m),
        op is AddArtifact || op is AddGeneration || op is SetGenerationStates || op is Activate,
    ensures
        is_sound(after_op(m, op)),
{
}

proof fn turn_operations_keep_soundness(m: StoreModel, op: StoreOp)
    requires
        is_sound(m),
        op is AddTurn || op is ChangeTurn || op is AddDecision,
    ensures
        is_sound(after_op(m, op)),
{
}

proof fn lease_operations_keep_soundness(m: StoreModel, op: StoreOp)
    requires
        is_sound(m),
        op is AddWorkspace || op is AddLease || op is ChangeLease,
    ensures
        is_sound(after_op(m, op)),
{
    if let StoreOp::AddLease(new) = op {
        recorded_writers_are_alone(m, new);
    }
    if let StoreOp::ChangeLease(id, epoch, patch) = op {
        changed_writers_are_alone(m, id, epoch, patch);
    }
}

proof fn stream_operations_keep_soundness(m: StoreModel, op: StoreOp)
    requires
        is_sound(m),
        op is AddIdempotency || op is Allocate || op is AddEvent || op is Publish || op is SetEpoch,
    ensures
        is_sound(after_op(m, op)),
{
}

/// Every operation leaves a sound store sound.
pub proof fn operations_keep_soundness(m: StoreModel, op: StoreOp)
    requires
        is_sound(m),
    ensures
        is_sound(after_op(m, op)),
{
    match op {
        StoreOp::AddSession(..) | StoreOp::AddAgentSpec(..) | StoreOp::AddTask(..) | StoreOp::AddRun(..) | StoreOp::ChangeRun(..) => {
            run_operations_keep_soundness(m, op);
        },
        StoreOp::EnsureHead(..) | StoreOp::MoveHead(..) | StoreOp::AddDependency(..) => {
            graph_operations_keep_soundness(m, op);
        },
        StoreOp::AddEnvironment(..) | StoreOp::AddBindings(..) => {
            environment_operations_keep_soundness(m, op);
        },
        StoreOp::AddEffect(..) | StoreOp::ClaimEffect(..) | StoreOp::ChangeEffect(..) => {
            effect_operations_keep_soundness(m, op);
        },
        StoreOp::AddReservation(..) | StoreOp::ChangeReservation(..) | StoreOp::AddTimer(..) | StoreOp::ChangeTimer(..) => {
            timer_operations_keep_soundness(m, op);
        },
        StoreOp::AddGrant(..) | StoreOp::AddHop(..) | StoreOp::AddApprovalRequest(..) | StoreOp::AddApprovalResponse(..) => {
            security_operations_keep_soundness(m, op);
        },
        StoreOp::AddRegistration(..) | StoreOp::SetConformance(..) | StoreOp::AddInstance(..) | StoreOp::ChangeInstance(..) | StoreOp::AddReport(..) => {
            adapter_operations_keep_soundness(m, op);
        },
        StoreOp::AddArtifact(..) | StoreOp::AddGeneration(..) | StoreOp::SetGenerationStates(..) | StoreOp::Activate(..) => {
            config_operations_keep_soundness(m, op);
        },
        StoreOp::AddTurn(..) | StoreOp::ChangeTurn(..) | StoreOp::AddDecision(..) => {
            turn_operations_keep_soundness(m, op);
        },
        StoreOp::AddWorkspace(..) | StoreOp::AddLease(..) | StoreOp::ChangeLease(..) => {
            lease_operations_keep_soundness(m, op);
        },
        StoreOp::AddIdempotency(..) | StoreOp::Allocate(..) | StoreOp::AddEvent(..) | StoreOp::Publish(..) | StoreOp::SetEpoch(..) => {
            stream_operations_keep_soundness(m, op);
        },
    }
}

/// Every state that operations lead to from the empty store is sound.
pub proof fn every_state_is_sound(ops: Seq<StoreOp>)
    ensures
        is_sound(after_ops(empty_store(), ops)),
    decreases ops.len(),
{
    if ops.len() == 0 {
        let m = empty_store();
        assert(is_acyclic(m.dependencies)) by {
            assert forall|a: RunId, b: RunId| !is_edge(m.dependencies, a, b) by {}
        }
    } else {
        every_state_is_sound(ops.drop_last());
        operations_keep_soundness(after_ops(empty_store(), ops.drop_last()), ops.last());
    }
}

/// A commit leaves a sound store sound, whether it succeeds or not, as the state of the
/// transaction is sound.
pub proof fn commits_keep_soundness(m: StoreModel, state: StoreModel, base_revision: u64)
    requires
        is_sound(m),
        is_sound(state),
    ensures
        is_sound(committed(m, state, base_revision).0),
{
}

/// What is recorded for good stays as it was recorded, whatever is done: the environments
/// of runs and their bindings, dependencies, decisions, approval requests and their
/// answers, grants, artifacts, and the outcomes of commands.
pub proof fn history_is_kept(m: StoreModel, op: StoreOp)
    ensures
        m.environments.submap_of(after_op(m, op).environments),
        m.bindings.submap_of(after_op(m, op).bindings),
        m.dependencies.submap_of(after_op(m, op).dependencies),
        m.decisions.submap_of(after_op(m, op).decisions),
        m.approval_requests.submap_of(after_op(m, op).approval_requests),
        m.approval_responses.submap_of(after_op(m, op).approval_responses),
        m.grants.submap_of(after_op(m, op).grants),
        m.artifacts_by_id.submap_of(after_op(m, op).artifacts_by_id),
        m.idempotency.submap_of(after_op(m, op).idempotency),
{
    if let StoreOp::AddBindings(id, new) = op {
        bindings_are_kept(m, id, new, new.len() as int);
    }
}

proof fn bindings_are_kept(m: StoreModel, environment: EnvironmentId, new: Seq<NewResolvedBinding>, n: int)
    requires
        0 <= n <= new.len(),
    ensures
        ({
            let after = bindings_put(m, environment, new, n).0;
            m.bindings.submap_of(after.bindings) && after == StoreModel {
                bindings: after.bindings,
                ..m
            }
        }),
    decreases n,
{
    if n > 0 {
        bindings_are_kept(m, environment, new, n - 1);
        let before = bindings_put(m, environment, new, n - 1).0.bindings;
        let after = bindings_put(m, environment, new, n).0.bindings;
        assert forall|k: (EnvironmentId, Seq<char>)| #[trigger]
            m.bindings.contains_key(k) implies after.contains_key(k) && after[k] == m.bindings[k] by {
            assert(m.bindings.dom().contains(k) && before.dom().contains(k));
        }
        assert(m.bindings.submap_of(after));
    }
}

} // verus!
