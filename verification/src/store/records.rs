//! What is recorded is what was handed in: each record of the store holds every field that
//! it was made with, nothing else changes, and a record is refused exactly where something
//! that it refers to is missing, a word is unknown, or it is there already.

use vstd::prelude::*;

use crate::domain::{
    AgentSpecId, ApprovalRequestId, ConfigGenerationId, DependencyId, EffectId, EnvironmentId,
    LeaseEnforcementState, LeaseId, TurnId, WorkspaceAccessMode,
};
use crate::errors::{ErrorCode, RetryClass};
use crate::store::adapters::{instance_added, registration_added, report_added};
use crate::store::artifacts::artifact_added;
use crate::store::config::generation_added;
use crate::store::effects::{effect_added, reservation_added, timer_added};
use crate::store::environments::{bindings_put, environment_added};
use crate::store::graph::{dependency_added, joins, reachable};
use crate::store::rows::{
    NewAdapterInstance, NewAdapterRegistration, NewAgentSpec, NewApprovalRequest,
    NewApprovalResponse, NewArtifact, NewCapabilityGrant, NewConfigGeneration,
    NewConformanceReport, NewDecision, NewDelegationHop, NewEffect, NewIdempotencyRecord,
    NewLoopTurn, NewOutboxEvent, NewReservation, NewResolvedBinding, NewResolvedEnvironment,
    NewRun, NewRunDependency, NewSession, NewTask, NewTimer, NewWorkspace, NewWorkspaceLease,
};
use crate::store::runs::{agent_spec_added, run_added, session_added, task_added, with_digest};
use crate::store::security::{
    approval_request_added, approval_response_added, grant_added, hop_added,
};
use crate::store::state::StoreModel;
use crate::store::streams::{event_added, idempotency_added};
use crate::store::turns::{decision_added, turn_added};
use crate::store::workspaces::{lease_added, workspace_added};

verus! {

/// New sessions are recorded whole, and refused exactly where they clash with what
/// is there.
pub proof fn session_is_recorded_whole(m: StoreModel, new: NewSession)
    ensures
        ({
            let (after, r) = session_added(m, new);
            let key = new.session_id;
            let row = after.sessions[key];
            let clashes = (m.sessions.contains_key(new.session_id));
            &&& r is Ok <==> !clashes
            &&& r matches Err(e) ==> after == m && e.retry == RetryClass::Never
                && e.code == ErrorCode::Conflict
            &&& r is Ok ==> after == (StoreModel { sessions: m.sessions.insert(key, row), ..m })
            &&& r is Ok ==> {
                &&& row.session_id == new.session_id
                &&& row.principal_id == new.principal_id
                &&& row.created_at_ms == new.created_at_ms
                &&& row.metadata == new.metadata
            }
        }),
{
}

/// New tasks are recorded whole, and refused exactly where something is missing, a word is
/// unknown, or they clash with what is there.
pub proof fn task_is_recorded_whole(m: StoreModel, new: NewTask)
    ensures
        ({
            let (after, r) = task_added(m, new);
            let key = new.task_id;
            let row = after.tasks[key];
            let misfits = (new.session_id matches Some(s) && !m.sessions.contains_key(s));
            let clashes = (m.tasks.contains_key(new.task_id));
            &&& r is Ok <==> !misfits && !clashes
            &&& r matches Err(e) ==> after == m && e.retry == RetryClass::Never && e.code == (if misfits {
                ErrorCode::FailedPrecondition
            } else {
                ErrorCode::Conflict
            })
            &&& r is Ok ==> after == (StoreModel { tasks: m.tasks.insert(key, row), ..m })
            &&& r is Ok ==> {
                &&& row.task_id == new.task_id
                &&& row.session_id == new.session_id
                &&& row.created_by_actor_id == new.created_by_actor_id
                &&& row.task_kind == new.task_kind
                &&& row.payload == new.payload
                &&& row.created_at_ms == new.created_at_ms
            }
        }),
{
}

/// New runs are recorded whole, and refused exactly where something is missing, a word is
/// unknown, or they clash with what is there.
pub proof fn run_is_recorded_whole(m: StoreModel, new: NewRun)
    ensures
        ({
            let (after, r) = run_added(m, new);
            let key = new.run_id;
            let row = after.runs[key];
            let misfits = (!m.tasks.contains_key(new.task_id)) || (new.parent_run_id matches Some(p)
                && !m.runs.contains_key(p));
            let clashes = (m.runs.contains_key(new.run_id));
            &&& r is Ok <==> !misfits && !clashes
            &&& r matches Err(e) ==> after == m && e.retry == RetryClass::Never && e.code == (if misfits {
                ErrorCode::FailedPrecondition
            } else {
                ErrorCode::Conflict
            })
            &&& r is Ok ==> after == (StoreModel { runs: m.runs.insert(key, row), ..m })
            &&& r is Ok ==> {
                &&& row.run_id == new.run_id
                &&& row.task_id == new.task_id
                &&& row.session_id == new.session_id
                &&& row.parent_run_id == new.parent_run_id
                &&& row.state == new.state
                &&& row.recovery == new.recovery
                &&& row.loop_epoch == new.loop_epoch
                &&& row.step_sequence == new.step_sequence
                &&& row.input_event_cursor == new.input_event_cursor
                &&& row.cancellation_epoch == new.cancellation_epoch
                &&& row.resolved_environment_id == new.resolved_environment_id
                &&& row.created_at_ms == new.created_at_ms
                &&& row.run_revision == 0
                &&& row.claim_owner == None::<String>
                &&& row.claim_token == None::<u64>
                &&& row.claim_expires_ms == None::<i64>
                &&& row.claim_daemon_epoch == None::<u64>
                &&& row.terminal_reason == None::<String>
                &&& row.output_ref == None::<String>
                &&& row.current_turn_id == None::<TurnId>
                &&& row.updated_at_ms == new.created_at_ms
            }
        }),
{
}

/// New environments are recorded whole, and refused exactly where they clash with what
/// is there.
pub proof fn environment_is_recorded_whole(m: StoreModel, new: NewResolvedEnvironment)
    ensures
        ({
            let (after, r) = environment_added(m, new);
            let key = new.environment_id;
            let row = after.environments[key];
            let clashes = (exists|k: EnvironmentId| #[trigger] m.environments.contains_key(k)
                && m.environments[k].run_id == new.run_id)
                    || (m.environments.contains_key(new.environment_id));
            &&& r is Ok <==> !clashes
            &&& r matches Err(e) ==> after == m && e.retry == RetryClass::Never
                && e.code == ErrorCode::Conflict
            &&& r is Ok ==> after == (StoreModel { environments: m.environments.insert(key, row), ..m })
            &&& r is Ok ==> {
                &&& row.environment_id == new.environment_id
                &&& row.run_id == new.run_id
                &&& row.agent_spec_id == new.agent_spec_id
                &&& row.agent_spec_version == new.agent_spec_version
                &&& row.agent_spec_digest == new.agent_spec_digest
                &&& row.agent_loop_id == new.agent_loop_id
                &&& row.agent_loop_version == new.agent_loop_version
                &&& row.agent_loop_digest == new.agent_loop_digest
                &&& row.config_generation_id == new.config_generation_id
                &&& row.workspace_uri == new.workspace_uri
                &&& row.workspace_base_revision == new.workspace_base_revision
                &&& row.workspace_mode == new.workspace_mode
                &&& row.model_provider == new.model_provider
                &&& row.model_id == new.model_id
                &&& row.model_parameters == new.model_parameters
                &&& row.kernel_version == new.kernel_version
                &&& row.protocol_versions == new.protocol_versions
                &&& row.capability_grant_ids == new.capability_grant_ids
                &&& row.approval_request_ids == new.approval_request_ids
                &&& row.created_at_ms == new.created_at_ms
            }
        }),
{
}

/// New effects are recorded whole, and refused exactly where something is missing, a word is
/// unknown, or they clash with what is there.
pub proof fn effect_is_recorded_whole(m: StoreModel, new: NewEffect)
    ensures
        ({
            let (after, r) = effect_added(m, new);
            let key = new.effect_id;
            let row = after.effects[key];
            let misfits = (!m.runs.contains_key(new.run_id));
            let clashes = (exists|k: EffectId| #[trigger] m.effects.contains_key(k)
                && m.effects[k].run_id == new.run_id && m.effects[k].decision_id == new.decision_id
                    && m.effects[k].operation@ == new.operation@
                        && m.effects[k].request_hash@ == new.request_hash@)
                            || (m.effects.contains_key(new.effect_id));
            &&& r is Ok <==> !misfits && !clashes
            &&& r matches Err(e) ==> after == m && e.retry == RetryClass::Never && e.code == (if misfits {
                ErrorCode::FailedPrecondition
            } else {
                ErrorCode::Conflict
            })
            &&& r is Ok ==> after == (StoreModel { effects: m.effects.insert(key, row), ..m })
            &&& r is Ok ==> {
                &&& row.effect_id == new.effect_id
                &&& row.run_id == new.run_id
                &&& row.step_sequence == new.step_sequence
                &&& row.decision_id == new.decision_id
                &&& row.operation == new.operation
                &&& row.request_hash == new.request_hash
                &&& row.request_payload == new.request_payload
                &&& row.effect_class == new.effect_class
                &&& row.idempotency_semantics == new.idempotency_semantics
                &&& row.reconciliation_semantics == new.reconciliation_semantics
                &&& row.cancellation_semantics == new.cancellation_semantics
                &&& row.compensation_capability == new.compensation_capability
                &&& row.adapter_id == new.adapter_id
                &&& row.adapter_version == new.adapter_version
                &&& row.adapter_digest == new.adapter_digest
                &&& row.state == new.state
                &&& row.created_at_ms == new.created_at_ms
                &&& row.executor_id == None::<String>
                &&& row.executor_fencing_token == None::<u64>
                &&& row.daemon_fencing_epoch == None::<u64>
                &&& row.lease_expires_ms == None::<i64>
                &&& row.provider_operation_ref == None::<String>
                &&& row.result_ref == None::<String>
                &&& row.error_code == None::<String>
                &&& row.updated_at_ms == new.created_at_ms
            }
        }),
{
}

/// New reservations are recorded whole, and refused exactly where they clash with what
/// is there.
pub proof fn reservation_is_recorded_whole(m: StoreModel, new: NewReservation)
    ensures
        ({
            let (after, r) = reservation_added(m, new);
            let key = new.reservation_id;
            let row = after.reservations[key];
            let clashes = (m.reservations.contains_key(new.reservation_id));
            &&& r is Ok <==> !clashes
            &&& r matches Err(e) ==> after == m && e.retry == RetryClass::Never
                && e.code == ErrorCode::Conflict
            &&& r is Ok ==> after == (StoreModel { reservations: m.reservations.insert(key, row), ..m })
            &&& r is Ok ==> {
                &&& row.reservation_id == new.reservation_id
                &&& row.run_id == new.run_id
                &&& row.resource_type == new.resource_type
                &&& row.state == new.state
                &&& row.amount == new.amount
                &&& row.unit == new.unit
                &&& row.fencing_token == new.fencing_token
                &&& row.parent_reservation_id == new.parent_reservation_id
                &&& row.created_at_ms == new.created_at_ms
                &&& row.updated_at_ms == new.created_at_ms
            }
        }),
{
}

/// New timers are recorded whole, and refused exactly where something is missing, a word is
/// unknown, or they clash with what is there.
pub proof fn timer_is_recorded_whole(m: StoreModel, new: NewTimer)
    ensures
        ({
            let (after, r) = timer_added(m, new);
            let key = new.timer_id;
            let row = after.timers[key];
            let misfits = (new.run_id matches Some(run) && !m.runs.contains_key(run));
            let clashes = (m.timers.contains_key(new.timer_id));
            &&& r is Ok <==> !misfits && !clashes
            &&& r matches Err(e) ==> after == m && e.retry == RetryClass::Never && e.code == (if misfits {
                ErrorCode::FailedPrecondition
            } else {
                ErrorCode::Conflict
            })
            &&& r is Ok ==> after == (StoreModel { timers: m.timers.insert(key, row), ..m })
            &&& r is Ok ==> {
                &&& row.timer_id == new.timer_id
                &&& row.run_id == new.run_id
                &&& row.timer_kind == new.timer_kind
                &&& row.payload == new.payload
                &&& row.due_at_ms == new.due_at_ms
                &&& row.state == new.state
                &&& row.version == new.version
                &&& row.created_at_ms == new.created_at_ms
                &&& row.claim_owner == None::<String>
                &&& row.claim_fencing_token == None::<u64>
                &&& row.claim_daemon_epoch == None::<u64>
                &&& row.updated_at_ms == new.created_at_ms
            }
        }),
{
}

/// New grants are recorded whole, and refused exactly where something is missing, a word is
/// unknown, or they clash with what is there.
pub proof fn grant_is_recorded_whole(m: StoreModel, new: NewCapabilityGrant)
    ensures
        ({
            let (after, r) = grant_added(m, new);
            let key = new.grant_id;
            let row = after.grants[key];
            let misfits = (new.run_id matches Some(run)
                && !m.runs.contains_key(run)) || (new.delegated_from_grant_id matches Some(p)
                    && !m.grants.contains_key(p));
            let clashes = (m.grants.contains_key(new.grant_id));
            &&& r is Ok <==> !misfits && !clashes
            &&& r matches Err(e) ==> after == m && e.retry == RetryClass::Never && e.code == (if misfits {
                ErrorCode::FailedPrecondition
            } else {
                ErrorCode::Conflict
            })
            &&& r is Ok ==> after == (StoreModel { grants: m.grants.insert(key, row), ..m })
            &&& r is Ok ==> {
                &&& row.grant_id == new.grant_id
                &&& row.principal_id == new.principal_id
                &&& row.actor_id == new.actor_id
                &&& row.run_id == new.run_id
                &&& row.capability_id == new.capability_id
                &&& row.scope == new.scope
                &&& row.delegated_from_grant_id == new.delegated_from_grant_id
                &&& row.expires_at_ms == new.expires_at_ms
                &&& row.revoked_at_ms == new.revoked_at_ms
                &&& row.created_at_ms == new.created_at_ms
            }
        }),
{
}

/// New delegation hops are recorded whole, and refused exactly where something is missing, a
/// word is unknown, or they clash with what is there.
pub proof fn hop_is_recorded_whole(m: StoreModel, new: NewDelegationHop)
    ensures
        ({
            let (after, r) = hop_added(m, new);
            let key = (new.chain_id, new.hop_index);
            let row = after.delegation_hops[key];
            let misfits = (new.run_id matches Some(run) && !m.runs.contains_key(run));
            let clashes = (m.delegation_hops.contains_key((new.chain_id, new.hop_index)));
            &&& r is Ok <==> !misfits && !clashes
            &&& r matches Err(e) ==> after == m && e.retry == RetryClass::Never && e.code == (if misfits {
                ErrorCode::FailedPrecondition
            } else {
                ErrorCode::Conflict
            })
            &&& r is Ok ==> after == (StoreModel { delegation_hops: m.delegation_hops.insert(key, row), ..m })
            &&& r is Ok ==> {
                &&& row.chain_id == new.chain_id
                &&& row.hop_index == new.hop_index
                &&& row.principal_or_actor_id == new.principal_or_actor_id
                &&& row.run_id == new.run_id
                &&& row.capability_grant_ids == new.capability_grant_ids
            }
        }),
{
}

/// New approval requests are recorded whole, and refused exactly where they clash with what
/// is there.
pub proof fn approval_request_is_recorded_whole(m: StoreModel, new: NewApprovalRequest)
    ensures
        ({
            let (after, r) = approval_request_added(m, new);
            let key = new.request_id;
            let row = after.approval_requests[key];
            let clashes = (exists|k: ApprovalRequestId| #[trigger] m.approval_requests.contains_key(k) && m.approval_requests[k].request_digest@ == new.request_digest@ && m.approval_requests[k].nonce@ == new.nonce@) || (m.approval_requests.contains_key(new.request_id));
            &&& r is Ok <==> !clashes
            &&& r matches Err(e) ==> after == m && e.retry == RetryClass::Never
                && e.code == ErrorCode::Conflict
            &&& r is Ok ==> after
                == (StoreModel { approval_requests: m.approval_requests.insert(key, row), ..m })
            &&& r is Ok ==> {
                &&& row.request_id == new.request_id
                &&& row.request_digest == new.request_digest
                &&& row.principal_id == new.principal_id
                &&& row.actor_id == new.actor_id
                &&& row.run_id == new.run_id
                &&& row.operation == new.operation
                &&& row.target_resource == new.target_resource
                &&& row.capability_ids == new.capability_ids
                &&& row.extension_bundle_digest == new.extension_bundle_digest
                &&& row.config_generation_digest == new.config_generation_digest
                &&& row.expires_at_ms == new.expires_at_ms
                &&& row.nonce == new.nonce
                &&& row.state == new.state
                &&& row.created_at_ms == new.created_at_ms
                &&& row.resolved_at_ms == new.resolved_at_ms
            }
        }),
{
}

/// New approval responses are recorded whole, and refused exactly where something is missing,
/// a word is unknown, or they clash with what is there.
pub proof fn approval_response_is_recorded_whole(m: StoreModel, new: NewApprovalResponse)
    ensures
        ({
            let (after, r) = approval_response_added(m, new);
            let key = new.request_id;
            let row = after.approval_responses[key];
            let misfits = (!(new.decision@ == "approve"@ || new.decision@ == "deny"@))
                || (!m.approval_requests.contains_key(new.request_id));
            let clashes = (m.approval_responses.contains_key(new.request_id));
            &&& r is Ok <==> !misfits && !clashes
            &&& r matches Err(e) ==> after == m && e.retry == RetryClass::Never && e.code == (if misfits {
                ErrorCode::FailedPrecondition
            } else {
                ErrorCode::Conflict
            })
            &&& r is Ok ==> after
                == (StoreModel { approval_responses: m.approval_responses.insert(key, row), ..m })
            &&& r is Ok ==> {
                &&& row.request_id == new.request_id
                &&& row.request_digest == new.request_digest
                &&& row.decision == new.decision
                &&& row.device_id == new.device_id
                &&& row.responder_principal_id == new.responder_principal_id
                &&& row.responded_at_ms == new.responded_at_ms
            }
        }),
{
}

/// New adapter registrations are recorded whole, and refused exactly where they clash with what
/// is there.
pub proof fn registration_is_recorded_whole(m: StoreModel, new: NewAdapterRegistration)
    ensures
        ({
            let (after, r) = registration_added(m, new);
            let key = (new.adapter_id, new.version@, new.bundle_digest@);
            let row = after.registrations[key];
            let clashes = (m.registrations.contains_key((new.adapter_id, new.version@, new.bundle_digest@)));
            &&& r is Ok <==> !clashes
            &&& r matches Err(e) ==> after == m && e.retry == RetryClass::Never
                && e.code == ErrorCode::Conflict
            &&& r is Ok ==> after == (StoreModel { registrations: m.registrations.insert(key, row), ..m })
            &&& r is Ok ==> {
                &&& row.adapter_id == new.adapter_id
                &&& row.version == new.version
                &&& row.bundle_digest == new.bundle_digest
                &&& row.manifest_digest == new.manifest_digest
                &&& row.runtime_type == new.runtime_type
                &&& row.implemented_ports == new.implemented_ports
                &&& row.capabilities == new.capabilities
                &&& row.trust_state == new.trust_state
                &&& row.conformance_state == new.conformance_state
                &&& row.created_at_ms == new.created_at_ms
            }
        }),
{
}

/// New adapter instances are recorded whole, and refused exactly where something is missing, a
/// word is unknown, or they clash with what is there.
pub proof fn instance_is_recorded_whole(m: StoreModel, new: NewAdapterInstance)
    ensures
        ({
            let (after, r) = instance_added(m, new);
            let key = new.adapter_instance_id;
            let row = after.instances[key];
            let misfits = (!(new.state@ == "starting"@ || new.state@ == "ready"@
                || new.state@ == "exited"@ || new.state@ == "failed"@))
                    || (!m.registrations.contains_key((new.adapter_id, new.adapter_version@,
                        new.bundle_digest@)));
            let clashes = (m.instances.contains_key(new.adapter_instance_id));
            &&& r is Ok <==> !misfits && !clashes
            &&& r matches Err(e) ==> after == m && e.retry == RetryClass::Never && e.code == (if misfits {
                ErrorCode::FailedPrecondition
            } else {
                ErrorCode::Conflict
            })
            &&& r is Ok ==> after == (StoreModel { instances: m.instances.insert(key, row), ..m })
            &&& r is Ok ==> {
                &&& row.adapter_instance_id == new.adapter_instance_id
                &&& row.adapter_id == new.adapter_id
                &&& row.adapter_version == new.adapter_version
                &&& row.bundle_digest == new.bundle_digest
                &&& row.daemon_instance_id == new.daemon_instance_id
                &&& row.pid == new.pid
                &&& row.process_start_identity == new.process_start_identity
                &&& row.state == new.state
                &&& row.exit_reason == new.exit_reason
                &&& row.last_heartbeat_ms == new.last_heartbeat_ms
                &&& row.started_at_ms == new.started_at_ms
                &&& row.ended_at_ms == new.ended_at_ms
            }
        }),
{
}

/// New conformance reports are recorded whole, and refused exactly where something is missing,
/// a word is unknown, or they clash with what is there.
pub proof fn report_is_recorded_whole(m: StoreModel, new: NewConformanceReport)
    ensures
        ({
            let (after, r) = report_added(m, new);
            let key = (new.adapter_id, new.adapter_version@, new.bundle_digest@);
            let row = after.conformance_reports[key];
            let misfits = (!(new.result@ == "pass"@ || new.result@ == "fail"@))
                || (!m.registrations.contains_key((new.adapter_id, new.adapter_version@,
                    new.bundle_digest@)));
            let clashes = (m.conformance_reports.contains_key((new.adapter_id, new.adapter_version@,
                new.bundle_digest@)));
            &&& r is Ok <==> !misfits && !clashes
            &&& r matches Err(e) ==> after == m && e.retry == RetryClass::Never && e.code == (if misfits {
                ErrorCode::FailedPrecondition
            } else {
                ErrorCode::Conflict
            })
            &&& r is Ok ==> after
                == (StoreModel { conformance_reports: m.conformance_reports.insert(key, row), ..m })
            &&& r is Ok ==> {
                &&& row.adapter_id == new.adapter_id
                &&& row.adapter_version == new.adapter_version
                &&& row.bundle_digest == new.bundle_digest
                &&& row.report_digest == new.report_digest
                &&& row.harness_version == new.harness_version
                &&& row.result == new.result
                &&& row.run_at_ms == new.run_at_ms
                &&& row.details == new.details
            }
        }),
{
}

/// New config generations are recorded whole, and refused exactly where something is missing,
/// a word is unknown, or they clash with what is there.
pub proof fn generation_is_recorded_whole(m: StoreModel, new: NewConfigGeneration)
    ensures
        ({
            let (after, r) = generation_added(m, new);
            let key = new.generation_id;
            let row = after.config_generations[key];
            let misfits = (!(new.validation_state@ == "proposed"@
                || new.validation_state@ == "validated"@ || new.validation_state@ == "rejected"@))
                    || (!(new.test_state@ == "untested"@ || new.test_state@ == "passed"@
                        || new.test_state@ == "failed"@));
            let clashes = (exists|k: ConfigGenerationId| #[trigger] m.config_generations.contains_key(k) && m.config_generations[k].digest@ == new.digest@) || (m.config_generations.contains_key(new.generation_id));
            &&& r is Ok <==> !misfits && !clashes
            &&& r matches Err(e) ==> after == m && e.retry == RetryClass::Never && e.code == (if misfits {
                ErrorCode::FailedPrecondition
            } else {
                ErrorCode::Conflict
            })
            &&& r is Ok ==> after
                == (StoreModel { config_generations: m.config_generations.insert(key, row), ..m })
            &&& r is Ok ==> {
                &&& row.generation_id == new.generation_id
                &&& row.digest == new.digest
                &&& row.document == new.document
                &&& row.validation_state == new.validation_state
                &&& row.test_state == new.test_state
                &&& row.created_by_actor_id == new.created_by_actor_id
                &&& row.created_at_ms == new.created_at_ms
            }
        }),
{
}

/// New turns are recorded whole, and refused exactly where something is missing, a word is
/// unknown, or they clash with what is there.
pub proof fn turn_is_recorded_whole(m: StoreModel, new: NewLoopTurn)
    ensures
        ({
            let (after, r) = turn_added(m, new);
            let key = new.turn_id;
            let row = after.turns[key];
            let misfits = (!(new.state@ == "issued"@ || new.state@ == "accepted"@
                || new.state@ == "stale"@)) || (!m.runs.contains_key(new.run_id));
            let clashes = (m.turns.contains_key(new.turn_id));
            &&& r is Ok <==> !misfits && !clashes
            &&& r matches Err(e) ==> after == m && e.retry == RetryClass::Never && e.code == (if misfits {
                ErrorCode::FailedPrecondition
            } else {
                ErrorCode::Conflict
            })
            &&& r is Ok ==> after == (StoreModel { turns: m.turns.insert(key, row), ..m })
            &&& r is Ok ==> {
                &&& row.turn_id == new.turn_id
                &&& row.run_id == new.run_id
                &&& row.run_revision == new.run_revision
                &&& row.loop_epoch == new.loop_epoch
                &&& row.step_sequence == new.step_sequence
                &&& row.input_event_cursor == new.input_event_cursor
                &&& row.state == new.state
                &&& row.issued_at_ms == new.issued_at_ms
            }
        }),
{
}

/// New decisions are recorded whole, and refused exactly where something is missing, a word is
/// unknown, or they clash with what is there.
pub proof fn decision_is_recorded_whole(m: StoreModel, new: NewDecision)
    ensures
        ({
            let (after, r) = decision_added(m, new);
            let key = (new.run_id, new.decision_id);
            let row = after.decisions[key];
            let misfits = (!(new.decision_type@ == "Complete"@ || new.decision_type@ == "Fail"@
                || new.decision_type@ == "Wait"@ || new.decision_type@ == "SpawnAgent"@
                    || new.decision_type@ == "InvokeEffect"@
                        || new.decision_type@ == "RequestApproval"@))
                            || (!m.runs.contains_key(new.run_id)) || (!m.turns.contains_key(new.turn_id));
            let clashes = (m.decisions.contains_key((new.run_id, new.decision_id)));
            &&& r is Ok <==> !misfits && !clashes
            &&& r matches Err(e) ==> after == m && e.retry == RetryClass::Never && e.code == (if misfits {
                ErrorCode::FailedPrecondition
            } else {
                ErrorCode::Conflict
            })
            &&& r is Ok ==> after == (StoreModel { decisions: m.decisions.insert(key, row), ..m })
            &&& r is Ok ==> {
                &&& row.decision_id == new.decision_id
                &&& row.run_id == new.run_id
                &&& row.turn_id == new.turn_id
                &&& row.decision_type == new.decision_type
                &&& row.decision_digest == new.decision_digest
                &&& row.decision_bytes == new.decision_bytes
                &&& row.run_revision == new.run_revision
                &&& row.loop_epoch == new.loop_epoch
                &&& row.step_sequence == new.step_sequence
                &&& row.input_event_cursor == new.input_event_cursor
                &&& row.accepted_at_ms == new.accepted_at_ms
            }
        }),
{
}

/// New workspaces are recorded whole, and refused exactly where they clash with what
/// is there.
pub proof fn workspace_is_recorded_whole(m: StoreModel, new: NewWorkspace)
    ensures
        ({
            let (after, r) = workspace_added(m, new);
            let key = new.workspace_id;
            let row = after.workspaces[key];
            let clashes = (m.workspaces.contains_key(new.workspace_id));
            &&& r is Ok <==> !clashes
            &&& r matches Err(e) ==> after == m && e.retry == RetryClass::Never
                && e.code == ErrorCode::Conflict
            &&& r is Ok ==> after == (StoreModel { workspaces: m.workspaces.insert(key, row), ..m })
            &&& r is Ok ==> {
                &&& row.workspace_id == new.workspace_id
                &&& row.kind == new.kind
                &&& row.base_revision == new.base_revision
                &&& row.parent_workspace_id == new.parent_workspace_id
                &&& row.created_at_ms == new.created_at_ms
            }
        }),
{
}

/// New leases are recorded whole, and refused exactly where something is missing, a word is
/// unknown, or they clash with what is there.
pub proof fn lease_is_recorded_whole(m: StoreModel, new: NewWorkspaceLease)
    ensures
        ({
            let (after, r) = lease_added(m, new);
            let key = new.lease_id;
            let row = after.leases[key];
            let misfits = (!m.workspaces.contains_key(new.workspace_id))
                || (!m.runs.contains_key(new.owner_run_id));
            let clashes = (new.mode == WorkspaceAccessMode::ExclusiveWrite
                && new.enforcement_state == LeaseEnforcementState::Active
                    && (exists|k: LeaseId| #[trigger] m.leases.contains_key(k)
                        && m.leases[k].workspace_id == new.workspace_id
                            && m.leases[k].mode == WorkspaceAccessMode::ExclusiveWrite
                                && m.leases[k].enforcement_state == LeaseEnforcementState::Active))
                                    || (m.leases.contains_key(new.lease_id));
            &&& r is Ok <==> !misfits && !clashes
            &&& r matches Err(e) ==> after == m && e.retry == RetryClass::Never && e.code == (if misfits {
                ErrorCode::FailedPrecondition
            } else {
                ErrorCode::Conflict
            })
            &&& r is Ok ==> after == (StoreModel { leases: m.leases.insert(key, row), ..m })
            &&& r is Ok ==> {
                &&& row.lease_id == new.lease_id
                &&& row.workspace_id == new.workspace_id
                &&& row.owner_run_id == new.owner_run_id
                &&& row.mode == new.mode
                &&& row.lease_epoch == new.lease_epoch
                &&& row.enforcement_state == new.enforcement_state
                &&& row.delegated_from == new.delegated_from
                &&& row.created_at_ms == new.created_at_ms
                &&& row.updated_at_ms == new.created_at_ms
            }
        }),
{
}

/// New command outcomes are recorded whole, and refused exactly where they clash with what
/// is there.
pub proof fn command_is_recorded_whole(m: StoreModel, new: NewIdempotencyRecord)
    ensures
        ({
            let (after, r) = idempotency_added(m, new);
            let key = (new.principal_id, new.idempotency_key.text@);
            let row = after.idempotency[key];
            let clashes = (m.idempotency.contains_key((new.principal_id, new.idempotency_key.text@)));
            &&& r is Ok <==> !clashes
            &&& r matches Err(e) ==> after == m && e.retry == RetryClass::Never
                && e.code == ErrorCode::Conflict
            &&& r is Ok ==> after == (StoreModel { idempotency: m.idempotency.insert(key, row), ..m })
            &&& r is Ok ==> {
                &&& row.principal_id == new.principal_id
                &&& row.idempotency_key == new.idempotency_key
                &&& row.request_digest == new.request_digest
                &&& row.command_id == new.command_id
                &&& row.outcome_code == new.outcome_code
                &&& row.outcome_payload == new.outcome_payload
                &&& row.created_at_ms == new.created_at_ms
            }
        }),
{
}

/// An agent spec that is new is recorded whole. One that is there already is left as it is,
/// and handing it in again is refused where it differs; a digest belongs to one spec.
pub proof fn agent_spec_is_recorded_whole(m: StoreModel, new: NewAgentSpec)
    ensures
        ({
            let (after, r) = agent_spec_added(m, new);
            let key = (new.agent_spec_id, new.version@);
            let row = after.agent_specs[key];
            &&& m.agent_specs.contains_key(key) ==> after == m && (r is Ok <==> m.agent_specs[key].digest@
                == new.digest@ && m.agent_specs[key].body@ == new.body@)
            &&& !m.agent_specs.contains_key(key) ==> (r is Err <==> exists|k: (AgentSpecId, Seq<char>)|
                #[trigger] m.agent_specs.contains_key(k) && m.agent_specs[k].digest@ == new.digest@)
            &&& r matches Err(e) ==> after == m && e.code == ErrorCode::Conflict && e.retry
                == RetryClass::Never
            &&& r is Ok && !m.agent_specs.contains_key(key) ==> {
                &&& after == (StoreModel { agent_specs: m.agent_specs.insert(key, row), ..m })
                &&& row.agent_spec_id == new.agent_spec_id
                &&& row.version == new.version
                &&& row.digest == new.digest
                &&& row.body == new.body
                &&& row.created_at_ms == new.created_at_ms
            }
        }),
{
    let pick = crate::store::runs::with_digest(new.digest@);
    assert forall|k: (AgentSpecId, Seq<char>)| #[trigger] m.agent_specs.contains_key(k) implies pick(
        m.agent_specs[k],
    ) == (m.agent_specs[k].digest@ == new.digest@) by {}
}

/// A new artifact is recorded whole and found by its id and by its URI. It is refused where
/// its run or effect is missing, or its URI or id is taken.
pub proof fn artifact_is_recorded_whole(m: StoreModel, new: NewArtifact)
    ensures
        ({
            let (after, r) = artifact_added(m, new);
            let row = after.artifacts_by_id[new.artifact_id];
            let misfits = !m.runs.contains_key(new.origin_run_id) || (new.origin_effect_id matches Some(e)
                && !m.effects.contains_key(e));
            let clashes = m.artifacts_by_uri.contains_key(new.uri@) || m.artifacts_by_id.contains_key(
                new.artifact_id,
            );
            &&& r is Ok <==> !misfits && !clashes
            &&& r matches Err(e) ==> after.artifacts_by_id == m.artifacts_by_id && e.retry
                == RetryClass::Never && e.code == (if misfits {
                ErrorCode::FailedPrecondition
            } else {
                ErrorCode::Conflict
            })
            &&& after == (StoreModel {
                artifacts_by_id: after.artifacts_by_id,
                artifacts_by_uri: after.artifacts_by_uri,
                ..m
            })
            &&& r is Ok ==> {
                &&& after.artifacts_by_id == m.artifacts_by_id.insert(new.artifact_id, row)
                &&& after.artifacts_by_uri == m.artifacts_by_uri.insert(new.uri@, new.artifact_id)
                &&& row.artifact_id == new.artifact_id
                &&& row.uri == new.uri
                &&& row.digest == new.digest
                &&& row.media_type == new.media_type
                &&& row.size_bytes == new.size_bytes
                &&& row.origin_run_id == new.origin_run_id
                &&& row.origin_effect_id == new.origin_effect_id
                &&& row.sensitivity == new.sensitivity
                &&& row.retention == new.retention
                &&& row.locator == new.locator
                &&& row.created_at_ms == new.created_at_ms
            }
        }),
{
}

/// A new dependency is recorded whole, with the revision that it was made at, and moves the
/// revision of its graph on by one. It is refused where the graph has no head or is at
/// another revision, where a run is missing, and where the runs are joined already or the
/// other way round.
pub proof fn dependency_is_recorded_whole(m: StoreModel, new: NewRunDependency, expected: u64)
    requires
        expected < u64::MAX,
    ensures
        ({
            let (after, r) = dependency_added(m, new, expected);
            let row = after.dependencies[new.dependency_id];
            let heads = m.graph_heads.contains_key(new.task_id) && m.graph_heads[new.task_id].graph_revision
                == expected;
            let joined = exists|k: DependencyId| #[trigger]
                m.dependencies.contains_key(k) && m.dependencies[k].source_run_id == new.source_run_id
                    && m.dependencies[k].target_run_id == new.target_run_id;
            &&& r is Ok ==> heads && m.runs.contains_key(new.source_run_id) && m.runs.contains_key(
                new.target_run_id,
            ) && new.source_run_id != new.target_run_id && !joined && !m.dependencies.contains_key(
                new.dependency_id,
            )
            &&& r is Err ==> after == m
            &&& heads && m.runs.contains_key(new.source_run_id) && m.runs.contains_key(
                new.target_run_id,
            ) && !joined && !m.dependencies.contains_key(new.dependency_id) && !reachable(
                m.dependencies,
                new.target_run_id,
                new.source_run_id,
            ) ==> r is Ok
            &&& r is Ok ==> {
                &&& after == (StoreModel {
                    dependencies: m.dependencies.insert(new.dependency_id, row),
                    graph_heads: after.graph_heads,
                    ..m
                })
                &&& after.graph_heads == m.graph_heads.insert(
                    new.task_id,
                    after.graph_heads[new.task_id],
                )
                &&& after.graph_heads[new.task_id].graph_revision == expected + 1
                &&& after.graph_heads[new.task_id].task_id == m.graph_heads[new.task_id].task_id
                &&& row.created_graph_revision == expected
                &&& row.dependency_id == new.dependency_id
                &&& row.task_id == new.task_id
                &&& row.source_run_id == new.source_run_id
                &&& row.target_run_id == new.target_run_id
                &&& row.dependency_condition == new.dependency_condition
                &&& row.created_at_ms == new.created_at_ms
            }
        }),
{
    crate::store::graph::reaches_itself(m.dependencies, new.source_run_id);
    let pick = joins(new.source_run_id, new.target_run_id);
    assert forall|k: DependencyId| #[trigger] m.dependencies.contains_key(k) implies pick(
        m.dependencies[k],
    ) == (m.dependencies[k].source_run_id == new.source_run_id && m.dependencies[k].target_run_id
        == new.target_run_id) by {}
}

/// A binding that was added stands under its environment and its port, with every field that
/// it was made with, and no other binding changes.
pub proof fn bindings_are_recorded_whole(
    m: StoreModel,
    environment: EnvironmentId,
    new: Seq<NewResolvedBinding>,
    n: int,
    i: int,
)
    requires
        0 <= i < n <= new.len(),
        bindings_put(m, environment, new, n).1 is Ok,
    ensures
        ({
            let after = bindings_put(m, environment, new, n).0;
            let key = (environment, new[i].port_id@);
            let row = after.bindings[key];
            &&& !m.bindings.contains_key(key)
            &&& after.bindings.contains_key(key)
            &&& row.environment_id == environment
            &&& row.port_id == new[i].port_id
            &&& row.adapter_id == new[i].adapter_id
            &&& row.adapter_version == new[i].adapter_version
            &&& row.adapter_digest == new[i].adapter_digest
            &&& row.capabilities == new[i].capabilities
            &&& forall|k: (EnvironmentId, Seq<char>)| #[trigger]
                m.bindings.contains_key(k) ==> after.bindings.contains_key(k) && after.bindings[k]
                    == m.bindings[k]
            &&& forall|k: (EnvironmentId, Seq<char>)| #[trigger]
                after.bindings.contains_key(k) && !m.bindings.contains_key(k) ==> exists|j: int|
                    0 <= j < n && k == (environment, (#[trigger] new[j]).port_id@)
        }),
    decreases n,
{
    let before = bindings_put(m, environment, new, n - 1);
    let after = bindings_put(m, environment, new, n).0;
    if n > 1 {
        bindings_are_recorded_whole(m, environment, new, n - 1, if i < n - 1 { i } else { 0 });
    }
    assert forall|k: (EnvironmentId, Seq<char>)| #[trigger]
        after.bindings.contains_key(k) && !m.bindings.contains_key(k) implies exists|j: int|
        0 <= j < n && k == (environment, (#[trigger] new[j]).port_id@) by {
        if before.0.bindings.contains_key(k) {
            let j = choose|j: int| 0 <= j < n - 1 && k == (environment, (#[trigger] new[j]).port_id@);
            assert(k == (environment, new[j].port_id@));
        } else {
            assert(k == (environment, new[n - 1].port_id@));
        }
    }
}

/// A new event is recorded whole and not published yet, and takes its place in its stream. It
/// is refused where its id or its place is taken.
pub proof fn event_is_recorded_whole(m: StoreModel, new: NewOutboxEvent)
    ensures
        ({
            let (after, r) = event_added(m, new);
            let row = after.outbox[new.event_id];
            let place = (new.stream_key.text@, new.sequence);
            &&& r is Ok <==> !m.outbox.contains_key(new.event_id) && !m.outbox_sequences.contains_key(
                place,
            )
            &&& r matches Err(e) ==> after == m && e.code == ErrorCode::Conflict && e.retry
                == RetryClass::Never
            &&& r is Ok ==> {
                &&& after == (StoreModel {
                    outbox: m.outbox.insert(new.event_id, row),
                    outbox_sequences: after.outbox_sequences,
                    ..m
                })
                &&& after.outbox_sequences.dom() == m.outbox_sequences.dom().insert(place)
                &&& row.journal_published_at_ms is None
                &&& row.live_published_at_ms is None
                &&& row.event_id == new.event_id
                &&& row.event_type == new.event_type
                &&& row.event_version == new.event_version
                &&& row.stream_key == new.stream_key
                &&& row.sequence == new.sequence
                &&& row.occurred_at_ms == new.occurred_at_ms
                &&& row.run_id == new.run_id
                &&& row.task_id == new.task_id
                &&& row.session_id == new.session_id
                &&& row.effect_id == new.effect_id
                &&& row.causation_id == new.causation_id
                &&& row.correlation_id == new.correlation_id
                &&& row.sensitivity == new.sensitivity
                &&& row.retention == new.retention
                &&& row.payload == new.payload
            }
        }),
{
    let after = event_added(m, new).0;
    assert(after.outbox_sequences.dom() =~= m.outbox_sequences.dom().insert(
        (new.stream_key.text@, new.sequence),
    ) || event_added(m, new).1 is Err);
}

} // verus!
