//! What a change makes of a record: it is made exactly where the expectations are met, every
//! field that is named takes its value, and everything else stays as it was.

use vstd::prelude::*;

use crate::domain::{
    AdapterId, AdapterInstanceId, ConfigGenerationId, ConformanceState, DaemonInstanceId,
    EffectId, EffectState, EventId, LeaseEnforcementState, LeaseId, PublishKind, ReservationId,
    ReservationState, RunId, TaskId, TimerId, TimerState, TurnId, WorkspaceAccessMode,
};
use crate::errors::{ErrorCode, ErrorView, RetryClass};
use crate::store::{committed, epoch_set, may_write};
use crate::store::adapters::{conformance_set, instance_changed, AdapterInstanceStatePatch};
use crate::store::config::{active_changed, generation_states_set};
use crate::store::effects::{
    effect_changed, effect_claimed, reservation_changed, timer_changed, EffectPatch,
    ReservationPatch, TimerPatch,
};
use crate::store::graph::{head_changed, head_ensured};
use crate::store::runs::{run_changed, RunCas, RunPatch};
use crate::store::state::StoreModel;
use crate::store::streams::{event_published, number_allocated};
use crate::store::turns::{turn_changed, LoopTurnPatch};
use crate::store::workspaces::{lease_changed, LeasePatch};

verus! {

/// A run is changed exactly where it is at the expected revision, and in the expected state
/// and cancellation epoch where these are named. Then every field that the patch names has
/// its value, every other one is as it was, and no other run changes.
pub proof fn run_is_changed_as_asked(m: StoreModel, id: RunId, expect: RunCas, patch: RunPatch)
    ensures
        ({
            let (after, done) = run_changed(m, id, expect, patch);
            let old = m.runs[id];
            let row = after.runs[id];
            &&& done <==> m.runs.contains_key(id) && old.run_revision == expect.run_revision && (
            expect.state matches Some(s) ==> old.state == s) && (expect.cancellation_epoch matches Some(e)
                ==> old.cancellation_epoch == e)
            &&& !done ==> after == m
            &&& done ==> after == (StoreModel { runs: m.runs.insert(id, row), ..m })
            &&& done ==> {
                &&& row.state == (if let Some(v) = patch.state { v } else { old.state })
                &&& row.recovery == (if let Some(v) = patch.recovery { v } else { old.recovery })
                &&& row.loop_epoch == (if let Some(v) = patch.loop_epoch { v } else { old.loop_epoch })
                &&& row.step_sequence
                    == (if let Some(v) = patch.step_sequence { v } else { old.step_sequence })
                &&& row.input_event_cursor
                    == (if let Some(v) = patch.input_event_cursor { v } else { old.input_event_cursor })
                &&& row.cancellation_epoch
                    == (if let Some(v) = patch.cancellation_epoch { v } else { old.cancellation_epoch })
                &&& row.resolved_environment_id
                    == (if patch.resolved_environment_id is Some { patch.resolved_environment_id } else { old.resolved_environment_id })
                &&& row.terminal_reason
                    == (if patch.terminal_reason is Some { patch.terminal_reason } else { old.terminal_reason })
                &&& row.output_ref == (if patch.output_ref is Some { patch.output_ref } else { old.output_ref })
                &&& row.current_turn_id
                    == (if patch.current_turn_id is Some { patch.current_turn_id } else { old.current_turn_id })
                &&& row.claim_owner == (if let Some(c) = patch.claim { Some(c.owner) } else { old.claim_owner })
                &&& row.claim_token == (if let Some(c) = patch.claim { Some(c.token) } else { old.claim_token })
                &&& row.claim_expires_ms
                    == (if let Some(c) = patch.claim { Some(c.expires_unix_ms) } else { old.claim_expires_ms })
                &&& row.claim_daemon_epoch
                    == (if let Some(c) = patch.claim { Some(c.daemon_epoch) } else { old.claim_daemon_epoch })
                &&& row.run_revision == (if patch.bump_revision
                    && old.run_revision < u64::MAX { (old.run_revision + 1) as u64 } else { old.run_revision })
                &&& row.run_id == old.run_id
                &&& row.task_id == old.task_id
                &&& row.session_id == old.session_id
                &&& row.parent_run_id == old.parent_run_id
                &&& row.created_at_ms == old.created_at_ms
                &&& row.updated_at_ms == old.updated_at_ms
            }
        }),
{
}

/// An effect is changed exactly where it is in the expected state and, where one is named,
/// under the expected token. Then every field that the patch names has its value, every other
/// one is as it was, and no other effect changes.
pub proof fn effect_is_changed_as_asked(
    m: StoreModel,
    id: EffectId,
    state: EffectState,
    token: Option<u64>,
    patch: EffectPatch,
)
    ensures
        ({
            let (after, done) = effect_changed(m, id, state, token, patch);
            let old = m.effects[id];
            let row = after.effects[id];
            &&& done <==> m.effects.contains_key(id) && old.state == state && (token matches Some(t)
                ==> old.executor_fencing_token == Some(t))
            &&& !done ==> after == m
            &&& done ==> after == (StoreModel { effects: m.effects.insert(id, row), ..m })
            &&& done ==> {
                &&& row.state == (if let Some(v) = patch.state { v } else { old.state })
                &&& row.executor_id == (if patch.executor_id is Some { patch.executor_id } else { old.executor_id })
                &&& row.executor_fencing_token
                    == (if patch.executor_fencing_token is Some { patch.executor_fencing_token } else { old.executor_fencing_token })
                &&& row.daemon_fencing_epoch
                    == (if patch.daemon_fencing_epoch is Some { patch.daemon_fencing_epoch } else { old.daemon_fencing_epoch })
                &&& row.lease_expires_ms
                    == (if patch.lease_expires_ms is Some { patch.lease_expires_ms } else { old.lease_expires_ms })
                &&& row.provider_operation_ref
                    == (if patch.provider_operation_ref is Some { patch.provider_operation_ref } else { old.provider_operation_ref })
                &&& row.result_ref == (if patch.result_ref is Some { patch.result_ref } else { old.result_ref })
                &&& row.error_code == (if patch.error_code is Some { patch.error_code } else { old.error_code })
                &&& row.effect_id == old.effect_id
                &&& row.run_id == old.run_id
                &&& row.step_sequence == old.step_sequence
                &&& row.decision_id == old.decision_id
                &&& row.operation == old.operation
                &&& row.request_hash == old.request_hash
                &&& row.request_payload == old.request_payload
                &&& row.effect_class == old.effect_class
                &&& row.idempotency_semantics == old.idempotency_semantics
                &&& row.reconciliation_semantics == old.reconciliation_semantics
                &&& row.cancellation_semantics == old.cancellation_semantics
                &&& row.compensation_capability == old.compensation_capability
                &&& row.adapter_id == old.adapter_id
                &&& row.adapter_version == old.adapter_version
                &&& row.adapter_digest == old.adapter_digest
                &&& row.created_at_ms == old.created_at_ms
                &&& row.updated_at_ms == old.updated_at_ms
            }
        }),
{
}

/// An effect is claimed exactly where it is prepared, or claimed under a lease that has run
/// out. Then the executor holds it under the next token, until the lease ends, and nothing
/// else of it changes.
pub proof fn effect_is_claimed_as_asked(
    m: StoreModel,
    id: EffectId,
    executor_id: String,
    daemon_epoch: u64,
    lease_expires_ms: i64,
    now_ms: i64,
)
    requires
        m.effects[id].executor_fencing_token != Some(u64::MAX),
    ensures
        ({
            let (after, token) = effect_claimed(m, id, executor_id, daemon_epoch, lease_expires_ms, now_ms);
            let old = m.effects[id];
            let row = after.effects[id];
            &&& token is Some <==> m.effects.contains_key(id) && (old.state == EffectState::Prepared
                || old.state == EffectState::Claimed && (old.lease_expires_ms matches Some(l) && l
                <= now_ms))
            &&& token is None ==> after == m
            &&& token matches Some(t) ==> {
                &&& after == (StoreModel { effects: m.effects.insert(id, row), ..m })
                &&& t == (if let Some(before) = old.executor_fencing_token { before + 1 } else { 1 })
                &&& row.executor_fencing_token == Some(t)
                &&& row.state == EffectState::Claimed
                &&& row.executor_id == Some(executor_id)
                &&& row.daemon_fencing_epoch == Some(daemon_epoch)
                &&& row.lease_expires_ms == Some(lease_expires_ms)
                &&& row.updated_at_ms == now_ms
                &&& row.effect_id == old.effect_id
                &&& row.run_id == old.run_id
                &&& row.step_sequence == old.step_sequence
                &&& row.decision_id == old.decision_id
                &&& row.operation == old.operation
                &&& row.request_hash == old.request_hash
                &&& row.request_payload == old.request_payload
                &&& row.effect_class == old.effect_class
                &&& row.idempotency_semantics == old.idempotency_semantics
                &&& row.reconciliation_semantics == old.reconciliation_semantics
                &&& row.cancellation_semantics == old.cancellation_semantics
                &&& row.compensation_capability == old.compensation_capability
                &&& row.adapter_id == old.adapter_id
                &&& row.adapter_version == old.adapter_version
                &&& row.adapter_digest == old.adapter_digest
                &&& row.provider_operation_ref == old.provider_operation_ref
                &&& row.result_ref == old.result_ref
                &&& row.error_code == old.error_code
                &&& row.created_at_ms == old.created_at_ms
            }
        }),
{
}

/// A timer is changed exactly where it is in the expected state at the expected version. Then
/// its version moves on by one, every field that the patch names has its value, and every
/// other one is as it was.
pub proof fn timer_is_changed_as_asked(
    m: StoreModel,
    id: TimerId,
    state: TimerState,
    version: u64,
    patch: TimerPatch,
)
    ensures
        ({
            let (after, done) = timer_changed(m, id, state, version, patch);
            let old = m.timers[id];
            let row = after.timers[id];
            &&& done <==> m.timers.contains_key(id) && old.state == state && old.version == version
            &&& !done ==> after == m
            &&& done ==> after == (StoreModel { timers: m.timers.insert(id, row), ..m })
            &&& done ==> {
                &&& row.version == (if version < u64::MAX { (version + 1) as u64 } else { version })
                &&& row.state == (if let Some(v) = patch.state { v } else { old.state })
                &&& row.due_at_ms == (if let Some(v) = patch.due_at_ms { v } else { old.due_at_ms })
                &&& row.claim_owner == (if patch.claim_owner is Some { patch.claim_owner } else { old.claim_owner })
                &&& row.claim_fencing_token
                    == (if patch.claim_fencing_token is Some { patch.claim_fencing_token } else { old.claim_fencing_token })
                &&& row.claim_daemon_epoch
                    == (if patch.claim_daemon_epoch is Some { patch.claim_daemon_epoch } else { old.claim_daemon_epoch })
                &&& row.timer_id == old.timer_id
                &&& row.run_id == old.run_id
                &&& row.timer_kind == old.timer_kind
                &&& row.payload == old.payload
                &&& row.created_at_ms == old.created_at_ms
                &&& row.updated_at_ms == old.updated_at_ms
            }
        }),
{
}

/// A reservation is changed exactly where it is in the expected state, as the patch says and
/// in nothing else.
pub proof fn reservation_is_changed_as_asked(
    m: StoreModel,
    id: ReservationId,
    state: ReservationState,
    patch: ReservationPatch,
)
    ensures
        ({
            let (after, done) = reservation_changed(m, id, state, patch);
            let old = m.reservations[id];
            let row = after.reservations[id];
            &&& done <==> m.reservations.contains_key(id) && old.state == state
            &&& !done ==> after == m
            &&& done ==> after == (StoreModel { reservations: m.reservations.insert(id, row), ..m })
            &&& done ==> {
                &&& row.state == (if let Some(v) = patch.state { v } else { old.state })
                &&& row.fencing_token
                    == (if let Some(v) = patch.fencing_token { v } else { old.fencing_token })
                &&& row.reservation_id == old.reservation_id
                &&& row.run_id == old.run_id
                &&& row.resource_type == old.resource_type
                &&& row.amount == old.amount
                &&& row.unit == old.unit
                &&& row.parent_reservation_id == old.parent_reservation_id
                &&& row.created_at_ms == old.created_at_ms
                &&& row.updated_at_ms == old.updated_at_ms
            }
        }),
{
}

/// A lease is changed only at the expected epoch, as the patch says and in nothing else. It is
/// refused where the new owner is missing, or where it would be a second lease to write to the
/// workspace alone.
pub proof fn lease_is_changed_as_asked(m: StoreModel, id: LeaseId, epoch: u64, patch: LeasePatch)
    ensures
        ({
            let (after, r) = lease_changed(m, id, epoch, patch);
            let old = m.leases[id];
            let row = after.leases[id];
            let fits = m.leases.contains_key(id) && old.lease_epoch == epoch;
            &&& !fits ==> r == Ok::<bool, ErrorView>(false)
            &&& fits ==> r is Err || r == Ok::<bool, ErrorView>(true)
            &&& r != Ok::<bool, ErrorView>(true) ==> after == m
            &&& fits && (patch.owner_run_id matches Some(o) && !m.runs.contains_key(o)) ==> (r matches Err(e)
                && e.code == ErrorCode::FailedPrecondition)
            &&& r matches Err(e) ==> e.retry == RetryClass::Never && (e.code
                == ErrorCode::FailedPrecondition || e.code == ErrorCode::Conflict)
            &&& r == Ok::<bool, ErrorView>(true) ==> {
                &&& after == (StoreModel { leases: m.leases.insert(id, row), ..m })
                &&& row.enforcement_state
                    == (if let Some(v) = patch.enforcement_state { v } else { old.enforcement_state })
                &&& row.owner_run_id == (if let Some(v) = patch.owner_run_id { v } else { old.owner_run_id })
                &&& row.mode == (if let Some(v) = patch.mode { v } else { old.mode })
                &&& row.delegated_from
                    == (if let Some(v) = patch.delegated_from { v } else { old.delegated_from })
                &&& row.lease_epoch == (if let Some(v) = patch.lease_epoch { v } else { old.lease_epoch })
                &&& row.lease_id == old.lease_id
                &&& row.workspace_id == old.workspace_id
                &&& row.created_at_ms == old.created_at_ms
                &&& row.updated_at_ms == old.updated_at_ms
            }
        }),
{
}

/// A lease that does not give the right to write alone, or whose workspace has no other lease
/// that does, is changed where its owner is there.
pub proof fn lease_changes_are_granted(m: StoreModel, id: LeaseId, patch: LeasePatch)
    requires
        m.leases.contains_key(id),
        patch.owner_run_id matches Some(o) ==> m.runs.contains_key(o),
        forall|k: LeaseId| #[trigger]
            m.leases.contains_key(k) && k != id ==> m.leases[k].lease_id != id && !(m.leases[k].workspace_id
                == m.leases[id].workspace_id && m.leases[k].mode == WorkspaceAccessMode::ExclusiveWrite
                && m.leases[k].enforcement_state == LeaseEnforcementState::Active),
        m.leases[id].lease_id == id,
    ensures
        lease_changed(m, id, m.leases[id].lease_epoch, patch).1 == Ok::<bool, ErrorView>(true),
{
}

/// An adapter instance is changed exactly where it is in the expected state and the new state
/// is a known one, as the patch says and in nothing else.
pub proof fn instance_is_changed_as_asked(
    m: StoreModel,
    id: AdapterInstanceId,
    state: Seq<char>,
    patch: AdapterInstanceStatePatch,
)
    ensures
        ({
            let (after, r) = instance_changed(m, id, state, patch);
            let old = m.instances[id];
            let row = after.instances[id];
            let fits = m.instances.contains_key(id) && old.state@ == state;
            let known = patch.state matches Some(s) ==> s@ == "starting"@ || s@ == "ready"@ || s@
                == "exited"@ || s@ == "failed"@;
            &&& !fits ==> r == Ok::<bool, ErrorView>(false)
            &&& fits && !known ==> (r matches Err(e) && e.code == ErrorCode::FailedPrecondition)
            &&& fits && known ==> r == Ok::<bool, ErrorView>(true)
            &&& !(fits && known) ==> after == m
            &&& fits && known ==> {
                &&& after == (StoreModel { instances: m.instances.insert(id, row), ..m })
                &&& row.state == (if let Some(v) = patch.state { v } else { old.state })
                &&& row.exit_reason == (if patch.exit_reason is Some { patch.exit_reason } else { old.exit_reason })
                &&& row.last_heartbeat_ms
                    == (if patch.last_heartbeat_ms is Some { patch.last_heartbeat_ms } else { old.last_heartbeat_ms })
                &&& row.ended_at_ms == (if patch.ended_at_ms is Some { patch.ended_at_ms } else { old.ended_at_ms })
                &&& row.adapter_instance_id == old.adapter_instance_id
                &&& row.adapter_id == old.adapter_id
                &&& row.adapter_version == old.adapter_version
                &&& row.bundle_digest == old.bundle_digest
                &&& row.daemon_instance_id == old.daemon_instance_id
                &&& row.pid == old.pid
                &&& row.process_start_identity == old.process_start_identity
                &&& row.started_at_ms == old.started_at_ms
            }
        }),
{
}

/// A turn is changed exactly where it is in the expected state and the new state is a known
/// one, and in nothing but its state.
pub proof fn turn_is_changed_as_asked(m: StoreModel, id: TurnId, state: Seq<char>, patch: LoopTurnPatch)
    ensures
        ({
            let (after, r) = turn_changed(m, id, state, patch);
            let old = m.turns[id];
            let row = after.turns[id];
            let fits = m.turns.contains_key(id) && old.state@ == state;
            let known = patch.state matches Some(s) ==> s@ == "issued"@ || s@ == "accepted"@ || s@
                == "stale"@;
            &&& !fits ==> r == Ok::<bool, ErrorView>(false)
            &&& fits && !known ==> (r matches Err(e) && e.code == ErrorCode::FailedPrecondition)
            &&& fits && known ==> r == Ok::<bool, ErrorView>(true)
            &&& !(fits && known) ==> after == m
            &&& fits && known ==> {
                &&& after == (StoreModel { turns: m.turns.insert(id, row), ..m })
                &&& row.state == (if let Some(v) = patch.state { v } else { old.state })
                &&& row.turn_id == old.turn_id
                &&& row.run_id == old.run_id
                &&& row.run_revision == old.run_revision
                &&& row.loop_epoch == old.loop_epoch
                &&& row.step_sequence == old.step_sequence
                &&& row.input_event_cursor == old.input_event_cursor
                &&& row.issued_at_ms == old.issued_at_ms
            }
        }),
{
}

/// The conformance state of a registration that is there becomes the given one, and nothing
/// else changes.
pub proof fn conformance_is_set_as_asked(
    m: StoreModel,
    id: AdapterId,
    version: Seq<char>,
    digest: Seq<char>,
    state: ConformanceState,
)
    ensures
        ({
            let key = (id, version, digest);
            let (after, r) = conformance_set(m, key, state);
            let old = m.registrations[key];
            let row = after.registrations[key];
            &&& r is Ok <==> m.registrations.contains_key(key)
            &&& r matches Err(e) ==> after == m && e.code == ErrorCode::NotFound
            &&& r is Ok ==> {
                &&& after == (StoreModel { registrations: m.registrations.insert(key, row), ..m })
                &&& row.conformance_state == state
                &&& row.adapter_id == old.adapter_id
                &&& row.version == old.version
                &&& row.bundle_digest == old.bundle_digest
                &&& row.manifest_digest == old.manifest_digest
                &&& row.runtime_type == old.runtime_type
                &&& row.implemented_ports == old.implemented_ports
                &&& row.capabilities == old.capabilities
                &&& row.trust_state == old.trust_state
                &&& row.created_at_ms == old.created_at_ms
            }
        }),
{
}

/// The states of a configuration that is there become the given ones where these are known,
/// and nothing else of it changes.
pub proof fn generation_states_are_set_as_asked(
    m: StoreModel,
    id: ConfigGenerationId,
    validation: Option<String>,
    test: Option<String>,
)
    ensures
        ({
            let (after, r) = generation_states_set(m, id, validation, test);
            let old = m.config_generations[id];
            let row = after.config_generations[id];
            let valid = validation matches Some(v) ==> v@ == "proposed"@ || v@ == "validated"@ || v@
                == "rejected"@;
            let tested = test matches Some(t) ==> t@ == "untested"@ || t@ == "passed"@ || t@ == "failed"@;
            &&& r is Ok <==> m.config_generations.contains_key(id) && valid && tested
            &&& !m.config_generations.contains_key(id) ==> after == m && (r matches Err(e) && e.code
                == ErrorCode::NotFound)
            &&& m.config_generations.contains_key(id) && !(valid && tested) ==> (r matches Err(e) && e.code
                == ErrorCode::FailedPrecondition)
            &&& m.config_generations.contains_key(id) ==> {
                &&& after == (StoreModel {
                    config_generations: m.config_generations.insert(id, row),
                    ..m
                })
                &&& row.test_state == (if r is Ok && test is Some { test->0 } else { old.test_state })
                &&& row.validation_state == (if valid && validation is Some {
                    validation->0
                } else {
                    old.validation_state
                })
                &&& row.generation_id == old.generation_id
                &&& row.digest == old.digest
                &&& row.document == old.document
                &&& row.created_by_actor_id == old.created_by_actor_id
                &&& row.created_at_ms == old.created_at_ms
            }
        }),
{
    let (after, r) = generation_states_set(m, id, validation, test);
    if m.config_generations.contains_key(id) {
        assert(m.config_generations.insert(id, m.config_generations[id]) =~= m.config_generations);
        assert(after.config_generations =~= m.config_generations.insert(
            id,
            after.config_generations[id],
        ));
    }
}

/// A configuration that is there becomes the active one exactly at the expected revision,
/// which is nought before the first one, and the revision moves on by one.
pub proof fn configuration_is_activated_as_asked(
    m: StoreModel,
    expected: u64,
    id: ConfigGenerationId,
    at_ms: i64,
)
    requires
        expected < u64::MAX,
    ensures
        ({
            let (after, r) = active_changed(m, expected, id, at_ms);
            let revision = if let Some(a) = m.active_config { a.revision } else { 0 };
            &&& revision != expected ==> r == Ok::<bool, ErrorView>(false) && after == m
            &&& revision == expected && !m.config_generations.contains_key(id) ==> after == m && (
            r matches Err(e) && e.code == ErrorCode::NotFound)
            &&& revision == expected && m.config_generations.contains_key(id) ==> {
                &&& r == Ok::<bool, ErrorView>(true)
                &&& after == (StoreModel { active_config: after.active_config, ..m })
                &&& after.active_config matches Some(a) && a.generation_id == id && a.revision == expected
                    + 1 && a.activated_at_ms == at_ms
            }
        }),
{
}

/// An event that is there is marked with the time, which has moved on, as published to the
/// journal or live, and is else as it was.
pub proof fn event_is_published_as_asked(m: StoreModel, id: EventId, kind: PublishKind)
    requires
        m.logical_now_ms < i64::MAX,
    ensures
        ({
            let (after, r) = event_published(m, id, kind);
            let old = m.outbox[id];
            let row = after.outbox[id];
            &&& after.logical_now_ms == m.logical_now_ms + 1
            &&& r is Ok <==> m.outbox.contains_key(id)
            &&& r matches Err(e) ==> e.code == ErrorCode::NotFound && after == (StoreModel {
                logical_now_ms: after.logical_now_ms,
                ..m
            })
            &&& r is Ok ==> {
                &&& after == (StoreModel {
                    outbox: m.outbox.insert(id, row),
                    logical_now_ms: after.logical_now_ms,
                    ..m
                })
                &&& row.journal_published_at_ms == (if kind == PublishKind::Journal {
                    Some(after.logical_now_ms)
                } else {
                    old.journal_published_at_ms
                })
                &&& row.live_published_at_ms == (if kind == PublishKind::Live {
                    Some(after.logical_now_ms)
                } else {
                    old.live_published_at_ms
                })
                &&& row.event_id == old.event_id
                &&& row.event_type == old.event_type
                &&& row.event_version == old.event_version
                &&& row.stream_key == old.stream_key
                &&& row.sequence == old.sequence
                &&& row.occurred_at_ms == old.occurred_at_ms
                &&& row.run_id == old.run_id
                &&& row.task_id == old.task_id
                &&& row.session_id == old.session_id
                &&& row.effect_id == old.effect_id
                &&& row.causation_id == old.causation_id
                &&& row.correlation_id == old.correlation_id
                &&& row.sensitivity == old.sensitivity
                &&& row.retention == old.retention
                &&& row.payload == old.payload
            }
        }),
{
}

/// A stream gives out its numbers one by one from one on, each stream its own.
pub proof fn streams_count_from_one(m: StoreModel, stream: Seq<char>)
    requires
        m.stream_heads.contains_key(stream) ==> m.stream_heads[stream] < u64::MAX,
    ensures
        ({
            let (after, n) = number_allocated(m, stream);
            &&& n == (if m.stream_heads.contains_key(stream) {
                m.stream_heads[stream] + 1
            } else {
                1
            })
            &&& after == (StoreModel { stream_heads: m.stream_heads.insert(stream, n), ..m })
        }),
{
}

/// A graph has a head once it is asked for, which begins at revision nought, and the head moves
/// on by one exactly at the expected revision.
pub proof fn heads_count_from_nought(m: StoreModel, task: TaskId, expected: u64)
    requires
        expected < u64::MAX,
    ensures
        ({
            let (made, head) = head_ensured(m, task);
            &&& made.graph_heads.contains_key(task) && made.graph_heads[task] == head
            &&& m.graph_heads.contains_key(task) ==> made == m
            &&& !m.graph_heads.contains_key(task) ==> head.graph_revision == 0 && head.task_id == task
                && made == (StoreModel { graph_heads: m.graph_heads.insert(task, head), ..m })
            &&& head_changed(m, task, expected).1 <==> m.graph_heads.contains_key(task)
                && m.graph_heads[task].graph_revision == expected
            &&& !head_changed(m, task, expected).1 ==> head_changed(m, task, expected).0 == m
            &&& head_changed(m, task, expected).1 ==> {
                let after = head_changed(m, task, expected).0;
                &&& after.graph_heads[task].graph_revision == expected + 1
                &&& after.graph_heads[task].task_id == m.graph_heads[task].task_id
                &&& after == (StoreModel {
                    graph_heads: m.graph_heads.insert(task, after.graph_heads[task]),
                    ..m
                })
            }
        }),
{
}

/// A writer may begin exactly at the recorded epoch, and never at nought. A fence that is
/// acquired is the next epoch of its instance, and what was recorded stays.
pub proof fn epochs_are_fenced(m: StoreModel, epoch: u64, instance: DaemonInstanceId)
    ensures
        may_write(m, epoch) <==> epoch != 0 && epoch == m.daemon_epoch,
        epoch != 0 ==> ({
            let after = epoch_set(m, epoch, instance);
            &&& after.daemon_epoch == epoch
            &&& after.daemon_fence matches Some(f) && f.epoch == epoch && f.instance_id == instance
            &&& may_write(after, epoch)
            &&& m.revision < u64::MAX ==> after.revision == m.revision + 1
            &&& after == (StoreModel {
                daemon_epoch: after.daemon_epoch,
                daemon_fence: after.daemon_fence,
                revision: after.revision,
                ..m
            })
        }),
        ({
            let after = epoch_set(m, 0, instance);
            after.daemon_epoch == 0 && after.daemon_fence is None
        }),
{
}

/// A commit takes effect as a whole exactly where the store is at the revision that the
/// transaction began with, and moves the revision on; else it is refused as a conflict that
/// may be tried again.
pub proof fn commits_are_all_or_nothing(m: StoreModel, state: StoreModel, base: u64)
    requires
        m.revision < u64::MAX,
    ensures
        ({
            let (after, r) = committed(m, state, base);
            &&& r is Ok <==> m.revision == base
            &&& r is Ok ==> after == (StoreModel { revision: (m.revision + 1) as u64, ..state })
            &&& r matches Err(e) ==> after == m && e.code == ErrorCode::Conflict && e.retry
                == RetryClass::Safe
        }),
{
}

} // verus!
