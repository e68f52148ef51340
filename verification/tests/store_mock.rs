//! The store in memory: visibility, conditions, references and literals.

use agent_os::domain::{
    ActorId, AdapterId, AdapterInstanceId, AgentSpecId, ApprovalRequestId, ApprovalState,
    ArtifactId, Bytes, CapabilityGrantId, CommandId, ConfigGenerationId, ConformanceState,
    DaemonInstanceId, DecisionId, DelegationChainId, DependencyCondition, DependencyId, DeviceId,
    EffectClass, EffectId, EffectState, EnvironmentId, EventCursor, EventId, EventStreamKey,
    IdempotencyKey, IdempotencySemantics, LeaseEnforcementState, LeaseId, PrincipalId, PublishKind,
    ReconciliationSemantics, RecoveryDisposition, ReservationId, ReservationState, RetentionClass,
    RunId, RunState, SensitivityClass, SessionId, TaskId, TimerId, TimerState, TrustState, TurnId,
    WorkspaceAccessMode, WorkspaceId,
};
use agent_os::errors::{ErrorCode, KernelError, RetryClass};
use agent_os::ids::DeterministicIds;
use agent_os::store::adapters::AdapterInstanceStatePatch;
use agent_os::store::effects::{EffectPatch, ReservationPatch, TimerPatch};
use agent_os::store::rows::{
    NewAdapterInstance, NewAdapterRegistration, NewAgentSpec, NewApprovalRequest,
    NewApprovalResponse, NewArtifact, NewCapabilityGrant, NewConfigGeneration, NewConformanceReport,
    NewDecision, NewDelegationHop, NewEffect, NewIdempotencyRecord, NewLoopTurn, NewOutboxEvent,
    NewReservation, NewResolvedBinding, NewResolvedEnvironment, NewRun, NewRunDependency,
    NewSession, NewTask, NewTimer, NewWorkspace, NewWorkspaceLease,
};
use agent_os::store::runs::{RunCas, RunClaim, RunPatch};
use agent_os::store::turns::LoopTurnPatch;
use agent_os::store::workspaces::LeasePatch;
use agent_os::store::{MockStore, MockWriteTxn, TxContext};

const SEED_MS: i64 = 1_700_000_000_000;

fn context_with_epoch(ids: &mut DeterministicIds, epoch: u64) -> TxContext {
    TxContext {
        daemon_epoch: epoch,
        principal_id: PrincipalId::new(ids),
        command_id: CommandId::new(ids),
        correlation_id: None,
    }
}

fn stream_key(run: RunId) -> EventStreamKey {
    EventStreamKey::new(&format!("run/{}", run.number))
}

fn cursor(run: RunId) -> EventCursor {
    EventCursor::new(stream_key(run), 0)
}

fn bytes(data: &[u8]) -> Bytes {
    Bytes::new(data.to_vec())
}

struct Fixture {
    ids: DeterministicIds,
    store: MockStore,
    session_id: SessionId,
    task_id: TaskId,
    run_id: RunId,
    effect_id: EffectId,
    event_id: EventId,
    principal_id: PrincipalId,
}

fn fixture() -> Fixture {
    let mut ids = DeterministicIds::new(SEED_MS);
    let mut store = MockStore::new();
    store.set_daemon_epoch(1, DaemonInstanceId::new(&mut ids));
    Fixture {
        session_id: SessionId::new(&mut ids),
        task_id: TaskId::new(&mut ids),
        run_id: RunId::new(&mut ids),
        effect_id: EffectId::new(&mut ids),
        event_id: EventId::new(&mut ids),
        principal_id: PrincipalId::new(&mut ids),
        store,
        ids,
    }
}

impl Fixture {
    fn begin(&mut self) -> MockWriteTxn {
        let ctx = TxContext {
            daemon_epoch: 1,
            principal_id: PrincipalId::new(&mut self.ids),
            command_id: CommandId::new(&mut self.ids),
            correlation_id: Some("corr-1".to_string()),
        };
        self.store.begin_write(ctx).expect("begin write")
    }

    fn new_session(&self) -> NewSession {
        NewSession {
            session_id: self.session_id,
            principal_id: self.principal_id,
            created_at_ms: SEED_MS,
            metadata: None,
        }
    }

    fn new_task(&mut self) -> NewTask {
        NewTask {
            task_id: self.task_id,
            session_id: Some(self.session_id),
            created_by_actor_id: ActorId::new(&mut self.ids),
            task_kind: "agent_run".to_string(),
            payload: bytes(&[0x01, 0x02]),
            created_at_ms: SEED_MS,
        }
    }

    fn new_run(&self) -> NewRun {
        NewRun {
            run_id: self.run_id,
            task_id: self.task_id,
            session_id: Some(self.session_id),
            parent_run_id: None,
            state: RunState::Created,
            recovery: RecoveryDisposition::Normal,
            loop_epoch: 0,
            step_sequence: 0,
            input_event_cursor: cursor(self.run_id),
            cancellation_epoch: 0,
            resolved_environment_id: None,
            created_at_ms: SEED_MS,
        }
    }

    fn new_effect(&mut self) -> NewEffect {
        NewEffect {
            effect_id: self.effect_id,
            run_id: self.run_id,
            step_sequence: 0,
            decision_id: DecisionId::new(&mut self.ids),
            operation: "fs.write".to_string(),
            request_hash: "hash-1".to_string(),
            request_payload: bytes(&[0x00]),
            effect_class: EffectClass::LocalMutation,
            idempotency_semantics: IdempotencySemantics::IdempotencyKeySupported,
            reconciliation_semantics: ReconciliationSemantics::StatusLookup,
            cancellation_semantics: "abandon".to_string(),
            compensation_capability: None,
            adapter_id: AdapterId::new(&mut self.ids),
            adapter_version: "1.0.0".to_string(),
            adapter_digest: "digest-1".to_string(),
            state: EffectState::Prepared,
            created_at_ms: SEED_MS,
        }
    }

    fn new_outbox(&self, sequence: u64) -> NewOutboxEvent {
        NewOutboxEvent {
            event_id: self.event_id,
            event_type: "run.created".to_string(),
            event_version: 1,
            stream_key: stream_key(self.run_id),
            sequence,
            occurred_at_ms: SEED_MS,
            run_id: Some(self.run_id),
            task_id: Some(self.task_id),
            session_id: Some(self.session_id),
            effect_id: None,
            causation_id: None,
            correlation_id: Some("corr-1".to_string()),
            sensitivity: SensitivityClass::Internal,
            retention: RetentionClass::Audit,
            payload: bytes(&[0x07]),
        }
    }

    fn new_idempotency(&mut self, key: &IdempotencyKey, digest: &str) -> NewIdempotencyRecord {
        NewIdempotencyRecord {
            principal_id: self.principal_id,
            idempotency_key: key.clone(),
            request_digest: digest.to_string(),
            command_id: CommandId::new(&mut self.ids),
            outcome_code: "ok".to_string(),
            outcome_payload: bytes(&[0x00]),
            created_at_ms: SEED_MS,
        }
    }

    fn seed_base(&mut self) {
        let mut txn = self.begin();
        txn.state.insert_session(self.new_session()).expect("session");
        txn.state.insert_task(self.new_task()).expect("task");
        txn.state.insert_run(self.new_run()).expect("run");
        txn.commit(&mut self.store).expect("commit");
    }
}

fn assert_error(error: KernelError, code: ErrorCode) {
    assert_eq!(error.code(), code);
    assert_eq!(error.retry_class(), RetryClass::Never);
}

#[test]
fn committed_mutations_are_visible_atomically() {
    let mut f = fixture();
    let key = IdempotencyKey::new("command-1");

    let mut txn = f.begin();
    txn.state.insert_session(f.new_session()).expect("session");
    txn.state.insert_task(f.new_task()).expect("task");
    txn.state.insert_run(f.new_run()).expect("run");
    let sequence = txn.state.allocate(stream_key(f.run_id));
    assert_eq!(sequence, 1);
    txn.state.insert_outbox(f.new_outbox(sequence)).expect("outbox");
    txn.state.insert_effect(f.new_effect()).expect("effect");
    assert!(txn.state.lookup_idempotency(f.principal_id, &key).is_none());
    let record = f.new_idempotency(&key, "digest-1");
    txn.state.insert_idempotency(record).expect("idempotency");

    {
        let read = f.store.begin_read();
        assert!(read.state.get_run(f.run_id).is_none());
        assert!(read.state.get_task(f.task_id).is_none());
        assert!(read.state.get_session(f.session_id).is_none());
        assert!(read.state.get_effect(f.effect_id).is_none());
    }

    txn.commit(&mut f.store).expect("commit");

    let read = f.store.begin_read();
    let run = read.state.get_run(f.run_id).expect("run row");
    assert_eq!(run.state, RunState::Created);
    assert_eq!(run.run_revision, 0);
    assert_eq!(run.input_event_cursor.stream_key.text, stream_key(f.run_id).text);
    assert_eq!(run.input_event_cursor.sequence, 0);
    assert!(read.state.get_task(f.task_id).is_some());
    assert!(read.state.get_session(f.session_id).is_some());
    assert!(read.state.get_effect(f.effect_id).is_some());

    let verify = f.begin();
    let unpublished = verify.state.scan_unpublished(10);
    assert_eq!(unpublished.len(), 1);
    assert_eq!(unpublished[0].event_id, f.event_id);
    assert_eq!(unpublished[0].sequence, 1);
    assert!(unpublished[0].journal_published_at_ms.is_none());
    let replay = verify.state.lookup_idempotency(f.principal_id, &key).expect("stored record");
    assert_eq!(replay.outcome_code, "ok");
    assert_eq!(replay.request_digest, "digest-1");
    verify.rollback();
}

#[test]
fn dropped_transaction_leaves_no_state() {
    let mut f = fixture();
    {
        let mut txn = f.begin();
        txn.state.insert_session(f.new_session()).expect("session");
        txn.state.insert_task(f.new_task()).expect("task");
        txn.state.insert_run(f.new_run()).expect("run");
        drop(txn);
    }

    let read = f.store.begin_read();
    assert!(read.state.get_run(f.run_id).is_none());
    assert!(read.state.get_task(f.task_id).is_none());
    assert!(read.state.get_session(f.session_id).is_none());
}

#[test]
fn cas_conditions_reject_stale_expectations() {
    let mut f = fixture();
    let mut txn = f.begin();
    txn.state.insert_session(f.new_session()).expect("session");
    txn.state.insert_task(f.new_task()).expect("task");
    txn.state.insert_run(f.new_run()).expect("run");
    txn.state.insert_effect(f.new_effect()).expect("effect");
    txn.commit(&mut f.store).expect("commit");

    let mut txn = f.begin();
    let stale = RunCas { run_revision: 9, state: None, cancellation_epoch: None };
    let ready = || RunPatch { state: Some(RunState::Ready), bump_revision: true, ..RunPatch::default() };
    assert!(!txn.state.cas_update_run(f.run_id, stale, ready()));
    let current = RunCas {
        run_revision: 0,
        state: Some(RunState::Created),
        cancellation_epoch: Some(0),
    };
    assert!(txn.state.cas_update_run(f.run_id, current, ready()));

    assert!(!txn.state.cas_effect(
        f.effect_id,
        EffectState::Dispatched,
        None,
        EffectPatch::default()
    ));
    assert!(txn.state.cas_effect(
        f.effect_id,
        EffectState::Prepared,
        None,
        EffectPatch {
            state: Some(EffectState::Claimed),
            executor_id: Some("exec-1".to_string()),
            executor_fencing_token: Some(7),
            ..EffectPatch::default()
        }
    ));
    let dispatched = || EffectPatch { state: Some(EffectState::Dispatched), ..EffectPatch::default() };
    assert!(!txn.state.cas_effect(f.effect_id, EffectState::Claimed, Some(8), dispatched()));
    assert!(txn.state.cas_effect(f.effect_id, EffectState::Claimed, Some(7), dispatched()));
    txn.commit(&mut f.store).expect("commit");

    let read = f.store.begin_read();
    let run = read.state.get_run(f.run_id).expect("run row");
    assert_eq!(run.state, RunState::Ready);
    assert_eq!(run.run_revision, 1);
    let effect = read.state.get_effect(f.effect_id).expect("effect row");
    assert_eq!(effect.state, EffectState::Dispatched);
    assert_eq!(effect.executor_fencing_token, Some(7));
}

#[test]
fn idempotency_replay_and_duplicate_keys_conflict() {
    let mut f = fixture();
    let key = IdempotencyKey::new("command-1");
    let mut txn = f.begin();
    let record = f.new_idempotency(&key, "digest-1");
    txn.state.insert_idempotency(record).expect("insert");
    txn.commit(&mut f.store).expect("commit");

    let mut txn = f.begin();
    let replay = txn.state.lookup_idempotency(f.principal_id, &key).expect("stored record");
    assert_eq!(replay.outcome_payload.as_slice(), [0x00]);
    let record = f.new_idempotency(&key, "different-digest");
    let error = txn.state.insert_idempotency(record).expect_err("duplicate key must conflict");
    assert_eq!(error.code(), ErrorCode::Conflict);
    txn.rollback();
}

#[test]
fn stream_allocation_is_contiguous_across_transactions() {
    let mut f = fixture();
    let run_stream = stream_key(f.run_id);
    let config_stream = EventStreamKey::new("config/global");

    let mut txn = f.begin();
    assert_eq!(txn.state.allocate(run_stream.clone()), 1);
    assert_eq!(txn.state.allocate(run_stream.clone()), 2);
    assert_eq!(txn.state.allocate(config_stream.clone()), 1);
    txn.commit(&mut f.store).expect("commit");

    let mut txn = f.begin();
    assert_eq!(txn.state.allocate(run_stream), 3);
    assert_eq!(txn.state.allocate(config_stream), 2);
    txn.commit(&mut f.store).expect("commit");
}

fn refused(store: &MockStore, ids: &mut DeterministicIds, epoch: u64) -> ErrorCode {
    match store.begin_write(context_with_epoch(ids, epoch)) {
        Ok(_) => panic!("epoch {epoch} must be refused"),
        Err(error) => error.code(),
    }
}

#[test]
fn begin_write_asserts_the_persisted_daemon_epoch() {
    let mut ids = DeterministicIds::new(SEED_MS);
    let mut store = MockStore::new();
    assert_eq!(refused(&store, &mut ids, 1), ErrorCode::FailedPrecondition);
    assert_eq!(refused(&store, &mut ids, 0), ErrorCode::FailedPrecondition);

    store.set_daemon_epoch(2, DaemonInstanceId::new(&mut ids));
    assert_eq!(refused(&store, &mut ids, 1), ErrorCode::FailedPrecondition);
    let txn = store
        .begin_write(context_with_epoch(&mut ids, 2))
        .expect("matching epoch must open a write transaction");
    txn.rollback();

    let fence = store.acquire_daemon_fence(DaemonInstanceId::new(&mut ids));
    assert_eq!(fence.epoch, 3);
    let txn = store
        .begin_write(context_with_epoch(&mut ids, 3))
        .expect("epoch recorded by acquire must open a write transaction");
    txn.rollback();
}

#[test]
fn fence_acquisition_invalidates_in_flight_write() {
    let mut ids = DeterministicIds::new(SEED_MS);
    let mut store = MockStore::new();
    let instance = DaemonInstanceId::new(&mut ids);
    store.set_daemon_epoch(1, instance);

    let txn = store
        .begin_write(context_with_epoch(&mut ids, 1))
        .expect("open a write transaction at epoch 1");
    let fence = store.acquire_daemon_fence(instance);
    assert_eq!(fence.epoch, 2);

    let error = match txn.commit(&mut store) {
        Ok(()) => panic!("in-flight transaction must fail after fence acquisition"),
        Err(error) => error,
    };
    assert_eq!(error.code(), ErrorCode::Conflict);
    assert_eq!(refused(&store, &mut ids, 1), ErrorCode::FailedPrecondition);

    let txn = store
        .begin_write(context_with_epoch(&mut ids, 2))
        .expect("epoch 2 must open a write transaction");
    txn.rollback();

    let current = store.current_fence().expect("the new fence must survive the failed commit");
    assert_eq!(current.epoch, 2);
    assert_eq!(current.instance_id, instance);
}

#[test]
fn overlapping_writers_conflict() {
    let mut f = fixture();
    let mut first = f.begin();
    let second = f.begin();
    first.state.insert_session(f.new_session()).expect("session");
    first.commit(&mut f.store).expect("the first writer commits");
    let error = second.commit(&mut f.store).expect_err("the second writer must not");
    assert_eq!(error.code(), ErrorCode::Conflict);
    assert!(f.store.begin_read().state.get_session(f.session_id).is_some());
}

#[test]
fn graph_dependency_cycles_are_rejected() {
    let mut f = fixture();
    f.seed_base();
    let second = RunId::new(&mut f.ids);
    let third = RunId::new(&mut f.ids);

    let mut txn = f.begin();
    for run in [second, third] {
        txn.state.insert_run(NewRun { run_id: run, ..f.new_run() }).expect("extra run");
    }
    let task = f.task_id;
    let mut dependency = |source: RunId, target: RunId| NewRunDependency {
        dependency_id: DependencyId::new(&mut f.ids),
        task_id: task,
        source_run_id: source,
        target_run_id: target,
        dependency_condition: DependencyCondition::CompletedSuccessfully,
        created_at_ms: SEED_MS,
    };
    txn.state.ensure_head(task);
    txn.state.insert_dependency(dependency(f.run_id, second), 0).expect("first edge");
    txn.state.insert_dependency(dependency(second, third), 1).expect("second edge");

    let back_edge = txn
        .state
        .insert_dependency(dependency(third, f.run_id), 2)
        .expect_err("a back edge must be rejected");
    assert_error(back_edge, ErrorCode::Conflict);
    let self_edge = txn
        .state
        .insert_dependency(dependency(f.run_id, f.run_id), 2)
        .expect_err("a self edge must be rejected");
    assert_error(self_edge, ErrorCode::Conflict);

    let head = txn.state.get_head(task).expect("head row");
    assert_eq!(head.graph_revision, 2, "rejected cycles must not advance");
    assert_eq!(txn.state.list_dependencies(task).len(), 2);
    assert!(txn.state.is_reachable(f.run_id, third));
    assert!(!txn.state.is_reachable(third, f.run_id));
    txn.commit(&mut f.store).expect("commit");
}

#[test]
fn active_exclusive_workspace_leases_conflict() {
    let mut f = fixture();
    f.seed_base();
    let workspace = WorkspaceId::new(&mut f.ids);
    let first = LeaseId::new(&mut f.ids);
    let second = LeaseId::new(&mut f.ids);
    let run = f.run_id;
    let lease = |id: LeaseId, enforcement_state: LeaseEnforcementState| NewWorkspaceLease {
        lease_id: id,
        workspace_id: workspace,
        owner_run_id: run,
        mode: WorkspaceAccessMode::ExclusiveWrite,
        lease_epoch: 1,
        enforcement_state,
        delegated_from: bytes(&[]),
        created_at_ms: SEED_MS,
    };

    let mut txn = f.begin();
    txn.state
        .insert_workspace(NewWorkspace {
            workspace_id: workspace,
            kind: "git".to_string(),
            base_revision: None,
            parent_workspace_id: None,
            created_at_ms: SEED_MS,
        })
        .expect("workspace");
    txn.state.insert_lease(lease(first, LeaseEnforcementState::Active)).expect("first lease");
    let duplicate = txn
        .state
        .insert_lease(lease(second, LeaseEnforcementState::Active))
        .expect_err("a second active exclusive lease must conflict");
    assert_error(duplicate, ErrorCode::Conflict);
    txn.state
        .insert_lease(lease(second, LeaseEnforcementState::Revoked))
        .expect("a revoked exclusive lease may coexist");
    txn.commit(&mut f.store).expect("commit");

    let mut txn = f.begin();
    let activate = txn
        .state
        .cas_lease(
            second,
            1,
            LeasePatch {
                enforcement_state: Some(LeaseEnforcementState::Active),
                ..LeasePatch::default()
            },
        )
        .expect_err("activating a second exclusive lease must conflict");
    assert_error(activate, ErrorCode::Conflict);
    txn.rollback();
}

#[test]
fn loop_turn_and_decision_literals_are_validated() {
    let mut f = fixture();
    f.seed_base();
    let turn = TurnId::new(&mut f.ids);
    let run = f.run_id;
    let turn_fields = |state: &str| NewLoopTurn {
        turn_id: turn,
        run_id: run,
        run_revision: 0,
        loop_epoch: 0,
        step_sequence: 0,
        input_event_cursor: cursor(run),
        state: state.to_string(),
        issued_at_ms: SEED_MS,
    };
    let mut txn = f.begin();

    let bad_state = txn
        .state
        .insert_turn(turn_fields("bogus"))
        .expect_err("an unknown turn state must fail");
    assert_error(bad_state, ErrorCode::FailedPrecondition);
    let missing_run = txn
        .state
        .insert_turn(NewLoopTurn { run_id: RunId::new(&mut f.ids), ..turn_fields("issued") })
        .expect_err("a turn must reference an existing run");
    assert_error(missing_run, ErrorCode::FailedPrecondition);
    txn.state.insert_turn(turn_fields("issued")).expect("turn");
    let bad_patch = txn
        .state
        .cas_turn(turn, "issued", LoopTurnPatch { state: Some("bogus".to_string()) })
        .expect_err("an unknown turn patch state must fail");
    assert_error(bad_patch, ErrorCode::FailedPrecondition);

    let decision = |ids: &mut DeterministicIds, decision_type: &str, turn_id: TurnId| NewDecision {
        decision_id: DecisionId::new(ids),
        run_id: run,
        turn_id,
        decision_type: decision_type.to_string(),
        decision_digest: "decision-digest".to_string(),
        decision_bytes: bytes(&[1]),
        run_revision: 0,
        loop_epoch: 0,
        step_sequence: 0,
        input_event_cursor: cursor(run),
        accepted_at_ms: SEED_MS,
    };
    let bad_type = txn
        .state
        .insert_decision(decision(&mut f.ids, "Bogus", turn))
        .expect_err("an unknown decision type must fail");
    assert_error(bad_type, ErrorCode::FailedPrecondition);
    let absent = TurnId::new(&mut f.ids);
    let missing_turn = txn
        .state
        .insert_decision(decision(&mut f.ids, "InvokeEffect", absent))
        .expect_err("a decision must reference an existing turn");
    assert_error(missing_turn, ErrorCode::FailedPrecondition);
    let other = RunId::new(&mut f.ids);
    let missing_run = txn
        .state
        .insert_decision(NewDecision {
            run_id: other,
            ..decision(&mut f.ids, "InvokeEffect", turn)
        })
        .expect_err("a decision must reference an existing run");
    assert_error(missing_run, ErrorCode::FailedPrecondition);
    txn.state
        .insert_decision(decision(&mut f.ids, "InvokeEffect", turn))
        .expect("decision");
    txn.commit(&mut f.store).expect("commit");
}

#[test]
fn adapter_instance_and_conformance_literals_are_validated() {
    let mut f = fixture();
    f.seed_base();
    let adapter = AdapterId::new(&mut f.ids);
    let instance_id = AdapterInstanceId::new(&mut f.ids);
    let daemon = DaemonInstanceId::new(&mut f.ids);
    let mut txn = f.begin();
    txn.state
        .insert_registration(NewAdapterRegistration {
            adapter_id: adapter,
            version: "1.0.0".to_string(),
            bundle_digest: "bundle-1".to_string(),
            manifest_digest: "manifest-1".to_string(),
            runtime_type: "process".to_string(),
            implemented_ports: bytes(&[]),
            capabilities: bytes(&[]),
            trust_state: TrustState::Trusted,
            conformance_state: ConformanceState::Untested,
            created_at_ms: SEED_MS,
        })
        .expect("registration");

    let instance = |state: &str| NewAdapterInstance {
        adapter_instance_id: instance_id,
        adapter_id: adapter,
        adapter_version: "1.0.0".to_string(),
        bundle_digest: "bundle-1".to_string(),
        daemon_instance_id: daemon,
        pid: None,
        process_start_identity: None,
        state: state.to_string(),
        exit_reason: None,
        last_heartbeat_ms: None,
        started_at_ms: SEED_MS,
        ended_at_ms: None,
    };
    let bad_state = txn
        .state
        .insert_instance(instance("bogus"))
        .expect_err("an unknown instance state must fail");
    assert_error(bad_state, ErrorCode::FailedPrecondition);
    let missing_registration = txn
        .state
        .insert_instance(NewAdapterInstance {
            adapter_id: AdapterId::new(&mut f.ids),
            ..instance("starting")
        })
        .expect_err("an instance must reference an existing registration");
    assert_error(missing_registration, ErrorCode::FailedPrecondition);
    txn.state.insert_instance(instance("starting")).expect("instance");
    let bad_patch = txn
        .state
        .cas_instance_state(
            instance_id,
            "starting",
            AdapterInstanceStatePatch {
                state: Some("bogus".to_string()),
                ..AdapterInstanceStatePatch::default()
            },
        )
        .expect_err("an unknown instance patch state must fail");
    assert_error(bad_patch, ErrorCode::FailedPrecondition);

    let report = |result: &str| NewConformanceReport {
        adapter_id: adapter,
        adapter_version: "1.0.0".to_string(),
        bundle_digest: "bundle-1".to_string(),
        report_digest: "report-1".to_string(),
        harness_version: "0.1.0".to_string(),
        result: result.to_string(),
        run_at_ms: SEED_MS,
        details: None,
    };
    let bad_result = txn
        .state
        .insert_conformance_report(report("bogus"))
        .expect_err("an unknown conformance result must fail");
    assert_error(bad_result, ErrorCode::FailedPrecondition);

    txn.state.insert_conformance_report(report("pass")).expect("report");
    txn.state
        .set_conformance_state(adapter, "1.0.0", "bundle-1", ConformanceState::Passed)
        .expect("state");
    let row = txn.state.get_registration(adapter, "1.0.0", "bundle-1").expect("row");
    assert_eq!(row.conformance_state, ConformanceState::Passed);
    assert!(txn.state.get_conformance_report(adapter, "1.0.0", "bundle-1").is_some());
    assert!(txn.state.get_conformance_report(adapter, "1.0.0", "bundle-2").is_none());
    assert_eq!(txn.state.list_registrations().len(), 1);
    txn.commit(&mut f.store).expect("commit");
}

#[test]
fn config_generation_literals_are_validated() {
    let mut f = fixture();
    f.seed_base();
    let mut txn = f.begin();
    let mut generation = |validation_state: &str, test_state: &str| NewConfigGeneration {
        generation_id: ConfigGenerationId::new(&mut f.ids),
        digest: format!("digest-{validation_state}-{test_state}"),
        document: bytes(&[7]),
        validation_state: validation_state.to_string(),
        test_state: test_state.to_string(),
        created_by_actor_id: ActorId::new(&mut f.ids),
        created_at_ms: SEED_MS,
    };
    let bad_validation = txn
        .state
        .insert_generation(generation("bogus", "untested"))
        .expect_err("an unknown validation state must fail");
    assert_error(bad_validation, ErrorCode::FailedPrecondition);
    let bad_test_state = txn
        .state
        .insert_generation(generation("proposed", "bogus"))
        .expect_err("an unknown test state must fail");
    assert_error(bad_test_state, ErrorCode::FailedPrecondition);
    txn.state.insert_generation(generation("proposed", "untested")).expect("generation");
    txn.commit(&mut f.store).expect("commit");
}

#[test]
fn approval_response_decision_literal_is_validated() {
    let mut f = fixture();
    f.seed_base();
    let request = ApprovalRequestId::new(&mut f.ids);
    let device = DeviceId::new(&mut f.ids);
    let principal = f.principal_id;
    let mut txn = f.begin();
    txn.state
        .insert_approval_request(NewApprovalRequest {
            request_id: request,
            request_digest: "request-digest".to_string(),
            principal_id: principal,
            actor_id: ActorId::new(&mut f.ids),
            run_id: Some(f.run_id),
            operation: "write-file".to_string(),
            target_resource: None,
            capability_ids: bytes(&[1]),
            extension_bundle_digest: None,
            config_generation_digest: None,
            expires_at_ms: SEED_MS,
            nonce: "nonce-1".to_string(),
            state: ApprovalState::Pending,
            created_at_ms: SEED_MS,
            resolved_at_ms: None,
        })
        .expect("approval request");
    let response = |decision: &str| NewApprovalResponse {
        request_id: request,
        request_digest: "request-digest".to_string(),
        decision: decision.to_string(),
        device_id: device,
        responder_principal_id: principal,
        responded_at_ms: SEED_MS,
    };
    let bad_decision = txn
        .state
        .insert_approval_response(response("maybe"))
        .expect_err("an unknown approval decision must fail");
    assert_error(bad_decision, ErrorCode::FailedPrecondition);
    txn.rollback();
}

#[test]
fn artifact_references_are_validated() {
    let mut f = fixture();
    f.seed_base();
    let effect = f.new_effect();
    let mut txn = f.begin();
    let mut artifact = |run: Option<RunId>, origin_effect_id: Option<EffectId>| NewArtifact {
        artifact_id: ArtifactId::new(&mut f.ids),
        uri: format!("artifact://{}", ArtifactId::new(&mut f.ids).number),
        digest: "digest-1".to_string(),
        media_type: "application/octet-stream".to_string(),
        size_bytes: 1,
        origin_run_id: match run {
            Some(run) => run,
            None => RunId::new(&mut f.ids),
        },
        origin_effect_id,
        sensitivity: SensitivityClass::Internal,
        retention: RetentionClass::Audit,
        locator: "file:///var/artifacts/1".to_string(),
        created_at_ms: SEED_MS,
    };
    let missing_run = txn
        .state
        .insert_artifact(artifact(None, None))
        .expect_err("an artifact must reference an existing run");
    assert_error(missing_run, ErrorCode::FailedPrecondition);
    let missing_effect = txn
        .state
        .insert_artifact(artifact(Some(f.run_id), Some(f.effect_id)))
        .expect_err("an artifact must reference an existing effect");
    assert_error(missing_effect, ErrorCode::FailedPrecondition);
    txn.state.insert_effect(effect).expect("effect");
    let kept = artifact(Some(f.run_id), Some(f.effect_id));
    let (id, uri) = (kept.artifact_id, kept.uri.clone());
    txn.state.insert_artifact(kept).expect("artifact");
    assert_eq!(txn.state.get_artifact(id).expect("by id").uri, uri);
    assert_eq!(txn.state.get_artifact_by_uri(&uri).expect("by uri").artifact_id, id);
    assert_eq!(txn.state.list_artifacts_by_run(f.run_id).len(), 1);
    txn.commit(&mut f.store).expect("commit");
}

#[test]
fn timer_and_lease_references_are_validated() {
    let mut f = fixture();
    f.seed_base();
    let workspace = WorkspaceId::new(&mut f.ids);
    let id = LeaseId::new(&mut f.ids);
    let lease = |owner_run_id: RunId| NewWorkspaceLease {
        lease_id: id,
        workspace_id: workspace,
        owner_run_id,
        mode: WorkspaceAccessMode::ExclusiveWrite,
        lease_epoch: 1,
        enforcement_state: LeaseEnforcementState::Active,
        delegated_from: bytes(&[]),
        created_at_ms: SEED_MS,
    };
    let mut txn = f.begin();
    let missing_run = txn
        .state
        .insert_timer(NewTimer {
            timer_id: TimerId::new(&mut f.ids),
            run_id: Some(RunId::new(&mut f.ids)),
            timer_kind: "deadline".to_string(),
            payload: bytes(&[4, 5]),
            due_at_ms: 100,
            state: TimerState::Scheduled,
            version: 0,
            created_at_ms: SEED_MS,
        })
        .expect_err("a timer must reference an existing run");
    assert_error(missing_run, ErrorCode::FailedPrecondition);
    let missing_workspace = txn
        .state
        .insert_lease(lease(f.run_id))
        .expect_err("a lease must reference an existing workspace");
    assert_error(missing_workspace, ErrorCode::FailedPrecondition);
    txn.state
        .insert_workspace(NewWorkspace {
            workspace_id: workspace,
            kind: "git".to_string(),
            base_revision: None,
            parent_workspace_id: None,
            created_at_ms: SEED_MS,
        })
        .expect("workspace");
    let missing_owner = txn
        .state
        .insert_lease(lease(RunId::new(&mut f.ids)))
        .expect_err("a lease must reference an existing owner run");
    assert_error(missing_owner, ErrorCode::FailedPrecondition);
    txn.rollback();
}

#[test]
fn grant_and_hop_references_are_validated() {
    let mut f = fixture();
    f.seed_base();
    let mut txn = f.begin();
    let principal = f.principal_id;
    let grant = |ids: &mut DeterministicIds, run_id: RunId, parent: Option<CapabilityGrantId>| {
        NewCapabilityGrant {
            grant_id: CapabilityGrantId::new(ids),
            principal_id: principal,
            actor_id: ActorId::new(ids),
            run_id: Some(run_id),
            capability_id: "filesystem.write".to_string(),
            scope: bytes(&[1, 2]),
            delegated_from_grant_id: parent,
            expires_at_ms: None,
            revoked_at_ms: None,
            created_at_ms: SEED_MS,
        }
    };
    let absent = RunId::new(&mut f.ids);
    let missing_run = txn
        .state
        .insert_grant(grant(&mut f.ids, absent, None))
        .expect_err("a grant must reference an existing run");
    assert_error(missing_run, ErrorCode::FailedPrecondition);
    let parent = CapabilityGrantId::new(&mut f.ids);
    let missing_parent = txn
        .state
        .insert_grant(grant(&mut f.ids, f.run_id, Some(parent)))
        .expect_err("a grant must reference an existing parent grant");
    assert_error(missing_parent, ErrorCode::FailedPrecondition);
    let hop = txn
        .state
        .insert_delegation_hop(NewDelegationHop {
            chain_id: DelegationChainId::new(&mut f.ids),
            hop_index: 0,
            principal_or_actor_id: "principal-a".to_string(),
            run_id: Some(absent),
            capability_grant_ids: bytes(&[1]),
        })
        .expect_err("a hop must reference an existing run");
    assert_error(hop, ErrorCode::FailedPrecondition);
    txn.state.insert_grant(grant(&mut f.ids, f.run_id, None)).expect("grant");
    txn.rollback();
}

// Further conditions

#[test]
fn rows_are_inserted_once() {
    let mut f = fixture();
    f.seed_base();
    let mut txn = f.begin();
    let again = txn.state.insert_session(f.new_session()).expect_err("a session twice");
    assert_error(again, ErrorCode::Conflict);
    let again = txn.state.insert_task(f.new_task()).expect_err("a task twice");
    assert_error(again, ErrorCode::Conflict);
    let again = txn.state.insert_run(f.new_run()).expect_err("a run twice");
    assert_error(again, ErrorCode::Conflict);
    let spec = |ids: &mut DeterministicIds| NewAgentSpec {
        agent_spec_id: AgentSpecId::new(ids),
        version: "1".to_string(),
        digest: "d".to_string(),
        body: bytes(b"{}"),
        created_at_ms: SEED_MS,
    };
    let first = spec(&mut f.ids);
    let id = first.agent_spec_id;
    txn.state.insert_agent_spec(first).expect("spec");
    assert!(txn.state.get_agent_spec(id, "1").is_some());
    assert!(txn.state.get_agent_spec(id, "2").is_none());
    assert_eq!(txn.state.list_tasks_by_session(f.session_id).len(), 1);
    assert_eq!(txn.state.list_runs_by_task(f.task_id).len(), 1);
    assert_eq!(txn.state.list_active_runs().len(), 1);
}

#[test]
fn ended_runs_are_not_active() {
    let mut f = fixture();
    f.seed_base();
    let mut txn = f.begin();
    let expect = RunCas { run_revision: 0, state: None, cancellation_epoch: None };
    let patch = RunPatch {
        state: Some(RunState::Completed),
        claim: Some(RunClaim {
            owner: "o".to_string(),
            token: 3,
            expires_unix_ms: 9,
            daemon_epoch: 1,
        }),
        output_ref: Some("art://x".to_string()),
        ..RunPatch::default()
    };
    assert!(txn.state.cas_update_run(f.run_id, expect, patch));
    let run = txn.state.get_run(f.run_id).expect("run");
    assert_eq!(run.run_revision, 0);
    assert_eq!((run.claim_token, run.claim_daemon_epoch), (Some(3), Some(1)));
    assert_eq!(run.output_ref.as_deref(), Some("art://x"));
    assert!(txn.state.list_active_runs().is_empty());
}

#[test]
fn claims_of_effects_raise_the_token() {
    let mut f = fixture();
    f.seed_base();
    let mut txn = f.begin();
    txn.state.insert_effect(f.new_effect()).expect("effect");
    let first = txn.state.claim_effect(f.effect_id, "a".to_string(), 1, SEED_MS + 10, SEED_MS);
    assert_eq!(first, Some(1));
    let early = txn.state.claim_effect(f.effect_id, "b".to_string(), 1, SEED_MS + 20, SEED_MS + 5);
    assert_eq!(early, None);
    let later = txn.state.claim_effect(f.effect_id, "b".to_string(), 1, SEED_MS + 30, SEED_MS + 11);
    assert_eq!(later, Some(2));
    let commit = || EffectPatch { state: Some(EffectState::Committed), ..EffectPatch::default() };
    assert!(!txn.state.cas_effect(f.effect_id, EffectState::Claimed, Some(1), commit()));
    assert!(txn.state.cas_effect(f.effect_id, EffectState::Claimed, Some(2), commit()));
    let absent = EffectId::new(&mut f.ids);
    assert_eq!(txn.state.claim_effect(absent, "b".to_string(), 1, 0, 0), None);
    assert_eq!(txn.state.list_effects_by_run(f.run_id).len(), 1);
}

#[test]
fn timers_come_due_in_order() {
    let mut f = fixture();
    f.seed_base();
    let mut txn = f.begin();
    let mut made = Vec::new();
    for due in [300, 100, 200] {
        let timer = NewTimer {
            timer_id: TimerId::new(&mut f.ids),
            run_id: Some(f.run_id),
            timer_kind: "deadline".to_string(),
            payload: bytes(&[]),
            due_at_ms: due,
            state: TimerState::Scheduled,
            version: 0,
            created_at_ms: SEED_MS,
        };
        made.push(timer.timer_id);
        txn.state.insert_timer(timer).expect("timer");
    }
    let due: Vec<i64> = txn.state.list_due_timers(250).iter().map(|t| t.due_at_ms).collect();
    assert_eq!(due, [100, 200]);
    assert_eq!(txn.state.list_timers_by_run(f.run_id).len(), 3);
    let fired = || TimerPatch {
        state: Some(TimerState::Fired),
        claim_owner: None,
        claim_fencing_token: None,
        claim_daemon_epoch: None,
        due_at_ms: None,
    };
    assert!(!txn.state.cas_timer(made[1], TimerState::Scheduled, 4, fired()));
    assert!(txn.state.cas_timer(made[1], TimerState::Scheduled, 0, fired()));
    let timer = txn.state.get_timer(made[1]).expect("timer");
    assert_eq!((timer.state, timer.version), (TimerState::Fired, 1));
    assert_eq!(txn.state.list_due_timers(100).len(), 1);
    assert_eq!(txn.state.list_due_timers(99).len(), 0);
}

#[test]
fn reservations_belong_to_runs() {
    let mut f = fixture();
    f.seed_base();
    let mut txn = f.begin();
    let reservation = |ids: &mut DeterministicIds, run: RunId, parent: Option<ReservationId>| {
        NewReservation {
            reservation_id: ReservationId::new(ids),
            run_id: run,
            resource_type: "tokens".to_string(),
            state: ReservationState::Reserved,
            amount: 10,
            unit: "n".to_string(),
            fencing_token: 1,
            parent_reservation_id: parent,
            created_at_ms: SEED_MS,
        }
    };
    let parent = reservation(&mut f.ids, f.run_id, None);
    let parent_id = parent.reservation_id;
    txn.state.insert_reservation(parent).expect("parent");
    txn.state
        .insert_reservation(reservation(&mut f.ids, f.run_id, Some(parent_id)))
        .expect("child");
    assert_eq!(txn.state.list_child_reservations(parent_id).len(), 1);
    assert_eq!(txn.state.list_reservations_by_run(f.run_id).len(), 2);
    let commit = || ReservationPatch { state: Some(ReservationState::Committed), fencing_token: Some(2) };
    assert!(!txn.state.cas_reservation(parent_id, ReservationState::Released, commit()));
    assert!(txn.state.cas_reservation(parent_id, ReservationState::Reserved, commit()));
    let row = txn.state.get_reservation(parent_id).expect("row");
    assert_eq!((row.state, row.fencing_token), (ReservationState::Committed, 2));
}

#[test]
fn generations_are_activated_by_revision() {
    let mut f = fixture();
    f.seed_base();
    let mut txn = f.begin();
    let generation = NewConfigGeneration {
        generation_id: ConfigGenerationId::new(&mut f.ids),
        digest: "d".to_string(),
        document: bytes(&[7]),
        validation_state: "proposed".to_string(),
        test_state: "untested".to_string(),
        created_by_actor_id: ActorId::new(&mut f.ids),
        created_at_ms: SEED_MS,
    };
    let id = generation.generation_id;
    let absent = ConfigGenerationId::new(&mut f.ids);
    txn.state.insert_generation(generation).expect("generation");
    assert!(txn.state.get_active().is_none());
    assert!(txn.state.cas_active(0, absent, SEED_MS).is_err());
    assert_eq!(txn.state.cas_active(5, id, SEED_MS).expect("known"), false);
    assert_eq!(txn.state.cas_active(0, id, SEED_MS).expect("known"), true);
    let active = txn.state.get_active().expect("active");
    assert_eq!((active.generation_id, active.revision), (id, 1));
    let unknown = txn
        .state
        .set_generation_states(absent, None, None)
        .expect_err("an unknown generation");
    assert_eq!(unknown.code(), ErrorCode::NotFound);
    let bad = txn
        .state
        .set_generation_states(id, Some("bogus".to_string()), None)
        .expect_err("an unknown state");
    assert_error(bad, ErrorCode::FailedPrecondition);
    assert_eq!(txn.state.get_generation(id).expect("row").validation_state, "proposed");
}

#[test]
fn published_events_are_not_scanned_again() {
    let mut f = fixture();
    f.seed_base();
    let mut txn = f.begin();
    let sequence = txn.state.allocate(stream_key(f.run_id));
    txn.state.insert_outbox(f.new_outbox(sequence)).expect("outbox");
    let again = txn.state.insert_outbox(f.new_outbox(sequence)).expect_err("an event twice");
    assert_error(again, ErrorCode::Conflict);
    assert_eq!(txn.state.scan_unpublished(0).len(), 0);
    txn.state.mark_published(f.event_id, PublishKind::Live).expect("live");
    assert_eq!(txn.state.scan_unpublished(10).len(), 1);
    txn.state.mark_published(f.event_id, PublishKind::Journal).expect("journal");
    assert_eq!(txn.state.scan_unpublished(10).len(), 0);
    let absent = EventId::new(&mut f.ids);
    let unknown = txn
        .state
        .mark_published(absent, PublishKind::Journal)
        .expect_err("an unknown event");
    assert_eq!(unknown.code(), ErrorCode::NotFound);
}

#[test]
fn bindings_belong_to_environments() {
    let mut f = fixture();
    f.seed_base();
    let mut txn = f.begin();
    let environment = EnvironmentId::new(&mut f.ids);
    let binding = |ids: &mut DeterministicIds, port: &str| NewResolvedBinding {
        port_id: port.to_string(),
        adapter_id: AdapterId::new(ids),
        adapter_version: "1".to_string(),
        adapter_digest: "d".to_string(),
        capabilities: bytes(&[]),
    };
    let missing = vec![binding(&mut f.ids, "effect.execute")];
    let early = txn
        .state
        .insert_bindings(environment, missing)
        .expect_err("bindings must reference an existing environment");
    assert_error(early, ErrorCode::FailedPrecondition);
    let spec = NewAgentSpec {
        agent_spec_id: AgentSpecId::new(&mut f.ids),
        version: "1".to_string(),
        digest: "d".to_string(),
        body: bytes(b"{}"),
        created_at_ms: SEED_MS,
    };
    let spec_id = spec.agent_spec_id;
    txn.state.insert_agent_spec(spec).expect("spec");
    txn.state
        .insert_environment(NewResolvedEnvironment {
            environment_id: environment,
            run_id: f.run_id,
            agent_spec_id: spec_id,
            agent_spec_version: "1".to_string(),
            agent_spec_digest: "d".to_string(),
            agent_loop_id: "loop".to_string(),
            agent_loop_version: "1".to_string(),
            agent_loop_digest: "d".to_string(),
            config_generation_id: ConfigGenerationId::new(&mut f.ids),
            workspace_uri: "file:///w".to_string(),
            workspace_base_revision: None,
            workspace_mode: WorkspaceAccessMode::ReadOnly,
            model_provider: "p".to_string(),
            model_id: "m".to_string(),
            model_parameters: bytes(&[]),
            kernel_version: "1".to_string(),
            protocol_versions: bytes(&[]),
            capability_grant_ids: bytes(&[]),
            approval_request_ids: bytes(&[]),
            created_at_ms: SEED_MS,
        })
        .expect("environment");
    let ports = vec![binding(&mut f.ids, "effect.execute"), binding(&mut f.ids, "loop.turn")];
    txn.state.insert_bindings(environment, ports).expect("bindings");
    let found: Vec<String> =
        txn.state.get_bindings(environment).iter().map(|b| b.port_id.clone()).collect();
    assert_eq!(found, ["effect.execute", "loop.turn"]);
    assert!(txn.state.get_environment(environment).is_some());
    let twice = vec![binding(&mut f.ids, "loop.turn")];
    let again = txn.state.insert_bindings(environment, twice).expect_err("a port twice");
    assert_error(again, ErrorCode::Conflict);
}

#[test]
fn expectations_are_used_once() {
    let mut f = fixture();
    f.seed_base();
    let mut txn = f.begin();
    let expect = || RunCas { run_revision: 0, state: None, cancellation_epoch: None };
    let bump = || RunPatch { bump_revision: true, ..RunPatch::default() };
    assert!(txn.state.cas_update_run(f.run_id, expect(), bump()));
    assert!(!txn.state.cas_update_run(f.run_id, expect(), bump()));
    assert_eq!(txn.state.get_run(f.run_id).expect("run").run_revision, 1);

    txn.state.ensure_head(f.task_id);
    assert!(txn.state.cas_head_revision(f.task_id, 0));
    assert!(!txn.state.cas_head_revision(f.task_id, 0));
    let second = RunId::new(&mut f.ids);
    txn.state.insert_run(NewRun { run_id: second, ..f.new_run() }).expect("run");
    let stale = txn
        .state
        .insert_dependency(
            NewRunDependency {
                dependency_id: DependencyId::new(&mut f.ids),
                task_id: f.task_id,
                source_run_id: f.run_id,
                target_run_id: second,
                dependency_condition: DependencyCondition::Started,
                created_at_ms: SEED_MS,
            },
            0,
        )
        .expect_err("a stale revision");
    assert_error(stale, ErrorCode::Conflict);
    assert!(txn.state.list_dependencies(f.task_id).is_empty());
}

#[test]
fn requests_are_answered_once() {
    let mut f = fixture();
    f.seed_base();
    let request = ApprovalRequestId::new(&mut f.ids);
    let mut txn = f.begin();
    let principal = f.principal_id;
    let device = DeviceId::new(&mut f.ids);
    let response = |decision: &str| NewApprovalResponse {
        request_id: request,
        request_digest: "request-digest".to_string(),
        decision: decision.to_string(),
        device_id: device,
        responder_principal_id: principal,
        responded_at_ms: SEED_MS,
    };
    let early = txn.state.insert_approval_response(response("approve")).expect_err("no request");
    assert_error(early, ErrorCode::FailedPrecondition);
    txn.state
        .insert_approval_request(NewApprovalRequest {
            request_id: request,
            request_digest: "request-digest".to_string(),
            principal_id: principal,
            actor_id: ActorId::new(&mut f.ids),
            run_id: Some(f.run_id),
            operation: "write-file".to_string(),
            target_resource: None,
            capability_ids: bytes(&[1]),
            extension_bundle_digest: None,
            config_generation_digest: None,
            expires_at_ms: SEED_MS,
            nonce: "nonce-1".to_string(),
            state: ApprovalState::Pending,
            created_at_ms: SEED_MS,
            resolved_at_ms: None,
        })
        .expect("approval request");
    txn.state.insert_approval_response(response("approve")).expect("response");
    let again = txn.state.insert_approval_response(response("deny")).expect_err("a second one");
    assert_error(again, ErrorCode::Conflict);
    let responses = txn.state.list_approval_responses(request);
    assert_eq!(responses.len(), 1);
    assert_eq!(responses[0].decision, "approve");
    assert_eq!(txn.state.list_approvals_by_run(f.run_id).len(), 1);
}

#[test]
fn what_was_recorded_is_found() {
    let mut f = fixture();
    f.seed_base();
    let mut txn = f.begin();
    let turn = TurnId::new(&mut f.ids);
    txn.state
        .insert_turn(NewLoopTurn {
            turn_id: turn,
            run_id: f.run_id,
            run_revision: 0,
            loop_epoch: 0,
            step_sequence: 4,
            input_event_cursor: cursor(f.run_id),
            state: "issued".to_string(),
            issued_at_ms: SEED_MS,
        })
        .expect("turn");
    assert_eq!(txn.state.get_turn(turn).expect("turn").step_sequence, 4);
    let decision = DecisionId::new(&mut f.ids);
    assert!(txn.state.get_decision(f.run_id, decision).is_none());
    txn.state
        .insert_decision(NewDecision {
            decision_id: decision,
            run_id: f.run_id,
            turn_id: turn,
            decision_type: "Complete".to_string(),
            decision_digest: "d".to_string(),
            decision_bytes: bytes(&[1]),
            run_revision: 0,
            loop_epoch: 0,
            step_sequence: 4,
            input_event_cursor: cursor(f.run_id),
            accepted_at_ms: SEED_MS,
        })
        .expect("decision");
    assert_eq!(txn.state.get_decision(f.run_id, decision).expect("decision").turn_id, turn);

    let grant = CapabilityGrantId::new(&mut f.ids);
    txn.state
        .insert_grant(NewCapabilityGrant {
            grant_id: grant,
            principal_id: f.principal_id,
            actor_id: ActorId::new(&mut f.ids),
            run_id: None,
            capability_id: "filesystem.write".to_string(),
            scope: bytes(&[1, 2]),
            delegated_from_grant_id: None,
            expires_at_ms: None,
            revoked_at_ms: None,
            created_at_ms: SEED_MS,
        })
        .expect("grant");
    assert_eq!(txn.state.get_grant(grant).expect("grant").scope.as_slice(), [1, 2]);
    let chain = DelegationChainId::new(&mut f.ids);
    for hop_index in [1, 0] {
        txn.state
            .insert_delegation_hop(NewDelegationHop {
                chain_id: chain,
                hop_index,
                principal_or_actor_id: "principal-a".to_string(),
                run_id: None,
                capability_grant_ids: bytes(&[1]),
            })
            .expect("hop");
    }
    let hops: Vec<u32> =
        txn.state.list_delegation_hops(chain).iter().map(|h| h.hop_index).collect();
    assert_eq!(hops, [0, 1]);
    assert!(txn.state.get_approval_request(ApprovalRequestId::new(&mut f.ids)).is_none());
    assert!(txn.state.get_instance(AdapterInstanceId::new(&mut f.ids)).is_none());
}
