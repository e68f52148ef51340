//! Workspaces: leases, forks, merges and paths.

use agent_os::domain::{
    ActorId, Bytes, EventCursor, EventStreamKey, LeaseEnforcementState, LeaseId,
    RecoveryDisposition, RunId, RunState, TaskId, WorkspaceAccessMode, WorkspaceId,
};
use agent_os::errors::{ErrorCode, KernelError, RetryClass};
use agent_os::ids::DeterministicIds;
use agent_os::store::rows::{NewRun, NewTask, NewWorkspaceLease};
use agent_os::store::state::MockState;
use agent_os::workspace::coordinator::shared_write_caps::{
    CONFLICT_REPORT, LOCKING, VERSIONED_WRITE,
};
use agent_os::workspace::coordinator::{
    acquire_lease, fork_for_child, merge, revoke_lease, transfer_exclusive, verify_write_authority,
    MergeOutcome,
};
use agent_os::workspace::git::{changed_of, files_of, git_error, head_of, tells_work_tree};
use agent_os::workspace::local::{
    capabilities, fork_base, io_error, normalize_relative, record_fork, record_lease,
    record_workspace, resolve_relative, sort_names, walk_entry, EntryStep,
    ResolveAction, ResolveEvent, Sight,
};
use agent_os::workspace::merge::{
    conflicted_paths, merge_conflict_error, merge_step_error, MergeAction, MergeEvent,
};

const NOW: i64 = 1_700_000_000_000;

fn bytes(data: &[u8]) -> Bytes {
    Bytes::new(data.to_vec())
}

fn run_row(state: &mut MockState, run_id: RunId, ids: &mut DeterministicIds) {
    let task_id = TaskId::new(ids);
    state
        .insert_task(NewTask {
            task_id,
            session_id: None,
            created_by_actor_id: ActorId::new(ids),
            task_kind: "test".to_string(),
            payload: bytes(&[]),
            created_at_ms: NOW,
        })
        .expect("task");
    state
        .insert_run(NewRun {
            run_id,
            task_id,
            session_id: None,
            parent_run_id: None,
            state: RunState::Running,
            recovery: RecoveryDisposition::Normal,
            loop_epoch: 1,
            step_sequence: 0,
            input_event_cursor: EventCursor::new(EventStreamKey::new("run"), 0),
            cancellation_epoch: 0,
            resolved_environment_id: None,
            created_at_ms: NOW,
        })
        .expect("run");
}

fn code<T: std::fmt::Debug>(r: Result<T, KernelError>) -> ErrorCode {
    r.expect_err("an error").code()
}

#[test]
fn exclusive_transfer_stale_token_rejected() {
    let mut ids = DeterministicIds::new(NOW + 2);
    let mut state = MockState::new();
    let (ws, parent, child) =
        (WorkspaceId::new(&mut ids), RunId::new(&mut ids), RunId::new(&mut ids));
    record_workspace(&mut state, ws, false, None, NOW).expect("ws");
    run_row(&mut state, parent, &mut ids);
    run_row(&mut state, child, &mut ids);
    let lease = acquire_lease(
        &mut state,
        &mut ids,
        ws,
        parent,
        WorkspaceAccessMode::ExclusiveWrite,
        &Vec::new(),
        bytes(&[]),
        NOW,
    )
    .expect("acquire");
    assert_eq!(lease.lease_epoch, 1);

    let moved = transfer_exclusive(
        &mut state,
        lease.lease_id,
        parent,
        child,
        lease.lease_epoch,
        bytes(b"delegation-proof"),
    )
    .expect("transfer");
    assert_eq!(moved.owner_run_id, child);
    assert_eq!(moved.lease_epoch, 2);

    assert_eq!(
        code(verify_write_authority(&state, lease.lease_id, ws, parent, 1)),
        ErrorCode::FailedPrecondition
    );
    let other = RunId::new(&mut ids);
    assert_eq!(
        code(transfer_exclusive(&mut state, lease.lease_id, parent, other, 1, bytes(&[]))),
        ErrorCode::FailedPrecondition
    );
    verify_write_authority(&state, lease.lease_id, ws, child, 2).expect("child holds authority");
    assert_eq!(
        code(verify_write_authority(&state, lease.lease_id, ws, parent, 2)),
        ErrorCode::FailedPrecondition
    );
}

#[test]
fn two_active_exclusive_leases_impossible() {
    let mut ids = DeterministicIds::new(NOW + 3);
    let mut state = MockState::new();
    let ws = WorkspaceId::new(&mut ids);
    let (r1, r2) = (RunId::new(&mut ids), RunId::new(&mut ids));
    record_workspace(&mut state, ws, false, None, NOW).expect("ws");
    run_row(&mut state, r1, &mut ids);
    run_row(&mut state, r2, &mut ids);
    let mut acquire = |owner: RunId, mode: WorkspaceAccessMode| {
        acquire_lease(&mut state, &mut ids, ws, owner, mode, &Vec::new(), bytes(&[]), NOW)
    };
    acquire(r1, WorkspaceAccessMode::ExclusiveWrite).expect("first exclusive");
    acquire(r2, WorkspaceAccessMode::ReadOnly).expect("read lease coexists");
    assert_eq!(code(acquire(r2, WorkspaceAccessMode::ExclusiveWrite)), ErrorCode::Conflict);
}

#[test]
fn shared_mode_rejected_by_local_adapter() {
    let mut ids = DeterministicIds::new(NOW + 6);
    let mut state = MockState::new();
    let ws = WorkspaceId::new(&mut ids);
    let run = RunId::new(&mut ids);
    let caps = record_workspace(&mut state, ws, false, None, NOW).expect("ws");
    run_row(&mut state, run, &mut ids);
    assert!(!caps.is_security_boundary);
    let shared = WorkspaceAccessMode::SharedCoordinatedWrite;
    assert_eq!(
        code(acquire_lease(&mut state, &mut ids, ws, run, shared, &Vec::new(), bytes(&[]), NOW)),
        ErrorCode::FailedPrecondition
    );

    let caps3 =
        vec![LOCKING.to_string(), VERSIONED_WRITE.to_string(), CONFLICT_REPORT.to_string()];
    let lease = acquire_lease(&mut state, &mut ids, ws, run, shared, &caps3, bytes(&[]), NOW)
        .expect("capable adapter may share");
    assert_eq!(lease.mode, WorkspaceAccessMode::SharedCoordinatedWrite);

    assert_eq!(
        code(revoke_lease(&mut state, lease.lease_id, 99)),
        ErrorCode::FailedPrecondition
    );
    revoke_lease(&mut state, lease.lease_id, lease.lease_epoch).expect("revoke");
    let stored = state.get_lease(lease.lease_id).expect("row");
    assert_eq!(stored.enforcement_state, LeaseEnforcementState::Revoked);
    assert!(verify_write_authority(&state, lease.lease_id, ws, run, stored.lease_epoch).is_err());
}

#[test]
fn leases_must_exist() {
    let mut ids = DeterministicIds::new(NOW);
    let mut state = MockState::new();
    let (id, ws, run) =
        (LeaseId::new(&mut ids), WorkspaceId::new(&mut ids), RunId::new(&mut ids));
    assert_eq!(code(verify_write_authority(&state, id, ws, run, 1)), ErrorCode::NotFound);
    assert!(revoke_lease(&mut state, id, 1).is_err());
    assert!(transfer_exclusive(&mut state, id, run, run, 1, bytes(&[])).is_err());
}

#[test]
fn parallel_forks_are_independent() {
    let mut ids = DeterministicIds::new(NOW + 4);
    let mut state = MockState::new();
    let (parent, a, b) = (
        WorkspaceId::new(&mut ids),
        WorkspaceId::new(&mut ids),
        WorkspaceId::new(&mut ids),
    );
    let (run_a, run_b) = (RunId::new(&mut ids), RunId::new(&mut ids));
    record_workspace(&mut state, parent, true, Some("rev1".to_string()), NOW).expect("parent ws");
    run_row(&mut state, run_a, &mut ids);
    run_row(&mut state, run_b, &mut ids);
    let base = fork_base(&state, parent).expect("base");
    let la = fork_for_child(&mut state, &mut ids, parent, a, Some(base.clone()), run_a, NOW)
        .expect("fork a");
    let lb = fork_for_child(&mut state, &mut ids, parent, b, Some(base), run_b, NOW)
        .expect("fork b");
    assert_ne!(la.lease_id, lb.lease_id);
    let again = fork_for_child(&mut state, &mut ids, parent, b, None, run_b, NOW);
    assert_eq!(code(again), ErrorCode::Conflict);
    assert_eq!(LeaseId::new(&mut ids).number, lb.lease_id.number + 1, "no id is drawn in vain");
    verify_write_authority(&state, la.lease_id, a, run_a, 1).expect("a writes to a");
    verify_write_authority(&state, lb.lease_id, b, run_b, 1).expect("b writes to b");
    assert!(verify_write_authority(&state, la.lease_id, b, run_a, 1).is_err());
    assert!(verify_write_authority(&state, la.lease_id, parent, run_a, 1).is_err());
}

#[test]
fn git_fork_starts_at_parent_base_revision() {
    let mut ids = DeterministicIds::new(NOW + 2);
    let mut state = MockState::new();
    let parent_id = WorkspaceId::new(&mut ids);
    let child_id = WorkspaceId::new(&mut ids);
    let caps = record_workspace(&mut state, parent_id, true, Some("rev1".to_string()), 1)
        .expect("record parent");
    assert!(caps.git_semantic);
    let base = fork_base(&state, parent_id).expect("base");
    assert_eq!(base, "rev1");
    record_fork(&mut state, parent_id, child_id, Some(base), 2).expect("fork");
    let row = state.get_workspace(child_id).expect("row");
    assert_eq!(row.kind, "git-worktree");
    assert_eq!(row.base_revision.as_deref(), Some("rev1"));
    assert_eq!(row.parent_workspace_id, Some(parent_id));
}

#[test]
fn non_git_fork_reports_copy_capability() {
    let mut ids = DeterministicIds::new(NOW + 3);
    let mut state = MockState::new();
    let parent_id = WorkspaceId::new(&mut ids);
    let child_id = WorkspaceId::new(&mut ids);
    record_workspace(&mut state, parent_id, false, None, 1).expect("record");
    let caps = capabilities(false);
    assert!(!caps.git_semantic);
    assert_eq!(caps.kind, "copy-fork");
    assert!(!caps.is_security_boundary);
    assert_eq!(code(fork_base(&state, parent_id)), ErrorCode::FailedPrecondition);
    assert_eq!(code(fork_base(&state, child_id)), ErrorCode::NotFound);
    record_fork(&mut state, parent_id, child_id, None, 2).expect("fork");
    let row = state.get_workspace(child_id).expect("row");
    assert_eq!(row.kind, "copy-fork");
    assert!(row.base_revision.is_none());
}

#[test]
fn local_leases_are_exclusive_or_for_reading() {
    let mut ids = DeterministicIds::new(NOW);
    let mut state = MockState::new();
    let (ws, run) = (WorkspaceId::new(&mut ids), RunId::new(&mut ids));
    record_workspace(&mut state, ws, false, None, NOW).expect("ws");
    run_row(&mut state, run, &mut ids);
    let mut lease = |mode: WorkspaceAccessMode| NewWorkspaceLease {
        lease_id: LeaseId::new(&mut ids),
        workspace_id: ws,
        owner_run_id: run,
        mode,
        lease_epoch: 1,
        enforcement_state: LeaseEnforcementState::Active,
        delegated_from: bytes(&[]),
        created_at_ms: NOW,
    };
    let shared = lease(WorkspaceAccessMode::SharedCoordinatedWrite);
    assert_eq!(code(record_lease(&mut state, shared)), ErrorCode::InvalidArgument);
    let reads = lease(WorkspaceAccessMode::ReadOnly);
    record_lease(&mut state, reads).expect("a lease for reading");
    let writes = lease(WorkspaceAccessMode::ExclusiveWrite);
    record_lease(&mut state, writes).expect("an exclusive lease");
}

#[test]
fn path_traversal_denied() {
    for bad in ["../etc/passwd", "a/../../b", "/abs", "a\\b"] {
        assert!(normalize_relative(bad).is_err(), "{bad} must be denied");
    }
    assert!(normalize_relative("new/nested.txt").is_ok());
    let fs = [("/w", Seen::There("/w")), ("/w/link", Seen::There("/outside/secret"))];
    assert!(resolve("link", &fs).is_err());
    assert_eq!(resolve("new/nested.txt", &fs).expect("a path"), ["new", "nested.txt"]);
    assert!(resolve("../etc/passwd", &fs).is_err());
}

#[derive(Clone, Copy)]
enum Seen {
    /// Something that resolves to this path.
    There(&'static str),
    /// A link that does not resolve, with this path.
    Link(&'static str),
}

/// Resolves a path in the workspace "/w" of a small file system.
fn resolve(relative: &str, fs: &[(&str, Seen)]) -> Result<Vec<String>, KernelError> {
    let mut event = ResolveEvent::Begun;
    loop {
        let walk = match resolve_relative(event, relative, "/w") {
            ResolveAction::Done(result) => return result,
            ResolveAction::Look(walk) => walk,
        };
        let path = format!("/{}", walk.at.join("/"));
        let mut sight = Sight { resolved: None, link: None };
        match fs.iter().find(|(p, _)| *p == path) {
            Some((_, Seen::There(real))) => sight.resolved = Some(real.to_string()),
            Some((_, Seen::Link(target))) => sight.link = Some(target.to_string()),
            None if path == "/" => sight.resolved = Some(path),
            None => {}
        }
        event = ResolveEvent::Seen { walk, sight };
    }
}

#[test]
fn dangling_links_are_followed() {
    let fs = [
        ("/w", Seen::There("/w")),
        ("/outside", Seen::There("/outside")),
        ("/w/inner", Seen::Link("made/later.txt")),
        ("/w/up", Seen::Link("../outside/later.txt")),
        ("/w/abs", Seen::Link("/outside/later.txt")),
        ("/w/home", Seen::Link("/w/later.txt")),
        ("/w/chain", Seen::Link("up")),
        ("/w/tame", Seen::Link("./inner")),
        ("/w/detour", Seen::Link("missing/../up")),
        ("/w/round", Seen::Link("missing/../inner")),
        ("/w/loop", Seen::Link("loop")),
        ("/w/spiral", Seen::Link("spiral/x")),
    ];
    for inside in ["inner", "home", "tame", "round", "inner/below.txt"] {
        assert!(resolve(inside, &fs).is_ok(), "{inside} stays in the workspace");
    }
    for outside in ["up", "abs", "chain", "detour", "up/below.txt"] {
        let error = resolve(outside, &fs).expect_err(outside);
        assert_eq!(error.code(), ErrorCode::FailedPrecondition);
        assert_eq!(error.message(), format!("path '{outside}' escapes the workspace"));
    }
    for nowhere in ["loop", "spiral", "loop/x"] {
        assert!(resolve(nowhere, &fs).is_ok(), "nothing opens behind {nowhere}");
    }
}

#[test]
fn paths_are_looked_at_as_the_system_has_them() {
    let ResolveAction::Look(walk) = resolve_relative(ResolveEvent::Begun, "é/a", "/w") else {
        panic!("the path is looked at");
    };
    assert_eq!(walk.at, ["w", "\u{c3}\u{a9}", "a"]);
    assert_eq!(resolve("é/a", &[("/w", Seen::There("/w"))]).expect("a path"), ["é", "a"]);
}

#[test]
fn directory_walks_pass_links_over() {
    assert_eq!(walk_entry(true, false), EntryStep::Descend);
    assert_eq!(walk_entry(false, true), EntryStep::Take);
    assert_eq!(walk_entry(false, false), EntryStep::Skip);
}

#[test]
fn relative_paths_are_normalized() {
    assert_eq!(normalize_relative("a//b/./c/").expect("a path"), ["a", "b", "c"]);
    let error = normalize_relative("./a").expect_err("a leading dot");
    assert_eq!(error.code(), ErrorCode::FailedPrecondition);
    assert_eq!(error.message(), "path './a' escapes the workspace");
    assert_eq!(
        normalize_relative("").expect_err("no path").message(),
        "path '' is not a normalized relative path"
    );
    assert_eq!(
        sort_names(vec!["b".to_string(), "a/z".to_string(), "a".to_string()]),
        ["a", "a/z", "b"]
    );
    let error = io_error("read");
    assert_eq!((error.code(), error.retry_class()), (ErrorCode::Unavailable, RetryClass::Safe));
    assert_eq!(error.message(), "workspace read failed");
}

#[test]
fn git_output_is_read() {
    assert!(tells_work_tree(true, b"true\n"));
    assert!(!tells_work_tree(false, b"true\n"));
    assert!(!tells_work_tree(true, b"false\n"));
    assert_eq!(head_of(true, b" abc\n", b"").expect("a head"), "abc");
    let error = head_of(false, b"", b"fatal: no\n").expect_err("a failure");
    assert_eq!(error.message(), "git rev-parse failed: fatal: no");
    assert_eq!(error.code(), ErrorCode::Unavailable);
    assert_eq!(files_of(true, b"a.txt\0b/c.txt\0", b"").expect("files"), ["a.txt", "b/c.txt"]);
    assert!(files_of(false, b"", b"x").is_err());
    assert_eq!(
        changed_of(false, b"", b"bad HEAD").expect_err("a failure").message(),
        "git diff failed: bad HEAD"
    );
    assert_eq!(git_error("copy", " x ").message(), "git copy failed: x");
    assert_eq!(conflicted_paths(b"a\nb\r\nc"), ["a", "b", "c"]);
    assert_eq!(merge_step_error(&[0xff, b'\n']).message(), "\u{fffd}");
}

fn action(event: MergeEvent) -> MergeAction {
    merge(event, "/src")
}

#[test]
fn merge_applies_clean_and_surfaces_conflicts() {
    let started = action(MergeEvent::Begun { target_is_git: true, source_is_git: true });
    assert!(matches!(started, MergeAction::ReadHead));
    let fetch = action(MergeEvent::Head(Ok("abc".to_string())));
    assert!(matches!(fetch, MergeAction::Fetch(args) if args == ["fetch", "/src", "abc"]));
    let merging = action(MergeEvent::Fetched(Ok(())));
    assert!(matches!(merging, MergeAction::Merge(args)
        if args == ["merge", "--no-commit", "--no-ff", "FETCH_HEAD"]));
    assert!(matches!(action(MergeEvent::Merged(Ok(()))), MergeAction::ListChanged(args)
        if args == ["diff", "--cached", "--name-only", "--no-renames", "-z", "HEAD"]));
    let changed = changed_of(true, b"child.txt\0", b"").expect("files");
    assert_eq!(changed, ["child.txt"]);
    let done = action(MergeEvent::Listed(Ok(changed)));
    assert!(matches!(done, MergeAction::Done(Ok(MergeOutcome { applied_files }))
        if applied_files == ["child.txt"]));

    let failed = KernelError::new(ErrorCode::Internal, RetryClass::Never, "conflict in shared.txt");
    let MergeAction::ListConflicts { told } = action(MergeEvent::Merged(Err(failed))) else {
        panic!("conflicts are listed");
    };
    let paths = vec!["shared.txt".to_string()];
    let MergeAction::Abort { args, error } = action(MergeEvent::Conflicts { paths, told }) else {
        panic!("the merge is taken back");
    };
    assert_eq!(args, ["merge", "--abort"]);
    let MergeAction::Done(Err(error)) = action(MergeEvent::Aborted(error)) else {
        panic!("the conflict surfaces");
    };
    assert_eq!(error.code(), ErrorCode::Conflict);
    assert_eq!(
        error.message(),
        "merge conflicted on [\"shared.txt\"]: conflict in shared.txt"
    );
}

#[test]
fn merges_need_git_and_stop_at_errors() {
    let refused = action(MergeEvent::Begun { target_is_git: true, source_is_git: false });
    let MergeAction::Done(Err(error)) = refused else {
        panic!("a copy is not merged");
    };
    assert_eq!(error.code(), ErrorCode::FailedPrecondition);
    let failed = || KernelError::new(ErrorCode::Unavailable, RetryClass::Never, "x");
    assert!(matches!(action(MergeEvent::Head(Err(failed()))), MergeAction::Done(Err(_))));
    assert!(matches!(action(MergeEvent::Fetched(Err(failed()))), MergeAction::Done(Err(_))));
    assert!(matches!(action(MergeEvent::Listed(Err(failed()))), MergeAction::Done(Err(_))));
    let two = merge_conflict_error(&vec!["a\"b".to_string(), "c".to_string()], "t");
    assert_eq!(two.message(), "merge conflicted on [\"a\\\"b\", \"c\"]: t");
}
