//! Sessions, agent specifications, tasks and runs.

use vstd::prelude::*;

use crate::domain::{
    AgentSpecId, EnvironmentId, EventCursor, RecoveryDisposition, RunId, RunState, SessionId,
    TaskId, TurnId,
};
use crate::errors::{
    conflict, conflict_error, failed_precondition, outcome, precondition_error, ErrorView,
    KernelError,
};
use crate::store::rows::{
    agent_spec_row, make_agent_spec, make_run, make_session, make_task, run_row, session_row,
    task_row, AgentSpecRow, NewAgentSpec, NewRun, NewSession, NewTask, RunRow, SessionRow, TaskRow,
};
use crate::store::state::{MockState, StoreModel};
use crate::store::table::{added, insert_unique, selects, some_row, Row};
use crate::text::same_text;

verus! {

// ---------------------------------------------------------------------------
// Sessions
// ---------------------------------------------------------------------------

/// The store after a session was recorded, and what that returns.
pub open spec fn session_added(m: StoreModel, new: NewSession) -> (StoreModel, Result<(), ErrorView>) {
    let a = added(m.sessions, new.session_id, session_row(new), "duplicate session id"@);
    (StoreModel { sessions: a.0, ..m }, a.1)
}

impl MockState {
    /// The session `id`.
    pub fn get_session(&self, id: SessionId) -> (r: Option<&SessionRow>)
        ensures
            match r {
                Some(row) => self@.sessions.contains_key(id) && self@.sessions[id] == *row,
                None => !self@.sessions.contains_key(id),
            },
    {
        self.sessions.get(&id)
    }

    /// Records a session.
    pub fn insert_session(&mut self, new: NewSession) -> (r: Result<(), KernelError>)
        ensures
            (final(self)@, outcome(r)) == session_added(old(self)@, new),
    {
        let id = new.session_id;
        let row = make_session(new);
        insert_unique(&mut self.sessions, id, row, "duplicate session id")
    }
}

// ---------------------------------------------------------------------------
// Agent specifications
// ---------------------------------------------------------------------------

/// The specifications with the digest `digest`.
pub open spec fn with_digest(digest: Seq<char>) -> spec_fn(AgentSpecRow) -> bool {
    |row: AgentSpecRow| row.digest@ == digest
}

/// The store after a revision of an agent's specification was recorded, and what
/// that returns: a revision is recorded once, and a digest belongs to one revision.
pub open spec fn agent_spec_added(m: StoreModel, new: NewAgentSpec) -> (StoreModel, Result<(), ErrorView>) {
    let key = (new.agent_spec_id, new.version@);
    if m.agent_specs.contains_key(key) {
        let stored = m.agent_specs[key];
        if stored.digest@ == new.digest@ && stored.body@ == new.body@ {
            (m, Ok(()))
        } else {
            (m, Err(conflict("agent spec revision conflicts with the stored revision"@)))
        }
    } else if some_row(m.agent_specs, with_digest(new.digest@)) {
        (m, Err(conflict("agent spec digest is already bound to another revision"@)))
    } else {
        (
            StoreModel { agent_specs: m.agent_specs.insert(key, agent_spec_row(new)), ..m },
            Ok(()),
        )
    }
}

impl MockState {
    /// The revision `version` of the specification `id`.
    pub fn get_agent_spec(&self, id: AgentSpecId, version: &str) -> (r: Option<&AgentSpecRow>)
        ensures
            match r {
                Some(row) => self@.agent_specs.contains_key((id, version@))
                    && self@.agent_specs[(id, version@)] == *row,
                None => !self@.agent_specs.contains_key((id, version@)),
            },
    {
        self.agent_specs.get(&(id, version.to_owned()))
    }

    /// Records a revision of an agent's specification.
    pub fn insert_agent_spec(&mut self, new: NewAgentSpec) -> (r: Result<(), KernelError>)
        ensures
            (final(self)@, outcome(r)) == agent_spec_added(old(self)@, new),
    {
        let key = (new.agent_spec_id, new.version.clone());
        if let Some(stored) = self.agent_specs.get(&key) {
            if same_text(stored.digest.as_str(), new.digest.as_str()) && stored.body.same_bytes(
                &new.body,
            ) {
                return Ok(());
            }
            return Err(conflict_error("agent spec revision conflicts with the stored revision"));
        }
        let ghost digest = new.digest@;
        let wanted = new.digest.clone();
        let test = |row: &AgentSpecRow| -> (b: bool)
            ensures
                b == (row.digest@ == wanted@),
            { same_text(row.digest.as_str(), wanted.as_str()) };
        if self.agent_specs.any(test, Ghost(with_digest(digest))) {
            return Err(conflict_error("agent spec digest is already bound to another revision"));
        }
        let row = make_agent_spec(new);
        self.agent_specs.put(key, row);
        Ok(())
    }
}

// ---------------------------------------------------------------------------
// Tasks
// ---------------------------------------------------------------------------

/// The store after a task was recorded, and what that returns.
pub open spec fn task_added(m: StoreModel, new: NewTask) -> (StoreModel, Result<(), ErrorView>) {
    if new.session_id matches Some(s) && !m.sessions.contains_key(s) {
        (m, Err(failed_precondition("task references a missing session"@)))
    } else {
        let a = added(m.tasks, new.task_id, task_row(new), "duplicate task id"@);
        (StoreModel { tasks: a.0, ..m }, a.1)
    }
}

/// The tasks of a session.
pub open spec fn task_of_session(session: SessionId) -> spec_fn(TaskRow) -> bool {
    |row: TaskRow| row.session_id == Some(session)
}

/// Tasks by their ids.
pub open spec fn task_order() -> spec_fn(TaskRow, TaskRow) -> bool {
    |a: TaskRow, b: TaskRow| a.task_id.number < b.task_id.number
}

impl MockState {
    /// The task `id`.
    pub fn get_task(&self, id: TaskId) -> (r: Option<&TaskRow>)
        ensures
            match r {
                Some(row) => self@.tasks.contains_key(id) && self@.tasks[id] == *row,
                None => !self@.tasks.contains_key(id),
            },
    {
        self.tasks.get(&id)
    }

    /// The tasks of a session, by their ids.
    pub fn list_tasks_by_session(&self, session: SessionId) -> (r: Vec<TaskRow>)
        ensures
            selects(r@, self@.tasks, task_of_session(session), task_order()),
    {
        let test = |row: &TaskRow| -> (b: bool)
            ensures
                b == (row.session_id == Some(session)),
            {
                match row.session_id {
                    Some(s) => s == session,
                    None => false,
                }
            };
        let less = |a: &TaskRow, b: &TaskRow| -> (c: bool)
            ensures
                c == (a.task_id.number < b.task_id.number),
            { a.task_id.number < b.task_id.number };
        self.tasks.select(test, less, Ghost(task_of_session(session)), Ghost(task_order()))
    }

    /// Records a task.
    pub fn insert_task(&mut self, new: NewTask) -> (r: Result<(), KernelError>)
        ensures
            (final(self)@, outcome(r)) == task_added(old(self)@, new),
    {
        if let Some(session) = new.session_id {
            if !self.sessions.contains(&session) {
                return Err(precondition_error("task references a missing session"));
            }
        }
        let id = new.task_id;
        let row = make_task(new);
        insert_unique(&mut self.tasks, id, row, "duplicate task id")
    }
}

// ---------------------------------------------------------------------------
// Runs
// ---------------------------------------------------------------------------

/// The claim of an executor on a run.
#[derive(Debug)]
pub struct RunClaim {
    pub owner: String,
    pub token: u64,
    pub expires_unix_ms: i64,
    pub daemon_epoch: u64,
}

/// What a change of a run expects of it.
#[derive(Clone, Copy, Debug, PartialEq, Eq, Structural)]
pub struct RunCas {
    pub run_revision: u64,
    pub state: Option<RunState>,
    pub cancellation_epoch: Option<u64>,
}

/// A change of a run: what is absent stays.
#[derive(Debug)]
pub struct RunPatch {
    pub state: Option<RunState>,
    pub recovery: Option<RecoveryDisposition>,
    pub loop_epoch: Option<u64>,
    pub step_sequence: Option<u64>,
    pub input_event_cursor: Option<EventCursor>,
    pub cancellation_epoch: Option<u64>,
    pub resolved_environment_id: Option<EnvironmentId>,
    pub claim: Option<RunClaim>,
    pub terminal_reason: Option<String>,
    pub output_ref: Option<String>,
    pub current_turn_id: Option<TurnId>,
    pub bump_revision: bool,
}

/// A change of a run that changes nothing.
pub open spec fn no_run_patch() -> RunPatch {
    RunPatch {
        state: None,
        recovery: None,
        loop_epoch: None,
        step_sequence: None,
        input_event_cursor: None,
        cancellation_epoch: None,
        resolved_environment_id: None,
        claim: None,
        terminal_reason: None,
        output_ref: None,
        current_turn_id: None,
        bump_revision: false,
    }
}

impl Default for RunPatch {
    /// A change that changes nothing.
    fn default() -> (r: Self)
        ensures
            r == no_run_patch(),
    {
        RunPatch {
            state: None,
            recovery: None,
            loop_epoch: None,
            step_sequence: None,
            input_event_cursor: None,
            cancellation_epoch: None,
            resolved_environment_id: None,
            claim: None,
            terminal_reason: None,
            output_ref: None,
            current_turn_id: None,
            bump_revision: false,
        }
    }
}

/// `new`, or `old` without one.
pub open spec fn or_old<T>(new: Option<T>, old: T) -> T {
    match new {
        Some(x) => x,
        None => old,
    }
}

/// `new`, or `old` without one.
pub open spec fn or_kept<T>(new: Option<T>, old: Option<T>) -> Option<T> {
    match new {
        Some(x) => Some(x),
        None => old,
    }
}

/// `n + 1`, at most the greatest `u64`.
pub open spec fn next_number(n: u64) -> u64 {
    if n == u64::MAX {
        n
    } else {
        (n + 1) as u64
    }
}

/// `n + 1`, at most the greatest `u64`.
pub fn bump(n: u64) -> (r: u64)
    ensures
        r == next_number(n),
{
    if n == u64::MAX {
        n
    } else {
        n + 1
    }
}

/// Whether a run is as a change expects it.
pub open spec fn run_meets(run: RunRow, expect: RunCas) -> bool {
    &&& run.run_revision == expect.run_revision
    &&& expect.state matches Some(s) ==> run.state == s
    &&& expect.cancellation_epoch matches Some(e) ==> run.cancellation_epoch == e
}

/// A run after a change.
pub open spec fn run_patched(run: RunRow, patch: RunPatch) -> RunRow {
    RunRow {
        state: or_old(patch.state, run.state),
        recovery: or_old(patch.recovery, run.recovery),
        loop_epoch: or_old(patch.loop_epoch, run.loop_epoch),
        step_sequence: or_old(patch.step_sequence, run.step_sequence),
        input_event_cursor: or_old(patch.input_event_cursor, run.input_event_cursor),
        cancellation_epoch: or_old(patch.cancellation_epoch, run.cancellation_epoch),
        resolved_environment_id: or_kept(patch.resolved_environment_id, run.resolved_environment_id),
        claim_owner: match patch.claim {
            Some(c) => Some(c.owner),
            None => run.claim_owner,
        },
        claim_token: match patch.claim {
            Some(c) => Some(c.token),
            None => run.claim_token,
        },
        claim_expires_ms: match patch.claim {
            Some(c) => Some(c.expires_unix_ms),
            None => run.claim_expires_ms,
        },
        claim_daemon_epoch: match patch.claim {
            Some(c) => Some(c.daemon_epoch),
            None => run.claim_daemon_epoch,
        },
        terminal_reason: or_kept(patch.terminal_reason, run.terminal_reason),
        output_ref: or_kept(patch.output_ref, run.output_ref),
        current_turn_id: or_kept(patch.current_turn_id, run.current_turn_id),
        run_revision: if patch.bump_revision {
            next_number(run.run_revision)
        } else {
            run.run_revision
        },
        ..run
    }
}

/// The store after a run was recorded, and what that returns.
pub open spec fn run_added(m: StoreModel, new: NewRun) -> (StoreModel, Result<(), ErrorView>) {
    if !m.tasks.contains_key(new.task_id) {
        (m, Err(failed_precondition("run references a missing task"@)))
    } else if new.parent_run_id matches Some(p) && !m.runs.contains_key(p) {
        (m, Err(failed_precondition("run references a missing parent run"@)))
    } else {
        let a = added(m.runs, new.run_id, run_row(new), "duplicate run id"@);
        (StoreModel { runs: a.0, ..m }, a.1)
    }
}

/// The store after a change of a run, and whether it was made: a run that is not
/// as the change expects it stays.
pub open spec fn run_changed(m: StoreModel, id: RunId, expect: RunCas, patch: RunPatch) -> (StoreModel, bool) {
    if m.runs.contains_key(id) && run_meets(m.runs[id], expect) {
        (StoreModel { runs: m.runs.insert(id, run_patched(m.runs[id], patch)), ..m }, true)
    } else {
        (m, false)
    }
}

/// The runs of a task.
pub open spec fn run_of_task(task: TaskId) -> spec_fn(RunRow) -> bool {
    |row: RunRow| row.task_id == task
}

/// The runs that have not ended.
pub open spec fn run_is_active() -> spec_fn(RunRow) -> bool {
    |row: RunRow| !row.state.ended()
}

/// Runs by their ids.
pub open spec fn run_order() -> spec_fn(RunRow, RunRow) -> bool {
    |a: RunRow, b: RunRow| a.run_id.number < b.run_id.number
}

/// Runs by the time of their creation, and then by their ids.
pub open spec fn run_age_order() -> spec_fn(RunRow, RunRow) -> bool {
    |a: RunRow, b: RunRow|
        a.created_at_ms < b.created_at_ms || a.created_at_ms == b.created_at_ms && a.run_id.number
            < b.run_id.number
}

impl MockState {
    /// The run `id`.
    pub fn get_run(&self, id: RunId) -> (r: Option<&RunRow>)
        ensures
            match r {
                Some(row) => self@.runs.contains_key(id) && self@.runs[id] == *row,
                None => !self@.runs.contains_key(id),
            },
    {
        self.runs.get(&id)
    }

    /// The runs of a task, by their ids.
    pub fn list_runs_by_task(&self, task: TaskId) -> (r: Vec<RunRow>)
        ensures
            selects(r@, self@.runs, run_of_task(task), run_order()),
    {
        let test = |row: &RunRow| -> (b: bool)
            ensures
                b == (row.task_id == task),
            { row.task_id == task };
        let less = |a: &RunRow, b: &RunRow| -> (c: bool)
            ensures
                c == (a.run_id.number < b.run_id.number),
            { a.run_id.number < b.run_id.number };
        self.runs.select(test, less, Ghost(run_of_task(task)), Ghost(run_order()))
    }

    /// The runs that have not ended, the oldest first.
    pub fn list_active_runs(&self) -> (r: Vec<RunRow>)
        ensures
            selects(r@, self@.runs, run_is_active(), run_age_order()),
    {
        let test = |row: &RunRow| -> (b: bool)
            ensures
                b == !row.state.ended(),
            { !row.state.is_terminal() };
        let less = |a: &RunRow, b: &RunRow| -> (c: bool)
            ensures
                c == (a.created_at_ms < b.created_at_ms || a.created_at_ms == b.created_at_ms
                    && a.run_id.number < b.run_id.number),
            {
                a.created_at_ms < b.created_at_ms || (a.created_at_ms == b.created_at_ms
                    && a.run_id.number < b.run_id.number)
            };
        self.runs.select(test, less, Ghost(run_is_active()), Ghost(run_age_order()))
    }

    /// Records a run.
    pub fn insert_run(&mut self, new: NewRun) -> (r: Result<(), KernelError>)
        ensures
            (final(self)@, outcome(r)) == run_added(old(self)@, new),
    {
        if !self.tasks.contains(&new.task_id) {
            return Err(precondition_error("run references a missing task"));
        }
        if let Some(parent) = new.parent_run_id {
            if !self.runs.contains(&parent) {
                return Err(precondition_error("run references a missing parent run"));
            }
        }
        let id = new.run_id;
        let row = make_run(new);
        insert_unique(&mut self.runs, id, row, "duplicate run id")
    }

    /// Changes a run that is as `expect` says.
    pub fn cas_update_run(&mut self, id: RunId, expect: RunCas, patch: RunPatch) -> (r: bool)
        ensures
            (final(self)@, r) == run_changed(old(self)@, id, expect, patch),
    {
        let mut run = match self.runs.get(&id) {
            Some(row) => row.copy_row(),
            None => return false,
        };
        if run.run_revision != expect.run_revision {
            return false;
        }
        if let Some(state) = expect.state {
            if run.state != state {
                return false;
            }
        }
        if let Some(epoch) = expect.cancellation_epoch {
            if run.cancellation_epoch != epoch {
                return false;
            }
        }
        if let Some(value) = patch.state {
            run.state = value;
        }
        if let Some(value) = patch.recovery {
            run.recovery = value;
        }
        if let Some(value) = patch.loop_epoch {
            run.loop_epoch = value;
        }
        if let Some(value) = patch.step_sequence {
            run.step_sequence = value;
        }
        if let Some(value) = patch.input_event_cursor {
            run.input_event_cursor = value;
        }
        if let Some(value) = patch.cancellation_epoch {
            run.cancellation_epoch = value;
        }
        if let Some(value) = patch.resolved_environment_id {
            run.resolved_environment_id = Some(value);
        }
        if let Some(claim) = patch.claim {
            run.claim_owner = Some(claim.owner);
            run.claim_token = Some(claim.token);
            run.claim_expires_ms = Some(claim.expires_unix_ms);
            run.claim_daemon_epoch = Some(claim.daemon_epoch);
        }
        if let Some(value) = patch.terminal_reason {
            run.terminal_reason = Some(value);
        }
        if let Some(value) = patch.output_ref {
            run.output_ref = Some(value);
        }
        if let Some(value) = patch.current_turn_id {
            run.current_turn_id = Some(value);
        }
        if patch.bump_revision {
            run.run_revision = bump(run.run_revision);
        }
        self.runs.put(id, run);
        true
    }
}

/// Of the changes that expect one revision at most one moves it on: the others then
/// change nothing.
pub proof fn revisions_are_used_once(
    m: StoreModel,
    id: RunId,
    expect: RunCas,
    patch: RunPatch,
    late: RunCas,
    other: RunPatch,
)
    requires
        run_changed(m, id, expect, patch).1,
        patch.bump_revision,
        expect.run_revision < u64::MAX,
        late.run_revision == expect.run_revision,
    ensures
        ({
            let after = run_changed(m, id, expect, patch).0;
            &&& after.runs[id].run_revision == expect.run_revision + 1
            &&& run_changed(after, id, late, other) == (after, false)
        }),
{
}

/// The revision of a run never falls, whatever change is tried.
pub proof fn revisions_never_fall(m: StoreModel, id: RunId, expect: RunCas, patch: RunPatch, run: RunId)
    requires
        m.runs.contains_key(run),
    ensures
        ({
            let after = run_changed(m, id, expect, patch).0;
            after.runs.contains_key(run) && after.runs[run].run_revision >= m.runs[run].run_revision
        }),
{
}

} // verus!
