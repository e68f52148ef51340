//! The graph of dependencies between the runs of a task.

use vstd::prelude::*;

use crate::domain::{DependencyId, RunId, TaskId};
use crate::errors::{
    conflict, conflict_error, failed_precondition, not_found, not_found_error, outcome,
    precondition_error, ErrorView, KernelError,
};
use crate::store::rows::{
    make_run_dependency, run_dependency_row, NewRunDependency, RunDependencyRow, RunGraphHeadRow,
};
use crate::store::runs::{bump, next_number};
use crate::store::state::{MockState, StoreModel};
use crate::store::table::{covers, selects, some_row, Row};

verus! {

// ---------------------------------------------------------------------------
// Reachability
// ---------------------------------------------------------------------------

/// Whether some dependency leads from `a` to `b`.
pub open spec fn is_edge(deps: Map<DependencyId, RunDependencyRow>, a: RunId, b: RunId) -> bool {
    exists|d: DependencyId| #[trigger]
        deps.contains_key(d) && deps[d].source_run_id == a && deps[d].target_run_id == b
}

/// Whether each run of `path` depends on the next one.
pub open spec fn is_path(deps: Map<DependencyId, RunDependencyRow>, path: Seq<RunId>) -> bool {
    &&& path.len() > 0
    &&& forall|i: int| 0 <= i < path.len() - 1 ==> is_edge(deps, #[trigger] path[i], path[i + 1])
}

/// Whether dependencies lead from `from` to `to`, in any number of steps.
pub open spec fn reachable(deps: Map<DependencyId, RunDependencyRow>, from: RunId, to: RunId) -> bool {
    exists|path: Seq<RunId>| #[trigger] is_path(deps, path) && path[0] == from && path.last() == to
}

/// A run reaches itself.
pub proof fn reaches_itself(deps: Map<DependencyId, RunDependencyRow>, a: RunId)
    ensures
        reachable(deps, a, a),
{
    assert(is_path(deps, seq![a]));
}

/// What an edge leads to, its origin reaches, too.
pub proof fn reaches_over_edge(deps: Map<DependencyId, RunDependencyRow>, a: RunId, b: RunId, c: RunId)
    requires
        is_edge(deps, a, b),
        reachable(deps, b, c),
    ensures
        reachable(deps, a, c),
{
    let path = choose|path: Seq<RunId>| #[trigger] is_path(deps, path) && path[0] == b && path.last() == c;
    let longer = seq![a] + path;
    assert forall|i: int| 0 <= i < longer.len() - 1 implies is_edge(deps, #[trigger] longer[i], longer[i
        + 1]) by {
        if i > 0 {
            assert(longer[i] == path[i - 1] && longer[i + 1] == path[i]);
        }
    }
    assert(is_path(deps, longer));
    assert(longer.last() == c);
}

/// Reachability is transitive.
pub proof fn reaches_onward(deps: Map<DependencyId, RunDependencyRow>, a: RunId, b: RunId, c: RunId)
    requires
        reachable(deps, a, b),
        reachable(deps, b, c),
    ensures
        reachable(deps, a, c),
{
    let path = choose|path: Seq<RunId>| #[trigger] is_path(deps, path) && path[0] == a && path.last() == b;
    path_reaches_onward(deps, path, c);
}

proof fn path_reaches_onward(deps: Map<DependencyId, RunDependencyRow>, path: Seq<RunId>, c: RunId)
    requires
        is_path(deps, path),
        reachable(deps, path.last(), c),
    ensures
        reachable(deps, path[0], c),
    decreases path.len(),
{
    if path.len() > 1 {
        let rest = path.skip(1);
        assert forall|i: int| 0 <= i < rest.len() - 1 implies is_edge(deps, #[trigger] rest[i], rest[i + 1]) by {
            assert(is_edge(deps, path[i + 1], path[i + 2]));
        }
        assert(rest.last() == path.last());
        path_reaches_onward(deps, rest, c);
        assert(is_edge(deps, path[0], path[1]));
        reaches_over_edge(deps, path[0], rest[0], c);
    }
}

/// Whether `seen` holds every run that an edge leads to from one of its first
/// `done` runs.
pub open spec fn closed_upto(deps: Map<DependencyId, RunDependencyRow>, seen: Seq<RunId>, done: int) -> bool {
    forall|i: int, b: RunId|
        #![trigger seen[i], is_edge(deps, seen[i], b)]
        0 <= i < done && is_edge(deps, seen[i], b) ==> seen.contains(b)
}

proof fn closed_set_has_paths(deps: Map<DependencyId, RunDependencyRow>, seen: Seq<RunId>, path: Seq<RunId>)
    requires
        closed_upto(deps, seen, seen.len() as int),
        is_path(deps, path),
        seen.contains(path[0]),
    ensures
        seen.contains(path.last()),
    decreases path.len(),
{
    if path.len() > 1 {
        let rest = path.skip(1);
        assert forall|i: int| 0 <= i < rest.len() - 1 implies is_edge(deps, #[trigger] rest[i], rest[i + 1]) by {
            assert(is_edge(deps, path[i + 1], path[i + 2]));
        }
        assert(is_edge(deps, path[0], path[1]));
        let i = choose|i: int| 0 <= i < seen.len() && seen[i] == path[0];
        assert(is_edge(deps, seen[i], path[1]));
        assert(seen.contains(rest[0]));
        closed_set_has_paths(deps, seen, rest);
        assert(rest.last() == path.last());
    }
}

/// Whether `runs` holds `run`.
fn holds_run(runs: &Vec<RunId>, run: RunId) -> (r: bool)
    ensures
        r == runs@.contains(run),
{
    let mut i: usize = 0;
    while i < runs.len()
        invariant
            i <= runs.len(),
            forall|k: int| 0 <= k < i ==> runs@[k] != run,
        decreases runs.len() - i,
    {
        if runs[i] == run {
            assert(runs@[i as int] == run);
            return true;
        }
        i += 1;
    }
    false
}

impl MockState {
    /// The runs of `seen`, and those that an edge from its run at `at` leads to.
    fn visit(&self, seen: &mut Vec<RunId>, at: usize, Ghost(from): Ghost<RunId>)
        requires
            at < old(seen).len(),
            closed_upto(self@.dependencies, old(seen)@, at as int),
            forall|i: int| 0 <= i < old(seen).len() ==> reachable(self@.dependencies, from, #[trigger] old(seen)@[i]),
            old(seen)@.no_duplicates(),
        ensures
            old(seen).len() <= final(seen).len(),
            final(seen)@.take(old(seen).len() as int) == old(seen)@,
            closed_upto(self@.dependencies, final(seen)@, at + 1),
            forall|i: int| 0 <= i < final(seen).len() ==> reachable(self@.dependencies, from, #[trigger] final(seen)@[i]),
            final(seen)@.no_duplicates(),
    {
        let ghost first = seen@;
        let current = seen[at];
        let ghost deps = self@.dependencies;
        let n: usize = self.dependencies.len();
        let ghost p = self.dependencies.pairs();
        let mut i: usize = 0;
        assert(first.take(first.len() as int) =~= first);
        while i < n
            invariant
                i <= n,
                n == p.len(),
                p == self.dependencies.pairs(),
                deps == self@.dependencies,
                covers(p, deps),
                at < first.len() <= seen.len(),
                current == first[at as int],
                seen@.take(first.len() as int) == first,
                closed_upto(deps, seen@, at as int),
                forall|k: int| 0 <= k < seen.len() ==> reachable(deps, from, #[trigger] seen@[k]),
                forall|a: int|
                    0 <= a < i && (#[trigger] p[a]).1.source_run_id == current ==> seen@.contains(
                        p[a].1.target_run_id,
                    ),
                seen@.no_duplicates(),
            decreases n - i,
        {
            let row = self.dependencies.row(i);
            if row.source_run_id == current {
                let target = row.target_run_id;
                if !holds_run(seen, target) {
                    let ghost before = seen@;
                    proof {
                        assert(deps.contains_key(p[i as int].0) && deps[p[i as int].0] == p[i as int].1);
                        assert(is_edge(deps, current, target));
                        assert(before[at as int] == before.take(first.len() as int)[at as int]);
                        assert(reachable(deps, from, before[at as int]));
                        reaches_itself(deps, target);
                        reaches_over_edge(deps, current, target, target);
                        reaches_onward(deps, from, current, target);
                    }
                    seen.push(target);
                    proof {
                        let now = seen@;
                        assert(now =~= before.push(target));
                        assert(now.take(first.len() as int) =~= before.take(first.len() as int));
                        assert forall|a: int, b: RunId|
                            #![trigger now[a], is_edge(deps, now[a], b)]
                            0 <= a < at && is_edge(deps, now[a], b) implies now.contains(b) by {
                            assert(now[a] == before[a]);
                            assert(before.contains(b));
                            let k = choose|k: int| 0 <= k < before.len() && before[k] == b;
                            assert(now[k] == b);
                        }
                        assert forall|a: int|
                            0 <= a < i && (#[trigger] p[a]).1.source_run_id == current implies now.contains(
                            p[a].1.target_run_id,
                        ) by {
                            let k = choose|k: int| 0 <= k < before.len() && before[k] == p[a].1.target_run_id;
                            assert(now[k] == p[a].1.target_run_id);
                        }
                        assert(now[before.len() as int] == target);
                        assert forall|k: int| 0 <= k < now.len() implies reachable(deps, from, #[trigger] now[k]) by {
                            if k < before.len() {
                                assert(now[k] == before[k]);
                            }
                        }
                    }
                }
            }
            i += 1;
        }
        proof {
            let now = seen@;
            assert(now[at as int] == now.take(first.len() as int)[at as int]);
            assert forall|a: int, b: RunId|
                #![trigger now[a], is_edge(deps, now[a], b)]
                0 <= a < at + 1 && is_edge(deps, now[a], b) implies now.contains(b) by {
                if a == at {
                    let d = choose|d: DependencyId| #[trigger]
                        deps.contains_key(d) && deps[d].source_run_id == now[a] && deps[d].target_run_id == b;
                    let x = choose|x: int| 0 <= x < p.len() && (#[trigger] p[x]).0 == d;
                    assert(p[x].1.source_run_id == current);
                }
            }
        }
    }

    /// Whether dependencies lead from `from` to `to`.
    pub fn is_reachable(&self, from: RunId, to: RunId) -> (r: bool)
        ensures
            r == reachable(self@.dependencies, from, to),
    {
        let ghost deps = self@.dependencies;
        let mut seen: Vec<RunId> = Vec::new();
        seen.push(from);
        let n: usize = self.dependencies.len();
        let ghost targets = Seq::new(n as nat, |i: int| self.dependencies.pairs()[i].1.target_run_id);
        proof {
            reaches_itself(deps, from);
        }
        let mut at: usize = 0;
        while at < seen.len()
            invariant
                at <= seen.len(),
                deps == self@.dependencies,
                seen@.len() > 0,
                seen@[0] == from,
                closed_upto(deps, seen@, at as int),
                forall|i: int| 0 <= i < seen.len() ==> reachable(deps, from, #[trigger] seen@[i]),
                seen@.no_duplicates(),
                covers(self.dependencies.pairs(), deps),
                targets == Seq::new(
                    self.dependencies.pairs().len(),
                    |i: int| self.dependencies.pairs()[i].1.target_run_id,
                ),
            decreases targets.len() + 1 - at,
        {
            let ghost before = seen@;
            self.visit(&mut seen, at, Ghost(from));
            proof {
                assert(seen@[0] == seen@.take(before.len() as int)[0]);
                seen_is_bounded(deps, self.dependencies.pairs(), targets, from, seen@);
            }
            at += 1;
        }
        let found = holds_run(&seen, to);
        proof {
            if found {
                let i = choose|i: int| 0 <= i < seen.len() && seen@[i] == to;
                assert(reachable(deps, from, seen@[i]));
            } else if reachable(deps, from, to) {
                let path = choose|path: Seq<RunId>| #[trigger]
                    is_path(deps, path) && path[0] == from && path.last() == to;
                assert(seen@[0] == from);
                closed_set_has_paths(deps, seen@, path);
            }
        }
        found
    }
}

proof fn reached_is_a_target(
    deps: Map<DependencyId, RunDependencyRow>,
    pairs: Seq<(DependencyId, RunDependencyRow)>,
    targets: Seq<RunId>,
    from: RunId,
    run: RunId,
)
    requires
        covers(pairs, deps),
        targets == Seq::new(pairs.len(), |i: int| pairs[i].1.target_run_id),
        reachable(deps, from, run),
        run != from,
    ensures
        targets.contains(run),
{
    let path = choose|path: Seq<RunId>| #[trigger] is_path(deps, path) && path[0] == from && path.last() == run;
    assert(path.len() > 1);
    let k = path.len() - 2;
    assert(is_edge(deps, path[k], path[k + 1]));
    let d = choose|d: DependencyId| #[trigger]
        deps.contains_key(d) && deps[d].source_run_id == path[k] && deps[d].target_run_id == run;
    let x = choose|x: int| 0 <= x < pairs.len() && (#[trigger] pairs[x]).0 == d;
    assert(targets[x] == run);
}

/// A search never sees more runs than there are dependencies, and its first one.
proof fn seen_is_bounded(
    deps: Map<DependencyId, RunDependencyRow>,
    pairs: Seq<(DependencyId, RunDependencyRow)>,
    targets: Seq<RunId>,
    from: RunId,
    seen: Seq<RunId>,
)
    requires
        covers(pairs, deps),
        targets == Seq::new(pairs.len(), |i: int| pairs[i].1.target_run_id),
        forall|i: int| 0 <= i < seen.len() ==> reachable(deps, from, #[trigger] seen[i]),
        seen.no_duplicates(),
    ensures
        seen.len() <= targets.len() + 1,
{
    let all = targets.push(from);
    assert forall|x: RunId| seen.to_set().contains(x) implies all.to_set().contains(x) by {
        let i = choose|i: int| 0 <= i < seen.len() && seen[i] == x;
        assert(reachable(deps, from, seen[i]));
        if x == from {
            assert(all[targets.len() as int] == x);
        } else {
            reached_is_a_target(deps, pairs, targets, from, x);
            let k = choose|k: int| 0 <= k < targets.len() && targets[k] == x;
            assert(all[k] == x);
        }
    }
    seen.unique_seq_to_set();
    all.lemma_cardinality_of_set();
    vstd::set_lib::lemma_len_subset(seen.to_set(), all.to_set());
}

// ---------------------------------------------------------------------------
// Heads and dependencies
// ---------------------------------------------------------------------------

/// The store with a head for the graph of a task, and the head.
pub open spec fn head_ensured(m: StoreModel, task: TaskId) -> (StoreModel, RunGraphHeadRow) {
    if m.graph_heads.contains_key(task) {
        (m, m.graph_heads[task])
    } else {
        let head = RunGraphHeadRow { task_id: task, graph_revision: 0 };
        (StoreModel { graph_heads: m.graph_heads.insert(task, head), ..m }, head)
    }
}

/// The store after the revision of a task's graph was moved on.
pub open spec fn head_moved(m: StoreModel, task: TaskId) -> StoreModel {
    let head = m.graph_heads[task];
    StoreModel {
        graph_heads: m.graph_heads.insert(
            task,
            RunGraphHeadRow { graph_revision: next_number(head.graph_revision), ..head },
        ),
        ..m
    }
}

/// The store after the revision of a task's graph was moved on from `expected`,
/// and whether it was.
pub open spec fn head_changed(m: StoreModel, task: TaskId, expected: u64) -> (StoreModel, bool) {
    if m.graph_heads.contains_key(task) && m.graph_heads[task].graph_revision == expected {
        (head_moved(m, task), true)
    } else {
        (m, false)
    }
}

/// The dependencies between two runs.
pub open spec fn joins(source: RunId, target: RunId) -> spec_fn(RunDependencyRow) -> bool {
    |row: RunDependencyRow| row.source_run_id == source && row.target_run_id == target
}

/// The store after a dependency was recorded, and what that returns: the graph must
/// be at the expected revision, both runs must be there, and the dependency may
/// neither close a cycle nor be there already.
pub open spec fn dependency_added(m: StoreModel, new: NewRunDependency, expected_revision: u64) -> (
    StoreModel,
    Result<(), ErrorView>,
) {
    if !m.graph_heads.contains_key(new.task_id) {
        (m, Err(not_found("graph head missing for task"@)))
    } else if m.graph_heads[new.task_id].graph_revision != expected_revision {
        (m, Err(conflict("graph revision conflict"@)))
    } else if !m.runs.contains_key(new.source_run_id) || !m.runs.contains_key(new.target_run_id) {
        (m, Err(failed_precondition("dependency references a missing run"@)))
    } else if reachable(m.dependencies, new.target_run_id, new.source_run_id) {
        (m, Err(conflict("dependency would create a cycle"@)))
    } else if some_row(m.dependencies, joins(new.source_run_id, new.target_run_id)) {
        (m, Err(conflict("duplicate run dependency"@)))
    } else if m.dependencies.contains_key(new.dependency_id) {
        (m, Err(conflict("duplicate dependency id"@)))
    } else {
        let row = run_dependency_row(new, expected_revision);
        (
            head_moved(
                StoreModel { dependencies: m.dependencies.insert(new.dependency_id, row), ..m },
                new.task_id,
            ),
            Ok(()),
        )
    }
}

/// The dependencies of a task.
pub open spec fn dependency_of_task(task: TaskId) -> spec_fn(RunDependencyRow) -> bool {
    |row: RunDependencyRow| row.task_id == task
}

/// Dependencies by the revision at which they were recorded, and then by their ids.
pub open spec fn dependency_order() -> spec_fn(RunDependencyRow, RunDependencyRow) -> bool {
    |a: RunDependencyRow, b: RunDependencyRow|
        a.created_graph_revision < b.created_graph_revision || a.created_graph_revision
            == b.created_graph_revision && a.dependency_id.number < b.dependency_id.number
}

impl MockState {
    /// The head of the graph of a task.
    pub fn get_head(&self, task: TaskId) -> (r: Option<&RunGraphHeadRow>)
        ensures
            match r {
                Some(row) => self@.graph_heads.contains_key(task) && self@.graph_heads[task] == *row,
                None => !self@.graph_heads.contains_key(task),
            },
    {
        self.graph_heads.get(&task)
    }

    /// The dependencies of a task, the oldest first.
    pub fn list_dependencies(&self, task: TaskId) -> (r: Vec<RunDependencyRow>)
        ensures
            selects(r@, self@.dependencies, dependency_of_task(task), dependency_order()),
    {
        let test = |row: &RunDependencyRow| -> (b: bool)
            ensures
                b == (row.task_id == task),
            { row.task_id == task };
        let less = |a: &RunDependencyRow, b: &RunDependencyRow| -> (c: bool)
            ensures
                c == (a.created_graph_revision < b.created_graph_revision
                    || a.created_graph_revision == b.created_graph_revision
                    && a.dependency_id.number < b.dependency_id.number),
            {
                a.created_graph_revision < b.created_graph_revision || (a.created_graph_revision
                    == b.created_graph_revision && a.dependency_id.number < b.dependency_id.number)
            };
        self.dependencies.select(
            test,
            less,
            Ghost(dependency_of_task(task)),
            Ghost(dependency_order()),
        )
    }

    /// The head of the graph of a task, which is made where there is none.
    pub fn ensure_head(&mut self, task: TaskId) -> (r: RunGraphHeadRow)
        ensures
            (final(self)@, r) == head_ensured(old(self)@, task),
    {
        if let Some(head) = self.graph_heads.get(&task) {
            return head.copy_row();
        }
        let head = RunGraphHeadRow { task_id: task, graph_revision: 0 };
        let kept = head.copy_row();
        self.graph_heads.put(task, kept);
        head
    }

    /// Moves the revision of a task's graph on from `expected`.
    pub fn cas_head_revision(&mut self, task: TaskId, expected: u64) -> (r: bool)
        ensures
            (final(self)@, r) == head_changed(old(self)@, task, expected),
    {
        let mut head = match self.graph_heads.get(&task) {
            Some(head) => head.copy_row(),
            None => return false,
        };
        if head.graph_revision != expected {
            return false;
        }
        head.graph_revision = bump(head.graph_revision);
        self.graph_heads.put(task, head);
        true
    }

    /// Records a dependency.
    pub fn insert_dependency(&mut self, new: NewRunDependency, expected_revision: u64) -> (r: Result<
        (),
        KernelError,
    >)
        ensures
            (final(self)@, outcome(r)) == dependency_added(old(self)@, new, expected_revision),
    {
        let mut head = match self.graph_heads.get(&new.task_id) {
            Some(head) => head.copy_row(),
            None => return Err(not_found_error("graph head missing for task")),
        };
        if head.graph_revision != expected_revision {
            return Err(conflict_error("graph revision conflict"));
        }
        if !self.runs.contains(&new.source_run_id) || !self.runs.contains(&new.target_run_id) {
            return Err(precondition_error("dependency references a missing run"));
        }
        if self.is_reachable(new.target_run_id, new.source_run_id) {
            return Err(conflict_error("dependency would create a cycle"));
        }
        let source = new.source_run_id;
        let target = new.target_run_id;
        let test = |row: &RunDependencyRow| -> (b: bool)
            ensures
                b == (row.source_run_id == source && row.target_run_id == target),
            { row.source_run_id == source && row.target_run_id == target };
        if self.dependencies.any(test, Ghost(joins(source, target))) {
            return Err(conflict_error("duplicate run dependency"));
        }
        let id = new.dependency_id;
        let task = new.task_id;
        let row = make_run_dependency(new, expected_revision);
        if self.dependencies.contains(&id) {
            return Err(conflict_error("duplicate dependency id"));
        }
        self.dependencies.put(id, row);
        head.graph_revision = bump(head.graph_revision);
        self.graph_heads.put(task, head);
        Ok(())
    }
}

// ---------------------------------------------------------------------------
// What holds of every graph
// ---------------------------------------------------------------------------

/// Whether no dependency lies on a cycle.
pub open spec fn is_acyclic(deps: Map<DependencyId, RunDependencyRow>) -> bool {
    forall|a: RunId, b: RunId| #[trigger] is_edge(deps, a, b) ==> !reachable(deps, b, a)
}

proof fn new_edge_paths(
    deps: Map<DependencyId, RunDependencyRow>,
    id: DependencyId,
    row: RunDependencyRow,
    path: Seq<RunId>,
)
    requires
        !deps.contains_key(id),
        is_path(deps.insert(id, row), path),
    ensures
        reachable(deps, path[0], path.last()) || (reachable(deps, path[0], row.source_run_id)
            && reachable(deps, row.target_run_id, path.last())),
    decreases path.len(),
{
    let more = deps.insert(id, row);
    if path.len() == 1 {
        reaches_itself(deps, path[0]);
    } else {
        let rest = path.skip(1);
        assert forall|i: int| 0 <= i < rest.len() - 1 implies is_edge(more, #[trigger] rest[i], rest[i + 1]) by {
            assert(is_edge(more, path[i + 1], path[i + 2]));
        }
        new_edge_paths(deps, id, row, rest);
        assert(rest.last() == path.last());
        assert(is_edge(more, path[0], path[1]));
        let d = choose|d: DependencyId| #[trigger]
            more.contains_key(d) && more[d].source_run_id == path[0] && more[d].target_run_id == path[1];
        if d == id {
            reaches_itself(deps, path[0]);
        } else {
            assert(deps.contains_key(d));
            assert(is_edge(deps, path[0], path[1]));
            if reachable(deps, rest[0], path.last()) {
                reaches_over_edge(deps, path[0], rest[0], path.last());
            } else {
                reaches_over_edge(deps, path[0], rest[0], row.source_run_id);
            }
        }
    }
}

/// No dependency that is recorded closes a cycle: a graph without cycles stays
/// without.
pub proof fn graph_stays_acyclic(m: StoreModel, new: NewRunDependency, expected_revision: u64)
    requires
        is_acyclic(m.dependencies),
    ensures
        is_acyclic(dependency_added(m, new, expected_revision).0.dependencies),
{
    let deps = m.dependencies;
    let row = run_dependency_row(new, expected_revision);
    let id = new.dependency_id;
    let more = dependency_added(m, new, expected_revision).0.dependencies;
    if dependency_added(m, new, expected_revision).1 is Ok {
        let s = new.source_run_id;
        let t = new.target_run_id;
        assert(more == deps.insert(id, row));
        assert forall|a: RunId, b: RunId| #[trigger] is_edge(more, a, b) implies !reachable(more, b, a) by {
            if reachable(more, b, a) {
                let path = choose|path: Seq<RunId>| #[trigger]
                    is_path(more, path) && path[0] == b && path.last() == a;
                new_edge_paths(deps, id, row, path);
                let d = choose|d: DependencyId| #[trigger]
                    more.contains_key(d) && more[d].source_run_id == a && more[d].target_run_id == b;
                if d == id {
                    assert(reachable(deps, t, s));
                } else {
                    assert(deps.contains_key(d));
                    assert(is_edge(deps, a, b));
                    reaches_over_edge(deps, a, b, s);
                    reaches_onward(deps, t, a, s);
                }
            }
        }
    }
}

/// A dependency that is refused leaves the store as it was, and one that is
/// recorded moves the revision of its graph on.
pub proof fn revisions_count_dependencies(m: StoreModel, new: NewRunDependency, expected_revision: u64)
    ensures
        dependency_added(m, new, expected_revision).1 is Err ==> dependency_added(
            m,
            new,
            expected_revision,
        ).0 == m,
        dependency_added(m, new, expected_revision).1 is Ok ==> dependency_added(
            m,
            new,
            expected_revision,
        ).0.graph_heads[new.task_id].graph_revision == next_number(expected_revision),
{
}

/// Of the changes of a graph that expect one revision at most one takes effect.
pub proof fn graph_revisions_are_used_once(
    m: StoreModel,
    new: NewRunDependency,
    expected: u64,
    other: NewRunDependency,
)
    requires
        dependency_added(m, new, expected).1 is Ok,
        expected < u64::MAX,
        other.task_id == new.task_id,
    ensures
        ({
            let after = dependency_added(m, new, expected).0;
            dependency_added(after, other, expected) == (
                after,
                Err::<(), ErrorView>(conflict("graph revision conflict"@)),
            )
        }),
{
}

} // verus!
