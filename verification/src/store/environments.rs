//! Resolved environments and their bindings.

use vstd::prelude::*;

use crate::domain::{EnvironmentId, RunId};
use crate::errors::{
    conflict, conflict_error, failed_precondition, outcome, precondition_error, ErrorView,
    KernelError,
};
use crate::store::rows::{
    make_resolved_binding, make_resolved_environment, resolved_binding_row,
    resolved_environment_row, NewResolvedBinding, NewResolvedEnvironment, ResolvedBindingRow,
    ResolvedEnvironmentRow,
};
use crate::store::state::{MockState, StoreModel};
use crate::store::table::{added, insert_unique, selects, some_row, Key};
use crate::text::{less, text_less, text_less_irreflexive, text_less_transitive};

verus! {

/// The environments of a run.
pub open spec fn environment_of_run(run: RunId) -> spec_fn(ResolvedEnvironmentRow) -> bool {
    |row: ResolvedEnvironmentRow| row.run_id == run
}

/// The store after an environment was recorded, and what that returns: a run has
/// one environment.
pub open spec fn environment_added(m: StoreModel, new: NewResolvedEnvironment) -> (StoreModel, Result<(), ErrorView>) {
    if some_row(m.environments, environment_of_run(new.run_id)) {
        (m, Err(conflict("run already has a resolved environment"@)))
    } else {
        let a = added(
            m.environments,
            new.environment_id,
            resolved_environment_row(new),
            "duplicate environment id"@,
        );
        (StoreModel { environments: a.0, ..m }, a.1)
    }
}

/// The store after the first `n` bindings of an environment were recorded one
/// after the other, and what that returns: the first binding of a port that is
/// bound already ends it.
pub open spec fn bindings_put(m: StoreModel, environment: EnvironmentId, new: Seq<NewResolvedBinding>, n: int) -> (
    StoreModel,
    Result<(), ErrorView>,
)
    decreases n,
{
    if n <= 0 {
        (m, Ok(()))
    } else {
        let before = bindings_put(m, environment, new, n - 1);
        if before.1 is Err {
            before
        } else {
            let b = new[n - 1];
            let a = added(
                before.0.bindings,
                (environment, b.port_id@),
                resolved_binding_row(b, environment),
                "duplicate resolved binding"@,
            );
            (StoreModel { bindings: a.0, ..before.0 }, a.1)
        }
    }
}

/// The store after the bindings of an environment were recorded, and what that
/// returns.
pub open spec fn bindings_added(m: StoreModel, environment: EnvironmentId, new: Seq<NewResolvedBinding>) -> (
    StoreModel,
    Result<(), ErrorView>,
) {
    if !m.environments.contains_key(environment) {
        (m, Err(failed_precondition("bindings reference a missing environment"@)))
    } else {
        bindings_put(m, environment, new, new.len() as int)
    }
}

proof fn bindings_end_at_error(m: StoreModel, environment: EnvironmentId, new: Seq<NewResolvedBinding>, k: int, n: int)
    requires
        k <= n,
        bindings_put(m, environment, new, k).1 is Err,
    ensures
        bindings_put(m, environment, new, n) == bindings_put(m, environment, new, k),
    decreases n - k,
{
    if k < n {
        bindings_end_at_error(m, environment, new, k, n - 1);
    }
}

proof fn bindings_keep_environments(m: StoreModel, environment: EnvironmentId, new: Seq<NewResolvedBinding>, n: int)
    ensures
        bindings_put(m, environment, new, n).0 == (StoreModel {
            bindings: bindings_put(m, environment, new, n).0.bindings,
            ..m
        }),
    decreases n,
{
    if n > 0 {
        bindings_keep_environments(m, environment, new, n - 1);
    }
}

/// The bindings of an environment.
pub open spec fn binding_of(environment: EnvironmentId) -> spec_fn(ResolvedBindingRow) -> bool {
    |row: ResolvedBindingRow| row.environment_id == environment
}

/// Bindings by their ports.
pub open spec fn port_order() -> spec_fn(ResolvedBindingRow, ResolvedBindingRow) -> bool {
    |a: ResolvedBindingRow, b: ResolvedBindingRow| text_less(a.port_id@, b.port_id@)
}

impl MockState {
    /// The environment `id`.
    pub fn get_environment(&self, id: EnvironmentId) -> (r: Option<&ResolvedEnvironmentRow>)
        ensures
            match r {
                Some(row) => self@.environments.contains_key(id) && self@.environments[id] == *row,
                None => !self@.environments.contains_key(id),
            },
    {
        self.environments.get(&id)
    }

    /// The bindings of an environment, by their ports.
    pub fn get_bindings(&self, id: EnvironmentId) -> (r: Vec<ResolvedBindingRow>)
        ensures
            selects(r@, self@.bindings, binding_of(id), port_order()),
    {
        let test = |row: &ResolvedBindingRow| -> (b: bool)
            ensures
                b == (row.environment_id == id),
            { row.environment_id == id };
        let before = |a: &ResolvedBindingRow, b: &ResolvedBindingRow| -> (c: bool)
            ensures
                c == text_less(a.port_id@, b.port_id@),
            { less(a.port_id.as_str(), b.port_id.as_str()) };
        proof {
            let order = port_order();
            assert forall|a: ResolvedBindingRow| !(#[trigger] order(a, a)) by {
                text_less_irreflexive(a.port_id@);
            }
            assert forall|a: ResolvedBindingRow, b: ResolvedBindingRow, c: ResolvedBindingRow|
                #[trigger] order(a, b) && #[trigger] order(b, c) implies order(a, c) by {
                text_less_transitive(a.port_id@, b.port_id@, c.port_id@);
            }
        }
        self.bindings.select(test, before, Ghost(binding_of(id)), Ghost(port_order()))
    }

    /// Records an environment.
    pub fn insert_environment(&mut self, new: NewResolvedEnvironment) -> (r: Result<(), KernelError>)
        ensures
            (final(self)@, outcome(r)) == environment_added(old(self)@, new),
    {
        let run = new.run_id;
        let test = |row: &ResolvedEnvironmentRow| -> (b: bool)
            ensures
                b == (row.run_id == run),
            { row.run_id == run };
        if self.environments.any(test, Ghost(environment_of_run(run))) {
            return Err(conflict_error("run already has a resolved environment"));
        }
        let id = new.environment_id;
        let row = make_resolved_environment(new);
        insert_unique(&mut self.environments, id, row, "duplicate environment id")
    }

    /// Records the bindings of an environment, one after the other; those before a
    /// port that is bound already stay.
    pub fn insert_bindings(&mut self, environment: EnvironmentId, new: Vec<NewResolvedBinding>) -> (r: Result<
        (),
        KernelError,
    >)
        ensures
            (final(self)@, outcome(r)) == bindings_added(old(self)@, environment, new@),
    {
        if !self.environments.contains(&environment) {
            return Err(precondition_error("bindings reference a missing environment"));
        }
        let ghost first = self@;
        let ghost all = new@;
        let n: usize = new.len();
        let mut rest = new;
        let mut i: usize = 0;
        while i < n
            invariant
                i <= n,
                n == all.len(),
                rest@ == all.skip(i as int),
                first.environments.contains_key(environment),
                first == old(self)@,
                all == new@,
                (self@, Ok::<(), ErrorView>(())) == bindings_put(first, environment, all, i as int),
            decreases n - i,
        {
            assert(rest@[0] == all[i as int]);
            let b = rest.remove(0);
            assert(rest@ =~= all.skip(i + 1));
            let port = b.port_id.clone();
            let row = make_resolved_binding(b, environment);
            let ghost before = self@;
            let done = insert_unique(
                &mut self.bindings,
                (environment, port),
                row,
                "duplicate resolved binding",
            );
            proof {
                assert((environment, port).model() == (environment, all[i as int].port_id@));
                assert((self@, outcome(done)) == bindings_put(first, environment, all, i + 1));
            }
            if done.is_err() {
                proof {
                    bindings_end_at_error(first, environment, all, i + 1, n as int);
                }
                return done;
            }
            i += 1;
        }
        Ok(())
    }
}

/// The bindings of an environment change no other table.
pub proof fn bindings_change_bindings_only(m: StoreModel, environment: EnvironmentId, new: Seq<NewResolvedBinding>)
    ensures
        bindings_added(m, environment, new).0 == (StoreModel {
            bindings: bindings_added(m, environment, new).0.bindings,
            ..m
        }),
{
    bindings_keep_environments(m, environment, new, new.len() as int);
}

} // verus!
