//! What a listing holds: exactly the rows that are asked for, each once, in their order.

use vstd::prelude::*;

use crate::domain::{
    AdapterId, ApprovalRequestId, ArtifactId, DelegationChainId, DependencyId, EffectId,
    EnvironmentId, EventId, ReservationId, RunId, RunState, SessionId, TaskId, TimerId,
};
use crate::store::adapters::{every_registration, registration_order};
use crate::store::artifacts::{artifact_of_run, artifact_order};
use crate::store::effects::{
    effect_of_run, effect_order, reservation_below, reservation_of_run, reservation_order,
    timer_is_due, timer_of_run, timer_order,
};
use crate::store::environments::{binding_of, port_order};
use crate::store::graph::{dependency_of_task, dependency_order};
use crate::store::rows::{
    AdapterRegistrationRow, ApprovalRequestRow, ApprovalResponseRow, ArtifactRow,
    DelegationHopRow, EffectRow, OutboxEventRow, ReservationRow, ResolvedBindingRow,
    RunDependencyRow, RunRow, TaskRow, TimerRow,
};
use crate::store::runs::{
    run_age_order, run_is_active, run_of_task, run_order, task_of_session, task_order,
};
use crate::store::security::{
    any_order, approval_of_run, approval_order, hop_of_chain, hop_order, response_to,
};
use crate::store::state::StoreModel;
use crate::store::streams::{event_order, is_unpublished, scans};
use crate::store::table::{picked_at, selects};
use crate::text::text_less;

verus! {

/// A selection holds exactly the rows that are picked, each once.
pub proof fn selections_are_whole<M, V>(
    rows: Seq<V>,
    m: Map<M, V>,
    pick: spec_fn(V) -> bool,
    before: spec_fn(V, V) -> bool,
)
    requires
        selects(rows, m, pick, before),
    ensures
        forall|i: int|
            0 <= i < rows.len() ==> pick(#[trigger] rows[i]) && exists|k: M| #[trigger]
                m.contains_key(k) && m[k] == rows[i],
        forall|k: M| #[trigger] m.contains_key(k) && pick(m[k]) ==> rows.contains(m[k]),
        m.dom().finite() ==> rows.len() == m.dom().filter(|k: M| pick(m[k])).len(),
        forall|i: int, j: int|
            #![trigger rows[i], rows[j]]
            0 <= i < j < rows.len() ==> !before(rows[j], rows[i]),
{
    let keys = choose|keys: Seq<M>| picked_at(rows, keys, m, pick);
    let picked = m.dom().filter(|k: M| pick(m[k]));
    assert forall|i: int| 0 <= i < rows.len() implies pick(#[trigger] rows[i]) && exists|k: M| #[trigger]
        m.contains_key(k) && m[k] == rows[i] by {
        assert(m.contains_key(keys[i]));
    }
    assert forall|k: M| #[trigger] m.contains_key(k) && pick(m[k]) implies rows.contains(m[k]) by {
        assert(keys.contains(k));
        let i = choose|i: int| 0 <= i < keys.len() && keys[i] == k;
        assert(rows[i] == m[k]);
    }
    assert forall|k: M| keys.to_set().contains(k) == picked.contains(k) by {
        if keys.contains(k) {
            let i = choose|i: int| 0 <= i < keys.len() && keys[i] == k;
            assert(m.contains_key(keys[i]));
        }
        if picked.contains(k) {
            assert(m.contains_key(k));
        }
    }
    assert(keys.to_set() =~= picked);
    keys.unique_seq_to_set();
}

/// A listing of the tasks of a session holds exactly those, each once, in their order.
pub proof fn tasks_of_a_session_are_listed(rows: Seq<TaskRow>, m: StoreModel, session: SessionId)
    requires
        selects(rows, m.tasks, task_of_session(session), task_order()),
    ensures
        forall|i: int|
            0 <= i < rows.len() ==> (#[trigger] rows[i]).session_id == Some(session)
                && exists|k: TaskId| #[trigger]
                m.tasks.contains_key(k) && m.tasks[k] == rows[i],
        forall|k: TaskId| #[trigger]
            m.tasks.contains_key(k) && m.tasks[k].session_id == Some(session) ==> rows.contains(m.tasks[k]),
        m.tasks.dom().finite() ==> rows.len() == m.tasks.dom().filter(
            |k: TaskId| m.tasks[k].session_id == Some(session),
        ).len(),
        forall|i: int, j: int|
            #![trigger rows[i], rows[j]]
            0 <= i < j < rows.len() ==> rows[i].task_id.number <= rows[j].task_id.number,
{
    selections_are_whole(rows, m.tasks, task_of_session(session), task_order());
    assert(m.tasks.dom().filter(|k: TaskId| task_of_session(session)(m.tasks[k])) =~= m.tasks.dom().filter(
        |k: TaskId| m.tasks[k].session_id == Some(session),
    ));
    let pick = task_of_session(session);
    assert forall|k: TaskId| #[trigger]
        m.tasks.contains_key(k)
            && m.tasks[k].session_id == Some(session) implies rows.contains(m.tasks[k]) by {
        assert(pick(m.tasks[k]));
    }
    assert forall|i: int| 0 <= i < rows.len()
        implies (#[trigger] rows[i]).session_id == Some(session) && exists|k: TaskId| #[trigger]
        m.tasks.contains_key(k) && m.tasks[k] == rows[i] by {
        assert(pick(rows[i]));
    }
    let before = task_order();
    assert forall|i: int, j: int|
        #![trigger rows[i], rows[j]]
        0 <= i < j < rows.len() implies rows[i].task_id.number <= rows[j].task_id.number by {
        assert(!before(rows[j], rows[i]));
    }
}

/// A listing of the runs of a task holds exactly those, each once, in their order.
pub proof fn runs_of_a_task_are_listed(rows: Seq<RunRow>, m: StoreModel, task: TaskId)
    requires
        selects(rows, m.runs, run_of_task(task), run_order()),
    ensures
        forall|i: int|
            0 <= i < rows.len() ==> (#[trigger] rows[i]).task_id == task && exists|k: RunId| #[trigger]
                m.runs.contains_key(k) && m.runs[k] == rows[i],
        forall|k: RunId| #[trigger]
            m.runs.contains_key(k) && m.runs[k].task_id == task ==> rows.contains(m.runs[k]),
        m.runs.dom().finite() ==> rows.len() == m.runs.dom().filter(
            |k: RunId| m.runs[k].task_id == task,
        ).len(),
        forall|i: int, j: int|
            #![trigger rows[i], rows[j]]
            0 <= i < j < rows.len() ==> rows[i].run_id.number <= rows[j].run_id.number,
{
    selections_are_whole(rows, m.runs, run_of_task(task), run_order());
    assert(m.runs.dom().filter(|k: RunId| run_of_task(task)(m.runs[k])) =~= m.runs.dom().filter(
        |k: RunId| m.runs[k].task_id == task,
    ));
    let pick = run_of_task(task);
    assert forall|k: RunId| #[trigger]
        m.runs.contains_key(k) && m.runs[k].task_id == task implies rows.contains(m.runs[k]) by {
        assert(pick(m.runs[k]));
    }
    assert forall|i: int| 0 <= i < rows.len() implies (#[trigger] rows[i]).task_id == task
        && exists|k: RunId| #[trigger]
        m.runs.contains_key(k) && m.runs[k] == rows[i] by {
        assert(pick(rows[i]));
    }
    let before = run_order();
    assert forall|i: int, j: int|
        #![trigger rows[i], rows[j]]
        0 <= i < j < rows.len() implies rows[i].run_id.number <= rows[j].run_id.number by {
        assert(!before(rows[j], rows[i]));
    }
}

/// A listing of the runs that have not ended holds exactly those, each once, in their order.
pub proof fn active_runs_are_listed(rows: Seq<RunRow>, m: StoreModel)
    requires
        selects(rows, m.runs, run_is_active(), run_age_order()),
    ensures
        forall|i: int|
            0 <= i < rows.len() ==> (#[trigger] rows[i]).state != RunState::Completed
                && rows[i].state != RunState::Failed && rows[i].state != RunState::Cancelled
                    && exists|k: RunId| #[trigger]
                m.runs.contains_key(k) && m.runs[k] == rows[i],
        forall|k: RunId| #[trigger]
            m.runs.contains_key(k) && m.runs[k].state != RunState::Completed
                && m.runs[k].state != RunState::Failed
                    && m.runs[k].state != RunState::Cancelled ==> rows.contains(m.runs[k]),
        m.runs.dom().finite() ==> rows.len() == m.runs.dom().filter(
            |k: RunId| m.runs[k].state != RunState::Completed && m.runs[k].state != RunState::Failed
                && m.runs[k].state != RunState::Cancelled,
        ).len(),
        forall|i: int, j: int|
            #![trigger rows[i], rows[j]]
            0 <= i < j < rows.len() ==> rows[i].created_at_ms < rows[j].created_at_ms
                || rows[i].created_at_ms == rows[j].created_at_ms
                    && rows[i].run_id.number <= rows[j].run_id.number,
{
    selections_are_whole(rows, m.runs, run_is_active(), run_age_order());
    assert(m.runs.dom().filter(|k: RunId| run_is_active()(m.runs[k])) =~= m.runs.dom().filter(
        |k: RunId| m.runs[k].state != RunState::Completed && m.runs[k].state != RunState::Failed
            && m.runs[k].state != RunState::Cancelled,
    ));
    let pick = run_is_active();
    assert forall|k: RunId| #[trigger]
        m.runs.contains_key(k) && m.runs[k].state != RunState::Completed
            && m.runs[k].state != RunState::Failed
                && m.runs[k].state != RunState::Cancelled implies rows.contains(m.runs[k]) by {
        assert(pick(m.runs[k]));
    }
    assert forall|i: int| 0 <= i < rows.len()
        implies (#[trigger] rows[i]).state != RunState::Completed
            && rows[i].state != RunState::Failed && rows[i].state != RunState::Cancelled
                && exists|k: RunId| #[trigger]
        m.runs.contains_key(k) && m.runs[k] == rows[i] by {
        assert(pick(rows[i]));
    }
    let before = run_age_order();
    assert forall|i: int, j: int|
        #![trigger rows[i], rows[j]]
        0 <= i < j < rows.len() implies rows[i].created_at_ms < rows[j].created_at_ms
            || rows[i].created_at_ms == rows[j].created_at_ms
                && rows[i].run_id.number <= rows[j].run_id.number by {
        assert(!before(rows[j], rows[i]));
    }
}

/// A listing of the effects of a run holds exactly those, each once, in their order.
pub proof fn effects_of_a_run_are_listed(rows: Seq<EffectRow>, m: StoreModel, run: RunId)
    requires
        selects(rows, m.effects, effect_of_run(run), effect_order()),
    ensures
        forall|i: int|
            0 <= i < rows.len() ==> (#[trigger] rows[i]).run_id == run && exists|k: EffectId| #[trigger]
                m.effects.contains_key(k) && m.effects[k] == rows[i],
        forall|k: EffectId| #[trigger]
            m.effects.contains_key(k) && m.effects[k].run_id == run ==> rows.contains(m.effects[k]),
        m.effects.dom().finite() ==> rows.len() == m.effects.dom().filter(
            |k: EffectId| m.effects[k].run_id == run,
        ).len(),
        forall|i: int, j: int|
            #![trigger rows[i], rows[j]]
            0 <= i < j < rows.len() ==> rows[i].step_sequence < rows[j].step_sequence
                || rows[i].step_sequence == rows[j].step_sequence
                    && rows[i].effect_id.number <= rows[j].effect_id.number,
{
    selections_are_whole(rows, m.effects, effect_of_run(run), effect_order());
    assert(m.effects.dom().filter(|k: EffectId| effect_of_run(run)(m.effects[k])) =~= m.effects.dom().filter(
        |k: EffectId| m.effects[k].run_id == run,
    ));
    let pick = effect_of_run(run);
    assert forall|k: EffectId| #[trigger]
        m.effects.contains_key(k) && m.effects[k].run_id == run implies rows.contains(m.effects[k]) by {
        assert(pick(m.effects[k]));
    }
    assert forall|i: int| 0 <= i < rows.len() implies (#[trigger] rows[i]).run_id == run
        && exists|k: EffectId| #[trigger]
        m.effects.contains_key(k) && m.effects[k] == rows[i] by {
        assert(pick(rows[i]));
    }
    let before = effect_order();
    assert forall|i: int, j: int|
        #![trigger rows[i], rows[j]]
        0 <= i < j < rows.len() implies rows[i].step_sequence < rows[j].step_sequence
            || rows[i].step_sequence == rows[j].step_sequence
                && rows[i].effect_id.number <= rows[j].effect_id.number by {
        assert(!before(rows[j], rows[i]));
    }
}

/// A listing of the reservations of a run holds exactly those, each once, in their order.
pub proof fn reservations_of_a_run_are_listed(rows: Seq<ReservationRow>, m: StoreModel, run: RunId)
    requires
        selects(rows, m.reservations, reservation_of_run(run), reservation_order()),
    ensures
        forall|i: int|
            0 <= i < rows.len() ==> (#[trigger] rows[i]).run_id == run && exists|k: ReservationId| #[trigger]
                m.reservations.contains_key(k) && m.reservations[k] == rows[i],
        forall|k: ReservationId| #[trigger]
            m.reservations.contains_key(k)
                && m.reservations[k].run_id == run ==> rows.contains(m.reservations[k]),
        m.reservations.dom().finite() ==> rows.len() == m.reservations.dom().filter(
            |k: ReservationId| m.reservations[k].run_id == run,
        ).len(),
        forall|i: int, j: int|
            #![trigger rows[i], rows[j]]
            0 <= i < j < rows.len() ==> rows[i].reservation_id.number <= rows[j].reservation_id.number,
{
    selections_are_whole(rows, m.reservations, reservation_of_run(run), reservation_order());
    assert(m.reservations.dom().filter(|k: ReservationId| reservation_of_run(run)(m.reservations[k])) =~= m.reservations.dom().filter(
        |k: ReservationId| m.reservations[k].run_id == run,
    ));
    let pick = reservation_of_run(run);
    assert forall|k: ReservationId| #[trigger]
        m.reservations.contains_key(k)
            && m.reservations[k].run_id == run implies rows.contains(m.reservations[k]) by {
        assert(pick(m.reservations[k]));
    }
    assert forall|i: int| 0 <= i < rows.len() implies (#[trigger] rows[i]).run_id == run
        && exists|k: ReservationId| #[trigger]
        m.reservations.contains_key(k) && m.reservations[k] == rows[i] by {
        assert(pick(rows[i]));
    }
    let before = reservation_order();
    assert forall|i: int, j: int|
        #![trigger rows[i], rows[j]]
        0 <= i < j < rows.len() implies rows[i].reservation_id.number <= rows[j].reservation_id.number by {
        assert(!before(rows[j], rows[i]));
    }
}

/// A listing of the reservations below another one holds exactly those, each once, in their order.
pub proof fn child_reservations_are_listed(rows: Seq<ReservationRow>, m: StoreModel, parent: ReservationId)
    requires
        selects(rows, m.reservations, reservation_below(parent), reservation_order()),
    ensures
        forall|i: int|
            0 <= i < rows.len() ==> (#[trigger] rows[i]).parent_reservation_id == Some(parent)
                && exists|k: ReservationId| #[trigger]
                m.reservations.contains_key(k) && m.reservations[k] == rows[i],
        forall|k: ReservationId| #[trigger]
            m.reservations.contains_key(k)
                && m.reservations[k].parent_reservation_id == Some(parent)
                    ==> rows.contains(m.reservations[k]),
        m.reservations.dom().finite() ==> rows.len() == m.reservations.dom().filter(
            |k: ReservationId| m.reservations[k].parent_reservation_id == Some(parent),
        ).len(),
        forall|i: int, j: int|
            #![trigger rows[i], rows[j]]
            0 <= i < j < rows.len() ==> rows[i].reservation_id.number <= rows[j].reservation_id.number,
{
    selections_are_whole(rows, m.reservations, reservation_below(parent), reservation_order());
    assert(m.reservations.dom().filter(|k: ReservationId| reservation_below(parent)(m.reservations[k])) =~= m.reservations.dom().filter(
        |k: ReservationId| m.reservations[k].parent_reservation_id == Some(parent),
    ));
    let pick = reservation_below(parent);
    assert forall|k: ReservationId| #[trigger]
        m.reservations.contains_key(k)
            && m.reservations[k].parent_reservation_id == Some(parent)
                implies rows.contains(m.reservations[k]) by {
        assert(pick(m.reservations[k]));
    }
    assert forall|i: int| 0 <= i < rows.len()
        implies (#[trigger] rows[i]).parent_reservation_id == Some(parent)
            && exists|k: ReservationId| #[trigger]
        m.reservations.contains_key(k) && m.reservations[k] == rows[i] by {
        assert(pick(rows[i]));
    }
    let before = reservation_order();
    assert forall|i: int, j: int|
        #![trigger rows[i], rows[j]]
        0 <= i < j < rows.len() implies rows[i].reservation_id.number <= rows[j].reservation_id.number by {
        assert(!before(rows[j], rows[i]));
    }
}

/// A listing of the timers that are due holds exactly those, each once, in their order.
pub proof fn due_timers_are_listed(rows: Seq<TimerRow>, m: StoreModel, due_before_ms: i64)
    requires
        selects(rows, m.timers, timer_is_due(due_before_ms), timer_order()),
    ensures
        forall|i: int|
            0 <= i < rows.len() ==> (#[trigger] rows[i]).due_at_ms <= due_before_ms
                && exists|k: TimerId| #[trigger]
                m.timers.contains_key(k) && m.timers[k] == rows[i],
        forall|k: TimerId| #[trigger]
            m.timers.contains_key(k) && m.timers[k].due_at_ms <= due_before_ms ==> rows.contains(m.timers[k]),
        m.timers.dom().finite() ==> rows.len() == m.timers.dom().filter(
            |k: TimerId| m.timers[k].due_at_ms <= due_before_ms,
        ).len(),
        forall|i: int, j: int|
            #![trigger rows[i], rows[j]]
            0 <= i < j < rows.len() ==> rows[i].due_at_ms < rows[j].due_at_ms
                || rows[i].due_at_ms == rows[j].due_at_ms
                    && rows[i].timer_id.number <= rows[j].timer_id.number,
{
    selections_are_whole(rows, m.timers, timer_is_due(due_before_ms), timer_order());
    assert(m.timers.dom().filter(|k: TimerId| timer_is_due(due_before_ms)(m.timers[k]))
        =~= m.timers.dom().filter(
        |k: TimerId| m.timers[k].due_at_ms <= due_before_ms,
    ));
    let pick = timer_is_due(due_before_ms);
    assert forall|k: TimerId| #[trigger]
        m.timers.contains_key(k)
            && m.timers[k].due_at_ms <= due_before_ms implies rows.contains(m.timers[k]) by {
        assert(pick(m.timers[k]));
    }
    assert forall|i: int| 0 <= i < rows.len()
        implies (#[trigger] rows[i]).due_at_ms <= due_before_ms && exists|k: TimerId| #[trigger]
        m.timers.contains_key(k) && m.timers[k] == rows[i] by {
        assert(pick(rows[i]));
    }
    let before = timer_order();
    assert forall|i: int, j: int|
        #![trigger rows[i], rows[j]]
        0 <= i < j < rows.len() implies rows[i].due_at_ms < rows[j].due_at_ms
            || rows[i].due_at_ms == rows[j].due_at_ms
                && rows[i].timer_id.number <= rows[j].timer_id.number by {
        assert(!before(rows[j], rows[i]));
    }
}

/// A listing of the timers of a run holds exactly those, each once, in their order.
pub proof fn timers_of_a_run_are_listed(rows: Seq<TimerRow>, m: StoreModel, run: RunId)
    requires
        selects(rows, m.timers, timer_of_run(run), timer_order()),
    ensures
        forall|i: int|
            0 <= i < rows.len() ==> (#[trigger] rows[i]).run_id == Some(run) && exists|k: TimerId| #[trigger]
                m.timers.contains_key(k) && m.timers[k] == rows[i],
        forall|k: TimerId| #[trigger]
            m.timers.contains_key(k) && m.timers[k].run_id == Some(run) ==> rows.contains(m.timers[k]),
        m.timers.dom().finite() ==> rows.len() == m.timers.dom().filter(
            |k: TimerId| m.timers[k].run_id == Some(run),
        ).len(),
        forall|i: int, j: int|
            #![trigger rows[i], rows[j]]
            0 <= i < j < rows.len() ==> rows[i].due_at_ms < rows[j].due_at_ms
                || rows[i].due_at_ms == rows[j].due_at_ms
                    && rows[i].timer_id.number <= rows[j].timer_id.number,
{
    selections_are_whole(rows, m.timers, timer_of_run(run), timer_order());
    assert(m.timers.dom().filter(|k: TimerId| timer_of_run(run)(m.timers[k])) =~= m.timers.dom().filter(
        |k: TimerId| m.timers[k].run_id == Some(run),
    ));
    let pick = timer_of_run(run);
    assert forall|k: TimerId| #[trigger]
        m.timers.contains_key(k) && m.timers[k].run_id == Some(run) implies rows.contains(m.timers[k]) by {
        assert(pick(m.timers[k]));
    }
    assert forall|i: int| 0 <= i < rows.len() implies (#[trigger] rows[i]).run_id == Some(run)
        && exists|k: TimerId| #[trigger]
        m.timers.contains_key(k) && m.timers[k] == rows[i] by {
        assert(pick(rows[i]));
    }
    let before = timer_order();
    assert forall|i: int, j: int|
        #![trigger rows[i], rows[j]]
        0 <= i < j < rows.len() implies rows[i].due_at_ms < rows[j].due_at_ms
            || rows[i].due_at_ms == rows[j].due_at_ms
                && rows[i].timer_id.number <= rows[j].timer_id.number by {
        assert(!before(rows[j], rows[i]));
    }
}

/// A listing of the hops of a delegation holds exactly those, each once, in their order.
pub proof fn hops_of_a_chain_are_listed(rows: Seq<DelegationHopRow>, m: StoreModel, chain: DelegationChainId)
    requires
        selects(rows, m.delegation_hops, hop_of_chain(chain), hop_order()),
    ensures
        forall|i: int|
            0 <= i < rows.len() ==> (#[trigger] rows[i]).chain_id == chain
                && exists|k: (DelegationChainId, u32)| #[trigger]
                m.delegation_hops.contains_key(k) && m.delegation_hops[k] == rows[i],
        forall|k: (DelegationChainId, u32)| #[trigger]
            m.delegation_hops.contains_key(k)
                && m.delegation_hops[k].chain_id == chain ==> rows.contains(m.delegation_hops[k]),
        m.delegation_hops.dom().finite() ==> rows.len() == m.delegation_hops.dom().filter(
            |k: (DelegationChainId, u32)| m.delegation_hops[k].chain_id == chain,
        ).len(),
        forall|i: int, j: int|
            #![trigger rows[i], rows[j]]
            0 <= i < j < rows.len() ==> rows[i].hop_index <= rows[j].hop_index,
{
    selections_are_whole(rows, m.delegation_hops, hop_of_chain(chain), hop_order());
    assert(m.delegation_hops.dom().filter(|k: (DelegationChainId,
        u32)| hop_of_chain(chain)(m.delegation_hops[k])) =~= m.delegation_hops.dom().filter(
        |k: (DelegationChainId, u32)| m.delegation_hops[k].chain_id == chain,
    ));
    let pick = hop_of_chain(chain);
    assert forall|k: (DelegationChainId, u32)| #[trigger]
        m.delegation_hops.contains_key(k)
            && m.delegation_hops[k].chain_id == chain implies rows.contains(m.delegation_hops[k]) by {
        assert(pick(m.delegation_hops[k]));
    }
    assert forall|i: int| 0 <= i < rows.len() implies (#[trigger] rows[i]).chain_id == chain
        && exists|k: (DelegationChainId, u32)| #[trigger]
        m.delegation_hops.contains_key(k) && m.delegation_hops[k] == rows[i] by {
        assert(pick(rows[i]));
    }
    let before = hop_order();
    assert forall|i: int, j: int|
        #![trigger rows[i], rows[j]]
        0 <= i < j < rows.len() implies rows[i].hop_index <= rows[j].hop_index by {
        assert(!before(rows[j], rows[i]));
    }
}

/// A listing of the approval requests of a run holds exactly those, each once, in their order.
pub proof fn approvals_of_a_run_are_listed(rows: Seq<ApprovalRequestRow>, m: StoreModel, run: RunId)
    requires
        selects(rows, m.approval_requests, approval_of_run(run), approval_order()),
    ensures
        forall|i: int|
            0 <= i < rows.len() ==> (#[trigger] rows[i]).run_id == Some(run)
                && exists|k: ApprovalRequestId| #[trigger]
                m.approval_requests.contains_key(k) && m.approval_requests[k] == rows[i],
        forall|k: ApprovalRequestId| #[trigger]
            m.approval_requests.contains_key(k)
                && m.approval_requests[k].run_id == Some(run) ==> rows.contains(m.approval_requests[k]),
        m.approval_requests.dom().finite() ==> rows.len() == m.approval_requests.dom().filter(
            |k: ApprovalRequestId| m.approval_requests[k].run_id == Some(run),
        ).len(),
        forall|i: int, j: int|
            #![trigger rows[i], rows[j]]
            0 <= i < j < rows.len() ==> rows[i].created_at_ms < rows[j].created_at_ms
                || rows[i].created_at_ms == rows[j].created_at_ms
                    && rows[i].request_id.number <= rows[j].request_id.number,
{
    selections_are_whole(rows, m.approval_requests, approval_of_run(run), approval_order());
    assert(m.approval_requests.dom().filter(|k: ApprovalRequestId| approval_of_run(run)(m.approval_requests[k])) =~= m.approval_requests.dom().filter(
        |k: ApprovalRequestId| m.approval_requests[k].run_id == Some(run),
    ));
    let pick = approval_of_run(run);
    assert forall|k: ApprovalRequestId| #[trigger]
        m.approval_requests.contains_key(k)
            && m.approval_requests[k].run_id == Some(run) implies rows.contains(m.approval_requests[k]) by {
        assert(pick(m.approval_requests[k]));
    }
    assert forall|i: int| 0 <= i < rows.len() implies (#[trigger] rows[i]).run_id == Some(run)
        && exists|k: ApprovalRequestId| #[trigger]
        m.approval_requests.contains_key(k) && m.approval_requests[k] == rows[i] by {
        assert(pick(rows[i]));
    }
    let before = approval_order();
    assert forall|i: int, j: int|
        #![trigger rows[i], rows[j]]
        0 <= i < j < rows.len() implies rows[i].created_at_ms < rows[j].created_at_ms
            || rows[i].created_at_ms == rows[j].created_at_ms
                && rows[i].request_id.number <= rows[j].request_id.number by {
        assert(!before(rows[j], rows[i]));
    }
}

/// A listing of the responses to a request holds exactly those, each once.
#[verifier::spinoff_prover]
pub proof fn responses_to_a_request_are_listed(rows: Seq<ApprovalResponseRow>, m: StoreModel,
    request: ApprovalRequestId)
    requires
        selects(rows, m.approval_responses, response_to(request), any_order()),
    ensures
        forall|i: int|
            0 <= i < rows.len() ==> (#[trigger] rows[i]).request_id == request
                && exists|k: ApprovalRequestId| #[trigger]
                m.approval_responses.contains_key(k) && m.approval_responses[k] == rows[i],
        forall|k: ApprovalRequestId| #[trigger]
            m.approval_responses.contains_key(k)
                && m.approval_responses[k].request_id == request ==> rows.contains(m.approval_responses[k]),
        m.approval_responses.dom().finite() ==> rows.len() == m.approval_responses.dom().filter(
            |k: ApprovalRequestId| m.approval_responses[k].request_id == request,
        ).len(),
{
    selections_are_whole(rows, m.approval_responses, response_to(request), any_order());
    assert(m.approval_responses.dom().filter(|k: ApprovalRequestId| response_to(request)(m.approval_responses[k])) =~= m.approval_responses.dom().filter(
        |k: ApprovalRequestId| m.approval_responses[k].request_id == request,
    ));
    let pick = response_to(request);
    assert forall|k: ApprovalRequestId| #[trigger]
        m.approval_responses.contains_key(k)
            && m.approval_responses[k].request_id == request
                implies rows.contains(m.approval_responses[k]) by {
        assert(pick(m.approval_responses[k]));
    }
    assert forall|i: int| 0 <= i < rows.len() implies (#[trigger] rows[i]).request_id == request
        && exists|k: ApprovalRequestId| #[trigger]
        m.approval_responses.contains_key(k) && m.approval_responses[k] == rows[i] by {
        assert(pick(rows[i]));
    }
}

/// A listing of the artifacts of a run holds exactly those, each once, in their order.
pub proof fn artifacts_of_a_run_are_listed(rows: Seq<ArtifactRow>, m: StoreModel, run: RunId)
    requires
        selects(rows, m.artifacts_by_id, artifact_of_run(run), artifact_order()),
    ensures
        forall|i: int|
            0 <= i < rows.len() ==> (#[trigger] rows[i]).origin_run_id == run
                && exists|k: ArtifactId| #[trigger]
                m.artifacts_by_id.contains_key(k) && m.artifacts_by_id[k] == rows[i],
        forall|k: ArtifactId| #[trigger]
            m.artifacts_by_id.contains_key(k)
                && m.artifacts_by_id[k].origin_run_id == run ==> rows.contains(m.artifacts_by_id[k]),
        m.artifacts_by_id.dom().finite() ==> rows.len() == m.artifacts_by_id.dom().filter(
            |k: ArtifactId| m.artifacts_by_id[k].origin_run_id == run,
        ).len(),
        forall|i: int, j: int|
            #![trigger rows[i], rows[j]]
            0 <= i < j < rows.len() ==> rows[i].created_at_ms <= rows[j].created_at_ms,
{
    selections_are_whole(rows, m.artifacts_by_id, artifact_of_run(run), artifact_order());
    assert(m.artifacts_by_id.dom().filter(|k: ArtifactId| artifact_of_run(run)(m.artifacts_by_id[k])) =~= m.artifacts_by_id.dom().filter(
        |k: ArtifactId| m.artifacts_by_id[k].origin_run_id == run,
    ));
    let pick = artifact_of_run(run);
    assert forall|k: ArtifactId| #[trigger]
        m.artifacts_by_id.contains_key(k)
            && m.artifacts_by_id[k].origin_run_id == run implies rows.contains(m.artifacts_by_id[k]) by {
        assert(pick(m.artifacts_by_id[k]));
    }
    assert forall|i: int| 0 <= i < rows.len() implies (#[trigger] rows[i]).origin_run_id == run
        && exists|k: ArtifactId| #[trigger]
        m.artifacts_by_id.contains_key(k) && m.artifacts_by_id[k] == rows[i] by {
        assert(pick(rows[i]));
    }
    let before = artifact_order();
    assert forall|i: int, j: int|
        #![trigger rows[i], rows[j]]
        0 <= i < j < rows.len() implies rows[i].created_at_ms <= rows[j].created_at_ms by {
        assert(!before(rows[j], rows[i]));
    }
}

/// A listing of the dependencies of a task holds exactly those, each once, in their order.
pub proof fn dependencies_of_a_task_are_listed(rows: Seq<RunDependencyRow>, m: StoreModel, task: TaskId)
    requires
        selects(rows, m.dependencies, dependency_of_task(task), dependency_order()),
    ensures
        forall|i: int|
            0 <= i < rows.len() ==> (#[trigger] rows[i]).task_id == task && exists|k: DependencyId| #[trigger]
                m.dependencies.contains_key(k) && m.dependencies[k] == rows[i],
        forall|k: DependencyId| #[trigger]
            m.dependencies.contains_key(k)
                && m.dependencies[k].task_id == task ==> rows.contains(m.dependencies[k]),
        m.dependencies.dom().finite() ==> rows.len() == m.dependencies.dom().filter(
            |k: DependencyId| m.dependencies[k].task_id == task,
        ).len(),
        forall|i: int, j: int|
            #![trigger rows[i], rows[j]]
            0 <= i < j < rows.len()
                ==> rows[i].created_graph_revision < rows[j].created_graph_revision
                    || rows[i].created_graph_revision == rows[j].created_graph_revision
                        && rows[i].dependency_id.number <= rows[j].dependency_id.number,
{
    selections_are_whole(rows, m.dependencies, dependency_of_task(task), dependency_order());
    assert(m.dependencies.dom().filter(|k: DependencyId| dependency_of_task(task)(m.dependencies[k])) =~= m.dependencies.dom().filter(
        |k: DependencyId| m.dependencies[k].task_id == task,
    ));
    let pick = dependency_of_task(task);
    assert forall|k: DependencyId| #[trigger]
        m.dependencies.contains_key(k)
            && m.dependencies[k].task_id == task implies rows.contains(m.dependencies[k]) by {
        assert(pick(m.dependencies[k]));
    }
    assert forall|i: int| 0 <= i < rows.len() implies (#[trigger] rows[i]).task_id == task
        && exists|k: DependencyId| #[trigger]
        m.dependencies.contains_key(k) && m.dependencies[k] == rows[i] by {
        assert(pick(rows[i]));
    }
    let before = dependency_order();
    assert forall|i: int, j: int|
        #![trigger rows[i], rows[j]]
        0 <= i < j < rows.len()
            implies rows[i].created_graph_revision < rows[j].created_graph_revision
                || rows[i].created_graph_revision == rows[j].created_graph_revision
                    && rows[i].dependency_id.number <= rows[j].dependency_id.number by {
        assert(!before(rows[j], rows[i]));
    }
}

/// A listing of the bindings of an environment holds exactly those, each once, in their order.
pub proof fn bindings_of_an_environment_are_listed(rows: Seq<ResolvedBindingRow>, m: StoreModel,
    environment: EnvironmentId)
    requires
        selects(rows, m.bindings, binding_of(environment), port_order()),
    ensures
        forall|i: int|
            0 <= i < rows.len() ==> (#[trigger] rows[i]).environment_id == environment
                && exists|k: (EnvironmentId, Seq<char>)| #[trigger]
                m.bindings.contains_key(k) && m.bindings[k] == rows[i],
        forall|k: (EnvironmentId, Seq<char>)| #[trigger]
            m.bindings.contains_key(k)
                && m.bindings[k].environment_id == environment ==> rows.contains(m.bindings[k]),
        m.bindings.dom().finite() ==> rows.len() == m.bindings.dom().filter(
            |k: (EnvironmentId, Seq<char>)| m.bindings[k].environment_id == environment,
        ).len(),
        forall|i: int, j: int|
            #![trigger rows[i], rows[j]]
            0 <= i < j < rows.len() ==> !text_less(rows[j].port_id@, rows[i].port_id@),
{
    selections_are_whole(rows, m.bindings, binding_of(environment), port_order());
    assert(m.bindings.dom().filter(|k: (EnvironmentId,
        Seq<char>)| binding_of(environment)(m.bindings[k])) =~= m.bindings.dom().filter(
        |k: (EnvironmentId, Seq<char>)| m.bindings[k].environment_id == environment,
    ));
    let pick = binding_of(environment);
    assert forall|k: (EnvironmentId, Seq<char>)| #[trigger]
        m.bindings.contains_key(k)
            && m.bindings[k].environment_id == environment implies rows.contains(m.bindings[k]) by {
        assert(pick(m.bindings[k]));
    }
    assert forall|i: int| 0 <= i < rows.len()
        implies (#[trigger] rows[i]).environment_id == environment
            && exists|k: (EnvironmentId, Seq<char>)| #[trigger]
        m.bindings.contains_key(k) && m.bindings[k] == rows[i] by {
        assert(pick(rows[i]));
    }
    let before = port_order();
    assert forall|i: int, j: int|
        #![trigger rows[i], rows[j]]
        0 <= i < j < rows.len() implies !text_less(rows[j].port_id@, rows[i].port_id@) by {
        assert(!before(rows[j], rows[i]));
    }
}

/// A listing of the registrations holds all of them, each once, by adapter, then by version, then
/// by digest.
#[verifier::spinoff_prover]
pub proof fn registrations_are_listed(rows: Seq<AdapterRegistrationRow>, m: StoreModel)
    requires
        selects(rows, m.registrations, every_registration(), registration_order()),
    ensures
        forall|i: int|
            0 <= i < rows.len() ==> m.registrations.contains_value(#[trigger] rows[i]),
        forall|k: (AdapterId, Seq<char>, Seq<char>)| #[trigger]
            m.registrations.contains_key(k) ==> rows.contains(m.registrations[k]),
        m.registrations.dom().finite() ==> rows.len() == m.registrations.len(),
        forall|i: int, j: int|
            #![trigger rows[i], rows[j]]
            0 <= i < j < rows.len() ==> ({
                let (a, b) = (rows[i], rows[j]);
                &&& a.adapter_id.number <= b.adapter_id.number
                &&& a.adapter_id.number == b.adapter_id.number ==> !text_less(b.version@, a.version@)
                &&& a.adapter_id.number == b.adapter_id.number && a.version@ == b.version@ ==> !text_less(
                    b.bundle_digest@,
                    a.bundle_digest@,
                )
            }),
{
    selections_are_whole(rows, m.registrations, every_registration(), registration_order());
    let pick = every_registration();
    assert forall|k: (AdapterId, Seq<char>,
        Seq<char>)| #[trigger] m.registrations.contains_key(k) implies rows.contains(
        m.registrations[k],
    ) by {
        assert(pick(m.registrations[k]));
    }
    assert(m.registrations.dom().filter(|k: (AdapterId, Seq<char>, Seq<char>)| pick(m.registrations[k]))
        =~= m.registrations.dom());
    assert forall|i: int| 0 <= i < rows.len() implies m.registrations.contains_value(
        #[trigger] rows[i],
    ) by {
        let k = choose|k: (AdapterId, Seq<char>, Seq<char>)| #[trigger]
            m.registrations.contains_key(k) && m.registrations[k] == rows[i];
        assert(pick(rows[i]));
        assert(m.registrations.dom().contains(k));
    }
    let before = registration_order();
    assert forall|i: int, j: int|
        #![trigger rows[i], rows[j]]
        0 <= i < j < rows.len() implies ({
            let (a, b) = (rows[i], rows[j]);
            &&& a.adapter_id.number <= b.adapter_id.number
            &&& a.adapter_id.number == b.adapter_id.number ==> !text_less(b.version@, a.version@)
            &&& a.adapter_id.number == b.adapter_id.number && a.version@ == b.version@ ==> !text_less(
                b.bundle_digest@,
                a.bundle_digest@,
            )
        }) by {
        assert(!before(rows[j], rows[i]));
        crate::text::text_less_irreflexive(rows[i].version@);
    }
}

/// A scan holds events that are not in the journal yet, at most as many as asked for, by their
/// streams and then in the order of their numbers, and none is passed over.
pub proof fn scans_pass_nothing_over(rows: Seq<OutboxEventRow>, m: StoreModel, limit: u32)
    requires
        scans(rows, m, limit),
    ensures
        rows.len() <= limit,
        forall|i: int|
            0 <= i < rows.len() ==> (#[trigger] rows[i]).journal_published_at_ms is None,
        forall|i: int, j: int|
            #![trigger rows[i], rows[j]]
            0 <= i < j < rows.len() && rows[i].stream_key.text@ == rows[j].stream_key.text@
                ==> rows[i].sequence <= rows[j].sequence,
        forall|i: int, j: int|
            #![trigger rows[i], rows[j]]
            0 <= i < j < rows.len() ==> !text_less(rows[j].stream_key.text@, rows[i].stream_key.text@),
        forall|i: int, k: EventId|
            #![trigger rows[i], m.outbox.contains_key(k)]
            0 <= i < rows.len() && m.outbox.contains_key(k) && m.outbox[k].journal_published_at_ms is None
                && m.outbox[k].stream_key.text@ == rows[i].stream_key.text@ && m.outbox[k].sequence
                < rows[i].sequence ==> rows.contains(m.outbox[k]),
        rows.len() < limit ==> forall|k: EventId| #[trigger]
            m.outbox.contains_key(k) && m.outbox[k].journal_published_at_ms is None ==> rows.contains(
                m.outbox[k],
            ),
{
    let all = choose|all: Seq<OutboxEventRow>| #[trigger]
        selects(all, m.outbox, is_unpublished(), event_order()) && rows == (if all.len() <= limit {
            all
        } else {
            all.take(limit as int)
        });
    selections_are_whole(all, m.outbox, is_unpublished(), event_order());
    let before = event_order();
    let pick = is_unpublished();
    assert forall|i: int| 0 <= i < rows.len()
        implies (#[trigger] rows[i]).journal_published_at_ms is None by {
        assert(pick(all[i]));
    }
    assert forall|i: int, j: int|
        #![trigger rows[i], rows[j]]
        0 <= i < j < rows.len()
            && rows[i].stream_key.text@ == rows[j].stream_key.text@ implies rows[i].sequence
        <= rows[j].sequence by {
        assert(!before(all[j], all[i]));
    }
    assert forall|i: int, k: EventId|
        #![trigger rows[i], m.outbox.contains_key(k)]
        0 <= i < rows.len() && m.outbox.contains_key(k) && m.outbox[k].journal_published_at_ms is None
            && m.outbox[k].stream_key.text@ == rows[i].stream_key.text@ && m.outbox[k].sequence
            < rows[i].sequence implies rows.contains(m.outbox[k]) by {
        assert(pick(m.outbox[k]));
        let n = choose|n: int| 0 <= n < all.len() && all[n] == m.outbox[k];
        assert(before(all[n], all[i]));
        if n > i {
            assert(!before(all[n], all[i]));
        }
        assert(rows[n] == m.outbox[k]);
    }
    assert forall|i: int, j: int|
        #![trigger rows[i], rows[j]]
        0 <= i < j < rows.len() implies !text_less(rows[j].stream_key.text@, rows[i].stream_key.text@) by {
        assert(!before(all[j], all[i]));
        crate::text::text_less_irreflexive(rows[i].stream_key.text@);
    }
    assert forall|k: EventId| rows.len() < limit && #[trigger] m.outbox.contains_key(k)
        && m.outbox[k].journal_published_at_ms is None implies rows.contains(m.outbox[k]) by {
        assert(pick(m.outbox[k]));
    }
}

} // verus!
