//! Effects, reservations and timers.

use vstd::prelude::*;

use crate::domain::{
    DecisionId, EffectId, EffectState, ReservationId, ReservationState, RunId, TimerId, TimerState,
};
use crate::errors::{
    conflict, conflict_error, failed_precondition, outcome, precondition_error, ErrorView,
    KernelError,
};
use crate::store::rows::{
    effect_row, make_effect, make_reservation, make_timer, reservation_row, timer_row, EffectRow,
    NewEffect, NewReservation, NewTimer, ReservationRow, TimerRow,
};
use crate::store::runs::{bump, next_number, or_kept, or_old};
use crate::store::state::{MockState, StoreModel};
use crate::store::table::{added, insert_unique, selects, some_row, Row};
use crate::text::same_text;

verus! {

// ---------------------------------------------------------------------------
// Effects
// ---------------------------------------------------------------------------

/// The effects that a decision of a run has asked for with the same request.
pub open spec fn same_effect(
    run: RunId,
    decision: DecisionId,
    operation: Seq<char>,
    request_hash: Seq<char>,
) -> spec_fn(EffectRow) -> bool {
    |row: EffectRow|
        row.run_id == run && row.decision_id == decision && row.operation@ == operation
            && row.request_hash@ == request_hash
}

/// The store after an effect was recorded, and what that returns.
pub open spec fn effect_added(m: StoreModel, new: NewEffect) -> (StoreModel, Result<(), ErrorView>) {
    if !m.runs.contains_key(new.run_id) {
        (m, Err(failed_precondition("effect references a missing run"@)))
    } else if some_row(
        m.effects,
        same_effect(new.run_id, new.decision_id, new.operation@, new.request_hash@),
    ) {
        (m, Err(conflict("duplicate effect identity"@)))
    } else {
        let a = added(m.effects, new.effect_id, effect_row(new), "duplicate effect id"@);
        (StoreModel { effects: a.0, ..m }, a.1)
    }
}

/// Whether an executor may claim an effect: it is prepared, or the claim on it has
/// run out.
pub open spec fn is_claimable(effect: EffectRow, now_ms: i64) -> bool {
    effect.state == EffectState::Prepared || (effect.state == EffectState::Claimed && (
    effect.lease_expires_ms matches Some(lease) && lease <= now_ms))
}

/// The token that the next claim of an effect gets.
pub open spec fn next_token(effect: EffectRow) -> int {
    match effect.executor_fencing_token {
        Some(t) => t + 1,
        None => 1,
    }
}

/// An effect that an executor has claimed.
pub open spec fn claimed(
    effect: EffectRow,
    executor_id: String,
    daemon_epoch: u64,
    lease_expires_ms: i64,
    now_ms: i64,
) -> EffectRow {
    EffectRow {
        state: EffectState::Claimed,
        executor_id: Some(executor_id),
        executor_fencing_token: Some(next_token(effect) as u64),
        daemon_fencing_epoch: Some(daemon_epoch),
        lease_expires_ms: Some(lease_expires_ms),
        updated_at_ms: now_ms,
        ..effect
    }
}

/// The store after an executor has claimed an effect, and the token of the claim.
pub open spec fn effect_claimed(
    m: StoreModel,
    id: EffectId,
    executor_id: String,
    daemon_epoch: u64,
    lease_expires_ms: i64,
    now_ms: i64,
) -> (StoreModel, Option<u64>) {
    if m.effects.contains_key(id) && is_claimable(m.effects[id], now_ms) {
        let row = claimed(m.effects[id], executor_id, daemon_epoch, lease_expires_ms, now_ms);
        (
            StoreModel { effects: m.effects.insert(id, row), ..m },
            Some(next_token(m.effects[id]) as u64),
        )
    } else {
        (m, None)
    }
}

/// A change of an effect: what is absent stays.
#[derive(Debug)]
pub struct EffectPatch {
    pub state: Option<EffectState>,
    pub executor_id: Option<String>,
    pub executor_fencing_token: Option<u64>,
    pub daemon_fencing_epoch: Option<u64>,
    pub lease_expires_ms: Option<i64>,
    pub provider_operation_ref: Option<String>,
    pub result_ref: Option<String>,
    pub error_code: Option<String>,
}

/// A change of an effect that changes nothing.
pub open spec fn no_effect_patch() -> EffectPatch {
    EffectPatch {
        state: None,
        executor_id: None,
        executor_fencing_token: None,
        daemon_fencing_epoch: None,
        lease_expires_ms: None,
        provider_operation_ref: None,
        result_ref: None,
        error_code: None,
    }
}

impl Default for EffectPatch {
    /// A change that changes nothing.
    fn default() -> (r: Self)
        ensures
            r == no_effect_patch(),
    {
        EffectPatch {
            state: None,
            executor_id: None,
            executor_fencing_token: None,
            daemon_fencing_epoch: None,
            lease_expires_ms: None,
            provider_operation_ref: None,
            result_ref: None,
            error_code: None,
        }
    }
}

/// An effect after a change.
pub open spec fn effect_patched(effect: EffectRow, patch: EffectPatch) -> EffectRow {
    EffectRow {
        state: or_old(patch.state, effect.state),
        executor_id: or_kept(patch.executor_id, effect.executor_id),
        executor_fencing_token: or_kept(patch.executor_fencing_token, effect.executor_fencing_token),
        daemon_fencing_epoch: or_kept(patch.daemon_fencing_epoch, effect.daemon_fencing_epoch),
        lease_expires_ms: or_kept(patch.lease_expires_ms, effect.lease_expires_ms),
        provider_operation_ref: or_kept(patch.provider_operation_ref, effect.provider_operation_ref),
        result_ref: or_kept(patch.result_ref, effect.result_ref),
        error_code: or_kept(patch.error_code, effect.error_code),
        ..effect
    }
}

/// The store after a change of an effect, and whether it was made: an effect in
/// another state or with another token than expected stays.
pub open spec fn effect_changed(
    m: StoreModel,
    id: EffectId,
    expect_state: EffectState,
    expect_token: Option<u64>,
    patch: EffectPatch,
) -> (StoreModel, bool) {
    if m.effects.contains_key(id) && m.effects[id].state == expect_state && (expect_token is Some
        ==> m.effects[id].executor_fencing_token == expect_token) {
        (StoreModel { effects: m.effects.insert(id, effect_patched(m.effects[id], patch)), ..m }, true)
    } else {
        (m, false)
    }
}

/// The effects of a run.
pub open spec fn effect_of_run(run: RunId) -> spec_fn(EffectRow) -> bool {
    |row: EffectRow| row.run_id == run
}

/// Effects by their steps, and then by their ids.
pub open spec fn effect_order() -> spec_fn(EffectRow, EffectRow) -> bool {
    |a: EffectRow, b: EffectRow|
        a.step_sequence < b.step_sequence || a.step_sequence == b.step_sequence && a.effect_id.number
            < b.effect_id.number
}

impl MockState {
    /// The effect `id`.
    pub fn get_effect(&self, id: EffectId) -> (r: Option<&EffectRow>)
        ensures
            match r {
                Some(row) => self@.effects.contains_key(id) && self@.effects[id] == *row,
                None => !self@.effects.contains_key(id),
            },
    {
        self.effects.get(&id)
    }

    /// The effects of a run, by their steps.
    pub fn list_effects_by_run(&self, run: RunId) -> (r: Vec<EffectRow>)
        ensures
            selects(r@, self@.effects, effect_of_run(run), effect_order()),
    {
        let test = |row: &EffectRow| -> (b: bool)
            ensures
                b == (row.run_id == run),
            { row.run_id == run };
        let less = |a: &EffectRow, b: &EffectRow| -> (c: bool)
            ensures
                c == (a.step_sequence < b.step_sequence || a.step_sequence == b.step_sequence
                    && a.effect_id.number < b.effect_id.number),
            {
                a.step_sequence < b.step_sequence || (a.step_sequence == b.step_sequence
                    && a.effect_id.number < b.effect_id.number)
            };
        self.effects.select(test, less, Ghost(effect_of_run(run)), Ghost(effect_order()))
    }

    /// Records an effect.
    pub fn insert_effect(&mut self, new: NewEffect) -> (r: Result<(), KernelError>)
        ensures
            (final(self)@, outcome(r)) == effect_added(old(self)@, new),
    {
        if !self.runs.contains(&new.run_id) {
            return Err(precondition_error("effect references a missing run"));
        }
        let run = new.run_id;
        let decision = new.decision_id;
        let operation = new.operation.clone();
        let hash = new.request_hash.clone();
        let test = |row: &EffectRow| -> (b: bool)
            ensures
                b == (row.run_id == run && row.decision_id == decision && row.operation@
                    == operation@ && row.request_hash@ == hash@),
            {
                row.run_id == run && row.decision_id == decision && same_text(
                    row.operation.as_str(),
                    operation.as_str(),
                ) && same_text(row.request_hash.as_str(), hash.as_str())
            };
        if self.effects.any(test, Ghost(same_effect(run, decision, operation@, hash@))) {
            return Err(conflict_error("duplicate effect identity"));
        }
        let id = new.effect_id;
        let row = make_effect(new);
        insert_unique(&mut self.effects, id, row, "duplicate effect id")
    }

    /// Claims an effect for an executor. The token of a claim is one greater than
    /// that of the claim before, which must be below the greatest `u64`.
    pub fn claim_effect(
        &mut self,
        id: EffectId,
        executor_id: String,
        daemon_epoch: u64,
        lease_expires_ms: i64,
        now_ms: i64,
    ) -> (r: Option<u64>)
        requires
            old(self)@.effects.contains_key(id) && is_claimable(old(self)@.effects[id], now_ms)
                ==> old(self)@.effects[id].executor_fencing_token != Some(u64::MAX),
        ensures
            (final(self)@, r) == effect_claimed(
                old(self)@,
                id,
                executor_id,
                daemon_epoch,
                lease_expires_ms,
                now_ms,
            ),
    {
        let mut effect = match self.effects.get(&id) {
            Some(row) => row.copy_row(),
            None => return None,
        };
        let lapsed = match effect.lease_expires_ms {
            Some(lease) => lease <= now_ms,
            None => false,
        };
        if !(effect.state == EffectState::Prepared || (effect.state == EffectState::Claimed && lapsed)) {
            return None;
        }
        let token: u64 = match effect.executor_fencing_token {
            Some(t) => t + 1,
            None => 1,
        };
        effect.state = EffectState::Claimed;
        effect.executor_id = Some(executor_id);
        effect.executor_fencing_token = Some(token);
        effect.daemon_fencing_epoch = Some(daemon_epoch);
        effect.lease_expires_ms = Some(lease_expires_ms);
        effect.updated_at_ms = now_ms;
        self.effects.put(id, effect);
        Some(token)
    }

    /// Changes an effect that is in the expected state and has the expected token.
    pub fn cas_effect(
        &mut self,
        id: EffectId,
        expect_state: EffectState,
        expect_token: Option<u64>,
        patch: EffectPatch,
    ) -> (r: bool)
        ensures
            (final(self)@, r) == effect_changed(old(self)@, id, expect_state, expect_token, patch),
    {
        let mut effect = match self.effects.get(&id) {
            Some(row) => row.copy_row(),
            None => return false,
        };
        if effect.state != expect_state {
            return false;
        }
        if let Some(token) = expect_token {
            match effect.executor_fencing_token {
                Some(t) => if t != token {
                    return false;
                },
                None => return false,
            }
        }
        if let Some(value) = patch.state {
            effect.state = value;
        }
        if let Some(value) = patch.executor_id {
            effect.executor_id = Some(value);
        }
        if let Some(value) = patch.executor_fencing_token {
            effect.executor_fencing_token = Some(value);
        }
        if let Some(value) = patch.daemon_fencing_epoch {
            effect.daemon_fencing_epoch = Some(value);
        }
        if let Some(value) = patch.lease_expires_ms {
            effect.lease_expires_ms = Some(value);
        }
        if let Some(value) = patch.provider_operation_ref {
            effect.provider_operation_ref = Some(value);
        }
        if let Some(value) = patch.result_ref {
            effect.result_ref = Some(value);
        }
        if let Some(value) = patch.error_code {
            effect.error_code = Some(value);
        }
        self.effects.put(id, effect);
        true
    }
}

/// A later claim of an effect has a greater token, and the executor of an earlier
/// one can change the effect no more.
pub proof fn later_claims_fence_earlier_ones(
    m: StoreModel,
    id: EffectId,
    executor_id: String,
    daemon_epoch: u64,
    lease_expires_ms: i64,
    now_ms: i64,
    patch: EffectPatch,
)
    requires
        m.effects.contains_key(id),
        m.effects[id].executor_fencing_token matches Some(t) && t < u64::MAX,
        effect_claimed(m, id, executor_id, daemon_epoch, lease_expires_ms, now_ms).1 is Some,
    ensures
        ({
            let earlier = m.effects[id].executor_fencing_token;
            let (after, token) = effect_claimed(
                m,
                id,
                executor_id,
                daemon_epoch,
                lease_expires_ms,
                now_ms,
            );
            &&& token->0 > earlier->0
            &&& !effect_changed(after, id, EffectState::Claimed, earlier, patch).1
            &&& effect_changed(after, id, EffectState::Claimed, token, patch).1
        }),
{
}

// ---------------------------------------------------------------------------
// Reservations
// ---------------------------------------------------------------------------

/// The store after a reservation was recorded, and what that returns.
pub open spec fn reservation_added(m: StoreModel, new: NewReservation) -> (StoreModel, Result<(), ErrorView>) {
    let a = added(
        m.reservations,
        new.reservation_id,
        reservation_row(new),
        "duplicate reservation id"@,
    );
    (StoreModel { reservations: a.0, ..m }, a.1)
}

/// A change of a reservation: what is absent stays.
#[derive(Clone, Copy, Debug, PartialEq, Eq, Structural)]
pub struct ReservationPatch {
    pub state: Option<ReservationState>,
    pub fencing_token: Option<u64>,
}

/// The store after a change of a reservation, and whether it was made.
pub open spec fn reservation_changed(
    m: StoreModel,
    id: ReservationId,
    expect_state: ReservationState,
    patch: ReservationPatch,
) -> (StoreModel, bool) {
    if m.reservations.contains_key(id) && m.reservations[id].state == expect_state {
        let row = m.reservations[id];
        (
            StoreModel {
                reservations: m.reservations.insert(
                    id,
                    ReservationRow {
                        state: or_old(patch.state, row.state),
                        fencing_token: or_old(patch.fencing_token, row.fencing_token),
                        ..row
                    },
                ),
                ..m
            },
            true,
        )
    } else {
        (m, false)
    }
}

/// The reservations of a run.
pub open spec fn reservation_of_run(run: RunId) -> spec_fn(ReservationRow) -> bool {
    |row: ReservationRow| row.run_id == run
}

/// The reservations below another one.
pub open spec fn reservation_below(parent: ReservationId) -> spec_fn(ReservationRow) -> bool {
    |row: ReservationRow| row.parent_reservation_id == Some(parent)
}

/// Reservations by their ids.
pub open spec fn reservation_order() -> spec_fn(ReservationRow, ReservationRow) -> bool {
    |a: ReservationRow, b: ReservationRow| a.reservation_id.number < b.reservation_id.number
}

impl MockState {
    /// The reservation `id`.
    pub fn get_reservation(&self, id: ReservationId) -> (r: Option<&ReservationRow>)
        ensures
            match r {
                Some(row) => self@.reservations.contains_key(id) && self@.reservations[id] == *row,
                None => !self@.reservations.contains_key(id),
            },
    {
        self.reservations.get(&id)
    }

    /// The reservations of a run, by their ids.
    pub fn list_reservations_by_run(&self, run: RunId) -> (r: Vec<ReservationRow>)
        ensures
            selects(r@, self@.reservations, reservation_of_run(run), reservation_order()),
    {
        let test = |row: &ReservationRow| -> (b: bool)
            ensures
                b == (row.run_id == run),
            { row.run_id == run };
        let less = |a: &ReservationRow, b: &ReservationRow| -> (c: bool)
            ensures
                c == (a.reservation_id.number < b.reservation_id.number),
            { a.reservation_id.number < b.reservation_id.number };
        self.reservations.select(
            test,
            less,
            Ghost(reservation_of_run(run)),
            Ghost(reservation_order()),
        )
    }

    /// The reservations below another one, by their ids.
    pub fn list_child_reservations(&self, parent: ReservationId) -> (r: Vec<ReservationRow>)
        ensures
            selects(r@, self@.reservations, reservation_below(parent), reservation_order()),
    {
        let test = |row: &ReservationRow| -> (b: bool)
            ensures
                b == (row.parent_reservation_id == Some(parent)),
            {
                match row.parent_reservation_id {
                    Some(p) => p == parent,
                    None => false,
                }
            };
        let less = |a: &ReservationRow, b: &ReservationRow| -> (c: bool)
            ensures
                c == (a.reservation_id.number < b.reservation_id.number),
            { a.reservation_id.number < b.reservation_id.number };
        self.reservations.select(
            test,
            less,
            Ghost(reservation_below(parent)),
            Ghost(reservation_order()),
        )
    }

    /// Records a reservation.
    pub fn insert_reservation(&mut self, new: NewReservation) -> (r: Result<(), KernelError>)
        ensures
            (final(self)@, outcome(r)) == reservation_added(old(self)@, new),
    {
        let id = new.reservation_id;
        let row = make_reservation(new);
        insert_unique(&mut self.reservations, id, row, "duplicate reservation id")
    }

    /// Changes a reservation that is in the expected state.
    pub fn cas_reservation(
        &mut self,
        id: ReservationId,
        expect_state: ReservationState,
        patch: ReservationPatch,
    ) -> (r: bool)
        ensures
            (final(self)@, r) == reservation_changed(old(self)@, id, expect_state, patch),
    {
        let mut row = match self.reservations.get(&id) {
            Some(row) => row.copy_row(),
            None => return false,
        };
        if row.state != expect_state {
            return false;
        }
        if let Some(value) = patch.state {
            row.state = value;
        }
        if let Some(value) = patch.fencing_token {
            row.fencing_token = value;
        }
        self.reservations.put(id, row);
        true
    }
}

// ---------------------------------------------------------------------------
// Timers
// ---------------------------------------------------------------------------

/// The store after a timer was recorded, and what that returns.
pub open spec fn timer_added(m: StoreModel, new: NewTimer) -> (StoreModel, Result<(), ErrorView>) {
    if new.run_id matches Some(run) && !m.runs.contains_key(run) {
        (m, Err(failed_precondition("timer references a missing run"@)))
    } else {
        let a = added(m.timers, new.timer_id, timer_row(new), "duplicate timer id"@);
        (StoreModel { timers: a.0, ..m }, a.1)
    }
}

/// A change of a timer: what is absent stays.
#[derive(Debug)]
pub struct TimerPatch {
    pub state: Option<TimerState>,
    pub claim_owner: Option<String>,
    pub claim_fencing_token: Option<u64>,
    pub claim_daemon_epoch: Option<u64>,
    pub due_at_ms: Option<i64>,
}

/// A timer after a change: every change moves its version on.
pub open spec fn timer_patched(timer: TimerRow, patch: TimerPatch) -> TimerRow {
    TimerRow {
        state: or_old(patch.state, timer.state),
        claim_owner: or_kept(patch.claim_owner, timer.claim_owner),
        claim_fencing_token: or_kept(patch.claim_fencing_token, timer.claim_fencing_token),
        claim_daemon_epoch: or_kept(patch.claim_daemon_epoch, timer.claim_daemon_epoch),
        due_at_ms: or_old(patch.due_at_ms, timer.due_at_ms),
        version: next_number(timer.version),
        ..timer
    }
}

/// The store after a change of a timer, and whether it was made.
pub open spec fn timer_changed(
    m: StoreModel,
    id: TimerId,
    expect_state: TimerState,
    expect_version: u64,
    patch: TimerPatch,
) -> (StoreModel, bool) {
    if m.timers.contains_key(id) && m.timers[id].state == expect_state && m.timers[id].version
        == expect_version {
        (StoreModel { timers: m.timers.insert(id, timer_patched(m.timers[id], patch)), ..m }, true)
    } else {
        (m, false)
    }
}

/// The timers that are due.
pub open spec fn timer_is_due(due_before_ms: i64) -> spec_fn(TimerRow) -> bool {
    |row: TimerRow| row.due_at_ms <= due_before_ms
}

/// The timers of a run.
pub open spec fn timer_of_run(run: RunId) -> spec_fn(TimerRow) -> bool {
    |row: TimerRow| row.run_id == Some(run)
}

/// Timers by the time at which they are due, and then by their ids.
pub open spec fn timer_order() -> spec_fn(TimerRow, TimerRow) -> bool {
    |a: TimerRow, b: TimerRow|
        a.due_at_ms < b.due_at_ms || a.due_at_ms == b.due_at_ms && a.timer_id.number
            < b.timer_id.number
}

impl MockState {
    /// The timer `id`.
    pub fn get_timer(&self, id: TimerId) -> (r: Option<&TimerRow>)
        ensures
            match r {
                Some(row) => self@.timers.contains_key(id) && self@.timers[id] == *row,
                None => !self@.timers.contains_key(id),
            },
    {
        self.timers.get(&id)
    }

    /// The timers that are due, the earliest first.
    pub fn list_due_timers(&self, due_before_ms: i64) -> (r: Vec<TimerRow>)
        ensures
            selects(r@, self@.timers, timer_is_due(due_before_ms), timer_order()),
    {
        let test = |row: &TimerRow| -> (b: bool)
            ensures
                b == (row.due_at_ms <= due_before_ms),
            { row.due_at_ms <= due_before_ms };
        let less = |a: &TimerRow, b: &TimerRow| -> (c: bool)
            ensures
                c == (a.due_at_ms < b.due_at_ms || a.due_at_ms == b.due_at_ms && a.timer_id.number
                    < b.timer_id.number),
            {
                a.due_at_ms < b.due_at_ms || (a.due_at_ms == b.due_at_ms && a.timer_id.number
                    < b.timer_id.number)
            };
        self.timers.select(test, less, Ghost(timer_is_due(due_before_ms)), Ghost(timer_order()))
    }

    /// The timers of a run, the earliest first.
    pub fn list_timers_by_run(&self, run: RunId) -> (r: Vec<TimerRow>)
        ensures
            selects(r@, self@.timers, timer_of_run(run), timer_order()),
    {
        let test = |row: &TimerRow| -> (b: bool)
            ensures
                b == (row.run_id == Some(run)),
            {
                match row.run_id {
                    Some(q) => q == run,
                    None => false,
                }
            };
        let less = |a: &TimerRow, b: &TimerRow| -> (c: bool)
            ensures
                c == (a.due_at_ms < b.due_at_ms || a.due_at_ms == b.due_at_ms && a.timer_id.number
                    < b.timer_id.number),
            {
                a.due_at_ms < b.due_at_ms || (a.due_at_ms == b.due_at_ms && a.timer_id.number
                    < b.timer_id.number)
            };
        self.timers.select(test, less, Ghost(timer_of_run(run)), Ghost(timer_order()))
    }

    /// Records a timer.
    pub fn insert_timer(&mut self, new: NewTimer) -> (r: Result<(), KernelError>)
        ensures
            (final(self)@, outcome(r)) == timer_added(old(self)@, new),
    {
        if let Some(run) = new.run_id {
            if !self.runs.contains(&run) {
                return Err(precondition_error("timer references a missing run"));
            }
        }
        let id = new.timer_id;
        let row = make_timer(new);
        insert_unique(&mut self.timers, id, row, "duplicate timer id")
    }

    /// Changes a timer that is in the expected state and at the expected version.
    pub fn cas_timer(
        &mut self,
        id: TimerId,
        expect_state: TimerState,
        expect_version: u64,
        patch: TimerPatch,
    ) -> (r: bool)
        ensures
            (final(self)@, r) == timer_changed(old(self)@, id, expect_state, expect_version, patch),
    {
        let mut timer = match self.timers.get(&id) {
            Some(row) => row.copy_row(),
            None => return false,
        };
        if timer.state != expect_state || timer.version != expect_version {
            return false;
        }
        if let Some(value) = patch.state {
            timer.state = value;
        }
        if let Some(value) = patch.claim_owner {
            timer.claim_owner = Some(value);
        }
        if let Some(value) = patch.claim_fencing_token {
            timer.claim_fencing_token = Some(value);
        }
        if let Some(value) = patch.claim_daemon_epoch {
            timer.claim_daemon_epoch = Some(value);
        }
        if let Some(value) = patch.due_at_ms {
            timer.due_at_ms = value;
        }
        timer.version = bump(timer.version);
        self.timers.put(id, timer);
        true
    }
}

/// Of the changes of a timer that expect one version at most one takes effect, so that
/// a timer fires once for each version.
pub proof fn timer_versions_are_used_once(
    m: StoreModel,
    id: TimerId,
    state: TimerState,
    version: u64,
    patch: TimerPatch,
    late_state: TimerState,
    other: TimerPatch,
)
    requires
        timer_changed(m, id, state, version, patch).1,
        version < u64::MAX,
    ensures
        ({
            let after = timer_changed(m, id, state, version, patch).0;
            timer_changed(after, id, late_state, version, other) == (after, false)
        }),
{
}

} // verus!
