//! Turns and decisions of the agents' loops.

use vstd::prelude::*;

use crate::domain::{DecisionId, RunId, TurnId};
use crate::errors::{
    conflict, conflict_error, failed_precondition, outcome, precondition_error, ErrorView,
    KernelError,
};
use crate::store::literals::{
    decision_type, is_decision_type, is_turn_state, turn_state, unknown_literal,
    unknown_literal_error,
};
use crate::store::rows::{
    decision_row, loop_turn_row, make_decision, make_loop_turn, DecisionRow, LoopTurnRow,
    NewDecision, NewLoopTurn,
};
use crate::store::runs::or_old;
use crate::store::state::{MockState, StoreModel};
use crate::store::table::{added, insert_unique, Row};
use crate::text::same_text;

verus! {

/// The store after a turn was recorded, and what that returns.
pub open spec fn turn_added(m: StoreModel, new: NewLoopTurn) -> (StoreModel, Result<(), ErrorView>) {
    if !is_turn_state(new.state@) {
        (m, Err(unknown_literal("loop_turns.state"@, new.state@)))
    } else if !m.runs.contains_key(new.run_id) {
        (m, Err(failed_precondition("turn references a missing run"@)))
    } else {
        let a = added(m.turns, new.turn_id, loop_turn_row(new), "duplicate turn id"@);
        (StoreModel { turns: a.0, ..m }, a.1)
    }
}

/// A change of a turn: what is absent stays.
#[derive(Debug)]
pub struct LoopTurnPatch {
    pub state: Option<String>,
}

/// The store after a change of a turn, and what that returns: a turn in another
/// state than expected stays.
pub open spec fn turn_changed(m: StoreModel, id: TurnId, expect_state: Seq<char>, patch: LoopTurnPatch) -> (
    StoreModel,
    Result<bool, ErrorView>,
) {
    if !m.turns.contains_key(id) || m.turns[id].state@ != expect_state {
        (m, Ok(false))
    } else if patch.state matches Some(s) && !is_turn_state(s@) {
        (m, Err(unknown_literal("loop_turns.state"@, patch.state->0@)))
    } else {
        let row = m.turns[id];
        (
            StoreModel {
                turns: m.turns.insert(
                    id,
                    LoopTurnRow { state: or_old(patch.state, row.state), ..row },
                ),
                ..m
            },
            Ok(true),
        )
    }
}

/// The store after a decision was recorded, and what that returns.
pub open spec fn decision_added(m: StoreModel, new: NewDecision) -> (StoreModel, Result<(), ErrorView>) {
    let key = (new.run_id, new.decision_id);
    if !is_decision_type(new.decision_type@) {
        (m, Err(unknown_literal("decisions.decision_type"@, new.decision_type@)))
    } else if !m.runs.contains_key(new.run_id) {
        (m, Err(failed_precondition("decision references a missing run"@)))
    } else if !m.turns.contains_key(new.turn_id) {
        (m, Err(failed_precondition("decision references a missing turn"@)))
    } else if m.decisions.contains_key(key) {
        (m, Err(conflict("duplicate decision for run"@)))
    } else {
        (StoreModel { decisions: m.decisions.insert(key, decision_row(new)), ..m }, Ok(()))
    }
}

impl MockState {
    /// The turn `id`.
    pub fn get_turn(&self, id: TurnId) -> (r: Option<&LoopTurnRow>)
        ensures
            match r {
                Some(row) => self@.turns.contains_key(id) && self@.turns[id] == *row,
                None => !self@.turns.contains_key(id),
            },
    {
        self.turns.get(&id)
    }

    /// The decision `decision` of a run.
    pub fn get_decision(&self, run: RunId, decision: DecisionId) -> (r: Option<&DecisionRow>)
        ensures
            match r {
                Some(row) => self@.decisions.contains_key((run, decision))
                    && self@.decisions[(run, decision)] == *row,
                None => !self@.decisions.contains_key((run, decision)),
            },
    {
        self.decisions.get(&(run, decision))
    }

    /// Records a turn.
    pub fn insert_turn(&mut self, new: NewLoopTurn) -> (r: Result<(), KernelError>)
        ensures
            (final(self)@, outcome(r)) == turn_added(old(self)@, new),
    {
        if !turn_state(new.state.as_str()) {
            return Err(unknown_literal_error("loop_turns.state", new.state.as_str()));
        }
        if !self.runs.contains(&new.run_id) {
            return Err(precondition_error("turn references a missing run"));
        }
        let id = new.turn_id;
        let row = make_loop_turn(new);
        insert_unique(&mut self.turns, id, row, "duplicate turn id")
    }

    /// Changes a turn that is in the expected state.
    pub fn cas_turn(&mut self, id: TurnId, expect_state: &str, patch: LoopTurnPatch) -> (r: Result<
        bool,
        KernelError,
    >)
        ensures
            (final(self)@, outcome(r)) == turn_changed(old(self)@, id, expect_state@, patch),
    {
        let mut row = match self.turns.get(&id) {
            Some(row) => row.copy_row(),
            None => return Ok(false),
        };
        if !same_text(row.state.as_str(), expect_state) {
            return Ok(false);
        }
        if let Some(value) = patch.state {
            if !turn_state(value.as_str()) {
                return Err(unknown_literal_error("loop_turns.state", value.as_str()));
            }
            row.state = value;
        }
        self.turns.put(id, row);
        Ok(true)
    }

    /// Records a decision.
    pub fn insert_decision(&mut self, new: NewDecision) -> (r: Result<(), KernelError>)
        ensures
            (final(self)@, outcome(r)) == decision_added(old(self)@, new),
    {
        if !decision_type(new.decision_type.as_str()) {
            return Err(
                unknown_literal_error("decisions.decision_type", new.decision_type.as_str()),
            );
        }
        if !self.runs.contains(&new.run_id) {
            return Err(precondition_error("decision references a missing run"));
        }
        if !self.turns.contains(&new.turn_id) {
            return Err(precondition_error("decision references a missing turn"));
        }
        let key = (new.run_id, new.decision_id);
        if self.decisions.contains(&key) {
            return Err(conflict_error("duplicate decision for run"));
        }
        let row = make_decision(new);
        self.decisions.put(key, row);
        Ok(())
    }
}

} // verus!
