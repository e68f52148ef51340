//! Generations of the configuration.

use vstd::prelude::*;

use crate::domain::ConfigGenerationId;
use crate::errors::{
    conflict, conflict_error, not_found, not_found_error, outcome, ErrorView, KernelError,
};
use crate::store::literals::{
    is_test_state, is_validation_state, test_state, unknown_literal, unknown_literal_error,
    validation_state,
};
use crate::store::rows::{
    config_generation_row, make_config_generation, ActiveConfigGenerationRow, ConfigGenerationRow,
    NewConfigGeneration,
};
use crate::store::runs::{bump, next_number};
use crate::store::state::{MockState, StoreModel};
use crate::store::table::{added, insert_unique, some_row, Row};
use crate::text::same_text;

verus! {

/// The generations with the given digest.
pub open spec fn with_config_digest(digest: Seq<char>) -> spec_fn(ConfigGenerationRow) -> bool {
    |row: ConfigGenerationRow| row.digest@ == digest
}

/// The store after a generation was recorded, and what that returns.
pub open spec fn generation_added(m: StoreModel, new: NewConfigGeneration) -> (StoreModel, Result<(), ErrorView>) {
    if !is_validation_state(new.validation_state@) {
        (m, Err(unknown_literal("config_generations.validation_state"@, new.validation_state@)))
    } else if !is_test_state(new.test_state@) {
        (m, Err(unknown_literal("config_generations.test_state"@, new.test_state@)))
    } else if some_row(m.config_generations, with_config_digest(new.digest@)) {
        (m, Err(conflict("duplicate config generation digest"@)))
    } else {
        let a = added(
            m.config_generations,
            new.generation_id,
            config_generation_row(new),
            "duplicate config generation id"@,
        );
        (StoreModel { config_generations: a.0, ..m }, a.1)
    }
}

/// The store after the states of a generation were set, and what that returns: a
/// validation state that may stand is set though the test state may not.
pub open spec fn generation_states_set(
    m: StoreModel,
    id: ConfigGenerationId,
    validation: Option<String>,
    test: Option<String>,
) -> (StoreModel, Result<(), ErrorView>) {
    if !m.config_generations.contains_key(id) {
        (m, Err(not_found("config generation not found"@)))
    } else if validation matches Some(v) && !is_validation_state(v@) {
        (
            m,
            Err(
                unknown_literal(
                    "config_generations.validation_state"@,
                    validation->0@,
                ),
            ),
        )
    } else {
        let row = m.config_generations[id];
        let validated = match validation {
            Some(v) => ConfigGenerationRow { validation_state: v, ..row },
            None => row,
        };
        let half = StoreModel {
            config_generations: m.config_generations.insert(id, validated),
            ..m
        };
        match test {
            None => (half, Ok(())),
            Some(t) => if is_test_state(t@) {
                (
                    StoreModel {
                        config_generations: m.config_generations.insert(
                            id,
                            ConfigGenerationRow { test_state: t, ..validated },
                        ),
                        ..m
                    },
                    Ok(()),
                )
            } else {
                (half, Err(unknown_literal("config_generations.test_state"@, t@)))
            },
        }
    }
}

/// The revision of the active configuration.
pub open spec fn active_revision(m: StoreModel) -> u64 {
    match m.active_config {
        Some(active) => active.revision,
        None => 0,
    }
}

/// The store after a generation was made the active one, and whether it was: the
/// active configuration must be at the expected revision.
pub open spec fn active_changed(
    m: StoreModel,
    expected_revision: u64,
    generation: ConfigGenerationId,
    activated_at_ms: i64,
) -> (StoreModel, Result<bool, ErrorView>) {
    if active_revision(m) != expected_revision {
        (m, Ok(false))
    } else if !m.config_generations.contains_key(generation) {
        (m, Err(not_found("config generation not found"@)))
    } else {
        (
            StoreModel {
                active_config: Some(
                    ActiveConfigGenerationRow {
                        generation_id: generation,
                        revision: next_number(expected_revision),
                        activated_at_ms,
                    },
                ),
                ..m
            },
            Ok(true),
        )
    }
}

impl MockState {
    /// The generation `id`.
    pub fn get_generation(&self, id: ConfigGenerationId) -> (r: Option<&ConfigGenerationRow>)
        ensures
            match r {
                Some(row) => self@.config_generations.contains_key(id)
                    && self@.config_generations[id] == *row,
                None => !self@.config_generations.contains_key(id),
            },
    {
        self.config_generations.get(&id)
    }

    /// The active generation.
    pub fn get_active(&self) -> (r: Option<&ActiveConfigGenerationRow>)
        ensures
            match r {
                Some(row) => self@.active_config == Some(*row),
                None => self@.active_config is None,
            },
    {
        match &self.active_config {
            Some(row) => Some(row),
            None => None,
        }
    }

    /// Records a generation.
    pub fn insert_generation(&mut self, new: NewConfigGeneration) -> (r: Result<(), KernelError>)
        ensures
            (final(self)@, outcome(r)) == generation_added(old(self)@, new),
    {
        if !validation_state(new.validation_state.as_str()) {
            return Err(
                unknown_literal_error(
                    "config_generations.validation_state",
                    new.validation_state.as_str(),
                ),
            );
        }
        if !test_state(new.test_state.as_str()) {
            return Err(
                unknown_literal_error("config_generations.test_state", new.test_state.as_str()),
            );
        }
        let digest = new.digest.clone();
        let test = |row: &ConfigGenerationRow| -> (b: bool)
            ensures
                b == (row.digest@ == digest@),
            { same_text(row.digest.as_str(), digest.as_str()) };
        if self.config_generations.any(test, Ghost(with_config_digest(digest@))) {
            return Err(conflict_error("duplicate config generation digest"));
        }
        let id = new.generation_id;
        let row = make_config_generation(new);
        insert_unique(&mut self.config_generations, id, row, "duplicate config generation id")
    }

    /// Sets the states of a generation; what is absent stays.
    pub fn set_generation_states(
        &mut self,
        id: ConfigGenerationId,
        validation: Option<String>,
        test: Option<String>,
    ) -> (r: Result<(), KernelError>)
        ensures
            (final(self)@, outcome(r)) == generation_states_set(old(self)@, id, validation, test),
    {
        let mut row = match self.config_generations.get(&id) {
            Some(row) => row.copy_row(),
            None => return Err(not_found_error("config generation not found")),
        };
        if let Some(value) = validation {
            if !validation_state(value.as_str()) {
                return Err(
                    unknown_literal_error("config_generations.validation_state", value.as_str()),
                );
            }
            row.validation_state = value;
        }
        match test {
            Some(value) => {
                if !test_state(value.as_str()) {
                    self.config_generations.put(id, row);
                    return Err(
                        unknown_literal_error("config_generations.test_state", value.as_str()),
                    );
                }
                row.test_state = value;
            },
            None => {},
        }
        self.config_generations.put(id, row);
        Ok(())
    }

    /// Makes a generation the active one.
    pub fn cas_active(
        &mut self,
        expected_revision: u64,
        generation: ConfigGenerationId,
        activated_at_ms: i64,
    ) -> (r: Result<bool, KernelError>)
        ensures
            (final(self)@, outcome(r)) == active_changed(
                old(self)@,
                expected_revision,
                generation,
                activated_at_ms,
            ),
    {
        let current: u64 = match &self.active_config {
            Some(active) => active.revision,
            None => 0,
        };
        if current != expected_revision {
            return Ok(false);
        }
        if !self.config_generations.contains(&generation) {
            return Err(not_found_error("config generation not found"));
        }
        self.active_config = Some(
            ActiveConfigGenerationRow {
                generation_id: generation,
                revision: bump(expected_revision),
                activated_at_ms,
            },
        );
        Ok(true)
    }
}

// ---------------------------------------------------------------------------
// What holds of every activation
// ---------------------------------------------------------------------------

/// Of the activations that expect one revision at most one takes effect.
pub proof fn activations_are_used_once(
    m: StoreModel,
    expected: u64,
    generation: ConfigGenerationId,
    at_ms: i64,
    other: ConfigGenerationId,
    later_ms: i64,
)
    requires
        active_changed(m, expected, generation, at_ms).1 == Ok::<bool, ErrorView>(true),
        expected < u64::MAX,
    ensures
        ({
            let after = active_changed(m, expected, generation, at_ms).0;
            &&& active_revision(after) == expected + 1
            &&& active_changed(after, expected, other, later_ms) == (
                after,
                Ok::<bool, ErrorView>(false),
            )
        }),
{
}

} // verus!
