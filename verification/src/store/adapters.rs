//! Adapters: their registrations, their running instances and the reports on them.

use vstd::prelude::*;

use crate::domain::{AdapterId, AdapterInstanceId, ConformanceState};
use crate::errors::{
    failed_precondition, not_found, not_found_error, outcome, precondition_error, ErrorView,
    KernelError,
};
use crate::store::literals::{
    instance_state, is_instance_state, is_report_result, report_result, unknown_literal,
    unknown_literal_error,
};
use crate::store::rows::{
    adapter_instance_row, adapter_registration_row, conformance_report_row, make_adapter_instance,
    make_adapter_registration, make_conformance_report, AdapterInstanceRow, AdapterRegistrationRow,
    ConformanceReportRow, NewAdapterInstance, NewAdapterRegistration, NewConformanceReport,
};
use crate::store::runs::{or_kept, or_old};
use crate::store::state::{MockState, StoreModel};
use crate::store::table::{added, insert_unique, selects, Row};
use crate::text::{less, same_text, text_less, text_less_irreflexive, text_less_transitive};

verus! {

/// The key of an adapter's bundle.
pub open spec fn bundle(id: AdapterId, version: Seq<char>, digest: Seq<char>) -> (AdapterId, Seq<char>, Seq<char>) {
    (id, version, digest)
}

/// The store after an adapter was registered, and what that returns.
pub open spec fn registration_added(m: StoreModel, new: NewAdapterRegistration) -> (StoreModel, Result<(), ErrorView>) {
    let a = added(
        m.registrations,
        bundle(new.adapter_id, new.version@, new.bundle_digest@),
        adapter_registration_row(new),
        "duplicate adapter registration"@,
    );
    (StoreModel { registrations: a.0, ..m }, a.1)
}

/// The store after the conformance of a registered adapter was set, and what that
/// returns.
pub open spec fn conformance_set(
    m: StoreModel,
    key: (AdapterId, Seq<char>, Seq<char>),
    state: ConformanceState,
) -> (StoreModel, Result<(), ErrorView>) {
    if !m.registrations.contains_key(key) {
        (m, Err(not_found("adapter registration"@)))
    } else {
        let row = m.registrations[key];
        (
            StoreModel {
                registrations: m.registrations.insert(
                    key,
                    AdapterRegistrationRow { conformance_state: state, ..row },
                ),
                ..m
            },
            Ok(()),
        )
    }
}

/// The store after an instance was recorded, and what that returns.
pub open spec fn instance_added(m: StoreModel, new: NewAdapterInstance) -> (StoreModel, Result<(), ErrorView>) {
    if !is_instance_state(new.state@) {
        (m, Err(unknown_literal("adapter_instances.state"@, new.state@)))
    } else if !m.registrations.contains_key(
        bundle(new.adapter_id, new.adapter_version@, new.bundle_digest@),
    ) {
        (m, Err(failed_precondition("adapter instance references a missing registration"@)))
    } else {
        let a = added(
            m.instances,
            new.adapter_instance_id,
            adapter_instance_row(new),
            "duplicate adapter instance id"@,
        );
        (StoreModel { instances: a.0, ..m }, a.1)
    }
}

/// A change of an instance: what is absent stays.
#[derive(Debug)]
pub struct AdapterInstanceStatePatch {
    pub state: Option<String>,
    pub exit_reason: Option<String>,
    pub last_heartbeat_ms: Option<i64>,
    pub ended_at_ms: Option<i64>,
}

/// A change of an instance that changes nothing.
pub open spec fn no_instance_patch() -> AdapterInstanceStatePatch {
    AdapterInstanceStatePatch {
        state: None,
        exit_reason: None,
        last_heartbeat_ms: None,
        ended_at_ms: None,
    }
}

impl Default for AdapterInstanceStatePatch {
    /// A change that changes nothing.
    fn default() -> (r: Self)
        ensures
            r == no_instance_patch(),
    {
        AdapterInstanceStatePatch {
            state: None,
            exit_reason: None,
            last_heartbeat_ms: None,
            ended_at_ms: None,
        }
    }
}

/// The store after a change of an instance, and what that returns: an instance in
/// another state than expected stays.
pub open spec fn instance_changed(
    m: StoreModel,
    id: AdapterInstanceId,
    expect_state: Seq<char>,
    patch: AdapterInstanceStatePatch,
) -> (StoreModel, Result<bool, ErrorView>) {
    if !m.instances.contains_key(id) || m.instances[id].state@ != expect_state {
        (m, Ok(false))
    } else if patch.state matches Some(s) && !is_instance_state(s@) {
        (m, Err(unknown_literal("adapter_instances.state"@, patch.state->0@)))
    } else {
        let row = m.instances[id];
        (
            StoreModel {
                instances: m.instances.insert(
                    id,
                    AdapterInstanceRow {
                        state: or_old(patch.state, row.state),
                        exit_reason: or_kept(patch.exit_reason, row.exit_reason),
                        last_heartbeat_ms: or_kept(patch.last_heartbeat_ms, row.last_heartbeat_ms),
                        ended_at_ms: or_kept(patch.ended_at_ms, row.ended_at_ms),
                        ..row
                    },
                ),
                ..m
            },
            Ok(true),
        )
    }
}

/// The store after a report was recorded, and what that returns.
pub open spec fn report_added(m: StoreModel, new: NewConformanceReport) -> (StoreModel, Result<(), ErrorView>) {
    let key = bundle(new.adapter_id, new.adapter_version@, new.bundle_digest@);
    if !is_report_result(new.result@) {
        (m, Err(unknown_literal("conformance_reports.result"@, new.result@)))
    } else if !m.registrations.contains_key(key) {
        (m, Err(failed_precondition("conformance report references a missing registration"@)))
    } else {
        let a = added(
            m.conformance_reports,
            key,
            conformance_report_row(new),
            "duplicate conformance report"@,
        );
        (StoreModel { conformance_reports: a.0, ..m }, a.1)
    }
}

/// Every registration.
pub open spec fn every_registration() -> spec_fn(AdapterRegistrationRow) -> bool {
    |row: AdapterRegistrationRow| true
}

/// Whether a registration stands before another one: by the adapter, the version
/// and the bundle.
pub open spec fn registered_before(a: AdapterRegistrationRow, b: AdapterRegistrationRow) -> bool {
    if a.adapter_id.number != b.adapter_id.number {
        a.adapter_id.number < b.adapter_id.number
    } else if a.version@ != b.version@ {
        text_less(a.version@, b.version@)
    } else {
        text_less(a.bundle_digest@, b.bundle_digest@)
    }
}

/// Registrations by the adapter, the version and the bundle.
pub open spec fn registration_order() -> spec_fn(AdapterRegistrationRow, AdapterRegistrationRow) -> bool {
    |a: AdapterRegistrationRow, b: AdapterRegistrationRow| registered_before(a, b)
}

proof fn registrations_are_ordered()
    ensures
        forall|a: AdapterRegistrationRow| !(#[trigger] registered_before(a, a)),
        forall|a: AdapterRegistrationRow, b: AdapterRegistrationRow, c: AdapterRegistrationRow|
            #[trigger] registered_before(a, b) && #[trigger] registered_before(b, c)
                ==> registered_before(a, c),
{
    assert forall|a: AdapterRegistrationRow| !(#[trigger] registered_before(a, a)) by {
        text_less_irreflexive(a.bundle_digest@);
    }
    assert forall|a: AdapterRegistrationRow, b: AdapterRegistrationRow, c: AdapterRegistrationRow|
        #[trigger] registered_before(a, b) && #[trigger] registered_before(b, c) implies registered_before(
        a,
        c,
    ) by {
        if a.adapter_id.number == b.adapter_id.number && b.adapter_id.number == c.adapter_id.number {
            if a.version@ == b.version@ && b.version@ == c.version@ {
                text_less_transitive(a.bundle_digest@, b.bundle_digest@, c.bundle_digest@);
            } else if a.version@ != b.version@ && b.version@ != c.version@ {
                text_less_transitive(a.version@, b.version@, c.version@);
                text_less_irreflexive(a.version@);
            }
        }
    }
}

impl MockState {
    /// The registration of an adapter's bundle.
    pub fn get_registration(&self, adapter_id: AdapterId, version: &str, bundle_digest: &str) -> (r: Option<
        &AdapterRegistrationRow,
    >)
        ensures
            ({
                let key = bundle(adapter_id, version@, bundle_digest@);
                match r {
                    Some(row) => self@.registrations.contains_key(key) && self@.registrations[key]
                        == *row,
                    None => !self@.registrations.contains_key(key),
                }
            }),
    {
        self.registrations.get(&(adapter_id, version.to_owned(), bundle_digest.to_owned()))
    }

    /// All registrations, by the adapter, the version and the bundle.
    pub fn list_registrations(&self) -> (r: Vec<AdapterRegistrationRow>)
        ensures
            selects(r@, self@.registrations, every_registration(), registration_order()),
    {
        let test = |row: &AdapterRegistrationRow| -> (b: bool)
            ensures
                b,
            { true };
        let before = |a: &AdapterRegistrationRow, b: &AdapterRegistrationRow| -> (c: bool)
            ensures
                c == registered_before(*a, *b),
            {
                if a.adapter_id.number != b.adapter_id.number {
                    a.adapter_id.number < b.adapter_id.number
                } else if !same_text(a.version.as_str(), b.version.as_str()) {
                    less(a.version.as_str(), b.version.as_str())
                } else {
                    less(a.bundle_digest.as_str(), b.bundle_digest.as_str())
                }
            };
        proof {
            registrations_are_ordered();
        }
        self.registrations.select(
            test,
            before,
            Ghost(every_registration()),
            Ghost(registration_order()),
        )
    }

    /// The report on an adapter's bundle.
    pub fn get_conformance_report(&self, adapter_id: AdapterId, version: &str, bundle_digest: &str) -> (r: Option<
        &ConformanceReportRow,
    >)
        ensures
            ({
                let key = bundle(adapter_id, version@, bundle_digest@);
                match r {
                    Some(row) => self@.conformance_reports.contains_key(key)
                        && self@.conformance_reports[key] == *row,
                    None => !self@.conformance_reports.contains_key(key),
                }
            }),
    {
        self.conformance_reports.get(&(adapter_id, version.to_owned(), bundle_digest.to_owned()))
    }

    /// The instance `id`.
    pub fn get_instance(&self, id: AdapterInstanceId) -> (r: Option<&AdapterInstanceRow>)
        ensures
            match r {
                Some(row) => self@.instances.contains_key(id) && self@.instances[id] == *row,
                None => !self@.instances.contains_key(id),
            },
    {
        self.instances.get(&id)
    }

    /// Registers an adapter.
    pub fn insert_registration(&mut self, new: NewAdapterRegistration) -> (r: Result<(), KernelError>)
        ensures
            (final(self)@, outcome(r)) == registration_added(old(self)@, new),
    {
        let key = (new.adapter_id, new.version.clone(), new.bundle_digest.clone());
        let row = make_adapter_registration(new);
        insert_unique(&mut self.registrations, key, row, "duplicate adapter registration")
    }

    /// Sets the conformance of a registered adapter.
    pub fn set_conformance_state(
        &mut self,
        adapter_id: AdapterId,
        version: &str,
        bundle_digest: &str,
        state: ConformanceState,
    ) -> (r: Result<(), KernelError>)
        ensures
            (final(self)@, outcome(r)) == conformance_set(
                old(self)@,
                bundle(adapter_id, version@, bundle_digest@),
                state,
            ),
    {
        let key = (adapter_id, version.to_owned(), bundle_digest.to_owned());
        let mut row = match self.registrations.get(&key) {
            Some(row) => row.copy_row(),
            None => return Err(not_found_error("adapter registration")),
        };
        row.conformance_state = state;
        self.registrations.put(key, row);
        Ok(())
    }

    /// Records an instance.
    pub fn insert_instance(&mut self, new: NewAdapterInstance) -> (r: Result<(), KernelError>)
        ensures
            (final(self)@, outcome(r)) == instance_added(old(self)@, new),
    {
        if !instance_state(new.state.as_str()) {
            return Err(unknown_literal_error("adapter_instances.state", new.state.as_str()));
        }
        let key = (new.adapter_id, new.adapter_version.clone(), new.bundle_digest.clone());
        if !self.registrations.contains(&key) {
            return Err(precondition_error("adapter instance references a missing registration"));
        }
        let id = new.adapter_instance_id;
        let row = make_adapter_instance(new);
        insert_unique(&mut self.instances, id, row, "duplicate adapter instance id")
    }

    /// Changes an instance that is in the expected state.
    pub fn cas_instance_state(
        &mut self,
        id: AdapterInstanceId,
        expect_state: &str,
        patch: AdapterInstanceStatePatch,
    ) -> (r: Result<bool, KernelError>)
        ensures
            (final(self)@, outcome(r)) == instance_changed(old(self)@, id, expect_state@, patch),
    {
        let mut row = match self.instances.get(&id) {
            Some(row) => row.copy_row(),
            None => return Ok(false),
        };
        if !same_text(row.state.as_str(), expect_state) {
            return Ok(false);
        }
        if let Some(value) = patch.state {
            if !instance_state(value.as_str()) {
                return Err(unknown_literal_error("adapter_instances.state", value.as_str()));
            }
            row.state = value;
        }
        if let Some(value) = patch.exit_reason {
            row.exit_reason = Some(value);
        }
        if let Some(value) = patch.last_heartbeat_ms {
            row.last_heartbeat_ms = Some(value);
        }
        if let Some(value) = patch.ended_at_ms {
            row.ended_at_ms = Some(value);
        }
        self.instances.put(id, row);
        Ok(true)
    }

    /// Records a report on an adapter's bundle.
    pub fn insert_conformance_report(&mut self, new: NewConformanceReport) -> (r: Result<(), KernelError>)
        ensures
            (final(self)@, outcome(r)) == report_added(old(self)@, new),
    {
        if !report_result(new.result.as_str()) {
            return Err(unknown_literal_error("conformance_reports.result", new.result.as_str()));
        }
        let key = (new.adapter_id, new.adapter_version.clone(), new.bundle_digest.clone());
        if !self.registrations.contains(&key) {
            return Err(precondition_error("conformance report references a missing registration"));
        }
        let row = make_conformance_report(new);
        insert_unique(&mut self.conformance_reports, key, row, "duplicate conformance report")
    }
}

} // verus!
