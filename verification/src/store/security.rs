//! Grants, delegations and approvals.

use vstd::prelude::*;

use crate::domain::{ApprovalRequestId, CapabilityGrantId, DelegationChainId, RunId};
use crate::errors::{
    conflict, conflict_error, failed_precondition, outcome, precondition_error, ErrorView,
    KernelError,
};
use crate::store::literals::{
    approval_decision, is_approval_decision, unknown_literal, unknown_literal_error,
};
use crate::store::rows::{
    approval_request_row, approval_response_row, capability_grant_row, delegation_hop_row,
    make_approval_request, make_approval_response, make_capability_grant, make_delegation_hop,
    ApprovalRequestRow, ApprovalResponseRow, CapabilityGrantRow, DelegationHopRow,
    NewApprovalRequest, NewApprovalResponse, NewCapabilityGrant, NewDelegationHop,
};
use crate::store::state::{MockState, StoreModel};
use crate::store::table::{added, insert_unique, selects, some_row};
use crate::text::same_text;

verus! {

/// The store after a grant was recorded, and what that returns.
pub open spec fn grant_added(m: StoreModel, new: NewCapabilityGrant) -> (StoreModel, Result<(), ErrorView>) {
    if new.run_id matches Some(run) && !m.runs.contains_key(run) {
        (m, Err(failed_precondition("grant references a missing run"@)))
    } else if new.delegated_from_grant_id matches Some(parent) && !m.grants.contains_key(parent) {
        (m, Err(failed_precondition("grant references a missing parent grant"@)))
    } else {
        let a = added(m.grants, new.grant_id, capability_grant_row(new), "duplicate grant id"@);
        (StoreModel { grants: a.0, ..m }, a.1)
    }
}

/// The store after a hop of a chain of delegations was recorded, and what that
/// returns.
pub open spec fn hop_added(m: StoreModel, new: NewDelegationHop) -> (StoreModel, Result<(), ErrorView>) {
    if new.run_id matches Some(run) && !m.runs.contains_key(run) {
        (m, Err(failed_precondition("delegation hop references a missing run"@)))
    } else {
        let a = added(
            m.delegation_hops,
            (new.chain_id, new.hop_index),
            delegation_hop_row(new),
            "duplicate delegation hop"@,
        );
        (StoreModel { delegation_hops: a.0, ..m }, a.1)
    }
}

/// The requests for approval with the given digest and nonce.
pub open spec fn same_request(digest: Seq<char>, nonce: Seq<char>) -> spec_fn(ApprovalRequestRow) -> bool {
    |row: ApprovalRequestRow| row.request_digest@ == digest && row.nonce@ == nonce
}

/// The store after a request for approval was recorded, and what that returns.
pub open spec fn approval_request_added(m: StoreModel, new: NewApprovalRequest) -> (StoreModel, Result<(), ErrorView>) {
    if some_row(m.approval_requests, same_request(new.request_digest@, new.nonce@)) {
        (m, Err(conflict("duplicate approval request digest and nonce"@)))
    } else {
        let a = added(
            m.approval_requests,
            new.request_id,
            approval_request_row(new),
            "duplicate approval request id"@,
        );
        (StoreModel { approval_requests: a.0, ..m }, a.1)
    }
}

/// The store after a response to a request for approval was recorded, and what
/// that returns: a request has one response.
pub open spec fn approval_response_added(m: StoreModel, new: NewApprovalResponse) -> (StoreModel, Result<(), ErrorView>) {
    if !is_approval_decision(new.decision@) {
        (m, Err(unknown_literal("approval_responses.decision"@, new.decision@)))
    } else if !m.approval_requests.contains_key(new.request_id) {
        (m, Err(failed_precondition("approval response references a missing request"@)))
    } else {
        let a = added(
            m.approval_responses,
            new.request_id,
            approval_response_row(new),
            "duplicate approval response"@,
        );
        (StoreModel { approval_responses: a.0, ..m }, a.1)
    }
}

/// The hops of a chain.
pub open spec fn hop_of_chain(chain: DelegationChainId) -> spec_fn(DelegationHopRow) -> bool {
    |row: DelegationHopRow| row.chain_id == chain
}

/// Hops by their places in the chain.
pub open spec fn hop_order() -> spec_fn(DelegationHopRow, DelegationHopRow) -> bool {
    |a: DelegationHopRow, b: DelegationHopRow| a.hop_index < b.hop_index
}

/// The requests for approval of a run.
pub open spec fn approval_of_run(run: RunId) -> spec_fn(ApprovalRequestRow) -> bool {
    |row: ApprovalRequestRow| row.run_id == Some(run)
}

/// Requests for approval by the time of their creation, and then by their ids.
pub open spec fn approval_order() -> spec_fn(ApprovalRequestRow, ApprovalRequestRow) -> bool {
    |a: ApprovalRequestRow, b: ApprovalRequestRow|
        a.created_at_ms < b.created_at_ms || a.created_at_ms == b.created_at_ms && a.request_id.number
            < b.request_id.number
}

/// The responses to a request for approval.
pub open spec fn response_to(request: ApprovalRequestId) -> spec_fn(ApprovalResponseRow) -> bool {
    |row: ApprovalResponseRow| row.request_id == request
}

/// Responses in any order.
pub open spec fn any_order() -> spec_fn(ApprovalResponseRow, ApprovalResponseRow) -> bool {
    |a: ApprovalResponseRow, b: ApprovalResponseRow| false
}

impl MockState {
    /// The grant `id`.
    pub fn get_grant(&self, id: CapabilityGrantId) -> (r: Option<&CapabilityGrantRow>)
        ensures
            match r {
                Some(row) => self@.grants.contains_key(id) && self@.grants[id] == *row,
                None => !self@.grants.contains_key(id),
            },
    {
        self.grants.get(&id)
    }

    /// The hops of a chain of delegations, in their order.
    pub fn list_delegation_hops(&self, chain: DelegationChainId) -> (r: Vec<DelegationHopRow>)
        ensures
            selects(r@, self@.delegation_hops, hop_of_chain(chain), hop_order()),
    {
        let test = |row: &DelegationHopRow| -> (b: bool)
            ensures
                b == (row.chain_id == chain),
            { row.chain_id == chain };
        let less = |a: &DelegationHopRow, b: &DelegationHopRow| -> (c: bool)
            ensures
                c == (a.hop_index < b.hop_index),
            { a.hop_index < b.hop_index };
        self.delegation_hops.select(test, less, Ghost(hop_of_chain(chain)), Ghost(hop_order()))
    }

    /// The request for approval `id`.
    pub fn get_approval_request(&self, id: ApprovalRequestId) -> (r: Option<&ApprovalRequestRow>)
        ensures
            match r {
                Some(row) => self@.approval_requests.contains_key(id) && self@.approval_requests[id]
                    == *row,
                None => !self@.approval_requests.contains_key(id),
            },
    {
        self.approval_requests.get(&id)
    }

    /// The requests for approval of a run, the oldest first.
    pub fn list_approvals_by_run(&self, run: RunId) -> (r: Vec<ApprovalRequestRow>)
        ensures
            selects(r@, self@.approval_requests, approval_of_run(run), approval_order()),
    {
        let test = |row: &ApprovalRequestRow| -> (b: bool)
            ensures
                b == (row.run_id == Some(run)),
            {
                match row.run_id {
                    Some(q) => q == run,
                    None => false,
                }
            };
        let less = |a: &ApprovalRequestRow, b: &ApprovalRequestRow| -> (c: bool)
            ensures
                c == (a.created_at_ms < b.created_at_ms || a.created_at_ms == b.created_at_ms
                    && a.request_id.number < b.request_id.number),
            {
                a.created_at_ms < b.created_at_ms || (a.created_at_ms == b.created_at_ms
                    && a.request_id.number < b.request_id.number)
            };
        self.approval_requests.select(
            test,
            less,
            Ghost(approval_of_run(run)),
            Ghost(approval_order()),
        )
    }

    /// The responses to a request for approval.
    pub fn list_approval_responses(&self, request: ApprovalRequestId) -> (r: Vec<ApprovalResponseRow>)
        ensures
            selects(r@, self@.approval_responses, response_to(request), any_order()),
    {
        let test = |row: &ApprovalResponseRow| -> (b: bool)
            ensures
                b == (row.request_id == request),
            { row.request_id == request };
        let less = |a: &ApprovalResponseRow, b: &ApprovalResponseRow| -> (c: bool)
            ensures
                !c,
            { false };
        self.approval_responses.select(test, less, Ghost(response_to(request)), Ghost(any_order()))
    }

    /// Records a grant.
    pub fn insert_grant(&mut self, new: NewCapabilityGrant) -> (r: Result<(), KernelError>)
        ensures
            (final(self)@, outcome(r)) == grant_added(old(self)@, new),
    {
        if let Some(run) = new.run_id {
            if !self.runs.contains(&run) {
                return Err(precondition_error("grant references a missing run"));
            }
        }
        if let Some(parent) = new.delegated_from_grant_id {
            if !self.grants.contains(&parent) {
                return Err(precondition_error("grant references a missing parent grant"));
            }
        }
        let id = new.grant_id;
        let row = make_capability_grant(new);
        insert_unique(&mut self.grants, id, row, "duplicate grant id")
    }

    /// Records a hop of a chain of delegations.
    pub fn insert_delegation_hop(&mut self, new: NewDelegationHop) -> (r: Result<(), KernelError>)
        ensures
            (final(self)@, outcome(r)) == hop_added(old(self)@, new),
    {
        if let Some(run) = new.run_id {
            if !self.runs.contains(&run) {
                return Err(precondition_error("delegation hop references a missing run"));
            }
        }
        let key = (new.chain_id, new.hop_index);
        let row = make_delegation_hop(new);
        insert_unique(&mut self.delegation_hops, key, row, "duplicate delegation hop")
    }

    /// Records a request for approval.
    pub fn insert_approval_request(&mut self, new: NewApprovalRequest) -> (r: Result<(), KernelError>)
        ensures
            (final(self)@, outcome(r)) == approval_request_added(old(self)@, new),
    {
        let digest = new.request_digest.clone();
        let nonce = new.nonce.clone();
        let test = |row: &ApprovalRequestRow| -> (b: bool)
            ensures
                b == (row.request_digest@ == digest@ && row.nonce@ == nonce@),
            {
                same_text(row.request_digest.as_str(), digest.as_str()) && same_text(
                    row.nonce.as_str(),
                    nonce.as_str(),
                )
            };
        if self.approval_requests.any(test, Ghost(same_request(digest@, nonce@))) {
            return Err(conflict_error("duplicate approval request digest and nonce"));
        }
        let id = new.request_id;
        let row = make_approval_request(new);
        insert_unique(&mut self.approval_requests, id, row, "duplicate approval request id")
    }

    /// Records a response to a request for approval.
    pub fn insert_approval_response(&mut self, new: NewApprovalResponse) -> (r: Result<(), KernelError>)
        ensures
            (final(self)@, outcome(r)) == approval_response_added(old(self)@, new),
    {
        if !approval_decision(new.decision.as_str()) {
            return Err(unknown_literal_error("approval_responses.decision", new.decision.as_str()));
        }
        if !self.approval_requests.contains(&new.request_id) {
            return Err(precondition_error("approval response references a missing request"));
        }
        let id = new.request_id;
        let row = make_approval_response(new);
        insert_unique(&mut self.approval_responses, id, row, "duplicate approval response")
    }
}

// ---------------------------------------------------------------------------
// What holds of every approval
// ---------------------------------------------------------------------------

/// A request that was recorded is answered at most once, and its answer stands as it
/// was given.
pub proof fn requests_are_answered_once(m: StoreModel, new: NewApprovalResponse, again: NewApprovalResponse)
    requires
        approval_response_added(m, new).1 is Ok,
        again.request_id == new.request_id,
    ensures
        ({
            let after = approval_response_added(m, new).0;
            &&& m.approval_requests.contains_key(new.request_id)
            &&& after.approval_responses.contains_key(new.request_id)
            &&& after.approval_responses[new.request_id] == approval_response_row(new)
            &&& approval_response_added(after, again).1 is Err
            &&& approval_response_added(after, again).0 == after
        }),
{
}

} // verus!
