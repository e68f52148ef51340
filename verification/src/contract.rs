//! Messages between the kernel and its adapters, as plain values.

use vstd::prelude::*;

use crate::text::texts;

verus! {

/// What a loop adapter is asked to decide on.
#[derive(Debug)]
pub struct LoopInput {
    pub run_id: String,
    pub run_revision: u64,
    pub loop_epoch: u64,
    pub step_sequence: u64,
    pub input_event_cursor: String,
    pub turn_id: String,
    pub state: Vec<u8>,
    pub events: Vec<u8>,
}

/// A request for human approval, before the kernel completes it.
#[derive(Debug)]
pub struct CreateApprovalRequest {
    pub request_id: String,
    pub request_digest: String,
    pub principal_id: String,
    pub actor_id: String,
    pub run_id: String,
    pub operation: String,
    pub target_resource: String,
    pub capability_ids: Vec<String>,
    pub extension_bundle_digest: String,
    pub config_generation_digest: String,
    pub expires_at_ms: i64,
    pub nonce: String,
}

/// The draft of an approval request: its bytes as they are, or its fields.
#[derive(Debug)]
pub enum ApprovalDraft {
    Raw(Vec<u8>),
    Request(CreateApprovalRequest),
}

/// What a loop adapter decides.
#[derive(Debug)]
pub enum Decision {
    Complete { output_ref: String },
    Fail { reason_code: String },
    Wait { reason: String, timer_id: String },
    SpawnAgent { child_request: Vec<u8> },
    InvokeEffect { operation: String, payload: Vec<u8>, effect_claim: Vec<u8> },
    RequestApproval { approval_draft: ApprovalDraft },
}

/// A decision with the position in the run that it was made for.
#[derive(Debug)]
pub struct LoopDecision {
    pub run_id: String,
    pub run_revision: u64,
    pub loop_epoch: u64,
    pub step_sequence: u64,
    pub input_event_cursor: String,
    pub turn_id: String,
    pub decision_id: String,
    pub decision: Decision,
}

/// The answer of a loop adapter to one call.
#[derive(Debug)]
pub struct LoopReply {
    pub call_id: String,
    pub decision: Option<LoopDecision>,
    pub error_code: String,
}

/// The value of a [`CreateApprovalRequest`].
#[verifier::ext_equal]
pub struct ApprovalView {
    pub request_id: Seq<char>,
    pub request_digest: Seq<char>,
    pub principal_id: Seq<char>,
    pub actor_id: Seq<char>,
    pub run_id: Seq<char>,
    pub operation: Seq<char>,
    pub target_resource: Seq<char>,
    pub capability_ids: Seq<Seq<char>>,
    pub extension_bundle_digest: Seq<char>,
    pub config_generation_digest: Seq<char>,
    pub expires_at_ms: int,
    pub nonce: Seq<char>,
}

/// The value of an [`ApprovalDraft`].
#[verifier::ext_equal]
pub enum DraftView {
    Raw(Seq<u8>),
    Request(ApprovalView),
}

/// The value of a [`Decision`].
#[verifier::ext_equal]
pub enum DecisionView {
    Complete { output_ref: Seq<char> },
    Fail { reason_code: Seq<char> },
    Wait { reason: Seq<char>, timer_id: Seq<char> },
    SpawnAgent { child_request: Seq<u8> },
    InvokeEffect { operation: Seq<char>, payload: Seq<u8>, effect_claim: Seq<u8> },
    RequestApproval { approval_draft: DraftView },
}

impl View for CreateApprovalRequest {
    type V = ApprovalView;

    open spec fn view(&self) -> ApprovalView {
        ApprovalView {
            request_id: self.request_id@,
            request_digest: self.request_digest@,
            principal_id: self.principal_id@,
            actor_id: self.actor_id@,
            run_id: self.run_id@,
            operation: self.operation@,
            target_resource: self.target_resource@,
            capability_ids: texts(self.capability_ids@),
            extension_bundle_digest: self.extension_bundle_digest@,
            config_generation_digest: self.config_generation_digest@,
            expires_at_ms: self.expires_at_ms as int,
            nonce: self.nonce@,
        }
    }
}

impl View for ApprovalDraft {
    type V = DraftView;

    open spec fn view(&self) -> DraftView {
        match self {
            ApprovalDraft::Raw(b) => DraftView::Raw(b@),
            ApprovalDraft::Request(q) => DraftView::Request(q@),
        }
    }
}

impl View for Decision {
    type V = DecisionView;

    open spec fn view(&self) -> DecisionView {
        match self {
            Decision::Complete { output_ref } => DecisionView::Complete { output_ref: output_ref@ },
            Decision::Fail { reason_code } => DecisionView::Fail { reason_code: reason_code@ },
            Decision::Wait { reason, timer_id } => DecisionView::Wait {
                reason: reason@,
                timer_id: timer_id@,
            },
            Decision::SpawnAgent { child_request } => DecisionView::SpawnAgent {
                child_request: child_request@,
            },
            Decision::InvokeEffect { operation, payload, effect_claim } => DecisionView::InvokeEffect {
                operation: operation@,
                payload: payload@,
                effect_claim: effect_claim@,
            },
            Decision::RequestApproval { approval_draft } => DecisionView::RequestApproval {
                approval_draft: approval_draft@,
            },
        }
    }
}

/// Whether `d` answers `input` with the decision `decision` at the loop epoch
/// `epoch`: it repeats the position that it was asked for, and its own id is the
/// turn's.
pub open spec fn answers(d: LoopDecision, input: LoopInput, epoch: u64, decision: DecisionView) -> bool {
    &&& d.run_id == input.run_id
    &&& d.run_revision == input.run_revision
    &&& d.loop_epoch == epoch
    &&& d.step_sequence == input.step_sequence
    &&& d.input_event_cursor == input.input_event_cursor
    &&& d.turn_id == input.turn_id
    &&& d.decision_id == input.turn_id
    &&& d.decision@ == decision
}

/// Whether `r` is the answer to a call whose payload could not be read.
pub open spec fn rejects(r: LoopReply, call_id: Seq<char>) -> bool {
    r.call_id@ == call_id && r.decision is None && r.error_code@ == "invalid_argument"@
}

/// The answer to a call whose payload could not be read.
pub fn reject(call_id: &str) -> (r: LoopReply)
    ensures
        rejects(r, call_id@),
{
    LoopReply {
        call_id: call_id.to_owned(),
        decision: None,
        error_code: "invalid_argument".to_owned(),
    }
}

/// The answer with `decision` to the call `call_id` for `input`.
pub fn answer(call_id: &str, input: &LoopInput, epoch: u64, decision: Decision) -> (r: LoopReply)
    ensures
        r.call_id@ == call_id@,
        r.error_code@ == Seq::<char>::empty(),
        r.decision matches Some(d) && answers(d, *input, epoch, decision@),
{
    LoopReply {
        call_id: call_id.to_owned(),
        decision: Some(
            LoopDecision {
                run_id: input.run_id.clone(),
                run_revision: input.run_revision,
                loop_epoch: epoch,
                step_sequence: input.step_sequence,
                input_event_cursor: input.input_event_cursor.clone(),
                turn_id: input.turn_id.clone(),
                decision_id: input.turn_id.clone(),
                decision,
            },
        ),
        error_code: String::new(),
    }
}

/// An answer repeats all of the position that it was asked at, and a call that could not be read is
/// answered with its own id, no decision and the code of the error.
pub proof fn answers_keep_the_position(
    d: LoopDecision,
    input: LoopInput,
    epoch: u64,
    decision: DecisionView,
    r: LoopReply,
    call_id: Seq<char>,
)
    ensures
        answers(d, input, epoch, decision) <==> d.run_id == input.run_id && d.run_revision
            == input.run_revision && d.loop_epoch == epoch && d.step_sequence == input.step_sequence
            && d.input_event_cursor == input.input_event_cursor && d.turn_id == input.turn_id
            && d.decision_id == input.turn_id && d.decision@ == decision,
        rejects(r, call_id) <==> r.call_id@ == call_id && r.decision is None && r.error_code@
            == "invalid_argument"@,
{
}

} // verus!
