//! A loop adapter that decides by a script: one step of the script for each step
//! of the run.

use vstd::prelude::*;
use vstd::string::*;

use crate::base64::{base64_decode_lenient, leniently_decoded};
use crate::contract::{
    answer, answers, reject, rejects, ApprovalDraft, Decision, DecisionView, DraftView, LoopInput,
    LoopReply,
};
use crate::json::{item_views, parsed, Json, JsonView};

pub mod laws;

verus! {

/// The text of the member `key`, empty without one.
pub open spec fn text_of_member(v: JsonView, key: Seq<char>) -> Seq<char> {
    match v.text_at(key) {
        Some(t) => t,
        None => Seq::empty(),
    }
}

/// The bytes whose Base64 text is the member `key`, none without one.
pub open spec fn bytes_of_member(v: JsonView, key: Seq<char>) -> Seq<u8> {
    match v.text_at(key) {
        Some(t) => leniently_decoded(t),
        None => Seq::empty(),
    }
}

/// The decision that a step of a script stands for.
pub open spec fn scripted(step: JsonView) -> DecisionView {
    if let Some(c) = step.get("complete"@) {
        DecisionView::Complete { output_ref: text_of_member(c, "output_ref"@) }
    } else if let Some(f) = step.get("fail"@) {
        DecisionView::Fail { reason_code: text_of_member(f, "reason_code"@) }
    } else if let Some(w) = step.get("wait"@) {
        DecisionView::Wait {
            reason: text_of_member(w, "reason"@),
            timer_id: text_of_member(w, "timer_id"@),
        }
    } else if let Some(s) = step.get("spawn_agent"@) {
        DecisionView::SpawnAgent { child_request: bytes_of_member(s, "child_request"@) }
    } else if let Some(e) = step.get("invoke_effect"@) {
        DecisionView::InvokeEffect {
            operation: text_of_member(e, "operation"@),
            payload: bytes_of_member(e, "payload"@),
            effect_claim: bytes_of_member(e, "effect_claim"@),
        }
    } else if let Some(a) = step.get("request_approval"@) {
        DecisionView::RequestApproval {
            approval_draft: DraftView::Raw(bytes_of_member(a, "approval_draft"@)),
        }
    } else {
        DecisionView::Fail { reason_code: "unrecognized_script_step"@ }
    }
}

fn member_text(v: &Json, key: &str) -> (r: String)
    ensures
        r@ == text_of_member(v@, key@),
{
    match v.text_at(key) {
        Some(t) => t.to_owned(),
        None => String::new(),
    }
}

fn b64(v: &Json, key: &str) -> (r: Vec<u8>)
    ensures
        r@ == bytes_of_member(v@, key@),
{
    match v.text_at(key) {
        Some(t) => base64_decode_lenient(t),
        None => Vec::new(),
    }
}

/// The decision that a step of a script stands for.
pub fn parse_decision(step: &Json) -> (r: Decision)
    ensures
        r@ == scripted(step@),
{
    if let Some(c) = step.get("complete") {
        return Decision::Complete { output_ref: member_text(c, "output_ref") };
    }
    if let Some(f) = step.get("fail") {
        return Decision::Fail { reason_code: member_text(f, "reason_code") };
    }
    if let Some(w) = step.get("wait") {
        return Decision::Wait {
            reason: member_text(w, "reason"),
            timer_id: member_text(w, "timer_id"),
        };
    }
    if let Some(s) = step.get("spawn_agent") {
        return Decision::SpawnAgent { child_request: b64(s, "child_request") };
    }
    if let Some(e) = step.get("invoke_effect") {
        return Decision::InvokeEffect {
            operation: member_text(e, "operation"),
            payload: b64(e, "payload"),
            effect_claim: b64(e, "effect_claim"),
        };
    }
    if let Some(a) = step.get("request_approval") {
        return Decision::RequestApproval {
            approval_draft: ApprovalDraft::Raw(b64(a, "approval_draft")),
        };
    }
    Decision::Fail { reason_code: "unrecognized_script_step".to_owned() }
}

/// The script that a text holds: the items of a JSON array, else none.
pub open spec fn script_in(text: Seq<char>) -> Seq<JsonView> {
    match parsed(text) {
        Some(v) => match v.as_array() {
            Some(steps) => steps,
            None => Seq::empty(),
        },
        None => Seq::empty(),
    }
}

/// The script that a text holds.
pub fn read_script(text: &str) -> (r: Vec<Json>)
    ensures
        item_views(r@) == script_in(text@),
{
    let mut out: Vec<Json> = Vec::new();
    assert(item_views(out@) =~= Seq::empty());
    let v = match Json::from_text(text) {
        Some(v) => v,
        None => return out,
    };
    if let Some(steps) = v.as_array() {
        let ghost views = item_views(steps@);
        let mut i: usize = 0;
        while i < steps.len()
            invariant
                i <= steps.len(),
                views == item_views(steps@),
                item_views(out@) == views.take(i as int),
            decreases steps.len() - i,
        {
            let step = steps[i].copy();
            assert(views.take(i + 1) =~= views.take(i as int).push(views[i as int]));
            assert(item_views(out@.push(step)) =~= item_views(out@).push(step@));
            out.push(step);
            i += 1;
        }
        assert(views.take(steps.len() as int) =~= views);
    }
    out
}

/// The position in the script of a step of a run, which are counted from one.
pub open spec fn script_index(step_sequence: u64) -> int {
    if step_sequence == 0 {
        0
    } else {
        step_sequence - 1
    }
}

/// The decision on a step of a run; a run that outlasts its script fails.
pub open spec fn decided(script: Seq<JsonView>, step_sequence: u64) -> DecisionView {
    if script_index(step_sequence) < script.len() {
        scripted(script[script_index(step_sequence)])
    } else {
        DecisionView::Fail { reason_code: "script_exhausted"@ }
    }
}

/// The loop epoch of an answer; a stale one is that of the epoch before.
pub open spec fn answer_epoch(loop_epoch: u64, stale: bool) -> u64 {
    if stale && loop_epoch > 0 {
        (loop_epoch - 1) as u64
    } else {
        loop_epoch
    }
}

/// The answer to one call; `input` is absent where the call's payload could not
/// be read.
pub fn decide(call_id: &str, input: Option<&LoopInput>, script: &Vec<Json>, stale: bool) -> (r: LoopReply)
    ensures
        match input {
            None => rejects(r, call_id@),
            Some(i) => {
                &&& r.call_id@ == call_id@
                &&& r.error_code@ == Seq::<char>::empty()
                &&& r.decision matches Some(d) && answers(
                    d,
                    *i,
                    answer_epoch(i.loop_epoch, stale),
                    decided(item_views(script@), i.step_sequence),
                )
            },
        },
{
    let i = match input {
        Some(i) => i,
        None => return reject(call_id),
    };
    let at: u64 = if i.step_sequence == 0 {
        0
    } else {
        i.step_sequence - 1
    };
    let decision = if at < script.len() as u64 {
        assert(item_views(script@)[at as int] == script@[at as int]@);
        parse_decision(&script[at as usize])
    } else {
        Decision::Fail { reason_code: "script_exhausted".to_owned() }
    };
    let epoch: u64 = if stale && i.loop_epoch > 0 {
        i.loop_epoch - 1
    } else {
        i.loop_epoch
    };
    answer(call_id, i, epoch, decision)
}

} // verus!
