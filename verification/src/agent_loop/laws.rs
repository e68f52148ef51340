//! What a scripted run decides.

use vstd::prelude::*;

use crate::agent_loop::{answer_epoch, decided, script_in, scripted};
use crate::base64::{encoded, lenient_decode_encode};
use crate::contract::{DecisionView, DraftView};
use crate::json::{parsed, JsonView};

verus! {

/// A step stands for the decision under whose name its content stands, with the members of that
/// content as they are and the bytes that were written down in Base64; a step with none of the
/// names fails the run.
pub proof fn steps_stand_for_their_decision(
    step: JsonView,
    told: JsonView,
    a: Seq<char>,
    b: Seq<char>,
    first: Seq<u8>,
    second: Seq<u8>,
)
    ensures
        step.get("complete"@) == Some(told) && told.text_at("output_ref"@) == Some(a) ==> scripted(step) == (
        DecisionView::Complete { output_ref: a }),
        step == JsonView::Object(map!["fail"@ => told]) && told.text_at("reason_code"@) == Some(a)
            ==> scripted(step) == (DecisionView::Fail { reason_code: a }),
        step == JsonView::Object(map!["wait"@ => told]) && told.text_at("reason"@) == Some(a)
            && told.text_at("timer_id"@) == Some(b) ==> scripted(step) == (DecisionView::Wait {
            reason: a,
            timer_id: b,
        }),
        step == JsonView::Object(map!["spawn_agent"@ => told]) && told.text_at("child_request"@) == Some(
            encoded(first),
        ) ==> scripted(step) == (DecisionView::SpawnAgent { child_request: first }),
        step == JsonView::Object(map!["invoke_effect"@ => told]) && told.text_at("operation"@) == Some(a)
            && told.text_at("payload"@) == Some(encoded(first)) && told.text_at("effect_claim"@) == Some(
            encoded(second),
        ) ==> scripted(step) == (DecisionView::InvokeEffect {
            operation: a,
            payload: first,
            effect_claim: second,
        }),
        step == JsonView::Object(map!["request_approval"@ => told]) && told.text_at("approval_draft"@)
            == Some(encoded(first)) ==> scripted(step) == (DecisionView::RequestApproval {
            approval_draft: DraftView::Raw(first),
        }),
        step.get("complete"@) is None && step.get("fail"@) is None && step.get("wait"@) is None && step.get(
            "spawn_agent"@,
        ) is None && step.get("invoke_effect"@) is None && step.get("request_approval"@) is None
            ==> scripted(step) == (DecisionView::Fail { reason_code: "unrecognized_script_step"@ }),
{
    reveal_strlit("complete");
    reveal_strlit("fail");
    reveal_strlit("wait");
    reveal_strlit("spawn_agent");
    reveal_strlit("invoke_effect");
    reveal_strlit("request_approval");
    assert("complete"@.len() == 8 && "fail"@.len() == 4 && "wait"@.len() == 4
        && "spawn_agent"@.len() == 11 && "invoke_effect"@.len() == 13 && "request_approval"@.len() == 16);
    assert("fail"@[0] != "wait"@[0]);
    lenient_decode_encode(first);
    lenient_decode_encode(second);
}

/// The steps of a script are taken one after the other, the first one at the first step of the
/// run, and a run that outlasts its script fails.
pub proof fn steps_are_taken_in_order(script: Seq<JsonView>, n: u64)
    ensures
        1 <= n <= script.len() ==> decided(script, n) == scripted(script[n - 1]),
        script.len() > 0 ==> decided(script, 0) == scripted(script[0]),
        n > script.len() ==> decided(script, n) == (DecisionView::Fail {
            reason_code: "script_exhausted"@,
        }),
{
}

/// The script is the JSON array of the text; any other text is a script without steps.
pub proof fn scripts_are_arrays(text: Seq<char>)
    ensures
        parsed(text) is Some && parsed(text)->0 is Array ==> script_in(text) == parsed(text)->0->Array_0,
        parsed(text) is None ==> script_in(text).len() == 0,
        parsed(text) is Some && !(parsed(text)->0 is Array) ==> script_in(text).len() == 0,
{
}

/// An answer is of the epoch that was asked, and a stale one of the epoch before it.
pub proof fn answers_are_of_their_epoch(epoch: u64)
    ensures
        answer_epoch(epoch, false) == epoch,
        epoch > 0 ==> answer_epoch(epoch, true) == epoch - 1,
{
}

} // verus!
