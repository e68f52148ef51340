//! What a turn decides, in the words of the model's reply and of the settled effects.

use vstd::prelude::*;
use vstd::utf8::encode_utf8;

use crate::base64::{uri_carries_its_text, uri_text};
use crate::contract::{answers, DecisionView, DraftView, LoopDecision, LoopInput};
use crate::json::{parsed, printed, JsonView};
use crate::openrouter_loop::events::{newest, newest_hash, op_begins, op_total, settled};
use crate::openrouter_loop::plan::{asked_call, call_payload, exact_answer, payloads, unfenced};
use crate::openrouter_loop::prompt::{follow_up, image_of, images_in, summary, without_data};
use crate::openrouter_loop::{
    after_reply, after_tool, ask_model, decision_of, hash_of, result_text, settings, text_or,
    turn, SettingsView, StepView, MODEL_CHAT_OP,
};
use crate::text::{begins_with, decimal};

verus! {

// ---------------------------------------------------------------------------
// Tool calls
// ---------------------------------------------------------------------------

/// Whether `payload` asks for exactly the call `call`: the server and the tool that it
/// names, with the very arguments that it gives, or with none where it gives none.
pub open spec fn asks_for(payload: JsonView, call: JsonView) -> bool {
    &&& payload.text_at("op"@) == Some("mcp.call_tool"@)
    &&& payload.get("server"@) == call.get("server"@)
    &&& payload.get("tool"@) == call.get("tool"@)
    &&& payload.get("arguments"@) == (if call.get("arguments"@) is Some {
        call.get("arguments"@)
    } else {
        Some(JsonView::Object(Map::empty()))
    })
}

/// Whether a call names a server and a tool.
pub open spec fn is_call(call: JsonView) -> bool {
    call.text_at("server"@) is Some && call.text_at("tool"@) is Some
}

/// Whether a step calls a tool with the given payload.
pub open spec fn makes_call(step: StepView, payload: JsonView) -> bool {
    step == (StepView::Invoke { operation: "mcp.call_tool"@, payload })
}

/// Whether a step asks the model with the given request.
pub open spec fn makes_request(step: StepView, payload: JsonView) -> bool {
    step == (StepView::Invoke { operation: "model.chat"@, payload })
}

/// Whether a step completes the run with a text.
pub open spec fn completes_with(step: StepView, text: Seq<char>) -> bool {
    step matches StepView::Complete { output_ref } && uri_text(output_ref) == Some(text)
}

/// Whether a request goes on with what the model said, and a message of the user behind it.
pub open spec fn answers_back(payload: JsonView, s: SettingsView, said: Seq<char>) -> bool {
    &&& payload.text_at("model"@) == Some(s.model)
    &&& payload.array_at("messages"@) is Some
    &&& ({
        let told = payload.array_at("messages"@)->0;
        &&& told.len() == 4
        &&& told[2].text_at("role"@) == Some("assistant"@)
        &&& told[2].text_at("content"@) == Some(said)
        &&& told[3].text_at("role"@) == Some("user"@)
    })
}

proof fn payload_keys_differ()
    ensures
        "op"@ != "server"@ && "op"@ != "tool"@ && "op"@ != "arguments"@ && "server"@ != "tool"@ && "server"@
            != "arguments"@ && "tool"@ != "arguments"@,
        "remaining_calls"@ != "op"@ && "remaining_calls"@ != "server"@ && "remaining_calls"@ != "tool"@
            && "remaining_calls"@ != "arguments"@ && "remaining_calls"@ != "final_output"@,
        "final_output"@ != "op"@ && "final_output"@ != "server"@ && "final_output"@ != "tool"@
            && "final_output"@ != "arguments"@,
{
    reveal_strlit("op");
    reveal_strlit("server");
    reveal_strlit("tool");
    reveal_strlit("arguments");
    reveal_strlit("remaining_calls");
    reveal_strlit("final_output");
    assert("op"@.len() == 2 && "server"@.len() == 6 && "tool"@.len() == 4 && "arguments"@.len() == 9
        && "remaining_calls"@.len() == 15 && "final_output"@.len() == 12);
}

/// A call becomes a payload exactly where it names a server and a tool, and the payload asks
/// for exactly that call and has nothing else.
pub proof fn payloads_ask_for_their_calls(call: JsonView)
    ensures
        call_payload(call) is Some <==> is_call(call),
        call_payload(call) matches Some(p) ==> asks_for(p, call) && (p matches JsonView::Object(m)
            && m.dom() == set!["op"@, "server"@, "tool"@, "arguments"@]),
{
    payload_keys_differ();
    if let Some(p) = call_payload(call) {
        assert(p->Object_0.dom() =~= set!["op"@, "server"@, "tool"@, "arguments"@]);
    }
}

/// Whether the newest settled effect is a model call that committed with the reply `reply`.
pub open spec fn model_replied(doc: JsonView, content: Seq<char>, reply: Option<JsonView>) -> bool {
    let effects = settled(doc);
    &&& effects.len() > 0
    &&& effects.last().text_at("operation"@) == Some("model.chat"@)
    &&& effects.last().text_at("state"@) == Some("committed"@)
    &&& effects.last().text_at("result_ref"@) matches Some(uri) && uri_text(uri) == Some(content)
    &&& parsed(unfenced(content)) == reply
}

/// Whether the newest settled effect is a tool call that committed with the result `result`.
pub open spec fn tool_answered(doc: JsonView, text: Seq<char>, result: Option<JsonView>) -> bool {
    let effects = settled(doc);
    &&& effects.len() > 0
    &&& effects.last().text_at("operation"@) matches Some(op) && begins_with(op, "mcp."@)
    &&& effects.last().text_at("state"@) == Some("committed"@)
    &&& effects.last().text_at("result_ref"@) matches Some(uri) && uri_text(uri) == Some(text)
    &&& parsed(text) == result
}

proof fn states_differ()
    ensures
        !begins_with("model.chat"@, "mcp."@),
        "committed"@ != "failed"@,
{
    reveal_strlit("model.chat");
    reveal_strlit("mcp.");
    reveal_strlit("committed");
    reveal_strlit("failed");
    assert("model.chat"@.len() == 10 && "mcp."@.len() == 4 && "committed"@.len() == 9
        && "failed"@.len() == 6);
    assert("model.chat"@.subrange(0, 4)[1] != "mcp."@[1]);
}

/// In a run with tools, a reply that asks for a tool call makes exactly that call, with the
/// arguments that the model gave, unless the run has made four calls, or the call repeats
/// the newest one, or a plan is due first.
pub proof fn asked_calls_are_made(
    s: SettingsView,
    doc: JsonView,
    content: Seq<char>,
    reply: JsonView,
    call: JsonView,
)
    requires
        model_replied(doc, content, Some(reply)),
        reply.get("mcp_call"@) == Some(call),
        is_call(call),
        s.tools_enabled,
        op_total(doc, "mcp."@) < 4,
        !s.tools_required || op_total(doc, "mcp."@) > 0,
        forall|p: JsonView| #[trigger] asks_for(p, call) ==> newest_hash(doc) != Some(hash_of(p)),
    ensures
        exists|payload: JsonView| #[trigger]
            makes_call(turn(s, doc), payload) && asks_for(payload, call),
{
    states_differ();
    payloads_ask_for_their_calls(call);
    assert(makes_call(turn(s, doc), call_payload(call)->0));
}

/// Whatever a turn makes of a reply, a tool call that is no plan's asks for the call of the
/// reply.
pub proof fn no_other_calls_are_made(s: SettingsView, doc: JsonView, content: Seq<char>,
    reply: Option<JsonView>)
    requires
        model_replied(doc, content, reply),
        !s.tools_required || op_total(doc, "mcp."@) > 0,
    ensures
        forall|payload: JsonView| #[trigger]
            makes_call(turn(s, doc), payload) ==> s.tools_enabled && op_total(doc, "mcp."@) < 4
                && reply is Some && reply->0.get("mcp_call"@) is Some && is_call(
                reply->0.get("mcp_call"@)->0,
            ) && asks_for(payload, reply->0.get("mcp_call"@)->0),
{
    states_differ();
    reveal_strlit("mcp.call_tool");
    reveal_strlit("model.chat");
    assert("mcp.call_tool"@.len() == 13 && "model.chat"@.len() == 10);
    if let Some(v) = reply {
        if let Some(call) = v.get("mcp_call"@) {
            payloads_ask_for_their_calls(call);
        }
    }
}

/// A call that repeats the newest one is not made again: the model is asked, without the
/// tools where the run has made more than one call, and after three replies to the same call
/// the run fails.
pub proof fn repeated_calls_are_not_made(
    s: SettingsView,
    doc: JsonView,
    content: Seq<char>,
    reply: JsonView,
    call: JsonView,
)
    requires
        model_replied(doc, content, Some(reply)),
        reply.get("mcp_call"@) == Some(call),
        is_call(call),
        s.tools_enabled,
        0 < op_total(doc, "mcp."@) < 4,
        forall|p: JsonView| #[trigger] asks_for(p, call) && p == call_payload(call)->0 ==> newest_hash(doc)
            == Some(hash_of(p)),
    ensures
        ({
            let calls = op_total(doc, "mcp."@);
            let replies = op_total(doc, "model.chat"@);
            &&& replies > calls + 2 ==> turn(s, doc) == (StepView::Fail {
                reason_code: "repeated_mcp_call"@,
            })
            &&& replies <= calls + 2 ==> exists|payload: JsonView| #[trigger]
                makes_request(turn(s, doc), payload) && answers_back(payload, s, content)
        }),
{
    states_differ();
    payloads_ask_for_their_calls(call);
    chat_keys_differ();
    if turn(s, doc) is Invoke {
        assert(makes_request(turn(s, doc), turn(s, doc)->payload));
    }
}

/// A run that has made four tool calls makes no other one: a reply that asks for one fails.
pub proof fn the_fifth_call_fails(s: SettingsView, doc: JsonView, content: Seq<char>, reply: JsonView,
    call: JsonView)
    requires
        model_replied(doc, content, Some(reply)),
        reply.get("mcp_call"@) == Some(call),
        is_call(call),
        s.tools_enabled,
        op_total(doc, "mcp."@) >= 4,
    ensures
        turn(s, doc) == (StepView::Fail { reason_code: "mcp_hop_limit"@ }),
{
    states_differ();
    payloads_ask_for_their_calls(call);
}

// ---------------------------------------------------------------------------
// Plans
// ---------------------------------------------------------------------------

proof fn payloads_are_of_calls(calls: Seq<JsonView>)
    ensures
        payloads(calls) is Some <==> forall|i: int| 0 <= i < calls.len() ==> is_call(#[trigger] calls[i]),
        payloads(calls) matches Some(p) ==> p.len() == calls.len() && forall|i: int|
            0 <= i < calls.len() ==> asks_for(#[trigger] p[i], calls[i]) && call_payload(calls[i]) == Some(
                p[i],
            ),
    decreases calls.len(),
{
    if calls.len() > 0 {
        let front = calls.drop_last();
        payloads_are_of_calls(front);
        payloads_ask_for_their_calls(calls.last());
        if payloads(calls) is Some {
            let p = payloads(calls)->0;
            assert forall|i: int| 0 <= i < calls.len() implies asks_for(#[trigger] p[i], calls[i])
                && call_payload(calls[i]) == Some(p[i]) by {
                if i < front.len() {
                    assert(front[i] == calls[i]);
                    assert(payloads(front)->0[i] == p[i]);
                }
            }
            assert forall|i: int| 0 <= i < calls.len() implies is_call(#[trigger] calls[i]) by {
                if i < front.len() {
                    assert(front[i] == calls[i]);
                }
            }
        } else if forall|i: int| 0 <= i < calls.len() ==> is_call(#[trigger] calls[i]) {
            assert forall|i: int| 0 <= i < front.len() implies is_call(#[trigger] front[i]) by {
                assert(front[i] == calls[i]);
            }
            assert(is_call(calls[calls.len() - 1]));
        }
    }
}

/// In a run that must have a plan, the first reply with a plan of one to four calls begins
/// it: the first call is made, the others are carried along in their order, and with them
/// the exact answer that the task asks for, if it asks for one.
pub proof fn plans_begin_with_their_first_call(
    s: SettingsView,
    doc: JsonView,
    content: Seq<char>,
    reply: JsonView,
    plan: JsonView,
    calls: Seq<JsonView>,
)
    requires
        model_replied(doc, content, Some(reply)),
        reply.get("mcp_plan"@) == Some(plan),
        plan.array_at("calls"@) == Some(calls),
        1 <= calls.len() <= 4,
        forall|i: int| 0 <= i < calls.len() ==> is_call(#[trigger] calls[i]),
        s.tools_required,
        op_total(doc, "mcp."@) == 0,
    ensures
        exists|payload: JsonView| #[trigger]
            makes_call(turn(s, doc), payload) && asks_for(payload, calls[0]) && payload.array_at(
                "remaining_calls"@,
            ) is Some && ({
                let rest = payload.array_at("remaining_calls"@)->0;
                &&& rest.len() == calls.len() - 1
                &&& forall|i: int| 0 <= i < rest.len() ==> asks_for(#[trigger] rest[i], calls[i + 1])
            }) && payload.text_at("final_output"@) == (if exact_answer(s.task).len() > 0 {
                Some(exact_answer(s.task))
            } else {
                None
            }),
{
    states_differ();
    payload_keys_differ();
    payloads_are_of_calls(calls);
    let p = payloads(calls)->0;
    assert(asks_for(p[0], calls[0]));
    payloads_ask_for_their_calls(calls[0]);
    assert forall|i: int| 0 <= i < p.skip(1).len()
        implies asks_for(#[trigger] p.skip(1)[i], calls[i + 1]) by {
        assert(p.skip(1)[i] == p[i + 1]);
    }
    let payload = turn(s, doc)->payload;
    assert(makes_call(turn(s, doc), payload));
    assert(payload.array_at("remaining_calls"@) == Some(p.skip(1)));
}

/// A reply without a plan of one to four calls begins none: the model is reminded once, and
/// then the run fails.
pub proof fn missing_plans_are_asked_for_once(s: SettingsView, doc: JsonView, content: Seq<char>,
    reply: Option<JsonView>)
    requires
        model_replied(doc, content, reply),
        s.tools_required,
        op_total(doc, "mcp."@) == 0,
        reply matches Some(v) ==> !(v.get("mcp_plan"@) matches Some(plan)
            && plan.array_at("calls"@) matches Some(
            calls,
        ) && 1 <= calls.len() <= 4 && forall|i: int| 0 <= i < calls.len() ==> is_call(#[trigger] calls[i])),
    ensures
        op_total(doc, "model.chat"@) >= 2 ==> turn(s, doc) == (StepView::Fail {
            reason_code: "tool_plan_required"@,
        }),
        op_total(doc, "model.chat"@) < 2 ==> exists|payload: JsonView| #[trigger]
            makes_request(turn(s, doc), payload) && answers_back(payload, s, content),
{
    states_differ();
    chat_keys_differ();
    if let Some(v) = reply {
        if let Some(plan) = v.get("mcp_plan"@) {
            if let Some(calls) = plan.array_at("calls"@) {
                payloads_are_of_calls(calls);
            }
        }
    }
    if turn(s, doc) is Invoke {
        assert(makes_request(turn(s, doc), turn(s, doc)->payload));
    }
}

/// Whether a tool result names its request, which carries the calls `rest`.
pub open spec fn carries(result: JsonView, request: JsonView, rest: Seq<JsonView>) -> bool {
    result.get("request"@) == Some(request) && request.array_at("remaining_calls"@) == Some(rest)
}

/// A tool result goes on with the plan that its request carries: the next call is made, with
/// the calls behind it and the same answer, as long as the run may make calls.
pub proof fn plans_go_on_with_the_next_call(
    s: SettingsView,
    doc: JsonView,
    text: Seq<char>,
    result: JsonView,
    request: JsonView,
    rest: Seq<JsonView>,
)
    requires
        tool_answered(doc, text, Some(result)),
        carries(result, request, rest),
        rest.len() > 0,
        is_call(rest[0]),
    ensures
        op_total(doc, "mcp."@) >= 4 ==> turn(s, doc) == (StepView::Fail { reason_code: "mcp_hop_limit"@ }),
        op_total(doc, "mcp."@) < 4 ==> exists|payload: JsonView| #[trigger]
            makes_call(turn(s, doc), payload) && asks_for(payload, rest[0]) && payload.array_at(
                "remaining_calls"@,
            ) == Some(rest.skip(1)) && payload.text_at("final_output"@) == (if request.text_at(
                "final_output"@,
            ) == Some(Seq::<char>::empty()) {
                None
            } else {
                request.text_at("final_output"@)
            }),
{
    payload_keys_differ();
    payloads_ask_for_their_calls(rest[0]);
    if let Some(o) = request.text_at("final_output"@) {
        if o.len() == 0 {
            assert(o =~= Seq::empty());
        }
    }
    if turn(s, doc) is Invoke {
        assert(makes_call(turn(s, doc), turn(s, doc)->payload));
    }
}

/// The last result of a plan that carries an answer completes the run with that answer.
pub proof fn plans_end_with_their_answer(
    s: SettingsView,
    doc: JsonView,
    text: Seq<char>,
    result: JsonView,
    request: JsonView,
    answer: Seq<char>,
)
    requires
        tool_answered(doc, text, Some(result)),
        carries(result, request, Seq::empty()),
        request.text_at("final_output"@) == Some(answer),
        answer.len() > 0,
        encode_utf8(answer).len() <= 24576,
    ensures
        completes_with(turn(s, doc), answer),
{
    uri_carries_its_text(answer, 24576);
}

// ---------------------------------------------------------------------------
// Completion, failure, waiting and approval
// ---------------------------------------------------------------------------

/// Whether a reply is taken as a decision, and not as a tool call or for want of a plan.
pub open spec fn decides(s: SettingsView, doc: JsonView, reply: Option<JsonView>) -> bool {
    &&& !s.tools_required || op_total(doc, "mcp."@) > 0
    &&& !s.tools_enabled || !(reply matches Some(v) && (v.get("mcp_call"@) matches Some(call) && is_call(
        call,
    )))
}

/// A reply that is no JSON completes the run with its own text, and one that says "complete"
/// with the output that it gives.
pub proof fn completions_give_the_output(s: SettingsView, doc: JsonView, content: Seq<char>,
    reply: Option<JsonView>)
    requires
        model_replied(doc, content, reply),
        decides(s, doc, reply),
    ensures
        reply is None && encode_utf8(unfenced(content)).len() <= 24576 ==> completes_with(
            turn(s, doc),
            unfenced(content),
        ),
        reply is Some && reply->0.get("complete"@) is Some ==> turn(s, doc) is Complete && ({
            let output = reply->0.get("complete"@)->0.text_at("output"@);
            &&& output is Some && encode_utf8(output->0).len() <= 24576 ==> completes_with(
                turn(s, doc),
                output->0,
            )
            &&& output is None ==> completes_with(turn(s, doc), Seq::empty())
        }),
{
    states_differ();
    if let Some(v) = reply {
        if let Some(call) = v.get("mcp_call"@) {
            payloads_ask_for_their_calls(call);
        }
        if let Some(c) = v.get("complete"@) {
            uri_carries_its_text(Seq::empty(), 24576);
            if let Some(output) = c.text_at("output"@) {
                uri_carries_its_text(output, 24576);
            }
        }
    } else {
        uri_carries_its_text(unfenced(content), 24576);
    }
}

/// A reply that says "fail", "wait" or "request_approval" does that, for the reason and with
/// the operation that it gives, "complete" going before "fail", that before "wait", and that
/// before "request_approval"; and any other reply fails.
pub proof fn replies_decide_as_they_say(s: SettingsView, doc: JsonView, content: Seq<char>, reply: JsonView)
    requires
        model_replied(doc, content, Some(reply)),
        decides(s, doc, Some(reply)),
        reply.get("complete"@) is None,
    ensures
        reply.get("fail"@) is Some ==> turn(s, doc) == (StepView::Fail {
            reason_code: if let Some(r) = reply.get("fail"@)->0.text_at("reason_code"@) {
                r
            } else {
                "model_failed"@
            },
        }),
        reply.get("fail"@) is None && reply.get("wait"@) is Some ==> turn(s, doc) == (StepView::Wait {
            reason: if let Some(r) = reply.get("wait"@)->0.text_at("reason"@) {
                r
            } else {
                "model requested wait"@
            },
        }),
        reply.get("fail"@) is None && reply.get("wait"@) is None && reply.get("request_approval"@) is Some
            ==> turn(s, doc) == (StepView::Approve {
            operation: if let Some(o) = reply.get("request_approval"@)->0.text_at("operation"@) {
                o
            } else {
                "llm.requested_approval"@
            },
            target: if let Some(r) = reply.get("request_approval"@)->0.text_at("reason"@) {
                r
            } else {
                Seq::empty()
            },
        }),
        reply.get("fail"@) is None && reply.get("wait"@) is None && reply.get("request_approval"@) is None
            ==> turn(s, doc) == (StepView::Fail { reason_code: "unrecognized_model_decision"@ }),
{
    states_differ();
    if let Some(call) = reply.get("mcp_call"@) {
        payloads_ask_for_their_calls(call);
    }
}

/// A model call that failed fails the run with its code; one that ended otherwise, or whose
/// result cannot be read, fails the run with a code that tells so.
pub proof fn model_failures_are_told(s: SettingsView, doc: JsonView, effect: JsonView)
    requires
        settled(doc).len() > 0,
        settled(doc).last() == effect,
        effect.text_at("operation"@) == Some("model.chat"@),
    ensures
        effect.text_at("state"@) == Some("failed"@) ==> turn(s, doc) == (StepView::Fail {
            reason_code: if effect.text_at("error_code"@) is Some && effect.text_at("error_code"@)->0.len()
                > 0 {
                effect.text_at("error_code"@)->0
            } else {
                "model_effect_failed"@
            },
        }),
        effect.text_at("state"@) is Some && effect.text_at("state"@) != Some("failed"@) && effect.text_at(
            "state"@,
        ) != Some("committed"@) ==> turn(s, doc) == (StepView::Fail {
            reason_code: "model_effect_"@ + effect.text_at("state"@)->0,
        }),
        effect.text_at("state"@) == Some("committed"@) && (effect.text_at("result_ref"@) matches Some(uri)
            ==> uri_text(uri) is None) ==> turn(s, doc) == (StepView::Fail {
            reason_code: "model_result_undecodable"@,
        }),
{
    states_differ();
}

/// The decision of a step says the same as the step: an effect has the operation and the
/// printed payload, and an approval is asked for the run and for what the reply named.
pub proof fn decisions_say_what_steps_say(step: StepView, run_id: Seq<char>)
    ensures
        match step {
            StepView::Invoke { operation, payload } => decision_of(step, run_id) == (
            DecisionView::InvokeEffect {
                operation,
                payload: encode_utf8(printed(payload)),
                effect_claim: Seq::empty(),
            }),
            StepView::Complete { output_ref } => decision_of(step, run_id) == (DecisionView::Complete {
                output_ref,
            }),
            StepView::Fail { reason_code } => decision_of(step, run_id) == (DecisionView::Fail {
                reason_code,
            }),
            StepView::Wait { reason } => decision_of(step, run_id) == (DecisionView::Wait {
                reason,
                timer_id: Seq::empty(),
            }),
            StepView::Approve { operation, target } => decision_of(step, run_id)
                matches DecisionView::RequestApproval { approval_draft: DraftView::Request(q) }
                    && q.operation == operation && q.target_resource == target && q.run_id == run_id
                && q.principal_id == "00000000-0000-7000-8000-0000000000dd"@ && q.actor_id
                == "00000000-0000-7000-8000-0000000000ae"@ && q.expires_at_ms == 0
                && q.capability_ids.len() == 0 && q.request_id.len() == 0 && q.nonce.len() == 0,
        },
{
}

/// An answer repeats the position that it was asked for: the run, its revision, the epoch, the
/// step, the cursor and the turn, whose id is also its own.
pub proof fn answers_repeat_the_position(d: LoopDecision, input: LoopInput, epoch: u64,
    decision: DecisionView)
    requires
        answers(d, input, epoch, decision),
    ensures
        d.run_id@ == input.run_id@,
        d.run_revision == input.run_revision,
        d.loop_epoch == epoch,
        d.step_sequence == input.step_sequence,
        d.input_event_cursor@ == input.input_event_cursor@,
        d.turn_id@ == input.turn_id@,
        d.decision_id@ == input.turn_id@,
        d.decision@ == decision,
{
}

// ---------------------------------------------------------------------------
// What the model is told
// ---------------------------------------------------------------------------

proof fn chat_keys_differ()
    ensures
        "model"@ != "messages"@ && "model"@ != "temperature"@ && "model"@ != "response_format"@
            && "messages"@ != "temperature"@ && "messages"@ != "response_format"@ && "temperature"@
            != "response_format"@,
        "base_url"@ != "model"@ && "base_url"@ != "messages"@ && "base_url"@ != "temperature"@ && "base_url"@
            != "response_format"@ && "base_url"@ != "api_key_env"@,
        "api_key_env"@ != "model"@ && "api_key_env"@ != "messages"@ && "api_key_env"@ != "temperature"@
            && "api_key_env"@ != "response_format"@,
        "role"@ != "content"@,
{
    reveal_strlit("model");
    reveal_strlit("messages");
    reveal_strlit("temperature");
    reveal_strlit("response_format");
    reveal_strlit("base_url");
    reveal_strlit("api_key_env");
    assert("model"@.len() == 5 && "messages"@.len() == 8 && "temperature"@.len() == 11
        && "response_format"@.len() == 15 && "base_url"@.len() == 8 && "api_key_env"@.len() == 11);
    assert("messages"@[0] != "base_url"@[0]);
    assert("temperature"@[0] != "api_key_env"@[0]);
    reveal_strlit("role");
    reveal_strlit("content");
    assert("role"@.len() == 4 && "content"@.len() == 7);
}

/// Whether a model request is one of the settings: it has their model, their provider and
/// their key name, and its conversation begins with the system's words and the task.
pub open spec fn is_request_of(payload: JsonView, s: SettingsView) -> bool {
    &&& payload.text_at("model"@) == Some(s.model)
    &&& payload.text_at("base_url"@) == s.base_url
    &&& payload.text_at("api_key_env"@) == s.api_key_env
    &&& payload.get("temperature"@) == Some(JsonView::Real("0.2"@))
    &&& payload.array_at("messages"@) is Some
    &&& ({
        let told = payload.array_at("messages"@)->0;
        &&& told.len() >= 2
        &&& told[0].text_at("role"@) == Some("system"@)
        &&& told[1].text_at("role"@) == Some("user"@)
        &&& told[1].text_at("content"@) == Some("task: "@ + s.task)
    })
}

/// A run without settled effects begins with a request of its settings, of two messages.
pub proof fn runs_begin_with_the_task(s: SettingsView, doc: JsonView)
    requires
        settled(doc).len() == 0,
    ensures
        exists|payload: JsonView| #[trigger]
            makes_request(turn(s, doc), payload) && is_request_of(payload, s) && payload.array_at(
                "messages"@,
            )->0.len() == 2,
{
    chat_keys_differ();
    assert(makes_request(turn(s, doc), turn(s, doc)->payload));
}

proof fn asked_requests(s: SettingsView, enabled: bool, required: bool, extra: Seq<JsonView>)
    ensures
        is_request_of(ask_model(s, enabled, required, extra)->payload, s),
{
    chat_keys_differ();
}

proof fn requests_after_tools(
    s: SettingsView,
    state: Seq<char>,
    error: Option<Seq<char>>,
    result: Option<JsonView>,
    abridged: Seq<char>,
    hops: u32,
    payload: JsonView,
)
    requires
        makes_request(after_tool(s, state, error, result, abridged, hops), payload),
    ensures
        is_request_of(payload, s),
{
    reveal_strlit("model.chat");
    reveal_strlit("mcp.call_tool");
    assert("model.chat"@.len() == 10 && "mcp.call_tool"@.len() == 13);
    assert forall|enabled: bool, required: bool, extra: Seq<JsonView>| is_request_of(
        (#[trigger] ask_model(s, enabled, required, extra))->payload,
        s,
    ) by {
        asked_requests(s, enabled, required, extra);
    }
}

proof fn requests_after_replies(
    s: SettingsView,
    content: Seq<char>,
    reply: Option<JsonView>,
    hops: u32,
    model_hops: u32,
    last_hash: Option<Seq<char>>,
    call_hash: Seq<char>,
    payload: JsonView,
)
    requires
        makes_request(after_reply(s, content, reply, hops, model_hops, last_hash, call_hash), payload),
    ensures
        is_request_of(payload, s),
{
    reveal_strlit("model.chat");
    reveal_strlit("mcp.call_tool");
    assert("model.chat"@.len() == 10 && "mcp.call_tool"@.len() == 13);
    assert forall|enabled: bool, required: bool, extra: Seq<JsonView>| is_request_of(
        (#[trigger] ask_model(s, enabled, required, extra))->payload,
        s,
    ) by {
        asked_requests(s, enabled, required, extra);
    }
}

/// Every request to the model is one of the run's settings.
pub proof fn requests_are_of_the_settings(s: SettingsView, doc: JsonView, payload: JsonView)
    requires
        makes_request(turn(s, doc), payload),
    ensures
        is_request_of(payload, s),
{
    let effects = settled(doc);
    let hops = op_total(doc, "mcp."@);
    if effects.len() > 0 && op_begins(effects.last(), "mcp."@) {
        let e = effects.last();
        let result = match result_text(e) {
            Some(t) => t,
            None => Seq::empty(),
        };
        requests_after_tools(
            s,
            text_or(e, "state"@, Seq::empty()),
            e.text_at("error_code"@),
            parsed(result),
            summary(result),
            hops,
            payload,
        );
    } else if newest(effects, MODEL_CHAT_OP@) is None {
        asked_requests(s, s.tools_enabled, s.tools_required, Seq::empty());
    } else {
        let e = newest(effects, MODEL_CHAT_OP@)->0;
        if text_or(e, "state"@, Seq::empty()) == "committed"@ && result_text(e) is Some {
            let content = result_text(e)->0;
            let reply = parsed(unfenced(content));
            let asked = match reply {
                Some(v) => asked_call(v),
                None => None,
            };
            requests_after_replies(
                s,
                content,
                reply,
                hops,
                op_total(doc, MODEL_CHAT_OP@),
                newest_hash(doc),
                match asked {
                    Some(q) => hash_of(q),
                    None => Seq::empty(),
                },
                payload,
            );
        }
    }
}

/// A tool result that carries no plan is told to the model: the request goes on with one
/// message of the user on it, and where the run may make no other call with a second one.
pub proof fn results_are_told(s: SettingsView, doc: JsonView, text: Seq<char>, result: Option<JsonView>)
    requires
        tool_answered(doc, text, result),
        result matches Some(v) ==> v.get("request"@) is None,
    ensures
        exists|payload: JsonView| #[trigger]
            makes_request(turn(s, doc), payload) && is_request_of(payload, s) && ({
                let told = payload.array_at("messages"@)->0;
                let calls = op_total(doc, "mcp."@);
                &&& told.len() == (if calls >= 4 {
                    4int
                } else {
                    3
                })
                &&& told[2].text_at("role"@) == Some("user"@)
                &&& told[2].get("content"@) == Some(
                    follow_up(
                        "The MCP tool call succeeded with result:\n"@ + summary(text),
                        result,
                        calls,
                    ),
                )
            }),
{
    chat_keys_differ();
    assert(makes_request(turn(s, doc), turn(s, doc)->payload));
}

/// A tool call that failed is told to the model with its code.
pub proof fn failures_are_told(s: SettingsView, doc: JsonView, effect: JsonView)
    requires
        settled(doc).len() > 0,
        settled(doc).last() == effect,
        effect.text_at("operation"@) matches Some(op) && begins_with(op, "mcp."@),
        effect.text_at("state"@) == Some("failed"@),
        effect.text_at("error_code"@) is Some,
        effect.text_at("result_ref"@) is None,
    ensures
        exists|payload: JsonView| #[trigger]
            makes_request(turn(s, doc), payload) && is_request_of(payload, s) && payload.array_at(
                "messages"@,
            )->0[2].get("content"@) == Some(
                follow_up(
                    "The MCP tool call failed: "@ + effect.text_at("error_code"@)->0,
                    parsed(Seq::empty()),
                    op_total(doc, "mcp."@),
                ),
            ),
{
    states_differ();
    chat_keys_differ();
    assert(makes_request(turn(s, doc), turn(s, doc)->payload));
}

/// What is told of a tool call begins with its number, holds the note, and shows every image
/// of the result.
pub proof fn notes_are_told_in_full(note: Seq<char>, result: Option<JsonView>, hops: u32)
    ensures
        ({
            let lead = "MCP tool call #"@ + decimal(hops as nat) + " has finished. "@ + note;
            let told = follow_up(note, result, hops);
            let shown = if let Some(v) = result {
                if let Some(content) = v.array_at("content"@) {
                    images_in(content)
                } else {
                    Seq::empty()
                }
            } else {
                Seq::empty()
            };
            &&& shown.len() == 0 ==> told is Text && begins_with(told->Text_0, lead)
            &&& shown.len() > 0 ==> told is Array && ({
                let items = told->Array_0;
                &&& items.len() == shown.len() + 1
                &&& items[0].text_at("type"@) == Some("text"@)
                &&& items[0].text_at("text"@) is Some
                &&& begins_with(items[0].text_at("text"@)->0, lead)
                &&& items.skip(1) == shown
            })
        }),
{
    reveal_strlit("type");
    reveal_strlit("text");
    assert("type"@.len() == 4 && "text"@.len() == 4);
    assert("type"@[1] != "text"@[1]);
    let lead = "MCP tool call #"@ + decimal(hops as nat) + " has finished. "@ + note;
    let text = crate::openrouter_loop::prompt::follow_up_text(note, hops);
    assert(text.subrange(0, lead.len() as int) =~= lead);
    if let JsonView::Array(items) = follow_up(note, result, hops) {
        assert(items.skip(1) =~= images_in(result->0.array_at("content"@)->0));
    }
}

/// Of content items exactly the images with a type and data are shown, in their order, each
/// by its own data; the data that stands for an image which was left out is not.
pub proof fn images_are_shown(content: Seq<JsonView>, item: JsonView)
    ensures
        images_in(content.push(item)) == (if image_of(item) is Some {
            images_in(content).push(image_of(item)->0)
        } else {
            images_in(content)
        }),
        images_in(Seq::empty()).len() == 0,
        image_of(item) is Some <==> item.text_at("type"@) == Some("image"@)
            && item.text_at("mimeType"@) is Some
            && (item.text_at("data"@) matches Some(d) && d != "[image attached]"@),
        image_of(item) is Some ==> image_of(item)->0.text_at("type"@) == Some("image_url"@) && image_of(
            item,
        )->0.get("image_url"@) is Some && image_of(item)->0.get("image_url"@)->0.text_at("url"@) == Some(
            "data:"@ + item.text_at("mimeType"@)->0 + ";base64,"@ + item.text_at("data"@)->0,
        ),
{
    reveal_strlit("type");
    reveal_strlit("image_url");
    assert("type"@.len() == 4 && "image_url"@.len() == 9);
    assert(content.push(item).drop_last() =~= content);
}

/// A summary leaves the data of images out and nothing else.
pub proof fn summaries_leave_data_out(item: JsonView, key: Seq<char>)
    ensures
        item.text_at("type"@) != Some("image"@) ==> without_data(item) == item,
        item.text_at("type"@) == Some("image"@) ==> without_data(item).text_at("data"@) == Some(
            "[image attached]"@,
        ) && (key != "data"@ ==> without_data(item).get(key) == item.get(key)),
{
}

// ---------------------------------------------------------------------------
// Settings and events
// ---------------------------------------------------------------------------

/// The settings of a run are what its envelope says: texts that are not empty, tools where it
/// turns them on, and a plan where it turns tools on and requires their choice. Without an
/// envelope the state is the task.
pub proof fn settings_are_those_of_the_envelope(raw: Seq<char>, envelope: JsonView, default_model: Seq<char>)
    ensures
        ({
            let s = settings(raw, None, default_model);
            s.task == raw && s.model == default_model && s.base_url is None && s.api_key_env is None
                && !s.tools_enabled && !s.tools_required
        }),
        ({
            let s = settings(raw, Some(envelope), default_model);
            &&& s.task == (if envelope.text_at("task"@) is Some && envelope.text_at("task"@)->0.len() > 0 {
                envelope.text_at("task"@)->0
            } else {
                raw
            })
            &&& s.model == (if envelope.text_at("model"@) is Some && envelope.text_at("model"@)->0.len() > 0 {
                envelope.text_at("model"@)->0
            } else {
                default_model
            })
            &&& s.base_url == (if envelope.text_at("base_url"@) is Some
                && envelope.text_at("base_url"@)->0.len() > 0 {
                envelope.text_at("base_url"@)
            } else {
                None
            })
            &&& s.api_key_env == (if envelope.text_at("api_key_env"@) is Some
                && envelope.text_at("api_key_env"@)->0.len() > 0 {
                envelope.text_at("api_key_env"@)
            } else {
                None
            })
            &&& envelope.get("tools"@) == Some(JsonView::Bool(true)) ==> s.tools_enabled
            &&& envelope.text_at("tools"@) == Some("true"@) ==> s.tools_enabled
            &&& envelope.get("tools"@) is None && envelope.get("mcp"@) == Some(JsonView::Bool(true))
                ==> s.tools_enabled
            &&& envelope.get("tools"@) is None && envelope.get("mcp"@) is None ==> !s.tools_enabled
            &&& envelope.get("tools"@) == Some(JsonView::Bool(false)) ==> !s.tools_enabled
            &&& s.tools_required <==> s.tools_enabled && envelope.text_at("tool_choice"@) == Some(
                "required"@,
            )
        }),
{
}

/// The settled effects of a feed are its elements in their order, without the one that carries
/// the counts.
pub proof fn effects_are_those_of_the_feed(items: Seq<JsonView>, last: JsonView, doc: JsonView)
    ensures
        settled(JsonView::Array(Seq::empty())).len() == 0,
        settled(JsonView::Array(items.push(last))) == (if last.text_at("operation"@) == Some(
            "kernel.op_counts"@,
        ) {
            settled(JsonView::Array(items))
        } else {
            settled(JsonView::Array(items)).push(last)
        }),
        !(doc is Array) ==> settled(doc) == settled(
            JsonView::Array(if let Some(a) = doc.array_at("settled"@) { a } else { Seq::empty() }),
        ),
{
    assert(items.push(last).drop_last() =~= items);
}

/// The newest effect of an operation is the last one with that operation.
pub proof fn newest_effects_are_last(effects: Seq<JsonView>, e: JsonView, op: Seq<char>)
    ensures
        newest(Seq::empty(), op) is None,
        newest(effects.push(e), op) == (if e.text_at("operation"@) == Some(op) {
            Some(e)
        } else {
            newest(effects, op)
        }),
{
    assert(effects.push(e).drop_last() =~= effects);
}

} // verus!
