//! Tool calls and plans of tool calls in a model's reply, and their progress.

use vstd::prelude::*;
use vstd::string::*;

use crate::json::{item_views, items, members, parsed, same_opt_json, same_opt_string, Items, Json, JsonView};
use crate::text::{
    chars_of, end_of_part, is_space, is_space_char, lower_chars, lowered, rfind, rfind_in, take_until, text_of, trim,
    trim_class, trim_end_matches, trim_left, trim_right, trim_start_matches, trimmed,
    without_leading, without_trailing,
};

verus! {

/// The operation of an effect that calls a tool.
pub const MCP_CALL_OP: &'static str = "mcp.call_tool";

/// The most tool calls that one run may chain.
pub const MAX_MCP_HOPS: u32 = 4;

// ---------------------------------------------------------------------------
// Reading a reply
// ---------------------------------------------------------------------------

/// A reply without the white space and the code fences around it.
pub open spec fn unfenced(content: Seq<char>) -> Seq<char> {
    trimmed(
        without_trailing(
            without_leading(without_leading(trimmed(content), "```json"@), "```"@),
            "```"@,
        ),
    )
}

/// A reply without the white space and the code fences around it.
pub fn strip_fences(content: &str) -> (r: String)
    ensures
        r@ == unfenced(content@),
{
    let a = trim(content);
    let b = trim_start_matches(a.as_str(), "```json");
    let c = trim_start_matches(b.as_str(), "```");
    let d = trim_end_matches(c.as_str(), "```");
    trim(d.as_str())
}

/// The effect payload of the tool call `call`, which names a server and a tool.
pub open spec fn call_payload(call: JsonView) -> Option<JsonView> {
    match (call.text_at("server"@), call.text_at("tool"@)) {
        (Some(server), Some(tool)) => Some(
            JsonView::Object(
                map![
                    "op"@ => JsonView::Text(MCP_CALL_OP@),
                    "server"@ => JsonView::Text(server),
                    "tool"@ => JsonView::Text(tool),
                    "arguments"@ => match call.get("arguments"@) {
                        Some(a) => a,
                        None => JsonView::Object(Map::empty()),
                    },
                ],
            ),
        ),
        _ => None,
    }
}

/// The effect payload of the tool call `call`, which names a server and a tool.
pub fn normalize_mcp_call(call: &Json) -> (r: Option<Json>)
    ensures
        same_opt_json(r, call_payload(call@)),
{
    match (call.text_at("server"), call.text_at("tool")) {
        (Some(server), Some(tool)) => {
            let arguments = match call.get("arguments") {
                Some(a) => a.copy(),
                None => members().object(),
            };
            Some(
                members().put_text("op", MCP_CALL_OP).put_text("server", server).put_text(
                    "tool",
                    tool,
                ).put("arguments", arguments).object(),
            )
        },
        _ => None,
    }
}

/// The payload of the tool call that a parsed reply asks for.
pub open spec fn asked_call(reply: JsonView) -> Option<JsonView> {
    match reply.get("mcp_call"@) {
        Some(call) => call_payload(call),
        None => None,
    }
}

/// The payload of the tool call that a parsed reply asks for.
pub fn mcp_call_of(reply: &Json) -> (r: Option<Json>)
    ensures
        same_opt_json(r, asked_call(reply@)),
{
    match reply.get("mcp_call") {
        Some(call) => normalize_mcp_call(call),
        None => None,
    }
}

/// The parsed value of a reply within its fences.
pub open spec fn reply_value(content: Seq<char>) -> Option<JsonView> {
    parsed(unfenced(content))
}

/// The payload of the tool call that a reply asks for with
/// `{"mcp_call": {"server": .., "tool": .., "arguments": ..}}`.
pub fn parse_mcp_call(content: &str) -> (r: Option<Json>)
    ensures
        same_opt_json(
            r,
            match reply_value(content@) {
                Some(v) => asked_call(v),
                None => None,
            },
        ),
{
    match Json::from_text(strip_fences(content).as_str()) {
        Some(v) => mcp_call_of(&v),
        None => None,
    }
}

// ---------------------------------------------------------------------------
// Plans
// ---------------------------------------------------------------------------

/// The payloads of `calls`, where every one of them names a server and a tool.
pub open spec fn payloads(calls: Seq<JsonView>) -> Option<Seq<JsonView>>
    decreases calls.len(),
{
    if calls.len() == 0 {
        Some(Seq::empty())
    } else {
        match (payloads(calls.drop_last()), call_payload(calls.last())) {
            (Some(rest), Some(p)) => Some(rest.push(p)),
            _ => None,
        }
    }
}

/// `call` with the calls that follow it and the answer that ends the plan.
pub open spec fn with_rest(call: JsonView, rest: Seq<JsonView>, output: Seq<char>) -> JsonView {
    let planned = call.with("remaining_calls"@, JsonView::Array(rest));
    if output.len() == 0 {
        planned
    } else {
        planned.with("final_output"@, JsonView::Text(output))
    }
}

/// The payload of the first call of the plan in a parsed reply. It carries the
/// calls that follow, and the exact answer that the task asks for, if any.
pub open spec fn plan_start(reply: JsonView, task: Seq<char>) -> Option<JsonView> {
    match reply.get("mcp_plan"@) {
        Some(plan) => match plan.array_at("calls"@) {
            Some(calls) => if 1 <= calls.len() <= MAX_MCP_HOPS {
                match payloads(calls) {
                    Some(p) => Some(with_rest(p[0], p.skip(1), exact_answer(task))),
                    None => None,
                }
            } else {
                None
            },
            None => None,
        },
        None => None,
    }
}

proof fn payloads_of_prefix(calls: Seq<JsonView>, n: int)
    requires
        0 <= n <= calls.len(),
        payloads(calls.take(n)) is None,
    ensures
        payloads(calls) is None,
    decreases calls.len() - n,
{
    if n == calls.len() {
        assert(calls.take(n) =~= calls);
    } else {
        assert(calls.take(n + 1).drop_last() =~= calls.take(n));
        payloads_of_prefix(calls, n + 1);
    }
}

fn set_rest(call: Json, rest: Items, output: &str) -> (r: Json)
    requires
        call@ is Object,
    ensures
        r@ == with_rest(call@, rest@, output@),
{
    let mut out = call;
    out.set("remaining_calls", rest.array());
    if output.unicode_len() > 0 {
        out.set("final_output", Json::text(output));
    }
    out
}

/// The payload of the first call of the plan in a parsed reply.
pub fn mcp_plan_of(reply: &Json, task: &str) -> (r: Option<Json>)
    ensures
        same_opt_json(r, plan_start(reply@, task@)),
{
    let plan = match reply.get("mcp_plan") {
        Some(p) => p,
        None => return None,
    };
    let calls = match plan.array_at("calls") {
        Some(c) => c,
        None => return None,
    };
    if calls.len() == 0 || calls.len() > MAX_MCP_HOPS as usize {
        return None;
    }
    let ghost views = item_views(calls@);
    let first = match normalize_mcp_call(&calls[0]) {
        Some(p) => p,
        None => {
            proof {
                assert(views.take(1).last() == calls@[0]@);
                payloads_of_prefix(views, 1);
            }
            return None;
        },
    };
    let ghost head = first@;
    let mut rest = items();
    let mut i: usize = 1;
    proof {
        reveal_with_fuel(payloads, 2);
        assert(views.take(1).drop_last() =~= Seq::empty());
        assert(views.take(1).last() == calls@[0]@);
        assert(Seq::<JsonView>::empty().push(head) =~= seq![head] + rest@);
    }
    #[verifier::loop_isolation(false)]
    while i < calls.len()
        invariant
            1 <= i <= calls.len(),
            views == item_views(calls@),
            payloads(views.take(i as int)) == Some(seq![head] + rest@),
        decreases calls.len() - i,
    {
        assert(views.take(i + 1).drop_last() =~= views.take(i as int));
        assert(views.take(i + 1).last() == calls@[i as int]@);
        match normalize_mcp_call(&calls[i]) {
            Some(p) => {
                assert((seq![head] + rest@).push(p@) =~= seq![head] + rest@.push(p@));
                rest = rest.push(p);
            },
            None => {
                proof {
                    payloads_of_prefix(views, i + 1);
                }
                return None;
            },
        }
        i += 1;
    }
    assert(views.take(calls.len() as int) =~= views);
    assert((seq![head] + rest@).skip(1) =~= rest@);
    let output = match exact_requested_output(task) {
        Some(o) => o,
        None => String::new(),
    };
    Some(set_rest(first, rest, output.as_str()))
}

/// The payload of the first call of the plan that a reply holds with
/// `{"mcp_plan": {"calls": [..]}}`.
pub fn parse_mcp_plan(content: &str, task: &str) -> (r: Option<Json>)
    ensures
        same_opt_json(
            r,
            match reply_value(content@) {
                Some(v) => plan_start(v, task@),
                None => None,
            },
        ),
{
    match Json::from_text(strip_fences(content).as_str()) {
        Some(v) => mcp_plan_of(&v, task),
        None => None,
    }
}

/// The payload of the call that follows the one that a parsed tool result
/// completes.
pub open spec fn plan_next(result: JsonView) -> Option<JsonView> {
    match result.get("request"@) {
        Some(request) => match request.array_at("remaining_calls"@) {
            Some(calls) => if calls.len() == 0 {
                None
            } else {
                match call_payload(calls[0]) {
                    Some(next) => Some(
                        with_rest(
                            next,
                            calls.skip(1),
                            match request.text_at("final_output"@) {
                                Some(o) => o,
                                None => Seq::empty(),
                            },
                        ),
                    ),
                    None => None,
                }
            },
            None => None,
        },
        None => None,
    }
}

/// The payload of the call that follows the one that a parsed tool result
/// completes.
pub fn next_call_of(result: &Json) -> (r: Option<Json>)
    ensures
        same_opt_json(r, plan_next(result@)),
{
    let request = match result.get("request") {
        Some(q) => q,
        None => return None,
    };
    let calls = match request.array_at("remaining_calls") {
        Some(c) => c,
        None => return None,
    };
    if calls.len() == 0 {
        return None;
    }
    let ghost views = item_views(calls@);
    let next = match normalize_mcp_call(&calls[0]) {
        Some(p) => p,
        None => return None,
    };
    let mut rest = items();
    let mut i: usize = 1;
    assert(views.subrange(1, 1) =~= Seq::empty());
    while i < calls.len()
        invariant
            1 <= i <= calls.len(),
            views == item_views(calls@),
            rest@ == views.subrange(1, i as int),
        decreases calls.len() - i,
    {
        assert(views.subrange(1, i + 1) =~= views.subrange(1, i as int).push(views[i as int]));
        rest = rest.push(calls[i].copy());
        i += 1;
    }
    assert(views.subrange(1, calls.len() as int) =~= views.skip(1));
    let output = match request.text_at("final_output") {
        Some(o) => o,
        None => "",
    };
    proof {
        reveal_strlit("");
        assert(""@ =~= Seq::empty());
    }
    Some(set_rest(next, rest, output))
}

/// The payload of the call that follows the one that a tool result completes.
pub fn next_planned_call(result: &str) -> (r: Option<Json>)
    ensures
        same_opt_json(
            r,
            match parsed(result@) {
                Some(v) => plan_next(v),
                None => None,
            },
        ),
{
    match Json::from_text(result) {
        Some(v) => next_call_of(&v),
        None => None,
    }
}

/// The exact answer with which a parsed tool result ends its plan.
pub open spec fn plan_answer(result: JsonView) -> Option<Seq<char>> {
    match result.get("request"@) {
        Some(request) => match request.array_at("remaining_calls"@) {
            Some(calls) => if calls.len() > 0 {
                None
            } else {
                match request.text_at("final_output"@) {
                    Some(o) => if o.len() == 0 {
                        None
                    } else {
                        Some(o)
                    },
                    None => None,
                }
            },
            None => None,
        },
        None => None,
    }
}

/// The exact answer with which a parsed tool result ends its plan.
pub fn final_output_of(result: &Json) -> (r: Option<String>)
    ensures
        same_opt_string(r, plan_answer(result@)),
{
    let request = match result.get("request") {
        Some(q) => q,
        None => return None,
    };
    let calls = match request.array_at("remaining_calls") {
        Some(c) => c,
        None => return None,
    };
    if calls.len() > 0 {
        return None;
    }
    match request.text_at("final_output") {
        Some(o) => if o.unicode_len() == 0 {
            None
        } else {
            Some(o.to_owned())
        },
        None => None,
    }
}

/// The exact answer with which a tool result ends its plan.
pub fn planned_final_output(result: &str) -> (r: Option<String>)
    ensures
        same_opt_string(
            r,
            match parsed(result@) {
                Some(v) => plan_answer(v),
                None => None,
            },
        ),
{
    match Json::from_text(result) {
        Some(v) => final_output_of(&v),
        None => None,
    }
}

// ---------------------------------------------------------------------------
// The answer that a task asks for
// ---------------------------------------------------------------------------

/// The characters that may stand around an exact answer.
pub open spec fn is_quoting(c: char) -> bool {
    c == '"' || c == '\'' || c == '`' || c == '.' || c == ',' || c == ';' || c == ':' || c == '!' || c
        == '?'
}

pub open spec fn quoting_class() -> spec_fn(char) -> bool {
    |c: char| is_quoting(c)
}

/// The characters that end a line.
pub open spec fn line_end_class() -> spec_fn(char) -> bool {
    |c: char| c == '\n'
}

/// The word after the last "exactly " of a task, without the quotes and the
/// punctuation around it. It is empty where there is no such word, or where what
/// follows on that line is more than one word.
pub open spec fn exact_answer(task: Seq<char>) -> Seq<char> {
    match rfind(lowered(task), "exactly "@) {
        Some(at) => {
            let line = trimmed(
                take_until(task.skip(at + "exactly "@.len()), line_end_class()),
            );
            let word = trim_right(trim_left(line, quoting_class()), quoting_class());
            if exists|i: int| 0 <= i < word.len() && is_space(#[trigger] word[i]) {
                Seq::empty()
            } else {
                word
            }
        },
        None => Seq::empty(),
    }
}

/// The exact answer that a task asks for.
pub fn exact_requested_output(task: &str) -> (r: Option<String>)
    ensures
        match r {
            Some(o) => o@ == exact_answer(task@) && o@.len() > 0,
            None => exact_answer(task@).len() == 0,
        },
{
    let cs = chars_of(task);
    let key = chars_of("exactly ");
    let start: usize = match rfind_in(&lower_chars(&cs), &key) {
        Some(at) => at + key.len(),
        None => return None,
    };
    let line_end = |c: char| -> (b: bool)
        ensures
            b == (c == '\n'),
        { c == '\n' };
    let end: usize = end_of_part(&cs, start, line_end, Ghost(line_end_class()));
    let line = trim(text_of(&cs, start, end).as_str());
    let class = |c: char| -> (b: bool)
        ensures
            b == is_quoting(c),
        {
            c == '"' || c == '\'' || c == '`' || c == '.' || c == ',' || c == ';' || c == ':' || c
                == '!' || c == '?'
        };
    let word = trim_class(line.as_str(), class, Ghost(quoting_class()));
    let letters = chars_of(word.as_str());
    let mut i: usize = 0;
    #[verifier::loop_isolation(false)]
    while i < letters.len()
        invariant
            i <= letters.len(),
            letters@ == word@,
            forall|k: int| 0 <= k < i ==> !is_space(#[trigger] letters@[k]),
        decreases letters.len() - i,
    {
        if is_space_char(letters[i]) {
            assert(is_space(word@[i as int]));
            return None;
        }
        i += 1;
    }
    if letters.len() == 0 {
        None
    } else {
        Some(word)
    }
}

// ---------------------------------------------------------------------------
// What holds of every plan
// ---------------------------------------------------------------------------

/// The keys of a request differ.
pub proof fn request_keys_differ()
    ensures
        "op"@.len() == 2,
        "tool"@.len() == 4,
        "server"@.len() == 6,
        "request"@.len() == 7,
        "arguments"@.len() == 9,
        "final_output"@.len() == 12,
        "remaining_calls"@.len() == 15,
{
    reveal_strlit("op");
    reveal_strlit("tool");
    reveal_strlit("server");
    reveal_strlit("request");
    reveal_strlit("arguments");
    reveal_strlit("final_output");
    reveal_strlit("remaining_calls");
}

/// The payload of a call is the payload of itself, also with the rest of its plan.
pub proof fn payload_is_stable(call: JsonView, rest: Seq<JsonView>, output: Seq<char>)
    requires
        call_payload(call) is Some,
    ensures
        call_payload(call_payload(call)->0) == call_payload(call),
        call_payload(with_rest(call_payload(call)->0, rest, output)) == call_payload(call),
{
    request_keys_differ();
    let p = call_payload(call)->0;
    assert(p.text_at("server"@) == call.text_at("server"@));
    assert(p.text_at("tool"@) == call.text_at("tool"@));
    let q = with_rest(p, rest, output);
    assert(q.text_at("server"@) == call.text_at("server"@));
    assert(q.text_at("tool"@) == call.text_at("tool"@));
    assert(p.get("arguments"@) is Some);
    assert(q.get("arguments"@) == p.get("arguments"@));
}

/// A tool result that names its request leads to the next call of the plan, with
/// the calls after it and the same answer; after the last call it leads to the
/// answer.
pub proof fn plan_goes_on(result: JsonView, call: JsonView, rest: Seq<JsonView>, output: Seq<char>)
    requires
        call_payload(call) is Some,
        result.get("request"@) == Some(with_rest(call_payload(call)->0, rest, output)),
    ensures
        rest.len() == 0 ==> plan_next(result) is None,
        rest.len() > 0 ==> plan_next(result) == (match call_payload(rest[0]) {
            Some(next) => Some(with_rest(next, rest.skip(1), output)),
            None => None,
        }),
        plan_answer(result) == (if rest.len() == 0 && output.len() > 0 {
            Some(output)
        } else {
            None
        }),
{
    request_keys_differ();
    let q = result.get("request"@)->0;
    assert(q.array_at("remaining_calls"@) == Some(rest));
    if output.len() > 0 {
        assert(q.text_at("final_output"@) == Some(output));
    } else {
        assert(q.text_at("final_output"@) is None);
    }
}

proof fn payloads_each(calls: Seq<JsonView>, k: int)
    requires
        payloads(calls) is Some,
        0 <= k < calls.len(),
    ensures
        (payloads(calls)->0).len() == calls.len(),
        call_payload(calls[k]) == Some((payloads(calls)->0)[k]),
    decreases calls.len(),
{
    let n = calls.len() - 1;
    if k < n {
        payloads_each(calls.drop_last(), k);
    } else if n > 0 {
        payloads_each(calls.drop_last(), 0);
    } else {
        assert(calls.drop_last() =~= Seq::empty());
    }
}

/// A plan runs its calls in order, each once: where every result names the request
/// that it answers, and every next request is the one that the result leads to,
/// the `k`-th request makes the `k`-th call of the plan and carries the calls behind
/// it, in order, and the last result leads to no other call but to the answer that the
/// task asks for.
pub proof fn plan_runs_in_order(
    reply: JsonView,
    task: Seq<char>,
    requests: Seq<JsonView>,
    results: Seq<JsonView>,
    k: int,
)
    requires
        plan_start(reply, task) == Some(requests[0]),
        requests.len() == reply.get("mcp_plan"@)->0.array_at("calls"@)->0.len(),
        results.len() == requests.len(),
        forall|i: int| 0 <= i < results.len() ==> (#[trigger] results[i]).get("request"@) == Some(requests[i]),
        forall|i: int| 0 <= i < results.len() - 1 ==> plan_next(#[trigger] results[i]) == Some(requests[i + 1]),
        0 <= k < requests.len(),
    ensures
        call_payload(requests[k]) == call_payload(
            reply.get("mcp_plan"@)->0.array_at("calls"@)->0[k],
        ),
        requests[k].array_at("remaining_calls"@) matches Some(rest) && rest.len() == requests.len() - 1
            - k && forall|i: int|
            0 <= i < rest.len() ==> call_payload(
                reply.get("mcp_plan"@)->0.array_at("calls"@)->0[k + 1 + i],
            ) == Some(#[trigger] rest[i]),
        k == requests.len() - 1 ==> plan_next(results[k]) is None,
        k == requests.len() - 1 && exact_answer(task).len() > 0 ==> plan_answer(results[k]) == Some(
            exact_answer(task),
        ),
{
    let calls = reply.get("mcp_plan"@)->0.array_at("calls"@)->0;
    let p = payloads(calls)->0;
    let answer = exact_answer(task);
    plan_request_at(reply, task, requests, results, k);
    payloads_each(calls, k);
    payload_is_stable(calls[k], p.skip(k + 1), answer);
    plan_goes_on(results[k], calls[k], p.skip(k + 1), answer);
    request_keys_differ();
    let rest = p.skip(k + 1);
    assert(requests[k].array_at("remaining_calls"@) == Some(rest));
    assert forall|i: int| 0 <= i < rest.len() implies call_payload(calls[k + 1 + i]) == Some(
        #[trigger] rest[i],
    ) by {
        payloads_each(calls, k + 1 + i);
    }
}

proof fn plan_request_at(
    reply: JsonView,
    task: Seq<char>,
    requests: Seq<JsonView>,
    results: Seq<JsonView>,
    k: int,
)
    requires
        plan_start(reply, task) == Some(requests[0]),
        requests.len() == reply.get("mcp_plan"@)->0.array_at("calls"@)->0.len(),
        results.len() == requests.len(),
        forall|i: int| 0 <= i < results.len() ==> (#[trigger] results[i]).get("request"@) == Some(requests[i]),
        forall|i: int| 0 <= i < results.len() - 1 ==> plan_next(#[trigger] results[i]) == Some(requests[i + 1]),
        0 <= k < requests.len(),
    ensures
        ({
            let p = payloads(reply.get("mcp_plan"@)->0.array_at("calls"@)->0)->0;
            requests[k] == with_rest(p[k], p.skip(k + 1), exact_answer(task))
        }),
    decreases k,
{
    let calls = reply.get("mcp_plan"@)->0.array_at("calls"@)->0;
    let p = payloads(calls)->0;
    let answer = exact_answer(task);
    payloads_each(calls, k);
    if k > 0 {
        plan_request_at(reply, task, requests, results, k - 1);
        payloads_each(calls, k - 1);
        plan_goes_on(results[k - 1], calls[k - 1], p.skip(k), answer);
        payload_is_stable(calls[k], p.skip(k), answer);
        assert(p.skip(k)[0] == p[k]);
        assert(p.skip(k).skip(1) =~= p.skip(k + 1));
    }
}

} // verus!
