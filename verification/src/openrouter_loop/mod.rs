//! A loop adapter that asks a chat model what to do next.
//!
//! It makes no call itself: each model or tool call is a decision to invoke an
//! effect, and the settled outcomes of the effects come back in the next input.

use vstd::prelude::*;
use vstd::string::*;
use vstd::utf8::encode_utf8;

use crate::base64::{data_uri, decode_data_uri, text_uri, uri_text};
use crate::contract::{
    answer, answers, reject, rejects, ApprovalDraft, ApprovalView,
    CreateApprovalRequest, Decision, DecisionView, DraftView, LoopInput, LoopReply,
};
use crate::digest::{hex, hex_text, sha256, sha256_digest};
use crate::json::{item_views, parsed, printed, Json, JsonView};
use crate::openrouter_loop::events::{
    events_doc, feed_of, latest_effect, latest_mcp_request_hash, newest, newest_hash, op_begins,
    op_count, op_starts_with, op_total, settled, settled_effects,
};
use crate::openrouter_loop::plan::{
    asked_call, final_output_of, mcp_call_of, mcp_plan_of, next_call_of, plan_answer, plan_next,
    plan_start, strip_fences, unfenced, MAX_MCP_HOPS, MCP_CALL_OP,
};
use crate::openrouter_loop::prompt::{
    abridge, abridged, chat, chat_message, chat_request_with, follow_up, follow_up_content, message,
    summary,
};
use crate::text::{decimal, decimal_text, from_lossy, join, lossy_text, same_text, texts, trim, trimmed};

pub mod events;
pub mod laws;
pub mod plan;
pub mod prompt;
pub mod readings;

verus! {

/// The longest answer, in bytes, that a completed run carries.
pub const MAX_OUTPUT_BYTES: usize = 24576;

/// The operation of an effect that calls the chat model.
pub const MODEL_CHAT_OP: &'static str = "model.chat";

/// The principal on whose behalf the adapter asks for approval.
pub const DAEMON_PRINCIPAL: &'static str = "00000000-0000-7000-8000-0000000000dd";

/// The actor on whose behalf the adapter asks for approval.
pub const DAEMON_ACTOR: &'static str = "00000000-0000-7000-8000-0000000000ae";

/// What the model is told when it may not call another tool.
pub const BUDGET_NOTE: &'static str = "The MCP tool-call budget is exhausted. Do not request another tool. Return `complete` with the available result, or `fail`.";

/// What the model is told when it owes a plan.
pub const PLAN_REMINDER: &'static str = "That response did not provide the required tool plan. Reply now with exactly one `mcp_plan` JSON object containing every computer action in order.";

/// What the model is told before the count when it repeats a call for the first
/// time.
pub const REPEAT_LEAD: &'static str = "That repeats the most recently completed MCP call. ";

/// What the model is told after the count when it repeats a call for the first
/// time.
pub const REPEAT_REST: &'static str = " tool call has already finished. Choose \
                                             the next different action from the task, or return \
                                             `complete` if no action remains.";

/// What the model is told after the count when it repeats a call again.
pub const CLOSED_REST: &'static str = " computer tool calls have already finished, \
                                             and the latest request repeats the last completed call. \
                                             Tool use is now closed. Return `complete` with the final \
                                             result using the available evidence. If the task names \
                                             exact response text, use it verbatim.";

// ---------------------------------------------------------------------------
// Settings of a run
// ---------------------------------------------------------------------------

/// What a run's state asks for.
#[derive(Debug)]
pub struct Settings {
    pub task: String,
    pub model: String,
    pub base_url: Option<String>,
    pub api_key_env: Option<String>,
    pub tools_enabled: bool,
    pub tools_required: bool,
}

/// The value of [`Settings`].
#[verifier::ext_equal]
pub struct SettingsView {
    pub task: Seq<char>,
    pub model: Seq<char>,
    pub base_url: Option<Seq<char>>,
    pub api_key_env: Option<Seq<char>>,
    pub tools_enabled: bool,
    pub tools_required: bool,
}

/// The characters of an optional string.
pub open spec fn opt_text(o: Option<String>) -> Option<Seq<char>> {
    match o {
        Some(s) => Some(s@),
        None => None,
    }
}

/// The value of an optional document.
pub open spec fn opt_value(o: Option<Json>) -> Option<JsonView> {
    match o {
        Some(j) => Some(j@),
        None => None,
    }
}

impl View for Settings {
    type V = SettingsView;

    open spec fn view(&self) -> SettingsView {
        SettingsView {
            task: self.task@,
            model: self.model@,
            base_url: opt_text(self.base_url),
            api_key_env: opt_text(self.api_key_env),
            tools_enabled: self.tools_enabled,
            tools_required: self.tools_required,
        }
    }
}

/// The text of the member `key` of the envelope, unless it is empty.
pub open spec fn setting(envelope: Option<JsonView>, key: Seq<char>) -> Option<Seq<char>> {
    match envelope {
        Some(v) => match v.text_at(key) {
            Some(t) => if t.len() == 0 {
                None
            } else {
                Some(t)
            },
            None => None,
        },
        None => None,
    }
}

/// Whether the envelope turns tools on: its member "tools", or else "mcp", is
/// true or the text "true".
pub open spec fn asks_for_tools(envelope: Option<JsonView>) -> bool {
    match envelope {
        Some(v) => {
            let switch = if v.get("tools"@) is Some {
                v.get("tools"@)
            } else {
                v.get("mcp"@)
            };
            match switch {
                Some(t) => t.as_bool() == Some(true) || t.as_text() == Some("true"@),
                None => false,
            }
        },
        None => false,
    }
}

/// What a run's state asks for: `raw` is the state's text and `envelope` its
/// parsed value, if it is JSON.
pub open spec fn settings(
    raw: Seq<char>,
    envelope: Option<JsonView>,
    default_model: Seq<char>,
) -> SettingsView {
    SettingsView {
        task: match setting(envelope, "task"@) {
            Some(t) => t,
            None => raw,
        },
        model: match setting(envelope, "model"@) {
            Some(m) => m,
            None => default_model,
        },
        base_url: setting(envelope, "base_url"@),
        api_key_env: setting(envelope, "api_key_env"@),
        tools_enabled: asks_for_tools(envelope),
        tools_required: asks_for_tools(envelope) && (match envelope {
            Some(v) => v.text_at("tool_choice"@) == Some("required"@),
            None => false,
        }),
    }
}

fn setting_of(envelope: &Option<Json>, key: &str) -> (r: Option<String>)
    ensures
        opt_text(r) == setting(opt_value(*envelope), key@),
{
    match envelope {
        Some(v) => match v.text_at(key) {
            Some(t) => if t.unicode_len() == 0 {
                None
            } else {
                Some(t.to_owned())
            },
            None => None,
        },
        None => None,
    }
}

/// What a run's state asks for.
pub fn read_settings(raw: &str, envelope: &Option<Json>, default_model: &str) -> (r: Settings)
    ensures
        r@ == settings(raw@, opt_value(*envelope), default_model@),
{
    let task = match setting_of(envelope, "task") {
        Some(t) => t,
        None => raw.to_owned(),
    };
    let model = match setting_of(envelope, "model") {
        Some(m) => m,
        None => default_model.to_owned(),
    };
    let mut tools_enabled: bool = false;
    let mut tools_required: bool = false;
    if let Some(v) = envelope {
        let switch = match v.get("tools") {
            Some(t) => Some(t),
            None => v.get("mcp"),
        };
        if let Some(t) = switch {
            let on = match t.as_bool() {
                Some(b) => b,
                None => false,
            };
            let yes = match t.as_text() {
                Some(s) => same_text(s, "true"),
                None => false,
            };
            tools_enabled = on || yes;
        }
        if tools_enabled {
            tools_required = match v.text_at("tool_choice") {
                Some(s) => same_text(s, "required"),
                None => false,
            };
        }
    }
    Settings {
        task,
        model,
        base_url: setting_of(envelope, "base_url"),
        api_key_env: setting_of(envelope, "api_key_env"),
        tools_enabled,
        tools_required,
    }
}

// ---------------------------------------------------------------------------
// Steps
// ---------------------------------------------------------------------------

/// What the adapter does next, before it is put into bytes.
#[derive(Debug)]
pub enum Step {
    Invoke { operation: String, payload: Json },
    Complete { output_ref: String },
    Fail { reason_code: String },
    Wait { reason: String },
    Approve { operation: String, target: String },
}

/// The value of a [`Step`].
#[verifier::ext_equal]
pub enum StepView {
    Invoke { operation: Seq<char>, payload: JsonView },
    Complete { output_ref: Seq<char> },
    Fail { reason_code: Seq<char> },
    Wait { reason: Seq<char> },
    Approve { operation: Seq<char>, target: Seq<char> },
}

impl View for Step {
    type V = StepView;

    open spec fn view(&self) -> StepView {
        match self {
            Step::Invoke { operation, payload } => StepView::Invoke {
                operation: operation@,
                payload: payload@,
            },
            Step::Complete { output_ref } => StepView::Complete { output_ref: output_ref@ },
            Step::Fail { reason_code } => StepView::Fail { reason_code: reason_code@ },
            Step::Wait { reason } => StepView::Wait { reason: reason@ },
            Step::Approve { operation, target } => StepView::Approve {
                operation: operation@,
                target: target@,
            },
        }
    }
}

fn fail(reason_code: &str) -> (r: Step)
    ensures
        r@ == (StepView::Fail { reason_code: reason_code@ }),
{
    Step::Fail { reason_code: reason_code.to_owned() }
}

/// A request with the provider that the settings name.
pub open spec fn to_provider(request: JsonView, s: SettingsView) -> JsonView {
    let a = match s.base_url {
        Some(url) => request.with("base_url"@, JsonView::Text(url)),
        None => request,
    };
    match s.api_key_env {
        Some(key) => a.with("api_key_env"@, JsonView::Text(key)),
        None => a,
    }
}

/// The step that calls the chat model, the conversation going on with `extra`.
pub open spec fn ask_model(
    s: SettingsView,
    tools_enabled: bool,
    tools_required: bool,
    extra: Seq<JsonView>,
) -> StepView {
    StepView::Invoke {
        operation: MODEL_CHAT_OP@,
        payload: to_provider(chat(s.model, s.task, tools_enabled, tools_required, extra), s),
    }
}

/// The step that calls a tool.
pub open spec fn call_tool(payload: JsonView) -> StepView {
    StepView::Invoke { operation: MCP_CALL_OP@, payload }
}

fn ask(s: &Settings, tools_enabled: bool, tools_required: bool, extra: Vec<Json>) -> (r: Step)
    ensures
        r@ == ask_model(s@, tools_enabled, tools_required, item_views(extra@)),
{
    let mut request = chat_request_with(
        s.model.as_str(),
        s.task.as_str(),
        tools_enabled,
        tools_required,
        extra,
    );
    if let Some(url) = &s.base_url {
        request.set("base_url", Json::Text(url.clone()));
    }
    if let Some(key) = &s.api_key_env {
        request.set("api_key_env", Json::Text(key.clone()));
    }
    Step::Invoke { operation: MODEL_CHAT_OP.to_owned(), payload: request }
}

fn call(payload: Json) -> (r: Step)
    ensures
        r@ == call_tool(payload@),
{
    Step::Invoke { operation: MCP_CALL_OP.to_owned(), payload }
}

fn pair(a: Json, b: Json) -> (r: Vec<Json>)
    ensures
        item_views(r@) == seq![a@, b@],
{
    let mut out: Vec<Json> = Vec::new();
    out.push(a);
    out.push(b);
    assert(item_views(out@) =~= seq![a@, b@]);
    out
}

/// The first step of a run.
pub open spec fn first_step(s: SettingsView) -> StepView {
    ask_model(s, s.tools_enabled, s.tools_required, Seq::empty())
}

/// The first step of a run.
pub fn start(s: &Settings) -> (r: Step)
    ensures
        r@ == first_step(s@),
{
    let none: Vec<Json> = Vec::new();
    assert(item_views(none@) =~= Seq::empty());
    ask(s, s.tools_enabled, s.tools_required, none)
}

// ---------------------------------------------------------------------------
// After a tool call
// ---------------------------------------------------------------------------

/// The step that hands the model the note on a finished tool call. After the last
/// tool call that a run may make, the model is told to make no other.
pub open spec fn tell_model(s: SettingsView, note: Seq<char>, result: Option<JsonView>, hops: u32) -> StepView {
    let last = hops >= MAX_MCP_HOPS;
    let told = message("user"@, follow_up(note, result, hops));
    ask_model(
        s,
        s.tools_enabled && !last,
        false,
        if last {
            seq![told, message("user"@, JsonView::Text(BUDGET_NOTE@))]
        } else {
            seq![told]
        },
    )
}

/// The step after a tool call that settled in `state`. `result` is its parsed
/// result, `abridged` the text of the result without the data of its images, and
/// `hops` the number of tool calls that the run has made.
pub open spec fn after_tool(
    s: SettingsView,
    state: Seq<char>,
    error: Option<Seq<char>>,
    result: Option<JsonView>,
    abridged: Seq<char>,
    hops: u32,
) -> StepView {
    if state == "committed"@ {
        let next = match result {
            Some(v) => plan_next(v),
            None => None,
        };
        let ready = match result {
            Some(v) => plan_answer(v),
            None => None,
        };
        match next {
            Some(payload) => if hops >= MAX_MCP_HOPS {
                StepView::Fail { reason_code: "mcp_hop_limit"@ }
            } else {
                call_tool(payload)
            },
            None => match ready {
                Some(output) => StepView::Complete {
                    output_ref: text_uri(output, MAX_OUTPUT_BYTES as nat),
                },
                None => tell_model(
                    s,
                    "The MCP tool call succeeded with result:\n"@ + abridged,
                    result,
                    hops,
                ),
            },
        }
    } else if state == "failed"@ {
        tell_model(
            s,
            "The MCP tool call failed: "@ + (match error {
                Some(e) => e,
                None => "tool call failed"@,
            }),
            result,
            hops,
        )
    } else {
        StepView::Fail { reason_code: "mcp_effect_"@ + state }
    }
}

fn tell(s: &Settings, note: &str, result: &Option<Json>, hops: u32) -> (r: Step)
    ensures
        r@ == tell_model(s@, note@, opt_value(*result), hops),
{
    let last = hops >= MAX_MCP_HOPS;
    let told = chat_message("user", follow_up_content(note, result, hops));
    if last {
        let stop = chat_message("user", Json::text(BUDGET_NOTE));
        ask(s, s.tools_enabled && !last, false, pair(told, stop))
    } else {
        let ghost view = told@;
        let mut extra: Vec<Json> = Vec::new();
        extra.push(told);
        assert(item_views(extra@) =~= seq![view]);
        ask(s, s.tools_enabled && !last, false, extra)
    }
}

/// The step after a tool call.
pub fn step_after_tool(
    s: &Settings,
    state: &str,
    error: Option<&str>,
    result: &Option<Json>,
    abridged: &str,
    hops: u32,
) -> (r: Step)
    ensures
        r@ == after_tool(
            s@,
            state@,
            match error {
                Some(e) => Some(e@),
                None => None,
            },
            opt_value(*result),
            abridged@,
            hops,
        ),
{
    if same_text(state, "committed") {
        let mut next: Option<Json> = None;
        let mut ready: Option<String> = None;
        if let Some(v) = result {
            next = next_call_of(v);
            ready = final_output_of(v);
        }
        if let Some(payload) = next {
            if hops >= MAX_MCP_HOPS {
                return fail("mcp_hop_limit");
            }
            return call(payload);
        }
        if let Some(output) = ready {
            return Step::Complete { output_ref: data_uri(output.as_str(), MAX_OUTPUT_BYTES) };
        }
        let note = join("The MCP tool call succeeded with result:\n", abridged);
        tell(s, note.as_str(), result, hops)
    } else if same_text(state, "failed") {
        let reason = match error {
            Some(e) => e,
            None => "tool call failed",
        };
        let note = join("The MCP tool call failed: ", reason);
        tell(s, note.as_str(), result, hops)
    } else {
        Step::Fail { reason_code: join("mcp_effect_", state) }
    }
}

// ---------------------------------------------------------------------------
// After a model call
// ---------------------------------------------------------------------------

/// The text of the member `key`, or `default` without one.
pub open spec fn text_or(v: JsonView, key: Seq<char>, default: Seq<char>) -> Seq<char> {
    match v.text_at(key) {
        Some(t) => t,
        None => default,
    }
}

/// The step that a reply decides on: `text` is the reply within its fences and
/// `reply` its parsed value. A reply that is no JSON is the answer itself.
pub open spec fn reply_step(text: Seq<char>, reply: Option<JsonView>) -> StepView {
    match reply {
        None => StepView::Complete { output_ref: text_uri(text, MAX_OUTPUT_BYTES as nat) },
        Some(v) => match (v.get("complete"@), v.get("fail"@), v.get("wait"@), v.get("request_approval"@)) {
            (Some(c), _, _, _) => StepView::Complete {
                output_ref: text_uri(
                    text_or(c, "output"@, Seq::empty()),
                    MAX_OUTPUT_BYTES as nat,
                ),
            },
            (None, Some(f), _, _) => StepView::Fail {
                reason_code: text_or(f, "reason_code"@, "model_failed"@),
            },
            (None, None, Some(w), _) => StepView::Wait {
                reason: text_or(w, "reason"@, "model requested wait"@),
            },
            (None, None, None, Some(a)) => StepView::Approve {
                operation: text_or(a, "operation"@, "llm.requested_approval"@),
                target: text_or(a, "reason"@, Seq::empty()),
            },
            (None, None, None, None) => StepView::Fail {
                reason_code: "unrecognized_model_decision"@,
            },
        },
    }
}

fn text_at_or(v: &Json, key: &str, default: &str) -> (r: String)
    ensures
        r@ == text_or(v@, key@, default@),
{
    match v.text_at(key) {
        Some(t) => t.to_owned(),
        None => default.to_owned(),
    }
}

/// The step that a reply decides on.
pub fn step_of_reply(text: &str, reply: &Option<Json>) -> (r: Step)
    ensures
        r@ == reply_step(text@, opt_value(*reply)),
{
    proof {
        reveal_strlit("");
        assert(""@ =~= Seq::empty());
    }
    let v = match reply {
        Some(v) => v,
        None => return Step::Complete { output_ref: data_uri(text, MAX_OUTPUT_BYTES) },
    };
    if let Some(c) = v.get("complete") {
        let output = text_at_or(c, "output", "");
        return Step::Complete { output_ref: data_uri(output.as_str(), MAX_OUTPUT_BYTES) };
    }
    if let Some(f) = v.get("fail") {
        return Step::Fail { reason_code: text_at_or(f, "reason_code", "model_failed") };
    }
    if let Some(w) = v.get("wait") {
        return Step::Wait { reason: text_at_or(w, "reason", "model requested wait") };
    }
    if let Some(a) = v.get("request_approval") {
        return Step::Approve {
            operation: text_at_or(a, "operation", "llm.requested_approval"),
            target: text_at_or(a, "reason", ""),
        };
    }
    fail("unrecognized_model_decision")
}

/// `a` plus `b`, at most `u32::MAX`.
pub open spec fn plus(a: u32, b: u32) -> u32 {
    if a + b > u32::MAX {
        u32::MAX
    } else {
        (a + b) as u32
    }
}

/// The step where a reply repeats the newest completed tool call: the model is
/// asked again, once with tools after the first call, and then without.
pub open spec fn after_repeat(
    s: SettingsView,
    content: Seq<char>,
    hops: u32,
    model_hops: u32,
) -> StepView {
    if model_hops <= plus(hops, 2) {
        let keep_tools = model_hops <= plus(hops, 1) && hops == 1;
        let told = if keep_tools {
            REPEAT_LEAD@ + decimal(hops as nat) + REPEAT_REST@
        } else {
            decimal(hops as nat) + CLOSED_REST@
        };
        ask_model(
            s,
            keep_tools,
            false,
            seq![
                message("assistant"@, JsonView::Text(content)),
                message("user"@, JsonView::Text(told)),
            ],
        )
    } else {
        StepView::Fail { reason_code: "repeated_mcp_call"@ }
    }
}

/// The step after a reply with the text `content` and, within its fences, the
/// parsed value `reply`. `hops` and `model_hops` are the numbers of tool and model
/// calls of the run, `last_hash` the hash of the newest completed tool request and
/// `call_hash` that of the tool call that the reply asks for.
pub open spec fn after_reply(
    s: SettingsView,
    content: Seq<char>,
    reply: Option<JsonView>,
    hops: u32,
    model_hops: u32,
    last_hash: Option<Seq<char>>,
    call_hash: Seq<char>,
) -> StepView {
    let plan = match reply {
        Some(v) => plan_start(v, s.task),
        None => None,
    };
    let asked = match reply {
        Some(v) => asked_call(v),
        None => None,
    };
    if s.tools_required && hops == 0 {
        match plan {
            Some(payload) => call_tool(payload),
            None => if model_hops < 2 {
                ask_model(
                    s,
                    true,
                    true,
                    seq![
                        message("assistant"@, JsonView::Text(content)),
                        message("user"@, JsonView::Text(PLAN_REMINDER@)),
                    ],
                )
            } else {
                StepView::Fail { reason_code: "tool_plan_required"@ }
            },
        }
    } else if s.tools_enabled && asked is Some {
        if hops >= MAX_MCP_HOPS {
            StepView::Fail { reason_code: "mcp_hop_limit"@ }
        } else if last_hash == Some(call_hash) {
            after_repeat(s, content, hops, model_hops)
        } else {
            call_tool(asked->0)
        }
    } else {
        reply_step(unfenced(content), reply)
    }
}

fn step_after_repeat(s: &Settings, content: &str, hops: u32, model_hops: u32) -> (r: Step)
    ensures
        r@ == after_repeat(s@, content@, hops, model_hops),
{
    let first_limit: u32 = if hops == u32::MAX {
        hops
    } else {
        hops + 1
    };
    let second_limit: u32 = if first_limit == u32::MAX {
        first_limit
    } else {
        first_limit + 1
    };
    if model_hops > second_limit {
        return fail("repeated_mcp_call");
    }
    let keep_tools = model_hops <= first_limit && hops == 1;
    let count = decimal_text(hops as u64);
    let told = if keep_tools {
        join(join(REPEAT_LEAD, count.as_str()).as_str(), REPEAT_REST)
    } else {
        join(count.as_str(), CLOSED_REST)
    };
    let said = chat_message("assistant", Json::text(content));
    ask(s, keep_tools, false, pair(said, chat_message("user", Json::Text(told))))
}

/// The step after a reply.
pub fn step_after_reply(
    s: &Settings,
    content: &str,
    reply: &Option<Json>,
    hops: u32,
    model_hops: u32,
    last_hash: &Option<String>,
    call_hash: &str,
) -> (r: Step)
    ensures
        r@ == after_reply(
            s@,
            content@,
            opt_value(*reply),
            hops,
            model_hops,
            opt_text(*last_hash),
            call_hash@,
        ),
{
    let mut plan: Option<Json> = None;
    let mut asked: Option<Json> = None;
    if let Some(v) = reply {
        plan = mcp_plan_of(v, s.task.as_str());
        asked = mcp_call_of(v);
    }
    if s.tools_required && hops == 0 {
        if let Some(payload) = plan {
            return call(payload);
        }
        if model_hops < 2 {
            let said = chat_message("assistant", Json::text(content));
            return ask(s, true, true, pair(said, chat_message("user", Json::text(PLAN_REMINDER))));
        }
        return fail("tool_plan_required");
    }
    if s.tools_enabled {
        if let Some(payload) = asked {
            if hops >= MAX_MCP_HOPS {
                return fail("mcp_hop_limit");
            }
            let repeated = match last_hash {
                Some(h) => same_text(h.as_str(), call_hash),
                None => false,
            };
            if repeated {
                return step_after_repeat(s, content, hops, model_hops);
            }
            return call(payload);
        }
    }
    step_of_reply(strip_fences(content).as_str(), reply)
}

/// The step after a model call that did not commit.
pub open spec fn after_model_failure(state: Seq<char>, error: Option<Seq<char>>) -> StepView {
    if state == "failed"@ {
        StepView::Fail {
            reason_code: match error {
                Some(e) => if e.len() == 0 {
                    "model_effect_failed"@
                } else {
                    e
                },
                None => "model_effect_failed"@,
            },
        }
    } else {
        StepView::Fail { reason_code: "model_effect_"@ + state }
    }
}

/// The step after a model call that did not commit.
pub fn step_after_model_failure(state: &str, error: Option<&str>) -> (r: Step)
    ensures
        r@ == after_model_failure(
            state@,
            match error {
                Some(e) => Some(e@),
                None => None,
            },
        ),
{
    if same_text(state, "failed") {
        match error {
            Some(e) => if e.unicode_len() == 0 {
                fail("model_effect_failed")
            } else {
                fail(e)
            },
            None => fail("model_effect_failed"),
        }
    } else {
        Step::Fail { reason_code: join("model_effect_", state) }
    }
}

// ---------------------------------------------------------------------------
// A whole turn
// ---------------------------------------------------------------------------

/// The hash by which a tool request is recognised.
pub open spec fn hash_of(request: JsonView) -> Seq<char> {
    hex(sha256_digest(encode_utf8(printed(request))))
}

/// The hash by which a tool request is recognised.
pub fn request_hash(request: &Json) -> (r: String)
    ensures
        r@ == hash_of(request@),
{
    let bytes = request.to_bytes();
    hex_text(&sha256(bytes.as_slice()))
}

/// The text that the result of an effect carries.
pub open spec fn result_text(effect: JsonView) -> Option<Seq<char>> {
    match effect.text_at("result_ref"@) {
        Some(uri) => uri_text(uri),
        None => None,
    }
}

/// The step of a turn: it goes by the newest settled effect where that is a tool
/// call, else by the newest model call, and begins the run where there is none.
pub open spec fn turn(s: SettingsView, doc: JsonView) -> StepView {
    let effects = settled(doc);
    let hops = op_total(doc, "mcp."@);
    let model_hops = op_total(doc, MODEL_CHAT_OP@);
    if effects.len() > 0 && op_begins(effects.last(), "mcp."@) {
        let e = effects.last();
        let result = match result_text(e) {
            Some(t) => t,
            None => Seq::empty(),
        };
        after_tool(
            s,
            text_or(e, "state"@, Seq::empty()),
            e.text_at("error_code"@),
            parsed(result),
            summary(result),
            hops,
        )
    } else {
        match newest(effects, MODEL_CHAT_OP@) {
            None => first_step(s),
            Some(e) => if text_or(e, "state"@, Seq::empty()) != "committed"@ {
                after_model_failure(
                    text_or(e, "state"@, Seq::empty()),
                    e.text_at("error_code"@),
                )
            } else {
                match result_text(e) {
                    None => StepView::Fail { reason_code: "model_result_undecodable"@ },
                    Some(content) => {
                        let reply = parsed(unfenced(content));
                        let asked = match reply {
                            Some(v) => asked_call(v),
                            None => None,
                        };
                        after_reply(
                            s,
                            content,
                            reply,
                            hops,
                            model_hops,
                            newest_hash(doc),
                            match asked {
                                Some(q) => hash_of(q),
                                None => Seq::empty(),
                            },
                        )
                    },
                }
            },
        }
    }
}

fn result_of(effect: &Json) -> (r: Option<String>)
    ensures
        opt_text(r) == result_text(effect@),
{
    match effect.text_at("result_ref") {
        Some(uri) => decode_data_uri(uri),
        None => None,
    }
}

/// The step of a turn.
pub fn take_turn(s: &Settings, doc: &Json) -> (r: Step)
    ensures
        r@ == turn(s@, doc@),
{
    proof {
        reveal_strlit("");
        assert(""@ =~= Seq::empty());
    }
    let effects = settled_effects(doc);
    let hops: u32 = op_count(doc, "mcp.");
    let model_hops: u32 = op_count(doc, MODEL_CHAT_OP);
    let n: usize = effects.len();
    assert(item_views(effects@).len() == n);
    if n > 0 && op_starts_with(&effects[n - 1], "mcp.") {
        let e = &effects[n - 1];
        assert(settled(doc@).last() == e@);
        let state = text_at_or(e, "state", "");
        let result = match result_of(e) {
            Some(t) => t,
            None => String::new(),
        };
        let value = Json::from_text(result.as_str());
        let short = match &value {
            Some(v) => abridge(v).to_text(),
            None => result.clone(),
        };
        return step_after_tool(
            s,
            state.as_str(),
            e.text_at("error_code"),
            &value,
            short.as_str(),
            hops,
        );
    }
    let e = match latest_effect(&effects, MODEL_CHAT_OP) {
        Some(e) => e,
        None => return start(s),
    };
    let state = text_at_or(e, "state", "");
    if !same_text(state.as_str(), "committed") {
        return step_after_model_failure(state.as_str(), e.text_at("error_code"));
    }
    let content = match result_of(e) {
        Some(c) => c,
        None => return fail("model_result_undecodable"),
    };
    let reply = Json::from_text(strip_fences(content.as_str()).as_str());
    let mut call_hash = String::new();
    if let Some(v) = &reply {
        if let Some(asked) = mcp_call_of(v) {
            call_hash = request_hash(&asked);
        }
    }
    let last_hash = latest_mcp_request_hash(doc);
    step_after_reply(
        s,
        content.as_str(),
        &reply,
        hops,
        model_hops,
        &last_hash,
        call_hash.as_str(),
    )
}

/// A step as the decision of the run `run_id`, its payload in bytes.
pub open spec fn decision_of(step: StepView, run_id: Seq<char>) -> DecisionView {
    match step {
        StepView::Invoke { operation, payload } => DecisionView::InvokeEffect {
            operation,
            payload: encode_utf8(printed(payload)),
            effect_claim: Seq::empty(),
        },
        StepView::Complete { output_ref } => DecisionView::Complete { output_ref },
        StepView::Fail { reason_code } => DecisionView::Fail { reason_code },
        StepView::Wait { reason } => DecisionView::Wait { reason, timer_id: Seq::empty() },
        StepView::Approve { operation, target } => DecisionView::RequestApproval {
            approval_draft: DraftView::Request(
                ApprovalView {
                    request_id: Seq::empty(),
                    request_digest: Seq::empty(),
                    principal_id: DAEMON_PRINCIPAL@,
                    actor_id: DAEMON_ACTOR@,
                    run_id,
                    operation,
                    target_resource: target,
                    capability_ids: Seq::empty(),
                    extension_bundle_digest: Seq::empty(),
                    config_generation_digest: Seq::empty(),
                    expires_at_ms: 0,
                    nonce: Seq::empty(),
                },
            ),
        },
    }
}

/// A step as the decision of the run `run_id`, its payload in bytes.
pub fn encode_step(step: Step, run_id: &str) -> (r: Decision)
    ensures
        r@ == decision_of(step@, run_id@),
{
    match step {
        Step::Invoke { operation, payload } => {
            let none: Vec<u8> = Vec::new();
            Decision::InvokeEffect { operation, payload: payload.to_bytes(), effect_claim: none }
        },
        Step::Complete { output_ref } => Decision::Complete { output_ref },
        Step::Fail { reason_code } => Decision::Fail { reason_code },
        Step::Wait { reason } => Decision::Wait { reason, timer_id: String::new() },
        Step::Approve { operation, target } => {
            let none: Vec<String> = Vec::new();
            assert(texts(none@) =~= Seq::empty());
            Decision::RequestApproval {
                approval_draft: ApprovalDraft::Request(
                    CreateApprovalRequest {
                        request_id: String::new(),
                        request_digest: String::new(),
                        principal_id: DAEMON_PRINCIPAL.to_owned(),
                        actor_id: DAEMON_ACTOR.to_owned(),
                        run_id: run_id.to_owned(),
                        operation,
                        target_resource: target,
                        capability_ids: none,
                        extension_bundle_digest: String::new(),
                        config_generation_digest: String::new(),
                        expires_at_ms: 0,
                        nonce: String::new(),
                    },
                ),
            }
        },
    }
}

/// The decision on an input: its state is a task, or a JSON envelope with the
/// task and the run's settings, and its events are the feed of settled effects.
pub open spec fn decided(input: LoopInput, model: Seq<char>) -> DecisionView {
    let raw = lossy_text(input.state@);
    decision_of(
        turn(settings(raw, parsed(trimmed(raw)), model), feed_of(input.events@)),
        input.run_id@,
    )
}

/// The answer to one call; `input` is absent where the call's payload could not
/// be read.
pub fn decide(call_id: &str, input: Option<&LoopInput>, model: &str) -> (r: LoopReply)
    ensures
        match input {
            None => rejects(r, call_id@),
            Some(i) => {
                &&& r.call_id@ == call_id@
                &&& r.error_code@ == Seq::<char>::empty()
                &&& r.decision matches Some(d) && answers(d, *i, i.loop_epoch, decided(*i, model@))
            },
        },
{
    let i = match input {
        Some(i) => i,
        None => return reject(call_id),
    };
    let raw = from_lossy(i.state.as_slice());
    let envelope = Json::from_text(trim(raw.as_str()).as_str());
    let s = read_settings(raw.as_str(), &envelope, model);
    let doc = events_doc(i.events.as_slice());
    let step = take_turn(&s, &doc);
    answer(call_id, i, i.loop_epoch, encode_step(step, i.run_id.as_str()))
}

// ---------------------------------------------------------------------------
// What holds of every turn
// ---------------------------------------------------------------------------

/// Whether a step calls a tool.
pub open spec fn calls_tool(step: StepView) -> bool {
    step matches StepView::Invoke { operation, .. } && operation == MCP_CALL_OP@
}

proof fn model_call_is_no_tool_call()
    ensures
        MODEL_CHAT_OP@ != MCP_CALL_OP@,
{
    reveal_strlit("model.chat");
    reveal_strlit("mcp.call_tool");
    assert(MODEL_CHAT_OP@[1] == 'o');
    assert(MCP_CALL_OP@[1] == 'c');
}

/// Once a run has made as many tool calls as it may, no turn calls another one.
pub proof fn tool_calls_are_bounded(s: SettingsView, doc: JsonView)
    requires
        op_total(doc, "mcp."@) >= MAX_MCP_HOPS,
    ensures
        !calls_tool(turn(s, doc)),
{
    model_call_is_no_tool_call();
}

/// A reply leads to a tool call only in a run with tools, and never to the call
/// that the run has just completed, unless it is the first call of a plan.
pub proof fn tool_calls_are_asked_for(
    s: SettingsView,
    content: Seq<char>,
    reply: Option<JsonView>,
    hops: u32,
    model_hops: u32,
    last_hash: Option<Seq<char>>,
    call_hash: Seq<char>,
)
    requires
        calls_tool(after_reply(s, content, reply, hops, model_hops, last_hash, call_hash)),
    ensures
        s.tools_required || s.tools_enabled,
        hops < MAX_MCP_HOPS,
        s.tools_required && hops == 0 || last_hash != Some(call_hash),
{
    model_call_is_no_tool_call();
}

/// Of a run that must answer with a plan, the model is asked at most twice before
/// its first tool call: the step after a second reply without a plan fails.
pub proof fn a_plan_is_asked_for_twice_at_most(
    s: SettingsView,
    content: Seq<char>,
    reply: Option<JsonView>,
    model_hops: u32,
    last_hash: Option<Seq<char>>,
    call_hash: Seq<char>,
)
    requires
        s.tools_required,
        model_hops >= 2,
        reply matches Some(v) ==> plan_start(v, s.task) is None,
    ensures
        after_reply(s, content, reply, 0, model_hops, last_hash, call_hash) == (StepView::Fail {
            reason_code: "tool_plan_required"@,
        }),
{
}

} // verus!
