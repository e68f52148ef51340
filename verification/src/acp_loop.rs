//! A loop adapter that hands the task to an agent over the Agent Client Protocol
//! and completes the run with what the agent says.

use vstd::prelude::*;
use vstd::string::*;

use crate::base64::{data_uri, text_uri};
use crate::contract::{
    answer, answers, reject, rejects, Decision, DecisionView, LoopInput, LoopReply,
};
use crate::json::{item_views, items, members, parsed, Json, JsonView};
use crate::openrouter_effect::mcp::{text_items, text_items_of};
use crate::rpc::{error_reply, Reply, ReplyView};
use crate::text::{
    begins_with, first_chars, from_lossy, join, lossy_text, same_text, starts_with, texts, trim,
    trimmed, words, words_of,
};

pub mod laws;

verus! {

/// The longest answer, in bytes, that a completed run carries.
pub const MAX_OUTPUT_BYTES: usize = 24576;

/// The version of the protocol that is spoken with the agent.
pub const ACP_VERSION: u64 = 1;

// ---------------------------------------------------------------------------
// Arguments and task
// ---------------------------------------------------------------------------

/// The arguments that a setting holds: the texts of a JSON array, or else the
/// words of the setting; `value` is its parsed value, if it is JSON.
pub open spec fn arguments(raw: Seq<char>, value: Option<JsonView>) -> Seq<Seq<char>> {
    let text = trimmed(raw);
    if text.len() == 0 {
        Seq::empty()
    } else {
        match value {
            Some(JsonView::Array(a)) => text_items(a),
            _ => words_of(text),
        }
    }
}

/// The arguments that a setting holds.
pub fn parse_args(raw: &str) -> (r: Vec<String>)
    ensures
        texts(r@) == arguments(raw@, parsed(trimmed(raw@))),
{
    let text = trim(raw);
    if text.as_str().unicode_len() == 0 {
        let none: Vec<String> = Vec::new();
        assert(texts(none@) =~= Seq::empty());
        return none;
    }
    if let Some(v) = Json::from_text(text.as_str()) {
        if let Some(a) = v.as_array() {
            return text_items_of(a);
        }
    }
    words(text.as_str())
}

/// The task that a state holds: the member "task" of a JSON envelope, or else the
/// state's text; `value` is the state's parsed value, if it is JSON.
pub open spec fn task_in(raw: Seq<char>, value: Option<JsonView>) -> Seq<char> {
    match value {
        Some(v) => match v.text_at("task"@) {
            Some(t) => if t.len() == 0 {
                raw
            } else {
                t
            },
            None => raw,
        },
        None => raw,
    }
}

/// The task that a state holds.
pub fn task_of(raw: &str, value: &Option<Json>) -> (r: String)
    ensures
        r@ == task_in(
            raw@,
            match value {
                Some(v) => Some(v@),
                None => None,
            },
        ),
{
    if let Some(v) = value {
        if let Some(t) = v.text_at("task") {
            if t.unicode_len() > 0 {
                return t.to_owned();
            }
        }
    }
    raw.to_owned()
}

// ---------------------------------------------------------------------------
// The conversation with the agent
// ---------------------------------------------------------------------------

/// The parameters of the request "initialize".
pub open spec fn hello() -> JsonView {
    JsonView::Object(
        map![
            "protocolVersion"@ => JsonView::Uint(ACP_VERSION),
            "clientCapabilities"@ => JsonView::Object(
                map![
                    "fs"@ => JsonView::Object(
                        map![
                            "readTextFile"@ => JsonView::Bool(false),
                            "writeTextFile"@ => JsonView::Bool(false),
                        ],
                    ),
                    "terminal"@ => JsonView::Bool(false),
                ],
            ),
            "clientInfo"@ => JsonView::Object(
                map![
                    "name"@ => JsonView::Text("agentos-acp-loop"@),
                    "version"@ => JsonView::Text("0.1.0"@),
                ],
            ),
        ],
    )
}

/// The parameters of the request "initialize".
pub fn initialize_params() -> (r: Json)
    ensures
        r@ == hello(),
{
    let fs = members().put("readTextFile", Json::Bool(false)).put("writeTextFile", Json::Bool(false)).object();
    let client = members().put_text("name", "agentos-acp-loop").put_text("version", "0.1.0").object();
    members().put("protocolVersion", Json::Uint(ACP_VERSION)).put(
        "clientCapabilities",
        members().put("fs", fs).put("terminal", Json::Bool(false)).object(),
    ).put("clientInfo", client).object()
}

/// The parameters of the request "session/new".
pub open spec fn new_session(cwd: Seq<char>) -> JsonView {
    JsonView::Object(
        map!["cwd"@ => JsonView::Text(cwd), "mcpServers"@ => JsonView::Array(Seq::empty())],
    )
}

/// The parameters of the request "session/new".
pub fn session_params(cwd: &str) -> (r: Json)
    ensures
        r@ == new_session(cwd@),
{
    members().put_text("cwd", cwd).put("mcpServers", items().array()).object()
}

/// The session that the agent has opened.
pub open spec fn session_in(result: JsonView) -> Seq<char> {
    match result.text_at("sessionId"@) {
        Some(id) => id,
        None => Seq::empty(),
    }
}

/// The session that the agent has opened.
pub fn session_of(result: &Json) -> (r: String)
    ensures
        r@ == session_in(result@),
{
    match result.text_at("sessionId") {
        Some(id) => id.to_owned(),
        None => String::new(),
    }
}

/// The parameters of the request "session/prompt".
pub open spec fn prompt(session: Seq<char>, task: Seq<char>) -> JsonView {
    JsonView::Object(
        map![
            "sessionId"@ => JsonView::Text(session),
            "prompt"@ => JsonView::Array(seq![
                JsonView::Object(
                    map!["type"@ => JsonView::Text("text"@), "text"@ => JsonView::Text(task)],
                ),
            ]),
        ],
    )
}

/// The parameters of the request "session/prompt".
pub fn prompt_params(session: &str, task: &str) -> (r: Json)
    ensures
        r@ == prompt(session@, task@),
{
    let item = members().put_text("type", "text").put_text("text", task).object();
    members().put_text("sessionId", session).put("prompt", items().push(item).array()).object()
}

/// What a notification adds to the agent's answer.
pub open spec fn said(method: Seq<char>, params: JsonView) -> Seq<char> {
    if method != "session/update"@ {
        Seq::empty()
    } else {
        match params.get("update"@) {
            None => Seq::empty(),
            Some(update) => {
                let kind = update.text_at("sessionUpdate"@);
                if kind == Some("agent_message_chunk"@) || kind == Some("agent_message"@) {
                    match update.get("content"@) {
                        Some(content) => match content.text_at("text"@) {
                            Some(t) => t,
                            None => Seq::empty(),
                        },
                        None => Seq::empty(),
                    }
                } else {
                    Seq::empty()
                }
            },
        }
    }
}

/// Adds what a notification says to the agent's answer.
pub fn listen(text: &mut String, method: &str, params: &Json)
    ensures
        final(text)@ == old(text)@ + said(method@, params@),
{
    let ghost before = text@;
    if same_text(method, "session/update") {
        if let Some(update) = params.get("update") {
            let speaks = match update.text_at("sessionUpdate") {
                Some(kind) => same_text(kind, "agent_message_chunk") || same_text(
                    kind,
                    "agent_message",
                ),
                None => false,
            };
            if speaks {
                if let Some(content) = update.get("content") {
                    if let Some(t) = content.text_at("text") {
                        text.append(t);
                        return;
                    }
                }
            }
        }
    }
    assert(before + Seq::<char>::empty() =~= before);
}

/// Whether an option lets the agent act.
pub open spec fn allows(option: JsonView) -> bool {
    match option.text_at("kind"@) {
        Some(kind) => begins_with(kind, "allow"@),
        None => false,
    }
}

/// The first of `options` that lets the agent act.
pub open spec fn first_allowing(options: Seq<JsonView>) -> Option<JsonView>
    decreases options.len(),
{
    if options.len() == 0 {
        None
    } else if allows(options[0]) {
        Some(options[0])
    } else {
        first_allowing(options.skip(1))
    }
}

/// The id of the option that is chosen: the first that lets the agent act, or
/// else the first of all.
pub open spec fn chosen(params: JsonView) -> Seq<char> {
    match params.array_at("options"@) {
        Some(options) => {
            let option = match first_allowing(options) {
                Some(o) => Some(o),
                None => if options.len() > 0 {
                    Some(options[0])
                } else {
                    None
                },
            };
            match option {
                Some(o) => match o.text_at("optionId"@) {
                    Some(id) => id,
                    None => Seq::empty(),
                },
                None => Seq::empty(),
            }
        },
        None => Seq::empty(),
    }
}

/// The answer to the agent's question for permission.
pub open spec fn permission(params: JsonView, allow_tools: bool) -> JsonView {
    JsonView::Object(
        map![
            "outcome"@ => if allow_tools {
                JsonView::Object(
                    map![
                        "outcome"@ => JsonView::Text("selected"@),
                        "optionId"@ => JsonView::Text(chosen(params)),
                    ],
                )
            } else {
                JsonView::Object(map!["outcome"@ => JsonView::Text("cancelled"@)])
            },
        ],
    )
}

fn allowing(option: &Json) -> (r: bool)
    ensures
        r == allows(option@),
{
    match option.text_at("kind") {
        Some(kind) => starts_with(kind, "allow"),
        None => false,
    }
}

fn choose_option(params: &Json) -> (r: String)
    ensures
        r@ == chosen(params@),
{
    let options = match params.array_at("options") {
        Some(o) => o,
        None => return String::new(),
    };
    if options.len() == 0 {
        return String::new();
    }
    let ghost views = item_views(options@);
    let mut i: usize = 0;
    assert(views.skip(0) =~= views);
    while i < options.len() && !allowing(&options[i])
        invariant
            i <= options.len(),
            views == item_views(options@),
            first_allowing(views) == first_allowing(views.skip(i as int)),
        ensures
            i <= options.len(),
            i < options.len() ==> first_allowing(views) == Some(views[i as int]),
            i == options.len() ==> first_allowing(views) is None,
        decreases options.len() - i,
    {
        assert(views.skip(i as int)[0] == options@[i as int]@);
        assert(views.skip(i as int).skip(1) =~= views.skip(i + 1));
        i += 1;
        proof {
            if i < options.len() {
                assert(views.skip(i as int)[0] == options@[i as int]@);
            }
        }
    }
    let at: usize = if i < options.len() {
        i
    } else {
        0
    };
    assert(views[at as int] == options@[at as int]@);
    match options[at].text_at("optionId") {
        Some(id) => id.to_owned(),
        None => String::new(),
    }
}

/// The answer to the agent's question for permission.
pub fn permission_reply(params: &Json, allow_tools: bool) -> (r: Json)
    ensures
        r@ == permission(params@, allow_tools),
{
    if !allow_tools {
        return members().put("outcome", members().put_text("outcome", "cancelled").object()).object();
    }
    let option = choose_option(params);
    members().put(
        "outcome",
        members().put_text("outcome", "selected").put_text("optionId", option.as_str()).object(),
    ).object()
}

/// The answer to a request of the agent.
pub open spec fn answered(method: Seq<char>, params: JsonView, allow_tools: bool) -> ReplyView {
    if method == "session/request_permission"@ {
        ReplyView::Result(permission(params, allow_tools))
    } else {
        ReplyView::Error { code: -32601, message: "unsupported client capability"@ }
    }
}

/// The answer to a request of the agent.
pub fn reply_to(method: &str, params: &Json, allow_tools: bool) -> (r: Reply)
    ensures
        r@ == answered(method@, params@, allow_tools),
{
    if same_text(method, "session/request_permission") {
        Reply::Result(permission_reply(params, allow_tools))
    } else {
        error_reply(-32601, "unsupported client capability")
    }
}

// ---------------------------------------------------------------------------
// Decisions
// ---------------------------------------------------------------------------

/// The first eighty characters of a message.
pub open spec fn shortened(message: Seq<char>) -> Seq<char> {
    if message.len() <= 80 {
        message
    } else {
        message.take(80)
    }
}

/// The code of a failure: where it came about, and the beginning of its message.
pub fn failure_code(stage: &str, message: &str) -> (r: String)
    ensures
        r@ == stage@ + shortened(message@),
{
    join(stage, first_chars(message, 80).as_str())
}

/// What has come of a step of a turn.
#[derive(Debug)]
pub enum AcpEvent {
    /// The agent was launched.
    Spawned(Result<(), String>),
    /// The agent answered the greeting.
    Initialized(Result<(), String>),
    /// The agent answered the request for a session.
    Opened(Result<Json, String>),
    /// The agent answered the prompt.
    Prompted(Result<(), String>),
}

/// What a turn does next.
#[derive(Debug)]
pub enum AcpAction {
    /// The agent is asked.
    Request { method: String, params: Json },
    /// The turn has ended, with what the agent has said or with the code of a failure.
    Done(Result<String, String>),
}

/// The value of an [`AcpAction`].
pub enum AcpActionView {
    Request { method: Seq<char>, params: JsonView },
    Done(Result<Seq<char>, Seq<char>>),
}

impl View for AcpAction {
    type V = AcpActionView;

    open spec fn view(&self) -> AcpActionView {
        match self {
            AcpAction::Request { method, params } => AcpActionView::Request {
                method: method@,
                params: params@,
            },
            AcpAction::Done(Ok(text)) => AcpActionView::Done(Ok(text@)),
            AcpAction::Done(Err(code)) => AcpActionView::Done(Err(code@)),
        }
    }
}

/// What a turn does next: the agent is greeted, asked for a session in `cwd`, and
/// prompted with the task; `text` is what it has said so far.
pub open spec fn turn_step(event: AcpEvent, cwd: Seq<char>, task: Seq<char>, text: Seq<char>) -> AcpActionView {
    match event {
        AcpEvent::Spawned(Ok(())) => AcpActionView::Request {
            method: "initialize"@,
            params: hello(),
        },
        AcpEvent::Spawned(Err(e)) => AcpActionView::Done(Err("acp_spawn_"@ + shortened(e@))),
        AcpEvent::Initialized(Ok(())) => AcpActionView::Request {
            method: "session/new"@,
            params: new_session(cwd),
        },
        AcpEvent::Initialized(Err(e)) => AcpActionView::Done(
            Err("acp_initialize_"@ + shortened(e@)),
        ),
        AcpEvent::Opened(Ok(result)) => AcpActionView::Request {
            method: "session/prompt"@,
            params: prompt(session_in(result@), task),
        },
        AcpEvent::Opened(Err(e)) => AcpActionView::Done(Err("acp_session_"@ + shortened(e@))),
        AcpEvent::Prompted(Ok(())) => AcpActionView::Done(Ok(text)),
        AcpEvent::Prompted(Err(e)) => AcpActionView::Done(Err("acp_prompt_"@ + shortened(e@))),
    }
}

/// What a turn does next.
pub fn acp_turn(event: AcpEvent, cwd: &str, task: &str, text: &str) -> (r: AcpAction)
    ensures
        r@ == turn_step(event, cwd@, task@, text@),
{
    match event {
        AcpEvent::Spawned(Ok(())) => AcpAction::Request {
            method: "initialize".to_owned(),
            params: initialize_params(),
        },
        AcpEvent::Spawned(Err(e)) => AcpAction::Done(Err(failure_code("acp_spawn_", e.as_str()))),
        AcpEvent::Initialized(Ok(())) => AcpAction::Request {
            method: "session/new".to_owned(),
            params: session_params(cwd),
        },
        AcpEvent::Initialized(Err(e)) => AcpAction::Done(
            Err(failure_code("acp_initialize_", e.as_str())),
        ),
        AcpEvent::Opened(Ok(result)) => AcpAction::Request {
            method: "session/prompt".to_owned(),
            params: prompt_params(session_of(&result).as_str(), task),
        },
        AcpEvent::Opened(Err(e)) => AcpAction::Done(Err(failure_code("acp_session_", e.as_str()))),
        AcpEvent::Prompted(Ok(())) => AcpAction::Done(Ok(text.to_owned())),
        AcpEvent::Prompted(Err(e)) => AcpAction::Done(Err(failure_code("acp_prompt_", e.as_str()))),
    }
}

/// What the adapter does with a call.
#[derive(Debug)]
pub enum Turn {
    /// The call is answered.
    Answer(LoopReply),
    /// The task is to be handed to the agent.
    Prompt { task: String },
}

/// What the adapter does with a call: without a command for the agent the run
/// fails, and `input` is absent where the call's payload could not be read.
pub fn begin(call_id: &str, input: Option<&LoopInput>, command: &str) -> (r: Turn)
    ensures
        match input {
            None => r matches Turn::Answer(a) && rejects(a, call_id@),
            Some(i) => if command@.len() == 0 {
                r matches Turn::Answer(a) && a.call_id@ == call_id@ && a.error_code@ == Seq::<
                    char,
                >::empty() && a.decision is Some && answers(
                    a.decision->0,
                    *i,
                    i.loop_epoch,
                    DecisionView::Fail { reason_code: "missing_acp_command"@ },
                )
            } else {
                let raw = lossy_text(i.state@);
                r matches Turn::Prompt { task } && task@ == task_in(raw, parsed(trimmed(raw)))
            },
        },
{
    let i = match input {
        Some(i) => i,
        None => return Turn::Answer(reject(call_id)),
    };
    if command.unicode_len() == 0 {
        let decision = Decision::Fail { reason_code: "missing_acp_command".to_owned() };
        return Turn::Answer(answer(call_id, i, i.loop_epoch, decision));
    }
    let raw = from_lossy(i.state.as_slice());
    let value = Json::from_text(trim(raw.as_str()).as_str());
    Turn::Prompt { task: task_of(raw.as_str(), &value) }
}

/// The decision on what the agent has said, or on the code with which the turn
/// failed.
pub open spec fn decided(outcome: Result<String, String>) -> DecisionView {
    match outcome {
        Ok(text) => DecisionView::Complete {
            output_ref: text_uri(text@, MAX_OUTPUT_BYTES as nat),
        },
        Err(code) => DecisionView::Fail { reason_code: code@ },
    }
}

/// The answer to a call whose task the agent has worked on.
pub fn finish(call_id: &str, input: &LoopInput, outcome: Result<String, String>) -> (r: LoopReply)
    ensures
        r.call_id@ == call_id@,
        r.error_code@ == Seq::<char>::empty(),
        r.decision matches Some(d) && answers(d, *input, input.loop_epoch, decided(outcome)),
{
    let decision = match outcome {
        Ok(text) => Decision::Complete { output_ref: data_uri(text.as_str(), MAX_OUTPUT_BYTES) },
        Err(code) => Decision::Fail { reason_code: code },
    };
    answer(call_id, input, input.loop_epoch, decision)
}

/// Without leave for tools no permission is ever given.
pub proof fn nothing_is_permitted_without_leave(params: JsonView)
    ensures
        permission(params, false) == JsonView::Object(
            map!["outcome"@ => JsonView::Object(map!["outcome"@ => JsonView::Text("cancelled"@)])],
        ),
{
}

} // verus!
