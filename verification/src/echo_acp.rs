//! A small agent of the Agent Client Protocol that echoes its prompt.

use vstd::prelude::*;
use vstd::string::*;

use crate::json::{item_views, items, members, Items, Json, JsonView};
use crate::rpc::{error_reply, response, response_message, Reply, ReplyView};
use crate::text::{contains, decimal, decimal_text, holds, join, same_text};

pub mod laws;

verus! {

/// The agent: the number of sessions that it has opened, and the newest one.
#[derive(Debug)]
pub struct EchoAgent {
    pub session_id: String,
    pub next_sid: u64,
}

/// What the agent does with a message: it sends `first`, waits for an answer if it
/// has asked something, and then sends `rest`.
#[derive(Debug)]
pub struct Output {
    pub first: Vec<Json>,
    pub waits: bool,
    pub rest: Vec<Json>,
}

/// The value of an [`Output`].
#[verifier::ext_equal]
pub struct OutputView {
    pub first: Seq<JsonView>,
    pub waits: bool,
    pub rest: Seq<JsonView>,
}

impl View for Output {
    type V = OutputView;

    open spec fn view(&self) -> OutputView {
        OutputView {
            first: item_views(self.first@),
            waits: self.waits,
            rest: item_views(self.rest@),
        }
    }
}

/// The texts of a prompt, one after the other.
pub open spec fn prompt_text(parts: Seq<JsonView>) -> Seq<char>
    decreases parts.len(),
{
    if parts.len() == 0 {
        Seq::empty()
    } else {
        let rest = prompt_text(parts.drop_last());
        if parts.last().text_at("type"@) == Some("text"@) {
            match parts.last().text_at("text"@) {
                Some(t) => rest + t,
                None => rest,
            }
        } else {
            rest
        }
    }
}

/// The notification that carries a piece of the answer.
pub open spec fn update(session: Seq<char>, text: Seq<char>) -> JsonView {
    JsonView::Object(
        map![
            "jsonrpc"@ => JsonView::Text("2.0"@),
            "method"@ => JsonView::Text("session/update"@),
            "params"@ => JsonView::Object(
                map![
                    "sessionId"@ => JsonView::Text(session),
                    "update"@ => JsonView::Object(
                        map![
                            "sessionUpdate"@ => JsonView::Text("agent_message_chunk"@),
                            "content"@ => JsonView::Object(
                                map![
                                    "type"@ => JsonView::Text("text"@),
                                    "text"@ => JsonView::Text(text),
                                ],
                            ),
                        ],
                    ),
                ],
            ),
        ],
    )
}

/// An option of a question for permission.
pub open spec fn choice(id: Seq<char>, name: Seq<char>, kind: Seq<char>) -> JsonView {
    JsonView::Object(
        map![
            "optionId"@ => JsonView::Text(id),
            "name"@ => JsonView::Text(name),
            "kind"@ => JsonView::Text(kind),
        ],
    )
}

/// The question for permission.
pub open spec fn question(session: Seq<char>) -> JsonView {
    JsonView::Object(
        map![
            "jsonrpc"@ => JsonView::Text("2.0"@),
            "id"@ => JsonView::Uint(900),
            "method"@ => JsonView::Text("session/request_permission"@),
            "params"@ => JsonView::Object(
                map![
                    "sessionId"@ => JsonView::Text(session),
                    "options"@ => JsonView::Array(
                        Seq::empty().push(
                            choice("allow-1"@, "Allow once"@, "allow_once"@),
                        ).push(choice("deny-1"@, "Deny"@, "reject_once"@)),
                    ),
                ],
            ),
        ],
    )
}

/// The answer to the request "initialize".
pub open spec fn hello() -> JsonView {
    JsonView::Object(
        map![
            "protocolVersion"@ => JsonView::Uint(1),
            "agentCapabilities"@ => JsonView::Object(map!["loadSession"@ => JsonView::Bool(false)]),
            "authMethods"@ => JsonView::Array(Seq::empty()),
            "agentInfo"@ => JsonView::Object(
                map![
                    "name"@ => JsonView::Text("echo-acp"@),
                    "version"@ => JsonView::Text("0.1.0"@),
                ],
            ),
        ],
    )
}

/// An output of one message.
pub open spec fn sends(message: JsonView) -> OutputView {
    OutputView { first: Seq::empty().push(message), waits: false, rest: Seq::empty() }
}

/// What the agent answers a prompt with: the echo in two pieces, and where the prompt
/// asks for it, a question for permission first and the note of it behind the echo.
pub open spec fn prompted(id: JsonView, session: Seq<char>, text: Seq<char>) -> OutputView {
    let asks = holds(text, "perm-required"@);
    let echo = Seq::empty().push(update(session, "acp-echo:"@)).push(update(session, text));
    let said = if asks {
        echo.push(update(session, "permission-was-requested"@))
    } else {
        echo
    };
    let end = response_message(
        id,
        ReplyView::Result(JsonView::Object(map!["stopReason"@ => JsonView::Text("end_turn"@)])),
    );
    OutputView {
        first: if asks {
            Seq::empty().push(question(session))
        } else {
            Seq::empty()
        },
        waits: asks,
        rest: said.push(end),
    }
}

/// The agent after a message, and what it does with it.
pub open spec fn handled(session_id: Seq<char>, next_sid: u64, v: JsonView) -> (Seq<char>, u64, OutputView) {
    let nothing = OutputView { first: Seq::empty(), waits: false, rest: Seq::empty() };
    let id = match v.get("id"@) {
        Some(id) => id,
        None => JsonView::Null,
    };
    let params = match v.get("params"@) {
        Some(p) => p,
        None => JsonView::Null,
    };
    match v.text_at("method"@) {
        None => (session_id, next_sid, nothing),
        Some(method) => if method == "initialize"@ {
            (session_id, next_sid, sends(response_message(id, ReplyView::Result(hello()))))
        } else if method == "session/new"@ {
            let sid = (next_sid + 1) as u64;
            let name = "sess-"@ + decimal(sid as nat);
            (
                name,
                sid,
                sends(
                    response_message(
                        id,
                        ReplyView::Result(
                            JsonView::Object(map!["sessionId"@ => JsonView::Text(name)]),
                        ),
                    ),
                ),
            )
        } else if method == "session/prompt"@ {
            let session = match params.text_at("sessionId"@) {
                Some(s) => s,
                None => session_id,
            };
            let text = match params.array_at("prompt"@) {
                Some(parts) => prompt_text(parts),
                None => Seq::empty(),
            };
            (session_id, next_sid, prompted(id, session, text))
        } else if v.get("id"@) is Some {
            (
                session_id,
                next_sid,
                sends(
                    response_message(
                        id,
                        ReplyView::Error { code: -32601, message: "method not found"@ },
                    ),
                ),
            )
        } else {
            (session_id, next_sid, nothing)
        },
    }
}

fn text_of_prompt(parts: &Vec<Json>) -> (r: String)
    ensures
        r@ == prompt_text(item_views(parts@)),
{
    let ghost views = item_views(parts@);
    let mut out = String::new();
    let mut i: usize = 0;
    assert(views.take(0) =~= Seq::empty());
    while i < parts.len()
        invariant
            i <= parts.len(),
            views == item_views(parts@),
            out@ == prompt_text(views.take(i as int)),
        decreases parts.len() - i,
    {
        assert(views.take(i + 1).drop_last() =~= views.take(i as int));
        assert(views.take(i + 1).last() == parts@[i as int]@);
        if let Some(kind) = parts[i].text_at("type") {
            if same_text(kind, "text") {
                if let Some(t) = parts[i].text_at("text") {
                    out.append(t);
                }
            }
        }
        i += 1;
    }
    assert(views.take(parts.len() as int) =~= views);
    out
}

fn make_update(session: &str, text: &str) -> (r: Json)
    ensures
        r@ == update(session@, text@),
{
    let content = members().put_text("type", "text").put_text("text", text).object();
    let chunk = members().put_text("sessionUpdate", "agent_message_chunk").put(
        "content",
        content,
    ).object();
    let params = members().put_text("sessionId", session).put("update", chunk).object();
    members().put_text("jsonrpc", "2.0").put_text("method", "session/update").put(
        "params",
        params,
    ).object()
}

fn make_choice(id: &str, name: &str, kind: &str) -> (r: Json)
    ensures
        r@ == choice(id@, name@, kind@),
{
    members().put_text("optionId", id).put_text("name", name).put_text("kind", kind).object()
}

fn make_question(session: &str) -> (r: Json)
    ensures
        r@ == question(session@),
{
    let options = items().push(make_choice("allow-1", "Allow once", "allow_once")).push(
        make_choice("deny-1", "Deny", "reject_once"),
    ).array();
    let params = members().put_text("sessionId", session).put("options", options).object();
    members().put_text("jsonrpc", "2.0").put("id", Json::Uint(900)).put_text(
        "method",
        "session/request_permission",
    ).put("params", params).object()
}

fn output(first: Items, waits: bool, rest: Items) -> (r: Output)
    ensures
        r@ == (OutputView { first: first@, waits, rest: rest@ }),
{
    Output { first: first.list, waits, rest: rest.list }
}

fn answer_prompt(id: Json, session: &str, text: &str) -> (r: Output)
    ensures
        r@ == prompted(id@, session@, text@),
{
    let asks = contains(text, "perm-required");
    let mut said = items().push(make_update(session, "acp-echo:")).push(make_update(session, text));
    let mut first = items();
    if asks {
        said = said.push(make_update(session, "permission-was-requested"));
        first = first.push(make_question(session));
    }
    let end = response(
        id,
        Reply::Result(members().put_text("stopReason", "end_turn").object()),
    );
    output(first, asks, said.push(end))
}

impl EchoAgent {
    /// An agent without sessions.
    pub fn new() -> (r: Self)
        ensures
            r.session_id@ == Seq::<char>::empty(),
            r.next_sid == 0,
    {
        EchoAgent { session_id: String::new(), next_sid: 0 }
    }

    /// What the agent does with a message; a session needs a number that is left.
    pub fn handle(&mut self, v: &Json) -> (r: Output)
        requires
            v@.text_at("method"@) == Some("session/new"@) ==> old(self).next_sid < u64::MAX,
        ensures
            (final(self).session_id@, final(self).next_sid, r@) == handled(
                old(self).session_id@,
                old(self).next_sid,
                v@,
            ),
    {
        let method = match v.text_at("method") {
            Some(m) => m,
            None => return output(items(), false, items()),
        };
        let known = v.get("id").is_some();
        let id = match v.get("id") {
            Some(id) => id.copy(),
            None => Json::Null,
        };
        if same_text(method, "initialize") {
            let info = members().put_text("name", "echo-acp").put_text("version", "0.1.0").object();
            let hello = members().put("protocolVersion", Json::Uint(1)).put(
                "agentCapabilities",
                members().put("loadSession", Json::Bool(false)).object(),
            ).put("authMethods", items().array()).put("agentInfo", info).object();
            output(items().push(response(id, Reply::Result(hello))), false, items())
        } else if same_text(method, "session/new") {
            self.next_sid = self.next_sid + 1;
            self.session_id = join("sess-", decimal_text(self.next_sid).as_str());
            let opened = members().put_text("sessionId", self.session_id.as_str()).object();
            output(items().push(response(id, Reply::Result(opened))), false, items())
        } else if same_text(method, "session/prompt") {
            let null = Json::Null;
            let params = match v.get("params") {
                Some(p) => p,
                None => &null,
            };
            let session = match params.text_at("sessionId") {
                Some(s) => s.to_owned(),
                None => self.session_id.clone(),
            };
            let text = match params.array_at("prompt") {
                Some(parts) => text_of_prompt(parts),
                None => String::new(),
            };
            answer_prompt(id, session.as_str(), text.as_str())
        } else if known {
            output(
                items().push(response(id, error_reply(-32601, "method not found"))),
                false,
                items(),
            )
        } else {
            output(items(), false, items())
        }
    }
}

} // verus!
