//! A small tool server that echoes text.

use vstd::prelude::*;
use vstd::string::*;

use crate::computer_mcp::{object_schema, of_type, text_item, tool, tool_result};
use crate::json::{items, members, parsed, same_opt_json, Json, JsonView};
use crate::rpc::{error_reply, response, response_message, Reply, ReplyView};
use crate::text::{same_text, to_uppercase, trim, trimmed, uppercase};

pub mod laws;

verus! {

/// The schema of an object with a text.
pub open spec fn text_schema() -> JsonView {
    object_schema(map!["text"@ => of_type("string"@)], seq![JsonView::Text("text"@)])
}

/// The tools of the server.
pub open spec fn tools() -> Seq<JsonView> {
    seq![
        tool("echo"@, "Echo the input text verbatim."@, text_schema()),
        tool("uppercase"@, "Uppercase the input text."@, text_schema()),
    ]
}

/// The answer to the request "initialize".
pub open spec fn hello() -> JsonView {
    JsonView::Object(
        map![
            "protocolVersion"@ => JsonView::Text("2025-03-26"@),
            "capabilities"@ => JsonView::Object(
                map![
                    "tools"@ => JsonView::Object(Map::empty()),
                    "resources"@ => JsonView::Object(Map::empty()),
                ],
            ),
            "serverInfo"@ => JsonView::Object(
                map![
                    "name"@ => JsonView::Text("echo-mcp"@),
                    "version"@ => JsonView::Text("0.1.0"@),
                ],
            ),
        ],
    )
}

/// The text argument of a tool call.
pub open spec fn argument(params: JsonView) -> Seq<char> {
    match params.get("arguments"@) {
        Some(a) => match a.text_at("text"@) {
            Some(t) => t,
            None => Seq::empty(),
        },
        None => Seq::empty(),
    }
}

/// The answer to a tool call; `upper` is the text argument in upper case.
pub open spec fn tool_reply(params: JsonView, upper: Seq<char>) -> ReplyView {
    let name = params.text_at("name"@);
    if name == Some("echo"@) {
        ReplyView::Result(tool_result(seq![text_item(argument(params))]))
    } else if name == Some("uppercase"@) {
        ReplyView::Result(tool_result(seq![text_item(upper)]))
    } else {
        ReplyView::Error { code: -32602, message: "unknown tool"@ }
    }
}

/// The answer to a request; `upper` is the text argument in upper case.
pub open spec fn reply(method: Seq<char>, params: JsonView, upper: Seq<char>) -> ReplyView {
    if method == "initialize"@ {
        ReplyView::Result(hello())
    } else if method == "ping"@ {
        ReplyView::Result(JsonView::Object(Map::empty()))
    } else if method == "tools/list"@ {
        ReplyView::Result(JsonView::Object(map!["tools"@ => JsonView::Array(tools())]))
    } else if method == "tools/call"@ {
        tool_reply(params, upper)
    } else if method == "resources/read"@ {
        ReplyView::Result(
            JsonView::Object(
                map![
                    "contents"@ => JsonView::Array(seq![
                        JsonView::Object(
                            map![
                                "uri"@ => match params.get("uri"@) {
                                    Some(u) => u,
                                    None => JsonView::Null,
                                },
                                "mimeType"@ => JsonView::Text("text/plain"@),
                                "text"@ => JsonView::Text("hello from echo-mcp"@),
                            ],
                        ),
                    ]),
                ],
            ),
        )
    } else {
        ReplyView::Error { code: -32601, message: "method not found"@ }
    }
}

fn argument_of(params: &Json) -> (r: String)
    ensures
        r@ == argument(params@),
{
    match params.get("arguments") {
        Some(a) => match a.text_at("text") {
            Some(t) => t.to_owned(),
            None => String::new(),
        },
        None => String::new(),
    }
}

fn schema() -> (r: Json)
    ensures
        r@ == text_schema(),
{
    let text = members().put_text("type", "string").object();
    members().put_text("type", "object").put("properties", members().put("text", text).object()).put(
        "required",
        items().push(Json::text("text")).array(),
    ).object()
}

fn tool_entry(name: &str, description: &str) -> (r: Json)
    ensures
        r@ == tool(name@, description@, text_schema()),
{
    members().put_text("name", name).put_text("description", description).put(
        "inputSchema",
        schema(),
    ).object()
}

fn echoed(text: &str) -> (r: Json)
    ensures
        r@ == tool_result(seq![text_item(text@)]),
{
    let item = members().put_text("type", "text").put_text("text", text).object();
    members().put("content", items().push(item).array()).put("isError", Json::Bool(false)).object()
}

/// The answer to a request; `upper` is the text argument in upper case.
pub fn reply_with(method: &str, params: &Json, upper: &str) -> (r: Reply)
    ensures
        r@ == reply(method@, params@, upper@),
{
    if same_text(method, "initialize") {
        let capabilities = members().put("tools", members().object()).put(
            "resources",
            members().object(),
        ).object();
        let info = members().put_text("name", "echo-mcp").put_text("version", "0.1.0").object();
        Reply::Result(
            members().put_text("protocolVersion", "2025-03-26").put(
                "capabilities",
                capabilities,
            ).put("serverInfo", info).object(),
        )
    } else if same_text(method, "ping") {
        Reply::Result(members().object())
    } else if same_text(method, "tools/list") {
        let list = items().push(tool_entry("echo", "Echo the input text verbatim.")).push(
            tool_entry("uppercase", "Uppercase the input text."),
        );
        assert(list@ =~= tools());
        Reply::Result(members().put("tools", list.array()).object())
    } else if same_text(method, "tools/call") {
        let (echo, raise) = match params.text_at("name") {
            Some(n) => (same_text(n, "echo"), same_text(n, "uppercase")),
            None => (false, false),
        };
        if echo {
            Reply::Result(echoed(argument_of(params).as_str()))
        } else if raise {
            Reply::Result(echoed(upper))
        } else {
            error_reply(-32602, "unknown tool")
        }
    } else if same_text(method, "resources/read") {
        let uri = match params.get("uri") {
            Some(u) => u.copy(),
            None => Json::Null,
        };
        let item = members().put("uri", uri).put_text("mimeType", "text/plain").put_text(
            "text",
            "hello from echo-mcp",
        ).object();
        Reply::Result(members().put("contents", items().push(item).array()).object())
    } else {
        error_reply(-32601, "method not found")
    }
}

/// The answer to a request.
pub fn handle(method: &str, params: &Json) -> (r: Reply)
    ensures
        r@ == reply(method@, params@, uppercase(argument(params@))),
{
    let upper = to_uppercase(argument_of(params).as_str());
    reply_with(method, params, upper.as_str())
}

/// The message that answers the message `v`. A message without a method or
/// without an id is not answered.
pub open spec fn answer_to(v: JsonView) -> Option<JsonView> {
    match (v.text_at("method"@), v.get("id"@)) {
        (Some(method), Some(id)) => {
            let params = match v.get("params"@) {
                Some(p) => p,
                None => JsonView::Null,
            };
            Some(response_message(id, reply(method, params, uppercase(argument(params)))))
        },
        _ => None,
    }
}

/// The message that answers the message `v`.
pub fn answer_message(v: &Json) -> (r: Option<Json>)
    ensures
        same_opt_json(r, answer_to(v@)),
{
    match (v.text_at("method"), v.get("id")) {
        (Some(method), Some(id)) => {
            let params = match v.get("params") {
                Some(p) => p.copy(),
                None => Json::Null,
            };
            Some(response(id.copy(), handle(method, &params)))
        },
        _ => None,
    }
}

/// The message that answers a line.
pub fn answer_line(line: &str) -> (r: Option<Json>)
    ensures
        same_opt_json(
            r,
            if trimmed(line@).len() == 0 {
                None
            } else {
                match parsed(trimmed(line@)) {
                    Some(v) => answer_to(v),
                    None => None,
                }
            },
        ),
{
    let text = trim(line);
    if text.as_str().unicode_len() == 0 {
        return None;
    }
    match Json::from_text(text.as_str()) {
        Some(v) => answer_message(&v),
        None => None,
    }
}

} // verus!
