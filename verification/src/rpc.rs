//! Messages of JSON-RPC, as clients and servers exchange them line by line.

use vstd::prelude::*;

use crate::json::{members, number, number_json, Json, JsonView};

verus! {

/// The answer to a request.
#[derive(Debug)]
pub enum Reply {
    Result(Json),
    Error { code: i64, message: String },
}

/// The value of a [`Reply`].
#[verifier::ext_equal]
pub enum ReplyView {
    Result(JsonView),
    Error { code: int, message: Seq<char> },
}

impl View for Reply {
    type V = ReplyView;

    open spec fn view(&self) -> ReplyView {
        match self {
            Reply::Result(j) => ReplyView::Result(j@),
            Reply::Error { code, message } => ReplyView::Error {
                code: *code as int,
                message: message@,
            },
        }
    }
}

/// An error reply.
pub fn error_reply(code: i64, message: &str) -> (r: Reply)
    ensures
        r@ == (ReplyView::Error { code: code as int, message: message@ }),
{
    Reply::Error { code, message: message.to_owned() }
}

/// The message that answers the request `id`.
pub open spec fn response_message(id: JsonView, reply: ReplyView) -> JsonView {
    match reply {
        ReplyView::Result(v) => JsonView::Object(
            map!["jsonrpc"@ => JsonView::Text("2.0"@), "id"@ => id, "result"@ => v],
        ),
        ReplyView::Error { code, message } => JsonView::Object(
            map![
                "jsonrpc"@ => JsonView::Text("2.0"@),
                "id"@ => id,
                "error"@ => JsonView::Object(
                    map!["code"@ => number(code), "message"@ => JsonView::Text(message)],
                ),
            ],
        ),
    }
}

/// The message that answers the request `id`.
pub fn response(id: Json, reply: Reply) -> (r: Json)
    ensures
        r@ == response_message(id@, reply@),
{
    match reply {
        Reply::Result(v) => members().put_text("jsonrpc", "2.0").put("id", id).put(
            "result",
            v,
        ).object(),
        Reply::Error { code, message } => members().put_text("jsonrpc", "2.0").put("id", id).put(
            "error",
            members().put("code", number_json(code)).put_text("message", message.as_str()).object(),
        ).object(),
    }
}

/// An answer has the id of its request, and either the result or an error with its code and its
/// message, and never both.
pub proof fn answers_are_one_of_two(id: JsonView, v: JsonView, code: i64, message: Seq<char>)
    requires
        code < 0,
    ensures
        ({
            let m = response_message(id, ReplyView::Result(v));
            &&& m.text_at("jsonrpc"@) == Some("2.0"@)
            &&& m.get("id"@) == Some(id)
            &&& m.get("result"@) == Some(v)
            &&& m.get("error"@) is None
        }),
        ({
            let m = response_message(id, ReplyView::Error { code: code as int, message });
            &&& m.text_at("jsonrpc"@) == Some("2.0"@)
            &&& m.get("id"@) == Some(id)
            &&& m.get("result"@) is None
            &&& m.get("error"@) is Some
            &&& m.get("error"@)->0.get("code"@) == Some(JsonView::Int(code))
            &&& m.get("error"@)->0.text_at("message"@) == Some(message)
        }),
{
    reveal_strlit("jsonrpc");
    reveal_strlit("id");
    reveal_strlit("result");
    reveal_strlit("error");
    reveal_strlit("code");
    reveal_strlit("message");
    assert("jsonrpc"@.len() == 7 && "id"@.len() == 2 && "result"@.len() == 6 && "error"@.len() == 5);
    assert("code"@.len() == 4 && "message"@.len() == 7);
}

} // verus!
