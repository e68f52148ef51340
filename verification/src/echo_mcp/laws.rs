//! What the echo server answers.

use vstd::prelude::*;

use crate::computer_mcp::laws::{needs, takes};
use crate::echo_mcp::{answer_to, reply, tools};
use crate::json::JsonView;
use crate::rpc::ReplyView;
use crate::text::uppercase;

verus! {

/// Whether `r` is the result of a call that gives the one text `text`.
pub open spec fn gives(r: ReplyView, text: Seq<char>) -> bool {
    &&& r is Result
    &&& r->Result_0.get("isError"@) == Some(JsonView::Bool(false))
    &&& r->Result_0.array_at("content"@) is Some
    &&& r->Result_0.array_at("content"@)->0.len() == 1
    &&& r->Result_0.array_at("content"@)->0[0].text_at("type"@) == Some("text"@)
    &&& r->Result_0.array_at("content"@)->0[0].text_at("text"@) == Some(text)
}

/// The tool "echo" gives its text back as it is, "uppercase" in upper case, and no other tool is
/// known.
pub proof fn tools_give_their_text(params: JsonView, args: JsonView, text: Seq<char>, upper: Seq<char>)
    requires
        params.get("arguments"@) == Some(args),
        args.text_at("text"@) == Some(text),
    ensures
        params.text_at("name"@) == Some("echo"@) ==> gives(reply("tools/call"@, params, upper), text),
        params.text_at("name"@) == Some("uppercase"@) ==> gives(
            reply("tools/call"@, params, uppercase(text)),
            uppercase(text),
        ),
        params.text_at("name"@) != Some("echo"@) && params.text_at("name"@) != Some("uppercase"@)
            ==> reply("tools/call"@, params, upper) == (ReplyView::Error {
            code: -32602,
            message: "unknown tool"@,
        }),
{
    reveal_strlit("initialize");
    reveal_strlit("ping");
    reveal_strlit("tools/list");
    reveal_strlit("tools/call");
    reveal_strlit("resources/read");
    assert("initialize"@.len() == 10 && "ping"@.len() == 4 && "tools/list"@.len() == 10
        && "tools/call"@.len() == 10 && "resources/read"@.len() == 14);
    assert("initialize"@[0] != "tools/list"@[0]);
    assert("initialize"@[0] != "tools/call"@[0]);
    assert("tools/list"@[6] != "tools/call"@[6]);
    reveal_strlit("echo");
    reveal_strlit("uppercase");
    assert("echo"@.len() == 4 && "uppercase"@.len() == 9);
    reveal_strlit("content");
    reveal_strlit("isError");
    assert("content"@.len() == 7 && "isError"@.len() == 7);
    assert("content"@[0] != "isError"@[0]);
    reveal_strlit("type");
    reveal_strlit("text");
    assert("type"@.len() == 4 && "text"@.len() == 4);
    assert("type"@[1] != "text"@[1]);
}

/// The other requests are a greeting, a ping, the list of the two tools, and the reading of a
/// resource, which tells the URI that was asked for; the rest is refused.
pub proof fn requests_are_answered(params: JsonView, method: Seq<char>, upper: Seq<char>)
    ensures
        reply("ping"@, params, upper) == ReplyView::Result(JsonView::Object(Map::empty())),
        ({
            let r = reply("initialize"@, params, upper);
            &&& r is Result
            &&& r->Result_0.text_at("protocolVersion"@) == Some("2025-03-26"@)
            &&& r->Result_0.get("serverInfo"@) is Some
            &&& r->Result_0.get("serverInfo"@)->0.text_at("name"@) == Some("echo-mcp"@)
        }),
        ({
            let r = reply("tools/list"@, params, upper);
            &&& r is Result
            &&& r->Result_0.array_at("tools"@) == Some(tools())
            &&& tools().len() == 2
            &&& tools()[0].text_at("name"@) == Some("echo"@)
            &&& tools()[1].text_at("name"@) == Some("uppercase"@)
        }),
        ({
            let r = reply("resources/read"@, params, upper);
            &&& r is Result
            &&& r->Result_0.array_at("contents"@) is Some
            &&& r->Result_0.array_at("contents"@)->0.len() == 1
            &&& params.get("uri"@) is Some ==> r->Result_0.array_at("contents"@)->0[0].get("uri"@)
                == params.get("uri"@)
            &&& r->Result_0.array_at("contents"@)->0[0].text_at("mimeType"@) == Some("text/plain"@)
            &&& r->Result_0.array_at("contents"@)->0[0].text_at("text"@) == Some("hello from echo-mcp"@)
        }),
        method != "initialize"@ && method != "ping"@ && method != "tools/list"@ && method != "tools/call"@
            && method != "resources/read"@ ==> reply(method, params, upper) == (ReplyView::Error {
            code: -32601,
            message: "method not found"@,
        }),
{
    reveal_strlit("initialize");
    reveal_strlit("ping");
    reveal_strlit("tools/list");
    reveal_strlit("tools/call");
    reveal_strlit("resources/read");
    assert("initialize"@.len() == 10 && "ping"@.len() == 4 && "tools/list"@.len() == 10
        && "tools/call"@.len() == 10 && "resources/read"@.len() == 14);
    assert("initialize"@[0] != "tools/list"@[0]);
    assert("initialize"@[0] != "tools/call"@[0]);
    assert("tools/list"@[6] != "tools/call"@[6]);
    reveal_strlit("protocolVersion");
    reveal_strlit("capabilities");
    reveal_strlit("serverInfo");
    assert("protocolVersion"@.len() == 15 && "capabilities"@.len() == 12 && "serverInfo"@.len() == 10);
    reveal_strlit("name");
    reveal_strlit("version");
    assert("name"@.len() == 4 && "version"@.len() == 7);
    reveal_strlit("name");
    reveal_strlit("description");
    reveal_strlit("inputSchema");
    assert("name"@.len() == 4 && "description"@.len() == 11 && "inputSchema"@.len() == 11);
    assert("description"@[0] != "inputSchema"@[0]);
    reveal_strlit("uri");
    reveal_strlit("mimeType");
    reveal_strlit("text");
    assert("uri"@.len() == 3 && "mimeType"@.len() == 8 && "text"@.len() == 4);
}

/// A message is answered exactly where it has a method and an id, and the answer has that id.
pub proof fn answers_have_the_id(v: JsonView)
    ensures
        answer_to(v) is Some <==> v.text_at("method"@) is Some && v.get("id"@) is Some,
        answer_to(v) is Some ==> answer_to(v)->0.get("id"@) == v.get("id"@)
            && answer_to(v)->0.text_at("jsonrpc"@) == Some("2.0"@),
        ({
            let asked = v.get("params"@)->0;
            let args = asked.get("arguments"@)->0;
            let text = args.text_at("text"@)->0;
            v.text_at("method"@) == Some("tools/call"@) && v.get("id"@) is Some && v.get("params"@) is Some
                && asked.get("arguments"@) is Some && args.text_at("text"@) is Some && asked.text_at("name"@)
                == Some("uppercase"@) ==> answer_to(v) is Some && answer_to(v)->0.get("result"@) is Some
                && gives(ReplyView::Result(answer_to(v)->0.get("result"@)->0), uppercase(text))
        }),
{
    reveal_strlit("jsonrpc");
    reveal_strlit("id");
    reveal_strlit("result");
    reveal_strlit("error");
    assert("jsonrpc"@.len() == 7 && "id"@.len() == 2 && "result"@.len() == 6 && "error"@.len() == 5);
    let asked = v.get("params"@)->0;
    let args = asked.get("arguments"@)->0;
    let text = args.text_at("text"@)->0;
    if v.get("params"@) is Some && asked.get("arguments"@) is Some && args.text_at("text"@) is Some {
        tools_give_their_text(asked, args, text, uppercase(text));
    }
}

/// Both tools take a text and cannot do without it.
pub proof fn tools_take_a_text(i: int)
    requires
        0 <= i < 2,
    ensures
        takes(tools()[i], "text"@, "string"@),
        needs(tools()[i]) == Some(seq![JsonView::Text("text"@)]),
{
    reveal_strlit("name");
    reveal_strlit("description");
    reveal_strlit("inputSchema");
    assert("name"@.len() == 4 && "description"@.len() == 11 && "inputSchema"@.len() == 11);
    assert("description"@[0] != "inputSchema"@[0]);
    reveal_strlit("type");
    reveal_strlit("properties");
    reveal_strlit("required");
    assert("type"@.len() == 4 && "properties"@.len() == 10 && "required"@.len() == 8);
}

} // verus!
