//! What the echo agent does with each message.

use vstd::prelude::*;

use crate::acp_loop::said;
use crate::echo_acp::{handled, prompt_text};
use crate::json::JsonView;
use crate::text::{decimal, holds};

verus! {

/// Whether `m` answers the message `id` with a result.
pub open spec fn answers(m: JsonView, id: JsonView) -> bool {
    &&& m.text_at("jsonrpc"@) == Some("2.0"@)
    &&& m.get("id"@) == Some(id)
    &&& m.get("result"@) is Some
    &&& m.get("error"@) is None
}

/// Whether `m` tells the session `session` the piece `text`.
pub open spec fn tells(m: JsonView, session: Seq<char>, text: Seq<char>) -> bool {
    &&& m.text_at("method"@) == Some("session/update"@)
    &&& m.get("id"@) is None
    &&& m.get("params"@) is Some
    &&& m.get("params"@)->0.text_at("sessionId"@) == Some(session)
    &&& said("session/update"@, m.get("params"@)->0) == text
}

/// Every new session has the next number, its name is answered, and it is the session from then on.
pub proof fn sessions_are_numbered(session: Seq<char>, n: u64, v: JsonView, id: JsonView)
    requires
        v.text_at("method"@) == Some("session/new"@),
        v.get("id"@) == Some(id),
        n < u64::MAX,
    ensures
        ({
            let (name, next, out) = handled(session, n, v);
            &&& next == n + 1
            &&& name == "sess-"@ + decimal((n + 1) as nat)
            &&& !out.waits && out.rest.len() == 0
            &&& out.first.len() == 1
            &&& answers(out.first[0], id)
            &&& out.first[0].get("result"@)->0.text_at("sessionId"@) == Some(name)
        }),
{
    reveal_strlit("initialize");
    reveal_strlit("session/new");
    reveal_strlit("session/prompt");
    assert("initialize"@.len() == 10 && "session/new"@.len() == 11 && "session/prompt"@.len() == 14);
    reveal_strlit("jsonrpc");
    reveal_strlit("id");
    reveal_strlit("result");
    reveal_strlit("error");
    assert("jsonrpc"@.len() == 7 && "id"@.len() == 2 && "result"@.len() == 6 && "error"@.len() == 5);
}

/// A prompt is echoed: the agent tells the session that was named a lead and the prompt's text, and
/// ends the turn. Where the text asks for permission, the agent first asks and waits, and tells of
/// it afterwards. The agent stays as it was.
pub proof fn prompts_are_echoed(session: Seq<char>, n: u64, v: JsonView, id: JsonView,
    params: JsonView, parts: Seq<JsonView>)
    requires
        v.text_at("method"@) == Some("session/prompt"@),
        v.get("id"@) == Some(id),
        v.get("params"@) == Some(params),
        params.array_at("prompt"@) == Some(parts),
    ensures
        ({
            let (name, next, out) = handled(session, n, v);
            let told = if params.text_at("sessionId"@) is Some {
                params.text_at("sessionId"@)->0
            } else {
                session
            };
            let text = prompt_text(parts);
            let asks = holds(text, "perm-required"@);
            &&& name == session && next == n
            &&& out.waits == asks
            &&& out.first.len() == (if asks {
                1nat
            } else {
                0
            })
            &&& asks ==> out.first[0].text_at("method"@) == Some("session/request_permission"@)
                && out.first[0].get("id"@) is Some && out.first[0].get("params"@) is Some
                && out.first[0].get("params"@)->0.text_at("sessionId"@) == Some(told)
                && out.first[0].get("params"@)->0.array_at("options"@) is Some
            &&& asks ==> ({
                let options = out.first[0].get("params"@)->0.array_at("options"@)->0;
                &&& options.len() == 2
                &&& options[0].text_at("optionId"@) == Some("allow-1"@)
                &&& options[0].text_at("kind"@) == Some("allow_once"@)
                &&& options[1].text_at("optionId"@) == Some("deny-1"@)
                &&& options[1].text_at("kind"@) == Some("reject_once"@)
            })
            &&& out.rest.len() == (if asks {
                4nat
            } else {
                3
            })
            &&& tells(out.rest[0], told, "acp-echo:"@)
            &&& tells(out.rest[1], told, text)
            &&& asks ==> tells(out.rest[2], told, "permission-was-requested"@)
            &&& answers(out.rest.last(), id)
            &&& out.rest.last().get("result"@)->0.text_at("stopReason"@) == Some("end_turn"@)
        }),
{
    reveal_strlit("initialize");
    reveal_strlit("session/new");
    reveal_strlit("session/prompt");
    assert("initialize"@.len() == 10 && "session/new"@.len() == 11 && "session/prompt"@.len() == 14);
    reveal_strlit("jsonrpc");
    reveal_strlit("id");
    reveal_strlit("result");
    reveal_strlit("error");
    assert("jsonrpc"@.len() == 7 && "id"@.len() == 2 && "result"@.len() == 6 && "error"@.len() == 5);
    reveal_strlit("jsonrpc");
    reveal_strlit("id");
    reveal_strlit("method");
    reveal_strlit("params");
    assert("jsonrpc"@.len() == 7 && "id"@.len() == 2 && "method"@.len() == 6 && "params"@.len() == 6);
    assert("method"@[0] != "params"@[0]);
    reveal_strlit("sessionId");
    reveal_strlit("update");
    reveal_strlit("options");
    assert("sessionId"@.len() == 9 && "update"@.len() == 6 && "options"@.len() == 7);
    reveal_strlit("sessionUpdate");
    reveal_strlit("content");
    assert("sessionUpdate"@.len() == 13 && "content"@.len() == 7);
    reveal_strlit("type");
    reveal_strlit("text");
    assert("type"@.len() == 4 && "text"@.len() == 4);
    assert("type"@[1] != "text"@[1]);
    reveal_strlit("optionId");
    reveal_strlit("name");
    reveal_strlit("kind");
    assert("optionId"@.len() == 8 && "name"@.len() == 4 && "kind"@.len() == 4);
    assert("name"@[0] != "kind"@[0]);
}

/// The text of a prompt is that of its text parts, in their order.
pub proof fn prompts_are_their_texts(parts: Seq<JsonView>, part: JsonView)
    ensures
        prompt_text(Seq::empty()).len() == 0,
        part.text_at("type"@) == Some("text"@) && part.text_at("text"@) is Some ==> prompt_text(
            parts.push(part),
        ) == prompt_text(parts) + part.text_at("text"@)->0,
        part.text_at("type"@) != Some("text"@) ==> prompt_text(parts.push(part)) == prompt_text(parts),
{
    assert(parts.push(part).drop_last() =~= parts);
}

/// The agent greets; it refuses an unknown request and passes over every other message.
pub proof fn other_messages_change_nothing(session: Seq<char>, n: u64, v: JsonView)
    requires
        v.text_at("method"@) != Some("session/new"@),
    ensures
        handled(session, n, v).0 == session,
        handled(session, n, v).1 == n,
        v.text_at("method"@) is None ==> handled(session, n, v).2.first.len() == 0 && handled(
            session,
            n,
            v,
        ).2.rest.len() == 0,
        v.text_at("method"@) == Some("initialize"@) && v.get("id"@) is Some ==> ({
            let out = handled(session, n, v).2;
            &&& out.first.len() == 1 && out.rest.len() == 0 && !out.waits
            &&& answers(out.first[0], v.get("id"@)->0)
            &&& out.first[0].get("result"@)->0.get("protocolVersion"@) == Some(JsonView::Uint(1))
        }),
        v.text_at("method"@) is Some && v.text_at("method"@) != Some("initialize"@) && v.text_at("method"@)
            != Some("session/prompt"@) && v.get("id"@) is Some ==> ({
            let out = handled(session, n, v).2;
            &&& out.first.len() == 1 && out.rest.len() == 0 && !out.waits
            &&& out.first[0].get("id"@) == v.get("id"@)
            &&& out.first[0].get("error"@) is Some
            &&& out.first[0].get("error"@)->0.get("code"@) == Some(JsonView::Int(-32601i64 as i64))
        }),
{
    reveal_strlit("initialize");
    reveal_strlit("session/new");
    reveal_strlit("session/prompt");
    assert("initialize"@.len() == 10 && "session/new"@.len() == 11 && "session/prompt"@.len() == 14);
    reveal_strlit("jsonrpc");
    reveal_strlit("id");
    reveal_strlit("result");
    reveal_strlit("error");
    assert("jsonrpc"@.len() == 7 && "id"@.len() == 2 && "result"@.len() == 6 && "error"@.len() == 5);
    reveal_strlit("code");
    reveal_strlit("message");
    assert("code"@.len() == 4 && "message"@.len() == 7);
    reveal_strlit("protocolVersion");
    reveal_strlit("agentCapabilities");
    reveal_strlit("authMethods");
    reveal_strlit("agentInfo");
    assert("protocolVersion"@.len() == 15 && "agentCapabilities"@.len() == 17
        && "authMethods"@.len() == 11 && "agentInfo"@.len() == 9);
}

} // verus!
