//! What a request to call a model or a tool leads to, and what is kept of it.

use vstd::prelude::*;
use vstd::utf8::encode_utf8;

use crate::base64::{text_uri, uri_carries_its_text, uri_text};
use crate::base64::laws::texts_are_clipped_to_fit;
use crate::effects::{failed, responds, success, ExecutionRequest, ExecutionResponse, OpView};
use crate::json::{parsed, printed, Json, JsonView};
use crate::openrouter_effect::mcp::{
    answer_in, answer_in_lines, call_for, call_outcome, content_texts, failure_text, headers_of,
    hello_params, http_result, http_step, initialized, line_message, method_of, request_record,
    result_record, rpc_request, server_in, server_name, server_named, server_of, stdio_step,
    text_entries, text_items, url_refusal, CallActionView, HttpActionView, HttpEvent, ServerView,
    StdioEvent, ToolCallView,
};
use crate::openrouter_effect::{
    chat_outcome, configured_base, first_action, is_action, is_key_name, is_provider_endpoint,
    model_action, reply_text, Action, ActionView, LlmView, MAX_RESULT_BYTES,
};
use crate::text::{begins_with, decimal, finishes_with, joined, lines_of, trimmed, without_trailing};
use crate::url::{
    addresses_are_found, close_class, host_and_port, is_bracketed, is_free_of, names_are_found,
    path_class, port_class, user_class,
};

verus! {

// ---------------------------------------------------------------------------
// Model calls
// ---------------------------------------------------------------------------

/// Whether `body` is what is sent of `payload`: every member but the two that are meant for
/// the adapter, with its value, and the default model only where the payload names none.
pub open spec fn is_body_of(body: JsonView, payload: JsonView, default_model: Seq<char>) -> bool {
    &&& body is Object
    &&& body.get("base_url"@) is None
    &&& body.get("api_key_env"@) is None
    &&& body.get("model"@) == (if payload.get("model"@) is Some {
        payload.get("model"@)
    } else {
        Some(JsonView::Text(default_model))
    })
    &&& forall|key: Seq<char>|
        key != "base_url"@ && key != "api_key_env"@ && key != "model"@ ==> #[trigger] body.get(key)
            == payload.get(key)
}

proof fn member_names_differ()
    ensures
        "model"@ != "base_url"@ && "model"@ != "api_key_env"@ && "base_url"@ != "api_key_env"@,
        "messages"@ != "base_url"@ && "messages"@ != "api_key_env"@ && "messages"@ != "model"@,
{
    reveal_strlit("model");
    reveal_strlit("base_url");
    reveal_strlit("api_key_env");
    reveal_strlit("messages");
    assert("model"@.len() == 5 && "base_url"@.len() == 8 && "api_key_env"@.len() == 11
        && "messages"@.len() == 8);
    assert("base_url"@[0] != "messages"@[0]);
}

/// A model call sends what the request holds: with the key that it was given, to the completions
/// below its base URL, the body of the payload.
pub proof fn models_are_sent_the_payload(
    payload: JsonView,
    base_url: Seq<char>,
    api_key: Seq<char>,
    default_model: Seq<char>,
)
    ensures
        model_action(payload, base_url, api_key, default_model) matches Some(ActionView::CallModel {
            url,
            api_key: key,
            body,
        }) ==> url == base_url + "/chat/completions"@ && key == api_key && is_body_of(
            body,
            payload,
            default_model,
        ),
        api_key.len() > 0 && payload is Object && payload.array_at("messages"@) is Some ==> model_action(
            payload,
            base_url,
            api_key,
            default_model,
        ) matches Some(ActionView::CallModel { .. }),
        api_key.len() == 0 ==> model_action(payload, base_url, api_key, default_model) == Some(
            ActionView::Fail { code: "missing_openrouter_api_key"@ },
        ),
        api_key.len() > 0 && payload is Object && payload.array_at("messages"@) is None ==> model_action(
            payload,
            base_url,
            api_key,
            default_model,
        ) == Some(ActionView::Fail { code: "invalid_argument"@ }),
{
    member_names_differ();
}

/// A request that the store does not know goes by its payload alone. A tool operation calls the
/// tool with that payload. Any other one calls the model, at the base URL that it names without
/// trailing slashes or at the configured one, with the configured key, or first reads the key that
/// it names. It fails where its base URL is not the provider's, where the key's name is not
/// allowed, and where it is no JSON.
pub proof fn requests_go_by_their_payload(
    store: Map<Seq<char>, OpView>,
    req: ExecutionRequest,
    payload: JsonView,
    config: LlmView,
)
    requires
        !store.contains_key(req.operation_id@),
    ensures
        first_action(store, req, None, config) == Some(ActionView::Fail { code: "invalid_argument"@ }),
        ({
            let action = first_action(store, req, Some(payload), config);
            let tool = payload.text_at("op"@) matches Some(op) && begins_with(op, "mcp."@);
            let named = payload.text_at("base_url"@);
            let base = if let Some(url) = named {
                without_trailing(url, "/"@)
            } else {
                config.base_url
            };
            let refused = named is Some && !config.allow_any && !is_provider_endpoint(base);
            let key = payload.text_at("api_key_env"@);
            &&& tool ==> action == Some(ActionView::CallTool { payload })
            &&& !tool && refused ==> action == Some(
                ActionView::Fail { code: "base_url must be https on openrouter.ai"@ },
            )
            &&& !tool && !refused && key is Some && is_key_name(key->0) ==> action == Some(
                ActionView::ReadKey { name: key->0, base_url: base, payload },
            )
            &&& !tool && !refused && key is Some && !is_key_name(key->0) ==> action == Some(
                ActionView::Fail { code: "api_key_env_invalid"@ },
            )
            &&& !tool && !refused && key is None ==> action == model_action(
                payload,
                base,
                config.api_key,
                config.default_model,
            )
        }),
{
    reveal_strlit("base_url must be https on openrouter.ai");
    reveal_strlit("base_url ");
    reveal_strlit("must be https on openrouter.ai");
    assert("base_url must be https on openrouter.ai"@ =~= "base_url "@ + "must be https on openrouter.ai"@);
}

/// The name of a key is PROVIDER_KEY_ with at least one capital letter, digit or underscore
/// behind it, and nothing else.
pub proof fn key_names_are_plain(name: Seq<char>, rest: Seq<char>)
    requires
        name == "PROVIDER_KEY_"@ + rest,
    ensures
        is_key_name(name) <==> rest.len() > 0 && forall|i: int|
            0 <= i < rest.len() ==> ('A' <= #[trigger] rest[i] <= 'Z' || '0' <= rest[i] <= '9' || rest[i]
                == '_'),
        forall|other: Seq<char>| #[trigger] is_key_name(other) ==> begins_with(other, "PROVIDER_KEY_"@),
{
    let p = "PROVIDER_KEY_"@;
    reveal_strlit("PROVIDER_KEY_");
    assert(name.subrange(0, p.len() as int) =~= p);
    assert forall|i: int| 0 <= i < rest.len() implies rest[i] == name[p.len() + i] by {}
    if is_key_name(name) {
        assert forall|i: int| 0 <= i < rest.len() implies ('A' <= #[trigger] rest[i] <= 'Z' || '0'
            <= rest[i] <= '9' || rest[i] == '_') by {
            assert(crate::openrouter_effect::is_key_char(name[p.len() + i]));
        }
    }
    if rest.len() > 0 && forall|i: int|
        0 <= i < rest.len() ==> ('A' <= #[trigger] rest[i] <= 'Z' || '0' <= rest[i] <= '9' || rest[i]
            == '_') {
        assert forall|i: int| 0 <= i < name.len() implies crate::openrouter_effect::is_key_char(
            #[trigger] name[i],
        ) by {
            if i < p.len() {
                assert(name[i] == p[i]);
            } else {
                assert(name[i] == rest[i - p.len()]);
            }
        }
    }
}

/// Of the URLs over HTTPS exactly those are the provider's that go to openrouter.ai or to a name
/// below it, whatever user, port and path stand around the name; no other scheme is.
pub proof fn endpoints_go_by_the_name(
    user: Seq<char>,
    name: Seq<char>,
    port: Seq<char>,
    path: Seq<char>,
    url: Seq<char>,
)
    requires
        is_free_of(user, path_class()),
        user.len() > 0 ==> user.last() == '@',
        is_free_of(name, path_class()) && is_free_of(name, user_class()) && is_free_of(
            name,
            port_class(),
        ),
        !is_bracketed(name),
        is_free_of(port, path_class()) && is_free_of(port, user_class()),
        port.len() > 0 ==> port[0] == ':',
        path.len() > 0 ==> (path[0] == '/' || path[0] == '?' || path[0] == '#'),
    ensures
        is_provider_endpoint("https://"@ + user + name + port + path) <==> name == "openrouter.ai"@
            || finishes_with(name, ".openrouter.ai"@),
        !begins_with(url, "https://"@) ==> !is_provider_endpoint(url),
{
    reveal_strlit("openrouter.ai");
    reveal_strlit(".openrouter.ai");
    assert("openrouter.ai"@.len() == 13 && ".openrouter.ai"@.len() == 14);
    let rest = user + name + port + path;
    let whole = "https://"@ + user + name + port + path;
    assert(whole =~= "https://"@ + rest);
    assert(whole.subrange(0, "https://"@.len() as int) =~= "https://"@);
    assert(whole.skip("https://"@.len() as int) =~= rest);
    names_are_found(user, name, port, path);
    if is_bracketed(host_and_port(rest)) {
        crate::url::names_are_not_addresses(user, name, port, path);
    }
}

/// A call of the model gives the text of the first choice: its content, or the texts of the parts
/// of the content one after the other, or its reasoning; and it tells why there is none.
pub proof fn replies_give_their_text(reply: JsonView, message: JsonView)
    ensures
        chat_outcome(false, Some(reply)) == Err::<Seq<char>, Seq<char>>("provider_unreachable"@),
        chat_outcome(true, None) == Err::<Seq<char>, Seq<char>>("provider_bad_response"@),
        chat_outcome(true, Some(reply)) == reply_text(reply),
        reply.array_at("choices"@) is Some && reply.array_at("choices"@)->0.len() > 0 && reply.array_at(
            "choices"@,
        )->0[0].get("message"@) == Some(message) ==> ({
            let parts = joined(
                content_texts(
                    if let Some(c) = message.array_at("content"@) { c } else { Seq::empty() },
                ),
                Seq::empty(),
            );
            let thought = message.text_at("reasoning"@);
            &&& message.text_at("content"@) is Some ==> reply_text(reply) == Ok::<Seq<char>, Seq<char>>(
                message.text_at("content"@)->0,
            )
            &&& message.text_at("content"@) is None && parts.len() > 0 ==> reply_text(reply) == Ok::<
                Seq<char>,
                Seq<char>,
            >(parts)
            &&& message.text_at("content"@) is None && parts.len() == 0 && thought is Some && thought->0.len()
                > 0 ==> reply_text(reply) == Ok::<Seq<char>, Seq<char>>(thought->0)
            &&& message.text_at("content"@) is None && parts.len() == 0 && (thought is None
                || thought->0.len() == 0) ==> reply_text(reply) == Err::<Seq<char>, Seq<char>>(
                "provider_bad_response"@,
            )
        }),
        reply.array_at("choices"@) is None || reply.array_at("choices"@)->0.len() == 0 ==> reply_text(reply)
            == Err::<Seq<char>, Seq<char>>("provider_bad_response"@),
{
    assert(joined(content_texts(Seq::empty()), Seq::empty()).len() == 0);
}

/// The texts of content items are those of its items, in their order.
pub proof fn texts_are_those_of_the_items(content: Seq<JsonView>, item: JsonView)
    ensures
        content_texts(Seq::empty()).len() == 0,
        content_texts(content.push(item)) == (if item.text_at("text"@) is Some {
            content_texts(content).push(item.text_at("text"@)->0)
        } else {
            content_texts(content)
        }),
        text_items(Seq::empty()).len() == 0,
        text_items(content.push(item)) == (if item is Text {
            text_items(content).push(item->Text_0)
        } else {
            text_items(content)
        }),
{
    assert(content.push(item).drop_last() =~= content);
}

/// What is kept of a call up to two megabytes is its whole text, and an answer says so.
pub proof fn results_are_kept_whole(
    text: Seq<char>,
    r: ExecutionResponse,
    req: ExecutionRequest,
)
    requires
        encode_utf8(text).len() <= 2097152,
        responds(r, req, success(text_uri(text, MAX_RESULT_BYTES as nat))),
    ensures
        uri_text(r.result_ref@) == Some(text),
        r.status@ == "succeeded"@,
        r.error_code@.len() == 0,
        r.effect_id@ == req.effect_id@,
        r.provider_operation_ref@ == req.operation_id@,
{
    uri_carries_its_text(text, MAX_RESULT_BYTES as nat);
}

/// An answer to a request that failed tells the code, and no result.
pub proof fn failures_tell_their_code(r: ExecutionResponse, req: ExecutionRequest, code: Seq<char>)
    requires
        responds(r, req, failed(code)),
    ensures
        r.status@ == "failed"@,
        r.error_code@ == code,
        r.result_ref@.len() == 0,
        r.effect_id@ == req.effect_id@,
        r.provider_operation_ref@ == req.operation_id@,
{
}

// ---------------------------------------------------------------------------
// Tool servers
// ---------------------------------------------------------------------------

/// A payload calls the tool that it names with its own arguments, lists the tools, or reads the
/// resource that it names, of the server that it names; and it is refused where a name is missing
/// or the operation is another one.
pub proof fn calls_are_those_of_the_payload(payload: JsonView, server: ServerView, op: Seq<char>)
    requires
        payload.text_at("op"@) == Some(op),
    ensures
        op == "mcp.call_tool"@ ==> ({
            let tool = payload.text_at("tool"@);
            &&& tool is None ==> method_of(payload) == Err::<(Seq<char>, JsonView), Seq<char>>(
                "missing `tool`"@,
            )
            &&& tool is Some ==> method_of(payload) is Ok && ({
                let (method, params) = method_of(payload)->Ok_0;
                &&& method == "tools/call"@
                &&& params.text_at("name"@) == tool
                &&& params.get("arguments"@) == (if payload.get("arguments"@) is Some {
                    payload.get("arguments"@)
                } else {
                    Some(JsonView::Object(Map::empty()))
                })
                &&& params->Object_0.dom() == set!["name"@, "arguments"@]
            })
        }),
        op == "mcp.list_tools"@ ==> method_of(payload) == Ok::<(Seq<char>, JsonView), Seq<char>>(
            ("tools/list"@, JsonView::Object(Map::empty())),
        ),
        op == "mcp.read_resource"@ ==> ({
            let uri = payload.text_at("uri"@);
            &&& uri is None ==> method_of(payload) == Err::<(Seq<char>, JsonView), Seq<char>>(
                "missing `uri`"@,
            )
            &&& uri is Some ==> method_of(payload) is Ok && method_of(payload)->Ok_0.0 == "resources/read"@
                && method_of(payload)->Ok_0.1.text_at("uri"@) == uri
        }),
        op != "mcp.call_tool"@ && op != "mcp.list_tools"@ && op != "mcp.read_resource"@ ==> method_of(
            payload,
        ) == Err::<(Seq<char>, JsonView), Seq<char>>("unknown mcp op "@ + op),
        payload.text_at("server"@) is None ==> call_for(payload, Ok(server)) == Err::<
            ToolCallView,
            Seq<char>,
        >("missing `server`"@),
        payload.text_at("server"@) is Some && method_of(payload) is Ok ==> call_for(payload, Ok(server))
            == Ok::<ToolCallView, Seq<char>>(
            ToolCallView {
                server,
                method: method_of(payload)->Ok_0.0,
                params: method_of(payload)->Ok_0.1,
            },
        ),
{
    reveal_strlit("mcp.call_tool");
    reveal_strlit("mcp.list_tools");
    reveal_strlit("mcp.read_resource");
    assert("mcp.call_tool"@.len() == 13 && "mcp.list_tools"@.len() == 14 && "mcp.read_resource"@.len() == 17);
    reveal_strlit("name");
    reveal_strlit("arguments");
    assert("name"@.len() == 4 && "arguments"@.len() == 9);
    if op == "mcp.call_tool"@ && payload.text_at("tool"@) is Some {
        assert(method_of(payload)->Ok_0.1->Object_0.dom() =~= set!["name"@, "arguments"@]);
    }
}

/// A server is the one that the map describes under its name: one at a URL that is allowed, or a
/// program with its arguments, variables and directory.
pub proof fn servers_are_those_of_the_map(servers: JsonView, name: Seq<char>, spec: JsonView, allow_any: bool)
    requires
        servers.get(name) == Some(spec),
    ensures
        ({
            let found = server_named(servers, name, allow_any);
            let url = spec.text_at("url"@);
            let command = spec.text_at("command"@);
            &&& url is Some && url_refusal(url->0, allow_any) is Some ==> found == Err::<
                ServerView,
                Seq<char>,
            >(url_refusal(url->0, allow_any)->0)
            &&& url is Some && url_refusal(url->0, allow_any) is None ==> found is Ok
                && found->Ok_0 is Http && found->Ok_0->url == url->0
            &&& url is None && command is Some ==> found is Ok && found->Ok_0 is Stdio
                && found->Ok_0->command == command->0 && found->Ok_0->cwd == spec.text_at("cwd"@)
                && found->Ok_0->args == text_items(
                if let Some(a) = spec.array_at("args"@) { a } else { Seq::empty() },
            )
            &&& url is None && command is None ==> found == Err::<ServerView, Seq<char>>(
                "server spec needs `command` or `url`"@,
            )
        }),
{
    assert(text_items(Seq::empty()) =~= Seq::empty());
}

proof fn entries_of(s: Seq<(Seq<char>, JsonView)>, key: Seq<char>, value: Seq<char>)
    ensures
        text_entries(s).contains((key, value)) <==> exists|i: int|
            0 <= i < s.len() && #[trigger] s[i] == (key, JsonView::Text(value)),
    decreases s.len(),
{
    if s.len() > 0 {
        let front = s.drop_last();
        entries_of(front, key, value);
        let some = text_entries(front);
        let all = text_entries(s);
        if all.contains((key, value)) {
            let i = choose|i: int| 0 <= i < all.len() && all[i] == (key, value);
            if i < some.len() {
                assert(some[i] == all[i]);
                assert(some.contains((key, value)));
                let n = choose|n: int| 0 <= n < front.len()
                    && #[trigger] front[n] == (key, JsonView::Text(value));
                assert(s[n] == front[n]);
            } else {
                assert(s[s.len() - 1] == (key, JsonView::Text(value)));
            }
        }
        if exists|i: int| 0 <= i < s.len() && #[trigger] s[i] == (key, JsonView::Text(value)) {
            let i = choose|i: int| 0 <= i < s.len() && #[trigger] s[i] == (key, JsonView::Text(value));
            if i < front.len() {
                assert(front[i] == s[i]);
                let n = choose|n: int| 0 <= n < some.len() && some[n] == (key, value);
                assert(all[n] == some[n]);
            } else {
                assert(all[all.len() - 1] == (key, value));
            }
        }
    }
}

/// The headers of a server, and the variables of a program, are exactly the members of the map's
/// object whose values are texts.
pub proof fn pairs_are_those_of_the_map(
    spec: JsonView,
    member: Seq<char>,
    pairs: Map<Seq<char>, JsonView>,
    key: Seq<char>,
    value: Seq<char>,
)
    requires
        spec.get(member) == Some(JsonView::Object(pairs)),
        exists|s: Seq<(Seq<char>, JsonView)>| crate::ordered::lists(s, pairs),
    ensures
        crate::openrouter_effect::mcp::text_members(spec, member).contains((key, value))
            <==> pairs.contains_key(key) && pairs[key] == JsonView::Text(value),
{
    let s = crate::ordered::in_order(pairs);
    assert(crate::ordered::lists(s, pairs));
    entries_of(s, key, value);
    if pairs.contains_key(key) && pairs[key] == JsonView::Text(value) {
        let i = choose|i: int| 0 <= i < s.len() && #[trigger] s[i].0 == key;
        assert(s[i] == (key, JsonView::Text(value)));
    }
    if text_entries(s).contains((key, value)) {
        let i = choose|i: int| 0 <= i < s.len() && #[trigger] s[i] == (key, JsonView::Text(value));
        assert(pairs.contains_key(s[i].0));
    }
}

/// A URL over HTTPS is allowed wherever it goes. One over plain HTTP is allowed exactly where it
/// goes to this machine: to localhost, to an address that begins with 127, or to ::1 in brackets.
/// No other scheme is allowed, unless everything is.
pub proof fn plain_http_stays_at_home(
    user: Seq<char>,
    name: Seq<char>,
    port: Seq<char>,
    path: Seq<char>,
    url: Seq<char>,
)
    requires
        is_free_of(user, path_class()),
        user.len() > 0 ==> user.last() == '@',
        is_free_of(name, path_class()) && is_free_of(name, user_class()) && is_free_of(
            name,
            close_class(),
        ),
        is_free_of(port, path_class()) && is_free_of(port, user_class()),
        port.len() > 0 ==> port[0] == ':',
        path.len() > 0 ==> (path[0] == '/' || path[0] == '?' || path[0] == '#'),
    ensures
        url_refusal(url, true) is None,
        begins_with(url, "https://"@) ==> url_refusal(url, false) is None,
        !begins_with(url, "https://"@) && !begins_with(url, "http://"@) ==> url_refusal(url, false)
            == Some("mcp server url must be http(s)"@),
        is_free_of(name, port_class()) && !is_bracketed(name) ==> (url_refusal(
            "http://"@ + user + name + port + path,
            false,
        ) is None <==> name == "localhost"@ || crate::openrouter_effect::mcp::is_loopback_v4(name)),
        url_refusal("http://"@ + user + seq!['['] + "::1"@ + seq![']'] + port + path, false) is None,
{
    reveal_strlit("https://");
    reveal_strlit("http://");
    assert("https://"@.len() == 8 && "http://"@.len() == 7);
    reveal_strlit("localhost");
    reveal_strlit("::1");
    assert("localhost"@.len() == 9 && "::1"@.len() == 3);
    let rest = user + name + port + path;
    let whole = "http://"@ + user + name + port + path;
    assert(whole =~= "http://"@ + rest);
    assert(whole.subrange(0, 7) =~= "http://"@);
    assert(whole.skip(7) =~= rest);
    assert(whole[4] == "http://"@[4]);
    if begins_with(whole, "https://"@) {
        assert(whole.subrange(0, 8)[4] == "https://"@[4]);
    }
    if is_free_of(name, port_class()) && !is_bracketed(name) {
        names_are_found(user, name, port, path);
        if name == "::1"@ {
            assert(port_class()(name[0]));
        }
    }
    let six = user + seq!['['] + "::1"@ + seq![']'] + port + path;
    let home = "http://"@ + user + seq!['['] + "::1"@ + seq![']'] + port + path;
    assert(home =~= "http://"@ + six);
    assert(home.subrange(0, 7) =~= "http://"@);
    assert(home.skip(7) =~= six);
    assert(home[4] == "http://"@[4]);
    if begins_with(home, "https://"@) {
        assert(home.subrange(0, 8)[4] == "https://"@[4]);
    }
    addresses_are_found(user, "::1"@, port, path);
}

/// A message answers the request whose id it has: with the error's message where it has an error,
/// and else with its result.
pub proof fn answers_are_told_by_their_id(v: JsonView, id: u64)
    ensures
        answer_in(v, id) is Some <==> v.get("id"@) == Some(JsonView::Uint(id)),
        v.get("id"@) == Some(JsonView::Uint(id)) && v.get("error"@) is Some ==> answer_in(v, id) == Some(
            Err::<JsonView, Seq<char>>(
                if let Some(m) = v.get("error"@)->0.text_at("message"@) { m } else { "remote error"@ },
            ),
        ),
        v.get("id"@) == Some(JsonView::Uint(id)) && v.get("error"@) is None ==> answer_in(v, id) == Some(
            Ok::<JsonView, Seq<char>>(
                if let Some(x) = v.get("result"@) { x } else { JsonView::Null },
            ),
        ),
{
}

/// The answer in a body is the first one of its lines, each line being a message itself or one
/// behind "data:".
pub proof fn the_first_answer_counts(line: Seq<char>, body: Seq<Seq<char>>, id: u64, v: JsonView)
    ensures
        answer_in_lines(Seq::empty(), id) is None,
        line_message(line) == Some(v) && answer_in(v, id) is Some ==> answer_in_lines(
            seq![line] + body,
            id,
        ) == answer_in(v, id),
        (line_message(line) is None || line_message(line) == Some(v) && answer_in(v, id) is None)
            ==> answer_in_lines(seq![line] + body, id) == answer_in_lines(body, id),
{
    assert((seq![line] + body).skip(1) =~= body);
}

/// A call over HTTP ends with the result of its second message, or with the error that tells why
/// there is none.
pub proof fn http_calls_end_with_their_result(method: Seq<char>, body: Seq<char>)
    ensures
        ({
            let answer = answer_in_lines(lines_of(body), 2);
            &&& answer is None ==> http_result(method, body) == Err::<JsonView, Seq<char>>(
                "mcp_http: no response frame"@,
            )
            &&& answer is Some && answer->0 is Ok ==> http_result(method, body) == answer->0
            &&& answer is Some && answer->0 is Err ==> http_result(method, body) == Err::<
                JsonView,
                Seq<char>,
            >(method + ": "@ + answer->0->Err_0)
        }),
{
}

/// The messages of a call have their form: the greeting is the message 1 and names the protocol
/// and the client, the notice has no id, and the call is the message 2 with the method and the
/// parameters. Every one says what it is and what it takes, and carries the configured headers.
pub proof fn messages_have_their_form(
    event: HttpEvent,
    method: Seq<char>,
    params: JsonView,
    configured: Seq<(Seq<char>, Seq<char>)>,
    session: Option<Seq<char>>,
    i: int,
)
    requires
        0 <= i < configured.len(),
    ensures
        ({
            let hello = rpc_request(1, "initialize"@, hello_params());
            let call = rpc_request(2, method, params);
            let headers = headers_of(configured, session);
            &&& hello.get("id"@) == Some(JsonView::Uint(1))
            &&& hello.text_at("method"@) == Some("initialize"@)
            &&& hello.text_at("jsonrpc"@) == Some("2.0"@)
            &&& hello.get("params"@) is Some
            &&& hello.get("params"@)->0.text_at("protocolVersion"@) == Some("2025-03-26"@)
            &&& call.get("id"@) == Some(JsonView::Uint(2))
            &&& call.text_at("method"@) == Some(method)
            &&& call.get("params"@) == Some(params)
            &&& call.text_at("jsonrpc"@) == Some("2.0"@)
            &&& initialized().text_at("method"@) == Some("notifications/initialized"@)
            &&& initialized().get("id"@) is None
            &&& headers.contains(("Content-Type"@, "application/json"@))
            &&& headers.contains(("Accept"@, "application/json, text/event-stream"@))
            &&& headers.contains(configured[i])
            &&& headers.len() == configured.len() + (if session is Some {
                3int
            } else {
                2
            })
            &&& http_step(HttpEvent::Noticed, method, params, configured, session) == (
            HttpActionView::Send { headers, message: call })
            &&& http_step(HttpEvent::Begun, method, params, configured, session) == (
            HttpActionView::Send { headers: headers_of(configured, None), message: hello })
        }),
{
    reveal_strlit("jsonrpc");
    reveal_strlit("id");
    reveal_strlit("method");
    reveal_strlit("params");
    assert("jsonrpc"@.len() == 7 && "id"@.len() == 2 && "method"@.len() == 6 && "params"@.len() == 6);
    assert("method"@[0] != "params"@[0]);
    reveal_strlit("protocolVersion");
    reveal_strlit("capabilities");
    reveal_strlit("clientInfo");
    assert("protocolVersion"@.len() == 15 && "capabilities"@.len() == 12 && "clientInfo"@.len() == 10);
    let headers = headers_of(configured, session);
    assert(headers[0] == ("Content-Type"@, "application/json"@));
    assert(headers[1] == ("Accept"@, "application/json, text/event-stream"@));
    assert(headers[i + 2] == configured[i]);
}

/// A result that is kept holds every member of the tool's result, but for the request that it
/// names: the operation, the server, the tool and the arguments that it was made with, and the
/// rest of its plan.
pub proof fn results_are_kept_with_their_request(result: JsonView, request: JsonView, key: Seq<char>)
    ensures
        ({
            let kept = result_record(result, request);
            let named = request_record(request);
            &&& kept.get("request"@) == Some(named)
            &&& result is Object && key != "request"@ ==> kept.get(key) == result.get(key)
            &&& named.get("op"@) == Some(
                if request.get("op"@) is Some { request.get("op"@)->0 } else { JsonView::Null },
            )
            &&& named.get("server"@) == Some(
                if request.get("server"@) is Some { request.get("server"@)->0 } else { JsonView::Null },
            )
            &&& named.get("tool"@) == Some(
                if request.get("tool"@) is Some { request.get("tool"@)->0 } else { JsonView::Null },
            )
            &&& named.get("arguments"@) == Some(
                if request.get("arguments"@) is Some {
                    request.get("arguments"@)->0
                } else {
                    JsonView::Object(Map::empty())
                },
            )
            &&& named.get("remaining_calls"@) == request.get("remaining_calls"@)
            &&& named.get("final_output"@) == request.get("final_output"@)
            &&& !(result is Object) ==> kept.array_at("content"@) is Some
                && kept.array_at("content"@)->0.len()
                == 1 && kept.array_at("content"@)->0[0].text_at("type"@) == Some("text"@)
                && kept.array_at("content"@)->0[0].text_at("text"@) == Some(printed(result))
        }),
{
    reveal_strlit("op");
    reveal_strlit("server");
    reveal_strlit("tool");
    reveal_strlit("arguments");
    reveal_strlit("remaining_calls");
    reveal_strlit("final_output");
    assert("op"@.len() == 2 && "server"@.len() == 6 && "tool"@.len() == 4 && "arguments"@.len() == 9
        && "remaining_calls"@.len() == 15 && "final_output"@.len() == 12);
    reveal_strlit("content");
    reveal_strlit("request");
    assert("content"@.len() == 7 && "request"@.len() == 7);
    assert("content"@[0] != "request"@[0]);
    reveal_strlit("type");
    reveal_strlit("text");
    assert("type"@.len() == 4 && "text"@.len() == 4);
    assert("type"@[1] != "text"@[1]);
}

/// A call whose tool reports an error fails, with the texts that the tool gives; any other result
/// is kept.
pub proof fn tool_errors_fail_the_call(payload: JsonView, result: JsonView)
    ensures
        result.get("isError"@) == Some(JsonView::Bool(true)) ==> call_outcome(payload, Ok(result)) == Err::<
            Seq<char>,
            Seq<char>,
        >(failure_text(result)),
        result.get("isError"@) != Some(JsonView::Bool(true)) ==> call_outcome(payload, Ok(result)) == Ok::<
            Seq<char>,
            Seq<char>,
        >(printed(result_record(result, payload))),
        ({
            let told = trimmed(
                joined(
                    content_texts(
                        if let Some(c) = result.array_at("content"@) { c } else { Seq::empty() },
                    ),
                    "\n"@,
                ),
            );
            failure_text(result) == (if told.len() == 0 {
                "mcp_tool_error"@
            } else {
                "mcp_tool_error: "@ + told
            })
        }),
{
    assert(joined(content_texts(Seq::empty()), "\n"@) =~= Seq::empty());
}

/// The server of a call is looked up in the setting by the name in the payload; a setting that is
/// missing or is no JSON, and a name that is not in it, are told.
pub proof fn servers_are_found_by_name(
    payload: JsonView,
    raw: Seq<char>,
    servers: JsonView,
    name: Seq<char>,
    allow_any: bool,
)
    requires
        payload.text_at("server"@) == Some(name),
        parsed(raw) == Some(servers),
    ensures
        server_name(payload) == name,
        server_of(Some(raw), name, allow_any) == server_named(servers, name, allow_any),
        servers.get(name) is None ==> server_named(servers, name, allow_any) == Err::<ServerView, Seq<char>>(
            "mcp server `"@ + name + "` not in MCP_SERVERS"@,
        ),
        server_of(None, name, allow_any) == Err::<ServerView, Seq<char>>(
            "MCP_SERVERS not configured on the daemon"@,
        ),
{
}

/// A call over the standard streams greets, then makes the call with its own method and
/// parameters, and ends with the result that came back; what fails on the way is told with where
/// it failed.
pub proof fn stream_calls_go_step_by_step(method: Seq<char>, params: JsonView, v: Json, e: String)
    ensures
        ({
            let hello = stdio_step(StdioEvent::Spawned(Ok(())), method, params);
            &&& hello is Send
            &&& hello->Send_0.text_at("method"@) == Some("initialize"@)
            &&& hello->Send_0.get("params"@) == Some(hello_params())
        }),
        ({
            let call = stdio_step(StdioEvent::Initialized(Ok(())), method, params);
            &&& call is Send
            &&& call->Send_0.text_at("method"@) == Some(method)
            &&& call->Send_0.get("params"@) == Some(params)
        }),
        stdio_step(StdioEvent::Called(Ok(v)), method, params) == CallActionView::Done(Ok(v@)),
        stdio_step(StdioEvent::Spawned(Err(e)), method, params) == CallActionView::Done(
            Err("mcp_spawn: "@ + e@),
        ),
        stdio_step(StdioEvent::Initialized(Err(e)), method, params) == CallActionView::Done(
            Err("mcp_initialize: "@ + e@),
        ),
        stdio_step(StdioEvent::Called(Err(e)), method, params) == CallActionView::Done(
            Err(method + ": "@ + e@),
        ),
{
    reveal_strlit("method");
    reveal_strlit("params");
    assert("method"@.len() == 6 && "params"@.len() == 6);
    assert("method"@[0] != "params"@[0]);
}

/// A call over HTTP that was greeted without an error sends the notice and then the call, in the
/// session that the server opened, and ends with the result in the answer; what fails ends it.
pub proof fn http_calls_go_step_by_step(
    body: String,
    e: String,
    method: Seq<char>,
    params: JsonView,
    configured: Seq<(Seq<char>, Seq<char>)>,
    session: Seq<char>,
)
    ensures
        ({
            let answer = answer_in_lines(lines_of(body@), 1);
            let next = http_step(HttpEvent::Greeted(Ok(body)), method, params, configured, Some(session));
            &&& answer is Some && answer->0 is Err ==> next == HttpActionView::Done(
                Err("mcp_initialize: "@ + answer->0->Err_0),
            )
            &&& !(answer is Some && answer->0 is Err) ==> next is Notify && next->Notify_message.text_at(
                "method"@,
            ) == Some("notifications/initialized"@) && next->Notify_headers == headers_of(
                configured,
                Some(session),
            )
        }),
        http_step(HttpEvent::Greeted(Err(e)), method, params, configured, Some(session))
            == HttpActionView::Done(Err(e@)),
        http_step(HttpEvent::Called(Ok(body)), method, params, configured, Some(session))
            == HttpActionView::Done(http_result(method, body@)),
        http_step(HttpEvent::Called(Err(e)), method, params, configured, Some(session))
            == HttpActionView::Done(Err(e@)),
        headers_of(configured, Some(session)).contains(("Mcp-Session-Id"@, session)),
{
    reveal_strlit("jsonrpc");
    reveal_strlit("id");
    reveal_strlit("method");
    reveal_strlit("params");
    assert("jsonrpc"@.len() == 7 && "id"@.len() == 2 && "method"@.len() == 6 && "params"@.len() == 6);
    assert("method"@[0] != "params"@[0]);
    let headers = headers_of(configured, Some(session));
    assert(headers.last() == ("Mcp-Session-Id"@, session));
}

/// A line behind "data:" is read without it and without the spaces around it; any other line is
/// read whole.
pub proof fn lines_are_read(text: Seq<char>, line: Seq<char>)
    ensures
        line_message("data:"@ + text) == parsed(trimmed(text)),
        !begins_with(line, "data:"@) ==> line_message(line) == parsed(line),
{
    crate::text::laws::beginnings_and_ends("data:"@, text, line);
}

proof fn small_numerals_are_octets(n: nat)
    requires
        n <= 255,
    ensures
        crate::openrouter_effect::mcp::is_octet(decimal(n)),
        crate::openrouter_effect::mcp::octet_value(decimal(n)) == n,
        crate::text::laws::lacks(decimal(n), '.'),
{
    reveal_with_fuel(decimal, 4);
    reveal_with_fuel(crate::openrouter_effect::mcp::octet_value, 4);
    let d = decimal(n);
    if n < 10 {
        assert(d =~= seq![crate::text::digit(n as int)]);
        assert(d.drop_last() =~= Seq::empty());
    } else if n < 100 {
        let a = crate::text::digit((n / 10) as int);
        let b = crate::text::digit((n % 10) as int);
        assert(d =~= seq![a, b]);
        assert(d.drop_last() =~= seq![a]);
        assert(seq![a].drop_last() =~= Seq::empty());
    } else {
        let a = crate::text::digit((n / 100) as int);
        let b = crate::text::digit((n / 10 % 10) as int);
        let c = crate::text::digit((n % 10) as int);
        assert(n / 10 / 10 == n / 100);
        assert(d =~= seq![a, b, c]);
        assert(d.drop_last() =~= seq![a, b]);
        assert(seq![a, b].drop_last() =~= seq![a]);
        assert(seq![a].drop_last() =~= Seq::empty());
    }
}

/// Of the addresses of four numbers exactly those that begin with 127 are of this machine.
pub proof fn loopback_begins_with_127(a: u8, b: u8, c: u8, d: u8)
    ensures
        crate::openrouter_effect::mcp::is_loopback_v4(
            joined(
                seq![decimal(a as nat), decimal(b as nat), decimal(c as nat), decimal(d as nat)],
                seq!['.'],
            ),
        ) <==> a == 127,
{
    small_numerals_are_octets(a as nat);
    small_numerals_are_octets(b as nat);
    small_numerals_are_octets(c as nat);
    small_numerals_are_octets(d as nat);
    let parts = seq![decimal(a as nat), decimal(b as nat), decimal(c as nat), decimal(d as nat)];
    crate::text::laws::joined_texts_are_pieces(parts, '.');
}

/// The model is called as the operator has set: at the URL without trailing slashes, or at the
/// provider's own; and an action is handed on with all that it holds.
pub proof fn actions_are_handed_on_whole(
    url: &str,
    action: Action,
    req: ExecutionRequest,
    to: Seq<char>,
    key: Seq<char>,
    body: JsonView,
    payload: JsonView,
)
    ensures
        !finishes_with(url@, "/"@) ==> configured_base(Some(url)) == url@,
        configured_base(None) == "https://openrouter.ai/api/v1"@,
        is_action(action, ActionView::CallModel { url: to, api_key: key, body }, req) ==> (action matches
            Action::CallModel { url: u, api_key: k, body: b } && u@ == to && k@ == key && b@ == body),
        is_action(action, ActionView::CallTool { payload }, req) ==> (action matches Action::CallTool {
            payload: p,
        } && p@ == payload),
        is_action(action, ActionView::ReadKey { name: key, base_url: to, payload }, req) ==> (action matches
            Action::ReadKey { name: n, base_url: b, payload: p } && n@ == key && b@ == to && p@ == payload),
        is_action(action, ActionView::Fail { code: key }, req) ==> (action matches Action::Respond(r)
            && r.status@ == "failed"@ && r.error_code@ == key && r.effect_id@ == req.effect_id@),
{
    reveal_strlit("https://openrouter.ai/api/v1");
    reveal_strlit("/");
    assert("https://openrouter.ai/api/v1"@.len() == 28 && "/"@.len() == 1);
    let own = "https://openrouter.ai/api/v1"@;
    if finishes_with(own, "/"@) {
        let n = own.len() - 1;
        assert(own.subrange(n, n + 1)[0] == own[n]);
        assert(own[27] == '1');
    }
}

/// What is kept of a text of any length is the beginning of it that fits two megabytes.
pub proof fn results_are_limited(text: Seq<char>)
    ensures
        uri_text(text_uri(text, MAX_RESULT_BYTES as nat)) is Some,
        ({
            let kept = uri_text(text_uri(text, MAX_RESULT_BYTES as nat))->0;
            &&& begins_with(text, kept)
            &&& encode_utf8(kept).len() <= 2097152
            &&& kept.len() < text.len() ==> encode_utf8(text.take(kept.len() as int + 1)).len() > 2097152
        }),
{
    uri_carries_its_text(text, MAX_RESULT_BYTES as nat);
    texts_are_clipped_to_fit(text, MAX_RESULT_BYTES as nat);
    let kept = uri_text(text_uri(text, MAX_RESULT_BYTES as nat))->0;
    assert(text.subrange(0, kept.len() as int) =~= text.take(kept.len() as int));
    if kept.len() == 0 {
        assert(kept =~= Seq::empty());
        assert(encode_utf8(kept).len() == 0);
    }
}

/// A server that the map describes gets the headers or the variables that stand there, and a call
/// that cannot be made is refused for the first thing that it lacks.
pub proof fn calls_lack_one_thing_first(
    spec: JsonView,
    allow_any: bool,
    payload: JsonView,
    server: ServerView,
    e: Seq<char>,
)
    ensures
        server_in(spec, allow_any) matches Ok(ServerView::Http { url, headers }) ==> headers
            == crate::openrouter_effect::mcp::text_members(spec, "headers"@) && spec.text_at("url"@) == Some(
            url,
        ),
        server_in(spec, allow_any) matches Ok(ServerView::Stdio { command, args, env, cwd }) ==> env
            == crate::openrouter_effect::mcp::text_members(spec, "env"@) && spec.text_at("command"@) == Some(
            command,
        ) && cwd == spec.text_at("cwd"@),
        payload.text_at("server"@) is Some ==> call_for(payload, Err(e)) == Err::<ToolCallView, Seq<char>>(e),
        payload.text_at("server"@) is Some && method_of(payload) is Err ==> call_for(payload, Ok(server))
            == Err::<ToolCallView, Seq<char>>(method_of(payload)->Err_0),
        payload.text_at("op"@) is None ==> method_of(payload) is Err,
        hello_params().get("clientInfo"@) is Some,
        hello_params().get("clientInfo"@)->0.text_at("name"@) == Some("agentos-mcp"@),
        call_outcome(payload, Err(e)) == Err::<Seq<char>, Seq<char>>(e),
{
    reveal_strlit("protocolVersion");
    reveal_strlit("capabilities");
    reveal_strlit("clientInfo");
    assert("protocolVersion"@.len() == 15 && "capabilities"@.len() == 12 && "clientInfo"@.len() == 10);
    reveal_strlit("name");
    reveal_strlit("version");
    assert("name"@.len() == 4 && "version"@.len() == 7);
    reveal_strlit("mcp.list_tools");
    reveal_strlit("mcp.call_tool");
    reveal_strlit("mcp.read_resource");
    assert("mcp.list_tools"@.len() == 14);
    assert("mcp.call_tool"@.len() == 13);
    assert("mcp.read_resource"@.len() == 17);
}

} // verus!
