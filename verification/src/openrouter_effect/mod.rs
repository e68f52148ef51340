//! An effect adapter that calls a chat model or a tool, once per operation.
//!
//! What it has done is kept in a store by operation, so that a repeated request
//! is answered from the store. The calls themselves are made by the caller: the
//! functions here say which call comes next and what its outcome means.

use vstd::prelude::*;
use vstd::string::*;

use crate::base64::{data_uri, text_uri};
use crate::effects::{
    failed, failure, op_views, replay, report, responds, succeed, success, success_record, ExecutionRequest,
    ExecutionResponse, OpStore, OpView,
};
use crate::json::{object_value, parsed_bytes, Json, JsonView};
use crate::openrouter_effect::mcp::{
    asks_for_mcp, content_texts, is_mcp_payload, join_content, same_result_text,
};
use crate::text::{
    after_prefix, begins_with, chars_of, ends_with, finishes_with, join, joined, same_text,
    starts_with, strip_prefix, trim_end_matches, without_trailing,
};
use crate::url::{
    find_host, find_host_and_port, host, host_and_port, is_bracketed, paths_do_not_move_the_host,
};

pub mod laws;
pub mod mcp;

verus! {

/// The longest result, in bytes, that is kept of a call.
pub const MAX_RESULT_BYTES: usize = 2097152;

/// How the chat model is called.
#[derive(Debug)]
pub struct LlmConfig {
    pub api_key: String,
    pub default_model: String,
    pub base_url: String,
    pub allow_any: bool,
}

/// What comes next in the execution of an effect.
#[derive(Debug)]
pub enum Action {
    /// The effect is answered.
    Respond(ExecutionResponse),
    /// The tool that the payload asks for is to be called.
    CallTool { payload: Json },
    /// The variable `name` is to be read for the key of the model call.
    ReadKey { name: String, base_url: String, payload: Json },
    /// The chat model is to be called.
    CallModel { url: String, api_key: String, body: Json },
}

// ---------------------------------------------------------------------------
// Endpoints and keys
// ---------------------------------------------------------------------------

/// The host name that an HTTPS URL goes to; a URL of another scheme, or one that goes to
/// an address in brackets, has none.
pub open spec fn https_host(url: Seq<char>) -> Seq<char> {
    match after_prefix(url, "https://"@) {
        Some(rest) => if is_bracketed(host_and_port(rest)) {
            Seq::empty()
        } else {
            host(rest)
        },
        None => Seq::empty(),
    }
}

/// Whether the key of the provider may be sent to `url`: over HTTPS to the
/// provider's host or one below it.
pub open spec fn is_provider_endpoint(url: Seq<char>) -> bool {
    https_host(url) == "openrouter.ai"@ || finishes_with(https_host(url), ".openrouter.ai"@)
}

/// Whether the key of the provider may be sent to `url`.
pub fn endpoint_allowed(url: &str) -> (r: Result<(), String>)
    ensures
        match r {
            Ok(_) => is_provider_endpoint(url@),
            Err(e) => !is_provider_endpoint(url@) && e@ == "must be https on openrouter.ai"@,
        },
{
    let host = match strip_prefix(url, "https://") {
        Some(rest) => {
            let place = find_host_and_port(rest.as_str());
            if starts_with(place.as_str(), "[") {
                String::new()
            } else {
                find_host(place.as_str())
            }
        },
        None => String::new(),
    };
    proof {
        reveal_strlit("[");
        if let Some(rest) = after_prefix(url@, "https://"@) {
            let place = host_and_port(rest);
            if is_bracketed(place) {
                assert(place.subrange(0, 1) =~= "["@);
            } else if begins_with(place, "["@) {
                assert(place.subrange(0, 1)[0] == '[');
            }
        }
    }
    if same_text(host.as_str(), "openrouter.ai") || ends_with(
        host.as_str(),
        ".openrouter.ai",
    ) {
        Ok(())
    } else {
        Err("must be https on openrouter.ai".to_owned())
    }
}

/// Whether `c` may stand in the name of a variable that holds a key.
pub open spec fn is_key_char(c: char) -> bool {
    'A' <= c <= 'Z' || '0' <= c <= '9' || c == '_'
}

/// Whether `name` names a variable that holds a provider's key.
pub open spec fn is_key_name(name: Seq<char>) -> bool {
    &&& begins_with(name, "PROVIDER_KEY_"@)
    &&& name.len() > "PROVIDER_KEY_"@.len()
    &&& forall|i: int| 0 <= i < name.len() ==> is_key_char(#[trigger] name[i])
}

/// Whether `name` names a variable that holds a provider's key.
pub fn key_name_allowed(name: &str) -> (r: bool)
    ensures
        r == is_key_name(name@),
{
    if !crate::text::starts_with(name, "PROVIDER_KEY_") {
        return false;
    }
    let cs = chars_of(name);
    if cs.len() == "PROVIDER_KEY_".unicode_len() {
        return false;
    }
    let mut i: usize = 0;
    while i < cs.len()
        invariant
            i <= cs.len(),
            cs@ == name@,
            forall|k: int| 0 <= k < i ==> is_key_char(#[trigger] cs@[k]),
        decreases cs.len() - i,
    {
        let c: char = cs[i];
        if !(('A' <= c && c <= 'Z') || ('0' <= c && c <= '9') || c == '_') {
            assert(!is_key_char(name@[i as int]));
            return false;
        }
        i += 1;
    }
    true
}

// ---------------------------------------------------------------------------
// Answers
// ---------------------------------------------------------------------------

/// Ends the execution of `req` with the outcome of its call. A success is kept in
/// the store; a failure is not, so that the request may be tried again.
pub fn finish(store: &mut OpStore, req: &ExecutionRequest, outcome: Result<String, String>) -> (r: ExecutionResponse)
    ensures
        match outcome {
            Ok(text) => {
                let kept = success(text_uri(text@, MAX_RESULT_BYTES as nat));
                &&& responds(r, *req, kept)
                &&& op_views(final(store)@) == op_views(old(store)@).insert(
                    req.operation_id@,
                    kept,
                )
            },
            Err(code) => responds(r, *req, failed(code@)) && final(store)@ == old(store)@,
        },
{
    match outcome {
        Ok(text) => {
            let result_ref = data_uri(text.as_str(), MAX_RESULT_BYTES);
            let rec = success_record(result_ref.as_str());
            assert(op_views(store@.insert(req.operation_id@, rec)) =~= op_views(store@).insert(
                req.operation_id@,
                rec@,
            ));
            store.insert(req.operation_id.clone(), rec);
            succeed(req, result_ref.as_str())
        },
        Err(code) => failure(req, code.as_str()),
    }
}

// ---------------------------------------------------------------------------
// Requests
// ---------------------------------------------------------------------------

/// The body that is sent to the model: the payload without the parts that are
/// meant for the adapter, and with a model.
pub open spec fn body_of(payload: JsonView, default_model: Seq<char>) -> JsonView {
    let bare = match payload {
        JsonView::Object(m) => JsonView::Object(m.remove("base_url"@).remove("api_key_env"@)),
        _ => payload,
    };
    if bare.get("model"@) is None {
        bare.with("model"@, JsonView::Text(default_model))
    } else {
        bare
    }
}

/// The document without the member `key`.
fn without_member(j: &Json, key: &str) -> (r: Json)
    requires
        j@ is Object,
    ensures
        r@ == JsonView::Object(j@->Object_0.remove(key@)),
{
    broadcast use object_value;

    let list = j.members();
    let ghost exec_listed = crate::ordered::in_order(list@);
    let ghost m = j@->Object_0;
    let n: usize = list.len();
    let mut out = crate::json::members();
    let mut i: usize = 0;
    let ghost listed = crate::json::sorted_members(j@);
    while i < n
        invariant
            i <= n,
            n == exec_listed.len(),
            exec_listed == crate::ordered::in_order(list@),
            listed == crate::json::pair_views(exec_listed),
            crate::ordered::lists(listed, m),
            forall|k: Seq<char>|
                out@.contains_key(k) <==> (k != key@ && exists|a: int|
                    0 <= a < i && #[trigger] listed[a].0 == k),
            forall|k: Seq<char>| #[trigger] out@.contains_key(k) ==> m.contains_key(k) && out@[k] == m[k],
        decreases n - i,
    {
        let (k, value) = list.at(i);
        assert(listed[i as int] == (k@, value@));
        assert(m.contains_key(listed[i as int].0));
        let ghost before = out@;
        if !same_text(k.as_str(), key) {
            out = out.put(k.as_str(), value.copy());
        }
        i += 1;
        assert forall|x: Seq<char>|
            out@.contains_key(x) <==> (x != key@ && exists|a: int| 0 <= a < i && #[trigger] listed[a].0 == x) by {
            if x == k@ {
                assert(listed[i - 1].0 == x);
            }
            if before.contains_key(x) {
                let a = choose|a: int| 0 <= a < i - 1 && #[trigger] listed[a].0 == x;
                assert(listed[a].0 == x);
            }
            if exists|a: int| 0 <= a < i && #[trigger] listed[a].0 == x {
                let a = choose|a: int| 0 <= a < i && #[trigger] listed[a].0 == x;
                if a < i - 1 {
                    assert(x != key@ ==> before.contains_key(x));
                }
            }
        }
    }
    proof {
        let target = m.remove(key@);
        assert forall|x: Seq<char>| target.contains_key(x) <==> out@.contains_key(x) by {
            if target.contains_key(x) {
                assert(m.contains_key(x));
                let a = choose|a: int| 0 <= a < listed.len() && #[trigger] listed[a].0 == x;
                assert(listed[a].0 == x);
            }
        }
        assert(out@ =~= target);
    }
    out.object()
}

/// The body that is sent to the model. A payload that is neither an object nor
/// `Null` has none.
pub fn chat_body(payload: &Json, default_model: &str) -> (r: Json)
    requires
        payload@ is Object || payload@ is Null,
    ensures
        r@ == body_of(payload@, default_model@),
{
    let mut body = if payload.is_object() {
        without_member(&without_member(payload, "base_url"), "api_key_env")
    } else {
        payload.copy()
    };
    if body.get("model").is_none() {
        body.set("model", Json::text(default_model));
    }
    body
}

/// The value of an [`Action`], its response aside.
#[verifier::ext_equal]
pub enum ActionView {
    Fail { code: Seq<char> },
    Replay { rec: OpView },
    CallTool { payload: JsonView },
    ReadKey { name: Seq<char>, base_url: Seq<char>, payload: JsonView },
    CallModel { url: Seq<char>, api_key: Seq<char>, body: JsonView },
}

/// Whether `a` is the action `v` for the request `req`.
pub open spec fn is_action(a: Action, v: ActionView, req: ExecutionRequest) -> bool {
    match (a, v) {
        (Action::Respond(r), ActionView::Fail { code }) => responds(r, req, failed(code)),
        (Action::Respond(r), ActionView::Replay { rec }) => responds(r, req, rec),
        (Action::CallTool { payload }, ActionView::CallTool { payload: p }) => payload@ == p,
        (
            Action::ReadKey { name, base_url, payload },
            ActionView::ReadKey { name: n, base_url: b, payload: p },
        ) => name@ == n && base_url@ == b && payload@ == p,
        (
            Action::CallModel { url, api_key, body },
            ActionView::CallModel { url: u, api_key: k, body: b },
        ) => url@ == u && api_key@ == k && body@ == b,
        _ => false,
    }
}

/// The model call for a payload with a key, `None` where the payload is neither
/// an object nor `Null`.
pub open spec fn model_action(payload: JsonView, base_url: Seq<char>, api_key: Seq<char>, default_model: Seq<char>) -> Option<ActionView> {
    if api_key.len() == 0 {
        Some(ActionView::Fail { code: "missing_openrouter_api_key"@ })
    } else if !(payload is Object || payload is Null) {
        None
    } else {
        let body = body_of(payload, default_model);
        if body.array_at("messages"@) is None {
            Some(ActionView::Fail { code: "invalid_argument"@ })
        } else {
            Some(ActionView::CallModel { url: base_url + "/chat/completions"@, api_key, body })
        }
    }
}

/// The value of an [`LlmConfig`].
pub struct LlmView {
    pub api_key: Seq<char>,
    pub default_model: Seq<char>,
    pub base_url: Seq<char>,
    pub allow_any: bool,
}

impl View for LlmConfig {
    type V = LlmView;

    open spec fn view(&self) -> LlmView {
        LlmView {
            api_key: self.api_key@,
            default_model: self.default_model@,
            base_url: self.base_url@,
            allow_any: self.allow_any,
        }
    }
}

/// What comes next for a request with the parsed payload `payload` that the store
/// does not know.
pub open spec fn payload_action(payload: JsonView, config: LlmView) -> Option<ActionView> {
    if asks_for_mcp(payload) {
        Some(ActionView::CallTool { payload })
    } else {
        let asked = payload.text_at("base_url"@);
        let base_url = match asked {
            Some(url) => without_trailing(url, "/"@),
            None => config.base_url,
        };
        if asked is Some && !config.allow_any && !is_provider_endpoint(base_url) {
            Some(ActionView::Fail { code: "base_url "@ + "must be https on openrouter.ai"@ })
        } else {
            match payload.text_at("api_key_env"@) {
                Some(name) => if is_key_name(name) {
                    Some(ActionView::ReadKey { name, base_url, payload })
                } else {
                    Some(ActionView::Fail { code: "api_key_env_invalid"@ })
                },
                None => model_action(payload, base_url, config.api_key, config.default_model),
            }
        }
    }
}

/// What comes next for a request: a known operation is answered from the store.
pub open spec fn first_action(
    store: Map<Seq<char>, OpView>,
    req: ExecutionRequest,
    payload: Option<JsonView>,
    config: LlmView,
) -> Option<ActionView> {
    if store.contains_key(req.operation_id@) {
        Some(ActionView::Replay { rec: store[req.operation_id@] })
    } else {
        match payload {
            None => Some(ActionView::Fail { code: "invalid_argument"@ }),
            Some(p) => payload_action(p, config),
        }
    }
}

/// Whether `r` is the action `v`, if there is one.
pub open spec fn is_opt_action(r: Option<Action>, v: Option<ActionView>, req: ExecutionRequest) -> bool {
    match r {
        Some(a) => v is Some && is_action(a, v->0, req),
        None => v is None,
    }
}

/// The model call for a payload with a key. There is none where the payload is
/// neither an object nor `Null`.
pub fn model_call(
    req: &ExecutionRequest,
    config: &LlmConfig,
    payload: &Json,
    base_url: &str,
    api_key: &str,
) -> (r: Option<Action>)
    ensures
        is_opt_action(
            r,
            model_action(payload@, base_url@, api_key@, config.default_model@),
            *req,
        ),
{
    if api_key.unicode_len() == 0 {
        return Some(Action::Respond(failure(req, "missing_openrouter_api_key")));
    }
    if !payload.is_object() && !payload.is_null() {
        return None;
    }
    let body = chat_body(payload, config.default_model.as_str());
    if body.array_at("messages").is_none() {
        return Some(Action::Respond(failure(req, "invalid_argument")));
    }
    Some(
        Action::CallModel {
            url: join(base_url, "/chat/completions"),
            api_key: api_key.to_owned(),
            body,
        },
    )
}

/// What comes next once the variable `name` was read for the key: `key` is its
/// value, if it is set.
pub fn with_key(
    req: &ExecutionRequest,
    config: &LlmConfig,
    payload: &Json,
    base_url: &str,
    name: &str,
    key: Option<&str>,
) -> (r: Option<Action>)
    ensures
        match key {
            Some(k) if k@.len() > 0 => is_opt_action(
                r,
                model_action(payload@, base_url@, k@, config.default_model@),
                *req,
            ),
            _ => is_opt_action(
                r,
                Some(ActionView::Fail { code: "api_key_env "@ + name@ + " not set"@ }),
                *req,
            ),
        },
{
    match key {
        Some(k) => if k.unicode_len() > 0 {
            return model_call(req, config, payload, base_url, k);
        },
        None => {},
    }
    let code = join(join("api_key_env ", name).as_str(), " not set");
    Some(Action::Respond(failure(req, code.as_str())))
}

/// What comes next for a request with the parsed payload `payload`.
pub fn begin_parsed(
    store: &OpStore,
    req: &ExecutionRequest,
    payload: Option<Json>,
    config: &LlmConfig,
) -> (r: Option<Action>)
    ensures
        is_opt_action(
            r,
            first_action(
                op_views(store@),
                *req,
                match payload {
                    Some(p) => Some(p@),
                    None => None,
                },
                config@,
            ),
            *req,
        ),
{
    if let Some(rec) = store.get(req.operation_id.as_str()) {
        return Some(Action::Respond(replay(req, rec)));
    }
    let payload = match payload {
        Some(p) => p,
        None => return Some(Action::Respond(failure(req, "invalid_argument"))),
    };
    if is_mcp_payload(&payload) {
        return Some(Action::CallTool { payload });
    }
    let base_url = match payload.text_at("base_url") {
        Some(url) => {
            let url = trim_end_matches(url, "/");
            if !config.allow_any {
                if let Err(e) = endpoint_allowed(url.as_str()) {
                    let code = join("base_url ", e.as_str());
                    return Some(Action::Respond(failure(req, code.as_str())));
                }
            }
            url
        },
        None => config.base_url.clone(),
    };
    if let Some(name) = payload.text_at("api_key_env") {
        if !key_name_allowed(name) {
            return Some(Action::Respond(failure(req, "api_key_env_invalid")));
        }
        let name = name.to_owned();
        return Some(Action::ReadKey { name, base_url, payload });
    }
    model_call(req, config, &payload, base_url.as_str(), config.api_key.as_str())
}

/// What comes next for a request. There is nothing where the payload is JSON for
/// a model call, but neither an object nor `Null`.
pub fn begin(store: &OpStore, req: &ExecutionRequest, config: &LlmConfig) -> (r: Option<Action>)
    ensures
        is_opt_action(
            r,
            first_action(op_views(store@), *req, parsed_bytes(req.payload@), config@),
            *req,
        ),
{
    let payload = Json::from_bytes(req.payload.as_slice());
    begin_parsed(store, req, payload, config)
}

// ---------------------------------------------------------------------------
// Replies of the provider
// ---------------------------------------------------------------------------

/// The message of a provider's reply: that of its first choice.
pub open spec fn reply_message(reply: JsonView) -> JsonView {
    match reply.array_at("choices"@) {
        Some(choices) => if choices.len() > 0 {
            match choices[0].get("message"@) {
                Some(m) => m,
                None => JsonView::Null,
            }
        } else {
            JsonView::Null
        },
        None => JsonView::Null,
    }
}

/// The text of a provider's reply: its content, the texts of the content's parts,
/// or its reasoning.
pub open spec fn reply_text(reply: JsonView) -> Result<Seq<char>, Seq<char>> {
    let m = reply_message(reply);
    let parts = match m.array_at("content"@) {
        Some(content) => joined(content_texts(content), Seq::empty()),
        None => Seq::empty(),
    };
    match m.text_at("content"@) {
        Some(t) => Ok(t),
        None => if parts.len() > 0 {
            Ok(parts)
        } else {
            match m.text_at("reasoning"@) {
                Some(t) => if t.len() > 0 {
                    Ok(t)
                } else {
                    Err("provider_bad_response"@)
                },
                None => Err("provider_bad_response"@),
            }
        },
    }
}

/// The text of a provider's reply.
pub fn provider_text(reply: &Json) -> (r: Result<String, String>)
    ensures
        same_result_text(r, reply_text(reply@)),
{
    proof {
        reveal_strlit("");
        assert(""@ =~= Seq::empty());
    }
    let null = Json::Null;
    let message = match reply.array_at("choices") {
        Some(choices) => if choices.len() > 0 {
            match choices[0].get("message") {
                Some(m) => m,
                None => &null,
            }
        } else {
            &null
        },
        None => &null,
    };
    assert(message@ == reply_message(reply@));
    if let Some(t) = message.text_at("content") {
        return Ok(t.to_owned());
    }
    if let Some(content) = message.array_at("content") {
        let text = join_content(content, "");
        if text.as_str().unicode_len() > 0 {
            return Ok(text);
        }
    }
    if let Some(t) = message.text_at("reasoning") {
        if t.unicode_len() > 0 {
            return Ok(t.to_owned());
        }
    }
    Err("provider_bad_response".to_owned())
}

// ---------------------------------------------------------------------------
// Configuration
// ---------------------------------------------------------------------------

/// What comes of a call of the model: `reached` tells whether the provider answered, and
/// `reply` is its answer where it could be read.
pub open spec fn chat_outcome(reached: bool, reply: Option<JsonView>) -> Result<Seq<char>, Seq<char>> {
    if !reached {
        Err("provider_unreachable"@)
    } else {
        match reply {
            Some(v) => reply_text(v),
            None => Err("provider_bad_response"@),
        }
    }
}

/// What comes of a call of the model.
pub fn chat_result(reached: bool, reply: Option<Json>) -> (r: Result<String, String>)
    ensures
        same_result_text(
            r,
            chat_outcome(
                reached,
                match reply {
                    Some(v) => Some(v@),
                    None => None,
                },
            ),
        ),
{
    if !reached {
        return Err("provider_unreachable".to_owned());
    }
    match reply {
        Some(v) => provider_text(&v),
        None => Err("provider_bad_response".to_owned()),
    }
}

/// The error with which a base URL is refused.
pub open spec fn base_url_refusal() -> Seq<char> {
    "OPENROUTER_BASE_URL "@ + "must be https on openrouter.ai"@
        + " (or set OPENROUTER_ALLOW_ANY_BASE_URL=1)"@
}

/// The base URL that is configured, or the provider's own.
pub open spec fn configured_base(base_url: Option<&str>) -> Seq<char> {
    without_trailing(
        match base_url {
            Some(url) => url@,
            None => "https://openrouter.ai/api/v1"@,
        },
        "/"@,
    )
}

/// How the chat model is called, by what the operator has set.
pub fn read_config(
    base_url: Option<&str>,
    allow_any: bool,
    api_key: Option<&str>,
    model: Option<&str>,
) -> (r: Result<LlmConfig, String>)
    ensures
        match r {
            Ok(c) => {
                &&& allow_any || is_provider_endpoint(configured_base(base_url))
                &&& c.base_url@ == configured_base(base_url)
                &&& c.allow_any == allow_any
                &&& c.api_key@ == (match api_key {
                    Some(k) => k@,
                    None => Seq::empty(),
                })
                &&& c.default_model@ == (match model {
                    Some(m) => m@,
                    None => "openrouter/free"@,
                })
            },
            Err(e) => !allow_any && !is_provider_endpoint(configured_base(base_url)) && e@
                == base_url_refusal(),
        },
{
    let url = match base_url {
        Some(url) => url,
        None => "https://openrouter.ai/api/v1",
    };
    let url = trim_end_matches(url, "/");
    if !allow_any {
        if let Err(e) = endpoint_allowed(url.as_str()) {
            let mut told = "OPENROUTER_BASE_URL ".to_owned();
            told.append(e.as_str());
            told.append(" (or set OPENROUTER_ALLOW_ANY_BASE_URL=1)");
            return Err(told);
        }
    }
    Ok(
        LlmConfig {
            api_key: match api_key {
                Some(k) => k.to_owned(),
                None => String::new(),
            },
            default_model: match model {
                Some(m) => m.to_owned(),
                None => "openrouter/free".to_owned(),
            },
            base_url: url,
            allow_any,
        },
    )
}

// ---------------------------------------------------------------------------
// What holds of every execution
// ---------------------------------------------------------------------------

/// An operation that has succeeded is answered from the store: whatever the second
/// request holds, it makes no call, and its answer has the recorded result.
pub proof fn success_is_replayed(
    before: Map<Seq<char>, OpView>,
    text: Seq<char>,
    first: ExecutionRequest,
    again: ExecutionRequest,
    payload: Option<JsonView>,
    config: LlmView,
)
    requires
        again.operation_id@ == first.operation_id@,
    ensures
        ({
            let kept = success(text_uri(text, MAX_RESULT_BYTES as nat));
            first_action(before.insert(first.operation_id@, kept), again, payload, config) == Some(
                ActionView::Replay { rec: kept },
            )
        }),
{
}

/// A call goes where its base URL goes.
proof fn calls_stay_at_the_provider(base: Seq<char>)
    requires
        is_provider_endpoint(base),
    ensures
        is_provider_endpoint(base + "/chat/completions"@),
{
    let scheme = "https://"@;
    let path = "/chat/completions"@;
    reveal_strlit("/chat/completions");
    reveal_strlit("openrouter.ai");
    reveal_strlit(".openrouter.ai");
    assert("openrouter.ai"@.len() > 0 && ".openrouter.ai"@.len() > 0);
    assert(after_prefix(base, scheme) is Some);
    let rest = after_prefix(base, scheme)->0;
    paths_do_not_move_the_host(rest, path);
    assert((base + path).subrange(0, scheme.len() as int) =~= base.subrange(0, scheme.len() as int));
    assert((base + path).skip(scheme.len() as int) =~= base.skip(scheme.len() as int) + path);
}

/// Unless every URL is allowed, a key that the settings or a request name goes to the
/// provider only: every URL that a model is called at, and every base URL that a key is
/// read for, is one of the provider's.
pub proof fn keys_go_to_the_provider(payload: JsonView, config: LlmView)
    requires
        !config.allow_any,
        is_provider_endpoint(config.base_url),
    ensures
        payload_action(payload, config) matches Some(ActionView::CallModel { url, .. })
            ==> is_provider_endpoint(url),
        payload_action(payload, config) matches Some(ActionView::ReadKey { name, base_url, .. })
            ==> is_key_name(name) && is_provider_endpoint(base_url),
{
    if let Some(ActionView::CallModel { url, .. }) = payload_action(payload, config) {
        let base = match payload.text_at("base_url"@) {
            Some(u) => without_trailing(u, "/"@),
            None => config.base_url,
        };
        assert(url == base + "/chat/completions"@);
        calls_stay_at_the_provider(base);
    }
}

/// A call with a key that was read for a base URL of the provider goes to the provider.
pub proof fn read_keys_go_to_the_provider(
    payload: JsonView,
    base_url: Seq<char>,
    api_key: Seq<char>,
    default_model: Seq<char>,
)
    requires
        is_provider_endpoint(base_url),
    ensures
        model_action(payload, base_url, api_key, default_model) matches Some(
            ActionView::CallModel { url, .. },
        ) ==> is_provider_endpoint(url),
{
    calls_stay_at_the_provider(base_url);
}

/// A result that was kept is reported as it was answered.
pub proof fn success_is_reported(before: Map<Seq<char>, OpView>, text: Seq<char>, req: ExecutionRequest)
    ensures
        ({
            let kept = success(text_uri(text, MAX_RESULT_BYTES as nat));
            report(before.insert(req.operation_id@, kept), req.operation_id@) == kept
        }),
{
}

} // verus!
