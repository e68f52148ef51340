//! Tool calls over the Model Context Protocol: which server is called with what,
//! and what its answer means.

use vstd::prelude::*;
use vstd::string::*;

use crate::json::{
    item_views, items, members, pair_views, parse, parsed, printed, reading, sorted_members,
    Json, JsonView,
};
use crate::openrouter_loop::plan::{call_payload, request_keys_differ, with_rest};
use crate::ordered::in_order;
use crate::text::{
    after_prefix, begins_with, chars_of, join, joined, lines, lines_of, pieces, same_text,
    split_on, starts_with, strip_prefix, texts, trim, trimmed,
};
use crate::url::{find_host, find_host_and_port, host};

verus! {

/// Whether a result is the one that `v` says, an error by its characters.
pub open spec fn same_result_text(r: Result<String, String>, v: Result<Seq<char>, Seq<char>>) -> bool {
    match r {
        Ok(t) => v == Ok::<Seq<char>, Seq<char>>(t@),
        Err(e) => v == Err::<Seq<char>, Seq<char>>(e@),
    }
}

/// Whether a result is the one that `v` says, an error by its characters.
pub open spec fn same_result_json(r: Result<Json, String>, v: Result<JsonView, Seq<char>>) -> bool {
    match r {
        Ok(j) => v == Ok::<JsonView, Seq<char>>(j@),
        Err(e) => v == Err::<JsonView, Seq<char>>(e@),
    }
}

/// Whether a payload asks for a tool operation.
pub open spec fn asks_for_mcp(payload: JsonView) -> bool {
    match payload.text_at("op"@) {
        Some(op) => begins_with(op, "mcp."@),
        None => false,
    }
}

/// Whether a payload asks for a tool operation.
pub fn is_mcp_payload(payload: &Json) -> (r: bool)
    ensures
        r == asks_for_mcp(payload@),
{
    match payload.text_at("op") {
        Some(op) => starts_with(op, "mcp."),
        None => false,
    }
}

// ---------------------------------------------------------------------------
// Servers
// ---------------------------------------------------------------------------

/// How a tool server is reached.
#[derive(Debug)]
pub enum ServerSpec {
    Stdio {
        command: String,
        args: Vec<String>,
        env: Vec<(String, String)>,
        cwd: Option<String>,
    },
    Http { url: String, headers: Vec<(String, String)> },
}

/// The value of a [`ServerSpec`].
#[verifier::ext_equal]
pub enum ServerView {
    Stdio {
        command: Seq<char>,
        args: Seq<Seq<char>>,
        env: Seq<(Seq<char>, Seq<char>)>,
        cwd: Option<Seq<char>>,
    },
    Http { url: Seq<char>, headers: Seq<(Seq<char>, Seq<char>)> },
}

/// The characters of each pair of strings.
pub open spec fn text_pairs(v: Seq<(String, String)>) -> Seq<(Seq<char>, Seq<char>)> {
    v.map_values(|p: (String, String)| (p.0@, p.1@))
}

impl View for ServerSpec {
    type V = ServerView;

    open spec fn view(&self) -> ServerView {
        match self {
            ServerSpec::Stdio { command, args, env, cwd } => ServerView::Stdio {
                command: command@,
                args: texts(args@),
                env: text_pairs(env@),
                cwd: match cwd {
                    Some(d) => Some(d@),
                    None => None,
                },
            },
            ServerSpec::Http { url, headers } => ServerView::Http {
                url: url@,
                headers: text_pairs(headers@),
            },
        }
    }
}

/// The entries whose value is a text, in their order.
pub open spec fn text_entries(s: Seq<(Seq<char>, JsonView)>) -> Seq<(Seq<char>, Seq<char>)>
    decreases s.len(),
{
    if s.len() == 0 {
        Seq::empty()
    } else {
        match s.last().1.as_text() {
            Some(t) => text_entries(s.drop_last()).push((s.last().0, t)),
            None => text_entries(s.drop_last()),
        }
    }
}

/// The members of the object `key` whose value is a text, by their keys.
pub open spec fn text_members(v: JsonView, key: Seq<char>) -> Seq<(Seq<char>, Seq<char>)> {
    match v.get(key) {
        Some(o) => text_entries(sorted_members(o)),
        None => Seq::empty(),
    }
}

/// The items that are texts, in their order.
pub open spec fn text_items(s: Seq<JsonView>) -> Seq<Seq<char>>
    decreases s.len(),
{
    if s.len() == 0 {
        Seq::empty()
    } else {
        match s.last().as_text() {
            Some(t) => text_items(s.drop_last()).push(t),
            None => text_items(s.drop_last()),
        }
    }
}

fn text_members_of(v: &Json, key: &str) -> (r: Vec<(String, String)>)
    ensures
        text_pairs(r@) == text_members(v@, key@),
{
    let mut out: Vec<(String, String)> = Vec::new();
    assert(text_pairs(out@) =~= Seq::empty());
    let o = match v.get(key) {
        Some(o) => o,
        None => return out,
    };
    let list = o.members();
    let ghost exec_listed = in_order(list@);
    let ghost listed = sorted_members(o@);
    let n: usize = list.len();
    let mut i: usize = 0;
    assert(listed.take(0) =~= Seq::empty());
    while i < n
        invariant
            i <= n,
            n == exec_listed.len(),
            exec_listed == in_order(list@),
            listed == pair_views(exec_listed),
            text_pairs(out@) == text_entries(listed.take(i as int)),
        decreases n - i,
    {
        let (k, value) = list.at(i);
        assert(listed[i as int] == (k@, value@));
        assert(listed.take(i + 1).drop_last() =~= listed.take(i as int));
        assert(listed.take(i + 1).last() == listed[i as int]);
        if let Some(t) = value.as_text() {
            let p = (k.clone(), t.to_owned());
            assert(text_pairs(out@.push(p)) =~= text_pairs(out@).push((p.0@, p.1@)));
            out.push(p);
        }
        i += 1;
    }
    assert(listed.take(n as int) =~= listed);
    out
}

/// The items that are texts, in their order.
pub fn text_items_of(s: &Vec<Json>) -> (r: Vec<String>)
    ensures
        texts(r@) == text_items(item_views(s@)),
{
    let ghost views = item_views(s@);
    let mut out: Vec<String> = Vec::new();
    let mut i: usize = 0;
    assert(texts(out@) =~= Seq::empty());
    while i < s.len()
        invariant
            i <= s.len(),
            views == item_views(s@),
            texts(out@) == text_items(views.take(i as int)),
        decreases s.len() - i,
    {
        assert(views.take(i + 1).drop_last() =~= views.take(i as int));
        assert(views.take(i + 1).last() == s@[i as int]@);
        if let Some(t) = s[i].as_text() {
            let t = t.to_owned();
            assert(texts(out@.push(t)) =~= texts(out@).push(t@));
            out.push(t);
        }
        i += 1;
    }
    assert(views.take(s.len() as int) =~= views);
    out
}

// ---------------------------------------------------------------------------
// Addresses
// ---------------------------------------------------------------------------

/// Whether `p` is a decimal numeral of one octet of an IPv4 address: one to three
/// digits, no leading zero, at most 255.
pub open spec fn is_octet(p: Seq<char>) -> bool {
    &&& 1 <= p.len() <= 3
    &&& forall|i: int| 0 <= i < p.len() ==> '0' <= #[trigger] p[i] <= '9'
    &&& p.len() > 1 ==> p[0] != '0'
    &&& octet_value(p) <= 255
}

/// The value of a decimal numeral.
pub open spec fn octet_value(p: Seq<char>) -> int
    decreases p.len(),
{
    if p.len() == 0 {
        0
    } else {
        octet_value(p.drop_last()) * 10 + (p.last() as int - '0' as int)
    }
}

/// Whether `host` is an IPv4 address of the loopback network.
pub open spec fn is_loopback_v4(host: Seq<char>) -> bool {
    let p = pieces(host, '.');
    &&& p.len() == 4
    &&& forall|i: int| 0 <= i < 4 ==> is_octet(#[trigger] p[i])
    &&& octet_value(p[0]) == 127
}

/// Whether `host` names the machine itself.
pub open spec fn is_loopback(host: Seq<char>) -> bool {
    host == "localhost"@ || host == "::1"@ || is_loopback_v4(host)
}

fn octet_of(p: &str) -> (r: Option<u16>)
    ensures
        match r {
            Some(v) => is_octet(p@) && v == octet_value(p@),
            None => !is_octet(p@),
        },
{
    let cs = chars_of(p);
    if cs.len() == 0 || cs.len() > 3 {
        return None;
    }
    let mut v: u16 = 0;
    let mut i: usize = 0;
    while i < cs.len()
        invariant
            i <= cs.len() <= 3,
            cs@ == p@,
            v == octet_value(cs@.take(i as int)),
            i == 0 ==> v == 0,
            i == 1 ==> v <= 9,
            i == 2 ==> v <= 99,
            i == 3 ==> v <= 999,
            forall|k: int| 0 <= k < i ==> '0' <= #[trigger] cs@[k] <= '9',
        decreases cs.len() - i,
    {
        let c: char = cs[i];
        if c < '0' || '9' < c {
            assert(!('0' <= p@[i as int] <= '9'));
            return None;
        }
        assert(cs@.take(i + 1).drop_last() =~= cs@.take(i as int));
        v = v * 10 + (c as u8 - 48) as u16;
        i += 1;
    }
    assert(cs@.take(cs.len() as int) =~= cs@);
    if cs.len() > 1 && cs[0] == '0' {
        return None;
    }
    if v > 255 {
        return None;
    }
    Some(v)
}

fn loopback_v4(host: &str) -> (r: bool)
    ensures
        r == is_loopback_v4(host@),
{
    let parts = split_on(host, '.');
    let ghost p = pieces(host@, '.');
    assert(p.len() == parts.len());
    if parts.len() != 4 {
        return false;
    }
    assert(p[0] == parts@[0]@ && p[1] == parts@[1]@ && p[2] == parts@[2]@ && p[3] == parts@[3]@);
    let first = octet_of(parts[0].as_str());
    let rest = octet_of(parts[1].as_str()).is_some() && octet_of(parts[2].as_str()).is_some()
        && octet_of(parts[3].as_str()).is_some();
    match first {
        Some(v) => {
            if rest {
                assert forall|i: int| 0 <= i < 4 implies is_octet(#[trigger] p[i]) by {}
                v == 127
            } else {
                false
            }
        },
        None => false,
    }
}

/// What a tool server's URL is refused with, if it is: HTTPS goes to any host and
/// plain HTTP to the machine itself only, unless every URL is allowed.
pub open spec fn url_refusal(url: Seq<char>, allow_any: bool) -> Option<Seq<char>> {
    if allow_any || begins_with(url, "https://"@) {
        None
    } else {
        match after_prefix(url, "http://"@) {
            None => Some("mcp server url must be http(s)"@),
            Some(rest) => if is_loopback(host(rest)) {
                None
            } else {
                Some("mcp server url "@ + url + URL_REFUSED@)
            },
        }
    }
}

/// The end of the refusal of a URL.
pub const URL_REFUSED: &'static str = " refused: plain http is loopback-only \
             (set MCP_ALLOW_ANY_URL=1 to override)";

/// Whether a tool server may be reached at `url`. `allow_any` allows every URL.
pub fn mcp_http_url_allowed(url: &str, allow_any: bool) -> (r: Result<(), String>)
    ensures
        match r {
            Ok(_) => url_refusal(url@, allow_any) is None,
            Err(e) => url_refusal(url@, allow_any) == Some(e@),
        },
{
    if allow_any {
        return Ok(());
    }
    if starts_with(url, "https://") {
        return Ok(());
    }
    let rest = match strip_prefix(url, "http://") {
        Some(r) => r,
        None => return Err("mcp server url must be http(s)".to_owned()),
    };
    let host = find_host(find_host_and_port(rest.as_str()).as_str());
    if same_text(host.as_str(), "localhost") || same_text(host.as_str(), "::1") || loopback_v4(
        host.as_str(),
    ) {
        Ok(())
    } else {
        let mut e = "mcp server url ".to_owned();
        e.append(url);
        e.append(URL_REFUSED);
        Err(e)
    }
}

// ---------------------------------------------------------------------------
// Calls
// ---------------------------------------------------------------------------

/// The server that `spec` describes.
pub open spec fn server_in(spec: JsonView, allow_any: bool) -> Result<ServerView, Seq<char>> {
    match spec.text_at("url"@) {
        Some(url) => match url_refusal(url, allow_any) {
            Some(e) => Err(e),
            None => Ok(ServerView::Http { url, headers: text_members(spec, "headers"@) }),
        },
        None => match spec.text_at("command"@) {
            Some(command) => Ok(
                ServerView::Stdio {
                    command,
                    args: match spec.array_at("args"@) {
                        Some(a) => text_items(a),
                        None => Seq::empty(),
                    },
                    env: text_members(spec, "env"@),
                    cwd: spec.text_at("cwd"@),
                },
            ),
            None => Err("server spec needs `command` or `url`"@),
        },
    }
}

/// The server `name` of the parsed server map.
pub open spec fn server_named(servers: JsonView, name: Seq<char>, allow_any: bool) -> Result<ServerView, Seq<char>> {
    match servers.get(name) {
        None => Err("mcp server `"@ + name + "` not in MCP_SERVERS"@),
        Some(spec) => server_in(spec, allow_any),
    }
}

/// The server `name` of the server map with the text `raw`, if there is a map.
pub open spec fn server_of(raw: Option<Seq<char>>, name: Seq<char>, allow_any: bool) -> Result<ServerView, Seq<char>> {
    match raw {
        None => Err("MCP_SERVERS not configured on the daemon"@),
        Some(text) => match reading(text) {
            Err(e) => Err("MCP_SERVERS is not JSON: "@ + e),
            Ok(servers) => server_named(servers, name, allow_any),
        },
    }
}

/// Whether a server is the one that `v` says, an error by its characters.
pub open spec fn same_server(r: Result<ServerSpec, String>, v: Result<ServerView, Seq<char>>) -> bool {
    match r {
        Ok(s) => v == Ok::<ServerView, Seq<char>>(s@),
        Err(e) => v == Err::<ServerView, Seq<char>>(e@),
    }
}

/// The server `name` of the parsed server map.
pub fn find_server(servers: &Json, name: &str, allow_any: bool) -> (r: Result<ServerSpec, String>)
    ensures
        same_server(r, server_named(servers@, name@, allow_any)),
{
    let spec = match servers.get(name) {
        Some(s) => s,
        None => {
            let mut e = "mcp server `".to_owned();
            e.append(name);
            e.append("` not in MCP_SERVERS");
            return Err(e);
        },
    };
    if let Some(url) = spec.text_at("url") {
        return match mcp_http_url_allowed(url, allow_any) {
            Ok(_) => Ok(
                ServerSpec::Http { url: url.to_owned(), headers: text_members_of(spec, "headers") },
            ),
            Err(e) => Err(e),
        };
    }
    let command = match spec.text_at("command") {
        Some(c) => c.to_owned(),
        None => return Err("server spec needs `command` or `url`".to_owned()),
    };
    let args = match spec.array_at("args") {
        Some(a) => text_items_of(a),
        None => {
            let none: Vec<String> = Vec::new();
            assert(texts(none@) =~= Seq::empty());
            none
        },
    };
    let cwd = match spec.text_at("cwd") {
        Some(d) => Some(d.to_owned()),
        None => None,
    };
    Ok(ServerSpec::Stdio { command, args, env: text_members_of(spec, "env"), cwd })
}

/// The server `name` of the server map with the text `raw`, if there is a map.
pub fn server_spec(raw: Option<&str>, name: &str, allow_any: bool) -> (r: Result<ServerSpec, String>)
    ensures
        same_server(
            r,
            server_of(
                match raw {
                    Some(t) => Some(t@),
                    None => None,
                },
                name@,
                allow_any,
            ),
        ),
{
    let text = match raw {
        Some(t) => t,
        None => return Err("MCP_SERVERS not configured on the daemon".to_owned()),
    };
    match parse(text) {
        Ok(servers) => find_server(&servers, name, allow_any),
        Err(e) => Err(join("MCP_SERVERS is not JSON: ", e.as_str())),
    }
}

/// A call that is ready to be made.
#[derive(Debug)]
pub struct ToolCall {
    pub server: ServerSpec,
    pub method: String,
    pub params: Json,
}

/// The value of a [`ToolCall`].
#[verifier::ext_equal]
pub struct ToolCallView {
    pub server: ServerView,
    pub method: Seq<char>,
    pub params: JsonView,
}

impl View for ToolCall {
    type V = ToolCallView;

    open spec fn view(&self) -> ToolCallView {
        ToolCallView { server: self.server@, method: self.method@, params: self.params@ }
    }
}

/// The method and the parameters that a payload's operation stands for.
pub open spec fn method_of(payload: JsonView) -> Result<(Seq<char>, JsonView), Seq<char>> {
    let op = match payload.text_at("op"@) {
        Some(op) => op,
        None => Seq::empty(),
    };
    if op == "mcp.list_tools"@ {
        Ok(("tools/list"@, JsonView::Object(Map::empty())))
    } else if op == "mcp.call_tool"@ {
        match payload.text_at("tool"@) {
            None => Err("missing `tool`"@),
            Some(tool) => Ok(
                (
                    "tools/call"@,
                    JsonView::Object(
                        map![
                            "name"@ => JsonView::Text(tool),
                            "arguments"@ => match payload.get("arguments"@) {
                                Some(a) => a,
                                None => JsonView::Object(Map::empty()),
                            },
                        ],
                    ),
                ),
            ),
        }
    } else if op == "mcp.read_resource"@ {
        match payload.text_at("uri"@) {
            None => Err("missing `uri`"@),
            Some(uri) => Ok(
                ("resources/read"@, JsonView::Object(map!["uri"@ => JsonView::Text(uri)])),
            ),
        }
    } else {
        Err("unknown mcp op "@ + op)
    }
}

fn method_for(payload: &Json) -> (r: Result<(String, Json), String>)
    ensures
        match r {
            Ok(m) => method_of(payload@) == Ok::<(Seq<char>, JsonView), Seq<char>>((m.0@, m.1@)),
            Err(e) => method_of(payload@) == Err::<(Seq<char>, JsonView), Seq<char>>(e@),
        },
{
    let op = match payload.text_at("op") {
        Some(op) => op.to_owned(),
        None => String::new(),
    };
    if same_text(op.as_str(), "mcp.list_tools") {
        Ok(("tools/list".to_owned(), members().object()))
    } else if same_text(op.as_str(), "mcp.call_tool") {
        match payload.text_at("tool") {
            None => Err("missing `tool`".to_owned()),
            Some(tool) => {
                let arguments = match payload.get("arguments") {
                    Some(a) => a.copy(),
                    None => members().object(),
                };
                Ok(
                    (
                        "tools/call".to_owned(),
                        members().put_text("name", tool).put("arguments", arguments).object(),
                    ),
                )
            },
        }
    } else if same_text(op.as_str(), "mcp.read_resource") {
        match payload.text_at("uri") {
            None => Err("missing `uri`".to_owned()),
            Some(uri) => Ok(
                ("resources/read".to_owned(), members().put_text("uri", uri).object()),
            ),
        }
    } else {
        Err(join("unknown mcp op ", op.as_str()))
    }
}

/// The call that a payload asks for; `server` is what the server map says of the
/// server that the payload names.
pub open spec fn call_for(payload: JsonView, server: Result<ServerView, Seq<char>>) -> Result<ToolCallView, Seq<char>> {
    match payload.text_at("server"@) {
        None => Err("missing `server`"@),
        Some(_) => match server {
            Err(e) => Err(e),
            Ok(server) => match method_of(payload) {
                Err(e) => Err(e),
                Ok((method, params)) => Ok(ToolCallView { server, method, params }),
            },
        },
    }
}

/// The server that a payload names.
pub open spec fn server_name(payload: JsonView) -> Seq<char> {
    match payload.text_at("server"@) {
        Some(name) => name,
        None => Seq::empty(),
    }
}

/// The call that a payload asks for; `raw` is the text of the server map, if
/// there is one.
pub fn prepare_call(payload: &Json, raw: Option<&str>, allow_any: bool) -> (r: Result<ToolCall, String>)
    ensures
        ({
            let map = match raw {
                Some(t) => Some(t@),
                None => None,
            };
            let v = call_for(payload@, server_of(map, server_name(payload@), allow_any));
            match r {
                Ok(c) => v == Ok::<ToolCallView, Seq<char>>(c@),
                Err(e) => v == Err::<ToolCallView, Seq<char>>(e@),
            }
        }),
{
    let name = match payload.text_at("server") {
        Some(n) => n,
        None => return Err("missing `server`".to_owned()),
    };
    let server = match server_spec(raw, name, allow_any) {
        Ok(s) => s,
        Err(e) => return Err(e),
    };
    match method_for(payload) {
        Ok(m) => Ok(ToolCall { server, method: m.0, params: m.1 }),
        Err(e) => Err(e),
    }
}

// ---------------------------------------------------------------------------
// Messages to a server
// ---------------------------------------------------------------------------

/// The parameters with which a session begins.
pub open spec fn hello_params() -> JsonView {
    JsonView::Object(
        map![
            "protocolVersion"@ => JsonView::Text("2025-03-26"@),
            "capabilities"@ => JsonView::Object(Map::empty()),
            "clientInfo"@ => JsonView::Object(
                map![
                    "name"@ => JsonView::Text("agentos-mcp"@),
                    "version"@ => JsonView::Text("0.1.0"@),
                ],
            ),
        ],
    )
}

/// The parameters with which a session begins.
pub fn initialize_params() -> (r: Json)
    ensures
        r@ == hello_params(),
{
    members().put_text("protocolVersion", "2025-03-26").put("capabilities", members().object()).put(
        "clientInfo",
        members().put_text("name", "agentos-mcp").put_text("version", "0.1.0").object(),
    ).object()
}

/// A request message.
pub open spec fn rpc_request(id: u64, method: Seq<char>, params: JsonView) -> JsonView {
    JsonView::Object(
        map![
            "jsonrpc"@ => JsonView::Text("2.0"@),
            "id"@ => JsonView::Uint(id),
            "method"@ => JsonView::Text(method),
            "params"@ => params,
        ],
    )
}

/// A request message.
pub fn request_message(id: u64, method: &str, params: Json) -> (r: Json)
    ensures
        r@ == rpc_request(id, method@, params@),
{
    members().put_text("jsonrpc", "2.0").put("id", Json::Uint(id)).put_text("method", method).put(
        "params",
        params,
    ).object()
}

/// The notification that a session has begun.
pub open spec fn initialized() -> JsonView {
    JsonView::Object(
        map![
            "jsonrpc"@ => JsonView::Text("2.0"@),
            "method"@ => JsonView::Text("notifications/initialized"@),
            "params"@ => JsonView::Object(Map::empty()),
        ],
    )
}

/// The notification that a session has begun.
pub fn initialized_message() -> (r: Json)
    ensures
        r@ == initialized(),
{
    members().put_text("jsonrpc", "2.0").put_text("method", "notifications/initialized").put(
        "params",
        members().object(),
    ).object()
}

/// What the message `v` answers the request `id` with, if it answers it.
pub open spec fn answer_in(v: JsonView, id: u64) -> Option<Result<JsonView, Seq<char>>> {
    if v.get("id"@) != Some(JsonView::Uint(id)) {
        None
    } else {
        match v.get("error"@) {
            Some(e) => Some(
                Err(
                    match e.text_at("message"@) {
                        Some(m) => m,
                        None => "remote error"@,
                    },
                ),
            ),
            None => Some(
                Ok(
                    match v.get("result"@) {
                        Some(x) => x,
                        None => JsonView::Null,
                    },
                ),
            ),
        }
    }
}

/// What the message `v` answers the request `id` with, if it answers it.
pub fn answer_of(v: &Json, id: u64) -> (r: Option<Result<Json, String>>)
    ensures
        match r {
            Some(a) => answer_in(v@, id) is Some && same_result_json(a, answer_in(v@, id)->0),
            None => answer_in(v@, id) is None,
        },
{
    let ours = match v.get("id") {
        Some(Json::Uint(n)) => *n == id,
        _ => false,
    };
    if !ours {
        return None;
    }
    match v.get("error") {
        Some(e) => match e.text_at("message") {
            Some(m) => Some(Err(m.to_owned())),
            None => Some(Err("remote error".to_owned())),
        },
        None => match v.get("result") {
            Some(x) => Some(Ok(x.copy())),
            None => Some(Ok(Json::Null)),
        },
    }
}

/// The message in one line of a body: what follows "data:", or the whole line.
pub open spec fn line_message(line: Seq<char>) -> Option<JsonView> {
    match after_prefix(line, "data:"@) {
        Some(rest) => parsed(trimmed(rest)),
        None => parsed(line),
    }
}

/// The first answer to the request `id` in the lines of a body.
pub open spec fn answer_in_lines(body: Seq<Seq<char>>, id: u64) -> Option<Result<JsonView, Seq<char>>>
    decreases body.len(),
{
    if body.len() == 0 {
        None
    } else {
        let first = match line_message(body[0]) {
            Some(v) => answer_in(v, id),
            None => None,
        };
        if first is Some {
            first
        } else {
            answer_in_lines(body.skip(1), id)
        }
    }
}

/// The answer to the request `id` in a body that is a JSON text or a stream of
/// events.
pub fn extract_response(body: &str, id: u64) -> (r: Option<Result<Json, String>>)
    ensures
        match r {
            Some(a) => answer_in_lines(lines_of(body@), id) is Some && same_result_json(
                a,
                answer_in_lines(lines_of(body@), id)->0,
            ),
            None => answer_in_lines(lines_of(body@), id) is None,
        },
{
    let list = lines(body);
    let ghost views = lines_of(body@);
    let mut i: usize = 0;
    assert(views.skip(0) =~= views);
    while i < list.len()
        invariant
            i <= list.len(),
            views == texts(list@),
            views == lines_of(body@),
            answer_in_lines(views, id) == answer_in_lines(views.skip(i as int), id),
        decreases list.len() - i,
    {
        assert(views.skip(i as int)[0] == list@[i as int]@);
        let found = match strip_prefix(list[i].as_str(), "data:") {
            Some(rest) => Json::from_text(trim(rest.as_str()).as_str()),
            None => Json::from_text(list[i].as_str()),
        };
        if let Some(v) = found {
            if let Some(a) = answer_of(&v, id) {
                return Some(a);
            }
        }
        assert(views.skip(i as int).skip(1) =~= views.skip(i + 1));
        i += 1;
    }
    None
}

// ---------------------------------------------------------------------------
// Results
// ---------------------------------------------------------------------------

/// What the answer to the greeting over HTTP tells against the server, if anything: a
/// greeting without an answer is let pass.
pub open spec fn greeting_failure(body: Seq<char>) -> Option<Seq<char>> {
    match answer_in_lines(lines_of(body), 1) {
        Some(Err(e)) => Some("mcp_initialize: "@ + e),
        _ => None,
    }
}

/// Takes the answer to the greeting over HTTP, which is the message 1 of a call.
pub fn check_greeting(body: &str) -> (r: Result<(), String>)
    ensures
        match r {
            Ok(()) => greeting_failure(body@) is None,
            Err(e) => greeting_failure(body@) == Some(e@),
        },
{
    match extract_response(body, 1) {
        Some(Err(e)) => Err(join("mcp_initialize: ", e.as_str())),
        _ => Ok(()),
    }
}

/// The result of a call over HTTP, `body` being the answer to its message 2.
pub open spec fn http_result(method: Seq<char>, body: Seq<char>) -> Result<JsonView, Seq<char>> {
    match answer_in_lines(lines_of(body), 2) {
        Some(Ok(v)) => Ok(v),
        Some(Err(e)) => Err(method + ": "@ + e),
        None => Err("mcp_http: no response frame"@),
    }
}

/// Takes the answer to a call over HTTP, which is the message 2 after the greeting.
pub fn take_result(method: &str, body: &str) -> (r: Result<Json, String>)
    ensures
        same_result_json(r, http_result(method@, body@)),
{
    match extract_response(body, 2) {
        Some(Ok(v)) => Ok(v),
        Some(Err(e)) => Err(join(join(method, ": ").as_str(), e.as_str())),
        None => Err("mcp_http: no response frame".to_owned()),
    }
}

/// What has come of a step of a call of a server over its standard streams.
#[derive(Debug)]
pub enum StdioEvent {
    /// The server was launched.
    Spawned(Result<(), String>),
    /// The server answered the greeting, and was told so.
    Initialized(Result<(), String>),
    /// The server answered the call.
    Called(Result<Json, String>),
}

/// What has come of a step of a call of a server over HTTP.
#[derive(Debug)]
pub enum HttpEvent {
    /// The call begins.
    Begun,
    /// The answer to the greeting was read.
    Greeted(Result<String, String>),
    /// The notice of the greeting was sent, whatever came of it.
    Noticed,
    /// The answer to the call was read.
    Called(Result<String, String>),
}

/// What a call of a server over its standard streams does next.
#[derive(Debug)]
pub enum CallAction {
    /// A message is sent that has an answer.
    Send(Json),
    /// The call has ended.
    Done(Result<Json, String>),
}

/// The value of a [`CallAction`].
pub enum CallActionView {
    Send(JsonView),
    Done(Result<JsonView, Seq<char>>),
}

impl View for CallAction {
    type V = CallActionView;

    open spec fn view(&self) -> CallActionView {
        match self {
            CallAction::Send(v) => CallActionView::Send(v@),
            CallAction::Done(Ok(v)) => CallActionView::Done(Ok(v@)),
            CallAction::Done(Err(e)) => CallActionView::Done(Err(e@)),
        }
    }
}

/// The headers of a request: the two that every request has, the configured ones, and
/// the session where there is one.
pub open spec fn headers_of(
    configured: Seq<(Seq<char>, Seq<char>)>,
    session: Option<Seq<char>>,
) -> Seq<(Seq<char>, Seq<char>)> {
    let always = seq![
        ("Content-Type"@, "application/json"@),
        ("Accept"@, "application/json, text/event-stream"@),
    ];
    match session {
        Some(id) => (always + configured).push(("Mcp-Session-Id"@, id)),
        None => always + configured,
    }
}

fn push_header(headers: &mut Vec<(String, String)>, name: &str, value: &str)
    ensures
        text_pairs(final(headers)@) == text_pairs(old(headers)@).push((name@, value@)),
{
    let header = (name.to_owned(), value.to_owned());
    assert(text_pairs(headers@.push(header)) =~= text_pairs(headers@).push((name@, value@)));
    headers.push(header);
}

/// The headers of a request: the configured ones come behind the two that every request
/// has, and the session that the greeting returned comes last.
pub fn request_headers(configured: &Vec<(String, String)>, session: Option<&str>) -> (r: Vec<
    (String, String),
>)
    ensures
        text_pairs(r@) == headers_of(
            text_pairs(configured@),
            match session {
                Some(id) => Some(id@),
                None => None,
            },
        ),
{
    let ghost always = seq![
        ("Content-Type"@, "application/json"@),
        ("Accept"@, "application/json, text/event-stream"@),
    ];
    let ghost more = text_pairs(configured@);
    let mut headers: Vec<(String, String)> = Vec::new();
    push_header(&mut headers, "Content-Type", "application/json");
    push_header(&mut headers, "Accept", "application/json, text/event-stream");
    assert(text_pairs(headers@) =~= always + more.take(0));
    let mut i: usize = 0;
    while i < configured.len()
        invariant
            i <= configured.len(),
            more == text_pairs(configured@),
            text_pairs(headers@) == always + more.take(i as int),
        decreases configured.len() - i,
    {
        assert((always + more.take(i as int)).push(more[i as int]) =~= always + more.take(i + 1));
        push_header(&mut headers, configured[i].0.as_str(), configured[i].1.as_str());
        i += 1;
    }
    assert(more.take(configured.len() as int) =~= more);
    if let Some(id) = session {
        push_header(&mut headers, "Mcp-Session-Id", id);
    }
    headers
}

/// What a call of a server over HTTP does next.
#[derive(Debug)]
pub enum HttpAction {
    /// A message is sent that has an answer.
    Send { headers: Vec<(String, String)>, message: Json },
    /// A message is sent, whatever comes of it.
    Notify { headers: Vec<(String, String)>, message: Json },
    /// The call has ended.
    Done(Result<Json, String>),
}

/// The value of a [`HttpAction`].
pub enum HttpActionView {
    Send { headers: Seq<(Seq<char>, Seq<char>)>, message: JsonView },
    Notify { headers: Seq<(Seq<char>, Seq<char>)>, message: JsonView },
    Done(Result<JsonView, Seq<char>>),
}

impl View for HttpAction {
    type V = HttpActionView;

    open spec fn view(&self) -> HttpActionView {
        match self {
            HttpAction::Send { headers, message } => HttpActionView::Send {
                headers: text_pairs(headers@),
                message: message@,
            },
            HttpAction::Notify { headers, message } => HttpActionView::Notify {
                headers: text_pairs(headers@),
                message: message@,
            },
            HttpAction::Done(Ok(v)) => HttpActionView::Done(Ok(v@)),
            HttpAction::Done(Err(e)) => HttpActionView::Done(Err(e@)),
        }
    }
}

/// What a call over HTTP does next: the server is greeted with the message 1, told that
/// it was understood, and then asked with the message 2. `session` is what the answer to
/// the greeting named as the session, and every message behind the greeting carries it.
/// An error of the transport says itself where it came about.
pub open spec fn http_step(
    event: HttpEvent,
    method: Seq<char>,
    params: JsonView,
    configured: Seq<(Seq<char>, Seq<char>)>,
    session: Option<Seq<char>>,
) -> HttpActionView {
    match event {
        HttpEvent::Begun => HttpActionView::Send {
            headers: headers_of(configured, None),
            message: rpc_request(1, "initialize"@, hello_params()),
        },
        HttpEvent::Greeted(Ok(body)) => match greeting_failure(body@) {
            Some(e) => HttpActionView::Done(Err(e)),
            None => HttpActionView::Notify {
                headers: headers_of(configured, session),
                message: initialized(),
            },
        },
        HttpEvent::Greeted(Err(e)) => HttpActionView::Done(Err(e@)),
        HttpEvent::Noticed => HttpActionView::Send {
            headers: headers_of(configured, session),
            message: rpc_request(2, method, params),
        },
        HttpEvent::Called(Ok(body)) => HttpActionView::Done(http_result(method, body@)),
        HttpEvent::Called(Err(e)) => HttpActionView::Done(Err(e@)),
    }
}

/// What a call over HTTP does next.
pub fn http_call(
    event: HttpEvent,
    method: &str,
    params: &Json,
    configured: &Vec<(String, String)>,
    session: Option<&str>,
) -> (r: HttpAction)
    ensures
        r@ == http_step(
            event,
            method@,
            params@,
            text_pairs(configured@),
            match session {
                Some(id) => Some(id@),
                None => None,
            },
        ),
{
    match event {
        HttpEvent::Begun => HttpAction::Send {
            headers: request_headers(configured, None),
            message: request_message(1, "initialize", initialize_params()),
        },
        HttpEvent::Greeted(Ok(body)) => match check_greeting(body.as_str()) {
            Ok(()) => HttpAction::Notify {
                headers: request_headers(configured, session),
                message: initialized_message(),
            },
            Err(e) => HttpAction::Done(Err(e)),
        },
        HttpEvent::Greeted(Err(e)) => HttpAction::Done(Err(e)),
        HttpEvent::Noticed => HttpAction::Send {
            headers: request_headers(configured, session),
            message: request_message(2, method, params.copy()),
        },
        HttpEvent::Called(Ok(body)) => HttpAction::Done(take_result(method, body.as_str())),
        HttpEvent::Called(Err(e)) => HttpAction::Done(Err(e)),
    }
}

/// Every message behind the greeting carries the session that the greeting returned.
pub proof fn sessions_are_carried(
    event: HttpEvent,
    method: Seq<char>,
    params: JsonView,
    configured: Seq<(Seq<char>, Seq<char>)>,
    session: Seq<char>,
)
    requires
        !(event is Begun),
    ensures
        match http_step(event, method, params, configured, Some(session)) {
            HttpActionView::Send { headers, .. } => headers.contains(("Mcp-Session-Id"@, session)),
            HttpActionView::Notify { headers, .. } => headers.contains(
                ("Mcp-Session-Id"@, session),
            ),
            HttpActionView::Done(_) => true,
        },
{
    let headers = headers_of(configured, Some(session));
    assert(headers.last() == ("Mcp-Session-Id"@, session));
}

/// What a call over the standard streams does next; the peer there numbers the messages.
pub open spec fn stdio_step(event: StdioEvent, method: Seq<char>, params: JsonView) -> CallActionView {
    match event {
        StdioEvent::Spawned(Ok(())) => CallActionView::Send(
            JsonView::Object(
                map!["method"@ => JsonView::Text("initialize"@), "params"@ => hello_params()],
            ),
        ),
        StdioEvent::Spawned(Err(e)) => CallActionView::Done(Err("mcp_spawn: "@ + e@)),
        StdioEvent::Initialized(Ok(())) => CallActionView::Send(
            JsonView::Object(map!["method"@ => JsonView::Text(method), "params"@ => params]),
        ),
        StdioEvent::Initialized(Err(e)) => CallActionView::Done(Err("mcp_initialize: "@ + e@)),
        StdioEvent::Called(Ok(v)) => CallActionView::Done(Ok(v@)),
        StdioEvent::Called(Err(e)) => CallActionView::Done(Err(method + ": "@ + e@)),
    }
}

/// What a call over the standard streams does next.
pub fn stdio_call(event: StdioEvent, method: &str, params: &Json) -> (r: CallAction)
    ensures
        r@ == stdio_step(event, method@, params@),
{
    match event {
        StdioEvent::Spawned(Ok(())) => CallAction::Send(
            members().put_text("method", "initialize").put("params", initialize_params()).object(),
        ),
        StdioEvent::Spawned(Err(e)) => CallAction::Done(Err(join("mcp_spawn: ", e.as_str()))),
        StdioEvent::Initialized(Ok(())) => CallAction::Send(
            members().put_text("method", method).put("params", params.copy()).object(),
        ),
        StdioEvent::Initialized(Err(e)) => CallAction::Done(
            Err(join("mcp_initialize: ", e.as_str())),
        ),
        StdioEvent::Called(Ok(v)) => CallAction::Done(Ok(v)),
        StdioEvent::Called(Err(e)) => CallAction::Done(
            Err(join(join(method, ": ").as_str(), e.as_str())),
        ),
    }
}

/// The texts of content items.
pub open spec fn content_texts(content: Seq<JsonView>) -> Seq<Seq<char>>
    decreases content.len(),
{
    if content.len() == 0 {
        Seq::empty()
    } else {
        match content.last().text_at("text"@) {
            Some(t) => content_texts(content.drop_last()).push(t),
            None => content_texts(content.drop_last()),
        }
    }
}

/// The texts of content items, one after the other with `sep` between them.
pub fn join_content(content: &Vec<Json>, sep: &str) -> (r: String)
    ensures
        r@ == joined(content_texts(item_views(content@)), sep@),
{
    let ghost views = item_views(content@);
    let mut out = String::new();
    let mut some: bool = false;
    let mut i: usize = 0;
    assert(views.take(0) =~= Seq::empty());
    while i < content.len()
        invariant
            i <= content.len(),
            views == item_views(content@),
            out@ == joined(content_texts(views.take(i as int)), sep@),
            some == (content_texts(views.take(i as int)).len() > 0),
        decreases content.len() - i,
    {
        let ghost before = content_texts(views.take(i as int));
        assert(views.take(i + 1).drop_last() =~= views.take(i as int));
        assert(views.take(i + 1).last() == content@[i as int]@);
        if let Some(t) = content[i].text_at("text") {
            assert(before.push(t@).drop_last() =~= before);
            if some {
                out.append(sep);
            } else {
                assert(out@ =~= Seq::empty());
                assert(Seq::<char>::empty() + t@ =~= t@);
            }
            out.append(t);
            some = true;
        }
        i += 1;
    }
    assert(views.take(content.len() as int) =~= views);
    out
}

/// The error that a failed tool call is reported with.
pub open spec fn failure_text(result: JsonView) -> Seq<char> {
    let told = match result.array_at("content"@) {
        Some(content) => trimmed(joined(content_texts(content), "\n"@)),
        None => trimmed(Seq::empty()),
    };
    if told.len() == 0 {
        "mcp_tool_error"@
    } else {
        "mcp_tool_error: "@ + told
    }
}

/// The error that a failed tool call is reported with.
pub fn tool_error(result: &Json) -> (r: String)
    ensures
        r@ == failure_text(result@),
{
    let all = match result.array_at("content") {
        Some(content) => join_content(content, "\n"),
        None => String::new(),
    };
    let told = trim(all.as_str());
    if told.as_str().unicode_len() == 0 {
        "mcp_tool_error".to_owned()
    } else {
        join("mcp_tool_error: ", told.as_str())
    }
}

/// The member `key` of a request, `Null` without one.
pub open spec fn or_null(request: JsonView, key: Seq<char>) -> JsonView {
    match request.get(key) {
        Some(v) => v,
        None => JsonView::Null,
    }
}

/// The request that a stored result names: the parts of the payload by which it
/// is told apart, and the rest of the plan that it belongs to.
pub open spec fn request_record(request: JsonView) -> JsonView {
    let base = JsonView::Object(
        map![
            "op"@ => or_null(request, "op"@),
            "server"@ => or_null(request, "server"@),
            "tool"@ => or_null(request, "tool"@),
            "arguments"@ => match request.get("arguments"@) {
                Some(a) => a,
                None => JsonView::Object(Map::empty()),
            },
        ],
    );
    let planned = match request.get("remaining_calls"@) {
        Some(calls) => base.with("remaining_calls"@, calls),
        None => base,
    };
    match request.get("final_output"@) {
        Some(output) => planned.with("final_output"@, output),
        None => planned,
    }
}

/// A tool's result with the request that it answers. A result that is no object
/// stands as a text.
pub open spec fn result_record(result: JsonView, request: JsonView) -> JsonView {
    let object = if result is Object {
        result
    } else {
        JsonView::Object(
            map![
                "content"@ => JsonView::Array(seq![
                    JsonView::Object(
                        map![
                            "type"@ => JsonView::Text("text"@),
                            "text"@ => JsonView::Text(printed(result)),
                        ],
                    ),
                ]),
            ],
        )
    };
    object.with("request"@, request_record(request))
}

fn member_or_null(request: &Json, key: &str) -> (r: Json)
    ensures
        r@ == or_null(request@, key@),
{
    match request.get(key) {
        Some(v) => v.copy(),
        None => Json::Null,
    }
}

/// A tool's result with the request that it answers.
pub fn result_document(result: &Json, request: &Json) -> (r: Json)
    ensures
        r@ == result_record(result@, request@),
{
    let mut object = if result.is_object() {
        result.copy()
    } else {
        let text = result.to_text();
        let item = members().put_text("type", "text").put_text("text", text.as_str()).object();
        members().put("content", items().push(item).array()).object()
    };
    let arguments = match request.get("arguments") {
        Some(a) => a.copy(),
        None => members().object(),
    };
    let mut record = members().put("op", member_or_null(request, "op")).put(
        "server",
        member_or_null(request, "server"),
    ).put("tool", member_or_null(request, "tool")).put("arguments", arguments).object();
    if let Some(calls) = request.get("remaining_calls") {
        record.set("remaining_calls", calls.copy());
    }
    if let Some(output) = request.get("final_output") {
        record.set("final_output", output.copy());
    }
    object.set("request", record);
    object
}

/// The text of a tool's result with the request that it answers.
pub fn encode_result(result: &Json, request: &Json) -> (r: String)
    ensures
        r@ == printed(result_record(result@, request@)),
{
    result_document(result, request).to_text()
}

/// What a call ends with: the text to store, or an error.
pub open spec fn call_outcome(payload: JsonView, result: Result<JsonView, Seq<char>>) -> Result<Seq<char>, Seq<char>> {
    match result {
        Err(e) => Err(e),
        Ok(v) => if v.get("isError"@) == Some(JsonView::Bool(true)) {
            Err(failure_text(v))
        } else {
            Ok(printed(result_record(v, payload)))
        },
    }
}

/// What the call for `payload` ends with, given the server's result.
pub fn finish_call(payload: &Json, result: Result<Json, String>) -> (r: Result<String, String>)
    ensures
        same_result_text(
            r,
            call_outcome(
                payload@,
                match result {
                    Ok(v) => Ok(v@),
                    Err(e) => Err(e@),
                },
            ),
        ),
{
    let v = match result {
        Ok(v) => v,
        Err(e) => return Err(e),
    };
    let failed = match v.get("isError") {
        Some(b) => match b.as_bool() {
            Some(x) => x,
            None => false,
        },
        None => false,
    };
    if failed {
        Err(tool_error(&v))
    } else {
        Ok(encode_result(&v, payload))
    }
}

/// The stored result of a planned call names its request in full, so that the plan
/// goes on from it.
pub proof fn plan_survives_the_record(
    result: JsonView,
    call: JsonView,
    rest: Seq<JsonView>,
    output: Seq<char>,
)
    requires
        call_payload(call) is Some,
    ensures
        ({
            let request = with_rest(call_payload(call)->0, rest, output);
            result_record(result, request).get("request"@) == Some(request)
        }),
{
    request_keys_differ();
    let p = call_payload(call)->0;
    let request = with_rest(p, rest, output);
    let record = request_record(request);
    assert(p->Object_0 =~= map![
        "op"@ => or_null(request, "op"@),
        "server"@ => or_null(request, "server"@),
        "tool"@ => or_null(request, "tool"@),
        "arguments"@ => p.get("arguments"@)->0,
    ]);
    assert(request.get("arguments"@) == p.get("arguments"@));
    assert(request.get("remaining_calls"@) == Some(JsonView::Array(rest)));
    assert(record->Object_0 =~= request->Object_0);
}

} // verus!
