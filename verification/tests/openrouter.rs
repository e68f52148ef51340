//! The model's decision loop and its effects.

use agent_os::base64::{data_uri, decode_data_uri};
use agent_os::contract::{ApprovalDraft, Decision, LoopInput};
use agent_os::effects::{status, ExecutionRequest, OpStore};
use agent_os::json::Json;
use agent_os::openrouter_effect::mcp::{
    check_greeting, encode_result, extract_response, find_server, finish_call, http_call, initialize_params,
    initialized_message, is_mcp_payload, mcp_http_url_allowed, prepare_call, request_headers, request_message,
    server_spec, stdio_call, take_result, tool_error, CallAction, HttpAction, HttpEvent, ServerSpec, StdioEvent,
};
use agent_os::openrouter_effect::{
    begin, chat_result, endpoint_allowed, finish, key_name_allowed, provider_text, read_config, with_key, Action,
    LlmConfig,
};
use agent_os::openrouter_loop::decide;
use agent_os::openrouter_loop::events::{
    events_doc, latest_mcp_request_hash, op_count, settled_effects,
};
use agent_os::openrouter_loop::plan::{
    exact_requested_output, next_planned_call, parse_mcp_call, parse_mcp_plan, planned_final_output,
    strip_fences,
};
use agent_os::openrouter_loop::prompt::{
    chat_request, mcp_follow_up_content, summarize_mcp_result,
};
use agent_os::openrouter_loop::request_hash;

fn doc(text: &str) -> Json {
    Json::from_text(text).expect("a document")
}

fn at<'a>(v: &'a Json, path: &[&str]) -> &'a Json {
    let mut here = v;
    for step in path {
        here = match step.parse::<usize>() {
            Ok(i) => &here.as_array().expect("an array")[i],
            Err(_) => here.get(step).expect("a member"),
        };
    }
    here
}

fn text<'a>(v: &'a Json, path: &[&str]) -> &'a str {
    at(v, path).as_text().expect("a text")
}

// MCP results

#[test]
fn encode_preserves_text_content_and_request() {
    let v = doc(r#"{"content": [{"type": "text", "text": "a"}, {"type": "text", "text": "b"}]}"#);
    let request = doc(
        r#"{"op": "mcp.call_tool", "server": "computer", "tool": "wait", "arguments": {"milliseconds": 50}}"#,
    );
    let encoded = doc(&encode_result(&v, &request));
    assert_eq!(at(&encoded, &["content"]).to_text(), at(&v, &["content"]).to_text());
    assert_eq!(at(&encoded, &["request"]).to_text(), request.to_text());
}

#[test]
fn encode_preserves_non_content_results() {
    let v = doc(r#"{"tools": [{"name": "echo"}]}"#);
    let encoded = doc(&encode_result(&v, &doc("{}")));
    assert_eq!(at(&encoded, &["tools"]).to_text(), at(&v, &["tools"]).to_text());
    assert!(at(&encoded, &["request"]).is_object());
}

#[test]
fn encode_preserves_mixed_content() {
    let value = doc(
        r#"{"content": [{"type": "text", "text": "captured"}, {"type": "image", "mimeType": "image/jpeg", "data": "abc"}]}"#,
    );
    let encoded = doc(&encode_result(&value, &doc("{}")));
    assert_eq!(at(&encoded, &["content"]).to_text(), at(&value, &["content"]).to_text());
}

#[test]
fn encode_wraps_plain_results() {
    assert_eq!(
        encode_result(&doc("[1,2]"), &doc(r#"{"server":"s","remaining_calls":[],"final_output":"x","other":1}"#)),
        r#"{"content":[{"text":"[1,2]","type":"text"}],"request":{"arguments":{},"final_output":"x","op":null,"remaining_calls":[],"server":"s","tool":null}}"#
    );
}

#[test]
fn tool_reported_errors_become_effect_errors() {
    let error = tool_error(&doc(
        r#"{"isError": true, "content": [{"type": "text", "text": "window unavailable"}]}"#,
    ));
    assert_eq!(error, "mcp_tool_error: window unavailable");
    assert_eq!(tool_error(&doc(r#"{"isError": true}"#)), "mcp_tool_error");
}

#[test]
fn extract_plain_json_response() {
    let body = r#"{"jsonrpc":"2.0","id":2,"result":{"ok":true}}"#;
    let found = extract_response(body, 2).expect("a response").expect("a result");
    assert_eq!(found.to_text(), r#"{"ok":true}"#);
}

#[test]
fn extract_sse_framed_response() {
    let body = "event: message\ndata: {\"jsonrpc\":\"2.0\",\"id\":1,\"result\":{}}\n\ndata: {\"jsonrpc\":\"2.0\",\"id\":2,\"result\":{\"v\":1}}\n\n";
    let found = extract_response(body, 2).expect("a response").expect("a result");
    assert_eq!(found.to_text(), r#"{"v":1}"#);
}

#[test]
fn extract_remote_error() {
    let body = r#"{"jsonrpc":"2.0","id":2,"error":{"code":-32601,"message":"no such method"}}"#;
    assert_eq!(
        extract_response(body, 2).expect("a response").err(),
        Some("no such method".to_string())
    );
    let silent = r#"{"id":2,"error":{}}"#;
    assert_eq!(
        extract_response(silent, 2).expect("a response").err(),
        Some("remote error".to_string())
    );
    assert!(extract_response(body, 3).is_none());
    assert!(extract_response("", 2).is_none());
}

#[test]
fn mcp_payload_detection() {
    assert!(is_mcp_payload(&doc(r#"{"op": "mcp.call_tool"}"#)));
    assert!(!is_mcp_payload(&doc(r#"{"model": "x"}"#)));
    assert!(!is_mcp_payload(&doc(r#"{"op": "model.chat"}"#)));
}

#[test]
fn http_url_policy() {
    assert!(mcp_http_url_allowed("https://mcp.example.com/x", false).is_ok());
    assert!(mcp_http_url_allowed("http://127.0.0.1:8080/mcp", false).is_ok());
    assert!(mcp_http_url_allowed("http://localhost/mcp", false).is_ok());
    assert!(mcp_http_url_allowed("http://169.254.169.254/meta", false).is_err());
    assert!(mcp_http_url_allowed("file:///etc/passwd", false).is_err());
}

#[test]
fn http_url_policy_at_the_edges() {
    let ok = |url: &str| mcp_http_url_allowed(url, false).is_ok();
    assert!(ok("http://127.255.0.9"));
    assert!(ok("http://user@127.0.0.1/x"));
    assert!(ok("http://[::1]:8080/mcp"));
    assert!(ok("http://[::1]/mcp"));
    assert!(ok("http://user:pw@[::1]"));
    assert!(!ok("http://[::2]:8080/mcp"));
    assert!(!ok("http://[::1].evil/x"));
    assert!(!ok("http://[::1"));
    assert!(!ok("http://::1/x"));
    assert!(!ok("http://evil.example?127.0.0.1"));
    assert!(!ok("http://127.0.0.1@evil.example/x"));
    assert!(!ok("http://127.0.0.01/x"));
    assert!(!ok("http://127.0.0.256/x"));
    assert!(!ok("http://127.0.0/x"));
    assert!(!ok("http://128.0.0.1/x"));
    assert!(!ok("http://localhost.example/x"));
    assert_eq!(
        mcp_http_url_allowed("ftp://x", false),
        Err("mcp server url must be http(s)".to_string())
    );
    assert_eq!(
        mcp_http_url_allowed("http://evil/x", false),
        Err("mcp server url http://evil/x refused: plain http is loopback-only (set MCP_ALLOW_ANY_URL=1 to override)".to_string())
    );
    assert!(mcp_http_url_allowed("http://evil/x", true).is_ok());
}

#[test]
fn servers_are_found_in_the_settings() {
    let servers = doc(
        r#"{"echo":{"command":"echo-mcp","args":["-v",3],"env":{"B":"2","A":"1","C":4},"cwd":"/w"},
            "remote":{"url":"https://h/mcp","headers":{"X":"y"}},
            "far":{"url":"http://far/mcp"},
            "none":{}}"#,
    );
    match find_server(&servers, "echo", false).expect("a server") {
        ServerSpec::Stdio { command, args, env, cwd } => {
            assert_eq!(command, "echo-mcp");
            assert_eq!(args, ["-v"]);
            assert_eq!(env, [("A".to_string(), "1".to_string()), ("B".to_string(), "2".to_string())]);
            assert_eq!(cwd.as_deref(), Some("/w"));
        }
        other => panic!("not a program: {other:?}"),
    }
    match find_server(&servers, "remote", false).expect("a server") {
        ServerSpec::Http { url, headers } => {
            assert_eq!(url, "https://h/mcp");
            assert_eq!(headers, [("X".to_string(), "y".to_string())]);
        }
        other => panic!("not remote: {other:?}"),
    }
    assert!(find_server(&servers, "far", false).is_err());
    assert!(find_server(&servers, "far", true).is_ok());
    assert_eq!(
        find_server(&servers, "none", false).err(),
        Some("server spec needs `command` or `url`".to_string())
    );
    assert_eq!(
        find_server(&servers, "ghost", false).err(),
        Some("mcp server `ghost` not in MCP_SERVERS".to_string())
    );
    assert_eq!(
        server_spec(None, "echo", false).err(),
        Some("MCP_SERVERS not configured on the daemon".to_string())
    );
    assert_eq!(
        server_spec(Some("[1"), "echo", false).err(),
        Some("MCP_SERVERS is not JSON: EOF while parsing a list at line 1 column 2".to_string())
    );
}

#[test]
fn calls_are_prepared() {
    let raw = r#"{"echo":{"command":"echo-mcp"}}"#;
    let call = prepare_call(
        &doc(r#"{"op":"mcp.call_tool","server":"echo","tool":"echo","arguments":{"text":"mcp-ok"}}"#),
        Some(raw),
        false,
    )
    .expect("a call");
    assert_eq!(call.method, "tools/call");
    assert_eq!(call.params.to_text(), r#"{"arguments":{"text":"mcp-ok"},"name":"echo"}"#);
    let list = prepare_call(&doc(r#"{"op":"mcp.list_tools","server":"echo"}"#), Some(raw), false)
        .expect("a call");
    assert_eq!((list.method.as_str(), list.params.to_text().as_str()), ("tools/list", "{}"));
    let read = prepare_call(
        &doc(r#"{"op":"mcp.read_resource","server":"echo","uri":"echo://hello"}"#),
        Some(raw),
        false,
    )
    .expect("a call");
    assert_eq!(read.method, "resources/read");
    let error = |payload: &str| prepare_call(&doc(payload), Some(raw), false).err().expect("an error");
    assert!(error(r#"{"op":"mcp.list_tools","server":"ghost"}"#).contains("not in MCP_SERVERS"));
    assert_eq!(error(r#"{"op":"mcp.list_tools"}"#), "missing `server`");
    assert_eq!(error(r#"{"op":"mcp.call_tool","server":"echo"}"#), "missing `tool`");
    assert_eq!(error(r#"{"op":"mcp.read_resource","server":"echo"}"#), "missing `uri`");
    assert_eq!(error(r#"{"op":"mcp.fly","server":"echo"}"#), "unknown mcp op mcp.fly");
}

#[test]
fn call_messages_have_their_form() {
    assert_eq!(
        initialize_params().to_text(),
        r#"{"capabilities":{},"clientInfo":{"name":"agentos-mcp","version":"0.1.0"},"protocolVersion":"2025-03-26"}"#
    );
    assert_eq!(
        initialized_message().to_text(),
        r#"{"jsonrpc":"2.0","method":"notifications/initialized","params":{}}"#
    );
    assert_eq!(
        request_message(2, "ping", doc("{}")).to_text(),
        r#"{"id":2,"jsonrpc":"2.0","method":"ping","params":{}}"#
    );
}

#[test]
fn finished_calls_are_recorded_with_their_request() {
    let payload = doc(r#"{"op":"mcp.call_tool","server":"s","tool":"t"}"#);
    assert_eq!(
        finish_call(&payload, Ok(doc(r#"{"isError":true,"content":[{"text":"no"}]}"#))),
        Err("mcp_tool_error: no".to_string())
    );
    assert_eq!(finish_call(&payload, Err("mcp_http: x".to_string())), Err("mcp_http: x".to_string()));
    let text = finish_call(&payload, Ok(doc(r#"{"content":[]}"#))).expect("a text");
    assert_eq!(
        text,
        r#"{"content":[],"request":{"arguments":{},"op":"mcp.call_tool","server":"s","tool":"t"}}"#
    );
}

// Model effects

fn config() -> LlmConfig {
    read_config(None, false, Some("key"), None).expect("a configuration")
}

fn request(operation: &str, payload: &str) -> ExecutionRequest {
    ExecutionRequest {
        effect_id: "eff-1".to_string(),
        operation_id: operation.to_string(),
        request_hash: "h".to_string(),
        fencing_token: 1,
        payload: payload.as_bytes().to_vec(),
    }
}

fn failure(action: Option<Action>) -> String {
    match action {
        Some(Action::Respond(r)) => {
            assert_eq!(r.status, "failed");
            r.error_code
        }
        other => panic!("no failure: {other:?}"),
    }
}

#[test]
fn provider_endpoints() {
    assert!(endpoint_allowed("https://openrouter.ai/api/v1").is_ok());
    assert!(endpoint_allowed("https://eu.openrouter.ai:443/api").is_ok());
    assert!(endpoint_allowed("https://user:pw@openrouter.ai/api").is_ok());
    assert!(endpoint_allowed("https://openrouter.ai?x=/").is_ok());
    for bad in [
        "http://openrouter.ai/api",
        "https://evil-openrouter.ai/",
        "https://openrouter.ai.evil/",
        "https://evil/openrouter.ai",
        "https://openrouter.ai:x@evil.com/v1",
        "https://openrouter.ai@evil.com",
        "https://evil.com#.openrouter.ai",
        "https://evil.com?.openrouter.ai",
        "https://evil.com/@openrouter.ai",
        "https://[openrouter.ai]/v1",
        "https://[::1]:443.openrouter.ai",
        "",
    ] {
        assert_eq!(
            endpoint_allowed(bad),
            Err("must be https on openrouter.ai".to_string()),
            "{bad}"
        );
    }
}

#[test]
fn key_names() {
    assert!(key_name_allowed("PROVIDER_KEY_A1_B"));
    assert!(!key_name_allowed("PROVIDER_KEY_"));
    assert!(!key_name_allowed("PROVIDER_KEY_a"));
    assert!(!key_name_allowed("HOME"));
}

#[test]
fn model_calls_are_prepared() {
    let store = OpStore::new();
    let req = request("op", r#"{"messages":[],"base_url":"https://openrouter.ai/x/"}"#);
    match begin(&store, &req, &config()) {
        Some(Action::CallModel { url, api_key, body }) => {
            assert_eq!(url, "https://openrouter.ai/x/chat/completions");
            assert_eq!(api_key, "key");
            assert_eq!(body.to_text(), r#"{"messages":[],"model":"openrouter/free"}"#);
        }
        other => panic!("no call: {other:?}"),
    }
    let fails = |payload: &str| failure(begin(&store, &request("op", payload), &config()));
    assert_eq!(fails("nonsense"), "invalid_argument");
    assert_eq!(fails("{}"), "invalid_argument");
    assert_eq!(fails("null"), "invalid_argument");
    assert_eq!(
        fails(r#"{"base_url":"https://evil"}"#),
        "base_url must be https on openrouter.ai"
    );
    assert_eq!(fails(r#"{"api_key_env":"HOME"}"#), "api_key_env_invalid");
    assert!(begin(&store, &request("op", "3"), &config()).is_none());
    let keyless = read_config(None, false, None, None).expect("a configuration");
    assert_eq!(
        failure(begin(&store, &request("op", r#"{"messages":[]}"#), &keyless)),
        "missing_openrouter_api_key"
    );
    match begin(&store, &request("op", r#"{"op":"mcp.list_tools"}"#), &keyless) {
        Some(Action::CallTool { payload }) => assert_eq!(payload.to_text(), r#"{"op":"mcp.list_tools"}"#),
        other => panic!("no tool: {other:?}"),
    }
}

#[test]
fn keys_are_named_by_the_request() {
    let store = OpStore::new();
    let req = request("op", r#"{"messages":[],"api_key_env":"PROVIDER_KEY_X"}"#);
    let Some(Action::ReadKey { name, base_url, payload }) = begin(&store, &req, &config()) else {
        panic!("a key is to be read");
    };
    assert_eq!(name, "PROVIDER_KEY_X");
    match with_key(&req, &config(), &payload, &base_url, &name, Some("secret")) {
        Some(Action::CallModel { api_key, body, .. }) => {
            assert_eq!(api_key, "secret");
            assert!(body.get("api_key_env").is_none());
        }
        other => panic!("no call: {other:?}"),
    }
    assert_eq!(
        failure(with_key(&req, &config(), &payload, &base_url, &name, None)),
        "api_key_env PROVIDER_KEY_X not set"
    );
    assert_eq!(
        failure(with_key(&req, &config(), &payload, &base_url, &name, Some(""))),
        "api_key_env PROVIDER_KEY_X not set"
    );
}

#[test]
fn a_finished_operation_is_replayed() {
    let mut store = OpStore::new();
    let req = request("op-1", r#"{"messages":[]}"#);
    assert_eq!(status(&store, "op-1").status, "not_found");
    let failed = finish(&mut store, &req, Err("provider_unreachable".to_string()));
    assert_eq!((failed.status.as_str(), failed.error_code.as_str()), ("failed", "provider_unreachable"));
    assert_eq!(status(&store, "op-1").status, "not_found");
    let done = finish(&mut store, &req, Ok("hi".to_string()));
    assert_eq!(done.result_ref, "data:text/plain;base64,aGk=");
    assert_eq!(status(&store, "op-1").result_ref, done.result_ref);
    match begin(&store, &request("op-1", "nonsense"), &config()) {
        Some(Action::Respond(r)) => {
            assert_eq!(r.status, "succeeded");
            assert_eq!(r.result_ref, done.result_ref);
        }
        other => panic!("not replayed: {other:?}"),
    }
}

#[test]
fn provider_replies_are_read() {
    let read = |s: &str| provider_text(&doc(s));
    assert_eq!(read(r#"{"choices":[{"message":{"content":"hi"}}]}"#), Ok("hi".to_string()));
    assert_eq!(
        read(r#"{"choices":[{"message":{"content":[{"text":"a"},{"x":1},{"text":"b"}]}}]}"#),
        Ok("ab".to_string())
    );
    assert_eq!(
        read(r#"{"choices":[{"message":{"content":[],"reasoning":"r"}}]}"#),
        Ok("r".to_string())
    );
    for bad in [r#"{}"#, r#"{"choices":[]}"#, r#"{"choices":[{"message":{"reasoning":""}}]}"#, "[]"] {
        assert_eq!(read(bad), Err("provider_bad_response".to_string()), "{bad}");
    }
}

// Plans

const PLAN: &str = r#"{"mcp_plan": {"calls": [
    {"server": "computer", "tool": "screenshot", "arguments": {}},
    {"server": "computer", "tool": "wait", "arguments": {"milliseconds": 500}},
    {"server": "computer", "tool": "screenshot", "arguments": {}}],
    "final_output": "ignored"}}"#;

fn finished(request: &Json) -> String {
    format!(r#"{{"request":{},"content":[]}}"#, request.to_text())
}

#[test]
fn required_computer_prompt_requires_an_ordered_plan() {
    let request = chat_request("openrouter/free", "inspect the screen", true, true);
    let system = text(&request, &["messages", "0", "content"]);
    assert!(system.contains("\"mcp_plan\""));
    assert!(system.contains("every requested computer action in order"));
    assert!(system.contains("instead of narrating or claiming the action"));
}

#[test]
fn planned_computer_calls_continue_without_another_model_turn() {
    let first = parse_mcp_plan(
        PLAN,
        "Take a screenshot, wait 500 ms, take another screenshot, then say exactly COMPUTER_SEQUENCE_OK.",
    )
    .expect("plan");
    assert_eq!(text(&first, &["tool"]), "screenshot");
    assert_eq!(first.array_at("remaining_calls").expect("calls").len(), 2);
    assert_eq!(text(&first, &["final_output"]), "COMPUTER_SEQUENCE_OK");

    assert_eq!(text(&first, &["remaining_calls", "0", "tool"]), "wait");
    assert_eq!(text(&first, &["remaining_calls", "1", "tool"]), "screenshot");
    let second = next_planned_call(&finished(&first)).expect("second call");
    assert_eq!(text(&second, &["tool"]), "wait");
    assert_eq!(at(&second, &["arguments", "milliseconds"]).as_u64(), Some(500));

    let third = next_planned_call(&finished(&second)).expect("third call");
    assert_eq!(text(&third, &["tool"]), "screenshot");
    assert!(third.array_at("remaining_calls").expect("calls").is_empty());

    assert_eq!(
        planned_final_output(&finished(&third)).as_deref(),
        Some("COMPUTER_SEQUENCE_OK")
    );
    assert!(next_planned_call(&finished(&third)).is_none());
    assert!(planned_final_output(&finished(&second)).is_none());
}

#[test]
fn screenshot_dependent_plan_does_not_use_prewritten_answer() {
    let plan = r#"{"mcp_plan":{"calls":[{"server":"computer","tool":"screenshot","arguments":{}}],"final_output":"The screen says something unverified."}}"#;
    let first = parse_mcp_plan(plan, "What does the screen say?").expect("plan");
    assert!(first.get("final_output").is_none());
    assert!(planned_final_output(&finished(&first)).is_none());
}

#[test]
fn plans_are_limited() {
    let call = r#"{"server":"s","tool":"t"}"#;
    let plan = |n: usize| format!(r#"{{"mcp_plan":{{"calls":[{}]}}}}"#, vec![call; n].join(","));
    assert!(parse_mcp_plan(&plan(0), "x").is_none());
    assert!(parse_mcp_plan(&plan(4), "x").is_some());
    assert!(parse_mcp_plan(&plan(5), "x").is_none());
    assert!(parse_mcp_plan(r#"{"mcp_plan":{"calls":[{"server":"s"}]}}"#, "x").is_none());
    assert!(parse_mcp_plan("nonsense", "x").is_none());
}

#[test]
fn replies_may_be_fenced() {
    assert_eq!(strip_fences(" ```json\n{}\n``` "), "{}");
    assert_eq!(strip_fences("``````{}"), "{}");
    let call = parse_mcp_call("```json\n{\"mcp_call\":{\"server\":\"s\",\"tool\":\"t\"}}\n```")
        .expect("a call");
    assert_eq!(
        call.to_text(),
        r#"{"arguments":{},"op":"mcp.call_tool","server":"s","tool":"t"}"#
    );
    assert!(parse_mcp_call(r#"{"mcp_call":{"server":"s"}}"#).is_none());
}

#[test]
fn exact_outputs_are_single_words() {
    assert_eq!(exact_requested_output("say EXACTLY `Done`!").as_deref(), Some("Done"));
    assert_eq!(exact_requested_output("exactly one, then exactly  two.\nthree").as_deref(), Some("two"));
    assert!(exact_requested_output("say exactly two words").is_none());
    assert!(exact_requested_output("say exactly ").is_none());
    assert!(exact_requested_output("say it").is_none());
}

#[test]
fn mcp_result_summary_keeps_request_metadata() {
    let result = r#"{"request":{"op":"mcp.call_tool","server":"computer","tool":"screenshot","arguments":{}},"content":[{"type":"text","text":"captured"},{"type":"image","mimeType":"image/jpeg","data":"abc"}]}"#;
    let summary = summarize_mcp_result(result);
    assert!(summary.contains("\"tool\":\"screenshot\""));
    assert!(summary.contains("[image attached]"));
    assert!(!summary.contains("\"data\":\"abc\""));
    assert_eq!(summarize_mcp_result("plain"), "plain");
}

#[test]
fn screenshot_result_is_forwarded_as_vision_input() {
    let result = r#"{"content":[{"type":"text","text":"captured"},{"type":"image","mimeType":"image/jpeg","data":"abc"}]}"#;
    let content = mcp_follow_up_content("captured", result, 1);
    assert_eq!(text(&content, &["1", "type"]), "image_url");
    assert_eq!(text(&content, &["1", "image_url", "url"]), "data:image/jpeg;base64,abc");
    let plain = mcp_follow_up_content("captured", "{}", 1);
    assert!(plain.as_text().expect("a text").starts_with("MCP tool call #1 has finished. captured\n"));
}

#[test]
fn inline_run_metadata_preserves_budget_and_duplicate_guard() {
    let events = events_doc(
        br#"[{"operation":"mcp.call_tool","state":"committed","op_counts":{"mcp.call_tool":4},"latest_mcp_request_hash":"hash"}]"#,
    );
    assert_eq!(op_count(&events, "mcp."), 4);
    assert_eq!(latest_mcp_request_hash(&events).as_deref(), Some("hash"));
}

#[test]
fn events_come_in_two_shapes() {
    let list = events_doc(br#"[{"operation":"kernel.op_counts"},{"operation":"mcp.a"},{"operation":"x"}]"#);
    assert_eq!(settled_effects(&list).len(), 2);
    assert_eq!(op_count(&list, "mcp."), 1);
    assert!(latest_mcp_request_hash(&list).is_none());
    let object = events_doc(
        br#"{"settled":[{"operation":"x"}],"op_counts":{"mcp.a":2,"mcp.b":3,"x":9},"latest_mcp_request_hash":"h"}"#,
    );
    assert_eq!(settled_effects(&object).len(), 1);
    assert_eq!(op_count(&object, "mcp."), 5);
    assert_eq!(latest_mcp_request_hash(&object).as_deref(), Some("h"));
    assert!(settled_effects(&events_doc(b"nonsense")).is_empty());
}

// Turns

fn input(state: &str, events: &str) -> LoopInput {
    LoopInput {
        run_id: "run-1".to_string(),
        run_revision: 3,
        loop_epoch: 7,
        step_sequence: 9,
        input_event_cursor: "c".to_string(),
        turn_id: "turn-1".to_string(),
        state: state.as_bytes().to_vec(),
        events: events.as_bytes().to_vec(),
    }
}

fn turn(state: &str, events: &str) -> Decision {
    let reply = decide("call-1", Some(&input(state, events)), "default-model");
    assert_eq!(reply.call_id, "call-1");
    assert_eq!(reply.error_code, "");
    let out = reply.decision.expect("a decision");
    assert_eq!((out.run_revision, out.loop_epoch, out.step_sequence), (3, 7, 9));
    assert_eq!(out.decision_id, "turn-1");
    out.decision
}

fn invoked(d: Decision) -> (String, Json) {
    match d {
        Decision::InvokeEffect { operation, payload, effect_claim } => {
            assert!(effect_claim.is_empty());
            (operation, Json::from_bytes(&payload).expect("a payload"))
        }
        other => panic!("no effect: {other:?}"),
    }
}

fn failed(d: Decision) -> String {
    match d {
        Decision::Fail { reason_code } => reason_code,
        other => panic!("no failure: {other:?}"),
    }
}

fn completed(d: Decision) -> String {
    match d {
        Decision::Complete { output_ref } => decode_data_uri(&output_ref).expect("a text"),
        other => panic!("not complete: {other:?}"),
    }
}

fn model_events(reply: &str, counts: &str) -> String {
    format!(
        r#"[{{"operation":"kernel.op_counts","op_counts":{counts}}},{{"operation":"model.chat","state":"committed","result_ref":"{}"}}]"#,
        data_uri(reply, 1000)
    )
}

fn tool_events(result: &str, counts: &str) -> String {
    format!(
        r#"[{{"operation":"kernel.op_counts","op_counts":{counts}}},{{"operation":"mcp.call_tool","state":"committed","result_ref":"{}"}}]"#,
        data_uri(result, 1000)
    )
}

const TOOLS: &str = r#"{"task":"t","tools":true}"#;

#[test]
fn the_first_turn_asks_the_model() {
    let (operation, body) = invoked(turn("say hi", "[]"));
    assert_eq!(operation, "model.chat");
    assert_eq!(text(&body, &["model"]), "default-model");
    assert_eq!(text(&body, &["messages", "1", "content"]), "task: say hi");
    assert_eq!(at(&body, &["temperature"]).to_text(), "0.2");
    let (_, body) = invoked(turn(
        r#"{"task":"t","model":"m","base_url":"u","api_key_env":"k"}"#,
        "[]",
    ));
    assert_eq!(text(&body, &["model"]), "m");
    assert_eq!(text(&body, &["base_url"]), "u");
    assert_eq!(text(&body, &["api_key_env"]), "k");
    assert_eq!(text(&body, &["messages", "1", "content"]), "task: t");
}

#[test]
fn replies_of_the_model_decide() {
    let after = |reply: &str| turn("t", &model_events(reply, "{}"));
    assert_eq!(completed(after(r#"{"complete":{"output":"done"}}"#)), "done");
    assert_eq!(completed(after("just prose")), "just prose");
    assert_eq!(failed(after(r#"{"fail":{"reason_code":"no"}}"#)), "no");
    assert_eq!(failed(after(r#"{"fail":{}}"#)), "model_failed");
    assert_eq!(failed(after(r#"{"other":{}}"#)), "unrecognized_model_decision");
    assert!(matches!(after(r#"{"wait":{}}"#),
        Decision::Wait { reason, timer_id } if reason == "model requested wait" && timer_id.is_empty()));
    match after(r#"{"request_approval":{"reason":"risky"}}"#) {
        Decision::RequestApproval { approval_draft: ApprovalDraft::Request(r) } => {
            assert_eq!(r.operation, "llm.requested_approval");
            assert_eq!(r.target_resource, "risky");
            assert_eq!(r.run_id, "run-1");
            assert_eq!(r.principal_id, "00000000-0000-7000-8000-0000000000dd");
        }
        other => panic!("no approval: {other:?}"),
    }
    assert_eq!(
        failed(turn("t", r#"[{"operation":"model.chat","state":"committed","result_ref":"x"}]"#)),
        "model_result_undecodable"
    );
    assert_eq!(
        failed(turn("t", r#"[{"operation":"model.chat","state":"failed","error_code":"e"}]"#)),
        "e"
    );
    assert_eq!(
        failed(turn("t", r#"[{"operation":"model.chat","state":"failed"}]"#)),
        "model_effect_failed"
    );
    assert_eq!(
        failed(turn("t", r#"[{"operation":"model.chat","state":"lost"}]"#)),
        "model_effect_lost"
    );
}

#[test]
fn tools_are_called_only_where_they_are_asked_for() {
    let call = r#"{"mcp_call":{"server":"s","tool":"t"}}"#;
    let (operation, body) = invoked(turn(TOOLS, &model_events(call, "{}")));
    assert_eq!(operation, "mcp.call_tool");
    assert_eq!(text(&body, &["server"]), "s");
    assert_eq!(failed(turn("t", &model_events(call, "{}"))), "unrecognized_model_decision");
    assert_eq!(
        failed(turn(TOOLS, &model_events(call, r#"{"mcp.call_tool":4}"#))),
        "mcp_hop_limit"
    );
}

#[test]
fn a_required_plan_is_asked_for_again_once() {
    let state = r#"{"task":"t","tools":true,"tool_choice":"required"}"#;
    let (operation, body) = invoked(turn(state, &model_events("prose", r#"{"model.chat":1}"#)));
    assert_eq!(operation, "model.chat");
    assert_eq!(at(&body, &["messages"]).as_array().expect("messages").len(), 4);
    assert_eq!(
        failed(turn(state, &model_events("prose", r#"{"model.chat":2}"#))),
        "tool_plan_required"
    );
    let (operation, body) = invoked(turn(state, &model_events(PLAN, r#"{"model.chat":1}"#)));
    assert_eq!(operation, "mcp.call_tool");
    assert_eq!(body.array_at("remaining_calls").expect("calls").len(), 2);
}

#[test]
fn a_repeated_call_is_refused() {
    let call = r#"{"mcp_call":{"server":"s","tool":"t"}}"#;
    let hash = request_hash(&parse_mcp_call(call).expect("a call"));
    assert_eq!(hash.len(), 64);
    let events = |models: u32, tools: u32| {
        format!(
            r#"[{{"operation":"kernel.op_counts","op_counts":{{"model.chat":{models},"mcp.call_tool":{tools}}},"latest_mcp_request_hash":"{hash}"}},{{"operation":"model.chat","state":"committed","result_ref":"{}"}}]"#,
            data_uri(call, 1000)
        )
    };
    let (operation, body) = invoked(turn(TOOLS, &events(2, 1)));
    assert_eq!(operation, "model.chat");
    assert!(text(&body, &["messages", "3", "content"])
        .starts_with("That repeats the most recently completed MCP call. 1 tool call has already finished. Choose the next"));
    let (_, body) = invoked(turn(TOOLS, &events(3, 1)));
    assert!(text(&body, &["messages", "3", "content"])
        .starts_with("1 computer tool calls have already finished, and the latest"));
    assert_eq!(failed(turn(TOOLS, &events(4, 1))), "repeated_mcp_call");
}

#[test]
fn results_of_tools_go_on() {
    let first = parse_mcp_plan(PLAN, "say exactly OK").expect("a plan");
    let (operation, body) = invoked(turn(TOOLS, &tool_events(&finished(&first), r#"{"mcp.call_tool":1}"#)));
    assert_eq!(operation, "mcp.call_tool");
    assert_eq!(text(&body, &["tool"]), "wait");
    assert_eq!(
        failed(turn(TOOLS, &tool_events(&finished(&first), r#"{"mcp.call_tool":4}"#))),
        "mcp_hop_limit"
    );
    let last = next_planned_call(&finished(&body)).expect("the last call");
    assert_eq!(
        completed(turn(TOOLS, &tool_events(&finished(&last), r#"{"mcp.call_tool":3}"#))),
        "OK"
    );
    let (operation, body) = invoked(turn(TOOLS, &tool_events("plain", r#"{"mcp.call_tool":1}"#)));
    assert_eq!(operation, "model.chat");
    assert!(text(&body, &["messages", "2", "content"])
        .contains("The MCP tool call succeeded with result:\nplain"));
    let (_, body) = invoked(turn(TOOLS, &tool_events("plain", r#"{"mcp.call_tool":4}"#)));
    assert_eq!(at(&body, &["messages"]).as_array().expect("messages").len(), 4);
    let (_, body) = invoked(turn(TOOLS, r#"[{"operation":"mcp.call_tool","state":"failed","error_code":"e"}]"#));
    assert!(text(&body, &["messages", "2", "content"]).contains("The MCP tool call failed: e"));
    assert_eq!(
        failed(turn(TOOLS, r#"[{"operation":"mcp.call_tool","state":"unknown"}]"#)),
        "mcp_effect_unknown"
    );
}

#[test]
fn an_unreadable_input_is_refused() {
    let reply = decide("call-1", None, "m");
    assert_eq!(reply.error_code, "invalid_argument");
    assert!(reply.decision.is_none());
}

#[test]
fn hashes_are_of_the_printed_request() {
    assert_eq!(
        request_hash(&doc("{}")),
        "44136fa355b3678a1146ad16f7e8649e94fb4fc21fe77e8310c060f61caaff8a"
    );
}

#[test]
fn calls_over_http_end_with_a_result() {
    assert_eq!(check_greeting(r#"{"id":1,"result":{}}"#), Ok(()));
    assert_eq!(check_greeting(""), Ok(()));
    assert_eq!(
        check_greeting(r#"{"id":1,"error":{"message":"no"}}"#),
        Err("mcp_initialize: no".to_string())
    );
    let result = take_result("tools/call", "data: {\"id\":2,\"result\":[1]}\n\n").expect("a result");
    assert_eq!(result.to_text(), "[1]");
    assert_eq!(
        take_result("tools/call", r#"{"id":2,"error":{"message":"no"}}"#).err(),
        Some("tools/call: no".to_string())
    );
    assert_eq!(
        take_result("tools/call", r#"{"id":1}"#).err(),
        Some("mcp_http: no response frame".to_string())
    );
}

#[test]
fn model_calls_end_with_a_text() {
    assert_eq!(chat_result(false, None), Err("provider_unreachable".to_string()));
    assert_eq!(chat_result(true, None), Err("provider_bad_response".to_string()));
    let reply = doc(r#"{"choices":[{"message":{"content":"hi"}}]}"#);
    assert_eq!(chat_result(true, Some(reply)), Ok("hi".to_string()));
}

#[test]
fn server_calls_go_step_by_step() {
    let params = doc(r#"{"a":1}"#);
    let configured = vec![("X".to_string(), "y".to_string())];
    let http =
        |event: HttpEvent| http_call(event, "tools/call", &params, &configured, Some("sess-1"));
    assert!(matches!(http(HttpEvent::Begun), HttpAction::Send { message: m, headers }
        if headers.len() == 3 && m.text_at("method") == Some("initialize") && m.get("id").and_then(|i| i.as_u64()) == Some(1)));
    assert!(matches!(http(HttpEvent::Greeted(Ok(String::new()))), HttpAction::Notify { message: m, headers }
        if headers.last().is_some_and(|h| h.1 == "sess-1") && m.text_at("method") == Some("notifications/initialized")));
    assert!(matches!(http(HttpEvent::Noticed), HttpAction::Send { message: m, headers }
        if headers.last().is_some_and(|h| h.1 == "sess-1") && m.to_text() == r#"{"id":2,"jsonrpc":"2.0","method":"tools/call","params":{"a":1}}"#));
    let body = r#"{"id":2,"result":true}"#.to_string();
    assert!(matches!(http(HttpEvent::Called(Ok(body))), HttpAction::Done(Ok(v))
        if v.as_bool() == Some(true)));
    assert!(matches!(http(HttpEvent::Called(Err("mcp_http: x".to_string()))), HttpAction::Done(Err(e))
        if e == "mcp_http: x"));
    assert!(matches!(
        http(HttpEvent::Greeted(Ok(r#"{"id":1,"error":{"message":"no"}}"#.to_string()))),
        HttpAction::Done(Err(e)) if e == "mcp_initialize: no"));

    let stdio = |event: StdioEvent| stdio_call(event, "tools/call", &params);
    assert!(matches!(stdio(StdioEvent::Spawned(Ok(()))), CallAction::Send(m)
        if m.text_at("method") == Some("initialize")));
    assert!(matches!(stdio(StdioEvent::Initialized(Ok(()))), CallAction::Send(m)
        if m.to_text() == r#"{"method":"tools/call","params":{"a":1}}"#));
    let failed = |event: StdioEvent| match stdio(event) {
        CallAction::Done(Err(e)) => e,
        other => panic!("no failure: {other:?}"),
    };
    assert_eq!(failed(StdioEvent::Spawned(Err("e".to_string()))), "mcp_spawn: e");
    assert_eq!(failed(StdioEvent::Initialized(Err("e".to_string()))), "mcp_initialize: e");
    assert_eq!(failed(StdioEvent::Called(Err("e".to_string()))), "tools/call: e");
}

#[test]
fn session_headers_propagate() {
    let configured = vec![("Authorization".to_string(), "Bearer t".to_string())];
    let pair = |n: &str, v: &str| (n.to_string(), v.to_string());
    let greeting = request_headers(&configured, None);
    assert_eq!(
        greeting,
        [
            pair("Content-Type", "application/json"),
            pair("Accept", "application/json, text/event-stream"),
            pair("Authorization", "Bearer t"),
        ]
    );
    let later = request_headers(&configured, Some("sess-1"));
    assert_eq!(later[..3], greeting[..]);
    assert_eq!(later[3], pair("Mcp-Session-Id", "sess-1"));
    assert_eq!(later.len(), 4);
}
