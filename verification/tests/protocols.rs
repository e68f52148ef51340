//! The protocol peers: desktop tools, the echo servers, and the echo adapter.

use agent_os::computer_mcp;
use agent_os::computer_mcp::{
    find_program, mac_key_code, mac_modifier, mac_press_script, program_failure, ps_quote,
    read_request, reads_file, refuse, result_of, windows_key_text, DesktopAction, Platform, Step,
};
use agent_os::echo_acp::EchoAgent;
use agent_os::echo_mcp;
use agent_os::effects::{ExecutionRequest, ExecutionResponse};
use agent_os::json::Json;
use agent_os::rpc::{response, Reply};
use agent_os::wasm_echo;
use agent_os::wasm_echo::GuestAnswer;

fn doc(text: &str) -> Json {
    Json::from_text(text).expect("a document")
}

fn at<'a>(v: &'a Json, path: &[&str]) -> &'a Json {
    let mut here = v;
    for step in path {
        here = match step.parse::<usize>() {
            Ok(i) => &here.as_array().expect("an array")[i],
            Err(_) => here.get(step).expect("a member"),
        };
    }
    here
}

fn text<'a>(v: &'a Json, path: &[&str]) -> &'a str {
    at(v, path).as_text().expect("a text")
}

fn names(v: &Json) -> Vec<String> {
    v.array_at("tools")
        .expect("tools")
        .iter()
        .map(|tool| text(tool, &["name"]).to_string())
        .collect()
}

// Desktop tools

#[test]
fn macos_shortcut_keys_cover_letters_digits_and_functions() {
    assert_eq!(mac_key_code("K"), Ok(40));
    assert_eq!(mac_key_code("7"), Ok(26));
    assert_eq!(mac_key_code("F12"), Ok(111));
    assert!(mac_key_code("UNKNOWN").is_err());
}

#[test]
fn macos_shortcut_modifiers_reject_unknown_values() {
    assert_eq!(mac_modifier("CMD"), Ok("command"));
    assert_eq!(mac_modifier("CTRL"), Ok("control"));
    assert!(mac_modifier("META").is_err());
}

#[test]
fn every_mac_key_has_its_code() {
    let keys = [
        ("A", 0), ("S", 1), ("D", 2), ("F", 3), ("H", 4), ("G", 5), ("Z", 6), ("X", 7), ("C", 8),
        ("V", 9), ("B", 11), ("Q", 12), ("W", 13), ("E", 14), ("R", 15), ("Y", 16), ("T", 17),
        ("1", 18), ("2", 19), ("3", 20), ("4", 21), ("6", 22), ("5", 23), ("9", 25), ("7", 26),
        ("8", 28), ("0", 29), ("O", 31), ("U", 32), ("I", 34), ("P", 35), ("L", 37), ("J", 38),
        ("K", 40), ("N", 45), ("M", 46), ("ENTER", 36), ("TAB", 48), ("SPACE", 49),
        ("BACKSPACE", 51), ("ESC", 53), ("ESCAPE", 53), ("ARROWLEFT", 123), ("ARROWRIGHT", 124),
        ("ARROWDOWN", 125), ("ARROWUP", 126), ("F1", 122), ("F2", 120), ("F3", 99), ("F4", 118),
        ("F5", 96), ("F6", 97), ("F7", 98), ("F8", 100), ("F9", 101), ("F10", 109), ("F11", 103),
        ("F12", 111),
    ];
    for (key, code) in keys {
        assert_eq!(mac_key_code(key), Ok(code), "{key}");
    }
    assert_eq!(mac_key_code("k"), Err("unsupported macOS key: k".to_string()));
    assert_eq!(mac_modifier("COMMAND"), Ok("command"));
    assert_eq!(mac_modifier("ALT"), Ok("option"));
    assert_eq!(mac_modifier("OPTION"), Ok("option"));
    assert_eq!(mac_modifier("SHIFT"), Ok("shift"));
    assert_eq!(mac_modifier("CONTROL"), Ok("control"));
    assert_eq!(mac_modifier("META"), Err("unsupported macOS modifier: META".to_string()));
}

fn step(method: &str, params: &str) -> Step {
    computer_mcp::handle(method, &doc(params))
}

fn answer(step: Step) -> Json {
    match step {
        Step::Answer(v) => v,
        other => panic!("no answer: {other:?}"),
    }
}

fn action(params: &str) -> DesktopAction {
    match step("tools/call", params) {
        Step::Act(a) => a,
        other => panic!("no action: {other:?}"),
    }
}

fn refusal(method: &str, params: &str) -> String {
    match step(method, params) {
        Step::Refuse(e) => e,
        other => panic!("not refused: {other:?}"),
    }
}

#[test]
fn exposes_computer_tools() {
    let initialized = answer(step("initialize", "{}"));
    assert_eq!(text(&initialized, &["serverInfo", "name"]), "computer-mcp");
    let result = answer(step("tools/list", "{}"));
    assert_eq!(names(&result), ["screenshot", "click", "type", "key", "wait"]);
}

#[test]
fn wait_tool_executes() {
    let wait = action(r#"{"name": "wait", "arguments": {"milliseconds": 1}}"#);
    assert!(matches!(wait, DesktopAction::Wait { milliseconds: 1 }));
    let result = result_of(&wait, &[]);
    assert_eq!(at(&result, &["isError"]).as_bool(), Some(false));
    assert_eq!(text(&result, &["content", "0", "text"]), "Waited 1 ms.");
}

#[test]
fn waits_are_short() {
    let long = action(r#"{"name": "wait", "arguments": {"milliseconds": 99999}}"#);
    assert!(matches!(long, DesktopAction::Wait { milliseconds: 10000 }));
    let unset = action(r#"{"name": "wait"}"#);
    assert!(matches!(unset, DesktopAction::Wait { milliseconds: 750 }));
    let negative = action(r#"{"name": "wait", "arguments": {"milliseconds": -4}}"#);
    assert!(matches!(negative, DesktopAction::Wait { milliseconds: 750 }));
}

#[test]
fn tool_arguments_are_checked() {
    let call = "tools/call";
    assert_eq!(refusal(call, "{}"), "missing tool name");
    assert_eq!(refusal(call, r#"{"name":"fly"}"#), "unknown tool: fly");
    assert_eq!(refusal(call, r#"{"name":"click","arguments":{"y":1}}"#), "missing integer `x`");
    assert_eq!(refusal(call, r#"{"name":"click","arguments":{"x":1,"y":1.5}}"#), "missing integer `y`");
    assert_eq!(refusal(call, r#"{"name":"type","arguments":{}}"#), "missing string `text`");
    assert_eq!(refusal(call, r#"{"name":"key","arguments":{"key":4}}"#), "missing string `key`");
    assert_eq!(refusal("tools/fly", "{}"), "method not found: tools/fly");
    assert_eq!(answer(step("ping", "{}")).to_text(), "{}");
}

#[test]
fn actions_have_their_results() {
    let click = action(r#"{"name":"click","arguments":{"x":3,"y":-4,"button":"right"}}"#);
    assert_eq!(
        result_of(&click, &[]).to_text(),
        r#"{"content":[{"text":"Clicked right at 3, -4.","type":"text"}],"isError":false}"#
    );
    let typed = action(r#"{"name":"type","arguments":{"text":"añb"}}"#);
    assert_eq!(text(&result_of(&typed, &[]), &["content", "0", "text"]), "Typed 3 characters.");
    let key = action(r#"{"name":"key","arguments":{"key":"CTRL+L"}}"#);
    assert_eq!(text(&result_of(&key, &[]), &["content", "0", "text"]), "Pressed CTRL+L.");
    let shot = result_of(&DesktopAction::Screenshot, b"abcd");
    assert_eq!(text(&shot, &["content", "0", "text"]), "Captured the current desktop.");
    assert_eq!(text(&shot, &["content", "1", "data"]), "YWJjZA==");
    assert_eq!(text(&shot, &["content", "1", "mimeType"]), "image/jpeg");
}

#[test]
fn requests_are_read_from_lines() {
    let request = read_request(r#"{"id":4,"method":"ping"}"#).expect("a request");
    assert_eq!(request.method, "ping");
    assert_eq!(request.id.as_u64(), Some(4));
    assert!(read_request("nonsense").is_none());
    let Reply::Error { code, message } = refuse("no") else {
        panic!("a refusal is an error");
    };
    assert_eq!((code, message.as_str()), (-32000, "no"));
}

fn program(platform: Platform, action: &DesktopAction) -> (String, Vec<String>) {
    let p = find_program(platform, action, "/tmp/a'b.jpg").expect("supported").expect("a program");
    (p.name, p.args)
}

#[test]
fn screenshots_are_read_where_they_are_made() {
    let typed = DesktopAction::Type { text: "hi".to_string() };
    assert!(!reads_file(Platform::Linux, &DesktopAction::Screenshot));
    assert!(reads_file(Platform::MacOs, &DesktopAction::Screenshot));
    assert!(reads_file(Platform::Windows, &DesktopAction::Screenshot));
    assert!(!reads_file(Platform::MacOs, &typed));
}

#[test]
fn linux_programs() {
    let (name, args) = program(Platform::Linux, &DesktopAction::Screenshot);
    assert_eq!(name, "import");
    assert_eq!(args, ["-window", "root", "-resize", "1280x1280>", "-quality", "70", "jpg:-"]);
    let click = DesktopAction::Click { x: 3, y: -4, button: "middle".to_string() };
    let (name, args) = program(Platform::Linux, &click);
    assert_eq!(name, "xdotool");
    assert_eq!(args, ["mousemove", "--sync", "3", "-4", "click", "2"]);
    let typed = DesktopAction::Type { text: "hi".to_string() };
    let (_, args) = program(Platform::Linux, &typed);
    assert_eq!(args, ["type", "--clearmodifiers", "--delay", "1", "--", "hi"]);
    let key = DesktopAction::Key { key: "Return".to_string() };
    let (_, args) = program(Platform::Linux, &key);
    assert_eq!(args, ["key", "--clearmodifiers", "Return"]);
    let wait = DesktopAction::Wait { milliseconds: 1 };
    assert!(find_program(Platform::Linux, &wait, "x").expect("supported").is_none());
}

#[test]
fn mac_programs() {
    let (name, args) = program(Platform::MacOs, &DesktopAction::Screenshot);
    assert_eq!(name, "screencapture");
    assert_eq!(args, ["-x", "-t", "jpg", "/tmp/a'b.jpg"]);
    let click = DesktopAction::Click { x: 3, y: -4, button: "left".to_string() };
    let (name, args) = program(Platform::MacOs, &click);
    assert_eq!(name, "osascript");
    assert_eq!(args, ["-e", "tell application \"System Events\" to click at {3, -4}"]);
    let typed = DesktopAction::Type { text: "hi".to_string() };
    let (_, args) = program(Platform::MacOs, &typed);
    assert_eq!(args.len(), 8);
    assert_eq!(args[7], "hi");
    assert_eq!(
        mac_press_script("cmd+shift+k").expect("a script"),
        "tell application \"System Events\" to key code 40 using {command down, shift down}"
    );
    assert_eq!(
        mac_press_script("enter").expect("a script"),
        "tell application \"System Events\" to key code 36"
    );
    assert_eq!(mac_press_script("meta+k"), Err("unsupported macOS modifier: META".to_string()));
    assert_eq!(mac_press_script("cmd+"), Err("unsupported macOS key: ".to_string()));
    let bad = DesktopAction::Key { key: "what".to_string() };
    assert!(find_program(Platform::MacOs, &bad, "x").is_err());
}

#[test]
fn windows_programs() {
    assert_eq!(windows_key_text("escape"), "{ESC}");
    assert_eq!(windows_key_text("ArrowUp"), "{UP}");
    assert_eq!(windows_key_text("ctrl+shift+a"), "^+A");
    assert_eq!(windows_key_text("alt+x"), "%X");
    assert_eq!(ps_quote("it's"), "it''s");
    let (name, args) = program(Platform::Windows, &DesktopAction::Screenshot);
    assert_eq!(name, "powershell");
    assert_eq!(args[0], "-NoProfile");
    assert!(args[2].contains("$i.Save('/tmp/a''b.jpg',[System.Drawing.Imaging.ImageFormat]::Jpeg); $g.Dispose(); $i.Dispose()"));
    let click = DesktopAction::Click { x: 3, y: -4, button: "right".to_string() };
    let (_, args) = program(Platform::Windows, &click);
    assert_eq!(
        args[2],
        "Add-Type @'\nusing System.Runtime.InteropServices; public class M { [DllImport(\"user32.dll\")] public static extern bool SetCursorPos(int x,int y); [DllImport(\"user32.dll\")] public static extern void mouse_event(uint f,uint x,uint y,uint d,System.UIntPtr e); }\n'@; [M]::SetCursorPos(3,-4); [M]::mouse_event(0x0008,0,0,0,[UIntPtr]::Zero); [M]::mouse_event(0x0010,0,0,0,[UIntPtr]::Zero)"
    );
    let typed = DesktopAction::Type { text: "hi".to_string() };
    let (_, args) = program(Platform::Windows, &typed);
    assert_eq!(
        args,
        [
            "-NoProfile",
            "-STA",
            "-Command",
            "$t=[Text.Encoding]::UTF8.GetString([Convert]::FromBase64String('aGk=')); Set-Clipboard -Value $t; Add-Type -AssemblyName System.Windows.Forms; [System.Windows.Forms.SendKeys]::SendWait('^v')",
        ]
    );
    let key = DesktopAction::Key { key: "ctrl+'".to_string() };
    let (_, args) = program(Platform::Windows, &key);
    assert_eq!(
        args[2],
        "Add-Type -AssemblyName System.Windows.Forms; [System.Windows.Forms.SendKeys]::SendWait('^''')"
    );
}

#[test]
fn program_failures_tell_the_stderr() {
    assert_eq!(program_failure("xdotool", b" no display\n"), "xdotool: no display");
    assert_eq!(program_failure("x", &[0x61, 0xff]), "x: a\u{fffd}");
}

// Echo tools

fn ask(line: &str) -> Json {
    echo_mcp::answer_line(line).expect("an answer")
}

fn init() {
    let said = ask(
        r#"{"jsonrpc":"2.0","id":1,"method":"initialize","params":{"protocolVersion":"2025-03-26","capabilities":{},"clientInfo":{"name":"test","version":"0"}}}"#,
    );
    assert_eq!(text(&said, &["result", "serverInfo", "name"]), "echo-mcp");
    assert!(echo_mcp::answer_line(
        r#"{"jsonrpc":"2.0","method":"notifications/initialized","params":{}}"#
    )
    .is_none());
}

#[test]
fn initialize_and_list_tools() {
    init();
    let tools = ask(r#"{"jsonrpc":"2.0","id":2,"method":"tools/list","params":{}}"#);
    assert_eq!(names(at(&tools, &["result"])), ["echo", "uppercase"]);
}

#[test]
fn call_echo_tool() {
    init();
    let said = ask(
        r#"{"jsonrpc":"2.0","id":2,"method":"tools/call","params":{"name":"echo","arguments":{"text":"hello mcp"}}}"#,
    );
    assert_eq!(text(&said, &["result", "content", "0", "text"]), "hello mcp");
    assert_eq!(at(&said, &["result", "isError"]).as_bool(), Some(false));
}

#[test]
fn uppercase_goes_by_the_unicode_rules() {
    let said = ask(
        r#"{"id":2,"method":"tools/call","params":{"name":"uppercase","arguments":{"text":"straße é"}}}"#,
    );
    assert_eq!(text(&said, &["result", "content", "0", "text"]), "STRASSE É");
}

#[test]
fn call_unknown_tool_is_error() {
    init();
    let said = ask(
        r#"{"jsonrpc":"2.0","id":2,"method":"tools/call","params":{"name":"nope","arguments":{}}}"#,
    );
    let message = text(&said, &["error", "message"]);
    assert!(message.contains("unknown tool"), "{message}");
}

#[test]
fn read_resource_and_ping() {
    init();
    let res = ask(
        r#"{"jsonrpc":"2.0","id":2,"method":"resources/read","params":{"uri":"echo://hello"}}"#,
    );
    assert_eq!(text(&res, &["result", "contents", "0", "text"]), "hello from echo-mcp");
    let pong = ask(r#"{"jsonrpc":"2.0","id":3,"method":"ping","params":{}}"#);
    assert!(pong.get("result").is_some());
}

#[test]
fn unknown_method_is_method_not_found() {
    let said = ask(r#"{"jsonrpc":"2.0","id":2,"method":"nonsense/method","params":{}}"#);
    assert_eq!(at(&said, &["error", "code"]).as_i64(), Some(-32601));
}

#[test]
fn server_requests_are_answered() {
    init();
    let pong = ask(r#"{"jsonrpc":"2.0","id":2,"method":"ping","params":{}}"#);
    assert_eq!(at(&pong, &["id"]).as_u64(), Some(2));
    assert!(pong.get("result").is_some());
}

#[test]
fn replies_have_the_shape_of_the_protocol() {
    let result = response(Json::Uint(3), Reply::Result(Json::Bool(true)));
    assert_eq!(result.to_text(), r#"{"id":3,"jsonrpc":"2.0","result":true}"#);
    let error = response(Json::Null, Reply::Error { code: -1, message: "no".to_string() });
    assert_eq!(
        error.to_text(),
        r#"{"error":{"code":-1,"message":"no"},"id":null,"jsonrpc":"2.0"}"#
    );
}

// Echo agent

fn session(agent: &mut EchoAgent) -> String {
    let hello = agent.handle(&doc(
        r#"{"id":1,"method":"initialize","params":{"protocolVersion":1,"clientCapabilities":{},"clientInfo":{"name":"test","version":"0"}}}"#,
    ));
    assert_eq!(hello.first.len(), 1);
    let opened = agent.handle(&doc(
        r#"{"id":2,"method":"session/new","params":{"cwd":".","mcpServers":[]}}"#,
    ));
    text(&opened.first[0], &["result", "sessionId"]).to_string()
}

#[test]
fn prompt_streams_chunks_and_completes() {
    let mut agent = EchoAgent::new();
    let id = session(&mut agent);
    let out = agent.handle(&doc(&format!(
        r#"{{"id":3,"method":"session/prompt","params":{{"sessionId":"{id}","prompt":[{{"type":"text","text":"hi there"}}]}}}}"#
    )));
    assert!(out.first.is_empty() && !out.waits);
    let mut said = String::new();
    let mut chunks = 0;
    for message in &out.rest {
        if message.text_at("method") == Some("session/update")
            && text(message, &["params", "update", "sessionUpdate"]) == "agent_message_chunk"
        {
            said.push_str(text(message, &["params", "update", "content", "text"]));
            chunks += 1;
        }
    }
    let end = out.rest.last().expect("an end");
    assert_eq!(text(end, &["result", "stopReason"]), "end_turn");
    assert_eq!(said, "acp-echo:hi there");
    assert_eq!(chunks, 2);
}

#[test]
fn permission_request_is_answered() {
    let mut agent = EchoAgent::new();
    let id = session(&mut agent);
    let out = agent.handle(&doc(&format!(
        r#"{{"id":3,"method":"session/prompt","params":{{"sessionId":"{id}","prompt":[{{"type":"text","text":"perm-required now"}}]}}}}"#
    )));
    assert!(out.waits);
    assert_eq!(out.first[0].text_at("method"), Some("session/request_permission"));
    assert!(!text(&out.first[0], &["params", "options", "0", "optionId"]).is_empty());
    let end = out.rest.last().expect("an end");
    assert_eq!(text(end, &["result", "stopReason"]), "end_turn");
}

#[test]
fn sessions_of_the_echo_agent_are_numbered() {
    let mut agent = EchoAgent::new();
    assert_eq!(session(&mut agent), "sess-1");
    assert_eq!(session(&mut agent), "sess-2");
    let unknown = agent.handle(&doc(r#"{"id":9,"method":"other"}"#));
    assert_eq!(
        unknown.first[0].to_text(),
        r#"{"error":{"code":-32601,"message":"method not found"},"id":9,"jsonrpc":"2.0"}"#
    );
    let silent = agent.handle(&doc(r#"{"method":"other"}"#));
    assert!(silent.first.is_empty() && silent.rest.is_empty());
}

// Echo adapter

fn request(operation: &str, payload: &[u8]) -> ExecutionRequest {
    ExecutionRequest {
        effect_id: "eff-1".to_string(),
        operation_id: operation.to_string(),
        request_hash: "h".to_string(),
        fencing_token: 1,
        payload: payload.to_vec(),
    }
}

fn executed(answer: Result<GuestAnswer, String>) -> ExecutionResponse {
    match answer {
        Ok(GuestAnswer::Executed(r)) => r,
        other => panic!("not executed: {other:?}"),
    }
}

#[test]
fn the_echo_adapter_answers_once_per_operation() {
    let mut store = wasm_echo::AnswerStore::new();
    let first =
        executed(wasm_echo::handle(&mut store, "execute", Some(&request("op-1", b"hi")), None));
    assert_eq!(first.status, "succeeded");
    assert_eq!(first.result_ref, "data:text/plain;base64,SEk=");
    assert_eq!(first.provider_operation_ref, "op-1");
    let again =
        executed(wasm_echo::handle(&mut store, "execute", Some(&request("op-1", b"other")), None));
    assert_eq!(again.result_ref, first.result_ref);
    let error = |answer: Result<GuestAnswer, String>| answer.err().expect("an error");
    assert_eq!(error(wasm_echo::handle(&mut store, "other", None, None)), "unknown_operation");
    assert_eq!(error(wasm_echo::handle(&mut store, "execute", None, None)), "invalid_argument");
    assert_eq!(error(wasm_echo::handle(&mut store, "status", None, None)), "invalid_argument");
}

#[test]
fn the_echo_adapter_tells_the_status_of_operations() {
    let mut store = wasm_echo::AnswerStore::new();
    let done =
        executed(wasm_echo::handle(&mut store, "execute", Some(&request("op-1", b"hi")), None));
    let told = match wasm_echo::handle(&mut store, "status", None, Some("op-1")) {
        Ok(GuestAnswer::Told(s)) => s,
        other => panic!("nothing told: {other:?}"),
    };
    assert_eq!((told.status.as_str(), told.result_ref), ("succeeded", done.result_ref));
    assert_eq!(wasm_echo::status(&store, "op-2").status, "not_found");
}
