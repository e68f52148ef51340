//! The scripted loop, the agent loop, and the effect adapters.

use agent_os::acp_loop;
use agent_os::acp_loop::{
    acp_turn, begin, failure_code, listen, parse_args, permission_reply, prompt_params, reply_to, session_of,
    task_of, AcpAction, AcpEvent, Turn,
};
use agent_os::agent_loop::{decide, parse_decision, read_script};
use agent_os::base64::{base64_decode, decode_data_uri};
use agent_os::contract::{ApprovalDraft, Decision, LoopDecision, LoopInput};
use agent_os::effect_adapter;
use agent_os::effect_adapter::CounterStore;
use agent_os::effects::{operation_of, refusal, status, ExecutionRequest, ExecutionResponse, Operation};
use agent_os::json::Json;
use agent_os::local_memory::{execute, sensitivity_rank, valid_namespace, MemoryStore};
use agent_os::rpc::Reply;

fn doc(text: &str) -> Json {
    Json::from_text(text).expect("a document")
}

fn input(step: u64) -> LoopInput {
    LoopInput {
        run_id: "run-1".to_string(),
        run_revision: 42,
        loop_epoch: 7,
        step_sequence: step,
        input_event_cursor: "cursor-17".to_string(),
        turn_id: "turn-3".to_string(),
        state: Vec::new(),
        events: Vec::new(),
    }
}

fn decided(script: &str, step: u64, stale: bool) -> LoopDecision {
    let reply = decide("c", Some(&input(step)), &read_script(script), stale);
    assert_eq!(reply.error_code, "");
    reply.decision.expect("a decision")
}

#[test]
fn normal_complete_decision() {
    let d = decided(r#"[{"complete":{"output_ref":"art://done"}}]"#, 1, false);
    assert_eq!(d.run_revision, 42);
    assert_eq!(d.loop_epoch, 7);
    assert_eq!(d.step_sequence, 1);
    assert_eq!(d.input_event_cursor, "cursor-17");
    assert_eq!(d.turn_id, "turn-3");
    assert_eq!(d.decision_id, "turn-3");
    let Decision::Complete { output_ref } = d.decision else {
        panic!("expected Complete");
    };
    assert_eq!(output_ref, "art://done");
}

const SCRIPT: &str = r#"[
    {"spawn_agent":{"child_request":"aGVsbG8="}},
    {"invoke_effect":{"operation":"fs.write","payload":"aGk=","effect_claim":"Y2xhaW0="}},
    {"wait":{"reason":"timer","timer_id":"t-9"}},
    {"request_approval":{"approval_draft":"ZHJhZnQ="}}
]"#;

#[test]
fn spawn_child_and_effect_decisions() {
    let Decision::SpawnAgent { child_request } = decided(SCRIPT, 1, false).decision else {
        panic!("expected SpawnAgent");
    };
    assert_eq!(child_request, b"hello");
    let Decision::InvokeEffect { operation, payload, effect_claim } =
        decided(SCRIPT, 2, false).decision
    else {
        panic!("expected InvokeEffect");
    };
    assert_eq!(operation, "fs.write");
    assert_eq!(payload, b"hi");
    assert_eq!(effect_claim, b"claim");
    let Decision::Wait { timer_id, .. } = decided(SCRIPT, 3, false).decision else {
        panic!("expected Wait");
    };
    assert_eq!(timer_id, "t-9");
    assert!(matches!(
        decided(SCRIPT, 4, false).decision,
        Decision::RequestApproval { approval_draft: ApprovalDraft::Raw(d) } if d == b"draft"
    ));
}

#[test]
fn delayed_and_stale_decisions() {
    let d = decided(r#"[{"complete":{"output_ref":"x"}}]"#, 1, true);
    assert_eq!(d.loop_epoch, 6);
    let reply = decide("c", None, &Vec::new(), false);
    assert_eq!(reply.error_code, "invalid_argument");
    assert!(reply.decision.is_none());
}

#[test]
fn unknown_script_steps_fail() {
    assert!(matches!(parse_decision(&doc("{}")), Decision::Fail { .. }));
    assert!(matches!(parse_decision(&doc(r#"{"fail":{"reason_code":"no"}}"#)),
        Decision::Fail { reason_code } if reason_code == "no"));
}

// The agent loop

#[test]
fn agents_are_prompted_with_the_task() {
    assert_eq!(task_of("plain", &None), "plain");
    assert_eq!(task_of("x", &Some(doc(r#"{"task":"t"}"#))), "t");
    assert_eq!(parse_args(r#"["a","b"]"#), ["a", "b"]);
    assert_eq!(
        prompt_params("s", "t").to_text(),
        r#"{"prompt":[{"text":"t","type":"text"}],"sessionId":"s"}"#
    );
    assert_eq!(session_of(&doc(r#"{"sessionId":"s-1"}"#)), "s-1");
    match begin("c", Some(&LoopInput { state: b"do it".to_vec(), ..input(1) }), "agent") {
        Turn::Prompt { task } => assert_eq!(task, "do it"),
        other => panic!("no prompt: {other:?}"),
    }
    match begin("c", None, "agent") {
        Turn::Answer(reply) => assert_eq!(reply.error_code, "invalid_argument"),
        other => panic!("no answer: {other:?}"),
    }
}

#[test]
fn agents_are_listened_to() {
    let mut said = String::new();
    let chunk = doc(
        r#"{"update":{"sessionUpdate":"agent_message_chunk","content":{"type":"text","text":"hi"}}}"#,
    );
    listen(&mut said, "session/update", &chunk);
    listen(&mut said, "session/update", &chunk);
    listen(&mut said, "other", &chunk);
    listen(&mut said, "session/update", &doc(r#"{"update":{"sessionUpdate":"plan"}}"#));
    assert_eq!(said, "hihi");
}

const ASKED: &str = r#"{"options":[{"optionId":"no","kind":"reject_once"},{"optionId":"yes","kind":"allow_once"}]}"#;

#[test]
fn nothing_is_permitted_without_leave() {
    assert_eq!(
        permission_reply(&doc(ASKED), true).to_text(),
        r#"{"outcome":{"optionId":"yes","outcome":"selected"}}"#
    );
    let denied = permission_reply(&doc(ASKED), false).to_text();
    assert!(!denied.contains("yes"), "{denied}");
    let Reply::Result(v) = reply_to("session/request_permission", &doc(ASKED), true) else {
        panic!("permission is answered");
    };
    assert!(v.to_text().contains("yes"));
    assert!(matches!(reply_to("fs/read_text_file", &doc("{}"), true),
        Reply::Error { code: -32601, .. }));
}

#[test]
fn agent_turns_end_with_a_decision() {
    let reply = acp_loop::finish("c", &input(1), Ok("done".to_string()));
    let Decision::Complete { output_ref } = reply.decision.expect("a decision").decision else {
        panic!("expected Complete");
    };
    assert_eq!(decode_data_uri(&output_ref).as_deref(), Some("done"));
    let code = failure_code("prompt", "boom");
    assert!(code.contains("prompt"), "{code}");
    let reply = acp_loop::finish("c", &input(1), Err("broken".to_string()));
    assert!(matches!(reply.decision.expect("a decision").decision,
        Decision::Fail { reason_code } if reason_code == "broken"));
}

// Memory

fn request(operation: &str, payload: &str) -> ExecutionRequest {
    ExecutionRequest {
        effect_id: "eff-1".to_string(),
        operation_id: operation.to_string(),
        request_hash: "h".to_string(),
        fencing_token: 3,
        payload: payload.as_bytes().to_vec(),
    }
}

fn run(store: &mut MemoryStore, operation: &str, payload: &str) -> ExecutionResponse {
    execute(store, &request(operation, payload), 1234)
}

fn fails(store: &mut MemoryStore, payload: &str) -> String {
    let r = run(store, "op-failing", payload);
    assert_eq!(r.status, "failed");
    assert_eq!(r.result_ref, "");
    r.error_code
}

fn read(r: &ExecutionResponse) -> Json {
    let body = r
        .result_ref
        .strip_prefix("data:application/json;base64,")
        .expect("a document");
    Json::from_bytes(&base64_decode(body).expect("base64")).expect("json")
}

#[test]
fn memory_put_get_over_protocol() {
    let mut store = MemoryStore::new();
    let put = run(
        &mut store,
        "memory.put",
        r#"{"op":"memory.put","namespace":"notes","record":{"text":"hello"}}"#,
    );
    assert_eq!(put.status, "succeeded");
    assert!(put.result_ref.starts_with("memory://notes/"), "put result_ref: {}", put.result_ref);
    let memory_id = put.result_ref.trim_start_matches("memory://notes/").to_string();

    let get = run(
        &mut store,
        "memory.get",
        &format!(r#"{{"op":"memory.get","namespace":"notes","memory_id":"{memory_id}"}}"#),
    );
    assert_eq!(get.status, "succeeded");
    let found = read(&get);
    assert_eq!(found.get("record").expect("a record").to_text(), r#"{"text":"hello"}"#);
    assert_eq!(found.text_at("sensitivity"), Some("internal"));
    assert_eq!(
        found.get("provenance").expect("a provenance").to_text(),
        r#"{"effect_id":"eff-1","fencing_token":3,"operation_id":"memory.put","written_at_ms":1234}"#
    );

    let replay = run(
        &mut store,
        "memory.put",
        r#"{"op":"memory.put","namespace":"notes","record":{"text":"other"}}"#,
    );
    assert_eq!(replay.status, "succeeded");
    assert_eq!(replay.result_ref, put.result_ref);

    assert_eq!(status(&store.ops, "memory.get").status, "succeeded");
    assert_eq!(status(&store.ops, "other").status, "not_found");
}

#[test]
fn memory_namespaces_are_plain() {
    assert!(valid_namespace("a"));
    assert!(valid_namespace("a.b_c-9"));
    assert!(valid_namespace(&"a".repeat(64)));
    assert!(!valid_namespace(&"a".repeat(65)));
    assert!(!valid_namespace(""));
    assert!(!valid_namespace(".a"));
    assert!(!valid_namespace("A"));
    assert!(!valid_namespace("a/b"));
    assert_eq!(sensitivity_rank("public"), Some(0));
    assert_eq!(sensitivity_rank("internal"), Some(1));
    assert_eq!(sensitivity_rank("confidential"), Some(2));
    assert_eq!(sensitivity_rank("secret"), Some(3));
    assert_eq!(sensitivity_rank("other"), None);
}

#[test]
fn memory_failures_change_nothing() {
    let mut store = MemoryStore::new();
    assert_eq!(fails(&mut store, "nonsense"), "invalid_argument");
    assert_eq!(fails(&mut store, r#"{"op":"other","namespace":"n"}"#), "unsupported_operation");
    assert_eq!(fails(&mut store, r#"{"op":"memory.put","namespace":"N"}"#), "unsupported_operation");
    assert_eq!(fails(&mut store, r#"{"op":"memory.fly","namespace":"n"}"#), "unsupported_operation");
    assert_eq!(fails(&mut store, r#"{"op":"memory.put","namespace":"n"}"#), "invalid_argument");
    assert_eq!(fails(&mut store, r#"{"op":"memory.get","namespace":"n"}"#), "invalid_argument");
    assert_eq!(fails(&mut store, r#"{"op":"memory.delete","namespace":"n"}"#), "invalid_argument");
    assert_eq!(
        fails(&mut store, r#"{"op":"memory.get","namespace":"n","memory_id":"x"}"#),
        "not_found"
    );
    assert_eq!(
        fails(&mut store, r#"{"op":"memory.put","namespace":"n","record":1,"sensitivity":"odd"}"#),
        "invalid_sensitivity"
    );
    assert_eq!(store.ops.len(), 0);
}

#[test]
fn memory_sensitivity_never_falls() {
    let mut store = MemoryStore::new();
    let put = |class: &str| {
        format!(r#"{{"op":"memory.put","namespace":"n","memory_id":"i","record":1,"sensitivity":"{class}"}}"#)
    };
    assert_eq!(run(&mut store, "op-1", &put("confidential")).status, "succeeded");
    assert_eq!(fails(&mut store, &put("internal")), "sensitivity_downgrade");
    assert_eq!(run(&mut store, "op-2", &put("secret")).status, "succeeded");
    let get = run(&mut store, "op-3", r#"{"op":"memory.get","namespace":"n","memory_id":"i"}"#);
    assert_eq!(read(&get).text_at("sensitivity"), Some("secret"));
}

#[test]
fn memory_is_listed_searched_and_deleted() {
    let mut store = MemoryStore::new();
    for (op, id, text) in [("1", "b", "Straße Blue"), ("2", "a", "red")] {
        let payload = format!(
            r#"{{"op":"memory.put","namespace":"n","memory_id":"{id}","record":{{"text":"{text}"}}}}"#
        );
        assert_eq!(run(&mut store, op, &payload).result_ref, format!("memory://n/{id}"));
    }
    let list = run(&mut store, "3", r#"{"op":"memory.list","namespace":"n"}"#);
    assert_eq!(
        read(&list).to_text(),
        r#"[{"id":"a","sensitivity":"internal"},{"id":"b","sensitivity":"internal"}]"#
    );
    let search = run(
        &mut store,
        "4",
        r#"{"op":"memory.search","namespace":"n","query":{"text":"BLUE"}}"#,
    );
    assert_eq!(read(&search).to_text(), r#"[{"id":"b","sensitivity":"internal"}]"#);
    let elsewhere = run(&mut store, "5", r#"{"op":"memory.list","namespace":"m"}"#);
    assert_eq!(read(&elsewhere).to_text(), "[]");
    let gone = run(&mut store, "6", r#"{"op":"memory.delete","namespace":"n","memory_id":"b"}"#);
    assert_eq!(gone.status, "succeeded");
    assert_eq!(
        fails(&mut store, r#"{"op":"memory.get","namespace":"n","memory_id":"b"}"#),
        "not_found"
    );
}

// Counted effects

fn counted(store: &mut CounterStore, operation: &str, token: u64) -> ExecutionResponse {
    effect_adapter::execute(store, &ExecutionRequest { fencing_token: token, ..request(operation, "") }, 2)
}

#[test]
fn effects_are_counted_once() {
    let mut store = CounterStore::new();
    let a = counted(&mut store, "op-A", 2);
    let b = counted(&mut store, "op-B", 3);
    let again = counted(&mut store, "op-A", 9);
    assert_eq!(a.status, "succeeded");
    assert_eq!(a.result_ref, again.result_ref);
    assert_ne!(a.result_ref, b.result_ref);
    assert_eq!(store.len(), 2);
}

#[test]
fn stale_tokens_are_rejected() {
    let mut store = CounterStore::new();
    let stale = counted(&mut store, "op-A", 1);
    assert_eq!(stale.error_code, "fencing_rejected");
    assert_eq!(store.len(), 0);
    assert_eq!(effect_adapter::status(&store, "op-A").status, "not_found");
    counted(&mut store, "op-A", 2);
    assert_eq!(effect_adapter::status(&store, "op-A").status, "succeeded");
}

#[test]
fn counted_effects_are_saved_and_loaded() {
    let mut store = CounterStore::new();
    counted(&mut store, "op-A", 2);
    let b = counted(&mut store, "op-B", 2);
    let saved = effect_adapter::save_document(&store).to_text();
    let mut loaded = effect_adapter::load_document(&Json::from_text(&saved));
    assert_eq!(loaded.len(), 2);
    assert_eq!(counted(&mut loaded, "op-B", 2).result_ref, b.result_ref);
    assert_eq!(effect_adapter::load_document(&None).len(), 0);
}

#[test]
fn operations_are_named() {
    assert_eq!(operation_of("execute"), Operation::Execute);
    assert_eq!(operation_of("status"), Operation::Status);
    assert_eq!(operation_of("other"), Operation::Unknown);
    assert_eq!(refusal(Operation::Unknown), "unknown_operation");
    assert_eq!(refusal(Operation::Execute), "invalid_argument");
}

#[test]
fn agent_turns_go_step_by_step() {
    let step = |event: AcpEvent| acp_turn(event, "/w", "do it", "said");
    let asked = |event: AcpEvent| match step(event) {
        AcpAction::Request { method, params } => (method, params.to_text()),
        other => panic!("nothing is asked: {other:?}"),
    };
    let code = |event: AcpEvent| match step(event) {
        AcpAction::Done(Err(code)) => code,
        other => panic!("no failure: {other:?}"),
    };
    assert_eq!(asked(AcpEvent::Spawned(Ok(()))).0, "initialize");
    assert_eq!(
        asked(AcpEvent::Initialized(Ok(()))),
        ("session/new".to_string(), r#"{"cwd":"/w","mcpServers":[]}"#.to_string())
    );
    assert_eq!(
        asked(AcpEvent::Opened(Ok(doc(r#"{"sessionId":"s"}"#)))),
        (
            "session/prompt".to_string(),
            r#"{"prompt":[{"text":"do it","type":"text"}],"sessionId":"s"}"#.to_string()
        )
    );
    assert!(matches!(step(AcpEvent::Prompted(Ok(()))), AcpAction::Done(Ok(t)) if t == "said"));
    let long = "x".repeat(100);
    assert_eq!(code(AcpEvent::Spawned(Err(long))), format!("acp_spawn_{}", "x".repeat(80)));
    assert_eq!(code(AcpEvent::Initialized(Err("e".to_string()))), "acp_initialize_e");
    assert_eq!(code(AcpEvent::Opened(Err("e".to_string()))), "acp_session_e");
    assert_eq!(code(AcpEvent::Prompted(Err("e".to_string()))), "acp_prompt_e");
}
