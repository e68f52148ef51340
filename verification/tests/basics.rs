//! Texts, documents, encodings, frames, sessions, and the desktop shell.

use agent_os::base64::{
    base64_decode, base64_decode_lenient, base64_encode, clip, data_uri, decode_data_uri,
};
use agent_os::desktop::{
    agentd_args, agentgw_args, bootstrap, choose_boot, choose_port, config_name, daemon_poll, entrypoint_of,
    error_page, gateway_poll, gateway_url, is_sidecar, setting, stop_step, urlencode, Boot, BootAction,
    BootEvent, Poll, StopStep,
};
use agent_os::framing::{body_length, frame, length_bytes};
use agent_os::json::{items, members, number_json, Json};
use agent_os::ordered::TextMap;
use agent_os::session::{greet, receive, AdapterBootstrap, Incoming, PortCall, SessionStep};
use agent_os::text::{
    decimal_text, lines, parse_u64, replace, signed_text, split_on, split_once, trim, words,
};

#[test]
fn texts_are_taken_apart() {
    assert_eq!(trim("\u{3000} a b\n"), "a b");
    assert_eq!(words(" a  b\tc "), ["a", "b", "c"]);
    assert_eq!(lines("a\r\nb\n\nc"), ["a", "b", "", "c"]);
    assert_eq!(lines("a\n"), ["a"]);
    assert_eq!(split_on("a,,b", ','), ["a", "", "b"]);
    assert_eq!(split_once("a::b::c", "::"), Some(("a".to_string(), "b::c".to_string())));
    assert_eq!(split_once("abc", "::"), None);
    assert_eq!(replace("aaa", "aa", "b"), "ba");
}

#[test]
fn numbers_are_read_and_written() {
    assert_eq!(parse_u64("18446744073709551615"), Some(u64::MAX));
    assert_eq!(parse_u64("18446744073709551616"), None);
    assert_eq!(parse_u64("+7"), Some(7));
    for bad in ["", "+", "-1", "1 ", "a"] {
        assert_eq!(parse_u64(bad), None, "{bad}");
    }
    assert_eq!(decimal_text(0), "0");
    assert_eq!(decimal_text(u64::MAX), "18446744073709551615");
    assert_eq!(signed_text(i64::MIN), "-9223372036854775808");
}

#[test]
fn documents_are_read_and_written() {
    let v = Json::from_text(r#"{"b":[1,-2,0.5,null,true],"a":"x\n"}"#).expect("a document");
    assert_eq!(v.to_text(), r#"{"a":"x\n","b":[1,-2,0.5,null,true]}"#);
    assert_eq!(v.to_bytes(), v.to_text().as_bytes());
    let list = v.array_at("b").expect("a list");
    assert_eq!(list[0].as_u64(), Some(1));
    assert_eq!(list[1].as_i64(), Some(-2));
    assert_eq!(list[1].as_u64(), None);
    assert_eq!(list[2].as_i64(), None);
    assert!(list[3].is_null());
    assert_eq!(list[4].as_bool(), Some(true));
    assert!(Json::from_text("{").is_none());
    assert!(Json::from_bytes(&[0xff]).is_none());
    assert_eq!(Json::from_text(r#"{"a":1,"a":2}"#).expect("the last one counts").to_text(), r#"{"a":2}"#);
}

#[test]
fn documents_are_built() {
    let mut v = members()
        .put_text("z", "1")
        .put("a", items().push(number_json(-3)).push(Json::Null).array())
        .object();
    v.set("m", Json::Bool(false));
    assert_eq!(v.to_text(), r#"{"a":[-3,null],"m":false,"z":"1"}"#);
    assert_eq!(v.copy().to_text(), v.to_text());
    assert!(v.is_object());
    assert_eq!(Json::text("q\"").to_text(), r#""q\"""#);
}

#[test]
fn maps_are_kept_in_order() {
    let mut map: TextMap<u64> = TextMap::new();
    for (key, value) in [("b", 1), ("a", 2), ("c", 3), ("a", 4)] {
        map.insert(key.to_string(), value);
    }
    assert_eq!(map.len(), 3);
    assert_eq!(map.get("a"), Some(&4));
    assert!(!map.contains_key("d"));
    map.remove("b");
    assert_eq!(map.get("b"), None);
    assert_eq!(map.len(), 2);
}

#[test]
fn base64_has_its_known_values() {
    for (plain, coded) in [
        ("", ""),
        ("f", "Zg=="),
        ("fo", "Zm8="),
        ("foo", "Zm9v"),
        ("foob", "Zm9vYg=="),
        ("fooba", "Zm9vYmE="),
        ("foobar", "Zm9vYmFy"),
    ] {
        assert_eq!(base64_encode(plain.as_bytes()), coded);
        assert_eq!(base64_decode(coded).as_deref(), Some(plain.as_bytes()));
        assert_eq!(base64_decode_lenient(coded), plain.as_bytes());
    }
    assert_eq!(base64_encode(&[0xfb, 0xff]), "+/8=");
    assert_eq!(base64_decode("Zg"), Some(b"f".to_vec()));
    assert_eq!(base64_decode("Z"), None);
    assert_eq!(base64_decode("Zm9-"), None);
}

#[test]
fn uris_carry_their_text() {
    let uri = data_uri("grüße", 100);
    assert_eq!(decode_data_uri(&uri).as_deref(), Some("grüße"));
    assert_eq!(clip("grüße", 3), "gr");
    assert_eq!(clip("grüße", 4), "grü");
    assert_eq!(decode_data_uri(&data_uri("grüße", 3)).as_deref(), Some("gr"));
    assert_eq!(decode_data_uri("data:text/plain,hi"), None);
    assert_eq!(decode_data_uri("data:;base64,/w=="), None);
}

#[test]
fn frames_are_read_back() {
    let framed = frame(b"hello");
    assert_eq!(framed, [0, 0, 0, 5, b'h', b'e', b'l', b'l', b'o']);
    assert_eq!(body_length(&framed[..4]), 5);
    assert_eq!(length_bytes(0x0102_0304), [1, 2, 3, 4]);
}

#[test]
fn sessions_begin_with_a_bootstrap() {
    let first = Incoming::Bootstrap(AdapterBootstrap {
        adapter_instance_id: "i".to_string(),
        expected_bundle_digest: "d".to_string(),
    });
    let hello = greet(Some(first), "a", "1", "effect.execute").expect("a greeting");
    assert_eq!(hello.adapter_instance_id, "i");
    assert_eq!(hello.bundle_digest, "d");
    assert_eq!((hello.adapter_id.as_str(), hello.adapter_version.as_str()), ("a", "1"));
    assert_eq!(hello.protocol_version, 1);
    assert_eq!(hello.implemented_ports, ["effect.execute"]);
    assert!(greet(None, "a", "1", "p").is_err());
    assert!(greet(Some(Incoming::Shutdown), "a", "1", "p").is_err());
}

#[test]
fn sessions_serve_requests() {
    let call = PortCall {
        call_id: "c".to_string(),
        operation: "execute".to_string(),
        payload: vec![1],
    };
    assert!(matches!(receive(Incoming::Request(call)), SessionStep::Serve(c) if c.call_id == "c"));
    let ping = Incoming::Ping { nonce: "n".to_string() };
    assert!(matches!(receive(ping), SessionStep::Pong { nonce } if nonce == "n"));
    assert!(matches!(receive(Incoming::Shutdown), SessionStep::Stop));
    assert!(matches!(receive(Incoming::Other), SessionStep::Skip));
    assert!(matches!(receive(Incoming::Empty), SessionStep::Skip));
}

// The desktop shell

#[test]
fn urls_are_escaped() {
    assert_eq!(urlencode("aZ9-_.~"), "aZ9-_.~");
    assert_eq!(urlencode("a b&é—"), "a%20b%26%C3%A9%E2%80%94");
    assert_eq!(error_page("tauri://localhost", "a?"), "tauri://localhost/error.html?msg=a%3F");
}

#[test]
fn entrypoints_are_found_in_manifests() {
    assert_eq!(
        entrypoint_of(r#"{"name":"x", "entrypoint" : "bin/run", "y":1}"#).as_deref(),
        Some("bin/run")
    );
    assert_eq!(entrypoint_of(r#"{"entrypoint":""}"#).as_deref(), Some(""));
    assert_eq!(entrypoint_of(r#"{"entrypoint":3}"#), None);
    assert_eq!(entrypoint_of(r#"{"entrypoint":"open"#), None);
    assert_eq!(entrypoint_of(r#"{"entrypoint""#), None);
    assert_eq!(entrypoint_of("{}"), None);
}

#[test]
fn services_are_found_by_name() {
    assert!(is_sidecar("agentd", "agentd"));
    assert!(is_sidecar("agentd.exe", "agentd"));
    assert!(is_sidecar("agentd-x86_64-unknown-linux-gnu", "agentd"));
    assert!(!is_sidecar("agentd2", "agentd"));
    assert!(!is_sidecar("agent", "agentd"));
}

#[test]
fn settings_choose_the_configuration() {
    assert_eq!(setting(Some(" ")), None);
    assert_eq!(setting(Some(" x")).as_deref(), Some(" x"));
    assert_eq!(setting(None), None);
    assert_eq!(config_name(Some("mine.yaml"), Some("k")), "mine.yaml");
    assert_eq!(config_name(Some(""), Some("k")), "openrouter.yaml");
    assert_eq!(config_name(None, Some(" ")), "default.yaml");
}

#[test]
fn shells_boot_with_what_is_there() {
    assert!(matches!(choose_boot(true, true, true, "/r"), Boot::Start));
    assert!(matches!(choose_boot(false, true, false, "/r"),
        Boot::Remote { url } if url == "http://127.0.0.1:7740"));
    assert!(matches!(choose_boot(true, false, true, "/r"),
        Boot::Fail { message } if message.starts_with("embedded services missing")));
    assert!(matches!(choose_boot(true, true, false, "/r"),
        Boot::Fail { message } if message == "embedded runtime not staged (missing /r)"));
    assert_eq!(choose_port(Some(7740), Some(9)), 7740);
    assert_eq!(choose_port(None, Some(9)), 9);
    assert_eq!(choose_port(None, None), 7740);
    assert_eq!(gateway_url(7740), "http://127.0.0.1:7740/");
    let bundles = vec!["b1".to_string(), "b2".to_string()];
    assert_eq!(
        agentd_args("/r", "/c.yaml", &bundles),
        ["--runtime-dir", "/r", "--config", "/c.yaml", "--adapter-bundle", "b1", "--adapter-bundle", "b2"]
    );
    assert_eq!(agentgw_args("/s", 9), ["--socket", "/s", "--listen", "127.0.0.1:9"]);
}

#[test]
fn waits_end_with_a_reason() {
    let told = |p: Poll| match p {
        Poll::Fail { message } => message,
        other => panic!("no failure: {other:?}"),
    };
    assert!(matches!(daemon_poll(false, false, false, true, "/s"), Poll::Ready));
    assert!(matches!(daemon_poll(false, false, false, false, "/s"), Poll::Again));
    assert_eq!(told(daemon_poll(false, true, true, true, "/s")), "startup cancelled");
    assert_eq!(
        told(daemon_poll(false, false, true, true, "/s")),
        "agentd exited during startup — see logs/agentd.log in the app data dir"
    );
    assert_eq!(
        told(daemon_poll(true, true, true, true, "/s")),
        "daemon did not create /s within 30s — see logs/agentd.log in the app data dir"
    );
    assert!(matches!(gateway_poll(false, false, true, 9), Poll::Ready));
    assert!(matches!(gateway_poll(false, false, false, 9), Poll::Again));
    assert_eq!(told(gateway_poll(false, true, true, 9)), "startup cancelled");
    assert_eq!(
        told(gateway_poll(true, false, false, 9)),
        "gateway did not open port 9 within 30s — see logs/agentgw.log in the app data dir"
    );
    assert_eq!(stop_step(false, false, false), StopStep::Done);
    assert_eq!(stop_step(true, false, true), StopStep::Ask);
    assert_eq!(stop_step(true, true, false), StopStep::Wait);
    assert_eq!(stop_step(true, true, true), StopStep::Kill);
}

#[test]
fn shells_start_step_by_step() {
    let located = BootEvent::Located {
        has_agentd: true,
        has_agentgw: true,
        packaged: true,
        staged: "/r".to_string(),
    };
    assert!(matches!(bootstrap(located), BootAction::Stage));
    assert!(matches!(bootstrap(BootEvent::Staged(Ok(()))), BootAction::Probe));
    assert!(matches!(bootstrap(BootEvent::Probed { ready: false }), BootAction::LaunchDaemon));
    assert!(matches!(bootstrap(BootEvent::Probed { ready: true }), BootAction::Check));
    assert!(matches!(bootstrap(BootEvent::DaemonLaunched(Ok(()))), BootAction::WatchDaemon));
    let seen = |cancelled: bool, ready: bool| {
        bootstrap(BootEvent::DaemonSeen {
            late: false,
            cancelled,
            exited: false,
            ready,
            socket: "/s".to_string(),
        })
    };
    assert!(matches!(seen(false, false), BootAction::WatchDaemon));
    assert!(matches!(seen(false, true), BootAction::Check));
    assert!(matches!(seen(true, true), BootAction::Done(Err(e)) if e == "startup cancelled"));
    assert!(matches!(bootstrap(BootEvent::Checked { cancelled: false }), BootAction::LaunchGateway));
    assert!(matches!(bootstrap(BootEvent::Checked { cancelled: true }), BootAction::Done(Err(_))));
    assert!(matches!(
        bootstrap(BootEvent::GatewayLaunched(Ok(9))),
        BootAction::WatchGateway { port: 9 }
    ));
    let shown = bootstrap(BootEvent::GatewaySeen {
        late: false,
        cancelled: false,
        connected: true,
        port: 9,
    });
    assert!(matches!(shown, BootAction::Done(Ok(url)) if url == "http://127.0.0.1:9/"));
    let failed = bootstrap(BootEvent::Staged(Err("disk".to_string())));
    assert!(matches!(failed, BootAction::Done(Err(e)) if e == "disk"));
}
