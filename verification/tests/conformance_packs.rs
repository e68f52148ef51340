//! Conformance packs against adapters that keep, and that break, what they declare.

use agent_os::conformance::effect_pack::{EffectPack, Outcome, Probe};
use agent_os::conformance::{
    deadline_seen, encode_oversized_frame, spec, CaseResult, FixtureBinary, Observation, ProtocolPack,
    ProtocolStage,
};
use agent_os::effect_adapter::{execute, status, CounterStore};
use agent_os::errors::ErrorCode;
use agent_os::ids::uuid_v7;

fn fixture() -> FixtureBinary {
    FixtureBinary {
        executable: "/bin/adapter".to_string(),
        adapter_id: "adapter-1".to_string(),
        adapter_version: "0.1.0".to_string(),
        bundle_digest: "sha256:any".to_string(),
        env: vec![("A".to_string(), "1".to_string())],
    }
}

fn variable<'a>(env: &'a [(String, String)], name: &str) -> Option<&'a str> {
    env.iter().rev().find(|(k, _)| k == name).map(|(_, v)| v.as_str())
}

/// Runs the pack for effect adapters against the counting adapter.
fn run_honest() -> Vec<CaseResult> {
    let fx = fixture();
    let mut pack = EffectPack::new();
    let mut store = CounterStore::new();
    let mut crashes = false;
    let mut min_fence = 0;
    while let Some(probe) = pack.probe() {
        if let Some(launch) = pack.launch(&fx, "/store") {
            assert_eq!(variable(&launch.env, "FIXTURE_STORE"), Some("/store"));
            crashes = variable(&launch.env, "FIXTURE_CRASH_BEFORE_RESPONSE").is_some();
            min_fence = variable(&launch.env, "FIXTURE_MIN_FENCE").map_or(0, |v| v.parse().unwrap());
        }
        let outcome = match probe {
            Probe::Execute { request, .. } => {
                let answer = execute(&mut store, &request, min_fence);
                if crashes {
                    Outcome::Failed
                } else {
                    Outcome::Executed(answer)
                }
            }
            Probe::Status { operation_id, .. } => Outcome::Told(status(&store, &operation_id).status),
        };
        pack.record(outcome);
    }
    pack.cases
}

/// Runs the pack for the process protocol against an adapter that keeps to it.
fn run_protocol() -> Vec<CaseResult> {
    let mut pack = ProtocolPack::new("adapter-1");
    while pack.stage != ProtocolStage::Done {
        let seen = match pack.stage {
            ProtocolStage::Identity => Observation::Greeted("adapter-1".to_string()),
            ProtocolStage::PingPong => Observation::Answered { pong: true, call: true },
            _ => deadline_seen(Some(ErrorCode::Unavailable), "deadline"),
        };
        pack.record(seen);
    }
    pack.cases
}

#[test]
fn fixture_effect_adapter_conformance_pass() {
    let mut cases = run_protocol();
    cases.extend(run_honest());
    assert!(cases.iter().all(|c| c.passed), "all conformance cases must pass: {cases:#?}");
    assert_eq!(cases.len(), 6);
    let ids: Vec<&str> = cases.iter().map(|c| c.test_id.as_str()).collect();
    assert_eq!(
        ids,
        [
            "protocol.handshake_identity",
            "protocol.ping_pong_and_call",
            "protocol.deadline_expiry",
            "effect.execute_and_idempotent_replay",
            "effect.crash_then_status_reconcile",
            "effect.fencing_rejection",
        ]
    );
    assert_eq!(cases[4].details, "crash lost the response; status() recovered the effect");
}

#[test]
fn lying_capability_declaration_fails() {
    let mut pack = ProtocolPack::new("adapter-1");
    while pack.stage != ProtocolStage::Done {
        pack.record(Observation::HandshakeFailed("closed".to_string()));
    }
    assert_eq!(pack.cases.len(), 2);
    assert!(pack.cases.iter().all(|c| !c.passed), "a liar must fail every case");
}

#[test]
fn silent_effect_adapters_fail_every_case() {
    let mut pack = EffectPack::new();
    while pack.probe().is_some() {
        pack.record(Outcome::Failed);
    }
    assert_eq!(pack.cases.len(), 3);
    assert!(pack.cases.iter().all(|c| !c.passed));
    assert_eq!(pack.cases[0].details, "idempotent replay mismatch");
    assert_eq!(pack.cases[1].details, "crashed=true reconciled=false");
    assert_eq!(pack.cases[2].details, "stale fencing token was accepted");
}

#[test]
fn only_an_unavailable_kernel_is_a_deadline() {
    assert!(matches!(deadline_seen(Some(ErrorCode::Unavailable), "x"), Observation::Expired));
    assert!(matches!(deadline_seen(Some(ErrorCode::Internal), "x"),
        Observation::NotExpired(told) if told == "x"));
    assert!(matches!(deadline_seen(None, "call succeeded"),
        Observation::NotExpired(told) if told == "call succeeded"));
}

#[test]
fn adapters_are_launched_with_their_identity() {
    let launch = spec(&fixture(), &vec![("B".to_string(), "2".to_string())], 11);
    let keys: Vec<&str> = launch.env.iter().map(|(k, _)| k.as_str()).collect();
    assert_eq!(
        keys,
        [
            "PATH",
            "FIXTURE_ADAPTER_ID",
            "FIXTURE_ADAPTER_VERSION",
            "FIXTURE_LOOP_ADAPTER_ID",
            "FIXTURE_LOOP_ADAPTER_VERSION",
            "A",
            "B",
        ]
    );
    assert_eq!(launch.env[0].1, "/usr/bin:/bin");
    assert_eq!(launch.env[1].1, "adapter-1");
    assert_eq!(launch.expected_bundle_digest, "sha256:any");
    assert_eq!(launch.adapter_instance_id, uuid_v7(11, 0));
    assert_eq!(launch.daemon_instance_id, uuid_v7(11, 1));
}

#[test]
fn protocol_packs_pass_stage_by_stage() {
    let fx = fixture();
    let mut pack = ProtocolPack::new("adapter-1");
    assert!(pack.call().is_none());
    pack.record(Observation::Greeted("adapter-1".to_string()));
    assert_eq!(pack.launch(&fx).adapter_instance_id, uuid_v7(12, 0));
    let (request, ms) = pack.call().expect("a call");
    assert_eq!((request.call_id.as_str(), ms), ("c1", 3000));
    assert_eq!(request.payload, b"{}");
    pack.record(Observation::Answered { pong: true, call: true });
    assert_eq!(variable(&pack.launch(&fx).env, "FIXTURE_DELAY_MS"), Some("2000"));
    assert_eq!(pack.call().expect("a call").1, 150);
    pack.record(Observation::Expired);
    assert_eq!(pack.stage, ProtocolStage::Done);
    assert!(pack.cases.iter().all(|c| c.passed));
    assert_eq!(pack.cases.len(), 3);
}

#[test]
fn protocol_packs_tell_what_failed() {
    let mut pack = ProtocolPack::new("adapter-1");
    pack.record(Observation::SpawnFailed("no file".to_string()));
    assert_eq!(pack.stage, ProtocolStage::Done);
    assert_eq!(pack.cases[0].details, "spawn: no file");

    let mut pack = ProtocolPack::new("adapter-1");
    pack.record(Observation::Greeted("other".to_string()));
    assert_eq!(pack.cases[0].details, "hello returned wrong identity");
    pack.record(Observation::Answered { pong: true, call: false });
    assert_eq!(pack.cases[1].details, "pong=true call=false");
    pack.record(Observation::NotExpired("call succeeded".to_string()));
    assert_eq!(pack.cases[2].details, "expected deadline, got call succeeded");

    for (seen, told) in [
        (Observation::HandshakeFailed("e".to_string()), "handshake: e"),
        (Observation::PingFailed("e".to_string()), "ping write: e"),
        (Observation::NoTimeout, "read timeout not settable"),
    ] {
        let mut pack = ProtocolPack::new("adapter-1");
        pack.record(Observation::HandshakeFailed("first".to_string()));
        assert_eq!(pack.stage, ProtocolStage::PingPong);
        pack.record(seen);
        assert_eq!(pack.stage, ProtocolStage::Done);
        assert_eq!(pack.cases[1].details, told);
    }
}

#[test]
fn oversized_frames_announce_one_byte_too_many() {
    assert_eq!(encode_oversized_frame(0x00ff_ffff), [1, 0, 0, 0]);
}
