//! Conformance packs for adapters: how the adapter under test is launched, what is
//! probed, and what each observation means.

use vstd::prelude::*;
use vstd::string::*;

use crate::effects::ExecutionRequest;
use crate::errors::ErrorCode;
use crate::framing::{be_bytes, be_value, length_bytes, length_is_read_back};
use crate::ids::{v7_number, DeterministicIds, Uuid};
use crate::openrouter_effect::mcp::text_pairs;
use crate::text::{join, same_text};

pub mod effect_pack;

pub mod laws;

verus! {

/// The result of one case.
#[derive(Clone, Debug, PartialEq, Eq)]
pub struct CaseResult {
    /// The stable id of the case, such as `protocol.handshake_identity`.
    pub test_id: String,
    /// Whether the case passed.
    pub passed: bool,
    /// What was seen.
    pub details: String,
}

/// The value of a [`CaseResult`].
#[verifier::ext_equal]
pub struct CaseView {
    pub test_id: Seq<char>,
    pub passed: bool,
    pub details: Seq<char>,
}

impl View for CaseResult {
    type V = CaseView;

    open spec fn view(&self) -> CaseView {
        CaseView { test_id: self.test_id@, passed: self.passed, details: self.details@ }
    }
}

/// The values of cases.
pub open spec fn case_views(cases: Seq<CaseResult>) -> Seq<CaseView> {
    cases.map_values(|c: CaseResult| c@)
}

impl CaseResult {
    fn pass(id: &str, details: &str) -> (r: Self)
        ensures
            r@ == (CaseView { test_id: id@, passed: true, details: details@ }),
    {
        CaseResult { test_id: id.to_owned(), passed: true, details: details.to_owned() }
    }

    fn fail(id: &str, details: &str) -> (r: Self)
        ensures
            r@ == (CaseView { test_id: id@, passed: false, details: details@ }),
    {
        CaseResult { test_id: id.to_owned(), passed: false, details: details.to_owned() }
    }
}

// ---------------------------------------------------------------------------
// Launching the adapter
// ---------------------------------------------------------------------------

/// What a pack needs to launch the adapter under test.
#[derive(Clone, Debug)]
pub struct FixtureBinary {
    /// The path of the adapter's executable.
    pub executable: String,
    /// The adapter's id, which it repeats in its greeting.
    pub adapter_id: String,
    /// The adapter's version, which it repeats in its greeting.
    pub adapter_version: String,
    /// The digest of the adapter's bundle, which it repeats in its greeting.
    pub bundle_digest: String,
    /// Further variables of the adapter's environment.
    pub env: Vec<(String, String)>,
}

/// How an adapter is launched.
#[derive(Debug)]
pub struct LaunchSpec {
    pub adapter_id: String,
    pub adapter_version: String,
    pub expected_bundle_digest: String,
    pub adapter_instance_id: Uuid,
    pub daemon_instance_id: Uuid,
    pub daemon_fencing_epoch: u64,
    pub protocol_version: u32,
    pub executable: String,
    pub env: Vec<(String, String)>,
}

/// The environment of the adapter: the path, the adapter's identity for either
/// kind of adapter, the variables of the fixture and then the extra ones.
pub open spec fn launch_env(
    fx: FixtureBinary,
    extra: Seq<(Seq<char>, Seq<char>)>,
) -> Seq<(Seq<char>, Seq<char>)> {
    seq![
        ("PATH"@, "/usr/bin:/bin"@),
        ("FIXTURE_ADAPTER_ID"@, fx.adapter_id@),
        ("FIXTURE_ADAPTER_VERSION"@, fx.adapter_version@),
        ("FIXTURE_LOOP_ADAPTER_ID"@, fx.adapter_id@),
        ("FIXTURE_LOOP_ADAPTER_VERSION"@, fx.adapter_version@),
    ] + text_pairs(fx.env@) + extra
}

fn add_pair(env: &mut Vec<(String, String)>, key: &str, value: &str)
    ensures
        text_pairs(final(env)@) == text_pairs(old(env)@).push((key@, value@)),
{
    let p = (key.to_owned(), value.to_owned());
    assert(text_pairs(env@.push(p)) =~= text_pairs(env@).push((p.0@, p.1@)));
    env.push(p);
}

fn add_pairs(env: &mut Vec<(String, String)>, more: &Vec<(String, String)>)
    ensures
        text_pairs(final(env)@) == text_pairs(old(env)@) + text_pairs(more@),
{
    let ghost before = text_pairs(env@);
    let ghost add = text_pairs(more@);
    let mut i: usize = 0;
    assert(before + add.take(0) =~= before);
    while i < more.len()
        invariant
            i <= more.len(),
            add == text_pairs(more@),
            text_pairs(env@) == before + add.take(i as int),
        decreases more.len() - i,
    {
        assert((before + add.take(i as int)).push(add[i as int]) =~= before + add.take(i + 1));
        add_pair(env, more[i].0.as_str(), more[i].1.as_str());
        i += 1;
    }
    assert(add.take(more.len() as int) =~= add);
}

/// Whether `r` launches the adapter under test, with extra variables and with the ids
/// of a seed.
pub open spec fn launches(
    r: LaunchSpec,
    fx: FixtureBinary,
    extra: Seq<(Seq<char>, Seq<char>)>,
    seed: int,
) -> bool {
    &&& r.adapter_id@ == fx.adapter_id@
    &&& r.adapter_version@ == fx.adapter_version@
    &&& r.expected_bundle_digest@ == fx.bundle_digest@
    &&& r.executable@ == fx.executable@
    &&& r.adapter_instance_id.number == v7_number(seed, 0)
    &&& r.daemon_instance_id.number == v7_number(seed, 1)
    &&& r.daemon_fencing_epoch == 1
    &&& r.protocol_version == 1
    &&& text_pairs(r.env@) == launch_env(fx, extra)
}

/// How the adapter under test is launched; the seed gives the ids of the instance
/// and of the daemon.
pub fn spec(fx: &FixtureBinary, extra_env: &Vec<(String, String)>, seed: i64) -> (r: LaunchSpec)
    ensures
        launches(r, *fx, text_pairs(extra_env@), seed as int),
{
    let mut ids = DeterministicIds::new(seed);
    let mut env: Vec<(String, String)> = Vec::new();
    assert(text_pairs(env@) =~= Seq::empty());
    add_pair(&mut env, "PATH", "/usr/bin:/bin");
    add_pair(&mut env, "FIXTURE_ADAPTER_ID", fx.adapter_id.as_str());
    add_pair(&mut env, "FIXTURE_ADAPTER_VERSION", fx.adapter_version.as_str());
    add_pair(&mut env, "FIXTURE_LOOP_ADAPTER_ID", fx.adapter_id.as_str());
    add_pair(&mut env, "FIXTURE_LOOP_ADAPTER_VERSION", fx.adapter_version.as_str());
    assert(text_pairs(env@) =~= seq![
        ("PATH"@, "/usr/bin:/bin"@),
        ("FIXTURE_ADAPTER_ID"@, fx.adapter_id@),
        ("FIXTURE_ADAPTER_VERSION"@, fx.adapter_version@),
        ("FIXTURE_LOOP_ADAPTER_ID"@, fx.adapter_id@),
        ("FIXTURE_LOOP_ADAPTER_VERSION"@, fx.adapter_version@),
    ]);
    add_pairs(&mut env, &fx.env);
    add_pairs(&mut env, extra_env);
    let adapter_instance_id = ids.new_uuid_v7();
    let daemon_instance_id = ids.new_uuid_v7();
    LaunchSpec {
        adapter_id: fx.adapter_id.clone(),
        adapter_version: fx.adapter_version.clone(),
        expected_bundle_digest: fx.bundle_digest.clone(),
        adapter_instance_id,
        daemon_instance_id,
        daemon_fencing_epoch: 1,
        protocol_version: 1,
        executable: fx.executable.clone(),
        env,
    }
}

/// A call of the port for effects.
#[derive(Debug)]
pub struct PortCallRequest {
    pub call_id: String,
    pub port_id: String,
    pub operation: String,
    pub payload: Vec<u8>,
}

/// A call of the port for effects.
pub fn request(call_id: &str, operation: &str, payload: Vec<u8>) -> (r: PortCallRequest)
    ensures
        r.call_id@ == call_id@,
        r.port_id@ == "effect.execute"@,
        r.operation@ == operation@,
        r.payload == payload,
{
    PortCallRequest {
        call_id: call_id.to_owned(),
        port_id: "effect.execute".to_owned(),
        operation: operation.to_owned(),
        payload,
    }
}

/// The effect that a probe asks for.
pub fn probe_effect(effect_id: &str, operation_id: &str, fencing_token: u64) -> (r: ExecutionRequest)
    ensures
        r.effect_id@ == effect_id@,
        r.operation_id@ == operation_id@,
        r.request_hash@ == "h"@,
        r.fencing_token == fencing_token,
        r.payload@ == Seq::<u8>::empty(),
{
    ExecutionRequest {
        effect_id: effect_id.to_owned(),
        operation_id: operation_id.to_owned(),
        request_hash: "h".to_owned(),
        fencing_token,
        payload: Vec::new(),
    }
}

/// The header of a frame whose body is one byte longer than a frame may be: a peer
/// that holds to the limit refuses it.
pub fn encode_oversized_frame(max_frame_bytes: u32) -> (r: Vec<u8>)
    requires
        max_frame_bytes < u32::MAX,
    ensures
        r@ == be_bytes((max_frame_bytes + 1) as u32),
        be_value(r@) == max_frame_bytes + 1,
{
    proof {
        length_is_read_back((max_frame_bytes + 1) as u32);
    }
    length_bytes(max_frame_bytes + 1)
}

// ---------------------------------------------------------------------------
// The pack for the process protocol
// ---------------------------------------------------------------------------

/// What was seen of a case of the pack for the process protocol.
#[derive(Debug)]
pub enum Observation {
    /// The adapter could not be launched.
    SpawnFailed(String),
    /// The adapter did not greet.
    HandshakeFailed(String),
    /// The adapter greeted with this id.
    Greeted(String),
    /// The ping could not be sent.
    PingFailed(String),
    /// The time limit of the answer could not be set.
    NoTimeout,
    /// Whether the ping and the call were answered.
    Answered { pong: bool, call: bool },
    /// The call ended at its deadline.
    Expired,
    /// The call ended otherwise, in the way that is told.
    NotExpired(String),
}

/// The value of an [`Observation`].
#[verifier::ext_equal]
pub enum ObservationView {
    SpawnFailed(Seq<char>),
    HandshakeFailed(Seq<char>),
    Greeted(Seq<char>),
    PingFailed(Seq<char>),
    NoTimeout,
    Answered { pong: bool, call: bool },
    Expired,
    NotExpired(Seq<char>),
}

impl View for Observation {
    type V = ObservationView;

    open spec fn view(&self) -> ObservationView {
        match self {
            Observation::SpawnFailed(e) => ObservationView::SpawnFailed(e@),
            Observation::HandshakeFailed(e) => ObservationView::HandshakeFailed(e@),
            Observation::Greeted(id) => ObservationView::Greeted(id@),
            Observation::PingFailed(e) => ObservationView::PingFailed(e@),
            Observation::NoTimeout => ObservationView::NoTimeout,
            Observation::Answered { pong, call } => ObservationView::Answered {
                pong: *pong,
                call: *call,
            },
            Observation::Expired => ObservationView::Expired,
            Observation::NotExpired(d) => ObservationView::NotExpired(d@),
        }
    }
}

/// The case that a pack for the process protocol is at.
#[derive(Clone, Copy, Debug, PartialEq, Eq, Structural)]
pub enum ProtocolStage {
    Identity,
    PingPong,
    Deadline,
    Done,
}

/// The id of the case of a stage.
pub open spec fn stage_id(stage: ProtocolStage) -> Seq<char> {
    match stage {
        ProtocolStage::Identity => "protocol.handshake_identity"@,
        ProtocolStage::PingPong => "protocol.ping_pong_and_call"@,
        _ => "protocol.deadline_expiry"@,
    }
}

/// The variables that the adapter gets in the case of a stage.
pub open spec fn stage_env(stage: ProtocolStage) -> Seq<(Seq<char>, Seq<char>)> {
    match stage {
        ProtocolStage::Identity | ProtocolStage::PingPong => Seq::empty(),
        _ => seq![("FIXTURE_DELAY_MS"@, "2000"@)],
    }
}

/// The seed of the ids in the case of a stage.
pub open spec fn stage_seed(stage: ProtocolStage) -> int {
    match stage {
        ProtocolStage::Identity => 11,
        ProtocolStage::PingPong => 12,
        _ => 13,
    }
}

/// The id of the call in the case of a stage, and the milliseconds that it is given.
pub open spec fn stage_call(stage: ProtocolStage) -> Option<(Seq<char>, u64)> {
    match stage {
        ProtocolStage::PingPong => Some(("c1"@, 3000u64)),
        ProtocolStage::Deadline => Some(("slow"@, 150u64)),
        _ => None,
    }
}

/// A truth value as a word.
pub open spec fn word(b: bool) -> Seq<char> {
    if b {
        "true"@
    } else {
        "false"@
    }
}

/// What an observation means for the case of a stage: whether it passes, and what
/// is told of it. `adapter_id` is the id that the adapter is to greet with.
pub open spec fn verdict(stage: ProtocolStage, adapter_id: Seq<char>, seen: ObservationView) -> (bool, Seq<char>) {
    match seen {
        ObservationView::SpawnFailed(e) => (false, "spawn: "@ + e),
        ObservationView::HandshakeFailed(e) => (false, "handshake: "@ + e),
        ObservationView::Greeted(id) => if id == adapter_id {
            (true, "hello echoes registered identity"@)
        } else {
            (false, "hello returned wrong identity"@)
        },
        ObservationView::PingFailed(e) => (false, "ping write: "@ + e),
        ObservationView::NoTimeout => (false, "read timeout not settable"@),
        ObservationView::Answered { pong, call } => if pong && call {
            (true, "pong answered, call responded"@)
        } else {
            (false, "pong="@ + word(pong) + " call="@ + word(call))
        },
        ObservationView::Expired => (true, "deadline closed the call"@),
        ObservationView::NotExpired(d) => (false, "expected deadline, got "@ + d),
    }
}

/// What is seen of a call with a deadline that did not succeed, or that did: only the
/// error of a kernel that is not available is that of the deadline. `code` is that of
/// the kernel's error, absent where there is none, and `told` is what is told else.
pub fn deadline_seen(code: Option<ErrorCode>, told: &str) -> (r: Observation)
    ensures
        r is Expired <==> code == Some(ErrorCode::Unavailable),
        r@ == (if code == Some(ErrorCode::Unavailable) {
            ObservationView::Expired
        } else {
            ObservationView::NotExpired(told@)
        }),
{
    match code {
        Some(ErrorCode::Unavailable) => Observation::Expired,
        _ => Observation::NotExpired(told.to_owned()),
    }
}

/// Whether an observation can be made of the case of a stage.
pub open spec fn fits(stage: ProtocolStage, seen: ObservationView) -> bool {
    match seen {
        ObservationView::SpawnFailed(_) => stage != ProtocolStage::Done,
        ObservationView::HandshakeFailed(_) => stage != ProtocolStage::Done,
        ObservationView::Greeted(_) => stage == ProtocolStage::Identity,
        ObservationView::PingFailed(_) => stage == ProtocolStage::PingPong,
        ObservationView::NoTimeout => stage == ProtocolStage::PingPong,
        ObservationView::Answered { .. } => stage == ProtocolStage::PingPong,
        ObservationView::Expired => stage == ProtocolStage::Deadline,
        ObservationView::NotExpired(_) => stage == ProtocolStage::Deadline,
    }
}

/// The stage after an observation: a pack ends with an adapter that cannot be
/// launched, and after the first case also with one that does not greet or cannot
/// be reached.
pub open spec fn next_stage(stage: ProtocolStage, seen: ObservationView) -> ProtocolStage {
    match stage {
        ProtocolStage::Identity => if seen is SpawnFailed {
            ProtocolStage::Done
        } else {
            ProtocolStage::PingPong
        },
        ProtocolStage::PingPong => if seen is Answered {
            ProtocolStage::Deadline
        } else {
            ProtocolStage::Done
        },
        _ => ProtocolStage::Done,
    }
}

/// A run of the pack for the process protocol.
#[derive(Debug)]
pub struct ProtocolPack {
    pub adapter_id: String,
    pub stage: ProtocolStage,
    pub cases: Vec<CaseResult>,
}

fn bool_word(b: bool) -> (r: &'static str)
    ensures
        r@ == word(b),
{
    if b {
        "true"
    } else {
        "false"
    }
}

impl ProtocolPack {
    /// A run that begins, of the adapter with the given id.
    pub fn new(adapter_id: &str) -> (r: Self)
        ensures
            r.adapter_id@ == adapter_id@,
            r.stage == ProtocolStage::Identity,
            case_views(r.cases@) == Seq::<CaseView>::empty(),
    {
        let r = ProtocolPack {
            adapter_id: adapter_id.to_owned(),
            stage: ProtocolStage::Identity,
            cases: Vec::new(),
        };
        assert(case_views(r.cases@) =~= Seq::<CaseView>::empty());
        r
    }

    /// How the adapter is launched for the case that the run is at.
    pub fn launch(&self, fx: &FixtureBinary) -> (r: LaunchSpec)
        ensures
            launches(r, *fx, stage_env(self.stage), stage_seed(self.stage)),
    {
        let mut extra: Vec<(String, String)> = Vec::new();
        assert(text_pairs(extra@) =~= Seq::empty());
        let mut seed: i64 = 11;
        match self.stage {
            ProtocolStage::Identity => {},
            ProtocolStage::PingPong => {
                seed = 12;
            },
            _ => {
                add_pair(&mut extra, "FIXTURE_DELAY_MS", "2000");
                seed = 13;
            },
        }
        assert(text_pairs(extra@) =~= stage_env(self.stage));
        spec(fx, &extra, seed)
    }

    /// The call that is made in the case that the run is at, if one is, and the
    /// milliseconds that it is given.
    pub fn call(&self) -> (r: Option<(PortCallRequest, u64)>)
        ensures
            match r {
                Some((q, ms)) => stage_call(self.stage) == Some((q.call_id@, ms)) && q.port_id@
                    == "effect.execute"@ && q.operation@ == "execute"@ && q.payload@ == seq![
                    123u8,
                    125u8,
                ],
                None => stage_call(self.stage) is None,
            },
    {
        let payload: Vec<u8> = vec![123u8, 125u8];
        assert(payload@ =~= seq![123u8, 125u8]);
        match self.stage {
            ProtocolStage::PingPong => Some((request("c1", "execute", payload), 3000)),
            ProtocolStage::Deadline => Some((request("slow", "execute", payload), 150)),
            _ => None,
        }
    }

    /// Takes an observation of the case that the run is at.
    pub fn record(&mut self, seen: Observation)
        requires
            fits(old(self).stage, seen@),
        ensures
            final(self).adapter_id == old(self).adapter_id,
            final(self).stage == next_stage(old(self).stage, seen@),
            ({
                let (passed, details) = verdict(old(self).stage, old(self).adapter_id@, seen@);
                case_views(final(self).cases@) == case_views(old(self).cases@).push(
                    CaseView { test_id: stage_id(old(self).stage), passed, details },
                )
            }),
    {
        let id = match self.stage {
            ProtocolStage::Identity => "protocol.handshake_identity",
            ProtocolStage::PingPong => "protocol.ping_pong_and_call",
            _ => "protocol.deadline_expiry",
        };
        let next = match self.stage {
            ProtocolStage::Identity => match seen {
                Observation::SpawnFailed(_) => ProtocolStage::Done,
                _ => ProtocolStage::PingPong,
            },
            ProtocolStage::PingPong => match seen {
                Observation::Answered { .. } => ProtocolStage::Deadline,
                _ => ProtocolStage::Done,
            },
            _ => ProtocolStage::Done,
        };
        let case = match seen {
            Observation::SpawnFailed(e) => CaseResult::fail(id, join("spawn: ", e.as_str()).as_str()),
            Observation::HandshakeFailed(e) => CaseResult::fail(
                id,
                join("handshake: ", e.as_str()).as_str(),
            ),
            Observation::Greeted(greeted) => if same_text(greeted.as_str(), self.adapter_id.as_str()) {
                CaseResult::pass(id, "hello echoes registered identity")
            } else {
                CaseResult::fail(id, "hello returned wrong identity")
            },
            Observation::PingFailed(e) => CaseResult::fail(
                id,
                join("ping write: ", e.as_str()).as_str(),
            ),
            Observation::NoTimeout => CaseResult::fail(id, "read timeout not settable"),
            Observation::Answered { pong, call } => if pong && call {
                CaseResult::pass(id, "pong answered, call responded")
            } else {
                let mut details = "pong=".to_owned();
                details.append(bool_word(pong));
                details.append(" call=");
                details.append(bool_word(call));
                CaseResult::fail(id, details.as_str())
            },
            Observation::Expired => CaseResult::pass(id, "deadline closed the call"),
            Observation::NotExpired(d) => CaseResult::fail(
                id,
                join("expected deadline, got ", d.as_str()).as_str(),
            ),
        };
        assert(case_views(self.cases@.push(case)) =~= case_views(self.cases@).push(case@));
        self.cases.push(case);
        self.stage = next;
    }
}

// ---------------------------------------------------------------------------
// What holds of every run
// ---------------------------------------------------------------------------

/// The stages of a run with the given observations.
pub open spec fn stage_after(seen: Seq<ObservationView>) -> ProtocolStage
    decreases seen.len(),
{
    if seen.len() == 0 {
        ProtocolStage::Identity
    } else {
        next_stage(stage_after(seen.drop_last()), seen.last())
    }
}

/// A run has at most three cases, and it has three only where the adapter could be
/// launched, greeted and was reached.
pub proof fn runs_are_short(seen: Seq<ObservationView>)
    requires
        forall|i: int| 0 <= i < seen.len() ==> fits(stage_after(seen.take(i)), #[trigger] seen[i]),
    ensures
        seen.len() <= 3,
        seen.len() == 3 ==> !(seen[0] is SpawnFailed) && seen[1] is Answered,
{
    if seen.len() >= 3 {
        reveal_with_fuel(stage_after, 4);
        assert(seen.take(0) =~= Seq::empty());
        assert(seen.take(1).drop_last() =~= seen.take(0));
        assert(seen.take(2).drop_last() =~= seen.take(1));
        assert(seen.take(3).drop_last() =~= seen.take(2));
        assert(stage_after(seen.take(0)) == ProtocolStage::Identity);
        assert(fits(stage_after(seen.take(0)), seen[0]));
        assert(stage_after(seen.take(1)) == next_stage(ProtocolStage::Identity, seen[0]));
        assert(fits(stage_after(seen.take(1)), seen[1]));
        assert(fits(stage_after(seen.take(2)), seen[2]));
        if seen.len() > 3 {
            assert(fits(stage_after(seen.take(3)), seen[3]));
        }
    }
}

} // verus!
