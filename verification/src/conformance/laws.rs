//! What an adapter has to show to pass.

use vstd::prelude::*;

use crate::conformance::effect_pack::{
    launch_seed, launch_vars, probes, run_cases, EffectStage, Outcome, Probe,
};
use crate::conformance::{
    launches, next_stage, stage_call, stage_env, stage_id, stage_seed, verdict, FixtureBinary,
    LaunchSpec, ObservationView, ProtocolStage,
};
use crate::openrouter_effect::mcp::text_pairs;

verus! {

/// The protocol's cases pass only where the adapter greets with its own id, answers both the ping
/// and the call, and lets a late call expire; every other observation fails them.
pub proof fn protocols_pass_as_observed(stage: ProtocolStage, id: Seq<char>, seen: ObservationView)
    ensures
        verdict(stage, id, seen).0 <==> (seen == ObservationView::Greeted(id) || seen == (
        ObservationView::Answered { pong: true, call: true }) || seen == ObservationView::Expired),
{
}

/// What is told of a case that failed names what was seen.
pub proof fn failures_are_named(stage: ProtocolStage, id: Seq<char>, e: Seq<char>, pong: bool, call: bool)
    ensures
        verdict(stage, id, ObservationView::SpawnFailed(e)).1 == "spawn: "@ + e,
        verdict(stage, id, ObservationView::HandshakeFailed(e)).1 == "handshake: "@ + e,
        verdict(stage, id, ObservationView::PingFailed(e)).1 == "ping write: "@ + e,
        verdict(stage, id, ObservationView::NotExpired(e)).1 == "expected deadline, got "@ + e,
        verdict(stage, id, ObservationView::NoTimeout).1 == "read timeout not settable"@,
        e != id ==> verdict(stage, id, ObservationView::Greeted(e)).1 == "hello returned wrong identity"@,
        !pong && call ==> verdict(stage, id, ObservationView::Answered { pong, call }).1 == "pong="@
            + "false"@ + " call="@ + "true"@,
        pong && !call ==> verdict(stage, id, ObservationView::Answered { pong, call }).1 == "pong="@
            + "true"@ + " call="@ + "false"@,
{
}

/// The cases follow one another: the identity, the answers, the deadline. An adapter that cannot
/// be launched ends the first, and only one that answered goes on to the last.
pub proof fn cases_follow_one_another(seen: ObservationView)
    ensures
        stage_id(ProtocolStage::Identity) == "protocol.handshake_identity"@,
        stage_id(ProtocolStage::PingPong) == "protocol.ping_pong_and_call"@,
        stage_id(ProtocolStage::Deadline) == "protocol.deadline_expiry"@,
        seen is SpawnFailed ==> next_stage(ProtocolStage::Identity, seen) == ProtocolStage::Done,
        !(seen is SpawnFailed) ==> next_stage(ProtocolStage::Identity, seen) == ProtocolStage::PingPong,
        seen is Answered ==> next_stage(ProtocolStage::PingPong, seen) == ProtocolStage::Deadline,
        !(seen is Answered) ==> next_stage(ProtocolStage::PingPong, seen) == ProtocolStage::Done,
        next_stage(ProtocolStage::Deadline, seen) == ProtocolStage::Done,
        stage_env(ProtocolStage::Deadline) == seq![("FIXTURE_DELAY_MS"@, "2000"@)],
        stage_call(ProtocolStage::Deadline) == Some(("slow"@, 150u64)),
        stage_call(ProtocolStage::PingPong) == Some(("c1"@, 3000u64)),
{
}

/// An adapter that counts effects passes the first case exactly where the repeated operation got
/// the first result again and the other operation another one; the second where it crashed and
/// its status told the effect afterwards; and the third where it refused the stale token.
pub proof fn effect_cases_pass_as_seen(seen: Seq<Outcome>)
    requires
        seen.len() == 6,
    ensures
        run_cases(seen).len() == 3,
        run_cases(seen)[0].test_id == "effect.execute_and_idempotent_replay"@,
        run_cases(seen)[1].test_id == "effect.crash_then_status_reconcile"@,
        run_cases(seen)[2].test_id == "effect.fencing_rejection"@,
        run_cases(seen)[0].passed <==> seen[0] is Executed && seen[1] is Executed && seen[2] is Executed
            && seen[0]->Executed_0.result_ref@ == seen[2]->Executed_0.result_ref@
            && seen[0]->Executed_0.result_ref@ != seen[1]->Executed_0.result_ref@
            && seen[0]->Executed_0.status@ == "succeeded"@,
        run_cases(seen)[1].passed <==> seen[3] is Failed && seen[4] is Told && seen[4]->Told_0@
            == "succeeded"@,
        run_cases(seen)[2].passed <==> seen[5] is Executed && seen[5]->Executed_0.error_code@
            == "fencing_rejected"@,
{
}

/// An adapter is launched as the fixture says, with its own id and version and with the variables
/// of the fixture and of the case behind those that every adapter gets.
pub proof fn launches_name_the_adapter(
    r: LaunchSpec,
    fx: FixtureBinary,
    extra: Seq<(Seq<char>, Seq<char>)>,
    seed: int,
    i: int,
)
    requires
        launches(r, fx, extra, seed),
    ensures
        r.adapter_id@ == fx.adapter_id@,
        r.adapter_version@ == fx.adapter_version@,
        r.expected_bundle_digest@ == fx.bundle_digest@,
        r.executable@ == fx.executable@,
        r.protocol_version == 1,
        text_pairs(r.env@)[0] == ("PATH"@, "/usr/bin:/bin"@),
        text_pairs(r.env@).contains(("FIXTURE_ADAPTER_ID"@, fx.adapter_id@)),
        text_pairs(r.env@).contains(("FIXTURE_ADAPTER_VERSION"@, fx.adapter_version@)),
        text_pairs(r.env@).contains(("FIXTURE_LOOP_ADAPTER_ID"@, fx.adapter_id@)),
        text_pairs(r.env@).contains(("FIXTURE_LOOP_ADAPTER_VERSION"@, fx.adapter_version@)),
        0 <= i < fx.env@.len() ==> text_pairs(r.env@)[5 + i] == text_pairs(fx.env@)[i],
        0 <= i < extra.len() ==> text_pairs(r.env@)[5 + fx.env@.len() + i] == extra[i],
        text_pairs(r.env@).len() == 5 + fx.env@.len() + extra.len(),
{
    let env = text_pairs(r.env@);
    assert(env[1] == ("FIXTURE_ADAPTER_ID"@, fx.adapter_id@));
    assert(env[2] == ("FIXTURE_ADAPTER_VERSION"@, fx.adapter_version@));
    assert(env[3] == ("FIXTURE_LOOP_ADAPTER_ID"@, fx.adapter_id@));
    assert(env[4] == ("FIXTURE_LOOP_ADAPTER_VERSION"@, fx.adapter_version@));
}

/// The steps ask for what their cases need: the third repeats the operation of the first and not
/// that of the second; the crash and the status are of one effect, on the same store; and the last
/// token is below the least that the adapter takes.
pub proof fn probes_ask_for_their_case(
    first: Probe,
    other: Probe,
    again: Probe,
    crash: Probe,
    status: Probe,
    stale: Probe,
    store: Seq<char>,
)
    requires
        probes(EffectStage::First, first),
        probes(EffectStage::Other, other),
        probes(EffectStage::Again, again),
        probes(EffectStage::Crash, crash),
        probes(EffectStage::Status, status),
        probes(EffectStage::Fence, stale),
    ensures
        first is Execute && other is Execute && again is Execute && crash is Execute && status is Status
            && stale is Execute,
        first->request.operation_id@ == again->request.operation_id@,
        first->request.operation_id@ != other->request.operation_id@,
        first->request.fencing_token < other->request.fencing_token < again->request.fencing_token,
        crash->request.operation_id@ == status->operation_id@,
        crash->request.effect_id@ == status->effect_id@,
        stale->request.fencing_token < 5,
        launch_vars(EffectStage::Fence, store).contains(("FIXTURE_MIN_FENCE"@, "5"@)),
        launch_vars(EffectStage::Crash, store).contains(("FIXTURE_CRASH_BEFORE_RESPONSE"@, "1"@)),
        launch_vars(EffectStage::First, store) == seq![("FIXTURE_STORE"@, store)],
        launch_vars(EffectStage::Status, store) == seq![("FIXTURE_STORE"@, store)],
        launch_vars(EffectStage::Crash, store)[0] == ("FIXTURE_STORE"@, store),
        launch_vars(EffectStage::Fence, store)[0] == ("FIXTURE_STORE"@, store),
{
    reveal_strlit("op-A");
    reveal_strlit("op-B");
    assert("op-A"@.len() == 4 && "op-B"@.len() == 4);
    assert("op-A"@[3] != "op-B"@[3]);
    assert(launch_vars(EffectStage::Fence, store)[1] == ("FIXTURE_MIN_FENCE"@, "5"@));
    assert(launch_vars(EffectStage::Crash, store)[1] == ("FIXTURE_CRASH_BEFORE_RESPONSE"@, "1"@));
    let one = seq![("FIXTURE_STORE"@, store)];
    assert(Seq::<(Seq<char>, Seq<char>)>::empty().push(("FIXTURE_STORE"@, store)) =~= one);
}

/// A process is launched for the first step, the crash, the status and the last step, each with
/// ids of its own, and for no other.
pub proof fn launches_have_their_own_ids(stage: EffectStage)
    ensures
        launch_seed(stage) is Some <==> stage == EffectStage::First || stage == EffectStage::Crash || stage
            == EffectStage::Status || stage == EffectStage::Fence,
        forall|a: EffectStage, b: EffectStage|
            #![trigger launch_seed(a), launch_seed(b)]
            a != b && launch_seed(a) is Some && launch_seed(b) is Some ==> launch_seed(a) != launch_seed(b),
        stage_seed(ProtocolStage::Identity) != stage_seed(ProtocolStage::PingPong),
        stage_seed(ProtocolStage::PingPong) != stage_seed(ProtocolStage::Deadline),
        stage_seed(ProtocolStage::Identity) != stage_seed(ProtocolStage::Deadline),
{
}

} // verus!
