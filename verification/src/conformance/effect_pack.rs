//! The pack for effect adapters: what is asked of the adapter under test, process by
//! process, and what its answers mean.

use vstd::prelude::*;
use vstd::string::*;

use crate::conformance::{
    add_pair, bool_word, case_views, launches, probe_effect, spec, word, CaseResult, CaseView,
    FixtureBinary, LaunchSpec,
};
use crate::effects::{ExecutionRequest, ExecutionResponse};
use crate::openrouter_effect::mcp::text_pairs;
use crate::text::same_text;

verus! {

/// Whether a repeated operation has its first result again and another operation
/// has another one.
pub open spec fn replays(
    first: Option<ExecutionResponse>,
    other: Option<ExecutionResponse>,
    again: Option<ExecutionResponse>,
) -> bool {
    match (first, other, again) {
        (Some(a), Some(b), Some(c)) => a.result_ref@ == c.result_ref@ && a.result_ref@ != b.result_ref@
            && a.status@ == "succeeded"@,
        _ => false,
    }
}

/// The case of the repeated operation.
pub open spec fn replay_view(passed: bool) -> CaseView {
    CaseView {
        test_id: "effect.execute_and_idempotent_replay"@,
        passed,
        details: if passed {
            "duplicate op-A replayed identical result_ref"@
        } else {
            "idempotent replay mismatch"@
        },
    }
}

/// The value behind a reference.
pub open spec fn own(a: Option<&ExecutionResponse>) -> Option<ExecutionResponse> {
    match a {
        Some(x) => Some(*x),
        None => None,
    }
}

/// The case of the repeated operation; an answer is absent where the call failed.
pub fn replay_case(
    first: Option<&ExecutionResponse>,
    other: Option<&ExecutionResponse>,
    again: Option<&ExecutionResponse>,
) -> (r: CaseResult)
    ensures
        r@ == replay_view(replays(own(first), own(other), own(again))),
{
    let passed = match (first, other, again) {
        (Some(a), Some(b), Some(c)) => same_text(a.result_ref.as_str(), c.result_ref.as_str())
            && !same_text(a.result_ref.as_str(), b.result_ref.as_str()) && same_text(
            a.status.as_str(),
            "succeeded",
        ),
        _ => false,
    };
    let id = "effect.execute_and_idempotent_replay";
    if passed {
        CaseResult::pass(id, "duplicate op-A replayed identical result_ref")
    } else {
        CaseResult::fail(id, "idempotent replay mismatch")
    }
}

/// The case of the adapter that crashes before it answers.
pub open spec fn crash_view(crashed: bool, reconciled: bool) -> CaseView {
    CaseView {
        test_id: "effect.crash_then_status_reconcile"@,
        passed: crashed && reconciled,
        details: if crashed && reconciled {
            "crash lost the response; status() recovered the effect"@
        } else {
            "crashed="@ + word(crashed) + " reconciled="@ + word(reconciled)
        },
    }
}

/// The case of the adapter that crashes before it answers: `status` is what it
/// says of the operation when it runs again, if it says anything.
pub fn crash_case(crashed: bool, status: Option<&str>) -> (r: CaseResult)
    ensures
        r@ == crash_view(crashed, status matches Some(s) && s@ == "succeeded"@),
{
    let reconciled = match status {
        Some(s) => same_text(s, "succeeded"),
        None => false,
    };
    let id = "effect.crash_then_status_reconcile";
    if crashed && reconciled {
        CaseResult::pass(id, "crash lost the response; status() recovered the effect")
    } else {
        let mut details = "crashed=".to_owned();
        details.append(bool_word(crashed));
        details.append(" reconciled=");
        details.append(bool_word(reconciled));
        CaseResult::fail(id, details.as_str())
    }
}

/// The case of the stale fencing token.
pub open spec fn fencing_view(passed: bool) -> CaseView {
    CaseView {
        test_id: "effect.fencing_rejection"@,
        passed,
        details: if passed {
            "stale fencing token rejected"@
        } else {
            "stale fencing token was accepted"@
        },
    }
}

/// The case of the stale fencing token: `error_code` is that of the answer, if
/// there is one.
pub fn fencing_case(error_code: Option<&str>) -> (r: CaseResult)
    ensures
        r@ == fencing_view(error_code matches Some(e) && e@ == "fencing_rejected"@),
{
    let rejected = match error_code {
        Some(e) => same_text(e, "fencing_rejected"),
        None => false,
    };
    let id = "effect.fencing_rejection";
    if rejected {
        CaseResult::pass(id, "stale fencing token rejected")
    } else {
        CaseResult::fail(id, "stale fencing token was accepted")
    }
}

// ---------------------------------------------------------------------------
// The course of a run
// ---------------------------------------------------------------------------

/// The steps of a run, one call each.
#[derive(Clone, Copy, Debug, PartialEq, Eq, Structural)]
pub enum EffectStage {
    First,
    Other,
    Again,
    Crash,
    Status,
    Fence,
    Done,
}

/// The step behind a step.
pub open spec fn stage_behind(stage: EffectStage) -> EffectStage {
    match stage {
        EffectStage::First => EffectStage::Other,
        EffectStage::Other => EffectStage::Again,
        EffectStage::Again => EffectStage::Crash,
        EffectStage::Crash => EffectStage::Status,
        EffectStage::Status => EffectStage::Fence,
        _ => EffectStage::Done,
    }
}

/// The seed of the ids of the process that is launched for a step, if one is.
pub open spec fn launch_seed(stage: EffectStage) -> Option<int> {
    match stage {
        EffectStage::First => Some(21),
        EffectStage::Crash => Some(22),
        EffectStage::Status => Some(23),
        EffectStage::Fence => Some(24),
        _ => None,
    }
}

/// The variables of the process that is launched for a step.
pub open spec fn launch_vars(stage: EffectStage, store_path: Seq<char>) -> Seq<(Seq<char>, Seq<char>)> {
    let store = ("FIXTURE_STORE"@, store_path);
    match stage {
        EffectStage::Crash => Seq::empty().push(store).push(("FIXTURE_CRASH_BEFORE_RESPONSE"@, "1"@)),
        EffectStage::Fence => Seq::empty().push(store).push(("FIXTURE_MIN_FENCE"@, "5"@)),
        _ => Seq::empty().push(store),
    }
}

/// What a step asks the adapter.
#[derive(Debug)]
pub enum Probe {
    /// To execute an effect.
    Execute { call_id: String, request: ExecutionRequest },
    /// What has become of an operation.
    Status { call_id: String, effect_id: String, operation_id: String },
}

/// Whether a probe asks to execute an effect.
pub open spec fn asks_to_execute(
    p: Probe,
    call: Seq<char>,
    effect: Seq<char>,
    operation: Seq<char>,
    token: u64,
) -> bool {
    p matches Probe::Execute { call_id, request: q } && call_id@ == call && q.effect_id@ == effect
        && q.operation_id@ == operation && q.request_hash@ == "h"@ && q.fencing_token == token
        && q.payload@ == Seq::<u8>::empty()
}

/// Whether `p` is what a step asks the adapter. The third step repeats the operation of
/// the first one.
pub open spec fn probes(stage: EffectStage, p: Probe) -> bool {
    match stage {
        EffectStage::First => asks_to_execute(p, "c1"@, "eff-1"@, "op-A"@, 1),
        EffectStage::Other => asks_to_execute(p, "c2"@, "eff-1"@, "op-B"@, 2),
        EffectStage::Again => asks_to_execute(p, "c3"@, "eff-1"@, "op-A"@, 3),
        EffectStage::Crash => asks_to_execute(p, "cx"@, "eff-crash"@, "op-crash"@, 1),
        EffectStage::Status => p matches Probe::Status { call_id, effect_id, operation_id }
            && call_id@ == "cs"@ && effect_id@ == "eff-crash"@ && operation_id@ == "op-crash"@,
        _ => asks_to_execute(p, "cf"@, "eff-f"@, "op-f"@, 3),
    }
}

/// What came back of a probe.
#[derive(Debug)]
pub enum Outcome {
    /// The call failed.
    Failed,
    /// The adapter answered a request to execute.
    Executed(ExecutionResponse),
    /// The adapter told the status of the operation.
    Told(String),
    /// The answer could not be read.
    Unreadable,
}

/// Whether an outcome can come of a step. The answers of the first three steps are
/// to be readable.
pub open spec fn can_come(stage: EffectStage, seen: Outcome) -> bool {
    match stage {
        EffectStage::First | EffectStage::Other | EffectStage::Again => seen is Failed
            || seen is Executed,
        EffectStage::Crash | EffectStage::Fence => !(seen is Told),
        EffectStage::Status => !(seen is Executed),
        EffectStage::Done => false,
    }
}

/// The answer to a request to execute, if there is one.
pub open spec fn executed(seen: Outcome) -> Option<ExecutionResponse> {
    match seen {
        Outcome::Executed(r) => Some(r),
        _ => None,
    }
}

/// The case that a step ends, if it ends one; `first`, `other` and `crashed` are what
/// the steps before have shown.
pub open spec fn case_of(
    stage: EffectStage,
    first: Option<ExecutionResponse>,
    other: Option<ExecutionResponse>,
    crashed: bool,
    seen: Outcome,
) -> Option<CaseView> {
    match stage {
        EffectStage::Again => Some(replay_view(replays(first, other, executed(seen)))),
        EffectStage::Status => Some(
            crash_view(crashed, seen matches Outcome::Told(s) && s@ == "succeeded"@),
        ),
        EffectStage::Fence => Some(
            fencing_view(seen matches Outcome::Executed(r) && r.error_code@ == "fencing_rejected"@),
        ),
        _ => None,
    }
}

/// A run of the pack for effect adapters.
#[derive(Debug)]
pub struct EffectPack {
    pub stage: EffectStage,
    pub first: Option<ExecutionResponse>,
    pub other: Option<ExecutionResponse>,
    pub crashed: bool,
    pub cases: Vec<CaseResult>,
}

impl EffectPack {
    /// A run that begins.
    pub fn new() -> (r: Self)
        ensures
            r.stage == EffectStage::First,
            r.first is None,
            r.other is None,
            !r.crashed,
            case_views(r.cases@) == Seq::<CaseView>::empty(),
    {
        let r = EffectPack {
            stage: EffectStage::First,
            first: None,
            other: None,
            crashed: false,
            cases: Vec::new(),
        };
        assert(case_views(r.cases@) =~= Seq::<CaseView>::empty());
        r
    }

    /// How the process for the step at hand is launched, where it needs a new one;
    /// the one before has then been stopped.
    pub fn launch(&self, fx: &FixtureBinary, store_path: &str) -> (r: Option<LaunchSpec>)
        ensures
            match r {
                Some(l) => launch_seed(self.stage) is Some && launches(
                    l,
                    *fx,
                    launch_vars(self.stage, store_path@),
                    launch_seed(self.stage)->0,
                ),
                None => launch_seed(self.stage) is None,
            },
    {
        let mut vars: Vec<(String, String)> = Vec::new();
        assert(text_pairs(vars@) =~= Seq::empty());
        add_pair(&mut vars, "FIXTURE_STORE", store_path);
        match self.stage {
            EffectStage::First => Some(spec(fx, &vars, 21)),
            EffectStage::Crash => {
                add_pair(&mut vars, "FIXTURE_CRASH_BEFORE_RESPONSE", "1");
                Some(spec(fx, &vars, 22))
            },
            EffectStage::Status => Some(spec(fx, &vars, 23)),
            EffectStage::Fence => {
                add_pair(&mut vars, "FIXTURE_MIN_FENCE", "5");
                Some(spec(fx, &vars, 24))
            },
            _ => None,
        }
    }

    /// What the step at hand asks the adapter.
    pub fn probe(&self) -> (r: Option<Probe>)
        ensures
            match r {
                Some(p) => self.stage != EffectStage::Done && probes(self.stage, p),
                None => self.stage == EffectStage::Done,
            },
    {
        match self.stage {
            EffectStage::First => Some(execute_probe("c1", "eff-1", "op-A", 1)),
            EffectStage::Other => Some(execute_probe("c2", "eff-1", "op-B", 2)),
            EffectStage::Again => Some(execute_probe("c3", "eff-1", "op-A", 3)),
            EffectStage::Crash => Some(execute_probe("cx", "eff-crash", "op-crash", 1)),
            EffectStage::Status => Some(
                Probe::Status {
                    call_id: "cs".to_owned(),
                    effect_id: "eff-crash".to_owned(),
                    operation_id: "op-crash".to_owned(),
                },
            ),
            EffectStage::Fence => Some(execute_probe("cf", "eff-f", "op-f", 3)),
            EffectStage::Done => None,
        }
    }

    /// Takes the outcome of the step at hand.
    pub fn record(&mut self, seen: Outcome)
        requires
            can_come(old(self).stage, seen),
        ensures
            final(self).stage == stage_behind(old(self).stage),
            final(self).first == (if old(self).stage == EffectStage::First {
                executed(seen)
            } else {
                old(self).first
            }),
            final(self).other == (if old(self).stage == EffectStage::Other {
                executed(seen)
            } else {
                old(self).other
            }),
            final(self).crashed == (if old(self).stage == EffectStage::Crash {
                seen is Failed
            } else {
                old(self).crashed
            }),
            case_views(final(self).cases@) == (match case_of(
                old(self).stage,
                old(self).first,
                old(self).other,
                old(self).crashed,
                seen,
            ) {
                Some(case) => case_views(old(self).cases@).push(case),
                None => case_views(old(self).cases@),
            }),
    {
        match self.stage {
            EffectStage::First => {
                self.first = answer_in(seen);
                self.stage = EffectStage::Other;
            },
            EffectStage::Other => {
                self.other = answer_in(seen);
                self.stage = EffectStage::Again;
            },
            EffectStage::Again => {
                let again = answer_in(seen);
                let case = replay_case(self.first.as_ref(), self.other.as_ref(), again.as_ref());
                push_case(&mut self.cases, case);
                self.stage = EffectStage::Crash;
            },
            EffectStage::Crash => {
                self.crashed = matches!(seen, Outcome::Failed);
                self.stage = EffectStage::Status;
            },
            EffectStage::Status => {
                let case = match &seen {
                    Outcome::Told(s) => crash_case(self.crashed, Some(s.as_str())),
                    _ => crash_case(self.crashed, None),
                };
                push_case(&mut self.cases, case);
                self.stage = EffectStage::Fence;
            },
            EffectStage::Fence => {
                let case = match &seen {
                    Outcome::Executed(r) => fencing_case(Some(r.error_code.as_str())),
                    _ => fencing_case(None),
                };
                push_case(&mut self.cases, case);
                self.stage = EffectStage::Done;
            },
            EffectStage::Done => {},
        }
    }
}

fn execute_probe(call_id: &str, effect_id: &str, operation_id: &str, token: u64) -> (r: Probe)
    ensures
        asks_to_execute(r, call_id@, effect_id@, operation_id@, token),
{
    Probe::Execute {
        call_id: call_id.to_owned(),
        request: probe_effect(effect_id, operation_id, token),
    }
}

fn answer_in(seen: Outcome) -> (r: Option<ExecutionResponse>)
    ensures
        r == executed(seen),
{
    match seen {
        Outcome::Executed(r) => Some(r),
        _ => None,
    }
}

fn push_case(cases: &mut Vec<CaseResult>, case: CaseResult)
    ensures
        case_views(final(cases)@) == case_views(old(cases)@).push(case@),
{
    assert(case_views(cases@.push(case)) =~= case_views(cases@).push(case@));
    cases.push(case);
}

/// The cases of a whole run.
pub open spec fn run_cases(seen: Seq<Outcome>) -> Seq<CaseView> {
    seq![
        replay_view(replays(executed(seen[0]), executed(seen[1]), executed(seen[2]))),
        crash_view(seen[3] is Failed, seen[4] matches Outcome::Told(s) && s@ == "succeeded"@),
        fencing_view(seen[5] matches Outcome::Executed(r) && r.error_code@ == "fencing_rejected"@),
    ]
}

/// What a run has shown after some outcomes: the answers to the first two probes,
/// whether the adapter crashed, and the cases so far.
pub open spec fn shown(seen: Seq<Outcome>) -> (
    EffectStage,
    Option<ExecutionResponse>,
    Option<ExecutionResponse>,
    bool,
    Seq<CaseView>,
)
    decreases seen.len(),
{
    if seen.len() == 0 {
        (EffectStage::First, None, None, false, Seq::empty())
    } else {
        let (stage, first, other, crashed, cases) = shown(seen.drop_last());
        let last = seen.last();
        (
            stage_behind(stage),
            if stage == EffectStage::First {
                executed(last)
            } else {
                first
            },
            if stage == EffectStage::Other {
                executed(last)
            } else {
                other
            },
            if stage == EffectStage::Crash {
                last is Failed
            } else {
                crashed
            },
            match case_of(stage, first, other, crashed, last) {
                Some(case) => cases.push(case),
                None => cases,
            },
        )
    }
}

/// A run ends after six outcomes with three cases, one for each thing that the pack
/// asks of an adapter, whatever came back.
pub proof fn runs_are_whole(seen: Seq<Outcome>)
    requires
        seen.len() == 6,
    ensures
        shown(seen).0 == EffectStage::Done,
        shown(seen).4 == run_cases(seen),
{
    reveal_with_fuel(shown, 7);
    let s5 = seen.drop_last();
    let s4 = s5.drop_last();
    let s3 = s4.drop_last();
    let s2 = s3.drop_last();
    let s1 = s2.drop_last();
    assert(shown(s1).0 == EffectStage::Other);
    assert(shown(s2).0 == EffectStage::Again);
    assert(shown(s3).0 == EffectStage::Crash);
    assert(shown(s4).0 == EffectStage::Status);
    assert(shown(s5).0 == EffectStage::Fence);
    assert(shown(seen).4 =~= run_cases(seen));
}

} // verus!
