//! Fault points that fire once each time they are armed.

use vstd::prelude::*;
use vstd::string::*;

use crate::ordered::TextMap;
use crate::text::{debug_of, debug_text};

verus! {

/// The state of a fault point that was armed.
#[derive(Clone, Copy, Debug, PartialEq, Eq, Structural)]
pub struct FaultState {
    pub armed: bool,
    pub triggered: bool,
}

/// Fault points by their names. A point is armed with [`ArmedFaults::arm`] and
/// fires at the first trigger that follows, until it is armed again.
#[derive(Debug)]
pub struct ArmedFaults {
    states: TextMap<FaultState>,
}

impl View for ArmedFaults {
    type V = Map<Seq<char>, FaultState>;

    closed spec fn view(&self) -> Map<Seq<char>, FaultState> {
        self.states@
    }
}

/// Whether `point` fires at the next trigger.
pub open spec fn is_ready(states: Map<Seq<char>, FaultState>, point: Seq<char>) -> bool {
    states.contains_key(point) && states[point].armed && !states[point].triggered
}

/// Whether `point` has fired since it was last armed.
pub open spec fn has_fired(states: Map<Seq<char>, FaultState>, point: Seq<char>) -> bool {
    states.contains_key(point) && states[point].triggered
}

/// The points after `point` was armed.
pub open spec fn after_arm(states: Map<Seq<char>, FaultState>, point: Seq<char>) -> Map<Seq<char>, FaultState> {
    states.insert(point, FaultState { armed: true, triggered: false })
}

/// The points after `point` was triggered.
pub open spec fn after_trigger(states: Map<Seq<char>, FaultState>, point: Seq<char>) -> Map<Seq<char>, FaultState> {
    if is_ready(states, point) {
        states.insert(point, FaultState { armed: true, triggered: true })
    } else {
        states
    }
}

/// What is said of a point that should have fired, its name being quoted.
pub open spec fn silence_of(quoted: Seq<char>) -> Seq<char> {
    "fault point "@ + quoted + " was armed but never triggered"@
}

/// What is said of a point that should have fired, its name being quoted.
pub fn silence(quoted: &str) -> (r: String)
    ensures
        r@ == silence_of(quoted@),
{
    let mut out = "fault point ".to_owned();
    out.append(quoted);
    out.append(" was armed but never triggered");
    out
}

impl ArmedFaults {
    /// No point is armed.
    pub fn new() -> (r: Self)
        ensures
            r@ == Map::<Seq<char>, FaultState>::empty(),
    {
        ArmedFaults { states: TextMap::new() }
    }

    /// Arms `point`, which forgets that it has fired.
    pub fn arm(&mut self, point: &str)
        ensures
            final(self)@ == after_arm(old(self)@, point@),
    {
        self.states.insert(point.to_owned(), FaultState { armed: true, triggered: false });
    }

    /// Whether `point` has fired since it was last armed.
    pub fn is_triggered(&self, point: &str) -> (r: bool)
        ensures
            r == has_fired(self@, point@),
    {
        match self.states.get(point) {
            Some(state) => state.triggered,
            None => false,
        }
    }

    /// Triggers `point` and tells whether it fires.
    pub fn inject(&mut self, point: &str) -> (r: bool)
        ensures
            r == is_ready(old(self)@, point@),
            final(self)@ == after_trigger(old(self)@, point@),
    {
        let ready = match self.states.get(point) {
            Some(state) => state.armed && !state.triggered,
            None => false,
        };
        if ready {
            self.states.insert(point.to_owned(), FaultState { armed: true, triggered: true });
        }
        ready
    }

    /// Triggers `point`.
    pub fn trigger(&mut self, point: &str)
        ensures
            final(self)@ == after_trigger(old(self)@, point@),
    {
        let _ = self.inject(point);
    }

    /// Whether `point` has fired since it was last armed, or what is to be said of it.
    pub fn check_triggered(&self, point: &str) -> (r: Result<(), String>)
        ensures
            match r {
                Ok(()) => has_fired(self@, point@),
                Err(e) => !has_fired(self@, point@) && e@ == silence_of(debug_text(point@)),
            },
    {
        if self.is_triggered(point) {
            Ok(())
        } else {
            Err(silence(debug_of(point).as_str()))
        }
    }

    /// Checks that `point` has fired: it may be called only where it has.
    pub fn assert_triggered(&self, point: &str)
        requires
            has_fired(self@, point@),
    {
    }
}

impl Default for ArmedFaults {
    /// No point is armed.
    fn default() -> (r: Self)
        ensures
            r@ == Map::<Seq<char>, FaultState>::empty(),
    {
        ArmedFaults::new()
    }
}

// ---------------------------------------------------------------------------
// What holds of every sequence of calls
// ---------------------------------------------------------------------------

/// One call on the points.
pub enum FaultCall {
    Arm(Seq<char>),
    Trigger(Seq<char>),
}

/// The points after a call.
pub open spec fn after_call(states: Map<Seq<char>, FaultState>, call: FaultCall) -> Map<Seq<char>, FaultState> {
    match call {
        FaultCall::Arm(p) => after_arm(states, p),
        FaultCall::Trigger(p) => after_trigger(states, p),
    }
}

/// The points after some calls.
pub open spec fn after_calls(states: Map<Seq<char>, FaultState>, calls: Seq<FaultCall>) -> Map<Seq<char>, FaultState>
    decreases calls.len(),
{
    if calls.len() == 0 {
        states
    } else {
        after_call(after_calls(states, calls.drop_last()), calls.last())
    }
}

/// How often `point` fires in the course of some calls.
pub open spec fn firings(states: Map<Seq<char>, FaultState>, calls: Seq<FaultCall>, point: Seq<char>) -> nat
    decreases calls.len(),
{
    if calls.len() == 0 {
        0
    } else {
        firings(states, calls.drop_last(), point) + (if calls.last() == FaultCall::Trigger(point)
            && is_ready(after_calls(states, calls.drop_last()), point) {
            1nat
        } else {
            0
        })
    }
}

/// How often `point` is armed in the course of some calls.
pub open spec fn armings(calls: Seq<FaultCall>, point: Seq<char>) -> nat
    decreases calls.len(),
{
    if calls.len() == 0 {
        0
    } else {
        armings(calls.drop_last(), point) + (if calls.last() == FaultCall::Arm(point) {
            1nat
        } else {
            0
        })
    }
}

/// From a start without armed points, a point never fires more often than it was
/// armed, and it has fired one time less wherever it is ready to fire.
pub proof fn fires_at_most_once_per_arm(calls: Seq<FaultCall>, point: Seq<char>)
    ensures
        firings(Map::empty(), calls, point) <= armings(calls, point),
        is_ready(after_calls(Map::empty(), calls), point) ==> firings(Map::empty(), calls, point) + 1
            <= armings(calls, point),
    decreases calls.len(),
{
    if calls.len() > 0 {
        fires_at_most_once_per_arm(calls.drop_last(), point);
    }
}

/// A point that was armed fires at the first trigger that follows, and at no other
/// before it is armed again.
pub proof fn fires_exactly_once(states: Map<Seq<char>, FaultState>, point: Seq<char>)
    ensures
        ({
            let armed = after_arm(states, point);
            let once = after_trigger(armed, point);
            &&& is_ready(armed, point) && !has_fired(armed, point)
            &&& !is_ready(once, point) && has_fired(once, point)
            &&& after_trigger(once, point) == once
        }),
{
}

/// A point that was never armed does not fire, whatever is triggered.
pub proof fn unarmed_points_never_fire(calls: Seq<FaultCall>, point: Seq<char>)
    requires
        armings(calls, point) == 0,
    ensures
        !has_fired(after_calls(Map::empty(), calls), point),
        firings(Map::empty(), calls, point) == 0,
        !after_calls(Map::empty(), calls).contains_key(point),
    decreases calls.len(),
{
    if calls.len() > 0 {
        unarmed_points_never_fire(calls.drop_last(), point);
    }
}

/// Calls on one point leave every other point as it was.
pub proof fn points_are_separate(states: Map<Seq<char>, FaultState>, call: FaultCall, other: Seq<char>)
    requires
        call != FaultCall::Arm(other),
        call != FaultCall::Trigger(other),
    ensures
        is_ready(after_call(states, call), other) == is_ready(states, other),
        has_fired(after_call(states, call), other) == has_fired(states, other),
{
}

} // verus!
