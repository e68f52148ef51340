//! A clock whose time moves only when it is told to.

use std::sync::Arc;
use vstd::prelude::*;
use vstd::rwlock::{RwLock, RwLockPredicate};

verus! {

/// `a + b`, held within the range of `i64`.
pub open spec fn saturating_sum(a: int, b: int) -> int {
    if a + b > i64::MAX {
        i64::MAX as int
    } else if a + b < i64::MIN {
        i64::MIN as int
    } else {
        a + b
    }
}

/// A time in milliseconds.
#[derive(Clone, Copy, Debug, PartialEq, Eq, Structural)]
pub struct ClockTime {
    pub unix_ms: i64,
}

impl ClockTime {
    /// Moves the time by `delta_ms`, which may be negative.
    pub fn advance(&mut self, delta_ms: i64)
        ensures
            final(self).unix_ms == saturating_sum(old(self).unix_ms as int, delta_ms as int),
    {
        if delta_ms > 0 && self.unix_ms > i64::MAX - delta_ms {
            self.unix_ms = i64::MAX;
        } else if delta_ms < 0 && self.unix_ms < i64::MIN - delta_ms {
            self.unix_ms = i64::MIN;
        } else {
            self.unix_ms = self.unix_ms + delta_ms;
        }
    }

    /// Sets the time.
    pub fn set(&mut self, unix_ms: i64)
        ensures
            final(self).unix_ms == unix_ms,
    {
        self.unix_ms = unix_ms;
    }
}

/// An explicit move of a clock.
pub enum ClockMove {
    Advance(i64),
    SetTo(i64),
}

/// The time after some moves from a start, in the order in which they were made.
pub open spec fn time_after(start: int, moves: Seq<ClockMove>) -> int
    decreases moves.len(),
{
    if moves.len() == 0 {
        start
    } else {
        match moves.last() {
            ClockMove::Advance(delta_ms) => saturating_sum(
                time_after(start, moves.drop_last()),
                delta_ms as int,
            ),
            ClockMove::SetTo(unix_ms) => unix_ms as int,
        }
    }
}

/// The time on a shared clock, with the moves that have led to it.
pub struct MovedTime {
    pub time: ClockTime,
    pub moves: Ghost<Seq<ClockMove>>,
}

/// What holds of the time on a shared clock: it is what the moves so far give from
/// the start.
pub struct MovedFrom {
    pub start: i64,
}

impl RwLockPredicate<MovedTime> for MovedFrom {
    open spec fn inv(self, moved: MovedTime) -> bool {
        moved.time.unix_ms == time_after(self.start as int, moved.moves@)
    }
}

/// A handle on a shared clock, whose time only moves through explicit calls. Clones
/// of a handle share the clock, so which moves a reading has seen depends on what
/// every other handle has done, and no contract tells that.
pub struct TestClock {
    time: Arc<RwLock<MovedTime, MovedFrom>>,
}

impl TestClock {
    /// The time that the clock was made with.
    pub closed spec fn start(&self) -> i64 {
        self.time.pred().start
    }

    /// A clock at `start_unix_ms`.
    pub fn new(start_unix_ms: i64) -> (r: Self)
        ensures
            r.start() == start_unix_ms,
    {
        let moved = MovedTime {
            time: ClockTime { unix_ms: start_unix_ms },
            moves: Ghost(Seq::empty()),
        };
        TestClock {
            time: Arc::new(RwLock::new(moved, Ghost(MovedFrom { start: start_unix_ms }))),
        }
    }

    /// Moves the clock by `delta_ms`, which may be negative, as [`ClockTime::advance`]
    /// says. What other handles read of it is left unsaid.
    pub fn advance(&self, delta_ms: i64) {
        let (moved, handle) = self.time.acquire_write();
        let ghost moves = moved.moves@.push(ClockMove::Advance(delta_ms));
        assert(moves.drop_last() =~= moved.moves@);
        let mut time = moved.time;
        time.advance(delta_ms);
        handle.release_write(MovedTime { time, moves: Ghost(moves) });
    }

    /// Sets the clock, as [`ClockTime::set`] says. What other handles read of it is left
    /// unsaid.
    pub fn set(&self, unix_ms: i64) {
        let (moved, handle) = self.time.acquire_write();
        let ghost moves = moved.moves@.push(ClockMove::SetTo(unix_ms));
        let mut time = moved.time;
        time.set(unix_ms);
        handle.release_write(MovedTime { time, moves: Ghost(moves) });
    }

    /// The time on the clock. The contract says where a reading comes from, and no more:
    /// moves can lead to every time, so it bounds no reading, and which moves a reading
    /// has seen is left unsaid.
    pub fn now_unix_ms(&self) -> (r: i64)
        ensures
            exists|moves: Seq<ClockMove>| r == #[trigger] time_after(self.start() as int, moves),
    {
        let handle = self.time.acquire_read();
        let now: i64 = handle.borrow().time.unix_ms;
        assert(now == time_after(self.start() as int, handle.view().moves@));
        handle.release_read();
        now
    }
}

impl Clone for TestClock {
    /// Another handle on the same clock.
    fn clone(&self) -> (r: Self)
        ensures
            r == *self,
    {
        TestClock { time: self.time.clone() }
    }
}

/// Moves of the clock add up, as long as it does not reach the end of its range.
pub proof fn moves_add_up(start: i64, first: i64, second: i64)
    requires
        i64::MIN <= start + first <= i64::MAX,
        i64::MIN <= start + first + second <= i64::MAX,
    ensures
        saturating_sum(saturating_sum(start as int, first as int), second as int) == start + first
            + second,
{
}

/// A move adds to the time, and a setting replaces it.
pub proof fn moves_change_the_time(start: int, moves: Seq<ClockMove>, n: i64)
    ensures
        time_after(start, Seq::empty()) == start,
        time_after(start, moves.push(ClockMove::SetTo(n))) == n,
        i64::MIN <= time_after(start, moves) + n <= i64::MAX ==> time_after(
            start,
            moves.push(ClockMove::Advance(n)),
        ) == time_after(start, moves) + n,
        time_after(start, moves) + n > i64::MAX ==> time_after(start, moves.push(ClockMove::Advance(n)))
            == i64::MAX,
        time_after(start, moves) + n < i64::MIN ==> time_after(start, moves.push(ClockMove::Advance(n)))
            == i64::MIN,
{
    assert(moves.push(ClockMove::SetTo(n)).drop_last() =~= moves);
    assert(moves.push(ClockMove::Advance(n)).drop_last() =~= moves);
}

} // verus!
