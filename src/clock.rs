use vstd::prelude::*;
use crate::time::now_micros;

verus! {

/// The clock after an update to `at`: an update older than the current value
/// is not applied, so the clock never moves back.
pub open spec fn clock_step(last: int, at: int) -> int {
    if at >= last {
        at
    } else {
        last
    }
}

/// The clock that started at `start`, after updates to each of `stamps` in turn.
pub open spec fn clock_run(start: int, stamps: Seq<int>) -> int
    decreases stamps.len(),
{
    if stamps.len() == 0 {
        start
    } else {
        clock_step(clock_run(start, stamps.drop_last()), stamps.last())
    }
}

/// Whether the update to `stamps[k]` was applied, i.e. was not older than the
/// clock it found.
pub open spec fn clock_applied(start: int, stamps: Seq<int>, k: int) -> bool {
    stamps[k] >= clock_run(start, stamps.take(k))
}

/// The time of the most recent input activity.
pub struct ActivityClock {
    last: i64,
}

impl View for ActivityClock {
    type V = int;

    closed spec fn view(&self) -> int {
        self.last as int
    }
}

impl ActivityClock {
    /// A clock whose last activity is at `at`.
    pub fn new(at: i64) -> (r: ActivityClock)
        ensures
            r@ == at,
    {
        ActivityClock { last: at }
    }

    /// A clock whose last activity is now.
    pub fn start() -> (r: ActivityClock) {
        ActivityClock::new(now_micros())
    }

    /// The time of the last applied activity.
    pub fn peek(&self) -> (r: i64)
        ensures
            r == self@,
    {
        self.last
    }

    /// Records activity at `at`. Returns whether the update was applied: one
    /// older than the current value leaves the clock as it is.
    pub fn record_activity_at(&mut self, at: i64) -> (applied: bool)
        ensures
            applied == (at >= old(self)@),
            final(self)@ == clock_step(old(self)@, at as int),
    {
        if at >= self.last {
            self.last = at;
            true
        } else {
            false
        }
    }

    /// Records activity now.
    pub fn record_activity(&mut self) -> (applied: bool)
        ensures
            exists|t: int|
                #![trigger clock_step(old(self)@, t)]
                final(self)@ == clock_step(old(self)@, t) && applied == (t >= old(self)@),
            final(self)@ >= old(self)@,
    {
        let now = now_micros();
        self.record_activity_at(now)
    }
}

/// After any burst of updates, the clock has never moved back between two
/// points of the burst, and it holds the time of the last update that was
/// applied (its starting value where none was).
pub proof fn lemma_clock_burst(start: int, stamps: Seq<int>)
    ensures
        forall|i: int, j: int|
            0 <= i <= j <= stamps.len() ==> #[trigger] clock_run(start, stamps.take(i)) <= #[trigger] clock_run(
                start,
                stamps.take(j),
            ),
        (forall|k: int| 0 <= k < stamps.len() ==> !clock_applied(start, stamps, k)) ==> clock_run(
            start,
            stamps,
        ) == start,
        forall|k: int|
            0 <= k < stamps.len() && #[trigger] clock_applied(start, stamps, k) && (forall|m: int|
                k < m < stamps.len() ==> !clock_applied(start, stamps, m)) ==> clock_run(start, stamps)
                == stamps[k],
    decreases stamps.len(),
{
    if stamps.len() > 0 {
        let prev = stamps.drop_last();
        lemma_clock_burst(start, prev);
        assert(stamps.take(stamps.len() as int) =~= stamps);
        assert forall|i: int| 0 <= i <= prev.len() implies #[trigger] stamps.take(i) =~= prev.take(i) by {}
        assert forall|k: int| 0 <= k < prev.len() implies clock_applied(start, stamps, k) == clock_applied(start, prev, k) by {
            assert(stamps.take(k) =~= prev.take(k));
        }
        assert(prev.take(prev.len() as int) =~= prev);
        assert forall|i: int, j: int|
            0 <= i <= j <= stamps.len() implies #[trigger] clock_run(start, stamps.take(i)) <= #[trigger] clock_run(
                start,
                stamps.take(j),
            ) by {
            if j == stamps.len() {
                if i < j {
                    assert(clock_run(start, prev.take(i)) <= clock_run(start, prev.take(prev.len() as int)));
                }
            }
        }
        let n = stamps.len() - 1;
        if clock_applied(start, stamps, n) {
            assert(stamps.take(n) =~= prev);
        } else {
            assert(stamps.take(n) =~= prev);
            assert forall|k: int|
                0 <= k < stamps.len() && #[trigger] clock_applied(start, stamps, k) && (forall|m: int|
                    k < m < stamps.len() ==> !clock_applied(start, stamps, m)) implies clock_run(start, stamps)
                    == stamps[k] by {
                assert(k < n);
                assert(forall|m: int| k < m < prev.len() ==> !clock_applied(start, stamps, m));
            }
        }
    }
}

} // verus!
