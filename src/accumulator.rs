use vstd::prelude::*;
use crate::clock::ActivityClock;
use crate::time::now_micros;

verus! {

/// A tick counts the time since the previous one only when the last activity
/// came less than this long after it.
pub const IDLE_CUTOFF_MICROS: i64 = 10_000_000;

/// The time in microseconds that a tick adds, when the last activity is at
/// `last_activity` and the previous tick at `last_tick`.
pub open spec fn counted_gap(last_activity: int, last_tick: int) -> int {
    let gap = last_activity - last_tick;
    if 0 < gap && gap < IDLE_CUTOFF_MICROS {
        gap
    } else {
        0
    }
}

/// `total + gap`, held at the largest `u64`.
pub open spec fn capped_sum(total: int, gap: int) -> int {
    if total + gap <= u64::MAX {
        total + gap
    } else {
        u64::MAX as int
    }
}

/// The total that a session starts from: the last persisted total, or zero.
pub open spec fn seed(last_total: Option<u64>) -> int {
    match last_total {
        Some(t) => t as int,
        None => 0,
    }
}

/// What the caller is to do after a tick.
#[derive(Clone, Copy, Debug, PartialEq, Eq, Structural)]
pub enum TickAction {
    /// The tick counted time: persist this running total, in microseconds.
    Append(u64),
    /// Nothing was counted and nothing is to be persisted.
    Idle,
}

/// The state of an accumulator: when it last ticked, and the running total
/// in microseconds.
pub struct UsageState {
    pub last_tick: int,
    pub total: int,
}

/// The state after a tick at `now`, when the last activity is at `last_activity`.
pub open spec fn tick_step(s: UsageState, last_activity: int, now: int) -> UsageState {
    UsageState {
        last_tick: now,
        total: capped_sum(s.total, counted_gap(last_activity, s.last_tick)),
    }
}

/// The state after ticks at `ticks[i].1`, each seeing last activity at `ticks[i].0`.
pub open spec fn tick_run(s: UsageState, ticks: Seq<(int, int)>) -> UsageState
    decreases ticks.len(),
{
    if ticks.len() == 0 {
        s
    } else {
        let prev = tick_run(s, ticks.drop_last());
        tick_step(prev, ticks.last().0, ticks.last().1)
    }
}

/// Accumulates usage time on each periodic tick.
pub struct UsageAccumulator {
    last_tick: i64,
    total: u64,
}

impl View for UsageAccumulator {
    type V = UsageState;

    closed spec fn view(&self) -> UsageState {
        UsageState { last_tick: self.last_tick as int, total: self.total as int }
    }
}

/// The total to start a session from, given the last persisted one if any.
pub fn seed_total(last_total: Option<u64>) -> (r: u64)
    ensures
        r == seed(last_total),
{
    match last_total {
        Some(t) => t,
        None => 0,
    }
}

impl UsageAccumulator {
    /// An accumulator resuming from the last persisted total (zero where
    /// there is none), whose previous tick is taken to be at `now`.
    pub fn resume(last_total: Option<u64>, now: i64) -> (r: UsageAccumulator)
        ensures
            r@.total == seed(last_total),
            r@.last_tick == now,
    {
        UsageAccumulator { last_tick: now, total: seed_total(last_total) }
    }

    /// An accumulator resuming from the last persisted total, ticked now.
    pub fn start(last_total: Option<u64>) -> (r: UsageAccumulator)
        ensures
            r@.total == seed(last_total),
    {
        UsageAccumulator::resume(last_total, now_micros())
    }

    /// The running total in microseconds.
    pub fn total(&self) -> (r: u64)
        ensures
            r == self@.total,
    {
        self.total
    }

    /// When the accumulator last ticked.
    pub fn last_tick(&self) -> (r: i64)
        ensures
            r == self@.last_tick,
    {
        self.last_tick
    }

    /// A tick at `now`, with the last activity at `last_activity`. Where the
    /// activity came after the previous tick, and less than the idle cutoff
    /// after it, the gap between the two is added to the total, which is then
    /// to be persisted. Either way the tick is recorded at `now`.
    pub fn tick_at(&mut self, last_activity: i64, now: i64) -> (r: TickAction)
        ensures
            final(self)@ == tick_step(old(self)@, last_activity as int, now as int),
            final(self)@.last_tick == now,
            final(self)@.total >= old(self)@.total,
            0 <= final(self)@.total <= u64::MAX,
            ({
                let g = last_activity - old(self)@.last_tick;
                &&& 0 < g < IDLE_CUTOFF_MICROS && old(self)@.total + g <= u64::MAX ==> final(self)@.total
                    == old(self)@.total + g
                &&& (g <= 0 || g >= IDLE_CUTOFF_MICROS) ==> final(self)@.total == old(self)@.total
                &&& r == if 0 < g < IDLE_CUTOFF_MICROS {
                    TickAction::Append(final(self)@.total as u64)
                } else {
                    TickAction::Idle
                }
            }),
    {
        let gap: i128 = last_activity as i128 - self.last_tick as i128;
        let action = if 0 < gap && gap < IDLE_CUTOFF_MICROS as i128 {
            self.total = self.total.saturating_add(gap as u64);
            TickAction::Append(self.total)
        } else {
            TickAction::Idle
        };
        self.last_tick = now;
        action
    }

    /// A tick now, with the last activity read from `clock`.
    pub fn tick(&mut self, clock: &ActivityClock) -> (r: TickAction)
        ensures
            exists|t: int|
                #![trigger tick_step(old(self)@, clock@, t)]
                final(self)@ == tick_step(old(self)@, clock@, t),
            final(self)@.total >= old(self)@.total,
            0 <= final(self)@.total <= u64::MAX,
            r == if 0 < clock@ - old(self)@.last_tick < IDLE_CUTOFF_MICROS {
                TickAction::Append(final(self)@.total as u64)
            } else {
                TickAction::Idle
            },
    {
        let now = now_micros();
        self.tick_at(clock.peek(), now)
    }
}

/// Over any run of ticks, whatever activity each sees, the running total
/// never decreases: it is no smaller after a longer run than after a shorter
/// one. The total starts as any value a `u64` holds.
pub proof fn lemma_total_never_decreases(s: UsageState, ticks: Seq<(int, int)>)
    requires
        0 <= s.total <= u64::MAX,
    ensures
        forall|i: int, j: int|
            0 <= i <= j <= ticks.len() ==> #[trigger] tick_run(s, ticks.take(i)).total <= #[trigger] tick_run(
                s,
                ticks.take(j),
            ).total,
        tick_run(s, ticks).total >= s.total,
        tick_run(s, ticks).total <= u64::MAX,
    decreases ticks.len(),
{
    if ticks.len() > 0 {
        let prev = ticks.drop_last();
        lemma_total_never_decreases(s, prev);
        assert(ticks.take(ticks.len() as int) =~= ticks);
        assert(prev.take(prev.len() as int) =~= prev);
        assert forall|i: int| 0 <= i <= prev.len() implies #[trigger] ticks.take(i) =~= prev.take(i) by {}
        assert forall|i: int, j: int|
            0 <= i <= j <= ticks.len() implies #[trigger] tick_run(s, ticks.take(i)).total <= #[trigger] tick_run(
                s,
                ticks.take(j),
            ).total by {
            if j == ticks.len() && i < j {
                assert(tick_run(s, prev.take(i)).total <= tick_run(s, prev.take(prev.len() as int)).total);
            }
        }
    }
}

/// The previous tick seen by `ticks[i]`: the tick before it in the run, or the
/// run's starting tick `start_tick`.
pub open spec fn tick_before(start_tick: int, ticks: Seq<(int, int)>, i: int) -> int {
    if i == 0 {
        start_tick
    } else {
        ticks[i - 1].1
    }
}

/// The time counted by all the ticks of `ticks`, after a previous tick at `start_tick`.
pub open spec fn counted_total(start_tick: int, ticks: Seq<(int, int)>) -> int
    decreases ticks.len(),
{
    if ticks.len() == 0 {
        0
    } else {
        counted_total(start_tick, ticks.drop_last()) + counted_gap(
            ticks.last().0,
            tick_before(start_tick, ticks, ticks.len() - 1),
        )
    }
}

/// A tick adds exactly the gap from the previous tick to the last activity
/// where that gap is positive and under the idle cutoff, and nothing where it
/// is not, as long as the total stays within a `u64`.
pub proof fn lemma_tick_adds_gap(s: UsageState, last_activity: int, now: int)
    requires
        0 <= s.total,
        s.total + counted_gap(last_activity, s.last_tick) <= u64::MAX,
    ensures
        ({
            let g = last_activity - s.last_tick;
            &&& 0 < g < IDLE_CUTOFF_MICROS ==> tick_step(s, last_activity, now).total == s.total + g
            &&& (g <= 0 || g >= IDLE_CUTOFF_MICROS) ==> tick_step(s, last_activity, now).total
                == s.total
        }),
        tick_step(s, last_activity, now).last_tick == now,
{
}

/// Over any run of ticks, the total is the starting total plus every gap that
/// the ticks counted, as long as that sum stays within a `u64`. Appends do
/// not touch the total, so each one records every gap counted before it,
/// including those whose own append failed.
pub proof fn lemma_total_carries_every_gap(s: UsageState, ticks: Seq<(int, int)>)
    requires
        0 <= s.total,
        s.total + counted_total(s.last_tick, ticks) <= u64::MAX,
    ensures
        tick_run(s, ticks).total == s.total + counted_total(s.last_tick, ticks),
        tick_run(s, ticks).last_tick == if ticks.len() == 0 {
            s.last_tick
        } else {
            ticks.last().1
        },
    decreases ticks.len(),
{
    if ticks.len() > 0 {
        let prev = ticks.drop_last();
        lemma_total_carries_every_gap(s, prev);
    }
}

} // verus!
