use vstd::prelude::*;
use crate::clock::{ActivityClock, clock_step};
use crate::time::now_micros;

verus! {

/// The least time between two pointer moves that both count as activity.
pub const MOVE_SPACING_MICROS: i64 = 850_000;

/// The classes of input event that the bridge tells apart.
#[derive(Clone, Copy, Debug, PartialEq, Eq, Structural)]
pub enum InputKind {
    PointerMove,
    ButtonPress,
    ButtonRelease,
    Wheel,
    Other,
}

/// Whether an event of `kind` at `at` counts as activity, when the last
/// counted pointer move was at `last_move`.
pub open spec fn admits(last_move: int, kind: InputKind, at: int) -> bool {
    match kind {
        InputKind::PointerMove => at - last_move >= MOVE_SPACING_MICROS,
        InputKind::Other => false,
        _ => true,
    }
}

/// The time of the last counted pointer move after an event of `kind` at `at`.
pub open spec fn next_move(last_move: int, kind: InputKind, at: int) -> int {
    if kind == InputKind::PointerMove && admits(last_move, kind, at) {
        at
    } else {
        last_move
    }
}

/// Starting from a counted move at `last_move`, the pointer moves at `times`
/// that count as activity, in order.
pub open spec fn counted_moves(last_move: int, times: Seq<int>) -> Seq<int>
    decreases times.len(),
{
    if times.len() == 0 {
        Seq::empty()
    } else {
        let prev = counted_moves(last_move, times.drop_last());
        let from = if prev.len() == 0 {
            last_move
        } else {
            prev.last()
        };
        if admits(from, InputKind::PointerMove, times.last()) {
            prev.push(times.last())
        } else {
            prev
        }
    }
}

/// Forwards input events to an activity clock, with pointer moves coalesced.
pub struct EventBridge {
    last_move: i64,
}

impl View for EventBridge {
    type V = int;

    /// The time of the last pointer move that counted as activity.
    closed spec fn view(&self) -> int {
        self.last_move as int
    }
}

impl EventBridge {
    /// A bridge that treats `at` as the time of the last counted move.
    pub fn new(at: i64) -> (r: EventBridge)
        ensures
            r@ == at,
    {
        EventBridge { last_move: at }
    }

    /// A bridge that treats now as the time of the last counted move.
    pub fn start() -> (r: EventBridge) {
        EventBridge::new(now_micros())
    }

    /// Decides whether an event of `kind` at `at` counts as activity. A pointer
    /// move counts only once at least the move spacing has passed since the
    /// last one that counted; presses, releases and wheel events always count;
    /// other events never do.
    pub fn admit_at(&mut self, kind: InputKind, at: i64) -> (r: bool)
        ensures
            r == admits(old(self)@, kind, at as int),
            final(self)@ == next_move(old(self)@, kind, at as int),
    {
        match kind {
            InputKind::PointerMove => {
                let due = at as i128 - self.last_move as i128 >= MOVE_SPACING_MICROS as i128;
                if due {
                    self.last_move = at;
                }
                due
            },
            InputKind::Other => false,
            _ => true,
        }
    }

    /// Handles an event of `kind` at `at`: where it counts as activity, the
    /// clock records activity at `at`.
    pub fn on_input_at(&mut self, kind: InputKind, at: i64, clock: &mut ActivityClock) -> (r: bool)
        ensures
            r == admits(old(self)@, kind, at as int),
            final(self)@ == next_move(old(self)@, kind, at as int),
            final(clock)@ == if r {
                clock_step(old(clock)@, at as int)
            } else {
                old(clock)@
            },
    {
        let counted = self.admit_at(kind, at);
        if counted {
            clock.record_activity_at(at);
        }
        counted
    }

    /// Handles an event of `kind` that happened now.
    pub fn on_input(&mut self, kind: InputKind, clock: &mut ActivityClock) -> (r: bool)
        ensures
            exists|t: int|
                #![trigger admits(old(self)@, kind, t)]
                r == admits(old(self)@, kind, t) && final(self)@ == next_move(
                    old(self)@,
                    kind,
                    t,
                ) && final(clock)@ == if r {
                    clock_step(old(clock)@, t)
                } else {
                    old(clock)@
                },
    {
        let now = now_micros();
        self.on_input_at(kind, now, clock)
    }
}

/// Pointer moves are coalesced: of any run of moves, the first that counts
/// comes at least the move spacing after the last counted move, and any two
/// consecutive ones that count are at least the move spacing apart, so at
/// most one counts in any window shorter than the spacing.
pub proof fn lemma_moves_spaced(last_move: int, times: Seq<int>)
    ensures
        counted_moves(last_move, times).len() > 0 ==> counted_moves(last_move, times)[0] - last_move
            >= MOVE_SPACING_MICROS,
        forall|i: int|
            0 <= i < counted_moves(last_move, times).len() - 1 ==> #[trigger] counted_moves(
                last_move,
                times,
            )[i + 1] - counted_moves(last_move, times)[i] >= MOVE_SPACING_MICROS,
    decreases times.len(),
{
    if times.len() > 0 {
        lemma_moves_spaced(last_move, times.drop_last());
    }
}

} // verus!
