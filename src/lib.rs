//! Tracks periods of pointer activity and accumulates usage time.
//!
//! Instants are microseconds since the Unix epoch (`i64`), and durations are
//! whole microseconds. The library holds the decisions: which input events
//! count as activity, whether a tick counts the time since the previous one,
//! and what a persisted log entry holds. Reading the clock goes through
//! chrono; the event source, storage and display live outside the library.
mod time;
mod clock;
mod bridge;
mod accumulator;
mod entry;

pub use time::{MICROS_PER_SECOND, MIN_INSTANT_MICROS, MAX_INSTANT_MICROS, naive_utc_text};
pub use entry::UsageLogEntry;
pub use clock::{ActivityClock, clock_step, clock_run, clock_applied, lemma_clock_burst};
pub use bridge::{
    InputKind, EventBridge, MOVE_SPACING_MICROS, admits, next_move, counted_moves, lemma_moves_spaced,
};
pub use accumulator::{
    UsageAccumulator, UsageState, TickAction, IDLE_CUTOFF_MICROS, counted_gap, capped_sum, seed,
    seed_total, tick_step, tick_run, tick_before, counted_total, lemma_total_never_decreases,
    lemma_tick_adds_gap, lemma_total_carries_every_gap,
};
